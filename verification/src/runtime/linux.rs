//! The containment of the processes of a harness.
use crate::fault::{other, Fault, FaultKind, FaultView};
use crate::text::{chars_of, deep, lines, lines_of, same, string_of, trim_start, trimmed_start};
use vstd::prelude::*;

verus! {

/// Some line of a text is the one that is looked for.
pub open spec fn has_line(text: Seq<char>, line: Seq<char>) -> bool {
    lines(text).contains(line)
}

/// Whether some line of a text is the one that is looked for.
pub fn holds_line(text: &str, line: &str) -> (r: bool)
    ensures
        r == has_line(text@, line@),
{
    let chars = chars_of(text);
    let all = lines_of(chars.as_slice());
    let ghost every = lines(text@);
    assert(deep(all@) == every);
    let mut i: usize = 0;
    while i < all.len()
        invariant
            i <= all.len(),
            deep(all@) == every,
            every == lines(text@),
            forall|j: int| 0 <= j < i ==> every[j] != line@,
        decreases all.len() - i,
    {
        assert(every[i as int] == all@[i as int]@);
        if same(string_of(all[i].as_slice()).as_str(), line) {
            return true;
        }
        i += 1;
    }
    false
}

/// The group is frozen, or is not, as its events say.
pub fn is_frozen(events: &str, frozen: bool) -> (r: bool)
    ensures
        r == has_line(
            events@,
            if frozen {
                "frozen 1"@
            } else {
                "frozen 0"@
            },
        ),
{
    holds_line(
        events,
        if frozen {
            "frozen 1"
        } else {
            "frozen 0"
        },
    )
}

/// No process is left in the group, as its events say.
pub fn is_empty(events: &str) -> (r: bool)
    ensures
        r == has_line(events@, "populated 0"@),
{
    holds_line(events, "populated 0")
}

/// What happens while a group is frozen or thawed.
#[derive(Debug)]
pub enum Freezing {
    /// It is asked for.
    Asked,
    /// The group was told.
    Told,
    /// The events of the group were read.
    Seen(String),
    /// No events have confirmed it in time.
    Late,
}

/// The mathematical value of what happens.
pub enum FreezingView {
    Asked,
    Told,
    Seen(Seq<char>),
    Late,
}

impl View for Freezing {
    type V = FreezingView;

    open spec fn view(&self) -> FreezingView {
        match self {
            Freezing::Asked => FreezingView::Asked,
            Freezing::Told => FreezingView::Told,
            Freezing::Seen(events) => FreezingView::Seen(events@),
            Freezing::Late => FreezingView::Late,
        }
    }
}

/// What is done next to freeze or thaw a group.
#[derive(Debug)]
pub enum FreezeStep {
    /// The group is told, in this word.
    Tell(&'static str),
    /// The events of the group are read.
    Look,
    Done,
    Fail(Fault),
}

/// The mathematical value of what is done next.
pub enum FreezeStepView {
    Tell(Seq<char>),
    Look,
    Done,
    Fail(FaultView),
}

impl View for FreezeStep {
    type V = FreezeStepView;

    open spec fn view(&self) -> FreezeStepView {
        match self {
            FreezeStep::Tell(word) => FreezeStepView::Tell(word@),
            FreezeStep::Look => FreezeStepView::Look,
            FreezeStep::Done => FreezeStepView::Done,
            FreezeStep::Fail(fault) => FreezeStepView::Fail(fault@),
        }
    }
}

/// Whether a group counts as paused, and what is done next to freeze or thaw it. It is thawed only by
/// who has frozen it; it counts as paused as soon as it was told to freeze, and until it is seen to be
/// thawed.
pub open spec fn freezing(paused: bool, frozen: bool, event: FreezingView) -> (bool, FreezeStepView) {
    match event {
        FreezingView::Asked => if !frozen && !paused {
            (paused, FreezeStepView::Done)
        } else {
            (
                paused,
                FreezeStepView::Tell(
                    if frozen {
                        "1"@
                    } else {
                        "0"@
                    },
                ),
            )
        },
        FreezingView::Told => (paused || frozen, FreezeStepView::Look),
        FreezingView::Seen(events) => if has_line(
            events,
            if frozen {
                "frozen 1"@
            } else {
                "frozen 0"@
            },
        ) {
            (paused && frozen, FreezeStepView::Done)
        } else {
            (paused, FreezeStepView::Look)
        },
        FreezingView::Late => (
            paused,
            FreezeStepView::Fail(other("workload freeze state unconfirmed"@)),
        ),
    }
}

/// What is done next to freeze or thaw a group. Notes whether the group counts as paused.
pub fn freeze(paused: &mut bool, frozen: bool, event: Freezing) -> (r: FreezeStep)
    ensures
        (*final(paused), r@) == freezing(*old(paused), frozen, event@),
{
    match event {
        Freezing::Asked => if !frozen && !*paused {
            FreezeStep::Done
        } else {
            FreezeStep::Tell(
                if frozen {
                    "1"
                } else {
                    "0"
                },
            )
        },
        Freezing::Told => {
            *paused = *paused || frozen;
            FreezeStep::Look
        },
        Freezing::Seen(events) => if is_frozen(events.as_str(), frozen) {
            *paused = *paused && frozen;
            FreezeStep::Done
        } else {
            FreezeStep::Look
        },
        Freezing::Late => FreezeStep::Fail(Fault::other("workload freeze state unconfirmed")),
    }
}

/// A group that nobody has frozen is never told to thaw, and one that is being thawed counts as paused
/// until it is seen to be thawed.
pub proof fn groups_are_thawed_by_their_owner(paused: bool, event: FreezingView)
    ensures
        freezing(false, false, event).1 != FreezeStepView::Tell("0"@),
        paused && !freezing(paused, false, event).0 ==> event is Seen && has_line(
            event->Seen_0,
            "frozen 0"@,
        ),
        paused ==> freezing(paused, true, event).0,
{
}

/// The agent is neither the superuser nor in its group.
pub fn check_identity(uid: u32, gid: u32) -> (r: Result<(), Fault>)
    ensures
        r is Ok <==> uid != 0 && gid != 0,
        r matches Err(f) ==> f@ == other("agent identity must be unprivileged"@),
{
    if uid == 0 || gid == 0 {
        Err(Fault::other("agent identity must be unprivileged"))
    } else {
        Ok(())
    }
}

/// What is known of a process.
#[derive(Clone, Copy, PartialEq, Eq, Structural, Debug)]
pub enum Presence {
    Gone,
    Unknown,
    Running,
}

/// What a look at a process shows: it is gone where it is not listed, or has ended.
pub open spec fn presence_of(code: Option<i32>, listing: Seq<char>, error: bool) -> Presence {
    let state = trimmed_start(listing);
    if code == Some(1i32) && !error && listing.len() == 0 {
        Presence::Gone
    } else if code == Some(0i32) && state.len() > 0 && state[0] == 'Z' {
        Presence::Gone
    } else if code != Some(0i32) {
        Presence::Unknown
    } else {
        Presence::Running
    }
}

/// What a look at a process shows.
pub fn presence(code: Option<i32>, listing: &str, error: bool) -> (r: Presence)
    ensures
        r == presence_of(code, listing@, error),
{
    let chars = chars_of(listing);
    let state = trim_start(chars.as_slice());
    match code {
        Some(0) => if state.len() > 0 && state[0] == 'Z' {
            Presence::Gone
        } else {
            Presence::Running
        },
        Some(1) => if !error && chars.len() == 0 {
            Presence::Gone
        } else {
            Presence::Unknown
        },
        _ => Presence::Unknown,
    }
}

// Waiting for the answer to a call.

/// How long an answer is still waited for. Time counts only while the work is not paused.
#[derive(Clone, Copy, PartialEq, Eq, Structural, Debug)]
pub struct Patience {
    /// The milliseconds that are left.
    pub remaining: u64,
    pub paused: bool,
    /// The process belongs to a group, which can be paused.
    pub grouped: bool,
}

/// What happens while an answer is waited for.
#[derive(Clone, Copy, PartialEq, Eq, Structural, Debug)]
pub enum Wait {
    /// The answer came.
    Answered,
    /// Nobody is left who could answer.
    Lost,
    /// So many milliseconds have passed.
    Passed { ms: u64 },
    /// After so many milliseconds the work was paused, or goes on.
    Changed { paused: bool, ms: u64 },
    /// Nobody is left who could pause the work or let it go on.
    OwnerLost,
}

/// What comes of it.
#[derive(Debug)]
pub enum Verdict {
    /// The answer is handed on.
    Answer,
    /// It is waited on: for so many milliseconds, or for as long as the work is paused.
    Wait { limit: Option<u64> },
    /// It is waited no more.
    Fail(Fault),
}

/// The mathematical value of what comes of it.
pub enum VerdictView {
    Answer,
    Wait { limit: Option<u64> },
    Fail(FaultView),
}

impl View for Verdict {
    type V = VerdictView;

    open spec fn view(&self) -> VerdictView {
        match self {
            Verdict::Answer => VerdictView::Answer,
            Verdict::Wait { limit } => VerdictView::Wait { limit: *limit },
            Verdict::Fail(fault) => VerdictView::Fail(fault@),
        }
    }
}

/// The failure of an answer that did not come in time.
pub open spec fn timed_out(grouped: bool) -> FaultView {
    FaultView {
        kind: if grouped {
            FaultKind::Other
        } else {
            FaultKind::TimedOut
        },
        message: "harness response timed out; outcome uncertain"@,
    }
}

/// The milliseconds that are left after some have passed.
pub open spec fn left(p: Patience, ms: u64) -> u64 {
    if p.paused {
        p.remaining
    } else if p.remaining >= ms {
        (p.remaining - ms) as u64
    } else {
        0
    }
}

/// What is waited for next.
pub open spec fn wait_on(p: Patience) -> VerdictView {
    VerdictView::Wait {
        limit: if p.paused {
            None
        } else {
            Some(p.remaining)
        },
    }
}

/// What follows from what happens while an answer is waited for.
pub open spec fn waited(p: Patience, event: Wait) -> (Patience, VerdictView) {
    match event {
        Wait::Answered => (p, VerdictView::Answer),
        Wait::Lost => (
            p,
            VerdictView::Fail(other("harness response lost; outcome uncertain"@)),
        ),
        Wait::OwnerLost => (p, VerdictView::Fail(other("workload owner lost"@))),
        Wait::Passed { ms } => {
            let next = Patience { remaining: left(p, ms), ..p };
            if !p.paused && next.remaining == 0 {
                (next, VerdictView::Fail(timed_out(p.grouped)))
            } else {
                (next, wait_on(next))
            }
        },
        Wait::Changed { paused, ms } => {
            let next = Patience { remaining: left(p, ms), paused, ..p };
            (next, wait_on(next))
        },
    }
}

impl Patience {
    /// An answer is waited for so many milliseconds.
    pub fn new(limit: u64, paused: bool, grouped: bool) -> (r: Patience)
        ensures
            r == (Patience { remaining: limit, paused, grouped }),
    {
        Patience { remaining: limit, paused, grouped }
    }

    /// What is waited for: so many milliseconds, or as long as the work is paused.
    pub fn limit(&self) -> (r: Option<u64>)
        ensures
            wait_on(*self) == (VerdictView::Wait { limit: r }),
    {
        if self.paused {
            None
        } else {
            Some(self.remaining)
        }
    }

    fn count(&mut self, ms: u64)
        ensures
            *final(self) == (Patience { remaining: left(*old(self), ms), ..*old(self) }),
    {
        if !self.paused {
            self.remaining = if self.remaining >= ms {
                self.remaining - ms
            } else {
                0
            };
        }
    }

    /// What follows from what happens while the answer is waited for.
    pub fn step(&mut self, event: Wait) -> (r: Verdict)
        ensures
            (*final(self), r@) == waited(*old(self), event),
    {
        match event {
            Wait::Answered => Verdict::Answer,
            Wait::Lost => Verdict::Fail(Fault::other("harness response lost; outcome uncertain")),
            Wait::OwnerLost => Verdict::Fail(Fault::other("workload owner lost")),
            Wait::Passed { ms } => {
                self.count(ms);
                if !self.paused && self.remaining == 0 {
                    return Verdict::Fail(
                        Fault {
                            kind: if self.grouped {
                                FaultKind::Other
                            } else {
                                FaultKind::TimedOut
                            },
                            message: "harness response timed out; outcome uncertain".to_owned(),
                        },
                    );
                }
                Verdict::Wait { limit: self.limit() }
            },
            Wait::Changed { paused, ms } => {
                self.count(ms);
                self.paused = paused;
                Verdict::Wait { limit: self.limit() }
            },
        }
    }
}

/// What is left after some events.
pub open spec fn waited_on(p: Patience, events: Seq<Wait>) -> Patience
    decreases events.len(),
{
    if events.len() == 0 {
        p
    } else {
        waited(waited_on(p, events.drop_last()), events.last()).0
    }
}

/// The milliseconds among some events in which the work was not paused.
pub open spec fn running_time(p: Patience, events: Seq<Wait>) -> int
    decreases events.len(),
{
    if events.len() == 0 {
        0
    } else {
        let before = running_time(p, events.drop_last());
        if waited_on(p, events.drop_last()).paused {
            before
        } else {
            match events.last() {
                Wait::Passed { ms } => before + ms,
                Wait::Changed { paused, ms } => before + ms,
                _ => before,
            }
        }
    }
}

/// An event lets the work go on.
pub open spec fn resumes(event: Wait) -> bool {
    match event {
        Wait::Changed { paused, ms } => !paused,
        _ => false,
    }
}

/// Pausing work never turns a call that runs into one that came too late: whatever happens while the
/// work is paused, and for however long, the answer is not given up for the time that passed, and as much
/// time is left as before.
pub proof fn pauses_never_time_out(p: Patience, events: Seq<Wait>, next: Wait)
    requires
        p.paused,
        forall|i: int| 0 <= i < events.len() ==> !resumes(#[trigger] events[i]),
    ensures
        waited_on(p, events) == p,
        waited(p, next).1 != VerdictView::Fail(timed_out(p.grouped)),
        waited(p, next).0.remaining == p.remaining,
    decreases events.len(),
{
    if events.len() > 0 {
        assert forall|i: int| 0 <= i < events.len() - 1 implies !resumes(
            #[trigger] events.drop_last()[i],
        ) by {
            assert(events.drop_last()[i] == events[i]);
        }
        pauses_never_time_out(p, events.drop_last(), next);
        assert(!resumes(events[events.len() - 1]));
    }
    failures_differ(p.grouped);
}

/// An answer is given up as too late only once it was waited for as long as it may take, without the
/// time in which the work was paused.
pub proof fn only_running_time_counts(p: Patience, events: Seq<Wait>, next: Wait)
    requires
        waited(waited_on(p, events), next).1 == VerdictView::Fail(timed_out(p.grouped)),
    ensures
        running_time(p, events.push(next)) >= p.remaining,
{
    time_is_accounted_for(p, events);
    failures_differ(p.grouped);
    assert(events.push(next).drop_last() =~= events);
}

proof fn time_is_accounted_for(p: Patience, events: Seq<Wait>)
    ensures
        waited_on(p, events).remaining + running_time(p, events) >= p.remaining,
        waited_on(p, events).grouped == p.grouped,
    decreases events.len(),
{
    if events.len() > 0 {
        time_is_accounted_for(p, events.drop_last());
    }
}

/// An answer that was lost, one that came too late, and work without an owner are told apart.
pub proof fn failures_differ(grouped: bool)
    ensures
        timed_out(grouped) != other("harness response lost; outcome uncertain"@),
        timed_out(grouped) != other("workload owner lost"@),
        other("harness response lost; outcome uncertain"@) != other("workload owner lost"@),
{
    reveal_strlit("harness response timed out; outcome uncertain");
    reveal_strlit("harness response lost; outcome uncertain");
    reveal_strlit("workload owner lost");
    assert("harness response timed out; outcome uncertain"@.len() == 45);
    assert("harness response lost; outcome uncertain"@.len() == 40);
    assert("workload owner lost"@.len() == 19);
}

} // verus!
