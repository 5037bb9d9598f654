//! The life of a harness process: what follows from what happens to it, until it ends.
use super::process::{read_outcome, Reading};
use vstd::prelude::*;

verus! {

/// How long a process may take to end once it was asked to, in milliseconds.
pub const SHUTDOWN_GRACE: u64 = 4000;

/// A process while it runs.
#[derive(Debug)]
pub struct Life {
    /// When it is ended by force, once it was asked to end.
    pub deadline: Option<u64>,
    pub output_closed: bool,
    /// It was told to close, and has not answered.
    pub close_pending: bool,
    pub input_open: bool,
    /// The number of the last call.
    pub last_call: u64,
    /// The calls that wait for an answer.
    pub pending: Vec<u64>,
}

/// The mathematical value of a process while it runs.
pub struct LifeView {
    pub deadline: Option<u64>,
    pub output_closed: bool,
    pub close_pending: bool,
    pub input_open: bool,
    pub last_call: u64,
    pub pending: Seq<u64>,
}

impl View for Life {
    type V = LifeView;

    open spec fn view(&self) -> LifeView {
        LifeView {
            deadline: self.deadline,
            output_closed: self.output_closed,
            close_pending: self.close_pending,
            input_open: self.input_open,
            last_call: self.last_call,
            pending: self.pending@,
        }
    }
}

/// What happens to a process.
#[derive(Clone, Copy, Debug)]
pub enum Happening {
    /// It is to end. `frames` says whether its protocol has anything to tell it.
    Stop { now: u64, frames: bool },
    /// The time to end has passed.
    Deadline,
    /// It has ended.
    Exit,
    /// It is called. `allowed` says whether the call may be made.
    Call { allowed: bool },
    /// A call was written. `waits` says whether somebody waits for it, `dispatched` that it is enough
    /// that it was written.
    Called { waits: bool, dispatched: bool },
    /// Something was to be written, and was not.
    WriteFailed,
    /// It was read from: so many bytes came, or a failure.
    Read { count: Option<usize> },
    /// The line that was read was looked at: what is wrong with it.
    Parsed { wrong: Option<&'static str> },
    /// The protocol has taken in a line, or not.
    Received { valid: bool },
    /// What came of a line was handed on, or nobody takes it any more.
    Told { taken: bool },
    /// The line was responded to. `closed` says that it confirms the close, `settles` which call it
    /// answers.
    Responded { closed: bool, settles: Option<u64> },
    /// Its history was read, or could not be.
    Captured { valid: bool },
    /// What came of its history was handed on, or nobody takes it any more.
    HistoryTold { taken: bool },
}

/// What is done next.
#[derive(Clone, Copy, Debug)]
pub enum Deed {
    /// Wait for what happens.
    Wait,
    /// Tell it to close.
    SendClose,
    /// Close its input.
    CloseInput,
    /// Write a call, with this number.
    WriteCall { id: u64 },
    /// Refuse a call.
    RefuseCall,
    /// Answer the call that was written, with nothing.
    AnswerNow,
    /// Look at the line that was read.
    Parse,
    /// Hand the line to the protocol.
    Receive,
    /// Hand on what came of the line.
    Tell,
    /// Write what the protocol responds to the line.
    Respond,
    /// Close the input where asked to, and hand the answer to who waits for the call.
    Settle { close_input: bool, answers: Option<u64> },
    /// Hand on what came of the history.
    TellHistory,
    /// The life of the process is over.
    End(&'static str),
}

/// The mathematical value of what is done next.
pub enum DeedView {
    Wait,
    SendClose,
    CloseInput,
    WriteCall { id: u64 },
    RefuseCall,
    AnswerNow,
    Parse,
    Receive,
    Tell,
    Respond,
    Settle { close_input: bool, answers: Option<u64> },
    TellHistory,
    End(Seq<char>),
}

impl View for Deed {
    type V = DeedView;

    open spec fn view(&self) -> DeedView {
        match self {
            Deed::Wait => DeedView::Wait,
            Deed::SendClose => DeedView::SendClose,
            Deed::CloseInput => DeedView::CloseInput,
            Deed::WriteCall { id } => DeedView::WriteCall { id: *id },
            Deed::RefuseCall => DeedView::RefuseCall,
            Deed::AnswerNow => DeedView::AnswerNow,
            Deed::Parse => DeedView::Parse,
            Deed::Receive => DeedView::Receive,
            Deed::Tell => DeedView::Tell,
            Deed::Respond => DeedView::Respond,
            Deed::Settle { close_input, answers } => DeedView::Settle {
                close_input: *close_input,
                answers: *answers,
            },
            Deed::TellHistory => DeedView::TellHistory,
            Deed::End(why) => DeedView::End(why@),
        }
    }
}

/// A number some time later, or the largest one.
pub open spec fn later(now: u64, more: u64) -> u64 {
    if now + more > u64::MAX {
        u64::MAX
    } else {
        (now + more) as u64
    }
}

/// The calls without one.
pub open spec fn calls_without(calls: Seq<u64>, id: u64) -> Seq<u64>
    decreases calls.len(),
{
    if calls.len() == 0 {
        calls
    } else {
        let before = calls_without(calls.drop_last(), id);
        if calls.last() == id {
            before
        } else {
            before.push(calls.last())
        }
    }
}

/// The call that an answer settles, if somebody waits for it.
pub open spec fn settled_call(l: LifeView, settles: Option<u64>) -> Option<u64> {
    match settles {
        Some(id) => if l.pending.contains(id) {
            Some(id)
        } else {
            None
        },
        None => None,
    }
}

/// What follows from what happens to a process.
pub open spec fn lived(l: LifeView, h: Happening) -> (LifeView, DeedView) {
    match h {
        Happening::Stop { now, frames } => if l.deadline is Some {
            (l, DeedView::Wait)
        } else {
            (
                LifeView {
                    deadline: Some(later(now, SHUTDOWN_GRACE)),
                    close_pending: frames,
                    input_open: l.input_open && frames,
                    ..l
                },
                if frames {
                    DeedView::SendClose
                } else {
                    DeedView::CloseInput
                },
            )
        },
        Happening::Deadline => (
            l,
            if l.deadline is Some {
                DeedView::End("harness shutdown timed out"@)
            } else {
                DeedView::Wait
            },
        ),
        Happening::Exit => (
            l,
            DeedView::End(
                if l.deadline is Some {
                    "service stopped owned harness"@
                } else {
                    "harness process exited"@
                },
            ),
        ),
        Happening::Call { allowed } => if allowed && l.deadline is None {
            (
                LifeView { last_call: (l.last_call + 1) as u64, ..l },
                DeedView::WriteCall { id: (l.last_call + 1) as u64 },
            )
        } else {
            (l, DeedView::RefuseCall)
        },
        Happening::Called { waits, dispatched } => if !waits {
            (l, DeedView::Wait)
        } else if dispatched {
            (l, DeedView::AnswerNow)
        } else {
            (LifeView { pending: l.pending.push(l.last_call), ..l }, DeedView::Wait)
        },
        Happening::WriteFailed => (l, DeedView::End("harness stdin closed"@)),
        Happening::Read { count } => match count {
            Some(n) => if n > 0 {
                (l, DeedView::Parse)
            } else if l.deadline is Some {
                (LifeView { output_closed: true, ..l }, DeedView::Wait)
            } else {
                (l, DeedView::End("harness stdout closed"@))
            },
            None => (l, DeedView::End("harness stdout closed"@)),
        },
        Happening::Parsed { wrong } => (
            l,
            match wrong {
                Some(why) => DeedView::End(why@),
                None => DeedView::Receive,
            },
        ),
        Happening::Received { valid } => (
            l,
            if valid {
                DeedView::Tell
            } else {
                DeedView::End("invalid native state"@)
            },
        ),
        Happening::Told { taken } => (
            l,
            if taken {
                DeedView::Respond
            } else {
                DeedView::End("recording owner disconnected"@)
            },
        ),
        Happening::Responded { closed, settles } => {
            let closes = l.close_pending && closed;
            let answers = settled_call(l, settles);
            (
                LifeView {
                    close_pending: l.close_pending && !closed,
                    input_open: l.input_open && !closes,
                    pending: match answers {
                        Some(id) => calls_without(l.pending, id),
                        None => l.pending,
                    },
                    ..l
                },
                DeedView::Settle { close_input: closes, answers },
            )
        },
        Happening::Captured { valid } => (
            l,
            if valid {
                DeedView::TellHistory
            } else {
                DeedView::End("native history capture failed"@)
            },
        ),
        Happening::HistoryTold { taken } => (
            l,
            if taken {
                DeedView::Wait
            } else {
                DeedView::End("recording owner disconnected"@)
            },
        ),
    }
}

fn has_call(calls: &Vec<u64>, id: u64) -> (r: bool)
    ensures
        r == calls@.contains(id),
{
    let mut i: usize = 0;
    while i < calls.len()
        invariant
            i <= calls.len(),
            forall|j: int| 0 <= j < i ==> calls@[j] != id,
        decreases calls.len() - i,
    {
        if calls[i] == id {
            return true;
        }
        i += 1;
    }
    false
}

fn drop_call(calls: &Vec<u64>, id: u64) -> (r: Vec<u64>)
    ensures
        r@ == calls_without(calls@, id),
{
    let mut out: Vec<u64> = Vec::new();
    let mut i: usize = 0;
    assert(calls@.take(0) =~= Seq::empty());
    while i < calls.len()
        invariant
            i <= calls.len(),
            out@ == calls_without(calls@.take(i as int), id),
        decreases calls.len() - i,
    {
        assert(calls@.take(i + 1).drop_last() =~= calls@.take(i as int));
        if calls[i] != id {
            out.push(calls[i]);
        }
        i += 1;
    }
    assert(calls@.take(i as int) =~= calls@);
    out
}

impl Life {
    /// A process that has just been started.
    pub fn new() -> (r: Life)
        ensures
            r@ == (LifeView {
                deadline: None,
                output_closed: false,
                close_pending: false,
                input_open: true,
                last_call: 0,
                pending: Seq::empty(),
            }),
    {
        Life {
            deadline: None,
            output_closed: false,
            close_pending: false,
            input_open: true,
            last_call: 0,
            pending: Vec::new(),
        }
    }

    /// Whether calls are taken now: not once the process is to end, and not while it is paused.
    pub fn takes_calls(&self, paused: bool) -> (r: bool)
        ensures
            r == (self@.deadline is None && !paused),
    {
        self.deadline.is_none() && !paused
    }

    /// What follows from what happens to the process.
    pub fn step(&mut self, h: Happening) -> (r: Deed)
        requires
            h is Call ==> old(self)@.last_call < u64::MAX,
        ensures
            (final(self)@, r@) == lived(old(self)@, h),
    {
        match h {
            Happening::Stop { now, frames } => {
                if self.deadline.is_some() {
                    return Deed::Wait;
                }
                self.deadline = Some(now.saturating_add(SHUTDOWN_GRACE));
                self.close_pending = frames;
                self.input_open = self.input_open && frames;
                if frames {
                    Deed::SendClose
                } else {
                    Deed::CloseInput
                }
            },
            Happening::Deadline => if self.deadline.is_some() {
                Deed::End("harness shutdown timed out")
            } else {
                Deed::Wait
            },
            Happening::Exit => Deed::End(
                if self.deadline.is_some() {
                    "service stopped owned harness"
                } else {
                    "harness process exited"
                },
            ),
            Happening::Call { allowed } => {
                if !allowed || self.deadline.is_some() {
                    return Deed::RefuseCall;
                }
                self.last_call = self.last_call + 1;
                Deed::WriteCall { id: self.last_call }
            },
            Happening::Called { waits, dispatched } => {
                if !waits {
                    return Deed::Wait;
                }
                if dispatched {
                    return Deed::AnswerNow;
                }
                self.pending.push(self.last_call);
                Deed::Wait
            },
            Happening::WriteFailed => Deed::End("harness stdin closed"),
            Happening::Read { count } => match read_outcome(count, self.deadline.is_some()) {
                Reading::Line => Deed::Parse,
                Reading::Ended => {
                    self.output_closed = true;
                    Deed::Wait
                },
                Reading::Lost => Deed::End("harness stdout closed"),
            },
            Happening::Parsed { wrong } => match wrong {
                Some(why) => Deed::End(why),
                None => Deed::Receive,
            },
            Happening::Received { valid } => if valid {
                Deed::Tell
            } else {
                Deed::End("invalid native state")
            },
            Happening::Told { taken } => if taken {
                Deed::Respond
            } else {
                Deed::End("recording owner disconnected")
            },
            Happening::Responded { closed, settles } => {
                let closes = self.close_pending && closed;
                let answers = match settles {
                    Some(id) => if has_call(&self.pending, id) {
                        Some(id)
                    } else {
                        None
                    },
                    None => None,
                };
                if closes {
                    self.close_pending = false;
                    self.input_open = false;
                }
                if let Some(id) = answers {
                    self.pending = drop_call(&self.pending, id);
                }
                Deed::Settle { close_input: closes, answers }
            },
            Happening::Captured { valid } => if valid {
                Deed::TellHistory
            } else {
                Deed::End("native history capture failed")
            },
            Happening::HistoryTold { taken } => if taken {
                Deed::Wait
            } else {
                Deed::End("recording owner disconnected")
            },
        }
    }
}

/// The time at which a process is ended by force is set once: asking it again to end changes nothing.
pub proof fn deadlines_stay(l: LifeView, h: Happening)
    requires
        l.deadline is Some,
    ensures
        lived(l, h).0.deadline == l.deadline,
        h is Stop ==> lived(l, h) == (l, DeedView::Wait),
        h is Call ==> lived(l, h) == (l, DeedView::RefuseCall),
{
}

/// What an answer settles does not wait any more, and an answer that comes again settles nothing.
pub proof fn calls_are_answered_once(l: LifeView, closed: bool, again: bool, id: u64)
    ensures
        ({
            let after = lived(l, Happening::Responded { closed, settles: Some(id) }).0;
            &&& !after.pending.contains(id)
            &&& lived(after, Happening::Responded { closed: again, settles: Some(id) }).1 matches
                DeedView::Settle { answers: None, .. }
        }),
{
    calls_leave(l.pending, id);
}

proof fn calls_leave(calls: Seq<u64>, id: u64)
    ensures
        !calls_without(calls, id).contains(id),
    decreases calls.len(),
{
    if calls.len() > 0 {
        calls_leave(calls.drop_last(), id);
        let before = calls_without(calls.drop_last(), id);
        let now = calls_without(calls, id);
        if now.contains(id) {
            let i = choose|i: int| 0 <= i < now.len() && now[i] == id;
            if i < before.len() {
                assert(before[i] == id);
            }
        }
    }
}

/// A process that was not asked to end is never taken for one that was.
pub proof fn only_stopped_processes_end_as_stopped(l: LifeView, h: Happening)
    requires
        l.deadline is None,
        !(h is Parsed),
    ensures
        lived(l, h).1 != DeedView::End("service stopped owned harness"@),
        lived(l, h).1 != DeedView::End("harness shutdown timed out"@),
{
    reveal_strlit("service stopped owned harness");
    reveal_strlit("harness shutdown timed out");
    reveal_strlit("harness process exited");
    reveal_strlit("harness stdin closed");
    reveal_strlit("harness stdout closed");
    reveal_strlit("invalid native state");
    reveal_strlit("recording owner disconnected");
    reveal_strlit("native history capture failed");
    assert("service stopped owned harness"@.len() == 29);
    assert("harness shutdown timed out"@.len() == 26);
    assert("harness process exited"@.len() == 22);
    assert("harness stdin closed"@.len() == 20);
    assert("harness stdout closed"@.len() == 21);
    assert("invalid native state"@.len() == 20);
    assert("recording owner disconnected"@.len() == 28);
    assert("native history capture failed"@.len() == 29);
    assert("native history capture failed"@[0] != "service stopped owned harness"@[0]);
}

/// What is done once the life of a process is over, while its history is read to the end.
#[derive(Clone, Copy, PartialEq, Eq, Structural, Debug)]
pub enum Remainder {
    /// What was read is handed on, and more is read.
    More,
    /// There may be more later.
    Later,
    /// All was read.
    Complete,
    /// It cannot be read.
    Failed,
}

/// What a look at the history of a process that has ended comes to: how many records it held, or none
/// where it failed; `open` says that the history is still being written.
pub fn remainder(count: Option<usize>, open: bool) -> (r: Remainder)
    ensures
        r == match count {
            None => Remainder::Failed,
            Some(n) => if n > 0 {
                Remainder::More
            } else if open {
                Remainder::Later
            } else {
                Remainder::Complete
            },
        },
{
    match count {
        None => Remainder::Failed,
        Some(n) => if n > 0 {
            Remainder::More
        } else if open {
            Remainder::Later
        } else {
            Remainder::Complete
        },
    }
}

} // verus!
