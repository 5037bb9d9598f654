//! What harnesses tell, as it is recorded.
use super::command::{one_note, Next, NextView};
use super::lifecycle::{Step, StepView};
use super::prompt;
use super::query::{
    finishing, finishing_all, note, notes, push_note, resumable, select, selected, state_note,
    Note, NoteView, Wanted,
};
use super::{accepted, receipt_json, Error, ErrorView, Receipt, Session, SessionView};
use crate::json::{object, opt_text, Data, Json};
use crate::runtime::{last_of, Event, EventView, ExitDetails, ExitView, Kind};
use crate::text::{
    blank, chars_of, concat, deep, join, joined, lines, lines_of, lossy, opt, opt_slice, opt_str,
    push_text, retain_others, same, same_opt, signed_decimal, signed_decimal_of, string_of, text_lossy,
    trim, views, without,
};
use vstd::prelude::*;
use vstd::slice::slice_subrange;

verus! {

// The end of stderr.

/// The lines that are not blank.
pub open spec fn written_lines(all: Seq<Seq<char>>) -> Seq<Seq<char>>
    decreases all.len(),
{
    if all.len() == 0 {
        all
    } else {
        let before = written_lines(all.drop_last());
        if blank(all.last()) {
            before
        } else {
            before.push(all.last())
        }
    }
}

/// The last lines of harness stderr, shown under unexpected exits so that the cause is visible.
pub open spec fn tail_text(bytes: Seq<u8>) -> Seq<char> {
    joined(last_of(written_lines(lines(lossy(last_of(bytes, 2000)))), 20), "\n"@)
}

/// The last lines of harness stderr.
pub fn stderr_tail(bytes: &[u8]) -> (r: String)
    ensures
        r@ == tail_text(bytes@),
{
    let count = bytes.len();
    let start = if count > 2000 {
        count - 2000
    } else {
        0
    };
    let end = slice_subrange(bytes, start, count);
    assert(end@ =~= last_of(bytes@, 2000));
    let text = text_lossy(end);
    tail_of(text.as_str())
}

/// The last lines of a text that are not blank.
pub fn tail_of(text: &str) -> (r: String)
    ensures
        r@ == joined(last_of(written_lines(lines(text@)), 20), "\n"@),
{
    let chars = chars_of(text);
    let all = lines_of(chars.as_slice());
    let ghost whole = lines(text@);
    let mut kept: Vec<String> = Vec::new();
    let mut i: usize = 0;
    assert(whole.take(0) =~= Seq::empty());
    assert(views(kept@) =~= Seq::empty());
    while i < all.len()
        invariant
            i <= all.len(),
            deep(all@) == whole,
            views(kept@) == written_lines(whole.take(i as int)),
        decreases all.len() - i,
    {
        proof {
            assert(whole.take(i + 1).drop_last() =~= whole.take(i as int));
            assert(whole.take(i + 1).last() == all@[i as int]@);
        }
        let line: &Vec<char> = &all[i];
        if trim(line.as_slice()).len() > 0 {
            let ghost was = views(kept@);
            kept.push(string_of(line.as_slice()));
            assert(views(kept@) =~= was.push(line@));
        }
        i += 1;
    }
    assert(whole.take(i as int) =~= whole);
    let ghost written = views(kept@);
    let start = if kept.len() > 20 {
        kept.len() - 20
    } else {
        0
    };
    let mut last: Vec<String> = Vec::new();
    let mut j: usize = start;
    assert(views(last@) =~= Seq::empty());
    assert(written.subrange(start as int, start as int) =~= Seq::empty());
    while j < kept.len()
        invariant
            start <= j <= kept.len(),
            written == views(kept@),
            views(last@) == written.subrange(start as int, j as int),
        decreases kept.len() - j,
    {
        crate::text::push_string(&mut last, kept[j].as_str());
        j += 1;
        assert(written.subrange(start as int, j as int) =~= written.subrange(
            start as int,
            j - 1,
        ).push(written[j - 1]));
    }
    assert(views(last@) =~= last_of(written, 20));
    join(&last, "\n")
}

// The end of a harness process.

/// How the process ended, in words.
pub open spec fn exit_words(details: ExitView) -> Seq<char> {
    match details.code {
        Some(code) => "exit code "@ + signed_decimal(code as int),
        None => match details.signal {
            Some(signal) => "signal "@ + signed_decimal(signal as int),
            None => "no exit status"@,
        },
    }
}

/// Why the process is lost, in words.
pub open spec fn lost_words(reason: Seq<char>, details: ExitView) -> Seq<char> {
    match details.cause {
        Some(cause) => reason + ": "@ + cause + " ("@ + exit_words(details) + ")"@,
        None => reason + " ("@ + exit_words(details) + ")"@,
    }
}

/// A note that no process is held.
pub open spec fn no_process() -> NoteView {
    note("harness"@, Data::Object(map!["pid"@ => Data::Null]))
}

/// The session without its process.
pub open spec fn detached(s: SessionView) -> SessionView {
    SessionView { handle: None, ready: false, ..s }
}

/// The conversation can be continued by another process.
pub open spec fn exit_resumable(s: SessionView, cleaned_up: bool, stopping: bool) -> bool {
    cleaned_up && ((s.ready && resumable(s)) || (stopping && s.state == "resuming"@
        && s.native_id is Some && s.native_path is Some))
}

/// Another process is started at once: only where none was tried since the last healthy progress.
pub open spec fn exit_recovers(s: SessionView, cleaned_up: bool, stopping: bool) -> bool {
    exit_resumable(s, cleaned_up, stopping) && !stopping && !s.recovery_attempted
}

/// The state after the process ended.
pub open spec fn exit_state(s: SessionView, expected: bool, cleaned_up: bool, stopping: bool) -> Seq<
    char,
> {
    if expected && s.close_request is Some {
        "closed"@
    } else if exit_resumable(s, cleaned_up, stopping) && (stopping || exit_recovers(
        s,
        cleaned_up,
        stopping,
    )) {
        "suspended"@
    } else {
        "process_lost"@
    }
}

/// What is recorded of a state that an exit leads to.
pub open spec fn exit_note(
    state: Seq<char>,
    lost: Seq<char>,
    diagnostic: Seq<char>,
    stderr: Seq<char>,
) -> NoteView {
    note(
        "state"@,
        Data::Object(
            map![
                "state"@ => Data::Text(state),
                "reason"@ => Data::Text(lost),
                "diagnostic_id"@ => Data::Text(diagnostic),
                "stderr"@ => if state == "process_lost"@ && stderr.len() > 0 {
                    Data::Text(stderr)
                } else {
                    Data::Null
                }
            ],
        ),
    )
}

/// The turn that the process leaves behind has an uncertain outcome.
pub open spec fn abandoned(s: SessionView, stopping: bool) -> Seq<NoteView> {
    match s.current_request {
        Some(request) => finishing(
            s,
            request,
            if stopping || s.close_request is Some {
                "unknown"@
            } else {
                "unknown_after_restart"@
            },
            None,
        ),
        None => Seq::empty(),
    }
}

/// A request is known, if there is one.
pub open spec fn is_known(s: SessionView, request: Option<Seq<char>>) -> bool {
    match request {
        Some(request) => s.receipts.contains_key(request),
        None => true,
    }
}

/// What waits behind the turn that runs.
pub open spec fn behind_the_turn(s: SessionView) -> Seq<Seq<char>> {
    match s.current_request {
        Some(request) => without(s.queue, request),
        None => s.queue,
    }
}

/// What is recorded when the process of a session ends and the session neither sleeps nor is
/// rewound. It stops at a request that is not known.
pub open spec fn lost_notes(
    s: SessionView,
    reason: Seq<char>,
    expected: bool,
    cleaned_up: bool,
    details: ExitView,
    stopping: bool,
    diagnostic: Seq<char>,
) -> Seq<NoteView> {
    let state = exit_state(s, expected, cleaned_up, stopping);
    let lost = lost_words(reason, details);
    let ends = abandoned(s, stopping) + finishing_all(
        s,
        selected(s.receipts, Wanted::LostInterrupt),
        "unknown_after_restart"@,
        None,
    );
    let free = if cleaned_up {
        ends.push(no_process())
    } else {
        ends
    };
    let told = free.push(exit_note(state, lost, diagnostic, tail_text(details.stderr)));
    if !is_known(s, s.current_request) {
        Seq::empty()
    } else if !is_known(s, s.close_request) {
        told
    } else {
        told + lost_end(s, state, lost, expected, cleaned_up, stopping)
    }
}

/// What is recorded last when the process of a session ends: the end of a close, of what is queued
/// behind the turn, and the new attempt.
pub open spec fn lost_end(
    s: SessionView,
    state: Seq<char>,
    lost: Seq<char>,
    expected: bool,
    cleaned_up: bool,
    stopping: bool,
) -> Seq<NoteView> {
    let closed = match s.close_request {
        Some(request) => finishing(
            s,
            request,
            if expected {
                "completed"@
            } else {
                "unknown"@
            },
            None,
        ),
        None => Seq::empty(),
    };
    let failed = if state != "suspended"@ && s.startup_error != Some("startup_timeout"@) {
        closed + finishing_all(s, behind_the_turn(s), "failed"@, Some(lost))
    } else {
        closed
    };
    if exit_recovers(s, cleaned_up, stopping) {
        failed.push(state_note("resuming"@))
    } else {
        failed
    }
}

/// What is recorded when the released harness of an idle session has ended: the session sleeps,
/// and wakes at once where work has come meanwhile.
pub open spec fn slept_notes(s: SessionView) -> Seq<NoteView> {
    let asleep = seq![no_process(), state_note("sleeping"@)] + finishing_all(
        s,
        selected(s.receipts, Wanted::AcceptedSleep),
        "completed"@,
        None,
    );
    if wakes_again(s) {
        asleep.push(state_note("resuming"@))
    } else {
        asleep
    }
}

/// Work has come for a session that is about to sleep.
pub open spec fn wakes_again(s: SessionView) -> bool {
    s.queue.len() > 0 && !s.queue_paused && s.native_id is Some && s.native_path is Some
}

/// The session, and what is recorded, when its process ends.
pub open spec fn exited(
    s: SessionView,
    reason: Seq<char>,
    expected: bool,
    cleaned_up: bool,
    details: ExitView,
    stopping: bool,
    diagnostic: Seq<char>,
) -> (SessionView, StepView) {
    if expected && cleaned_up && s.rewind_request is Some {
        (detached(s), StepView { notes: seq![no_process()], next: NextView::Nothing })
    } else if s.releasing && cleaned_up && s.close_request is None {
        (
            SessionView { releasing: false, awake: None, ..detached(s) },
            StepView {
                notes: slept_notes(s),
                next: if wakes_again(s) {
                    NextView::Relaunch
                } else {
                    NextView::Nothing
                },
            },
        )
    } else {
        (
            SessionView { releasing: false, ..detached(s) },
            StepView {
                notes: lost_notes(
                    s,
                    reason,
                    expected,
                    cleaned_up,
                    details,
                    stopping,
                    diagnostic,
                ),
                next: if !is_known(s, s.current_request) || !is_known(s, s.close_request) {
                    NextView::GiveUp
                } else if exit_recovers(s, cleaned_up, stopping) {
                    NextView::Relaunch
                } else {
                    NextView::Nothing
                },
            },
        )
    }
}

fn exit_text(details: &ExitDetails) -> (r: String)
    ensures
        r@ == exit_words(details@),
{
    match details.code {
        Some(code) => concat("exit code ", signed_decimal_of(code).as_str()),
        None => match details.signal {
            Some(signal) => concat("signal ", signed_decimal_of(signal).as_str()),
            None => "no exit status".to_owned(),
        },
    }
}

fn lost_text(reason: &str, details: &ExitDetails) -> (r: String)
    ensures
        r@ == lost_words(reason@, details@),
{
    let exit = exit_text(details);
    let mut out = reason.to_owned();
    if let Some(cause) = &details.cause {
        push_text(&mut out, ": ");
        push_text(&mut out, cause.as_str());
    }
    push_text(&mut out, " (");
    push_text(&mut out, exit.as_str());
    push_text(&mut out, ")");
    out
}

fn free_note() -> (r: Note)
    ensures
        r@ == no_process(),
{
    Note::new("harness", Json::Object(object().with("pid", Json::Null)))
}

fn note_exit(state: &str, lost: &str, diagnostic: &str, stderr: &str) -> (r: Note)
    ensures
        r@ == exit_note(state@, lost@, diagnostic@, stderr@),
{
    let shown = if same(state, "process_lost") && !stderr.is_empty() {
        Json::text(stderr)
    } else {
        Json::Null
    };
    Note::new(
        "state",
        Json::Object(
            object().with_text("state", state).with_text("reason", lost).with_text(
                "diagnostic_id",
                diagnostic,
            ).with("stderr", shown),
        ),
    )
}

impl Session {
    fn exit_resumable(&self, cleaned_up: bool, stopping: bool) -> (r: bool)
        ensures
            r == exit_resumable(self@, cleaned_up, stopping),
    {
        proof {
            reveal(Session::snapshot);
        }
        cleaned_up && ((self.ready && self.can_resume()) || (stopping && same(
            self.state.as_str(),
            "resuming",
        ) && self.native_id.is_some() && self.native_path.is_some()))
    }

    fn exit_recovers(&self, cleaned_up: bool, stopping: bool) -> (r: bool)
        ensures
            r == exit_recovers(self@, cleaned_up, stopping),
    {
        proof {
            reveal(Session::snapshot);
        }
        self.exit_resumable(cleaned_up, stopping) && !stopping && !self.recovery_attempted
    }

    fn exit_state(&self, expected: bool, cleaned_up: bool, stopping: bool) -> (r: &'static str)
        ensures
            r@ == exit_state(self@, expected, cleaned_up, stopping),
    {
        proof {
            reveal(Session::snapshot);
        }
        if expected && self.close_request.is_some() {
            "closed"
        } else if self.exit_resumable(cleaned_up, stopping) && (stopping || self.exit_recovers(
            cleaned_up,
            stopping,
        )) {
            "suspended"
        } else {
            "process_lost"
        }
    }

    fn abandon(&self, stopping: bool) -> (r: Vec<Note>)
        ensures
            notes(r@) == abandoned(self@, stopping),
    {
        proof {
            reveal(Session::snapshot);
        }
        let mut list: Vec<Note> = Vec::new();
        assert(notes(list@) =~= Seq::empty());
        if let Some(request) = &self.current_request {
            let state = if stopping || self.close_request.is_some() {
                "unknown"
            } else {
                "unknown_after_restart"
            };
            let _ = self.finish(&mut list, request.as_str(), state, None);
            assert(notes(list@) =~= finishing(self@, request@, state@, None));
        }
        list
    }

    fn knows_opt(&self, request: &Option<String>) -> (r: bool)
        ensures
            r == is_known(self@, opt(*request)),
    {
        proof {
            reveal(Session::snapshot);
        }
        match request {
            Some(request) => self.receipts.contains(request.as_str()),
            None => true,
        }
    }

    fn lose(
        &self,
        reason: &str,
        expected: bool,
        cleaned_up: bool,
        details: &ExitDetails,
        stopping: bool,
        diagnostic: &str,
    ) -> (r: Vec<Note>)
        ensures
            notes(r@) == lost_notes(
                self@,
                reason@,
                expected,
                cleaned_up,
                details@,
                stopping,
                diagnostic@,
            ),
    {
        proof {
            reveal(Session::snapshot);
        }
        if !self.knows_opt(&self.current_request) {
            return nothing();
        }
        let state = self.exit_state(expected, cleaned_up, stopping);
        let lost = lost_text(reason, details);
        let stderr = stderr_tail(details.stderr());
        let mut list = self.abandon(stopping);
        let interrupts = select(&self.receipts, Wanted::LostInterrupt);
        self.finish_all(&mut list, &interrupts, "unknown_after_restart", None);
        if cleaned_up {
            push_note(&mut list, free_note());
        }
        push_note(&mut list, note_exit(state, lost.as_str(), diagnostic, stderr.as_str()));
        if !self.knows_opt(&self.close_request) {
            return list;
        }
        let ghost told = notes(list@);
        assert(told =~= told + Seq::<NoteView>::empty());
        if let Some(request) = &self.close_request {
            let closed = if expected {
                "completed"
            } else {
                "unknown"
            };
            let _ = self.finish(&mut list, request.as_str(), closed, None);
        }
        if !same(state, "suspended") && !same_opt(
            opt_slice(&self.startup_error),
            Some("startup_timeout"),
        ) {
            match &self.current_request {
                Some(request) => {
                    let rest = retain_others(&self.queue, request.as_str());
                    self.finish_all(&mut list, &rest, "failed", Some(lost.as_str()));
                },
                None => {
                    self.finish_all(&mut list, &self.queue, "failed", Some(lost.as_str()));
                },
            }
        }
        if self.exit_recovers(cleaned_up, stopping) {
            push_note(&mut list, Note::state("resuming"));
        }
        assert(notes(list@) =~= told + lost_end(
            self@,
            state@,
            lost@,
            expected,
            cleaned_up,
            stopping,
        ));
        list
    }

    fn wakes_again(&self) -> (r: bool)
        ensures
            r == wakes_again(self@),
    {
        proof {
            reveal(Session::snapshot);
        }
        !self.queue.is_empty() && !self.queue_paused && self.native_id.is_some()
            && self.native_path.is_some()
    }

    fn fall_asleep(&self) -> (r: Vec<Note>)
        ensures
            notes(r@) == slept_notes(self@),
    {
        proof {
            reveal(Session::snapshot);
        }
        let mut list = one_note(free_note());
        push_note(&mut list, Note::state("sleeping"));
        assert(notes(list@) =~= seq![no_process(), state_note("sleeping"@)]);
        let pending = select(&self.receipts, Wanted::AcceptedSleep);
        self.finish_all(&mut list, &pending, "completed", None);
        if self.wakes_again() {
            push_note(&mut list, Note::state("resuming"));
        }
        list
    }

    fn detach(&mut self, releasing: bool, awake: bool)
        ensures
            final(self)@ == (SessionView {
                releasing: old(self)@.releasing && releasing,
                awake: if awake {
                    old(self)@.awake
                } else {
                    None
                },
                ..detached(old(self)@)
            }),
    {
        proof {
            reveal(Session::snapshot);
        }
        self.handle = None;
        self.ready = false;
        self.releasing = self.releasing && releasing;
        if !awake {
            self.awake = None;
        }
    }

    fn sleeps_now(&self, cleaned_up: bool) -> (r: bool)
        ensures
            r == (self@.releasing && cleaned_up && self@.close_request is None),
    {
        proof {
            reveal(Session::snapshot);
        }
        self.releasing && cleaned_up && self.close_request.is_none()
    }

    fn rewinding(&self) -> (r: bool)
        ensures
            r == (self@.rewind_request is Some),
    {
        proof {
            reveal(Session::snapshot);
        }
        self.rewind_request.is_some()
    }

    /// The process of the session has ended.
    pub fn exited(
        &mut self,
        reason: &str,
        expected: bool,
        cleaned_up: bool,
        details: &ExitDetails,
        stopping: bool,
        diagnostic: &str,
    ) -> (r: Step)
        ensures
            (final(self)@, r@) == exited(
                old(self)@,
                reason@,
                expected,
                cleaned_up,
                details@,
                stopping,
                diagnostic@,
            ),
    {
        if expected && cleaned_up && self.rewinding() {
            self.detach(true, true);
            return Step { notes: one_note(free_note()), next: Next::Nothing };
        }
        if self.sleeps_now(cleaned_up) {
            let list = self.fall_asleep();
            let next = if self.wakes_again() {
                Next::Relaunch
            } else {
                Next::Nothing
            };
            self.detach(false, false);
            return Step { notes: list, next };
        }
        proof {
            reveal(Session::snapshot);
        }
        let list = self.lose(reason, expected, cleaned_up, details, stopping, diagnostic);
        let next = if !self.knows_opt(&self.current_request) || !self.knows_opt(&self.close_request) {
            Next::GiveUp
        } else if self.exit_recovers(cleaned_up, stopping) {
            Next::Relaunch
        } else {
            Next::Nothing
        };
        self.detach(false, true);
        Step { notes: list, next }
    }
}

/// Recovery is not tried again until there was healthy progress or a new request: a session whose
/// recovery was attempted is not started again by an exit.
pub proof fn recovery_is_tried_once(
    s: SessionView,
    reason: Seq<char>,
    expected: bool,
    cleaned_up: bool,
    details: ExitView,
    stopping: bool,
    diagnostic: Seq<char>,
)
    requires
        s.recovery_attempted,
        !s.releasing,
    ensures
        exited(s, reason, expected, cleaned_up, details, stopping, diagnostic).1.next
            !is Relaunch,
        exited(s, reason, expected, cleaned_up, details, stopping, diagnostic).0.handle is None,
{
}

// Everything else that a harness tells.

/// Records to make, and what follows.
#[derive(Debug)]
pub struct Recorded {
    pub step: Step,
    /// The usage of the harness is to be read.
    pub usage: bool,
    /// The account was accepted or refused.
    pub login: Option<bool>,
}

/// The mathematical value of what follows from an event.
pub struct RecordedView {
    pub step: StepView,
    pub usage: bool,
    pub login: Option<bool>,
}

impl View for Recorded {
    type V = RecordedView;

    open spec fn view(&self) -> RecordedView {
        RecordedView { step: self.step@, usage: self.usage, login: self.login }
    }
}

/// Records alone.
pub open spec fn only(list: Seq<NoteView>) -> RecordedView {
    RecordedView {
        step: StepView { notes: list, next: NextView::Nothing },
        usage: false,
        login: None,
    }
}

/// What is recorded of a conversation that was taken back.
pub open spec fn rewind_data(s: SessionView, request: Seq<char>, data: Data) -> Result<
    Data,
    ErrorView,
> {
    let input = if s.receipts.contains_key(request) {
        s.receipts[request].input
    } else {
        Data::Null
    };
    let told = data.with("request_id"@, Data::Text(request)).with(
        "before"@,
        input.field("before"@),
    );
    match input.get("replacement"@) {
        None => Ok(told),
        Some(replacement) => match replacement.field("request_id"@) {
            Data::Text(id) => Ok(
                told.with(
                    "replacement"@,
                    receipt_json(accepted(id, "prompt"@, replacement.field("input"@))),
                ),
            ),
            _ => Err(ErrorView::Conflict("invalid replacement"@)),
        },
    }
}

/// The outcome of a compaction as it is recorded.
pub open spec fn compact_word(status: Seq<char>) -> Seq<char> {
    if status == "completed"@ {
        "completed"@
    } else if status == "interrupted"@ {
        "interrupted"@
    } else {
        "failed"@
    }
}

/// What is recorded when a turn ends: where to come back to, and how it ended, if its request is
/// known.
pub open spec fn finished_notes(
    s: SessionView,
    request: Seq<char>,
    status: Seq<char>,
    error: Option<Seq<char>>,
) -> Seq<NoteView> {
    let marked = match s.current_turn {
        Some(turn) => seq![
            note(
                "checkpoint"@,
                Data::Object(
                    map![
                        "kind"@ => Data::Text("turn"@),
                        "id"@ => Data::Text(turn),
                        "request_id"@ => Data::Text(request)
                    ],
                ),
            ),
        ],
        None => Seq::empty(),
    };
    marked + finishing(s, request, status, error)
}

/// What follows from a record of the harness.
pub open spec fn record_told(
    s: SessionView,
    kind: Seq<char>,
    data: Data,
    native: Option<Seq<char>>,
) -> Result<RecordedView, ErrorView> {
    if kind == "rewind_ready"@ {
        match s.rewind_request {
            None => Err(ErrorView::Conflict("unexpected native replacement"@)),
            Some(request) => match rewind_data(s, request, data) {
                Err(e) => Err(e),
                Ok(told) => Ok(
                    RecordedView {
                        step: StepView {
                            notes: seq![note("rewind"@, told)],
                            next: NextView::Advance { turn_ended: true },
                        },
                        usage: false,
                        login: None,
                    },
                ),
            },
        }
    } else {
        let first = seq![NoteView { kind, data, native }];
        match prompt::present(data, "usage"@) {
            Some(usage) => Ok(only(first.push(note("usage"@, usage)))),
            None => Ok(only(first)),
        }
    }
}

/// What follows from an event, but for child sessions and the end of the process.
pub open spec fn told(s: SessionView, event: EventView) -> Result<RecordedView, ErrorView> {
    match event {
        EventView::Authentication { accepted } => Ok(
            RecordedView {
                login: if s.harness == Kind::Claude {
                    Some(accepted)
                } else {
                    None
                },
                ..only(Seq::empty())
            },
        ),
        EventView::Record { kind, data, native } => record_told(s, kind, data, native),
        EventView::Compacted { status } => match s.compact_request {
            None => Ok(only(Seq::empty())),
            Some(request) => if !s.receipts.contains_key(request) {
                Err(ErrorView::NotFound)
            } else {
                Ok(
                RecordedView {
                    step: StepView {
                        notes: finishing(
                            s,
                            request,
                            compact_word(status),
                            if compact_word(status) == "failed"@ {
                                Some("Context compaction failed; see native history"@)
                            } else {
                                None
                            },
                        ),
                        next: NextView::Advance { turn_ended: false },
                    },
                    usage: true,
                    login: None,
                },
            )
            },
        },
        EventView::Started { request, native_turn } => if !s.ready || s.current_request != Some(
            request,
        ) {
            Ok(only(Seq::empty()))
        } else {
            Ok(
                only(
                    seq![
                        note(
                            "state"@,
                            Data::Object(
                                map![
                                    "state"@ => Data::Text(
                                        if s.close_request is Some {
                                            "closing"@
                                        } else {
                                            "running"@
                                        },
                                    ),
                                    "request_id"@ => Data::Text(request),
                                    "turn_id"@ => opt_text(native_turn)
                                ],
                            ),
                        ),
                    ],
                ),
            )
        },
        EventView::Finished { request, status, error } => if s.current_request != Some(request) {
            Ok(only(Seq::empty()))
        } else {
            Ok(
                RecordedView {
                    step: StepView {
                        notes: finished_notes(s, request, status, error),
                        next: if s.receipts.contains_key(request) {
                            NextView::Advance { turn_ended: true }
                        } else {
                            NextView::GiveUp
                        },
                    },
                    usage: true,
                    login: None,
                },
            )
        },
        _ => Ok(only(Seq::empty())),
    }
}

/// The view of what follows from an event.
pub open spec fn recorded_result(r: Result<Recorded, Error>) -> Result<RecordedView, ErrorView> {
    match r {
        Ok(x) => Ok(x@),
        Err(e) => Err(e@),
    }
}

fn record_only(list: Vec<Note>) -> (r: Recorded)
    ensures
        r@ == only(notes(list@)),
{
    Recorded { step: Step { notes: list, next: Next::Nothing }, usage: false, login: None }
}

fn nothing() -> (r: Vec<Note>)
    ensures
        notes(r@) == Seq::<NoteView>::empty(),
{
    let list: Vec<Note> = Vec::new();
    assert(notes(list@) =~= Seq::<NoteView>::empty());
    list
}

impl Session {
    fn tell_rewind(&self, request: &str, data: Json) -> (r: Result<Json, Error>)
        requires
            data@.takes_fields(),
        ensures
            match r {
                Ok(j) => rewind_data(self@, request@, data@) == Ok::<Data, ErrorView>(j@),
                Err(e) => rewind_data(self@, request@, data@) == Err::<Data, ErrorView>(e@),
            },
    {
        proof {
            reveal(Session::snapshot);
        }
        let input: &Json = match self.receipts.get(request) {
            Some(receipt) => &receipt.input,
            None => &Json::Null,
        };
        let mut told = data;
        told.set("request_id", Json::text(request));
        told.set("before", input.field("before").duplicate());
        if let Some(replacement) = input.get("replacement") {
            match replacement.field_text("request_id") {
                Some(id) => {
                    let receipt = Receipt::accepted(
                        id,
                        "prompt",
                        replacement.field("input").duplicate(),
                    );
                    told.set("replacement", receipt.to_json());
                },
                None => {
                    return Err(Error::conflict("invalid replacement"));
                },
            }
        }
        Ok(told)
    }

    fn record_told(&self, kind: String, data: Json, native: Option<String>) -> (r: Result<
        Recorded,
        Error,
    >)
        requires
            kind@ == "rewind_ready"@ ==> data@.takes_fields(),
        ensures
            recorded_result(r) == record_told(self@, kind@, data@, opt(native)),
    {
        proof {
            reveal(Session::snapshot);
        }
        if same(kind.as_str(), "rewind_ready") {
            return match &self.rewind_request {
                None => Err(Error::conflict("unexpected native replacement")),
                Some(request) => match self.tell_rewind(request.as_str(), data) {
                    Err(e) => Err(e),
                    Ok(told) => Ok(
                        Recorded {
                            step: Step {
                                notes: one_note(Note::new("rewind", told)),
                                next: Next::Advance { turn_ended: true },
                            },
                            usage: false,
                            login: None,
                        },
                    ),
                },
            };
        }
        let usage: Option<Json> = match data.get("usage") {
            Some(u) => if u.is_null() {
                None
            } else {
                Some(u.duplicate())
            },
            None => None,
        };
        let mut list = one_note(Note { kind, data, native });
        if let Some(usage) = usage {
            push_note(&mut list, Note::new("usage", usage));
        }
        Ok(record_only(list))
    }

    fn turn_finished(&self, request: &str, status: &str, error: Option<&str>) -> (r: Vec<Note>)
        ensures
            notes(r@) == finished_notes(self@, request@, status@, opt_str(error)),
    {
        proof {
            reveal(Session::snapshot);
        }
        let mut list = nothing();
        if let Some(turn) = &self.current_turn {
            let data = object().with_text("kind", "turn").with_text("id", turn.as_str()).with_text(
                "request_id",
                request,
            );
            push_note(&mut list, Note::new("checkpoint", Json::Object(data)));
            assert(notes(list@) =~= seq![notes(list@)[0]]);
        }
        let _ = self.finish(&mut list, request, status, error);
        list
    }

    fn compaction_ended(&self, request: &str, status: &str) -> (r: Vec<Note>)
        ensures
            notes(r@) == finishing(
                self@,
                request@,
                compact_word(status@),
                if compact_word(status@) == "failed"@ {
                    Some("Context compaction failed; see native history"@)
                } else {
                    None
                },
            ),
    {
        proof {
            reveal_strlit("completed");
            reveal_strlit("interrupted");
            reveal_strlit("failed");
            assert("completed"@.len() == 9 && "interrupted"@.len() == 11 && "failed"@.len() == 6);
        }
        let mut list = nothing();
        if same(status, "completed") {
            let _ = self.finish(&mut list, request, "completed", None);
        } else if same(status, "interrupted") {
            let _ = self.finish(&mut list, request, "interrupted", None);
        } else {
            let _ = self.finish(
                &mut list,
                request,
                "failed",
                Some("Context compaction failed; see native history"),
            );
        }
        assert(notes(list@) =~= notes(list@));
        proof {
            let f = finishing(
                self@,
                request@,
                compact_word(status@),
                if compact_word(status@) == "failed"@ {
                    Some("Context compaction failed; see native history"@)
                } else {
                    None
                },
            );
            assert(Seq::<NoteView>::empty() + f =~= f);
        }
        list
    }

    /// What follows from an event of the harness. Child sessions and the end of the process are
    /// decided elsewhere.
    pub fn record_native(&self, event: Event) -> (r: Result<Recorded, Error>)
        requires
            event@ matches EventView::Record { kind, data, .. } ==> (kind == "rewind_ready"@
                ==> data.takes_fields()),
        ensures
            recorded_result(r) == told(self@, event@),
    {
        proof {
            reveal(Session::snapshot);
        }
        match event {
            Event::Authentication { accepted } => {
                let mut out = record_only(nothing());
                if self.harness == Kind::Claude {
                    out.login = Some(accepted);
                }
                Ok(out)
            },
            Event::Record { kind, data, native } => self.record_told(kind, data, native),
            Event::Compacted { status } => match &self.compact_request {
                None => Ok(record_only(nothing())),
                Some(request) => if !self.receipts.contains(request.as_str()) {
                    Err(Error::NotFound)
                } else {
                    Ok(
                    Recorded {
                        step: Step {
                            notes: self.compaction_ended(request.as_str(), status.as_str()),
                            next: Next::Advance { turn_ended: false },
                        },
                        usage: true,
                        login: None,
                    },
                )
                },
            },
            Event::Started { request, native_turn } => {
                if !self.ready || !same_opt(
                    opt_slice(&self.current_request),
                    Some(request.as_str()),
                ) {
                    return Ok(record_only(nothing()));
                }
                let state = if self.close_request.is_some() {
                    "closing"
                } else {
                    "running"
                };
                let data = object().with_text("state", state).with_text(
                    "request_id",
                    request.as_str(),
                ).with("turn_id", Json::opt_text(opt_slice(&native_turn)));
                Ok(record_only(one_note(Note::new("state", Json::Object(data)))))
            },
            Event::Finished { request, status, error } => {
                if !same_opt(opt_slice(&self.current_request), Some(request.as_str())) {
                    return Ok(record_only(nothing()));
                }
                let list = self.turn_finished(
                    request.as_str(),
                    status.as_str(),
                    opt_slice(&error),
                );
                Ok(
                    Recorded {
                        step: Step {
                            notes: list,
                            next: if self.receipts.contains(request.as_str()) {
                                Next::Advance { turn_ended: true }
                            } else {
                                Next::GiveUp
                            },
                        },
                        usage: true,
                        login: None,
                    },
                )
            },
            _ => Ok(record_only(nothing())),
        }
    }
}

/// Events of a turn other than the one that runs are not recorded.
pub proof fn stale_turns_are_ignored(
    s: SessionView,
    request: Seq<char>,
    status: Seq<char>,
    error: Option<Seq<char>>,
    turn: Option<Seq<char>>,
)
    requires
        s.current_request != Some(request),
    ensures
        told(s, EventView::Finished { request, status, error }) == Ok::<RecordedView, ErrorView>(
            only(Seq::empty()),
        ),
        told(s, EventView::Started { request, native_turn: turn }) == Ok::<
            RecordedView,
            ErrorView,
        >(only(Seq::empty())),
{
}

} // verus!
