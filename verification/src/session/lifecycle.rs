//! The life of a session: recovery after a restart, startup, turns, and what goes wrong with them.
use super::command::{one_note, turn_note, wakes, Next, NextView};
use super::local::{applied, Local, LocalView};
use super::pick::{chosen, entries, note_each, of_each, Entry, EntryView, Pick};
use super::query::{
    finishing, finishing_all, has_work, note, notes, push_note, receipt_note, resumable, select,
    selected, some_wanted, state_note, waiting_for, Note, NoteView, Wanted,
};
use super::sleep::stays_awake;
use super::state::{ended, failure, has_ended};
use super::{Attached, Receipt, ReceiptView, Record, RecordView, Session, SessionView};
use crate::fault::{other, Fault, FaultKind, FaultView};
use crate::json::{object, Data, Json};
use crate::runtime::claude::bool_result;
use crate::table::in_order;
use crate::text::{concat, concat3, opt_slice, opt_str, same, same_opt, views};
use vstd::prelude::*;

verus! {

/// Records to make of a session in order, and what is to be done then.
#[derive(Debug)]
pub struct Step {
    pub notes: Vec<Note>,
    pub next: Next,
}

/// The mathematical value of a step.
pub struct StepView {
    pub notes: Seq<NoteView>,
    pub next: NextView,
}

impl View for Step {
    type V = StepView;

    open spec fn view(&self) -> StepView {
        StepView { notes: notes(self.notes@), next: self.next@ }
    }
}

/// Nothing to record and nothing to do.
pub open spec fn at_rest() -> StepView {
    StepView { notes: Seq::empty(), next: NextView::Nothing }
}

/// A change of state, and nothing more.
pub open spec fn moved(state: Seq<char>) -> StepView {
    StepView { notes: seq![state_note(state)], next: NextView::Nothing }
}

/// The attempt to continue a conversation is claimed durably before anything is started: a failed
/// or interrupted attempt cannot trigger an endless restart loop.
pub open spec fn resuming() -> StepView {
    StepView { notes: seq![state_note("resuming"@)], next: NextView::Relaunch }
}

fn rest() -> (r: Step)
    ensures
        r@ == at_rest(),
{
    let list: Vec<Note> = Vec::new();
    assert(notes(list@) =~= Seq::empty());
    Step { notes: list, next: Next::Nothing }
}

fn move_to(state: &str) -> (r: Step)
    ensures
        r@ == moved(state@),
{
    Step { notes: one_note(Note::state(state)), next: Next::Nothing }
}

fn begin_resume() -> (r: Step)
    ensures
        r@ == resuming(),
{
    Step { notes: one_note(Note::state("resuming")), next: Next::Relaunch }
}

// Turns.

/// How a ready session moves to its next turn: it dispatches the next queued message, waits out a
/// pending interrupt, or returns to idle. A running turn is waited for, unless it is the one that
/// just ended.
pub open spec fn advanced(s: SessionView, stopping: bool, blocked: bool, turn_ended: bool) -> StepView {
    if s.state == "sleeping"@ {
        if wakes(s) {
            resuming()
        } else {
            at_rest()
        }
    } else if s.close_request is Some || s.rewind_request is Some || !s.ready || stopping {
        at_rest()
    } else if !turn_ended && s.current_request is Some {
        at_rest()
    } else if some_wanted(s.receipts, Wanted::PendingInterrupt) {
        moved("interrupting"@)
    } else if blocked || s.storage_paused || s.queue_paused || s.compacting {
        moved(
            if s.compacting {
                "running"@
            } else {
                "idle"@
            },
        )
    } else if s.queue.len() > 0 && s.handle is Some {
        StepView {
            notes: seq![turn_note(s.queue[0])],
            next: NextView::Deliver { request: s.queue[0] },
        }
    } else {
        moved("idle"@)
    }
}

impl Session {
    /// Whether work has come for a session that sleeps.
    pub fn wakes(&self) -> (r: bool)
        ensures
            r == wakes(self@),
    {
        proof {
            reveal(Session::snapshot);
        }
        same(self.state.as_str(), "sleeping") && self.handle.is_none() && self.has_work()
            && self.can_resume()
    }

    /// Moves the session to its next turn.
    pub fn advance(&self, stopping: bool, blocked: bool, turn_ended: bool) -> (r: Step)
        ensures
            r@ == advanced(self@, stopping, blocked, turn_ended),
    {
        proof {
            reveal(Session::snapshot);
        }
        if same(self.state.as_str(), "sleeping") {
            return if self.wakes() {
                begin_resume()
            } else {
                rest()
            };
        }
        if self.close_request.is_some() || self.rewind_request.is_some() || !self.ready
            || stopping {
            return rest();
        }
        if !turn_ended && self.current_request.is_some() {
            return rest();
        }
        if self.interrupt_pending() {
            return move_to("interrupting");
        }
        if blocked || self.storage_paused || self.queue_paused || self.compacting {
            return if self.compacting {
                move_to("running")
            } else {
                move_to("idle")
            };
        }
        assert(views(self.queue@).len() == self.queue@.len());
        if self.queue.len() > 0 && self.handle.is_some() {
            assert(views(self.queue@)[0] == self.queue@[0]@);
            let first = self.queue[0].as_str();
            let data = object().with_text("state", "starting_turn").with_text("request_id", first);
            return Step {
                notes: one_note(Note::new("state", Json::Object(data))),
                next: Next::Deliver { request: first.to_owned() },
            };
        }
        move_to("idle")
    }
}

/// A turn is dispatched only when nothing stands against it, and it is the one that waited longest.
pub proof fn turns_are_dispatched_in_order(
    s: SessionView,
    stopping: bool,
    blocked: bool,
    turn_ended: bool,
)
    ensures
        advanced(s, stopping, blocked, turn_ended).next matches NextView::Deliver { request } ==> {
            &&& s.queue.len() > 0
            &&& request == s.queue[0]
            &&& advanced(s, stopping, blocked, turn_ended).notes == seq![turn_note(request)]
            &&& s.handle is Some
            &&& s.ready
            &&& !stopping
            &&& !blocked
            &&& !s.storage_paused
            &&& !s.queue_paused
            &&& !s.compacting
            &&& s.close_request is None
            &&& s.rewind_request is None
            &&& (turn_ended || s.current_request is None)
            &&& !some_wanted(s.receipts, Wanted::PendingInterrupt)
        },
{
}

/// How the outcome of a native request is recorded: refused, or uncertain, or as given.
pub open spec fn outcome_word(result: Result<(), FaultKind>, success: Seq<char>) -> Seq<char> {
    match result {
        Ok(_) => success,
        Err(FaultKind::InvalidInput) => "failed"@,
        Err(_) => "unknown"@,
    }
}

/// How the outcome of a native request is recorded.
pub fn outcome_state(result: Result<(), FaultKind>, success: &'static str) -> (r: &'static str)
    ensures
        r@ == outcome_word(result, success@),
{
    match result {
        Ok(_) => success,
        Err(kind) => if kind == FaultKind::InvalidInput {
            "failed"
        } else {
            "unknown"
        },
    }
}

/// After a message was refused the turn never began: the session advances, if the message is still
/// the one being sent.
pub open spec fn moves_on(s: SessionView, request: Seq<char>, result: Result<(), FaultKind>) -> bool {
    result == Err::<(), FaultKind>(FaultKind::InvalidInput) && s.current_request == Some(request)
        && s.close_request is None
}

/// What sending a message led to.
pub open spec fn delivered(s: SessionView, request: Seq<char>, result: Result<(), FaultKind>) -> StepView {
    StepView {
        notes: finishing(s, request, outcome_word(result, "delivered"@), None),
        next: if moves_on(s, request, result) {
            NextView::Advance { turn_ended: true }
        } else {
            NextView::Nothing
        },
    }
}

impl Session {
    /// Keeps the cause of a failure with its request.
    pub fn explain(&mut self, request: &str, cause: &str)
        ensures
            final(self)@ == (SessionView {
                receipts: if old(self)@.receipts.contains_key(request@) {
                    old(self)@.receipts.insert(
                        request@,
                        ReceiptView { error: Some(cause@), ..old(self)@.receipts[request@] },
                    )
                } else {
                    old(self)@.receipts
                },
                ..old(self)@
            }),
    {
        proof {
            reveal(Session::snapshot);
        }
        let ghost was = self.receipts@;
        if let Some(receipt) = self.receipts.remove(request) {
            let mut known = receipt;
            known.error = Some(cause.to_owned());
            self.receipts.insert(request, known);
            assert(self.receipts@ =~= was.insert(
                request@,
                ReceiptView { error: Some(cause@), ..was[request@] },
            ));
        }
    }

    /// What sending a message led to. The result is that of the native request.
    pub fn delivered(&self, request: &str, result: Result<(), FaultKind>) -> (r: Step)
        ensures
            r@ == delivered(self@, request@, result),
    {
        proof {
            reveal(Session::snapshot);
        }
        let mut list: Vec<Note> = Vec::new();
        assert(notes(list@) =~= Seq::empty());
        let _ = self.finish(&mut list, request, outcome_state(result, "delivered"), None);
        assert(notes(list@) =~= finishing(
            self@,
            request@,
            outcome_word(result, "delivered"@),
            None,
        ));
        let refused = match result {
            Ok(_) => false,
            Err(kind) => kind == FaultKind::InvalidInput,
        };
        let next = if refused && same_opt(opt_slice(&self.current_request), Some(request))
            && self.close_request.is_none() {
            Next::Advance { turn_ended: true }
        } else {
            Next::Nothing
        };
        Step { notes: list, next }
    }

    /// Whether a process is the one that the session holds. What any other process is heard to
    /// have done is of no account.
    pub fn holds(&self, serial: u64) -> (r: bool)
        ensures
            r == (self@.handle matches Some(h) && h.serial == serial),
    {
        proof {
            reveal(Session::snapshot);
        }
        match self.handle {
            Some(h) => h.serial == serial,
            None => false,
        }
    }

    /// The harness process that the session holds.
    pub fn attach(&mut self, handle: Attached)
        ensures
            final(self)@ == (SessionView { handle: Some(handle), ..old(self)@ }),
    {
        proof {
            reveal(Session::snapshot);
        }
        self.handle = Some(handle);
    }

    /// The harness is ready for work.
    pub fn set_ready(&mut self)
        requires
            old(self)@.handle is Some,
        ensures
            final(self)@ == (SessionView { ready: true, ..old(self)@ }),
    {
        proof {
            reveal(Session::snapshot);
        }
        self.ready = true;
    }
}

// Recovery after a restart.

/// A session whose conversation may continue after a restart.
pub open spec fn eligible(s: SessionView) -> bool {
    ||| resumable(s)
    ||| s.startup_error == Some("startup_timeout"@)
    ||| s.state == "resuming"@ && !s.has_dispatched && s.native_path is Some
}

/// What becomes of a request when the service restarts: conversations are resumed, not uncertain
/// actions. A queued message stays queued where the conversation may continue.
pub open spec fn after_restart(s: SessionView, r: ReceiptView) -> Seq<NoteView> {
    let queued = r.command == "prompt"@ && s.queue.contains(r.request_id);
    if ended(r.state) || (eligible(s) && queued) {
        Seq::empty()
    } else {
        seq![
            receipt_note(
                ReceiptView {
                    state: if queued {
                        "failed"@
                    } else {
                        "unknown_after_restart"@
                    },
                    ..r
                },
            ),
        ]
    }
}

/// What becomes of several requests when the service restarts.
pub open spec fn all_after_restart(s: SessionView, keys: Seq<Seq<char>>) -> Seq<NoteView>
    decreases keys.len(),
{
    if keys.len() == 0 {
        Seq::empty()
    } else {
        all_after_restart(s, keys.drop_last()) + after_restart(s, s.receipts[keys.last()])
    }
}

/// What is recorded of a session when the service opens its journal again.
pub open spec fn reopened(s: SessionView, repository: Seq<char>) -> Seq<NoteView> {
    let placed = if s.workspace is None && s.receipts != Map::<Seq<char>, ReceiptView>::empty() {
        seq![
            note(
                "workspace"@,
                Data::Object(
                    map!["id"@ => Data::Text("legacy"@), "path"@ => Data::Text(repository)],
                ),
            ),
        ]
    } else {
        Seq::empty()
    };
    if waiting_for(s) is Some {
        placed
    } else {
        let settled = placed + all_after_restart(s, in_order(s.receipts));
        if s.state == "closed"@ || s.state == "process_lost"@ || s.state == "failed"@ || s.state
            == "sleeping"@ {
            settled
        } else {
            settled.push(
                state_note(
                    if eligible(s) {
                        "suspended"@
                    } else {
                        "process_lost"@
                    },
                ),
            )
        }
    }
}

/// What is recorded when native history cannot be read.
pub open spec fn history_lost(s: SessionView, cause: Seq<char>) -> Seq<NoteView> {
    let told = seq![
        note(
            "native_history_unavailable"@,
            Data::Object(
                map![
                    "reason"@ => Data::Text(
                        "native history missing, changed or unreadable: "@ + cause,
                    )
                ],
            ),
        ),
    ];
    if resumable(s) {
        told.push(state_note("process_lost"@)) + finishing_all(s, s.queue, "failed"@, None)
    } else {
        told
    }
}

/// What a restart does with a session once its records are settled.
pub open spec fn brought_back(s: SessionView, now: u64) -> StepView {
    if resumable(s) && s.handle is None {
        if stays_awake(s, now) {
            resuming()
        } else if s.state != "sleeping"@ {
            moved("sleeping"@)
        } else {
            at_rest()
        }
    } else {
        match waiting_for(s) {
            Some(request) => StepView {
                notes: Seq::empty(),
                next: NextView::Launch { request },
            },
            None => at_rest(),
        }
    }
}

impl Session {
    fn eligible(&self) -> (r: bool)
        ensures
            r == eligible(self@),
    {
        proof {
            reveal(Session::snapshot);
        }
        self.can_resume() || same_opt(opt_slice(&self.startup_error), Some("startup_timeout")) || (
        same(self.state.as_str(), "resuming") && !self.has_dispatched && self.native_path.is_some())
    }

    fn restart_receipt(&self, list: &mut Vec<Note>, receipt: &Receipt, continues: bool)
        requires
            continues == eligible(self@),
        ensures
            notes(final(list)@) == notes(old(list)@) + after_restart(self@, receipt@),
    {
        let ghost was = notes(list@);
        if has_ended(receipt.state.as_str()) {
            assert(was + Seq::empty() =~= was);
            return;
        }
        let queued = same(receipt.command.as_str(), "prompt") && self.queued(
            receipt.request_id.as_str(),
        );
        if continues && queued {
            assert(was + Seq::empty() =~= was);
            return;
        }
        let mut next = receipt.duplicate();
        next.state = if queued {
            "failed".to_owned()
        } else {
            "unknown_after_restart".to_owned()
        };
        push_note(list, Note::receipt(&next));
        assert(notes(list@) =~= was + after_restart(self@, receipt@));
    }

    fn restart_receipts(&self, list: &mut Vec<Note>, continues: bool)
        requires
            continues == eligible(self@),
        ensures
            notes(final(list)@) == notes(old(list)@) + all_after_restart(
                self@,
                in_order(self@.receipts),
            ),
    {
        proof {
            reveal(Session::snapshot);
        }
        let ghost was = notes(list@);
        let count = self.receipts.len();
        let ghost keys = in_order(self.receipts@);
        let mut i: usize = 0;
        assert(keys.take(0) =~= Seq::empty());
        assert(was + Seq::empty() =~= was);
        while i < count
            invariant
                i <= count,
                continues == eligible(self@),
                self@.receipts == self.receipts@,
                keys == in_order(self.receipts@),
                count == keys.len(),
                notes(list@) == was + all_after_restart(self@, keys.take(i as int)),
            decreases count - i,
        {
            let ghost before = all_after_restart(self@, keys.take(i as int));
            self.restart_receipt(list, self.receipts.value_at(i), continues);
            proof {
                let now = keys.take(i + 1);
                assert(now.drop_last() =~= keys.take(i as int));
                assert(now.last() == keys[i as int]);
                assert(notes(list@) =~= was + all_after_restart(self@, now));
            }
            i += 1;
        }
        assert(keys.take(i as int) =~= keys);
    }

    /// What is recorded of the session when the service opens its journal again.
    pub fn reopen(&self, repository: &str) -> (r: Vec<Note>)
        ensures
            notes(r@) == reopened(self@, repository@),
    {
        proof {
            reveal(Session::snapshot);
        }
        let mut list: Vec<Note> = Vec::new();
        assert(notes(list@) =~= Seq::empty());
        if self.workspace.is_none() && !self.receipts.is_empty() {
            let data = object().with_text("id", "legacy").with_text("path", repository);
            push_note(&mut list, Note::new("workspace", Json::Object(data)));
            assert(notes(list@) =~= seq![notes(list@)[0]]);
        }
        if self.waiting_start().is_some() {
            return list;
        }
        let eligible = self.eligible();
        self.restart_receipts(&mut list, eligible);
        let state = self.state.as_str();
        if !same(state, "closed") && !same(state, "process_lost") && !same(state, "failed")
            && !same(state, "sleeping") {
            push_note(
                &mut list,
                Note::state(
                    if eligible {
                        "suspended"
                    } else {
                        "process_lost"
                    },
                ),
            );
        }
        list
    }

    /// What is recorded when native history cannot be read.
    pub fn lose_history(&self, cause: &str) -> (r: Vec<Note>)
        ensures
            notes(r@) == history_lost(self@, cause@),
    {
        proof {
            reveal(Session::snapshot);
        }
        let reason = concat("native history missing, changed or unreadable: ", cause);
        let data = object().with_text("reason", reason.as_str());
        let mut list = one_note(Note::new("native_history_unavailable", Json::Object(data)));
        if self.can_resume() {
            push_note(&mut list, Note::state("process_lost"));
            self.finish_all(&mut list, &self.queue, "failed", None);
        }
        list
    }

    /// What a restart does with the session once its records are settled.
    pub fn bring_back(&self, now: u64) -> (r: Step)
        ensures
            r@ == brought_back(self@, now),
    {
        if self.can_resume() && !self.is_attached() {
            if self.restores_awake(now) {
                return begin_resume();
            }
            if !self.state_is("sleeping") {
                return move_to("sleeping");
            }
            return rest();
        }
        match self.waiting_start() {
            Some(request) => {
                let list: Vec<Note> = Vec::new();
                assert(notes(list@) =~= Seq::empty());
                Step { notes: list, next: Next::Launch { request } }
            },
            None => rest(),
        }
    }
}

/// The sessions after the records of a journal, which are numbered from one.
pub open spec fn restored(l: LocalView, records: Seq<RecordView>) -> (LocalView, Option<FaultView>)
    decreases records.len(),
{
    if records.len() == 0 {
        (l, None)
    } else {
        let (before, f) = restored(l, records.drop_last());
        match f {
            Some(_) => (before, f),
            None => if records.last().sequence != records.len() {
                (before, Some(other("journal sequence mismatch"@)))
            } else {
                applied(before, records.last())
            },
        }
    }
}

/// The views of a sequence of records.
pub open spec fn record_views(records: Seq<Record>) -> Seq<RecordView> {
    Seq::new(records.len(), |i: int| records[i]@)
}

proof fn restore_stops(l: LocalView, records: Seq<RecordView>, n: int)
    requires
        0 <= n <= records.len(),
        restored(l, records.take(n)).1 is Some,
    ensures
        restored(l, records) == restored(l, records.take(n)),
    decreases records.len() - n,
{
    if n == records.len() {
        assert(records.take(n) =~= records);
    } else {
        assert(records.take(n + 1).drop_last() =~= records.take(n));
        restore_stops(l, records, n + 1);
    }
}

/// The sessions that still wait for a harness are left for the next start of the service.
pub open spec fn left_waiting(l: LocalView) -> Seq<EntryView> {
    of_each(chosen(l.sessions, Pick::Waiting), state_note("suspended"@))
}

impl Local {
    /// What is recorded as the service stops.
    pub fn leave_waiting(&self) -> (r: Vec<Entry>)
        ensures
            entries(r@) == left_waiting(self@),
    {
        note_each(&self.pick(Pick::Waiting), &Note::state("suspended"))
    }

    /// Brings the sessions up to the records of a journal.
    pub fn restore(&mut self, records: &Vec<Record>) -> (r: Result<(), Fault>)
        ensures
            (final(self)@, failure(r)) == restored(old(self)@, record_views(records@)),
    {
        let ghost was = self@;
        let ghost all = record_views(records@);
        let mut i: usize = 0;
        assert(all.take(0) =~= Seq::empty());
        while i < records.len()
            invariant
                i <= records.len(),
                was == old(self)@,
                all == record_views(records@),
                (self@, None::<FaultView>) == restored(was, all.take(i as int)),
            decreases records.len() - i,
        {
            let ghost before = self@;
            proof {
                assert(all.take(i + 1).drop_last() =~= all.take(i as int));
                assert(all.take(i + 1).last() == records@[i as int]@);
            }
            if records[i].sequence != (i as u64) + 1 {
                proof {
                    restore_stops(was, all, i + 1);
                }
                return Err(Fault::other("journal sequence mismatch"));
            }
            let result = self.apply(&records[i]);
            if result.is_err() {
                proof {
                    restore_stops(was, all, i + 1);
                }
                return result;
            }
            i += 1;
        }
        assert(all.take(i as int) =~= all);
        Ok(())
    }
}

// Startup.

/// A note of the level of reasoning that the harness started with, where none is known yet.
pub open spec fn baseline_notes(s: SessionView, level: Option<Seq<char>>) -> Seq<NoteView> {
    match level {
        Some(level) => if s.reasoning is None {
            seq![
                note(
                    "launch_reasoning"@,
                    Data::Object(map!["reasoning"@ => Data::Text(level)]),
                ),
            ]
        } else {
            Seq::empty()
        },
        None => Seq::empty(),
    }
}

/// What is recorded when a harness has started for the first time. A stop accepted before it
/// existed only pauses the queue.
pub open spec fn launched(
    s: SessionView,
    request: Seq<char>,
    level: Option<Seq<char>>,
    identity: Data,
) -> (Seq<NoteView>, Option<FaultView>) {
    let told = baseline_notes(s, level).push(note("native_identity"@, identity));
    if s.handle is None {
        (told, Some(other("harness exited during initialization"@)))
    } else if !s.receipts.contains_key(request) {
        (told.push(state_note("idle"@)), Some(other("cannot record startup"@)))
    } else {
        (
            told.push(state_note("idle"@)) + finishing(s, request, "completed"@, None)
                + finishing_all(
                s,
                selected(s.receipts, Wanted::AcceptedStop),
                "completed"@,
                None,
            ),
            None,
        )
    }
}

/// How far a startup had come.
#[derive(Clone, Copy, PartialEq, Eq, Structural, Debug)]
pub enum Stage {
    /// The folder of the session was opened or made.
    Folder,
    /// The harness was looked for in the configuration.
    Configuration,
    /// The harness was started.
    Initialization,
}

/// What is said of a startup that failed at a stage.
pub open spec fn stage_words(stage: Stage) -> Seq<char> {
    match stage {
        Stage::Folder =>
            "Cloud folder could not be opened or created; check its permissions, symlinks, and available disk space"@,
        Stage::Configuration => unconfigured(),
        Stage::Initialization =>
            "Harness initialization failed; inspect native history and protected local harness diagnostics for this session"@,
    }
}

impl Stage {
    /// What is said of a startup that failed at the stage.
    pub fn words(self) -> (r: &'static str)
        ensures
            r@ == stage_words(self),
    {
        match self {
            Stage::Folder =>
                "Cloud folder could not be opened or created; check its permissions, symlinks, and available disk space",
            Stage::Configuration => "The selected harness is no longer configured",
            Stage::Initialization =>
                "Harness initialization failed; inspect native history and protected local harness diagnostics for this session",
        }
    }
}

/// The reason shown for a failed startup.
pub open spec fn launch_reason(stage: Stage, cause: Seq<char>) -> Seq<char> {
    if cause == stage_words(stage) {
        cause
    } else {
        stage_words(stage) + ". Cause: "@ + cause
    }
}

/// What is recorded when a startup fails.
pub open spec fn launch_failed(
    s: SessionView,
    request: Seq<char>,
    stage: Stage,
    cause: Seq<char>,
) -> Seq<NoteView> {
    finishing(s, request, "failed"@, None).push(
        note(
            "state"@,
            Data::Object(
                map![
                    "state"@ => Data::Text("failed"@),
                    "reason"@ => Data::Text(launch_reason(stage, cause))
                ],
            ),
        ),
    ) + finishing_all(s, s.queue, "failed"@, None)
}

/// Whether a conversation is continued now.
#[derive(Clone, Copy, PartialEq, Eq, Structural, Debug)]
pub enum Gate {
    /// The session is being closed.
    Drop,
    /// The service is stopping: the session is left for its next start.
    Suspend,
    /// Storage is unsafe.
    Wait,
    Go,
}

/// Whether a conversation is continued now.
pub open spec fn gate(s: SessionView, stopping: bool, blocked: bool) -> Gate {
    if s.close_request is Some {
        Gate::Drop
    } else if stopping {
        Gate::Suspend
    } else if blocked {
        Gate::Wait
    } else {
        Gate::Go
    }
}

/// What is recorded when a harness continues a conversation.
pub open spec fn relaunched(
    s: SessionView,
    stopping: bool,
    level: Option<Seq<char>>,
    identity: Data,
) -> (StepView, Option<FaultView>) {
    let told = baseline_notes(s, level);
    if s.close_request is Some || stopping {
        (StepView { notes: told, next: NextView::Nothing }, None)
    } else if s.handle is None {
        (
            StepView { notes: told, next: NextView::Nothing },
            Some(other("resumed harness exited"@)),
        )
    } else {
        let back = told.push(note("native_identity"@, identity)).push(state_note("idle"@))
            + finishing_all(
            s,
            selected(s.receipts, Wanted::AcceptedResume),
            "completed"@,
            None,
        );
        (
            StepView {
                notes: if s.storage_paused {
                    back.push(
                        note(
                            "storage_recovered"@,
                            Data::Object(
                                map![
                                    "text"@ => Data::Text(
                                        "Cloudroom: workload resumed after restart."@,
                                    )
                                ],
                            ),
                        ),
                    )
                } else {
                    back
                },
                next: NextView::Advance { turn_ended: true },
            },
            None,
        )
    }
}

/// What stands in the way of reading a saved conversation.
#[derive(Clone, Copy, PartialEq, Eq, Structural, Debug)]
pub enum Saved {
    /// The harness of the session is not configured.
    Unconfigured,
    Readable,
    Missing,
    Unreadable,
}

/// What a look at the file of a saved conversation says. `length` is its length, or why it could
/// not be opened. An empty file holds no conversation.
pub open spec fn found_history(length: Result<u64, FaultKind>) -> Saved {
    match length {
        Ok(n) => if n == 0 {
            Saved::Missing
        } else {
            Saved::Readable
        },
        Err(kind) => if kind == FaultKind::NotFound {
            Saved::Missing
        } else {
            Saved::Unreadable
        },
    }
}

impl Saved {
    /// What a look at the file of a saved conversation says.
    pub fn found(length: Result<u64, FaultKind>) -> (r: Saved)
        ensures
            r == found_history(length),
    {
        match length {
            Ok(n) => if n == 0 {
                Saved::Missing
            } else {
                Saved::Readable
            },
            Err(kind) => if kind == FaultKind::NotFound {
                Saved::Missing
            } else {
                Saved::Unreadable
            },
        }
    }
}

/// Whether a saved conversation can be continued, in a word.
pub open spec fn recovery_status(s: SessionView, saved: Saved) -> Seq<char> {
    if s.close_request is Some || s.state == "closed"@ || s.state == "saved_history_only"@ {
        "unavailable"@
    } else if s.native_id is None || s.native_path is None {
        "unavailable"@
    } else {
        match saved {
            Saved::Unconfigured => "unavailable"@,
            Saved::Readable => "ready"@,
            Saved::Missing => if s.has_dispatched {
                "missing"@
            } else {
                "empty"@
            },
            Saved::Unreadable => "unavailable"@,
        }
    }
}

/// Whether a saved conversation can be continued, in a sentence.
pub open spec fn recovery_message(s: SessionView, saved: Saved) -> Seq<char> {
    if s.close_request is Some || s.state == "closed"@ || s.state == "saved_history_only"@ {
        "This session is closed or has saved history only"@
    } else if s.native_id is None || s.native_path is None {
        "No saved native conversation identity is available"@
    } else {
        match saved {
            Saved::Unconfigured => "No saved native conversation identity is available"@,
            Saved::Readable
                => "Saved conversation is available; the native resume handshake is still required"@,
            Saved::Missing => if s.has_dispatched {
                "Saved conversation is missing; do not create a replacement or replay work"@
            } else {
                "No turn was dispatched and no saved conversation exists; there is nothing to resume"@
            },
            Saved::Unreadable => "Saved conversation could not be read safely"@,
        }
    }
}

/// Why a conversation could not be continued: a code, and a sentence.
pub open spec fn resume_failure(timed_out: bool, status: Seq<char>) -> (Seq<char>, Seq<char>) {
    if timed_out {
        (
            "startup_timeout"@,
            "Harness startup timed out; saved history and queued prompts are preserved. Retry resume when load settles."@,
        )
    } else if status == "empty"@ {
        (
            "empty_session"@,
            "No saved native conversation exists and no turn was dispatched; nothing can be resumed."@,
        )
    } else if status == "missing"@ {
        (
            "missing_history"@,
            "Saved native conversation is missing; refusing to replace it or replay work."@,
        )
    } else {
        (
            "resume_failed"@,
            "Native resume failed; inspect native history and protected local harness diagnostics for this session, then retry explicitly after correcting the cause."@,
        )
    }
}

/// What a start fails at where its harness is not configured any more.
pub open spec fn unconfigured() -> Seq<char> {
    "The selected harness is no longer configured"@
}

/// Whether the harness is started for the first time, once its folder is there.
pub open spec fn launches(s: SessionView, stopping: bool, configured: bool) -> Result<
    bool,
    FaultView,
> {
    if stopping {
        Err(other("service is stopping"@))
    } else if s.close_request is Some {
        Ok(false)
    } else if !configured {
        Err(other(unconfigured()))
    } else {
        Ok(true)
    }
}

/// Whether the saved conversation is continued, once nothing holds it back. It is not where the session
/// is being closed or the service stops.
pub open spec fn continues(s: SessionView, stopping: bool, configured: bool) -> Result<
    bool,
    FaultView,
> {
    if s.close_request is Some || stopping {
        Ok(false)
    } else if s.native_id is None {
        Err(other("missing native identity"@))
    } else if s.native_path is None {
        Err(other("missing native resume state"@))
    } else if !configured {
        Err(other("harness not configured"@))
    } else {
        Ok(true)
    }
}

/// What is recorded when a conversation could not be continued. After a timeout the queue is kept.
/// Where the service stops, nothing is recorded: the conversation is continued by the next run.
pub open spec fn relaunch_failed(
    s: SessionView,
    stopping: bool,
    fault: FaultView,
    saved: Saved,
) -> Seq<NoteView> {
    let timed_out = fault.kind == FaultKind::TimedOut;
    let (code, reason) = resume_failure(timed_out, recovery_status(s, saved));
    let lost = reason + " Cause: "@ + fault.message;
    if stopping || s.close_request is Some {
        Seq::empty()
    } else {
        let told = seq![
            note(
                "state"@,
                Data::Object(
                    map![
                        "state"@ => Data::Text("process_lost"@),
                        "reason"@ => Data::Text(lost),
                        "startup_error"@ => Data::Text(code)
                    ],
                ),
            ),
        ];
        (if timed_out {
            told
        } else {
            told + finishing_all(s, s.queue, "failed"@, Some(lost))
        }) + finishing_all(s, selected(s.receipts, Wanted::AcceptedResume), "failed"@, None)
    }
}

impl Session {
    fn note_baseline(&self, level: Option<&str>) -> (r: Vec<Note>)
        ensures
            notes(r@) == baseline_notes(self@, opt_str(level)),
    {
        proof {
            reveal(Session::snapshot);
        }
        let list: Vec<Note> = Vec::new();
        assert(notes(list@) =~= Seq::empty());
        match level {
            Some(level) => if self.reasoning.is_none() {
                let data = object().with_text("reasoning", level);
                one_note(Note::new("launch_reasoning", Json::Object(data)))
            } else {
                list
            },
            None => list,
        }
    }

    /// What is recorded when the harness has started for the first time.
    pub fn launched(&self, request: &str, level: Option<&str>, identity: Json) -> (r: (
        Vec<Note>,
        Result<(), Fault>,
    ))
        ensures
            (notes(r.0@), failure(r.1)) == launched(self@, request@, opt_str(level), identity@),
    {
        proof {
            reveal(Session::snapshot);
        }
        let mut list = self.note_baseline(level);
        push_note(&mut list, Note::new("native_identity", identity));
        if self.handle.is_none() {
            return (list, Err(Fault::other("harness exited during initialization")));
        }
        push_note(&mut list, Note::state("idle"));
        if self.finish(&mut list, request, "completed", None).is_err() {
            return (list, Err(Fault::other("cannot record startup")));
        }
        let stops = select(&self.receipts, Wanted::AcceptedStop);
        self.finish_all(&mut list, &stops, "completed", None);
        (list, Ok(()))
    }

    /// What is recorded when a startup fails at a stage.
    pub fn launch_failed(&self, request: &str, stage: Stage, cause: &str) -> (r: Vec<Note>)
        ensures
            notes(r@) == launch_failed(self@, request@, stage, cause@),
    {
        proof {
            reveal(Session::snapshot);
        }
        let reason = if same(cause, stage.words()) {
            cause.to_owned()
        } else {
            concat3(stage.words(), ". Cause: ", cause)
        };
        let mut list: Vec<Note> = Vec::new();
        assert(notes(list@) =~= Seq::empty());
        let _ = self.finish(&mut list, request, "failed", None);
        assert(notes(list@) =~= finishing(self@, request@, "failed"@, None));
        let data = object().with_text("state", "failed").with_text("reason", reason.as_str());
        push_note(&mut list, Note::new("state", Json::Object(data)));
        self.finish_all(&mut list, &self.queue, "failed", None);
        list
    }

    /// Whether the conversation is continued now.
    pub fn gate(&self, stopping: bool, blocked: bool) -> (r: Gate)
        ensures
            r == gate(self@, stopping, blocked),
    {
        proof {
            reveal(Session::snapshot);
        }
        if self.close_request.is_some() {
            Gate::Drop
        } else if stopping {
            Gate::Suspend
        } else if blocked {
            Gate::Wait
        } else {
            Gate::Go
        }
    }

    /// What is recorded when the harness continues the conversation.
    pub fn relaunched(&self, stopping: bool, level: Option<&str>, identity: Json) -> (r: (
        Step,
        Result<(), Fault>,
    ))
        ensures
            (r.0@, failure(r.1)) == relaunched(self@, stopping, opt_str(level), identity@),
    {
        proof {
            reveal(Session::snapshot);
        }
        let mut list = self.note_baseline(level);
        if self.close_request.is_some() || stopping {
            return (Step { notes: list, next: Next::Nothing }, Ok(()));
        }
        if self.handle.is_none() {
            return (
                Step { notes: list, next: Next::Nothing },
                Err(Fault::other("resumed harness exited")),
            );
        }
        push_note(&mut list, Note::new("native_identity", identity));
        push_note(&mut list, Note::state("idle"));
        let retries = select(&self.receipts, Wanted::AcceptedResume);
        self.finish_all(&mut list, &retries, "completed", None);
        if self.storage_paused {
            let data = object().with_text("text", "Cloudroom: workload resumed after restart.");
            push_note(&mut list, Note::new("storage_recovered", Json::Object(data)));
        }
        (Step { notes: list, next: Next::Advance { turn_ended: true } }, Ok(()))
    }

    /// Whether the saved conversation can be continued, in a word and in a sentence.
    pub fn recovery_check(&self, saved: Saved) -> (r: (&'static str, &'static str))
        ensures
            r.0@ == recovery_status(self@, saved),
            r.1@ == recovery_message(self@, saved),
    {
        proof {
            reveal(Session::snapshot);
        }
        let state = self.state.as_str();
        if self.close_request.is_some() || same(state, "closed") || same(
            state,
            "saved_history_only",
        ) {
            return ("unavailable", "This session is closed or has saved history only");
        }
        if self.native_id.is_none() || self.native_path.is_none() {
            return ("unavailable", "No saved native conversation identity is available");
        }
        match saved {
            Saved::Unconfigured => (
                "unavailable",
                "No saved native conversation identity is available",
            ),
            Saved::Readable => (
                "ready",
                "Saved conversation is available; the native resume handshake is still required",
            ),
            Saved::Missing => if self.has_dispatched {
                (
                    "missing",
                    "Saved conversation is missing; do not create a replacement or replay work",
                )
            } else {
                (
                    "empty",
                    "No turn was dispatched and no saved conversation exists; there is nothing to resume",
                )
            },
            Saved::Unreadable => ("unavailable", "Saved conversation could not be read safely"),
        }
    }

    /// Whether the harness is started for the first time, once its folder is there.
    pub fn launches(&self, stopping: bool, configured: bool) -> (r: Result<bool, Fault>)
        ensures
            bool_result(r) == launches(self@, stopping, configured),
    {
        proof {
            reveal(Session::snapshot);
        }
        if stopping {
            return Err(Fault::other("service is stopping"));
        }
        if self.close_request.is_some() {
            return Ok(false);
        }
        if !configured {
            return Err(Fault::other("The selected harness is no longer configured"));
        }
        Ok(true)
    }

    /// Whether the saved conversation is continued, once nothing holds it back.
    pub fn continues(&self, stopping: bool, configured: bool) -> (r: Result<bool, Fault>)
        ensures
            bool_result(r) == continues(self@, stopping, configured),
    {
        proof {
            reveal(Session::snapshot);
        }
        if self.close_request.is_some() || stopping {
            return Ok(false);
        }
        if self.native_id.is_none() {
            return Err(Fault::other("missing native identity"));
        }
        if self.native_path.is_none() {
            return Err(Fault::other("missing native resume state"));
        }
        if !configured {
            return Err(Fault::other("harness not configured"));
        }
        Ok(true)
    }

    /// The folder that the session works in.
    pub fn folder(&self) -> (r: Result<&str, Fault>)
        ensures
            match r {
                Ok(path) => self@.workspace is Some && path@ == self@.workspace->0.path,
                Err(f) => self@.workspace is None && f@ == other("session workspace missing"@),
            },
    {
        proof {
            reveal(Session::snapshot);
        }
        match &self.workspace {
            Some(w) => Ok(w.path.as_str()),
            None => Err(Fault::other("session workspace missing")),
        }
    }

    /// What is recorded when the conversation could not be continued.
    pub fn relaunch_failed(&self, stopping: bool, fault: &Fault, saved: Saved) -> (r: Vec<Note>)
        ensures
            notes(r@) == relaunch_failed(self@, stopping, fault@, saved),
    {
        proof {
            reveal(Session::snapshot);
        }
        let mut list: Vec<Note> = Vec::new();
        assert(notes(list@) =~= Seq::empty());
        if stopping || self.close_request.is_some() {
            return list;
        }
        let (status, message) = self.recovery_check(saved);
        let timed_out = fault.kind == FaultKind::TimedOut;
        let (code, reason) = explain_failure(timed_out, status);
        let lost = concat3(reason, " Cause: ", fault.message.as_str());
        let data = object().with_text("state", "process_lost").with_text(
            "reason",
            lost.as_str(),
        ).with_text("startup_error", code);
        let mut list = one_note(Note::new("state", Json::Object(data)));
        if !timed_out {
            self.finish_all(&mut list, &self.queue, "failed", Some(lost.as_str()));
        }
        let retries = select(&self.receipts, Wanted::AcceptedResume);
        self.finish_all(&mut list, &retries, "failed", None);
        list
    }
}

fn explain_failure(timed_out: bool, status: &str) -> (r: (&'static str, &'static str))
    ensures
        (r.0@, r.1@) == resume_failure(timed_out, status@),
{
    if timed_out {
        (
            "startup_timeout",
            "Harness startup timed out; saved history and queued prompts are preserved. Retry resume when load settles.",
        )
    } else if same(status, "empty") {
        (
            "empty_session",
            "No saved native conversation exists and no turn was dispatched; nothing can be resumed.",
        )
    } else if same(status, "missing") {
        (
            "missing_history",
            "Saved native conversation is missing; refusing to replace it or replay work.",
        )
    } else {
        (
            "resume_failed",
            "Native resume failed; inspect native history and protected local harness diagnostics for this session, then retry explicitly after correcting the cause.",
        )
    }
}

/// A timeout while a conversation was being continued fails no message: the queue stays.
pub proof fn timeouts_keep_the_queue(s: SessionView, fault: FaultView, saved: Saved)
    requires
        fault.kind == FaultKind::TimedOut,
        s.close_request is None,
    ensures
        relaunch_failed(s, false, fault, saved).len() == 1 + finishing_all(
            s,
            selected(s.receipts, Wanted::AcceptedResume),
            "failed"@,
            None,
        ).len(),
{
}

} // verus!
