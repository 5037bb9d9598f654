//! Requests to a running session: which are taken, and what taking one leads to.
use super::local::{Local, LocalView};
use super::prompt;
use super::query::{
    busy, finishing_all, has_work, notes, push_note, receipt_note, resumable, some_wanted,
    state_note, Note, NoteView, Wanted,
};
use super::sleep::sleepy;
use super::{accepted, Error, ErrorView, Receipt, ReceiptView, Session, SessionView};
use crate::json::{alike, object, opt_text, Data, Json};
use crate::runtime::Kind;
use crate::table::{in_order, is_order};
use crate::text::{concat, includes, opt, opt_owned, opt_slice, opt_str, same, same_opt};
use vstd::prelude::*;

verus! {

/// What the service knows beside the records when a request comes.
#[derive(Debug)]
pub struct Context {
    /// The service is stopping.
    pub stopping: bool,
    /// Storage is unsafe: no new execution.
    pub blocked: bool,
    /// The saved conversation of the session can be read.
    pub recoverable: bool,
    /// The number of processes of the session's workload.
    pub processes: Option<usize>,
    /// The name of the product that cannot be steered.
    pub product: String,
}

/// What is to be done once the records are made.
#[derive(Debug)]
pub enum Next {
    Nothing,
    /// Move the session to its next turn; `turn_ended` when the turn that just ended is why.
    Advance { turn_ended: bool },
    /// Send a message to the harness.
    Deliver { request: String },
    /// Interrupt the turn of a request.
    Interrupt { target: String },
    /// Hand the running turn more to consider.
    Steer { target: String },
    Compact,
    Rewind,
    /// Ask the harness to end.
    Close,
    /// Start a harness that continues the conversation.
    Relaunch,
    /// Carry out a start.
    Launch { request: String },
    /// Let the idle harness go.
    Release,
    /// A request that had to be settled is not known: the harness is ended, and nothing more of it is
    /// recorded.
    GiveUp,
}

/// The mathematical value of what is to be done.
pub enum NextView {
    Nothing,
    Advance { turn_ended: bool },
    Deliver { request: Seq<char> },
    Interrupt { target: Seq<char> },
    Steer { target: Seq<char> },
    Compact,
    Rewind,
    Close,
    Relaunch,
    Launch { request: Seq<char> },
    Release,
    GiveUp,
}

impl View for Next {
    type V = NextView;

    open spec fn view(&self) -> NextView {
        match self {
            Next::Nothing => NextView::Nothing,
            Next::Advance { turn_ended } => NextView::Advance { turn_ended: *turn_ended },
            Next::Deliver { request } => NextView::Deliver { request: request@ },
            Next::Interrupt { target } => NextView::Interrupt { target: target@ },
            Next::Steer { target } => NextView::Steer { target: target@ },
            Next::Compact => NextView::Compact,
            Next::Rewind => NextView::Rewind,
            Next::Close => NextView::Close,
            Next::Relaunch => NextView::Relaunch,
            Next::Launch { request } => NextView::Launch { request: request@ },
            Next::Release => NextView::Release,
            Next::GiveUp => NextView::GiveUp,
        }
    }
}

/// What a request leads to: records to make in order, then an action, then the reply.
#[derive(Debug)]
pub struct Outcome {
    pub notes: Vec<Note>,
    pub next: Next,
    pub reply: Result<Receipt, Error>,
}

/// The mathematical value of an outcome.
pub struct OutcomeView {
    pub notes: Seq<NoteView>,
    pub next: NextView,
    pub reply: Result<ReceiptView, ErrorView>,
}

impl View for Outcome {
    type V = OutcomeView;

    open spec fn view(&self) -> OutcomeView {
        OutcomeView {
            notes: notes(self.notes@),
            next: self.next@,
            reply: match self.reply {
                Ok(r) => Ok(r@),
                Err(e) => Err(e@),
            },
        }
    }
}

/// Nothing is recorded, and the request is turned down.
pub open spec fn turned_down(error: ErrorView) -> OutcomeView {
    OutcomeView { notes: Seq::empty(), next: NextView::Nothing, reply: Err(error) }
}

/// The words for a journal that takes no writes.
pub open spec fn unwritable() -> Seq<char> {
    "session journal is not writable"@
}

/// A request that came before: the same content gets the same receipt, other content is a
/// conflict.
pub open spec fn retried(s: SessionView, request: Seq<char>, command: Seq<char>, input: Data) -> Option<
    Result<ReceiptView, ErrorView>,
> {
    if !s.receipts.contains_key(request) {
        None
    } else {
        let receipt = s.receipts[request];
        if receipt.command != command || !alike(receipt.input, input) {
            Some(Err(ErrorView::Conflict("request_id already has different content"@)))
        } else {
            Some(Ok(receipt))
        }
    }
}

/// The commands that a running session takes.
pub open spec fn supported(command: Seq<char>) -> bool {
    ||| command == "prompt"@
    ||| command == "interrupt"@
    ||| command == "close"@
    ||| command == "stop"@
    ||| command == "resume"@
    ||| command == "edit"@
    ||| command == "cancel"@
    ||| command == "steer"@
    ||| command == "compact"@
    ||| command == "rewind"@
    ||| command == "attach"@
}

/// A resume that tries a failed startup again.
pub open spec fn retries_startup(s: SessionView, command: Seq<char>) -> bool {
    &&& command == "resume"@
    &&& s.state == "process_lost"@
    &&& s.startup_error is Some
    &&& s.current_request is None
    &&& s.handle is None
    &&& s.harness_pid is None
}

/// Why a session takes no request at all now.
pub open spec fn session_refuses(s: SessionView, command: Seq<char>, c: Context) -> Option<
    Seq<char>,
> {
    if s.rewind_request is Some {
        Some("wait for the pending rewind"@)
    } else if s.close_request is Some || (command != "close"@ && some_wanted(
        s.receipts,
        Wanted::PendingInterrupt,
    )) {
        Some("wait for the pending close or interrupt"@)
    } else if command == "close"@ && s.state == "starting"@ {
        Some("session is still starting"@)
    } else if !supported(command) {
        Some("unsupported command"@)
    } else if retries_startup(s, command) && !c.recoverable {
        Some("saved conversation is unavailable; inspect session recovery before retrying"@)
    } else if (s.state == "closed"@ || s.state == "process_lost"@ || s.state == "failed"@)
        && !retries_startup(s, command) {
        Some("process unavailable; history does not restore execution"@)
    } else if command == "prompt"@ && c.blocked {
        Some("storage unsafe; new execution is blocked"@)
    } else if command == "interrupt"@ && s.storage_paused {
        Some("workload is paused for storage; close it or wait for recovery"@)
    } else {
        None
    }
}

/// Why a queued message cannot be edited or cancelled.
pub open spec fn queue_refuses(s: SessionView, command: Seq<char>, input: Data) -> Option<Seq<char>> {
    let target = input.field("target_request_id"@).text_or_empty();
    let known = s.prompts.contains_key(target);
    let cancelled = known && s.prompts[target].cancelled;
    let edit = command == "edit"@;
    if target.len() == 0 {
        Some("queued message is no longer pending"@)
    } else if (edit || !cancelled) && !s.queue.contains(target) {
        Some("queued message is no longer pending"@)
    } else if (edit || !cancelled) && s.current_request == Some(target) {
        Some("queued message is already being sent"@)
    } else if edit && cancelled {
        Some("queued message is no longer pending"@)
    } else if edit && (match input.field("expected_revision"@).as_u64() {
        Some(n) => n,
        None => 0,
    }) != (if known {
        s.prompts[target].revision
    } else {
        1
    }) {
        Some("queued message changed since editing began"@)
    } else {
        None
    }
}

/// The session holds a ready harness whose turn is that of the target.
pub open spec fn targets_the_turn(s: SessionView, input: Data) -> bool {
    &&& s.ready
    &&& s.handle is Some
    &&& s.current_request == input.field("target_request_id"@).as_text()
}

/// Why the context cannot be compacted.
pub open spec fn compact_refuses(s: SessionView) -> Option<Seq<char>> {
    if s.compacting {
        Some("compaction is already running"@)
    } else if s.current_request is Some || (s.state != "idle"@ && s.state != "failed"@) {
        Some("context can only be compacted while the thread is idle"@)
    } else if !s.ready || s.handle is None {
        Some("harness is not ready for compaction"@)
    } else {
        None
    }
}

/// A child session that has not settled.
pub open spec fn unsettled_child(child: SessionView, parent: Seq<char>) -> bool {
    &&& child.parent_session == Some(parent)
    &&& (child.current_request is Some || child.queue.len() > 0 || child.state == "pending"@
        || child.state == "starting"@ || child.state == "resuming"@ || child.state
        == "waiting_for_files"@)
}

/// Some child of a session has not settled.
pub open spec fn children_unsettled(
    sessions: Map<Seq<char>, SessionView>,
    parent: Seq<char>,
) -> bool {
    exists|id: Seq<char>| #[trigger]
        sessions.contains_key(id) && unsettled_child(sessions[id], parent)
}

/// Why a conversation cannot be taken back.
pub open spec fn rewind_refuses(
    sessions: Map<Seq<char>, SessionView>,
    id: Seq<char>,
    s: SessionView,
    request: Seq<char>,
    input: Data,
) -> Option<Seq<char>> {
    let key = input.field("replacement"@).field("request_id"@).as_text();
    if children_unsettled(sessions, id) {
        Some("wait for child agents before editing a message"@)
    } else if prompt::some_text(input.field("before"@)) is None && prompt::some_text(
        input.field("last_turn_id"@),
    ) is None {
        Some("a native rewind checkpoint is required"@)
    } else if input.get("replacement"@) is Some && key is None {
        Some("replacement request ID required"@)
    } else if input.get("replacement"@) is Some && (key == Some(request) || s.receipts.contains_key(
        key->0,
    )) {
        Some("replacement request ID already exists"@)
    } else if s.compacting {
        Some("wait for compaction"@)
    } else if s.queue.len() > 0 {
        Some("send or remove queued messages before editing a message"@)
    } else if s.current_request is Some || (s.state != "idle"@ && s.state != "failed"@) {
        Some("wait for the active turn to finish before editing a sent message"@)
    } else if !s.ready || s.handle is None {
        Some("harness is not ready to rewind"@)
    } else {
        None
    }
}

/// Why a command is turned down, apart from the state of the session as a whole.
pub open spec fn command_refuses(
    sessions: Map<Seq<char>, SessionView>,
    id: Seq<char>,
    s: SessionView,
    request: Seq<char>,
    command: Seq<char>,
    input: Data,
    product: Seq<char>,
) -> Option<Seq<char>> {
    if command == "edit"@ || command == "cancel"@ {
        queue_refuses(s, command, input)
    } else if command == "steer"@ && s.harness == Kind::Claude {
        Some(product + " live steering is not supported"@)
    } else if command == "steer"@ && !targets_the_turn(s, input) {
        Some("steer target is no longer the active request"@)
    } else if (command == "compact"@ || command == "rewind"@ || command == "steer"@)
        && s.capabilities.field(command).is_false() {
        Some("operation is unsupported by this harness"@)
    } else if command == "compact"@ {
        compact_refuses(s)
    } else if command == "rewind"@ {
        rewind_refuses(sessions, id, s, request, input)
    } else if command == "interrupt"@ && !targets_the_turn(s, input) {
        Some("interrupt target is no longer the active request"@)
    } else {
        None
    }
}

/// A prompt starts its native turn immediately only when the harness is idle with nothing queued;
/// otherwise it is accepted and queued in order.
pub open spec fn delivers_now(s: SessionView) -> bool {
    &&& s.ready
    &&& s.state == "idle"@
    &&& !s.queue_paused
    &&& !s.compacting
    &&& s.queue.len() == 0
}

/// A note that a turn starts.
pub open spec fn turn_note(request: Seq<char>) -> NoteView {
    NoteView {
        kind: "state"@,
        data: Data::Object(
            map!["state"@ => Data::Text("starting_turn"@), "request_id"@ => Data::Text(request)],
        ),
        native: None,
    }
}

/// A note that the session closes; the running turn, if any, stays named.
pub open spec fn closing_note(s: SessionView) -> NoteView {
    NoteView {
        kind: "state"@,
        data: Data::Object(
            map![
                "state"@ => Data::Text("closing"@),
                "request_id"@ => opt_text(s.current_request),
                "turn_id"@ => opt_text(s.current_turn)
            ],
        ),
        native: None,
    }
}

/// Work has come for a session that sleeps.
pub open spec fn wakes(s: SessionView) -> bool {
    s.state == "sleeping"@ && s.handle is None && has_work(s) && resumable(s)
}

/// The request, accepted and at once completed.
pub open spec fn taken_and_done(r: ReceiptView) -> Seq<NoteView> {
    seq![receipt_note(r), receipt_note(ReceiptView { state: "completed"@, ..r })]
}

/// What a request that is taken leads to.
pub open spec fn carried_out(s: SessionView, r: ReceiptView) -> (Seq<NoteView>, NextView) {
    let first = seq![receipt_note(r)];
    let command = r.command;
    if command == "prompt"@ {
        if delivers_now(s) {
            (
                first.push(turn_note(r.request_id)),
                NextView::Deliver { request: r.request_id },
            )
        } else if s.state == "sleeping"@ && s.handle is None && !s.queue_paused && resumable(s) {
            (first.push(state_note("resuming"@)), NextView::Relaunch)
        } else {
            (first, NextView::Nothing)
        }
    } else if command == "edit"@ || command == "cancel"@ || command == "attach"@ {
        (taken_and_done(r), NextView::Nothing)
    } else if command == "resume"@ {
        if retries_startup(s, command) {
            (first.push(state_note("resuming"@)), NextView::Relaunch)
        } else {
            (taken_and_done(r), NextView::Advance { turn_ended: false })
        }
    } else if command == "stop"@ && (s.current_request is None || s.handle is None) {
        (taken_and_done(r), NextView::Nothing)
    } else if command == "steer"@ {
        (
            first,
            NextView::Steer { target: r.input.field("target_request_id"@).text_or_empty() },
        )
    } else if command == "compact"@ {
        (first.push(state_note("running"@)), NextView::Compact)
    } else if command == "rewind"@ {
        (first, NextView::Rewind)
    } else if command == "close"@ {
        let closing = first.push(closing_note(s)) + finishing_all(s, s.queue, "failed"@, None);
        if s.handle is None {
            (
                closing.push(state_note("closed"@)).push(
                    receipt_note(ReceiptView { state: "completed"@, ..r }),
                ),
                NextView::Close,
            )
        } else {
            (closing, NextView::Close)
        }
    } else {
        (
            first,
            NextView::Interrupt {
                target: match s.current_request {
                    Some(t) => t,
                    None => Seq::empty(),
                },
            },
        )
    }
}

/// What a request to sleep leads to. It applies once any running turn or interrupt settles.
pub open spec fn asked_to_sleep(
    sessions: Map<Seq<char>, SessionView>,
    id: Seq<char>,
    request: Seq<char>,
    c: Context,
) -> OutcomeView {
    let s = sessions[id];
    let r = accepted(request, "sleep"@, Data::Object(Map::empty()));
    let first = seq![receipt_note(r)];
    let done = receipt_note(ReceiptView { state: "completed"@, ..r });
    OutcomeView {
        notes: if s.handle is Some || busy(s) {
            first
        } else if resumable(s) && s.state != "sleeping"@ {
            first.push(state_note("sleeping"@)).push(done)
        } else {
            first.push(done)
        },
        next: if s.handle is Some && sleepy(sessions, id, c.processes) {
            NextView::Release
        } else {
            NextView::Nothing
        },
        reply: Ok(r),
    }
}

/// What a request to a running session leads to.
pub open spec fn commanded(
    l: LocalView,
    c: Context,
    id: Seq<char>,
    request: Seq<char>,
    command: Seq<char>,
    input: Data,
) -> OutcomeView {
    if !l.sessions.contains_key(id) {
        turned_down(ErrorView::NotFound)
    } else {
        let s = l.sessions[id];
        match retried(s, request, command, input) {
            Some(reply) => OutcomeView { notes: Seq::empty(), next: NextView::Nothing, reply },
            None => if !l.journal.writable {
                turned_down(ErrorView::Storage(unwritable()))
            } else if c.stopping {
                turned_down(ErrorView::Conflict("service is stopping"@))
            } else if command == "sleep"@ {
                asked_to_sleep(l.sessions, id, request, c)
            } else if (command == "compact"@ || command == "rewind"@) && s.state == "sleeping"@ {
                OutcomeView {
                    notes: seq![state_note("resuming"@)],
                    next: NextView::Relaunch,
                    reply: Err(
                        ErrorView::Conflict(
                            "this thread was asleep and is waking up; try again in a few seconds"@,
                        ),
                    ),
                }
            } else {
                match session_refuses(s, command, c) {
                    Some(message) => turned_down(ErrorView::Conflict(message)),
                    None => match command_refuses(
                        l.sessions,
                        id,
                        s,
                        request,
                        command,
                        input,
                        c.product@,
                    ) {
                        Some(message) => turned_down(ErrorView::Conflict(message)),
                        None => {
                            let r = accepted(request, command, input);
                            let (list, next) = carried_out(s, r);
                            OutcomeView { notes: list, next, reply: Ok(r) }
                        },
                    },
                }
            },
        }
    }
}

/// A new request that would be taken, and acts on a request that it does not name while none runs.
pub open spec fn lacks_target(
    l: LocalView,
    c: Context,
    id: Seq<char>,
    request: Seq<char>,
    command: Seq<char>,
    input: Data,
) -> bool {
    &&& command == "interrupt"@ || command == "steer"@
    &&& !(input.field("target_request_id"@) is Text)
    &&& l.sessions.contains_key(id)
    &&& retried(l.sessions[id], request, command, input) is None
    &&& commanded(l, c, id, request, command, input).reply is Ok
}

fn turn_down(error: Error) -> (r: Outcome)
    ensures
        r@ == turned_down(error@),
{
    let list: Vec<Note> = Vec::new();
    assert(notes(list@) =~= Seq::empty());
    Outcome { notes: list, next: Next::Nothing, reply: Err(error) }
}

/// A refusal as an optional text.
pub open spec fn words(message: Option<&'static str>) -> Option<Seq<char>> {
    match message {
        Some(m) => Some(m@),
        None => None,
    }
}

fn is_supported(command: &str) -> (r: bool)
    ensures
        r == supported(command@),
{
    same(command, "prompt") || same(command, "interrupt") || same(command, "close") || same(
        command,
        "stop",
    ) || same(command, "resume") || same(command, "edit") || same(command, "cancel") || same(
        command,
        "steer",
    ) || same(command, "compact") || same(command, "rewind") || same(command, "attach")
}

/// The view of the answer to a repeated request.
pub open spec fn retry_view(r: Option<Result<Receipt, Error>>) -> Option<
    Result<ReceiptView, ErrorView>,
> {
    match r {
        None => None,
        Some(Ok(receipt)) => Some(Ok(receipt@)),
        Some(Err(e)) => Some(Err(e@)),
    }
}

impl Session {
    /// The answer to a request that came before.
    pub fn retry(&self, request: &str, command: &str, input: &Json) -> (r: Option<
        Result<Receipt, Error>,
    >)
        ensures
            retry_view(r) == retried(self@, request@, command@, input@),
    {
        proof {
            reveal(Session::snapshot);
        }
        match self.receipts.get(request) {
            None => None,
            Some(receipt) => if !same(receipt.command.as_str(), command) || !receipt.input.same(
                input,
            ) {
                Some(Err(Error::conflict("request_id already has different content")))
            } else {
                Some(Ok(receipt.duplicate()))
            },
        }
    }

    fn retries_startup(&self, command: &str) -> (r: bool)
        ensures
            r == retries_startup(self@, command@),
    {
        proof {
            reveal(Session::snapshot);
        }
        same(command, "resume") && same(self.state.as_str(), "process_lost")
            && self.startup_error.is_some() && self.current_request.is_none()
            && self.handle.is_none() && self.harness_pid.is_none()
    }

    fn refuse_now(&self, command: &str, c: &Context) -> (r: Option<&'static str>)
        ensures
            words(r) == session_refuses(self@, command@, *c),
    {
        proof {
            reveal(Session::snapshot);
        }
        let state = self.state.as_str();
        if self.rewind_request.is_some() {
            return Some("wait for the pending rewind");
        }
        if self.close_request.is_some() || (!same(command, "close") && self.interrupt_pending()) {
            return Some("wait for the pending close or interrupt");
        }
        if same(command, "close") && same(state, "starting") {
            return Some("session is still starting");
        }
        if !is_supported(command) {
            return Some("unsupported command");
        }
        let retry = self.retries_startup(command);
        if retry && !c.recoverable {
            return Some(
                "saved conversation is unavailable; inspect session recovery before retrying",
            );
        }
        if (same(state, "closed") || same(state, "process_lost") || same(state, "failed"))
            && !retry {
            return Some("process unavailable; history does not restore execution");
        }
        if same(command, "prompt") && c.blocked {
            return Some("storage unsafe; new execution is blocked");
        }
        if same(command, "interrupt") && self.storage_paused {
            return Some("workload is paused for storage; close it or wait for recovery");
        }
        None
    }

    fn refuse_queue_change(&self, command: &str, input: &Json) -> (r: Option<&'static str>)
        ensures
            words(r) == queue_refuses(self@, command@, input@),
    {
        proof {
            reveal(Session::snapshot);
        }
        let target = input.field("target_request_id").text_or_empty();
        let edit = same(command, "edit");
        let (cancelled, revision): (bool, u64) = match self.prompts.get(target) {
            Some(p) => (p.cancelled, p.revision),
            None => (false, 1),
        };
        if target.is_empty() {
            return Some("queued message is no longer pending");
        }
        if edit || !cancelled {
            if !includes(&self.queue, target) {
                return Some("queued message is no longer pending");
            }
            if same_opt(opt_slice(&self.current_request), Some(target)) {
                return Some("queued message is already being sent");
            }
        }
        if edit && cancelled {
            return Some("queued message is no longer pending");
        }
        if edit {
            let expected: u64 = match input.field("expected_revision").as_u64() {
                Some(n) => n,
                None => 0,
            };
            if expected != revision {
                return Some("queued message changed since editing began");
            }
        }
        None
    }

    fn targets_the_turn(&self, input: &Json) -> (r: bool)
        ensures
            r == targets_the_turn(self@, input@),
    {
        proof {
            reveal(Session::snapshot);
        }
        self.ready && self.handle.is_some() && same_opt(
            opt_slice(&self.current_request),
            input.field_text("target_request_id"),
        )
    }

    fn refuse_compact(&self) -> (r: Option<&'static str>)
        ensures
            words(r) == compact_refuses(self@),
    {
        proof {
            reveal(Session::snapshot);
        }
        let state = self.state.as_str();
        if self.compacting {
            return Some("compaction is already running");
        }
        if self.current_request.is_some() || (!same(state, "idle") && !same(state, "failed")) {
            return Some("context can only be compacted while the thread is idle");
        }
        if !self.ready || self.handle.is_none() {
            return Some("harness is not ready for compaction");
        }
        None
    }

    fn is_unsettled_child(&self, parent: &str) -> (r: bool)
        ensures
            r == unsettled_child(self@, parent@),
    {
        proof {
            reveal(Session::snapshot);
        }
        let state = self.state.as_str();
        same_opt(opt_slice(&self.parent_session), Some(parent)) && (self.current_request.is_some()
            || !self.queue.is_empty() || same(state, "pending") || same(state, "starting") || same(
            state,
            "resuming",
        ) || same(state, "waiting_for_files"))
    }

    /// Whether a request is known.
    pub fn knows(&self, request: &str) -> (r: bool)
        ensures
            r == self@.receipts.contains_key(request@),
    {
        proof {
            reveal(Session::snapshot);
        }
        self.receipts.contains(request)
    }

    fn refuse_rewind(&self, unsettled: bool, request: &str, input: &Json) -> (r: Option<
        &'static str,
    >)
        ensures
            forall|sessions: Map<Seq<char>, SessionView>, id: Seq<char>|
                unsettled == #[trigger] children_unsettled(sessions, id) ==> words(r)
                    == rewind_refuses(sessions, id, self@, request@, input@),
    {
        proof {
            reveal(Session::snapshot);
        }
        let state = self.state.as_str();
        if unsettled {
            return Some("wait for child agents before editing a message");
        }
        if prompt::non_empty(input.field("before")).is_none() && prompt::non_empty(
            input.field("last_turn_id"),
        ).is_none() {
            return Some("a native rewind checkpoint is required");
        }
        if input.get("replacement").is_some() {
            match input.field("replacement").field_text("request_id") {
                None => {
                    return Some("replacement request ID required");
                },
                Some(key) => {
                    if same(key, request) || self.knows(key) {
                        return Some("replacement request ID already exists");
                    }
                },
            }
        }
        if self.compacting {
            return Some("wait for compaction");
        }
        if !self.queue.is_empty() {
            return Some("send or remove queued messages before editing a message");
        }
        if self.current_request.is_some() || (!same(state, "idle") && !same(state, "failed")) {
            return Some("wait for the active turn to finish before editing a sent message");
        }
        if !self.ready || self.handle.is_none() {
            return Some("harness is not ready to rewind");
        }
        None
    }

    fn delivers_now(&self) -> (r: bool)
        ensures
            r == delivers_now(self@),
    {
        proof {
            reveal(Session::snapshot);
        }
        self.ready && same(self.state.as_str(), "idle") && !self.queue_paused && !self.compacting
            && self.queue.is_empty()
    }

    fn would_wake(&self) -> (r: bool)
        ensures
            r == (self@.state == "sleeping"@ && self@.handle is None && !self@.queue_paused
                && resumable(self@)),
    {
        proof {
            reveal(Session::snapshot);
        }
        same(self.state.as_str(), "sleeping") && self.handle.is_none() && !self.queue_paused
            && self.can_resume()
    }

    fn close_notes(&self, receipt: &Receipt) -> (r: Vec<Note>)
        requires
            receipt@.command == "close"@,
        ensures
            notes(r@) == carried_out(self@, receipt@).0,
    {
        proof {
            reveal(Session::snapshot);
            close_word();
        }
        let mut list = one_note(Note::receipt(receipt));
        let data = object().with_text("state", "closing").with(
            "request_id",
            Json::opt_text(opt_slice(&self.current_request)),
        ).with("turn_id", Json::opt_text(opt_slice(&self.current_turn)));
        push_note(&mut list, Note::new("state", Json::Object(data)));
        self.finish_all(&mut list, &self.queue, "failed", None);
        if self.handle.is_none() {
            push_note(&mut list, Note::state("closed"));
            push_note(&mut list, done_note(receipt));
        }
        list
    }

    pub(crate) fn state_is(&self, state: &str) -> (r: bool)
        ensures
            r == (self@.state == state@),
    {
        proof {
            reveal(Session::snapshot);
        }
        same(self.state.as_str(), state)
    }

    pub(crate) fn is_attached(&self) -> (r: bool)
        ensures
            r == (self@.handle is Some),
    {
        proof {
            reveal(Session::snapshot);
        }
        self.handle.is_some()
    }

    pub(crate) fn turn_request(&self) -> (r: Option<&str>)
        ensures
            opt_str(r) == self@.current_request,
    {
        proof {
            reveal(Session::snapshot);
        }
        opt_slice(&self.current_request)
    }

    fn lacks(&self, command: &str) -> (r: bool)
        ensures
            r == self@.capabilities.field(command@).is_false(),
    {
        proof {
            reveal(Session::snapshot);
        }
        self.capabilities.field(command).is_false()
    }

    pub(crate) fn runs(&self, kind: Kind) -> (r: bool)
        ensures
            r == (self@.harness == kind),
    {
        proof {
            reveal(Session::snapshot);
        }
        self.harness == kind
    }

    fn carry_out(&self, receipt: &Receipt) -> (r: (Vec<Note>, Next))
        ensures
            (notes(r.0@), r.1@) == carried_out(self@, receipt@),
    {
        let command = receipt.command.as_str();
        if same(command, "close") {
            proof {
                close_word();
            }
            return (self.close_notes(receipt), Next::Close);
        }
        let mut list = one_note(Note::receipt(receipt));
        if same(command, "prompt") {
            if self.delivers_now() {
                let data = object().with_text("state", "starting_turn").with_text(
                    "request_id",
                    receipt.request_id.as_str(),
                );
                push_note(&mut list, Note::new("state", Json::Object(data)));
                return (list, Next::Deliver { request: receipt.request_id.clone() });
            }
            if self.would_wake() {
                push_note(&mut list, Note::state("resuming"));
                return (list, Next::Relaunch);
            }
            return (list, Next::Nothing);
        }
        if same(command, "edit") || same(command, "cancel") || same(command, "attach") {
            push_note(&mut list, done_note(receipt));
            assert(notes(list@) =~= taken_and_done(receipt@));
            return (list, Next::Nothing);
        }
        if same(command, "resume") {
            if self.retries_startup(command) {
                push_note(&mut list, Note::state("resuming"));
                return (list, Next::Relaunch);
            }
            push_note(&mut list, done_note(receipt));
            assert(notes(list@) =~= taken_and_done(receipt@));
            return (list, Next::Advance { turn_ended: false });
        }
        if same(command, "stop") && (self.turn_request().is_none() || !self.is_attached()) {
            push_note(&mut list, done_note(receipt));
            assert(notes(list@) =~= taken_and_done(receipt@));
            return (list, Next::Nothing);
        }
        if same(command, "steer") {
            let target = receipt.input.field("target_request_id").text_or_empty().to_owned();
            return (list, Next::Steer { target });
        }
        if same(command, "compact") {
            push_note(&mut list, Note::state("running"));
            return (list, Next::Compact);
        }
        if same(command, "rewind") {
            return (list, Next::Rewind);
        }
        let target = match self.turn_request() {
            Some(t) => t.to_owned(),
            None => String::new(),
        };
        (list, Next::Interrupt { target })
    }
}

/// A list of one note.
pub fn one_note(note: Note) -> (r: Vec<Note>)
    ensures
        notes(r@) == seq![note@],
{
    let mut list: Vec<Note> = Vec::new();
    list.push(note);
    assert(notes(list@) =~= seq![note@]);
    list
}

/// A note that a request is completed.
pub fn done_note(receipt: &Receipt) -> (r: Note)
    ensures
        r@ == receipt_note(ReceiptView { state: "completed"@, ..receipt@ }),
{
    let mut done = receipt.duplicate();
    done.state = "completed".to_owned();
    Note::receipt(&done)
}

proof fn close_word()
    ensures
        "close"@ != "prompt"@,
        "close"@ != "edit"@,
        "close"@ != "cancel"@,
        "close"@ != "attach"@,
        "close"@ != "resume"@,
        "close"@ != "stop"@,
        "close"@ != "steer"@,
        "close"@ != "compact"@,
        "close"@ != "rewind"@,
{
    reveal_strlit("close");
    reveal_strlit("prompt");
    reveal_strlit("edit");
    reveal_strlit("cancel");
    reveal_strlit("attach");
    reveal_strlit("resume");
    reveal_strlit("stop");
    reveal_strlit("steer");
    reveal_strlit("compact");
    reveal_strlit("rewind");
    assert("close"@.len() == 5 && "close"@[0] == 'c');
    assert("prompt"@.len() == 6 && "edit"@.len() == 4 && "cancel"@.len() == 6 && "attach"@.len()
        == 6 && "resume"@.len() == 6 && "stop"@.len() == 4 && "compact"@.len() == 7
        && "rewind"@.len() == 6);
    assert("steer"@[0] == 's');
}

impl Local {
    fn children_unsettled(&self, parent: &str) -> (r: bool)
        ensures
            r == children_unsettled(self@.sessions, parent@),
    {
        let count = self.sessions.len();
        let ghost keys = in_order(self.sessions@);
        let mut i: usize = 0;
        while i < count
            invariant
                i <= count,
                keys == in_order(self.sessions@),
                is_order(keys, self.sessions@),
                count == keys.len(),
                forall|j: int|
                    0 <= j < i ==> !unsettled_child(self.sessions@[#[trigger] keys[j]], parent@),
            decreases count - i,
        {
            if self.sessions.value_at(i).is_unsettled_child(parent) {
                assert(self.sessions@.contains_key(keys[i as int]));
                return true;
            }
            i += 1;
        }
        proof {
            assert forall|id: Seq<char>| #[trigger]
                self.sessions@.contains_key(id) implies !unsettled_child(
                self.sessions@[id],
                parent@,
            ) by {
                let j = choose|j: int| 0 <= j < keys.len() && keys[j] == id;
                assert(keys[j] == id);
            }
        }
        false
    }

    fn refuse_command(
        &self,
        id: &str,
        s: &Session,
        request: &str,
        command: &str,
        input: &Json,
        product: &str,
    ) -> (r: Option<String>)
        ensures
            opt(r) == command_refuses(
                self@.sessions,
                id@,
                s@,
                request@,
                command@,
                input@,
                product@,
            ),
    {
        if same(command, "edit") || same(command, "cancel") {
            return opt_owned(s.refuse_queue_change(command, input));
        }
        let steer = same(command, "steer");
        if steer && s.runs(Kind::Claude) {
            return Some(concat(product, " live steering is not supported"));
        }
        if steer && !s.targets_the_turn(input) {
            return Some("steer target is no longer the active request".to_owned());
        }
        if (same(command, "compact") || same(command, "rewind") || steer) && s.lacks(command) {
            return Some("operation is unsupported by this harness".to_owned());
        }
        if same(command, "compact") {
            return opt_owned(s.refuse_compact());
        }
        if same(command, "rewind") {
            let unsettled = self.children_unsettled(id);
            return opt_owned(s.refuse_rewind(unsettled, request, input));
        }
        if same(command, "interrupt") && !s.targets_the_turn(input) {
            return Some("interrupt target is no longer the active request".to_owned());
        }
        None
    }

    fn request_sleep(&self, id: &str, s: &Session, request: &str, c: &Context) -> (r: Outcome)
        requires
            self@.sessions.contains_key(id@),
            self@.sessions[id@] == s@,
        ensures
            r@ == asked_to_sleep(self@.sessions, id@, request@, *c),
    {
        let receipt = Receipt::accepted(request, "sleep", Json::Object(object()));
        let mut list = one_note(Note::receipt(&receipt));
        let attached = s.is_attached();
        if !attached && !s.busy() {
            if s.can_resume() && !s.state_is("sleeping") {
                push_note(&mut list, Note::state("sleeping"));
            }
            push_note(&mut list, done_note(&receipt));
        }
        let next = if attached && self.can_sleep(id, c.processes) {
            Next::Release
        } else {
            Next::Nothing
        };
        Outcome { notes: list, next, reply: Ok(receipt) }
    }

    /// Whether a request has no target where it needs one.
    pub fn lacks_target(
        &self,
        c: &Context,
        id: &str,
        request: &str,
        command: &str,
        input: &Json,
    ) -> (r: bool)
        ensures
            r == lacks_target(self@, *c, id@, request@, command@, input@),
    {
        if !(same(command, "interrupt") || same(command, "steer")) || input.field_text(
            "target_request_id",
        ).is_some() {
            return false;
        }
        match self.sessions.get(id) {
            Some(s) => if s.retry(request, command, input).is_some() {
                return false;
            },
            None => {
                return false;
            },
        }
        self.decide(c, id, request, command, input.duplicate()).reply.is_ok()
    }

    /// Decides on a request to a running session. Interrupting and steering name their target.
    pub fn command(&self, c: Context, id: &str, request: &str, command: &str, input: Json) -> (r:
        Outcome)
        requires
            !lacks_target(self@, c, id@, request@, command@, input@),
        ensures
            r@ == commanded(self@, c, id@, request@, command@, input@),
    {
        self.decide(&c, id, request, command, input)
    }

    fn decide(&self, c: &Context, id: &str, request: &str, command: &str, input: Json) -> (r:
        Outcome)
        ensures
            r@ == commanded(self@, *c, id@, request@, command@, input@),
    {
        let s = match self.sessions.get(id) {
            Some(s) => s,
            None => {
                return turn_down(Error::NotFound);
            },
        };
        if let Some(reply) = s.retry(request, command, &input) {
            let list: Vec<Note> = Vec::new();
            assert(notes(list@) =~= Seq::empty());
            return Outcome { notes: list, next: Next::Nothing, reply };
        }
        if !self.journal.writable() {
            return turn_down(Error::Storage("session journal is not writable".to_owned()));
        }
        if c.stopping {
            return turn_down(Error::conflict("service is stopping"));
        }
        if same(command, "sleep") {
            return self.request_sleep(id, s, request, c);
        }
        if (same(command, "compact") || same(command, "rewind")) && s.state_is("sleeping") {
            return Outcome {
                notes: one_note(Note::state("resuming")),
                next: Next::Relaunch,
                reply: Err(
                    Error::conflict(
                        "this thread was asleep and is waking up; try again in a few seconds",
                    ),
                ),
            };
        }
        if let Some(message) = s.refuse_now(command, c) {
            return turn_down(Error::conflict(message));
        }
        let product = c.product.as_str();
        if let Some(message) = self.refuse_command(id, s, request, command, &input, product) {
            return turn_down(Error::Conflict(message));
        }
        let receipt = Receipt::accepted(request, command, input);
        let (list, next) = s.carry_out(&receipt);
        Outcome { notes: list, next, reply: Ok(receipt) }
    }
}

} // verus!
