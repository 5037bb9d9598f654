//! Replays journal records: the session state machine.
use super::{
    accepted, copy_workspace, prompt, receipt_in, workspace_in, Receipt, ReceiptView, Record,
    RecordView, Session, SessionView, Workspace,
};
use crate::fault::{other, Fault, FaultView};
use crate::json::{object, Data, Json};
use crate::runtime::{checkpoint, checkpointed, kind_in, Kind};
use crate::text::{
    chars_of, concat3, copy_all, find_from, first_text, found_from, opt, opt_copy, opt_owned, opt_slice, opt_str, or_text,
    push_string, retain_others, same, string_of, views, without,
};
use vstd::prelude::*;
use vstd::slice::slice_subrange;

verus! {

/// The failure of an operation that returns nothing.
pub open spec fn failure(r: Result<(), Fault>) -> Option<FaultView> {
    match r {
        Ok(_) => None,
        Err(f) => Some(f@),
    }
}

/// A value if there is one, else another.
pub open spec fn or<T>(first: Option<T>, second: Option<T>) -> Option<T> {
    match first {
        Some(_) => first,
        None => second,
    }
}

/// Lifecycle bookkeeping, such as restart recovery, is not user or agent activity.
pub open spec fn bookkeeping(kind: Seq<char>) -> bool {
    ||| kind == "state"@
    ||| kind == "harness"@
    ||| kind == "workspace"@
    ||| kind == "launch_reasoning"@
    ||| kind == "native_identity"@
    ||| kind == "native_history_unavailable"@
}

/// What every record changes.
pub open spec fn touched(s: SessionView, r: RecordView) -> SessionView {
    SessionView {
        last_sequence: r.sequence,
        teleport_output: s.teleport_output || ((r.kind == "text_delta"@ || r.kind
            == "thinking_delta"@) && r.data.field("delta"@).text_or_empty().len() > 0),
        last_activity: if bookkeeping(r.kind) {
            s.last_activity
        } else {
            or(r.timestamp_ms, s.last_activity)
        },
        ..s
    }
}

/// The identifier of the task that comes with the start of a child session.
pub open spec fn task_id(start: Seq<char>) -> Seq<char> {
    match found_from(start, "child_"@, 0) {
        Some(i) => start.subrange(0, i) + "task_"@ + start.subrange(
            i + "child_"@.len(),
            start.len() as int,
        ),
        None => start,
    }
}

/// The task that comes with the start of a child session.
pub open spec fn task_of(start: ReceiptView) -> ReceiptView {
    accepted(
        task_id(start.request_id),
        "prompt"@,
        Data::Object(
            map![
                "text"@ => start.input.field("prompt"@),
                "reasoning"@ => start.input.field("reasoning"@)
            ],
        ),
    )
}

/// A receipt that is accepted for the first time.
pub open spec fn fresh(s: SessionView, r: ReceiptView) -> bool {
    r.state == "accepted"@ && !s.receipts.contains_key(r.request_id)
}

/// The session after the receipt of its start, but for the harness. The first acceptance leaves it
/// pending; that of a child session also queues its task.
pub open spec fn start_applied(s: SessionView, r: ReceiptView) -> SessionView {
    let parent = r.input.field("parent_session"@).as_text();
    let child = parent is Some && fresh(s, r);
    let task = task_of(r);
    SessionView {
        parent_session: parent,
        prompts: if child {
            prompt::prompts_after(s.prompts, task)
        } else {
            s.prompts
        },
        queue: if child {
            s.queue.push(task.request_id)
        } else {
            s.queue
        },
        receipts: if child {
            s.receipts.insert(task.request_id, task)
        } else {
            s.receipts
        },
        state: if fresh(s, r) {
            "pending"@
        } else {
            s.state
        },
        workspace: or(r.workspace, s.workspace),
        reasoning: first_text(r.input.field("reasoning"@).as_text(), s.reasoning),
        model: first_text(r.model, s.model),
        provider: first_text(r.provider, s.provider),
        ..s
    }
}

/// The harness that a start names; Codex where it names none.
pub open spec fn start_harness(input: Data, word: Seq<char>) -> Option<Kind> {
    match input.get("harness"@) {
        Some(v) => kind_in(v, word),
        None => Some(Kind::Codex),
    }
}

/// A prompt in one of these states still waits or runs.
pub open spec fn open_prompt(state: Seq<char>) -> bool {
    state == "accepted"@ || state == "running"@ || state == "delivered"@
}

/// The queue after a receipt: a prompt joins it when it is first accepted and leaves it when it
/// ends or is cancelled.
pub open spec fn queue_after(s: SessionView, r: ReceiptView) -> Seq<Seq<char>> {
    if r.command == "prompt"@ {
        let joined = if fresh(s, r) {
            s.queue.push(r.request_id)
        } else {
            s.queue
        };
        if open_prompt(r.state) {
            joined
        } else {
            without(joined, r.request_id)
        }
    } else if r.command == "cancel"@ {
        match r.input.field("target_request_id"@) {
            Data::Text(target) => if r.state == "accepted"@ || r.state == "completed"@ {
                without(s.queue, target)
            } else {
                s.queue
            },
            _ => s.queue,
        }
    } else {
        s.queue
    }
}

/// Stopping pauses the queue, and resuming lets it run.
pub open spec fn paused_after(s: SessionView, r: ReceiptView) -> bool {
    if fresh(s, r) && r.command == "stop"@ {
        true
    } else if fresh(s, r) && r.command == "resume"@ {
        false
    } else {
        s.queue_paused
    }
}

/// A new user request, and healthy progress, each permit one more recovery.
pub open spec fn attempted_after(s: SessionView, r: ReceiptView) -> bool {
    s.recovery_attempted && !(r.command == "prompt"@ && (fresh(s, r) || r.state == "completed"@
        || r.state == "interrupted"@))
}

/// A new user request is not yet limited.
pub open spec fn limited_after(s: SessionView, r: ReceiptView) -> bool {
    s.usage_limited && !(r.command == "prompt"@ && fresh(s, r))
}

/// Whether the context is being compacted.
pub open spec fn compacting_after(s: SessionView, r: ReceiptView) -> bool {
    if r.command == "compact"@ {
        open_prompt(r.state)
    } else {
        s.compacting
    }
}

/// The request that the context be compacted.
pub open spec fn compact_after(s: SessionView, r: ReceiptView) -> Option<Seq<char>> {
    if r.command == "compact"@ {
        if ended(r.state) {
            None
        } else {
            Some(r.request_id)
        }
    } else {
        s.compact_request
    }
}

/// The states in which a request has ended, in one way or another.
pub open spec fn ended(state: Seq<char>) -> bool {
    ||| state == "completed"@
    ||| state == "interrupted"@
    ||| state == "failed"@
    ||| state == "unknown"@
    ||| state == "unknown_after_restart"@
}

/// The request that the session be closed.
pub open spec fn close_after(s: SessionView, r: ReceiptView) -> Option<Seq<char>> {
    if r.command == "close"@ {
        Some(r.request_id)
    } else {
        s.close_request
    }
}

/// How the last prompt that ended did end.
pub open spec fn last_prompt_after(s: SessionView, r: ReceiptView) -> Option<Seq<char>> {
    if r.command == "prompt"@ && !open_prompt(r.state) {
        Some(r.state)
    } else {
        s.last_prompt_state
    }
}

/// A rewind is accepted.
pub open spec fn rewinds(r: ReceiptView) -> bool {
    r.command == "rewind"@ && r.state == "accepted"@
}

/// The session after a receipt, but for what is particular to a start.
pub open spec fn receipt_recorded(s: SessionView, r: ReceiptView) -> SessionView {
    SessionView {
        queue: queue_after(s, r),
        queue_paused: paused_after(s, r),
        recovery_attempted: attempted_after(s, r),
        usage_limited: limited_after(s, r),
        compacting: compacting_after(s, r),
        compact_request: compact_after(s, r),
        close_request: close_after(s, r),
        last_prompt_state: last_prompt_after(s, r),
        rewind_request: if rewinds(r) {
            Some(r.request_id)
        } else {
            s.rewind_request
        },
        state: if rewinds(r) {
            "rewinding"@
        } else {
            s.state
        },
        prompts: prompt::prompts_after(s.prompts, r),
        receipts: s.receipts.insert(r.request_id, r),
        ..s
    }
}

/// The session after a record of a receipt.
pub open spec fn receipt_applied(s: SessionView, data: Data) -> (SessionView, Option<FaultView>) {
    match receipt_in(data) {
        None => (s, Some(other("invalid receipt"@))),
        Some(r) => if r.command == "start"@ {
            let started = start_applied(s, r);
            match start_harness(r.input, s.word) {
                None => (started, Some(other("unknown harness"@))),
                Some(kind) => (
                    receipt_recorded(SessionView { harness: kind, ..started }, r),
                    None,
                ),
            }
        } else {
            (receipt_recorded(s, r), None)
        },
    }
}

/// The session after the harness tells its identity. It may change only where it was replaced.
pub open spec fn identity_applied(s: SessionView, data: Data) -> (SessionView, Option<FaultView>) {
    match data.field("id"@).as_text() {
        None => (s, Some(other("missing native identity"@))),
        Some(id) => if s.native_id is Some && s.native_id->0 != id && !data.field(
            "replaced"@,
        ).is_true() {
            (s, Some(other("native identity changed"@)))
        } else {
            (
                SessionView {
                    native_id: Some(id),
                    capabilities: match data.get("capabilities"@) {
                        Some(c) => c,
                        None => s.capabilities,
                    },
                    model: first_text(data.field("model"@).as_text(), s.model),
                    provider: first_text(data.field("provider"@).as_text(), s.provider),
                    native_path: first_text(data.field("path"@).as_text(), s.native_path),
                    ..s
                },
                None,
            )
        },
    }
}

/// The offset that a native cursor tells.
pub open spec fn cursor_offset(cursor: Data) -> u64 {
    match cursor.field("offset"@).as_u64() {
        Some(n) => n,
        None => 0,
    }
}

/// The session after one more record of native history.
pub open spec fn native_applied(s: SessionView, data: Data, native: Option<Seq<char>>) -> (
    SessionView,
    Option<FaultView>,
) {
    match checkpointed(s.harness, s.native_cursor, data, native) {
        Err(f) => (s, Some(f)),
        Ok(cursor) => (
            SessionView { native_cursor: cursor, native_offset: cursor_offset(cursor), ..s },
            None,
        ),
    }
}

/// The session after a change of state. Dispatching a queued prompt removes it from the queue.
pub open spec fn state_applied(s: SessionView, data: Data) -> SessionView {
    let state = match data.field("state"@) {
        Data::Text(t) => t,
        _ => "unknown"@,
    };
    let request = data.field("request_id"@).as_text();
    let dispatched = state == "starting_turn"@ && request is Some;
    let startup = data.field("startup_error"@).as_text();
    let lost = data.field("reason"@).is_text("native resume or process cleanup failed"@);
    SessionView {
        state,
        recovery_attempted: s.recovery_attempted || state == "resuming"@,
        startup_error: if startup is Some {
            startup
        } else if lost {
            Some("resume_failed"@)
        } else if state == "idle"@ {
            None
        } else {
            s.startup_error
        },
        startup_reason: if startup is Some {
            data.field("reason"@).as_text()
        } else if lost {
            Some("native resume or process cleanup failed"@)
        } else if state == "idle"@ {
            None
        } else {
            s.startup_reason
        },
        current_request: request,
        current_turn: data.field("turn_id"@).as_text(),
        has_dispatched: s.has_dispatched || dispatched,
        queue: if dispatched {
            without(s.queue, request->0)
        } else {
            s.queue
        },
        ..s
    }
}

/// The session after its conversation was taken back to an earlier point.
pub open spec fn rewound(s: SessionView, data: Data) -> SessionView {
    let cursor = data.field("cursor"@);
    let request = data.field("request_id"@).as_text();
    SessionView {
        native_id: first_text(data.field("id"@).as_text(), s.native_id),
        native_path: first_text(data.field("path"@).as_text(), s.native_path),
        native_cursor: cursor,
        native_offset: cursor_offset(cursor),
        checkpoint: None,
        rewind_request: None,
        state: "idle"@,
        receipts: completed_in(s.receipts, request),
        ..s
    }
}

/// The receipts with one of them completed.
pub open spec fn completed_in(
    receipts: Map<Seq<char>, ReceiptView>,
    request: Option<Seq<char>>,
) -> Map<Seq<char>, ReceiptView> {
    if request is Some && receipts.contains_key(request->0) {
        receipts.insert(
            request->0,
            ReceiptView { state: "completed"@, ..receipts[request->0] },
        )
    } else {
        receipts
    }
}

/// The session after a rewind; the message that replaces the rewound one joins the queue.
pub open spec fn rewind_applied(s: SessionView, data: Data) -> (SessionView, Option<FaultView>) {
    let back = rewound(s, data);
    match prompt::present(data, "replacement"@) {
        None => (back, None),
        Some(replacement) => match receipt_in(replacement) {
            None => (back, Some(other("invalid receipt"@))),
            Some(r) => if back.receipts.contains_key(r.request_id) {
                (back, None)
            } else {
                (
                    SessionView {
                        prompts: prompt::prompts_after(back.prompts, r),
                        queue: back.queue.push(r.request_id),
                        receipts: back.receipts.insert(r.request_id, r),
                        ..back
                    },
                    None,
                )
            },
        },
    }
}

/// The session after a record that sets a thing or two.
pub open spec fn flag_applied(s: SessionView, kind: Seq<char>, data: Data) -> Option<SessionView> {
    if kind == "harness"@ {
        Some(
            SessionView {
                harness_pid: match data.field("pid"@).as_u64() {
                    Some(pid) => Some(pid as u32),
                    None => None,
                },
                ..s
            },
        )
    } else if kind == "launch_reasoning"@ {
        Some(
            SessionView {
                reasoning: first_text(s.reasoning, data.field("reasoning"@).as_text()),
                ..s
            },
        )
    } else if kind == "checkpoint"@ {
        Some(SessionView { checkpoint: Some(data), ..s })
    } else if kind == "rewind_failed"@ {
        Some(SessionView { rewind_request: None, state: "idle"@, ..s })
    } else if kind == "usage_limited"@ {
        Some(SessionView { usage_limited: true, ..s })
    } else if kind == "storage_warning"@ {
        Some(SessionView { storage_warned: true, ..s })
    } else if kind == "storage_pause"@ {
        Some(SessionView { storage_paused: data.field("paused"@).is_true(), ..s })
    } else if kind == "storage_recovered"@ {
        Some(SessionView { storage_warned: false, storage_paused: false, ..s })
    } else {
        None
    }
}

/// The session after a record, and the failure if the record is refused.
pub open spec fn record_applied(s: SessionView, r: RecordView) -> (SessionView, Option<FaultView>) {
    let t = touched(s, r);
    if r.kind == "receipt"@ {
        receipt_applied(t, r.data)
    } else if r.kind == "native_identity"@ {
        identity_applied(t, r.data)
    } else if r.kind == "native_record"@ {
        native_applied(t, r.data, r.native)
    } else if r.kind == "state"@ {
        (state_applied(t, r.data), None)
    } else if r.kind == "workspace"@ {
        match workspace_in(r.data) {
            Some(w) => (SessionView { workspace: Some(w), ..t }, None),
            None => (t, Some(other("invalid workspace"@))),
        }
    } else if r.kind == "rewind"@ {
        rewind_applied(t, r.data)
    } else {
        match flag_applied(t, r.kind, r.data) {
            Some(next) => (next, None),
            None => (t, None),
        }
    }
}

fn child_task(start: &Receipt) -> (r: Receipt)
    ensures
        r@ == task_of(start@),
{
    let id = chars_of(start.request_id.as_str());
    let part = chars_of("child_");
    let request_id = match find_from(id.as_slice(), part.as_slice(), 0) {
        Some(i) => {
            let head = string_of(slice_subrange(id.as_slice(), 0, i));
            let tail = string_of(slice_subrange(id.as_slice(), i + part.len(), id.len()));
            concat3(head.as_str(), "task_", tail.as_str())
        },
        None => start.request_id.clone(),
    };
    let input = object().with("text", start.input.field("prompt").duplicate()).with(
        "reasoning",
        start.input.field("reasoning").duplicate(),
    );
    Receipt::accepted(request_id.as_str(), "prompt", Json::Object(input))
}

fn is_open_prompt(state: &str) -> (r: bool)
    ensures
        r == open_prompt(state@),
{
    same(state, "accepted") || same(state, "running") || same(state, "delivered")
}

/// Whether a request has ended.
pub fn has_ended(state: &str) -> (r: bool)
    ensures
        r == ended(state@),
{
    same(state, "completed") || same(state, "interrupted") || same(state, "failed") || same(
        state,
        "unknown",
    ) || same(state, "unknown_after_restart")
}

impl Session {
    fn touch(&mut self, record: &Record)
        ensures
            final(self)@ == touched(old(self)@, record@),
    {
        proof {
            reveal(Session::snapshot);
        }
        self.last_sequence = record.sequence;
        let kind = record.kind.as_str();
        if (same(kind, "text_delta") || same(kind, "thinking_delta")) && !record.data.field(
            "delta",
        ).text_or_empty().is_empty() {
            self.teleport_output = true;
        }
        let quiet = same(kind, "state") || same(kind, "harness") || same(kind, "workspace") || same(
            kind,
            "launch_reasoning",
        ) || same(kind, "native_identity") || same(kind, "native_history_unavailable");
        if !quiet && record.timestamp_ms.is_some() {
            self.last_activity = record.timestamp_ms;
        }
    }

    fn is_fresh(&self, receipt: &Receipt) -> (r: bool)
        ensures
            r == fresh(self@, receipt@),
    {
        proof {
            reveal(Session::snapshot);
        }
        same(receipt.state.as_str(), "accepted") && !self.receipts.contains(
            receipt.request_id.as_str(),
        )
    }

    fn queue_task(&mut self, task: Receipt)
        ensures
            final(self)@ == (SessionView {
                prompts: prompt::prompts_after(old(self)@.prompts, task@),
                queue: old(self)@.queue.push(task@.request_id),
                receipts: old(self)@.receipts.insert(task@.request_id, task@),
                ..old(self)@
            }),
    {
        proof {
            reveal(Session::snapshot);
        }
        prompt::apply(&mut self.prompts, &task);
        push_string(&mut self.queue, task.request_id.as_str());
        let id = task.request_id.clone();
        self.receipts.insert(id.as_str(), task);
    }

    fn record_start(&mut self, receipt: &Receipt)
        ensures
            final(self)@ == start_applied(old(self)@, receipt@),
    {
        proof {
            reveal(Session::snapshot);
        }
        let first = self.is_fresh(receipt);
        let parent = receipt.input.field_text("parent_session");
        if parent.is_some() && first {
            self.queue_task(child_task(receipt));
        }
        self.parent_session = opt_owned(parent);
        self.state = if first {
            "pending".to_owned()
        } else {
            self.state.clone()
        };
        self.workspace = match &receipt.workspace {
            Some(w) => Some(w.duplicate()),
            None => copy_workspace(&self.workspace),
        };
        // Completing this receipt must not erase a default captured after it was accepted.
        self.reasoning = or_text(receipt.input.field_text("reasoning"), &self.reasoning);
        self.model = or_text(opt_slice(&receipt.model), &self.model);
        self.provider = or_text(opt_slice(&receipt.provider), &self.provider);
    }

    fn queue_with(&self, receipt: &Receipt) -> (r: Vec<String>)
        ensures
            views(r@) == queue_after(self@, receipt@),
    {
        proof {
            reveal(Session::snapshot);
        }
        let command = receipt.command.as_str();
        let state = receipt.state.as_str();
        let mut queue = copy_all(&self.queue);
        if same(command, "prompt") {
            // Acceptance is also queue insertion: one durable record.
            if self.is_fresh(receipt) {
                push_string(&mut queue, receipt.request_id.as_str());
            }
            if !is_open_prompt(state) {
                return retain_others(&queue, receipt.request_id.as_str());
            }
        } else if same(command, "cancel") {
            if same(state, "accepted") || same(state, "completed") {
                if let Some(target) = receipt.input.field_text("target_request_id") {
                    return retain_others(&queue, target);
                }
            }
        }
        queue
    }

    fn set_flags(
        &mut self,
        queue_paused: bool,
        recovery_attempted: bool,
        usage_limited: bool,
        compacting: bool,
    )
        ensures
            final(self)@ == (SessionView {
                queue_paused,
                recovery_attempted,
                usage_limited,
                compacting,
                ..old(self)@
            }),
    {
        proof {
            reveal(Session::snapshot);
        }
        self.queue_paused = queue_paused;
        self.recovery_attempted = recovery_attempted;
        self.usage_limited = usage_limited;
        self.compacting = compacting;
    }

    fn set_requests(
        &mut self,
        close_request: Option<String>,
        compact_request: Option<String>,
        rewind_request: Option<String>,
        last_prompt_state: Option<String>,
        state: String,
    )
        ensures
            final(self)@ == (SessionView {
                close_request: opt(close_request),
                compact_request: opt(compact_request),
                rewind_request: opt(rewind_request),
                last_prompt_state: opt(last_prompt_state),
                state: state@,
                ..old(self)@
            }),
    {
        proof {
            reveal(Session::snapshot);
        }
        self.close_request = close_request;
        self.compact_request = compact_request;
        self.rewind_request = rewind_request;
        self.last_prompt_state = last_prompt_state;
        self.state = state;
    }

    fn set_queue(&mut self, queue: Vec<String>)
        ensures
            final(self)@ == (SessionView { queue: views(queue@), ..old(self)@ }),
    {
        proof {
            reveal(Session::snapshot);
        }
        self.queue = queue;
    }

    fn keep_receipt(&mut self, receipt: Receipt)
        ensures
            final(self)@ == (SessionView {
                prompts: prompt::prompts_after(old(self)@.prompts, receipt@),
                receipts: old(self)@.receipts.insert(receipt@.request_id, receipt@),
                ..old(self)@
            }),
    {
        proof {
            reveal(Session::snapshot);
        }
        prompt::apply(&mut self.prompts, &receipt);
        let id = receipt.request_id.clone();
        self.receipts.insert(id.as_str(), receipt);
    }

    fn next_paused(&self, receipt: &Receipt) -> (r: bool)
        ensures
            r == paused_after(self@, receipt@),
    {
        proof {
            reveal(Session::snapshot);
        }
        if self.is_fresh(receipt) {
            if same(receipt.command.as_str(), "stop") {
                return true;
            }
            if same(receipt.command.as_str(), "resume") {
                return false;
            }
        }
        self.queue_paused
    }

    fn next_attempted(&self, receipt: &Receipt) -> (r: bool)
        ensures
            r == attempted_after(self@, receipt@),
    {
        proof {
            reveal(Session::snapshot);
        }
        let healthy = self.is_fresh(receipt) || same(receipt.state.as_str(), "completed") || same(
            receipt.state.as_str(),
            "interrupted",
        );
        self.recovery_attempted && !(same(receipt.command.as_str(), "prompt") && healthy)
    }

    fn next_limited(&self, receipt: &Receipt) -> (r: bool)
        ensures
            r == limited_after(self@, receipt@),
    {
        proof {
            reveal(Session::snapshot);
        }
        self.usage_limited && !(same(receipt.command.as_str(), "prompt") && self.is_fresh(receipt))
    }

    fn next_compacting(&self, receipt: &Receipt) -> (r: bool)
        ensures
            r == compacting_after(self@, receipt@),
    {
        proof {
            reveal(Session::snapshot);
        }
        if same(receipt.command.as_str(), "compact") {
            is_open_prompt(receipt.state.as_str())
        } else {
            self.compacting
        }
    }

    fn next_compact(&self, receipt: &Receipt) -> (r: Option<String>)
        ensures
            opt(r) == compact_after(self@, receipt@),
    {
        proof {
            reveal(Session::snapshot);
        }
        if !same(receipt.command.as_str(), "compact") {
            opt_copy(&self.compact_request)
        } else if has_ended(receipt.state.as_str()) {
            None
        } else {
            Some(receipt.request_id.clone())
        }
    }

    fn next_close(&self, receipt: &Receipt) -> (r: Option<String>)
        ensures
            opt(r) == close_after(self@, receipt@),
    {
        proof {
            reveal(Session::snapshot);
        }
        if same(receipt.command.as_str(), "close") {
            Some(receipt.request_id.clone())
        } else {
            opt_copy(&self.close_request)
        }
    }

    fn next_last_prompt(&self, receipt: &Receipt) -> (r: Option<String>)
        ensures
            opt(r) == last_prompt_after(self@, receipt@),
    {
        proof {
            reveal(Session::snapshot);
        }
        if same(receipt.command.as_str(), "prompt") && !is_open_prompt(receipt.state.as_str()) {
            Some(receipt.state.clone())
        } else {
            opt_copy(&self.last_prompt_state)
        }
    }

    fn next_rewind(&self, receipt: &Receipt) -> (r: (Option<String>, String))
        ensures
            opt(r.0) == (if rewinds(receipt@) {
                Some(receipt@.request_id)
            } else {
                self@.rewind_request
            }),
            r.1@ == (if rewinds(receipt@) {
                "rewinding"@
            } else {
                self@.state
            }),
    {
        proof {
            reveal(Session::snapshot);
        }
        if same(receipt.command.as_str(), "rewind") && same(receipt.state.as_str(), "accepted") {
            (Some(receipt.request_id.clone()), "rewinding".to_owned())
        } else {
            (opt_copy(&self.rewind_request), self.state.clone())
        }
    }

    fn record_receipt(&mut self, receipt: Receipt)
        ensures
            final(self)@ == receipt_recorded(old(self)@, receipt@),
    {
        let queue = self.queue_with(&receipt);
        let paused = self.next_paused(&receipt);
        let attempted = self.next_attempted(&receipt);
        let limited = self.next_limited(&receipt);
        let compacting = self.next_compacting(&receipt);
        let close = self.next_close(&receipt);
        let compact = self.next_compact(&receipt);
        let (rewind, state) = self.next_rewind(&receipt);
        let last = self.next_last_prompt(&receipt);
        self.set_queue(queue);
        self.set_flags(paused, attempted, limited, compacting);
        self.set_requests(close, compact, rewind, last, state);
        self.keep_receipt(receipt);
    }

    fn word(&self) -> (r: &str)
        ensures
            r@ == self@.word,
    {
        proof {
            reveal(Session::snapshot);
        }
        self.word.as_str()
    }

    fn apply_receipt(&mut self, data: &Json) -> (r: Result<(), Fault>)
        ensures
            (final(self)@, failure(r)) == receipt_applied(old(self)@, data@),
    {
        let receipt = match Receipt::from_json(data) {
            Some(receipt) => receipt,
            None => {
                return Err(Fault::other("invalid receipt"));
            },
        };
        if same(receipt.command.as_str(), "start") {
            self.record_start(&receipt);
            let kind = match receipt.input.get("harness") {
                Some(v) => Kind::in_json(v, self.word()),
                None => Some(Kind::Codex),
            };
            match kind {
                Some(kind) => {
                    self.set_harness(kind);
                },
                None => {
                    return Err(Fault::other("unknown harness"));
                },
            }
        }
        self.record_receipt(receipt);
        Ok(())
    }

    fn apply_identity(&mut self, data: &Json) -> (r: Result<(), Fault>)
        ensures
            (final(self)@, failure(r)) == identity_applied(old(self)@, data@),
    {
        proof {
            reveal(Session::snapshot);
        }
        let id = match data.field_text("id") {
            Some(id) => id,
            None => {
                return Err(Fault::other("missing native identity"));
            },
        };
        if let Some(old) = &self.native_id {
            if !same(old.as_str(), id) && !data.field("replaced").is_true() {
                return Err(Fault::other("native identity changed"));
            }
        }
        self.native_id = Some(id.to_owned());
        self.capabilities = match data.get("capabilities") {
            Some(capabilities) => capabilities.duplicate(),
            None => self.capabilities.duplicate(),
        };
        self.model = or_text(data.field_text("model"), &self.model);
        self.provider = or_text(data.field_text("provider"), &self.provider);
        self.native_path = or_text(data.field_text("path"), &self.native_path);
        Ok(())
    }

    fn apply_state(&mut self, data: &Json)
        ensures
            final(self)@ == state_applied(old(self)@, data@),
    {
        proof {
            reveal(Session::snapshot);
        }
        let state = match data.field_text("state") {
            Some(t) => t.to_owned(),
            None => "unknown".to_owned(),
        };
        let startup = data.field_text("startup_error");
        let lost = data.field_is("reason", "native resume or process cleanup failed");
        let idle = same(state.as_str(), "idle");
        let request = data.field_text("request_id");
        let dispatched = same(state.as_str(), "starting_turn") && request.is_some();
        self.recovery_attempted = self.recovery_attempted || same(state.as_str(), "resuming");
        self.startup_error = if startup.is_some() {
            opt_owned(startup)
        } else if lost {
            Some("resume_failed".to_owned())
        } else if idle {
            None
        } else {
            opt_copy(&self.startup_error)
        };
        self.startup_reason = if startup.is_some() {
            opt_owned(data.field_text("reason"))
        } else if lost {
            Some("native resume or process cleanup failed".to_owned())
        } else if idle {
            None
        } else {
            opt_copy(&self.startup_reason)
        };
        self.current_request = opt_owned(request);
        self.current_turn = opt_owned(data.field_text("turn_id"));
        self.has_dispatched = self.has_dispatched || dispatched;
        self.queue = match request {
            Some(id) => if dispatched {
                retain_others(&self.queue, id)
            } else {
                copy_all(&self.queue)
            },
            None => copy_all(&self.queue),
        };
        self.state = state;
    }

    fn receipts_completed(&mut self, request: Option<&str>)
        ensures
            final(self)@ == (SessionView {
                receipts: completed_in(old(self)@.receipts, opt_str(request)),
                ..old(self)@
            }),
    {
        proof {
            reveal(Session::snapshot);
        }
        let ghost was = self.receipts@;
        if let Some(request) = request {
            if let Some(receipt) = self.receipts.remove(request) {
                let mut done = receipt;
                done.state = "completed".to_owned();
                self.receipts.insert(request, done);
                assert(self.receipts@ =~= completed_in(was, Some(request@)));
            }
        }
    }

    fn go_back(&mut self, data: &Json)
        ensures
            final(self)@ == rewound(old(self)@, data@),
    {
        proof {
            reveal(Session::snapshot);
        }
        self.receipts_completed(data.field_text("request_id"));
        self.native_id = or_text(data.field_text("id"), &self.native_id);
        self.native_path = or_text(data.field_text("path"), &self.native_path);
        self.native_cursor = data.field("cursor").duplicate();
        self.native_offset = match data.field("cursor").field("offset").as_u64() {
            Some(n) => n,
            None => 0,
        };
        self.checkpoint = None;
        self.rewind_request = None;
        self.state = "idle".to_owned();
    }

    fn apply_rewind(&mut self, data: &Json) -> (r: Result<(), Fault>)
        ensures
            (final(self)@, failure(r)) == rewind_applied(old(self)@, data@),
    {
        self.go_back(data);
        let replacement = match data.get("replacement") {
            Some(v) => v,
            None => {
                return Ok(());
            },
        };
        if replacement.is_null() {
            return Ok(());
        }
        match Receipt::from_json(replacement) {
            Some(receipt) => {
                if !self.has_receipt(receipt.request_id.as_str()) {
                    self.queue_task(receipt);
                }
                Ok(())
            },
            None => Err(Fault::other("invalid receipt")),
        }
    }

    fn apply_native(&mut self, data: &Json, native: Option<&str>) -> (r: Result<(), Fault>)
        ensures
            (final(self)@, failure(r)) == native_applied(old(self)@, data@, opt_str(native)),
    {
        proof {
            reveal(Session::snapshot);
        }
        match checkpoint(self.harness, &self.native_cursor, data, native) {
            Ok(cursor) => {
                self.native_offset = match cursor.field("offset").as_u64() {
                    Some(n) => n,
                    None => 0,
                };
                self.native_cursor = cursor;
                Ok(())
            },
            Err(f) => Err(f),
        }
    }

    fn set_harness(&mut self, harness: Kind)
        ensures
            final(self)@ == (SessionView { harness, ..old(self)@ }),
    {
        proof {
            reveal(Session::snapshot);
        }
        self.harness = harness;
    }

    fn has_receipt(&self, request: &str) -> (r: bool)
        ensures
            r == self@.receipts.contains_key(request@),
    {
        proof {
            reveal(Session::snapshot);
        }
        self.receipts.contains(request)
    }

    fn set_pid(&mut self, pid: Option<u32>)
        ensures
            final(self)@ == (SessionView { harness_pid: pid, ..old(self)@ }),
    {
        proof {
            reveal(Session::snapshot);
        }
        self.harness_pid = pid;
    }

    fn default_reasoning(&mut self, level: Option<&str>)
        ensures
            final(self)@ == (SessionView {
                reasoning: first_text(old(self)@.reasoning, opt_str(level)),
                ..old(self)@
            }),
    {
        proof {
            reveal(Session::snapshot);
        }
        if self.reasoning.is_none() {
            self.reasoning = opt_owned(level);
        }
    }

    fn set_checkpoint(&mut self, checkpoint: Json)
        ensures
            final(self)@ == (SessionView { checkpoint: Some(checkpoint@), ..old(self)@ }),
    {
        proof {
            reveal(Session::snapshot);
        }
        self.checkpoint = Some(checkpoint);
    }

    fn give_up_rewind(&mut self)
        ensures
            final(self)@ == (SessionView { rewind_request: None, state: "idle"@, ..old(self)@ }),
    {
        proof {
            reveal(Session::snapshot);
        }
        self.rewind_request = None;
        self.state = "idle".to_owned();
    }

    fn set_limited(&mut self)
        ensures
            final(self)@ == (SessionView { usage_limited: true, ..old(self)@ }),
    {
        proof {
            reveal(Session::snapshot);
        }
        self.usage_limited = true;
    }

    fn set_storage(&mut self, warned: Option<bool>, paused: Option<bool>)
        ensures
            final(self)@ == (SessionView {
                storage_warned: match warned {
                    Some(b) => b,
                    None => old(self)@.storage_warned,
                },
                storage_paused: match paused {
                    Some(b) => b,
                    None => old(self)@.storage_paused,
                },
                ..old(self)@
            }),
    {
        proof {
            reveal(Session::snapshot);
        }
        if let Some(b) = warned {
            self.storage_warned = b;
        }
        if let Some(b) = paused {
            self.storage_paused = b;
        }
    }

    fn set_workspace(&mut self, workspace: Workspace)
        ensures
            final(self)@ == (SessionView { workspace: Some(workspace@), ..old(self)@ }),
    {
        proof {
            reveal(Session::snapshot);
        }
        self.workspace = Some(workspace);
    }

    fn apply_flag(&mut self, kind: &str, data: &Json) -> (r: bool)
        ensures
            r == (flag_applied(old(self)@, kind@, data@) is Some),
            match flag_applied(old(self)@, kind@, data@) {
                Some(s) => final(self)@ == s,
                None => final(self)@ == old(self)@,
            },
    {
        if same(kind, "harness") {
            let pid = match data.field("pid").as_u64() {
                Some(pid) => Some(pid as u32),
                None => None,
            };
            self.set_pid(pid);
            return true;
        }
        if same(kind, "launch_reasoning") {
            self.default_reasoning(data.field_text("reasoning"));
            return true;
        }
        if same(kind, "checkpoint") {
            self.set_checkpoint(data.duplicate());
            return true;
        }
        if same(kind, "rewind_failed") {
            self.give_up_rewind();
            return true;
        }
        if same(kind, "usage_limited") {
            self.set_limited();
            return true;
        }
        if same(kind, "storage_warning") {
            self.set_storage(Some(true), None);
            return true;
        }
        if same(kind, "storage_pause") {
            self.set_storage(None, Some(data.field("paused").is_true()));
            return true;
        }
        if same(kind, "storage_recovered") {
            self.set_storage(Some(false), Some(false));
            return true;
        }
        false
    }

    /// Brings the session up to a record of its own.
    pub fn apply(&mut self, record: &Record) -> (r: Result<(), Fault>)
        ensures
            (final(self)@, failure(r)) == record_applied(old(self)@, record@),
    {
        self.touch(record);
        let kind = record.kind.as_str();
        if same(kind, "receipt") {
            return self.apply_receipt(&record.data);
        }
        if same(kind, "native_identity") {
            return self.apply_identity(&record.data);
        }
        if same(kind, "native_record") {
            return self.apply_native(&record.data, opt_slice(&record.native));
        }
        if same(kind, "state") {
            self.apply_state(&record.data);
            return Ok(());
        }
        if same(kind, "workspace") {
            match Workspace::from_json(&record.data) {
                Some(w) => {
                    self.set_workspace(w);
                    return Ok(());
                },
                None => {
                    return Err(Fault::other("invalid workspace"));
                },
            }
        }
        if same(kind, "rewind") {
            return self.apply_rewind(&record.data);
        }
        let known = self.apply_flag(kind, &record.data);
        Ok(())
    }
}

} // verus!
