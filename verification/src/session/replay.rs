//! What each record makes of a session, told by what the record holds.
use super::state::record_applied;
use super::{receipt_json, receipt_reads_back, ReceiptView, RecordView, SessionView, WorkspaceView};
use crate::json::{Data, Number};
use crate::runtime::Kind;
use crate::text::found_from_is_first;
use vstd::prelude::*;

verus! {

/// The words of records and requests differ.
pub(crate) proof fn session_words()
    ensures
        "pi"@.len() == 2 && "pi"@[0] == 'p',
        "fx"@.len() == 2 && "fx"@[0] == 'f',
        "pid"@.len() == 3,
        "edit"@.len() == 4 && "edit"@[0] == 'e',
        "stop"@.len() == 4 && "stop"@[0] == 's',
        "idle"@.len() == 4 && "idle"@[0] == 'i',
        "text"@.len() == 4 && "text"@[0] == 't',
        "line"@.len() == 4 && "line"@[0] == 'l',
        "state"@.len() == 5 && "state"@[2] == 'a' && "state"@[4] == 'e' && "state"@[0] == 's',
        "start"@.len() == 5 && "start"@[2] == 'a' && "start"@[4] == 't' && "start"@[0] == 's',
        "close"@.len() == 5 && "close"@[2] == 'o' && "close"@[4] == 'e' && "close"@[0] == 'c',
        "steer"@.len() == 5 && "steer"@[2] == 'e' && "steer"@[4] == 'r' && "steer"@[0] == 's',
        "sleep"@.len() == 5 && "sleep"@[2] == 'e' && "sleep"@[4] == 'p' && "sleep"@[0] == 's',
        "codex"@.len() == 5 && "codex"@[2] == 'd' && "codex"@[4] == 'x' && "codex"@[0] == 'c',
        "input"@.len() == 5 && "input"@[2] == 'p' && "input"@[4] == 't' && "input"@[0] == 'i',
        "model"@.len() == 5 && "model"@[2] == 'd' && "model"@[4] == 'l' && "model"@[0] == 'm',
        "error"@.len() == 5 && "error"@[2] == 'r' && "error"@[4] == 'r' && "error"@[0] == 'e',
        "delta"@.len() == 5 && "delta"@[2] == 'l' && "delta"@[4] == 'a' && "delta"@[0] == 'd',
        "entry"@.len() == 5 && "entry"@[2] == 't' && "entry"@[4] == 'y' && "entry"@[0] == 'e',
        "index"@.len() == 5 && "index"@[2] == 'd' && "index"@[4] == 'x' && "index"@[0] == 'i',
        "rewind"@.len() == 6 && "rewind"@[2] == 'w' && "rewind"@[0] == 'r',
        "prompt"@.len() == 6 && "prompt"@[2] == 'o' && "prompt"@[0] == 'p',
        "cancel"@.len() == 6 && "cancel"@[2] == 'n' && "cancel"@[0] == 'c',
        "resume"@.len() == 6 && "resume"@[2] == 's' && "resume"@[0] == 'r',
        "attach"@.len() == 6 && "attach"@[2] == 't' && "attach"@[0] == 'a',
        "failed"@.len() == 6 && "failed"@[2] == 'i' && "failed"@[0] == 'f',
        "closed"@.len() == 6 && "closed"@[2] == 'o' && "closed"@[0] == 'c',
        "reason"@.len() == 6 && "reason"@[2] == 'a' && "reason"@[0] == 'r',
        "cursor"@.len() == 6 && "cursor"@[2] == 'r' && "cursor"@[0] == 'c',
        "offset"@.len() == 6 && "offset"@[2] == 'f' && "offset"@[0] == 'o',
        "paused"@.len() == 6 && "paused"@[2] == 'u' && "paused"@[0] == 'p',
        "before"@.len() == 6 && "before"@[2] == 'f' && "before"@[0] == 'b',
        "receipt"@.len() == 7 && "receipt"@[3] == 'e' && "receipt"@[0] == 'r',
        "harness"@.len() == 7 && "harness"@[3] == 'n' && "harness"@[0] == 'h',
        "compact"@.len() == 7 && "compact"@[3] == 'p' && "compact"@[0] == 'c',
        "running"@.len() == 7 && "running"@[3] == 'n' && "running"@[0] == 'r',
        "unknown"@.len() == 7 && "unknown"@[3] == 'n' && "unknown"@[0] == 'u',
        "pending"@.len() == 7 && "pending"@[3] == 'd' && "pending"@[0] == 'p',
        "closing"@.len() == 7 && "closing"@[3] == 's' && "closing"@[0] == 'c',
        "turn_id"@.len() == 7 && "turn_id"@[3] == 'n' && "turn_id"@[0] == 't',
        "content"@.len() == 7 && "content"@[3] == 't' && "content"@[0] == 'c',
        "command"@.len() == 7 && "command"@[3] == 'm' && "command"@[0] == 'c',
        "accepted"@.len() == 8 && "accepted"@[1] == 'c',
        "resuming"@.len() == 8 && "resuming"@[1] == 'e',
        "sleeping"@.len() == 8 && "sleeping"@[1] == 'l',
        "starting"@.len() == 8 && "starting"@[1] == 't',
        "provider"@.len() == 8 && "provider"@[1] == 'r',
        "snapshot"@.len() == 8 && "snapshot"@[1] == 'n',
        "complete"@.len() == 8 && "complete"@[1] == 'o',
        "workspace"@.len() == 9 && "workspace"@[2] == 'r',
        "interrupt"@.len() == 9 && "interrupt"@[2] == 't',
        "delivered"@.len() == 9 && "delivered"@[2] == 'l',
        "completed"@.len() == 9 && "completed"@[2] == 'm',
        "rewinding"@.len() == 9 && "rewinding"@[2] == 'w',
        "suspended"@.len() == 9 && "suspended"@[2] == 's',
        "reasoning"@.len() == 9 && "reasoning"@[2] == 'a',
        "checkpoint"@.len() == 10 && "checkpoint"@[2] == 'e',
        "text_delta"@.len() == 10 && "text_delta"@[2] == 'x',
        "request_id"@.len() == 10 && "request_id"@[2] == 'q',
        "tool_delta"@.len() == 10 && "tool_delta"@[2] == 'o',
        "interrupted"@.len() == 11 && "interrupted"@[3] == 'e',
        "attachments"@.len() == 11 && "attachments"@[3] == 'a',
        "replacement"@.len() == 11 && "replacement"@[3] == 'l',
        "recoverable"@.len() == 11 && "recoverable"@[3] == 'o',
        "process_lost"@.len() == 12 && "process_lost"@[3] == 'c',
        "interrupting"@.len() == 12 && "interrupting"@[3] == 'e',
        "service_tier"@.len() == 12 && "service_tier"@[3] == 'v',
        "native_event"@.len() == 12 && "native_event"@[3] == 'i',
        "item_started"@.len() == 12 && "item_started"@[3] == 'm',
        "last_turn_id"@.len() == 12 && "last_turn_id"@[3] == 't',
        "native_record"@.len() == 13 && "native_record"@[5] == 'e',
        "rewind_failed"@.len() == 13 && "rewind_failed"@[5] == 'd',
        "usage_limited"@.len() == 13 && "usage_limited"@[5] == '_',
        "storage_pause"@.len() == 13 && "storage_pause"@[5] == 'g',
        "starting_turn"@.len() == 13 && "starting_turn"@[5] == 'i',
        "startup_error"@.len() == 13 && "startup_error"@[5] == 'u',
        "thinking_delta"@.len() == 14 && "thinking_delta"@[0] == 't',
        "item_completed"@.len() == 14 && "item_completed"@[0] == 'i',
        "native_identity"@.len() == 15 && "native_identity"@[0] == 'n',
        "storage_warning"@.len() == 15 && "storage_warning"@[0] == 's',
        "launch_reasoning"@.len() == 16,
        "storage_recovered"@.len() == 17 && "storage_recovered"@[0] == 's',
        "waiting_for_files"@.len() == 17 && "waiting_for_files"@[0] == 'w',
        "target_request_id"@.len() == 17 && "target_request_id"@[0] == 't',
        "expected_revision"@.len() == 17 && "expected_revision"@[0] == 'e',
        "saved_history_only"@.len() == 18,
        "unknown_after_restart"@.len() == 21,
        "native_history_unavailable"@.len() == 26,
{
    reveal_strlit("pi");
    reveal_strlit("fx");
    reveal_strlit("pid");
    reveal_strlit("edit");
    reveal_strlit("stop");
    reveal_strlit("idle");
    reveal_strlit("text");
    reveal_strlit("line");
    reveal_strlit("state");
    reveal_strlit("start");
    reveal_strlit("close");
    reveal_strlit("steer");
    reveal_strlit("sleep");
    reveal_strlit("codex");
    reveal_strlit("input");
    reveal_strlit("model");
    reveal_strlit("error");
    reveal_strlit("delta");
    reveal_strlit("entry");
    reveal_strlit("index");
    reveal_strlit("rewind");
    reveal_strlit("prompt");
    reveal_strlit("cancel");
    reveal_strlit("resume");
    reveal_strlit("attach");
    reveal_strlit("failed");
    reveal_strlit("closed");
    reveal_strlit("reason");
    reveal_strlit("cursor");
    reveal_strlit("offset");
    reveal_strlit("paused");
    reveal_strlit("before");
    reveal_strlit("receipt");
    reveal_strlit("harness");
    reveal_strlit("compact");
    reveal_strlit("running");
    reveal_strlit("unknown");
    reveal_strlit("pending");
    reveal_strlit("closing");
    reveal_strlit("turn_id");
    reveal_strlit("content");
    reveal_strlit("command");
    reveal_strlit("accepted");
    reveal_strlit("resuming");
    reveal_strlit("sleeping");
    reveal_strlit("starting");
    reveal_strlit("provider");
    reveal_strlit("snapshot");
    reveal_strlit("complete");
    reveal_strlit("workspace");
    reveal_strlit("interrupt");
    reveal_strlit("delivered");
    reveal_strlit("completed");
    reveal_strlit("rewinding");
    reveal_strlit("suspended");
    reveal_strlit("reasoning");
    reveal_strlit("checkpoint");
    reveal_strlit("text_delta");
    reveal_strlit("request_id");
    reveal_strlit("tool_delta");
    reveal_strlit("interrupted");
    reveal_strlit("attachments");
    reveal_strlit("replacement");
    reveal_strlit("recoverable");
    reveal_strlit("process_lost");
    reveal_strlit("interrupting");
    reveal_strlit("service_tier");
    reveal_strlit("native_event");
    reveal_strlit("item_started");
    reveal_strlit("last_turn_id");
    reveal_strlit("native_record");
    reveal_strlit("rewind_failed");
    reveal_strlit("usage_limited");
    reveal_strlit("storage_pause");
    reveal_strlit("starting_turn");
    reveal_strlit("startup_error");
    reveal_strlit("thinking_delta");
    reveal_strlit("item_completed");
    reveal_strlit("native_identity");
    reveal_strlit("storage_warning");
    reveal_strlit("launch_reasoning");
    reveal_strlit("storage_recovered");
    reveal_strlit("waiting_for_files");
    reveal_strlit("target_request_id");
    reveal_strlit("expected_revision");
    reveal_strlit("saved_history_only");
    reveal_strlit("unknown_after_restart");
    reveal_strlit("native_history_unavailable");
    assert("pi"@.len() == 2 && "pi"@[0] == 'p');
    assert("fx"@.len() == 2 && "fx"@[0] == 'f');
    assert("pid"@.len() == 3);
    assert("edit"@.len() == 4 && "edit"@[0] == 'e');
    assert("stop"@.len() == 4 && "stop"@[0] == 's');
    assert("idle"@.len() == 4 && "idle"@[0] == 'i');
    assert("text"@.len() == 4 && "text"@[0] == 't');
    assert("line"@.len() == 4 && "line"@[0] == 'l');
    assert("state"@.len() == 5 && "state"@[2] == 'a' && "state"@[4] == 'e' && "state"@[0] == 's');
    assert("start"@.len() == 5 && "start"@[2] == 'a' && "start"@[4] == 't' && "start"@[0] == 's');
    assert("close"@.len() == 5 && "close"@[2] == 'o' && "close"@[4] == 'e' && "close"@[0] == 'c');
    assert("steer"@.len() == 5 && "steer"@[2] == 'e' && "steer"@[4] == 'r' && "steer"@[0] == 's');
    assert("sleep"@.len() == 5 && "sleep"@[2] == 'e' && "sleep"@[4] == 'p' && "sleep"@[0] == 's');
    assert("codex"@.len() == 5 && "codex"@[2] == 'd' && "codex"@[4] == 'x' && "codex"@[0] == 'c');
    assert("input"@.len() == 5 && "input"@[2] == 'p' && "input"@[4] == 't' && "input"@[0] == 'i');
    assert("model"@.len() == 5 && "model"@[2] == 'd' && "model"@[4] == 'l' && "model"@[0] == 'm');
    assert("error"@.len() == 5 && "error"@[2] == 'r' && "error"@[4] == 'r' && "error"@[0] == 'e');
    assert("delta"@.len() == 5 && "delta"@[2] == 'l' && "delta"@[4] == 'a' && "delta"@[0] == 'd');
    assert("entry"@.len() == 5 && "entry"@[2] == 't' && "entry"@[4] == 'y' && "entry"@[0] == 'e');
    assert("index"@.len() == 5 && "index"@[2] == 'd' && "index"@[4] == 'x' && "index"@[0] == 'i');
    assert("rewind"@.len() == 6 && "rewind"@[2] == 'w' && "rewind"@[0] == 'r');
    assert("prompt"@.len() == 6 && "prompt"@[2] == 'o' && "prompt"@[0] == 'p');
    assert("cancel"@.len() == 6 && "cancel"@[2] == 'n' && "cancel"@[0] == 'c');
    assert("resume"@.len() == 6 && "resume"@[2] == 's' && "resume"@[0] == 'r');
    assert("attach"@.len() == 6 && "attach"@[2] == 't' && "attach"@[0] == 'a');
    assert("failed"@.len() == 6 && "failed"@[2] == 'i' && "failed"@[0] == 'f');
    assert("closed"@.len() == 6 && "closed"@[2] == 'o' && "closed"@[0] == 'c');
    assert("reason"@.len() == 6 && "reason"@[2] == 'a' && "reason"@[0] == 'r');
    assert("cursor"@.len() == 6 && "cursor"@[2] == 'r' && "cursor"@[0] == 'c');
    assert("offset"@.len() == 6 && "offset"@[2] == 'f' && "offset"@[0] == 'o');
    assert("paused"@.len() == 6 && "paused"@[2] == 'u' && "paused"@[0] == 'p');
    assert("before"@.len() == 6 && "before"@[2] == 'f' && "before"@[0] == 'b');
    assert("receipt"@.len() == 7 && "receipt"@[3] == 'e' && "receipt"@[0] == 'r');
    assert("harness"@.len() == 7 && "harness"@[3] == 'n' && "harness"@[0] == 'h');
    assert("compact"@.len() == 7 && "compact"@[3] == 'p' && "compact"@[0] == 'c');
    assert("running"@.len() == 7 && "running"@[3] == 'n' && "running"@[0] == 'r');
    assert("unknown"@.len() == 7 && "unknown"@[3] == 'n' && "unknown"@[0] == 'u');
    assert("pending"@.len() == 7 && "pending"@[3] == 'd' && "pending"@[0] == 'p');
    assert("closing"@.len() == 7 && "closing"@[3] == 's' && "closing"@[0] == 'c');
    assert("turn_id"@.len() == 7 && "turn_id"@[3] == 'n' && "turn_id"@[0] == 't');
    assert("content"@.len() == 7 && "content"@[3] == 't' && "content"@[0] == 'c');
    assert("command"@.len() == 7 && "command"@[3] == 'm' && "command"@[0] == 'c');
    assert("accepted"@.len() == 8 && "accepted"@[1] == 'c');
    assert("resuming"@.len() == 8 && "resuming"@[1] == 'e');
    assert("sleeping"@.len() == 8 && "sleeping"@[1] == 'l');
    assert("starting"@.len() == 8 && "starting"@[1] == 't');
    assert("provider"@.len() == 8 && "provider"@[1] == 'r');
    assert("snapshot"@.len() == 8 && "snapshot"@[1] == 'n');
    assert("complete"@.len() == 8 && "complete"@[1] == 'o');
    assert("workspace"@.len() == 9 && "workspace"@[2] == 'r');
    assert("interrupt"@.len() == 9 && "interrupt"@[2] == 't');
    assert("delivered"@.len() == 9 && "delivered"@[2] == 'l');
    assert("completed"@.len() == 9 && "completed"@[2] == 'm');
    assert("rewinding"@.len() == 9 && "rewinding"@[2] == 'w');
    assert("suspended"@.len() == 9 && "suspended"@[2] == 's');
    assert("reasoning"@.len() == 9 && "reasoning"@[2] == 'a');
    assert("checkpoint"@.len() == 10 && "checkpoint"@[2] == 'e');
    assert("text_delta"@.len() == 10 && "text_delta"@[2] == 'x');
    assert("request_id"@.len() == 10 && "request_id"@[2] == 'q');
    assert("tool_delta"@.len() == 10 && "tool_delta"@[2] == 'o');
    assert("interrupted"@.len() == 11 && "interrupted"@[3] == 'e');
    assert("attachments"@.len() == 11 && "attachments"@[3] == 'a');
    assert("replacement"@.len() == 11 && "replacement"@[3] == 'l');
    assert("recoverable"@.len() == 11 && "recoverable"@[3] == 'o');
    assert("process_lost"@.len() == 12 && "process_lost"@[3] == 'c');
    assert("interrupting"@.len() == 12 && "interrupting"@[3] == 'e');
    assert("service_tier"@.len() == 12 && "service_tier"@[3] == 'v');
    assert("native_event"@.len() == 12 && "native_event"@[3] == 'i');
    assert("item_started"@.len() == 12 && "item_started"@[3] == 'm');
    assert("last_turn_id"@.len() == 12 && "last_turn_id"@[3] == 't');
    assert("native_record"@.len() == 13 && "native_record"@[5] == 'e');
    assert("rewind_failed"@.len() == 13 && "rewind_failed"@[5] == 'd');
    assert("usage_limited"@.len() == 13 && "usage_limited"@[5] == '_');
    assert("storage_pause"@.len() == 13 && "storage_pause"@[5] == 'g');
    assert("starting_turn"@.len() == 13 && "starting_turn"@[5] == 'i');
    assert("startup_error"@.len() == 13 && "startup_error"@[5] == 'u');
    assert("thinking_delta"@.len() == 14 && "thinking_delta"@[0] == 't');
    assert("item_completed"@.len() == 14 && "item_completed"@[0] == 'i');
    assert("native_identity"@.len() == 15 && "native_identity"@[0] == 'n');
    assert("storage_warning"@.len() == 15 && "storage_warning"@[0] == 's');
    assert("launch_reasoning"@.len() == 16);
    assert("storage_recovered"@.len() == 17 && "storage_recovered"@[0] == 's');
    assert("waiting_for_files"@.len() == 17 && "waiting_for_files"@[0] == 'w');
    assert("target_request_id"@.len() == 17 && "target_request_id"@[0] == 't');
    assert("expected_revision"@.len() == 17 && "expected_revision"@[0] == 'e');
    assert("saved_history_only"@.len() == 18);
    assert("unknown_after_restart"@.len() == 21);
    assert("native_history_unavailable"@.len() == 26);
}

// Rewinds.

/// The message that replaces a rewound one is queued last, and is known by its receipt.
pub proof fn replacements_are_queued(s: SessionView, r: RecordView, message: ReceiptView)
    requires
        r.kind == "rewind"@,
        r.data.get("replacement"@) == Some(receipt_json(message)),
        !s.receipts.contains_key(message.request_id),
    ensures
        record_applied(s, r).1 is None,
        record_applied(s, r).0.queue == s.queue.push(message.request_id),
        record_applied(s, r).0.receipts.contains_key(message.request_id),
        record_applied(s, r).0.receipts[message.request_id] == message,
        message.command == "prompt"@ && message.state == "accepted"@ && !s.prompts.contains_key(
            message.request_id,
        ) ==> record_applied(s, r).0.prompts.contains_key(message.request_id) && record_applied(
            s,
            r,
        ).0.prompts[message.request_id].input == message.input && record_applied(
            s,
            r,
        ).0.prompts[message.request_id].revision == 1 && !record_applied(
            s,
            r,
        ).0.prompts[message.request_id].cancelled,
{
    session_words();
    receipt_reads_back(message);
}

/// A rewind without a message in its place, or with one that is known, leaves the queue as it is.
pub proof fn rewinds_alone_queue_nothing(s: SessionView, r: RecordView, message: ReceiptView)
    requires
        r.kind == "rewind"@,
        ({
            ||| r.data.field("replacement"@) is Null
            ||| r.data.get("replacement"@) == Some(receipt_json(message)) && s.receipts.contains_key(
                message.request_id,
            )
        }),
    ensures
        record_applied(s, r).1 is None,
        record_applied(s, r).0.queue == s.queue,
        record_applied(s, r).0.prompts == s.prompts,
{
    session_words();
    receipt_reads_back(message);
}

/// A rewound session is idle, in the conversation that the record names and at the place that it
/// names; the rewind has ended, and its request is completed.
pub proof fn rewinds_settle(s: SessionView, r: RecordView, request: Seq<char>)
    requires
        r.kind == "rewind"@,
    ensures
        ({
            let after = record_applied(s, r).0;
            &&& after.state == "idle"@
            &&& after.rewind_request is None
            &&& after.checkpoint is None
            &&& after.native_cursor == r.data.field("cursor"@)
            &&& r.data.field("id"@) matches Data::Text(id) ==> after.native_id == Some(id)
            &&& !(r.data.field("id"@) is Text) ==> after.native_id == s.native_id
            &&& r.data.field("path"@) matches Data::Text(path) ==> after.native_path == Some(
                    path,
                )
            &&& !(r.data.field("path"@) is Text) ==> after.native_path == s.native_path
            &&& r.data.field("cursor"@).field("offset"@) matches Data::Number( Number::Unsigned(n), ) ==> after.native_offset == n
            &&& r.data.field("request_id"@) == Data::Text(request) && s.receipts.contains_key(
                request,
            ) ==> after.receipts.contains_key(request) && after.receipts[request].state
                == "completed"@ && after.receipts[request].command == s.receipts[request].command
                && after.receipts[request].input == s.receipts[request].input
            &&& r.data.field("request_id"@) != Data::Text(request) && s.receipts.contains_key(
                request,
            ) ==> after.receipts.contains_key(request) && after.receipts[request]
                == s.receipts[request]
            &&& after.current_request == s.current_request
            &&& after.queue_paused == s.queue_paused
            &&& after.harness == s.harness
            &&& after.model == s.model
        }),
{
    session_words();
}

/// While a rewind is accepted nothing else is the matter with the session; a rewind that failed leaves
/// it idle, and the conversation as it was.
pub proof fn rewinds_begin_and_fail(s: SessionView, r: RecordView, rewind: ReceiptView)
    requires
        rewind.command == "rewind"@,
    ensures
        r.kind == "receipt"@ && r.data == receipt_json(rewind) && rewind.state == "accepted"@
            ==> record_applied(s, r).0.state == "rewinding"@ && record_applied(
            s,
            r,
        ).0.rewind_request == Some(rewind.request_id),
        r.kind == "receipt"@ && r.data == receipt_json(rewind) && rewind.state != "accepted"@
            ==> record_applied(s, r).0.state == s.state && record_applied(s, r).0.rewind_request
            == s.rewind_request,
        r.kind == "rewind_failed"@ ==> record_applied(s, r).0.state == "idle"@ && record_applied(
            s,
            r,
        ).0.rewind_request is None && record_applied(s, r).0.native_id == s.native_id
            && record_applied(s, r).0.native_path == s.native_path && record_applied(
            s,
            r,
        ).0.native_cursor == s.native_cursor && record_applied(s, r).0.queue == s.queue
            && record_applied(s, r).0.receipts == s.receipts,
{
    session_words();
    receipt_reads_back(rewind);
}

// Starts.

/// The receipt that first accepts a start leaves the session pending, with the harness, the model,
/// the folder and the level of reasoning that it names.
pub proof fn starts_set_the_session_up(s: SessionView, r: RecordView, start: ReceiptView)
    requires
        r.kind == "receipt"@,
        r.data == receipt_json(start),
        start.command == "start"@,
        start.state == "accepted"@,
        !s.receipts.contains_key(start.request_id),
    ensures
        ({
            let (after, fault) = record_applied(s, r);
            &&& after.state == "pending"@
            &&& start.input.get("harness"@) is None ==> after.harness == Kind::Codex && fault is None
            &&& start.input.field("harness"@) == Data::Text("codex"@) ==> after.harness
                == Kind::Codex && fault is None
            &&& start.input.field("harness"@) == Data::Text("pi"@) ==> after.harness == Kind::Pi
                && fault is None
            &&& start.model is Some ==> after.model == start.model
            &&& start.model is None ==> after.model == s.model
            &&& start.provider is Some ==> after.provider == start.provider
            &&& start.provider is None ==> after.provider == s.provider
            &&& start.workspace is Some ==> after.workspace == start.workspace
            &&& start.workspace is None ==> after.workspace == s.workspace
            &&& start.input.field("reasoning"@) matches Data::Text(level) ==> after.reasoning
                    == Some(level)
            &&& !(start.input.field("reasoning"@) is Text) ==> after.reasoning == s.reasoning
            &&& start.input.field("parent_session"@) matches Data::Text(parent) ==> after.parent_session
                    == Some(parent)
            &&& !(start.input.field("parent_session"@) is Text) ==> after.parent_session is None
                && after.queue == s.queue
            &&& after.current_request == s.current_request
            &&& after.queue_paused == s.queue_paused
        }),
{
    session_words();
    receipt_reads_back(start);
}

/// A later receipt of a start that is known changes neither the state of the session nor its queue.
pub proof fn starts_set_up_once(s: SessionView, r: RecordView, start: ReceiptView)
    requires
        r.kind == "receipt"@,
        r.data == receipt_json(start),
        start.command == "start"@,
        s.receipts.contains_key(start.request_id) || start.state != "accepted"@,
    ensures
        record_applied(s, r).0.state == s.state,
        record_applied(s, r).0.queue == s.queue,
        record_applied(s, r).0.prompts == s.prompts,
{
    session_words();
    receipt_reads_back(start);
}

/// The start of a child session brings its task with it: a message with the text that the parent gave,
/// under a name made from that of the child, queued last.
pub proof fn children_bring_their_task(s: SessionView, r: RecordView, start: ReceiptView, name: Seq<char>)
    requires
        r.kind == "receipt"@,
        r.data == receipt_json(start),
        start.command == "start"@,
        start.state == "accepted"@,
        start.request_id == "child_"@ + name,
        start.input.field("parent_session"@) is Text,
        start.input.get("harness"@) is None,
        !s.receipts.contains_key(start.request_id),
    ensures
        ({
            let after = record_applied(s, r).0;
            let task = "task_"@ + name;
            &&& after.queue == s.queue.push(task)
            &&& after.receipts.contains_key(task)
            &&& after.receipts[task].command == "prompt"@
            &&& after.receipts[task].state == "accepted"@
            &&& after.receipts[task].request_id == task
            &&& after.receipts[task].input.field("text"@) == start.input.field("prompt"@)
            &&& after.receipts[task].input.field("reasoning"@) == start.input.field("reasoning"@)
            &&& after.receipts.contains_key(start.request_id)
            &&& after.receipts[start.request_id] == start
        }),
{
    session_words();
    receipt_reads_back(start);
    reveal_strlit("child_");
    reveal_strlit("task_");
    let id = start.request_id;
    let part = "child_"@;
    assert("child_"@.len() == 6 && "task_"@.len() == 5 && "child_"@[0] == 'c' && "task_"@[0] == 't');
    found_from_is_first(id, part, 0);
    assert(id.subrange(0, 6) =~= part);
    assert(id.subrange(0, 0) + "task_"@ + id.subrange(6, id.len() as int) =~= "task_"@ + name);
    assert(("task_"@ + name)[0] == 't' && id[0] == 'c');
}

// The queue.

/// Stopping pauses the queue and resuming lets it run, each once when it is first accepted; nothing else
/// that is asked for does either.
pub proof fn only_stop_and_resume_turn_the_queue(s: SessionView, r: RecordView, asked: ReceiptView)
    requires
        r.kind == "receipt"@,
        r.data == receipt_json(asked),
    ensures
        ({
            let after = record_applied(s, r).0;
            let first = asked.state == "accepted"@ && !s.receipts.contains_key(asked.request_id);
            &&& first && asked.command == "stop"@ ==> after.queue_paused
            &&& first && asked.command == "resume"@ ==> !after.queue_paused
            &&& !first ==> after.queue_paused == s.queue_paused
            &&& asked.command != "stop"@ && asked.command != "resume"@ ==> after.queue_paused
                == s.queue_paused
        }),
{
    session_words();
    receipt_reads_back(asked);
}

/// Of all requests only messages, their cancellation and the start of a child change the queue.
pub proof fn other_requests_leave_the_queue(s: SessionView, r: RecordView, asked: ReceiptView)
    requires
        r.kind == "receipt"@,
        r.data == receipt_json(asked),
        asked.command != "prompt"@,
        asked.command != "cancel"@,
        asked.command != "start"@,
    ensures
        record_applied(s, r).0.queue == s.queue,
        record_applied(s, r).0.receipts == s.receipts.insert(asked.request_id, asked),
        asked.command != "edit"@ ==> record_applied(s, r).0.prompts == s.prompts,
        record_applied(s, r).1 is None,
{
    session_words();
    receipt_reads_back(asked);
}

/// A message that runs or was delivered keeps its place in the queue until it is dispatched.
pub proof fn open_messages_stay_queued(s: SessionView, r: RecordView, message: ReceiptView)
    requires
        r.kind == "receipt"@,
        r.data == receipt_json(message),
        message.command == "prompt"@,
        message.state == "running"@ || message.state == "delivered"@,
    ensures
        record_applied(s, r).0.queue == s.queue,
        record_applied(s, r).0.last_prompt_state == s.last_prompt_state,
        record_applied(s, r).0.receipts[message.request_id] == message,
{
    session_words();
    receipt_reads_back(message);
}

/// A cancellation that was refused or failed takes nothing out of the queue.
pub proof fn failed_cancellations_change_nothing(s: SessionView, r: RecordView, cancel: ReceiptView)
    requires
        r.kind == "receipt"@,
        r.data == receipt_json(cancel),
        cancel.command == "cancel"@,
        cancel.state != "accepted"@ && cancel.state != "completed"@,
    ensures
        record_applied(s, r).0.queue == s.queue,
        record_applied(s, r).0.prompts == s.prompts,
{
    session_words();
    receipt_reads_back(cancel);
}

/// What a message asks for stands as it was first accepted, in its first revision.
pub proof fn messages_begin_as_they_came(s: SessionView, r: RecordView, message: ReceiptView)
    requires
        r.kind == "receipt"@,
        r.data == receipt_json(message),
        message.command == "prompt"@,
        message.state == "accepted"@,
        !s.prompts.contains_key(message.request_id),
    ensures
        ({
            let after = record_applied(s, r).0;
            &&& after.prompts.contains_key(message.request_id)
            &&& after.prompts[message.request_id].input == message.input
            &&& after.prompts[message.request_id].revision == 1
            &&& !after.prompts[message.request_id].cancelled
        }),
{
    session_words();
    receipt_reads_back(message);
}

/// An edit that is accepted gives a waiting message the text, the content and the attachments of the
/// edit, in the next revision, and leaves its place in the queue. The level of reasoning and the
/// service tier stay where the edit names none.
pub proof fn edits_replace_what_waits(s: SessionView, r: RecordView, edit: ReceiptView, target: Seq<char>)
    requires
        r.kind == "receipt"@,
        r.data == receipt_json(edit),
        edit.command == "edit"@,
        edit.state == "accepted"@,
        edit.input.field("target_request_id"@) == Data::Text(target),
        s.prompts.contains_key(target),
        !s.prompts[target].cancelled,
    ensures
        ({
            let after = record_applied(s, r).0;
            let was = s.prompts[target];
            let now = after.prompts[target];
            &&& after.queue == s.queue
            &&& after.prompts.contains_key(target)
            &&& !now.cancelled
            &&& was.revision < u64::MAX ==> now.revision == was.revision + 1
            &&& edit.input.field("text"@) is Text ==> now.input.field("text"@) == edit.input.field(
                "text"@,
            )
            &&& now.input.field("content"@) == edit.input.field("content"@)
            &&& now.input.field("attachments"@) == edit.input.field("attachments"@)
            &&& edit.input.field("reasoning"@) matches Data::Text(level) ==> (level.len() > 0 ==> now.input.field("reasoning"@) == Data::Text(level))
            &&& edit.input.field("reasoning"@) is Null ==> now.input.field("reasoning"@)
                == was.input.field("reasoning"@)
            &&& edit.input.field("service_tier"@) matches Data::Text(tier) ==> (tier.len() > 0 ==> now.input.field("service_tier"@) == Data::Text(tier))
            &&& edit.input.field("service_tier"@) is Null ==> now.input.field("service_tier"@)
                == was.input.field("service_tier"@)
        }),
{
    session_words();
    receipt_reads_back(edit);
}

// Requests that last.

/// The context counts as being compacted from the acceptance of the request until it has ended.
pub proof fn compactions_last_until_they_end(s: SessionView, r: RecordView, compact: ReceiptView)
    requires
        r.kind == "receipt"@,
        r.data == receipt_json(compact),
    ensures
        ({
            let after = record_applied(s, r).0;
            let state = compact.state;
            &&& compact.command == "compact"@ && (state == "accepted"@ || state == "running"@ || state
                == "delivered"@) ==> after.compacting && after.compact_request == Some(
                compact.request_id,
            )
            &&& compact.command == "compact"@ && (state == "completed"@ || state == "interrupted"@
                || state == "failed"@ || state == "unknown"@ || state == "unknown_after_restart"@)
                ==> !after.compacting && after.compact_request is None
            &&& compact.command != "compact"@ ==> after.compacting == s.compacting
                && after.compact_request == s.compact_request
        }),
{
    session_words();
    receipt_reads_back(compact);
}

/// A session whose closing was asked for stays one that is being closed; no other request makes it one.
pub proof fn closing_is_kept(s: SessionView, r: RecordView, asked: ReceiptView)
    requires
        r.kind == "receipt"@,
        r.data == receipt_json(asked),
    ensures
        asked.command == "close"@ ==> record_applied(s, r).0.close_request == Some(
            asked.request_id,
        ),
        asked.command != "close"@ ==> record_applied(s, r).0.close_request == s.close_request,
{
    session_words();
    receipt_reads_back(asked);
}

/// How a message ended is remembered as it is recorded: each of the ways in which it can end.
pub proof fn endings_are_remembered(s: SessionView, r: RecordView, message: ReceiptView)
    requires
        r.kind == "receipt"@,
        r.data == receipt_json(message),
        message.command == "prompt"@,
        message.state == "completed"@ || message.state == "interrupted"@ || message.state
            == "failed"@ || message.state == "unknown"@ || message.state
            == "unknown_after_restart"@,
    ensures
        record_applied(s, r).0.last_prompt_state == Some(message.state),
        !record_applied(s, r).0.queue.contains(message.request_id),
{
    session_words();
    receipt_reads_back(message);
    crate::text::without_holds(s.queue, message.request_id);
    crate::text::without_holds(s.queue.push(message.request_id), message.request_id);
}

/// A new message permits one more recovery and lifts the usage limit; a message that ended well permits
/// one more recovery; continuing the session uses it up.
pub proof fn recoveries_are_permitted_anew(s: SessionView, r: RecordView, message: ReceiptView)
    requires
        message.command == "prompt"@,
    ensures
        ({
            let after = record_applied(s, r).0;
            let told = r.kind == "receipt"@ && r.data == receipt_json(message);
            let first = message.state == "accepted"@ && !s.receipts.contains_key(
                message.request_id,
            );
            &&& told && first ==> !after.recovery_attempted && !after.usage_limited
            &&& told && (message.state == "completed"@ || message.state == "interrupted"@)
                ==> !after.recovery_attempted
            &&& told && (message.state == "failed"@ || message.state == "unknown"@)
                ==> after.recovery_attempted == s.recovery_attempted
            &&& told && !first ==> after.usage_limited == s.usage_limited
            &&& r.kind == "state"@ && r.data.field("state"@) == Data::Text("resuming"@)
                ==> after.recovery_attempted
            &&& r.kind == "usage_limited"@ ==> after.usage_limited
        }),
{
    session_words();
    receipt_reads_back(message);
}

// States.

/// A record of the state gives the session that state, and the request and the turn that it names: none
/// where it names none.
pub proof fn states_are_taken_over(s: SessionView, r: RecordView)
    requires
        r.kind == "state"@,
    ensures
        ({
            let (after, fault) = record_applied(s, r);
            &&& fault is None
            &&& r.data.field("state"@) matches Data::Text(state) ==> after.state == state
            &&& !(r.data.field("state"@) is Text) ==> after.state == "unknown"@
            &&& r.data.field("request_id"@) matches Data::Text(request) ==> after.current_request == Some(request)
            &&& !(r.data.field("request_id"@) is Text) ==> after.current_request is None
            &&& r.data.field("turn_id"@) matches Data::Text(turn) ==> after.current_turn
                    == Some(turn)
            &&& !(r.data.field("turn_id"@) is Text) ==> after.current_turn is None
            &&& r.data.field("state"@) != Data::Text("starting_turn"@) ==> after.queue == s.queue
                && after.has_dispatched == s.has_dispatched
            &&& after.receipts == s.receipts
            &&& after.prompts == s.prompts
            &&& after.native_id == s.native_id
            &&& after.queue_paused == s.queue_paused
        }),
{
    session_words();
}

/// Once a message was dispatched the session counts as one that has worked, for good.
pub proof fn dispatches_are_remembered(s: SessionView, r: RecordView, request: Seq<char>)
    requires
        r.kind == "state"@,
        r.data.field("state"@) == Data::Text("starting_turn"@),
        r.data.field("request_id"@) == Data::Text(request),
    ensures
        record_applied(s, r).0.has_dispatched,
        record_applied(s, r).0.state == "starting_turn"@,
        record_applied(s, r).0.current_request == Some(request),
{
    session_words();
}

/// Why a start failed is kept until the session is idle again.
pub proof fn startup_failures_are_kept(s: SessionView, r: RecordView)
    requires
        r.kind == "state"@,
    ensures
        ({
            let after = record_applied(s, r).0;
            let lost = r.data.field("reason"@) == Data::Text(
                "native resume or process cleanup failed"@,
            );
            &&& r.data.field("startup_error"@) matches Data::Text(code) ==> after.startup_error == Some(code)
            &&& r.data.field("startup_error"@) is Text ==> (r.data.field("reason"@) matches Data::Text(reason) ==> after.startup_reason == Some(reason))
            &&& !(r.data.field("startup_error"@) is Text) && lost ==> after.startup_error == Some(
                "resume_failed"@,
            )
            &&& !(r.data.field("startup_error"@) is Text) && !lost && r.data.field("state"@)
                == Data::Text("idle"@) ==> after.startup_error is None && after.startup_reason
                is None
            &&& !(r.data.field("startup_error"@) is Text) && !lost && r.data.field("state"@)
                != Data::Text("idle"@) && r.data.field("state"@) is Text ==> after.startup_error
                == s.startup_error && after.startup_reason == s.startup_reason
        }),
{
    session_words();
}

// The harness.

/// The harness of a session tells who it is: its conversation, its file, its model and what it can do. What
/// it does not tell stays as it was.
pub proof fn identities_are_taken_over(s: SessionView, r: RecordView, id: Seq<char>)
    requires
        r.kind == "native_identity"@,
        r.data.field("id"@) == Data::Text(id),
        s.native_id is None || s.native_id == Some(id) || r.data.field("replaced"@) == Data::Bool(true),
    ensures
        ({
            let (after, fault) = record_applied(s, r);
            &&& fault is None
            &&& after.native_id == Some(id)
            &&& r.data.field("path"@) matches Data::Text(path) ==> after.native_path == Some(
                    path,
                )
            &&& !(r.data.field("path"@) is Text) ==> after.native_path == s.native_path
            &&& r.data.field("model"@) matches Data::Text(model) ==> after.model == Some(
                    model,
                )
            &&& !(r.data.field("model"@) is Text) ==> after.model == s.model
            &&& r.data.field("provider"@) matches Data::Text(provider) ==> after.provider
                    == Some(provider)
            &&& !(r.data.field("provider"@) is Text) ==> after.provider == s.provider
            &&& r.data.get("capabilities"@) is Some ==> after.capabilities == r.data.field(
                "capabilities"@,
            )
            &&& r.data.get("capabilities"@) is None ==> after.capabilities == s.capabilities
            &&& after.queue == s.queue
            &&& after.state == s.state
            &&& after.receipts == s.receipts
        }),
{
    session_words();
}

/// An identity that is none, or another one that was not said to replace the first, is refused and changes
/// nothing of the conversation.
pub proof fn strange_identities_are_refused(s: SessionView, r: RecordView)
    requires
        r.kind == "native_identity"@,
        !(r.data.field("id"@) is Text) || (s.native_id is Some && r.data.field("id"@) != Data::Text(
            s.native_id->0,
        ) && r.data.field("replaced"@) != Data::Bool(true)),
    ensures
        record_applied(s, r).1 is Some,
        record_applied(s, r).0.native_id == s.native_id,
        record_applied(s, r).0.native_path == s.native_path,
        record_applied(s, r).0.model == s.model,
        record_applied(s, r).0.capabilities == s.capabilities,
{
    session_words();
}

/// The process and the level of reasoning that a harness was started with are kept; the level only where
/// none is known.
#[verifier::rlimit(40)]
pub proof fn launches_are_remembered(s: SessionView, r: RecordView)
    ensures
        r.kind == "harness"@ ==> (r.data.field("pid"@) matches Data::Number(Number::Unsigned(pid))
            ==> (pid <= u32::MAX ==> record_applied(s, r).0.harness_pid == Some(pid as u32))),
        r.kind == "harness"@ && !(r.data.field("pid"@) is Number) ==> record_applied(
            s,
            r,
        ).0.harness_pid is None,
        r.kind == "launch_reasoning"@ && s.reasoning is None ==> (r.data.field("reasoning"@) matches Data::Text(level) ==> record_applied(s, r).0.reasoning == Some(level)),
        r.kind == "launch_reasoning"@ && s.reasoning is Some ==> record_applied(s, r).0.reasoning
            == s.reasoning,
        r.kind != "harness"@ ==> record_applied(s, r).0.harness_pid == s.harness_pid,
        r.kind == "checkpoint"@ ==> record_applied(s, r).0.checkpoint == Some(r.data),
{
    session_words();
}

/// Warnings and pauses for storage last until storage has recovered.
#[verifier::rlimit(40)]
pub proof fn storage_is_remembered(s: SessionView, r: RecordView)
    ensures
        r.kind == "storage_warning"@ ==> record_applied(s, r).0.storage_warned && record_applied(
            s,
            r,
        ).0.storage_paused == s.storage_paused,
        r.kind == "storage_pause"@ && r.data.field("paused"@) == Data::Bool(true)
            ==> record_applied(s, r).0.storage_paused,
        r.kind == "storage_pause"@ && r.data.field("paused"@) == Data::Bool(false)
            ==> !record_applied(s, r).0.storage_paused,
        r.kind == "storage_recovered"@ ==> !record_applied(s, r).0.storage_warned
            && !record_applied(s, r).0.storage_paused,
        r.kind != "storage_warning"@ && r.kind != "storage_recovered"@ ==> record_applied(
            s,
            r,
        ).0.storage_warned == s.storage_warned,
        r.kind != "storage_pause"@ && r.kind != "storage_recovered"@ ==> record_applied(
            s,
            r,
        ).0.storage_paused == s.storage_paused,
{
    session_words();
}

/// The folder of a session is the one that was recorded last.
pub proof fn folders_are_taken_over(s: SessionView, r: RecordView, id: Seq<char>, path: Seq<char>)
    requires
        r.kind == "workspace"@,
        r.data.field("id"@) == Data::Text(id),
        r.data.field("path"@) == Data::Text(path),
        r.data.get("parent"@) is None,
    ensures
        record_applied(s, r).1 is None,
        record_applied(s, r).0.workspace == Some(WorkspaceView { id, path, parent: None }),
{
    session_words();
}

// Native history.

/// The place in the history of Pi is the entry that was recorded last, with its line.
pub proof fn entries_are_the_place(s: SessionView, r: RecordView, entry: Seq<char>, line: Seq<char>)
    requires
        r.kind == "native_record"@,
        s.harness == Kind::Pi,
        r.data.field("cursor"@).field("entry"@) == Data::Text(entry),
        r.native == Some(line),
    ensures
        entry.len() > 0 ==> record_applied(s, r).1 is None && record_applied(
            s,
            r,
        ).0.native_cursor.field("entry"@) == Data::Text(entry) && record_applied(
            s,
            r,
        ).0.native_cursor.field("line"@) == Data::Text(line),
        entry.len() == 0 ==> record_applied(s, r).1 is Some && record_applied(s, r).0.native_cursor
            == s.native_cursor,
{
    session_words();
}

/// The records of a snapshot are taken in order: the first at any time, each other one only after the
/// one before it, of the same snapshot.
pub proof fn snapshots_are_taken_in_order(
    s: SessionView,
    r: RecordView,
    snapshot: Seq<char>,
    index: u64,
)
    requires
        r.kind == "native_record"@,
        s.harness == Kind::Cursor || s.harness == Kind::Fx,
        r.data.field("snapshot"@) == Data::Text(snapshot),
        r.data.field("index"@) == Data::Number(Number::Unsigned(index)),
        index < u64::MAX,
    ensures
        ({
            let (after, fault) = record_applied(s, r);
            let follows = s.native_cursor.field("snapshot"@) == Data::Text(snapshot)
                && s.native_cursor.field("index"@) == Data::Number(Number::Unsigned(index));
            &&& fault is None <==> r.native is Some && (index == 0 || follows)
            &&& fault is None ==> after.native_cursor.field("snapshot"@) == Data::Text(snapshot)
                && after.native_cursor.field("index"@) == Data::Number(
                Number::Unsigned((index + 1) as u64),
            ) && (after.native_cursor.field("complete"@) == Data::Bool(true) <==> r.data.field(
                "complete"@,
            ) == Data::Bool(true))
            &&& fault is Some ==> after.native_cursor == s.native_cursor
        }),
{
    session_words();
}

/// A record that does not begin where the history ended is refused, and the place stays.
pub proof fn gaps_are_refused(s: SessionView, r: RecordView, offset: u64)
    requires
        r.kind == "native_record"@,
        s.harness == Kind::Codex || s.harness == Kind::Claude,
        r.data.field("offset"@) == Data::Number(Number::Unsigned(offset)),
        s.native_cursor.field("offset"@) != Data::Number(Number::Unsigned(offset)),
        s.native_cursor.field("offset"@) is Number || offset != 0,
        s.native_cursor.field("offset"@) is Number ==> s.native_cursor.field("offset"@)->Number_0
            is Unsigned,
    ensures
        record_applied(s, r).1 is Some,
        record_applied(s, r).0.native_cursor == s.native_cursor,
        record_applied(s, r).0.native_offset == s.native_offset,
{
    session_words();
}

// Every record.

/// Every record counts: the session knows the last of them, and when it was last active, which records of
/// its own keeping do not change. Output that was seen stays seen.
pub proof fn every_record_counts(s: SessionView, r: RecordView)
    ensures
        ({
            let after = record_applied(s, r).0;
            let quiet = r.kind == "state"@ || r.kind == "harness"@ || r.kind == "workspace"@ || r.kind
                == "launch_reasoning"@ || r.kind == "native_identity"@ || r.kind
                == "native_history_unavailable"@;
            let said = (r.kind == "text_delta"@ || r.kind == "thinking_delta"@) && r.data.field(
                "delta"@,
            ) is Text && r.data.field("delta"@)->Text_0.len() > 0;
            &&& after.last_sequence == r.sequence
            &&& quiet ==> after.last_activity == s.last_activity
            &&& !quiet && r.timestamp_ms is Some ==> after.last_activity == r.timestamp_ms
            &&& !quiet && r.timestamp_ms is None ==> after.last_activity == s.last_activity
            &&& after.teleport_output <==> s.teleport_output || said
        }),
{
    session_words();
}

/// What an agent says and does changes nothing of its session but when it was last active, and whether
/// it was heard.
pub proof fn speech_changes_little(s: SessionView, r: RecordView)
    requires
        r.kind == "text_delta"@ || r.kind == "thinking_delta"@ || r.kind == "native_event"@ || r.kind
            == "item_started"@ || r.kind == "item_completed"@ || r.kind == "tool_delta"@,
    ensures
        record_applied(s, r).1 is None,
        record_applied(s, r).0 == (SessionView {
            last_sequence: record_applied(s, r).0.last_sequence,
            last_activity: record_applied(s, r).0.last_activity,
            teleport_output: record_applied(s, r).0.teleport_output,
            ..s
        }),
{
    session_words();
}

} // verus!
