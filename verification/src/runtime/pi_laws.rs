//! What is recorded and told of a conversation with Pi, line by line.
use super::pi::{
    answer_in, baseline_level, call_number, captured, confirmed, encoded, fork_params, frames_for,
    opened, progressed, received, started_id, thinking_level, users_known, with_files, CaptureView,
    ProtocolView,
};
use super::process::MAX_LINE;
use super::{pi_reasoning_level, EventView, ProgressView};
use crate::fault::FaultView;
use crate::json::{Data, Number};
use crate::text::{byte_len, decimal, finishes, holds, lowered};
use crate::wire::text_read;
use vstd::prelude::*;

verus! {

proof fn pi_words()
    ensures
        "pi"@.len() == 2 && "pi"@[0] == 'p',
        "id"@.len() == 2 && "id"@[0] == 'i',
        "off"@.len() == 3,
        "type"@.len() == 4 && "type"@[0] == 't' && "type"@[1] == 'y',
        "role"@.len() == 4 && "role"@[0] == 'r' && "role"@[1] == 'o',
        "stop"@.len() == 4 && "stop"@[0] == 's' && "stop"@[1] == 't',
        "data"@.len() == 4 && "data"@[0] == 'd' && "data"@[1] == 'a',
        "kind"@.len() == 4 && "kind"@[0] == 'k' && "kind"@[1] == 'i',
        "fork"@.len() == 4 && "fork"@[0] == 'f' && "fork"@[1] == 'o',
        "path"@.len() == 4 && "path"@[0] == 'p' && "path"@[1] == 'a',
        "none"@.len() == 4 && "none"@[0] == 'n' && "none"@[1] == 'o',
        "line"@.len() == 4 && "line"@[0] == 'l' && "line"@[1] == 'i',
        "text"@.len() == 4 && "text"@[0] == 't' && "text"@[1] == 'e',
        "usage"@.len() == 5 && "usage"@[1] == 's' && "usage"@[0] == 'u',
        "error"@.len() == 5 && "error"@[1] == 'r' && "error"@[0] == 'e',
        "event"@.len() == 5 && "event"@[1] == 'v' && "event"@[0] == 'e',
        "input"@.len() == 5 && "input"@[1] == 'n' && "input"@[0] == 'i',
        "entry"@.len() == 5 && "entry"@[1] == 'n' && "entry"@[0] == 'e',
        "delta"@.len() == 5 && "delta"@[1] == 'e' && "delta"@[0] == 'd',
        "abort"@.len() == 5 && "abort"@[1] == 'b' && "abort"@[0] == 'a',
        "model"@.len() == 5 && "model"@[1] == 'o' && "model"@[0] == 'm',
        "image"@.len() == 5 && "image"@[1] == 'm' && "image"@[0] == 'i',
        "length"@.len() == 6 && "length"@[0] == 'l' && "length"@[2] == 'n',
        "failed"@.len() == 6 && "failed"@[0] == 'f' && "failed"@[2] == 'i',
        "method"@.len() == 6 && "method"@[0] == 'm' && "method"@[2] == 't',
        "select"@.len() == 6 && "select"@[0] == 's' && "select"@[2] == 'l',
        "editor"@.len() == 6 && "editor"@[0] == 'e' && "editor"@[2] == 'i',
        "reason"@.len() == 6 && "reason"@[0] == 'r' && "reason"@[2] == 'a',
        "cursor"@.len() == 6 && "cursor"@[0] == 'c' && "cursor"@[2] == 'r',
        "prompt"@.len() == 6 && "prompt"@[0] == 'p' && "prompt"@[2] == 'o',
        "output"@.len() == 6 && "output"@[0] == 'o' && "output"@[2] == 't',
        "result"@.len() == 6 && "result"@[0] == 'r' && "result"@[2] == 's',
        "before"@.len() == 6 && "before"@[0] == 'b' && "before"@[2] == 'f',
        "message"@.len() == 7 && "message"@[5] == 'g' && "message"@[0] == 'm',
        "aborted"@.len() == 7 && "aborted"@[5] == 'e' && "aborted"@[0] == 'a',
        "toolUse"@.len() == 7 && "toolUse"@[5] == 's' && "toolUse"@[0] == 't',
        "unknown"@.len() == 7 && "unknown"@[5] == 'w' && "unknown"@[0] == 'u',
        "harness"@.len() == 7 && "harness"@[5] == 's' && "harness"@[0] == 'h',
        "command"@.len() == 7 && "command"@[5] == 'n' && "command"@[0] == 'c',
        "confirm"@.len() == 7 && "confirm"@[5] == 'r' && "confirm"@[0] == 'c',
        "success"@.len() == 7 && "success"@[5] == 's' && "success"@[0] == 's',
        "entryId"@.len() == 7 && "entryId"@[5] == 'I' && "entryId"@[0] == 'e',
        "item_id"@.len() == 7 && "item_id"@[5] == 'i' && "item_id"@[0] == 'i',
        "compact"@.len() == 7 && "compact"@[5] == 'c' && "compact"@[0] == 'c',
        "session"@.len() == 7 && "session"@[5] == 'o' && "session"@[0] == 's',
        "response"@.len() == 8 && "response"@[0] == 'r',
        "messages"@.len() == 8 && "messages"@[0] == 'm',
        "toolName"@.len() == 8 && "toolName"@[0] == 't',
        "provider"@.len() == 8 && "provider"@[0] == 'p',
        "entry_id"@.len() == 8 && "entry_id"@[0] == 'e',
        "assistant"@.len() == 9 && "assistant"@[3] == 'i',
        "completed"@.len() == 9 && "completed"@[3] == 'p',
        "cancelled"@.len() == 9 && "cancelled"@[3] == 'c',
        "sessionId"@.len() == 9 && "sessionId"@[3] == 's',
        "get_state"@.len() == 9 && "get_state"@[3] == '_',
        "tool_name"@.len() == 9 && "tool_name"@[3] == 'l',
        "stopReason"@.len() == 10 && "stopReason"@[3] == 'p',
        "checkpoint"@.len() == 10 && "checkpoint"@[3] == 'c',
        "request_id"@.len() == 10 && "request_id"@[3] == 'u',
        "toolCallId"@.len() == 10 && "toolCallId"@[3] == 'l',
        "text_delta"@.len() == 10 && "text_delta"@[3] == 't',
        "close-bash"@.len() == 10 && "close-bash"@[3] == 's',
        "message_end"@.len() == 11 && "message_end"@[5] == 'g' && "message_end"@[6] == 'e',
        "agent_start"@.len() == 11 && "agent_start"@[5] == '_' && "agent_start"@[6] == 's',
        "interrupted"@.len() == 11 && "interrupted"@[5] == 'r' && "interrupted"@[6] == 'u',
        "usage limit"@.len() == 11 && "usage limit"@[5] == ' ' && "usage limit"@[6] == 'l',
        "checkpoint-"@.len() == 11 && "checkpoint-"@[5] == 'p' && "checkpoint-"@[6] == 'o',
        "sessionFile"@.len() == 11 && "sessionFile"@[5] == 'o' && "sessionFile"@[6] == 'n',
        "isStreaming"@.len() == 11 && "isStreaming"@[5] == 'e' && "isStreaming"@[6] == 'a',
        "close-queue"@.len() == 11 && "close-queue"@[5] == '-' && "close-queue"@[6] == 'q',
        "close-agent"@.len() == 11 && "close-agent"@[5] == '-' && "close-agent"@[6] == 'a',
        "attachments"@.len() == 11 && "attachments"@[5] == 'h' && "attachments"@[6] == 'm',
        "errorMessage"@.len() == 12 && "errorMessage"@[1] == 'r',
        "rewind_ready"@.len() == 12 && "rewind_ready"@[1] == 'e',
        "isCompacting"@.len() == 12 && "isCompacting"@[1] == 's',
        "tool_call_id"@.len() == 12 && "tool_call_id"@[1] == 'o',
        "item_started"@.len() == 12 && "item_started"@[1] == 't',
        "native_event"@.len() == 12 && "native_event"@[1] == 'a',
        "usage_limited"@.len() == 13 && "usage_limited"@[2] == 'a',
        "partialResult"@.len() == 13 && "partialResult"@[2] == 'r',
        "tool_snapshot"@.len() == 13 && "tool_snapshot"@[2] == 'o',
        "agent_settled"@.len() == 13 && "agent_settled"@[2] == 'e',
        "thinkingLevel"@.len() == 13 && "thinkingLevel"@[2] == 'i',
        "native_record"@.len() == 13 && "native_record"@[2] == 't',
        "message_update"@.len() == 14 && "message_update"@[0] == 'm',
        "thinking_delta"@.len() == 14 && "thinking_delta"@[0] == 't',
        "item_completed"@.len() == 14 && "item_completed"@[0] == 'i',
        "extension_error"@.len() == 15 && "extension_error"@[0] == 'e',
        "native_identity"@.len() == 15 && "native_identity"@[0] == 'n',
        "get_fork_messages"@.len() == 17,
        "tool_execution_end"@.len() == 18,
        "pendingMessageCount"@.len() == 19,
        "extension_ui_request"@.len() == 20 && "extension_ui_request"@[0] == 'e',
        "tool_execution_start"@.len() == 20 && "tool_execution_start"@[0] == 't',
        "interaction_cancelled"@.len() == 21 && "interaction_cancelled"@[0] == 'i',
        "assistantMessageEvent"@.len() == 21 && "assistantMessageEvent"@[0] == 'a',
        "tool_execution_update"@.len() == 21 && "tool_execution_update"@[0] == 't',
        "extension_ui_response"@.len() == 21 && "extension_ui_response"@[0] == 'e',
        "cloudroom_child_request"@.len() == 23,
{
    reveal_strlit("pi");
    reveal_strlit("id");
    reveal_strlit("off");
    reveal_strlit("type");
    reveal_strlit("role");
    reveal_strlit("stop");
    reveal_strlit("data");
    reveal_strlit("kind");
    reveal_strlit("fork");
    reveal_strlit("path");
    reveal_strlit("none");
    reveal_strlit("line");
    reveal_strlit("text");
    reveal_strlit("usage");
    reveal_strlit("error");
    reveal_strlit("event");
    reveal_strlit("input");
    reveal_strlit("entry");
    reveal_strlit("delta");
    reveal_strlit("abort");
    reveal_strlit("model");
    reveal_strlit("image");
    reveal_strlit("length");
    reveal_strlit("failed");
    reveal_strlit("method");
    reveal_strlit("select");
    reveal_strlit("editor");
    reveal_strlit("reason");
    reveal_strlit("cursor");
    reveal_strlit("prompt");
    reveal_strlit("output");
    reveal_strlit("result");
    reveal_strlit("before");
    reveal_strlit("message");
    reveal_strlit("aborted");
    reveal_strlit("toolUse");
    reveal_strlit("unknown");
    reveal_strlit("harness");
    reveal_strlit("command");
    reveal_strlit("confirm");
    reveal_strlit("success");
    reveal_strlit("entryId");
    reveal_strlit("item_id");
    reveal_strlit("compact");
    reveal_strlit("session");
    reveal_strlit("response");
    reveal_strlit("messages");
    reveal_strlit("toolName");
    reveal_strlit("provider");
    reveal_strlit("entry_id");
    reveal_strlit("assistant");
    reveal_strlit("completed");
    reveal_strlit("cancelled");
    reveal_strlit("sessionId");
    reveal_strlit("get_state");
    reveal_strlit("tool_name");
    reveal_strlit("stopReason");
    reveal_strlit("checkpoint");
    reveal_strlit("request_id");
    reveal_strlit("toolCallId");
    reveal_strlit("text_delta");
    reveal_strlit("close-bash");
    reveal_strlit("message_end");
    reveal_strlit("agent_start");
    reveal_strlit("interrupted");
    reveal_strlit("usage limit");
    reveal_strlit("checkpoint-");
    reveal_strlit("sessionFile");
    reveal_strlit("isStreaming");
    reveal_strlit("close-queue");
    reveal_strlit("close-agent");
    reveal_strlit("attachments");
    reveal_strlit("errorMessage");
    reveal_strlit("rewind_ready");
    reveal_strlit("isCompacting");
    reveal_strlit("tool_call_id");
    reveal_strlit("item_started");
    reveal_strlit("native_event");
    reveal_strlit("usage_limited");
    reveal_strlit("partialResult");
    reveal_strlit("tool_snapshot");
    reveal_strlit("agent_settled");
    reveal_strlit("thinkingLevel");
    reveal_strlit("native_record");
    reveal_strlit("message_update");
    reveal_strlit("thinking_delta");
    reveal_strlit("item_completed");
    reveal_strlit("extension_error");
    reveal_strlit("native_identity");
    reveal_strlit("get_fork_messages");
    reveal_strlit("tool_execution_end");
    reveal_strlit("pendingMessageCount");
    reveal_strlit("extension_ui_request");
    reveal_strlit("tool_execution_start");
    reveal_strlit("interaction_cancelled");
    reveal_strlit("assistantMessageEvent");
    reveal_strlit("tool_execution_update");
    reveal_strlit("extension_ui_response");
    reveal_strlit("cloudroom_child_request");
    assert("pi"@.len() == 2 && "pi"@[0] == 'p');
    assert("id"@.len() == 2 && "id"@[0] == 'i');
    assert("off"@.len() == 3);
    assert("type"@.len() == 4 && "type"@[0] == 't' && "type"@[1] == 'y');
    assert("role"@.len() == 4 && "role"@[0] == 'r' && "role"@[1] == 'o');
    assert("stop"@.len() == 4 && "stop"@[0] == 's' && "stop"@[1] == 't');
    assert("data"@.len() == 4 && "data"@[0] == 'd' && "data"@[1] == 'a');
    assert("kind"@.len() == 4 && "kind"@[0] == 'k' && "kind"@[1] == 'i');
    assert("fork"@.len() == 4 && "fork"@[0] == 'f' && "fork"@[1] == 'o');
    assert("path"@.len() == 4 && "path"@[0] == 'p' && "path"@[1] == 'a');
    assert("none"@.len() == 4 && "none"@[0] == 'n' && "none"@[1] == 'o');
    assert("line"@.len() == 4 && "line"@[0] == 'l' && "line"@[1] == 'i');
    assert("text"@.len() == 4 && "text"@[0] == 't' && "text"@[1] == 'e');
    assert("usage"@.len() == 5 && "usage"@[1] == 's' && "usage"@[0] == 'u');
    assert("error"@.len() == 5 && "error"@[1] == 'r' && "error"@[0] == 'e');
    assert("event"@.len() == 5 && "event"@[1] == 'v' && "event"@[0] == 'e');
    assert("input"@.len() == 5 && "input"@[1] == 'n' && "input"@[0] == 'i');
    assert("entry"@.len() == 5 && "entry"@[1] == 'n' && "entry"@[0] == 'e');
    assert("delta"@.len() == 5 && "delta"@[1] == 'e' && "delta"@[0] == 'd');
    assert("abort"@.len() == 5 && "abort"@[1] == 'b' && "abort"@[0] == 'a');
    assert("model"@.len() == 5 && "model"@[1] == 'o' && "model"@[0] == 'm');
    assert("image"@.len() == 5 && "image"@[1] == 'm' && "image"@[0] == 'i');
    assert("length"@.len() == 6 && "length"@[0] == 'l' && "length"@[2] == 'n');
    assert("failed"@.len() == 6 && "failed"@[0] == 'f' && "failed"@[2] == 'i');
    assert("method"@.len() == 6 && "method"@[0] == 'm' && "method"@[2] == 't');
    assert("select"@.len() == 6 && "select"@[0] == 's' && "select"@[2] == 'l');
    assert("editor"@.len() == 6 && "editor"@[0] == 'e' && "editor"@[2] == 'i');
    assert("reason"@.len() == 6 && "reason"@[0] == 'r' && "reason"@[2] == 'a');
    assert("cursor"@.len() == 6 && "cursor"@[0] == 'c' && "cursor"@[2] == 'r');
    assert("prompt"@.len() == 6 && "prompt"@[0] == 'p' && "prompt"@[2] == 'o');
    assert("output"@.len() == 6 && "output"@[0] == 'o' && "output"@[2] == 't');
    assert("result"@.len() == 6 && "result"@[0] == 'r' && "result"@[2] == 's');
    assert("before"@.len() == 6 && "before"@[0] == 'b' && "before"@[2] == 'f');
    assert("message"@.len() == 7 && "message"@[5] == 'g' && "message"@[0] == 'm');
    assert("aborted"@.len() == 7 && "aborted"@[5] == 'e' && "aborted"@[0] == 'a');
    assert("toolUse"@.len() == 7 && "toolUse"@[5] == 's' && "toolUse"@[0] == 't');
    assert("unknown"@.len() == 7 && "unknown"@[5] == 'w' && "unknown"@[0] == 'u');
    assert("harness"@.len() == 7 && "harness"@[5] == 's' && "harness"@[0] == 'h');
    assert("command"@.len() == 7 && "command"@[5] == 'n' && "command"@[0] == 'c');
    assert("confirm"@.len() == 7 && "confirm"@[5] == 'r' && "confirm"@[0] == 'c');
    assert("success"@.len() == 7 && "success"@[5] == 's' && "success"@[0] == 's');
    assert("entryId"@.len() == 7 && "entryId"@[5] == 'I' && "entryId"@[0] == 'e');
    assert("item_id"@.len() == 7 && "item_id"@[5] == 'i' && "item_id"@[0] == 'i');
    assert("compact"@.len() == 7 && "compact"@[5] == 'c' && "compact"@[0] == 'c');
    assert("session"@.len() == 7 && "session"@[5] == 'o' && "session"@[0] == 's');
    assert("response"@.len() == 8 && "response"@[0] == 'r');
    assert("messages"@.len() == 8 && "messages"@[0] == 'm');
    assert("toolName"@.len() == 8 && "toolName"@[0] == 't');
    assert("provider"@.len() == 8 && "provider"@[0] == 'p');
    assert("entry_id"@.len() == 8 && "entry_id"@[0] == 'e');
    assert("assistant"@.len() == 9 && "assistant"@[3] == 'i');
    assert("completed"@.len() == 9 && "completed"@[3] == 'p');
    assert("cancelled"@.len() == 9 && "cancelled"@[3] == 'c');
    assert("sessionId"@.len() == 9 && "sessionId"@[3] == 's');
    assert("get_state"@.len() == 9 && "get_state"@[3] == '_');
    assert("tool_name"@.len() == 9 && "tool_name"@[3] == 'l');
    assert("stopReason"@.len() == 10 && "stopReason"@[3] == 'p');
    assert("checkpoint"@.len() == 10 && "checkpoint"@[3] == 'c');
    assert("request_id"@.len() == 10 && "request_id"@[3] == 'u');
    assert("toolCallId"@.len() == 10 && "toolCallId"@[3] == 'l');
    assert("text_delta"@.len() == 10 && "text_delta"@[3] == 't');
    assert("close-bash"@.len() == 10 && "close-bash"@[3] == 's');
    assert("message_end"@.len() == 11 && "message_end"@[5] == 'g' && "message_end"@[6] == 'e');
    assert("agent_start"@.len() == 11 && "agent_start"@[5] == '_' && "agent_start"@[6] == 's');
    assert("interrupted"@.len() == 11 && "interrupted"@[5] == 'r' && "interrupted"@[6] == 'u');
    assert("usage limit"@.len() == 11 && "usage limit"@[5] == ' ' && "usage limit"@[6] == 'l');
    assert("checkpoint-"@.len() == 11 && "checkpoint-"@[5] == 'p' && "checkpoint-"@[6] == 'o');
    assert("sessionFile"@.len() == 11 && "sessionFile"@[5] == 'o' && "sessionFile"@[6] == 'n');
    assert("isStreaming"@.len() == 11 && "isStreaming"@[5] == 'e' && "isStreaming"@[6] == 'a');
    assert("close-queue"@.len() == 11 && "close-queue"@[5] == '-' && "close-queue"@[6] == 'q');
    assert("close-agent"@.len() == 11 && "close-agent"@[5] == '-' && "close-agent"@[6] == 'a');
    assert("attachments"@.len() == 11 && "attachments"@[5] == 'h' && "attachments"@[6] == 'm');
    assert("errorMessage"@.len() == 12 && "errorMessage"@[1] == 'r');
    assert("rewind_ready"@.len() == 12 && "rewind_ready"@[1] == 'e');
    assert("isCompacting"@.len() == 12 && "isCompacting"@[1] == 's');
    assert("tool_call_id"@.len() == 12 && "tool_call_id"@[1] == 'o');
    assert("item_started"@.len() == 12 && "item_started"@[1] == 't');
    assert("native_event"@.len() == 12 && "native_event"@[1] == 'a');
    assert("usage_limited"@.len() == 13 && "usage_limited"@[2] == 'a');
    assert("partialResult"@.len() == 13 && "partialResult"@[2] == 'r');
    assert("tool_snapshot"@.len() == 13 && "tool_snapshot"@[2] == 'o');
    assert("agent_settled"@.len() == 13 && "agent_settled"@[2] == 'e');
    assert("thinkingLevel"@.len() == 13 && "thinkingLevel"@[2] == 'i');
    assert("native_record"@.len() == 13 && "native_record"@[2] == 't');
    assert("message_update"@.len() == 14 && "message_update"@[0] == 'm');
    assert("thinking_delta"@.len() == 14 && "thinking_delta"@[0] == 't');
    assert("item_completed"@.len() == 14 && "item_completed"@[0] == 'i');
    assert("extension_error"@.len() == 15 && "extension_error"@[0] == 'e');
    assert("native_identity"@.len() == 15 && "native_identity"@[0] == 'n');
    assert("get_fork_messages"@.len() == 17);
    assert("tool_execution_end"@.len() == 18);
    assert("pendingMessageCount"@.len() == 19);
    assert("extension_ui_request"@.len() == 20 && "extension_ui_request"@[0] == 'e');
    assert("tool_execution_start"@.len() == 20 && "tool_execution_start"@[0] == 't');
    assert("interaction_cancelled"@.len() == 21 && "interaction_cancelled"@[0] == 'i');
    assert("assistantMessageEvent"@.len() == 21 && "assistantMessageEvent"@[0] == 'a');
    assert("tool_execution_update"@.len() == 21 && "tool_execution_update"@[0] == 't');
    assert("extension_ui_response"@.len() == 21 && "extension_ui_response"@[0] == 'e');
    assert("cloudroom_child_request"@.len() == 23);
}
/// What the first record of a line holds.
pub open spec fn line_record(told: Seq<EventView>) -> Data {
    match told[0] {
        EventView::Record { data, .. } => data,
        _ => Data::Null,
    }
}

/// The kind of the first record of a line.
pub open spec fn line_kind(told: Seq<EventView>) -> Seq<char> {
    match told[0] {
        EventView::Record { kind, .. } => kind,
        _ => Seq::empty(),
    }
}

/// What an event records of a kind.
pub open spec fn records(event: EventView, kind: Seq<char>) -> bool {
    event matches EventView::Record { kind: k, .. } && k == kind
}

/// What an event that is a record holds.
pub open spec fn recorded(event: EventView) -> Data {
    match event {
        EventView::Record { data, .. } => data,
        _ => Data::Null,
    }
}

// Messages.

/// A message of the assistant ends as its reason to stop tells, and what it used is known.
pub proof fn messages_end_as_they_stopped(
    p: ProtocolView,
    s: ProgressView,
    value: Data,
    raw: Seq<char>,
    drained: Result<Seq<EventView>, FaultView>,
    reason: Seq<char>,
)
    requires
        value.field("type"@) == Data::Text("message_end"@),
        value.field("message"@).field("role"@) == Data::Text("assistant"@),
        value.field("message"@).field("stopReason"@) == Data::Text(reason),
    ensures
        ({
            let (q, after, told) = received(p, s, value, raw, drained);
            &&& told is Ok
            &&& q == p
            &&& after == (ProgressView { last_usage: after.last_usage, status: after.status, ..s })
            &&& after.last_usage == value.field("message"@).field("usage"@)
            &&& reason == "stop"@ ==> after.status == "completed"@
            &&& reason == "toolUse"@ ==> after.status == "completed"@
            &&& reason == "aborted"@ ==> after.status == "interrupted"@
            &&& reason == "error"@ ==> after.status == "failed"@
            &&& reason == "length"@ ==> after.status == "failed"@
            &&& reason != "stop"@ && reason != "toolUse"@ && reason != "aborted"@ && reason
                != "error"@ && reason != "length"@ ==> after.status == "unknown"@
        }),
        ({
            let (after, told) = progressed(s, "message_end"@, value);
            &&& reason == "stop"@ ==> after.status == "completed"@
            &&& reason == "toolUse"@ ==> after.status == "completed"@
            &&& reason == "aborted"@ ==> after.status == "interrupted"@
            &&& reason == "error"@ ==> after.status == "failed"@
            &&& reason == "length"@ ==> after.status == "failed"@
        }),
{
    pi_words();
}

/// An account that is used up is told of exactly where the message failed and says so.
pub proof fn used_up_accounts_are_told_of(
    p: ProtocolView,
    s: ProgressView,
    value: Data,
    raw: Seq<char>,
    drained: Result<Seq<EventView>, FaultView>,
)
    requires
        value.field("type"@) == Data::Text("message_end"@),
        value.field("message"@).field("role"@) == Data::Text("assistant"@),
    ensures
        ({
            let told = received(p, s, value, raw, drained).2->Ok_0;
            let message = value.field("message"@);
            let used_up = message.field("stopReason"@) == Data::Text("error"@) && (message.field(
                "errorMessage"@,
            ) matches Data::Text(text) && holds(lowered(text), "usage limit"@));
            &&& used_up ==> told.len() == 2 && records(told[1], "usage_limited"@) && recorded(
                told[1],
            ).field("harness"@) == Data::Text("pi"@)
            &&& !used_up ==> told.len() == 1
        }),
{
    pi_words();
}

/// A dialog is answered at once: it is cancelled, and that is told.
pub proof fn dialogs_are_cancelled(
    p: ProtocolView,
    s: ProgressView,
    value: Data,
    raw: Seq<char>,
    drained: Result<Seq<EventView>, FaultView>,
    method: Seq<char>,
)
    requires
        value.field("type"@) == Data::Text("extension_ui_request"@),
        value.field("method"@) == Data::Text(method),
        method == "select"@ || method == "confirm"@ || method == "input"@ || method == "editor"@,
    ensures
        ({
            let (q, after, told) = received(p, s, value, raw, drained);
            let frames = frames_for(p, value);
            &&& told is Ok && told->Ok_0.len() == 2
            &&& records(told->Ok_0[1], "interaction_cancelled"@)
            &&& recorded(told->Ok_0[1]).field("id"@) == value.field("id"@)
            &&& after == s && q == p
            &&& frames.len() == 1
            &&& frames[0].field("type"@) == Data::Text("extension_ui_response"@)
            &&& frames[0].field("id"@) == value.field("id"@)
            &&& frames[0].field("cancelled"@) == Data::Bool(true)
        }),
{
    pi_words();
}

/// The turn begins when the agent does, and is told to have begun once.
pub proof fn turns_begin_with_the_agent(
    p: ProtocolView,
    s: ProgressView,
    value: Data,
    raw: Seq<char>,
    drained: Result<Seq<EventView>, FaultView>,
)
    requires
        value.field("type"@) == Data::Text("agent_start"@),
    ensures
        ({
            let (q, after, told) = received(p, s, value, raw, drained);
            &&& told is Ok && q == p
            &&& s.request is Some && !s.started && !s.finished ==> after == (ProgressView {
                started: true,
                ..s
            }) && told->Ok_0.len() == 2 && told->Ok_0[1] == (EventView::Started {
                request: s.request->0,
                native_turn: s.native_turn,
            })
            &&& s.request is None || s.started || s.finished ==> after == s && told->Ok_0.len() == 1
        }),
{
    pi_words();
}

/// A command of the prompt that fails before the turn has begun makes the turn fail.
pub proof fn failed_commands_fail_the_turn(
    p: ProtocolView,
    s: ProgressView,
    value: Data,
    raw: Seq<char>,
    drained: Result<Seq<EventView>, FaultView>,
)
    requires
        value.field("type"@) == Data::Text("extension_error"@),
        value.field("event"@) == Data::Text("command"@),
        !s.started,
    ensures
        p.forking ==> received(p, s, value, raw, drained).2 is Err,
        !p.forking ==> received(p, s, value, raw, drained).1 == (ProgressView {
            status: "failed"@,
            ..s
        }),
{
    pi_words();
}

// Records.

/// Every line that is understood is recorded first, word for word, with what it says: of which request
/// and which tool it speaks, and what was said.
pub proof fn lines_are_recorded_with_what_they_say(
    p: ProtocolView,
    s: ProgressView,
    value: Data,
    raw: Seq<char>,
    drained: Result<Seq<EventView>, FaultView>,
    t: Seq<char>,
)
    requires
        value.field("type"@) == Data::Text(t),
        t != "cloudroom_child_request"@,
        received(p, s, value, raw, drained).2 is Ok,
    ensures
        ({
            let told = received(p, s, value, raw, drained).2->Ok_0;
            let data = line_record(told);
            let update = value.field("assistantMessageEvent"@);
            &&& told.len() > 0
            &&& told[0] matches EventView::Record { kind, data, native } && native == Some(raw)
            &&& data.field("harness"@) == Data::Text("pi"@)
            &&& data.field("type"@) == Data::Text(t)
            &&& s.request is Some ==> data.field("request_id"@) == Data::Text(s.request->0)
            &&& s.request is None ==> data.field("request_id"@) is Null
            &&& data.field("item_id"@) == value.field("toolCallId"@)
            &&& data.field("tool_name"@) == value.field("toolName"@)
            &&& data.field("delta"@) == update.field("delta"@)
            &&& data.field("output"@) == value.field("partialResult"@)
            &&& data.field("result"@) == value.field("result"@)
            &&& data.field("message"@) == value.field("message"@)
            &&& data.field("usage"@) == value.field("usage"@)
            &&& t == "tool_execution_start"@ ==> line_kind(told) == "item_started"@
            &&& t == "tool_execution_update"@ ==> line_kind(told) == "tool_snapshot"@
            &&& t == "tool_execution_end"@ ==> line_kind(told) == "item_completed"@
            &&& t == "message_update"@ && update.field("type"@) == Data::Text("text_delta"@)
                ==> line_kind(told) == "text_delta"@
            &&& t == "message_update"@ && update.field("type"@) == Data::Text("thinking_delta"@)
                ==> line_kind(told) == "thinking_delta"@
            &&& t == "message_end"@ || t == "agent_start"@ || t == "response"@ ==> line_kind(told)
                == "native_event"@
        }),
{
    pi_words();
}

// The end of turns.

/// The answer to the question whether the turn of a prompt is over.
pub open spec fn answers_the_question(p: ProtocolView, value: Data) -> bool {
    &&& value.field("type"@) == Data::Text("response"@)
    &&& value.field("command"@) == Data::Text("get_state"@)
    &&& value.field("success"@) == Data::Bool(true)
    &&& p.prompt is Some
    &&& value.field("id"@) == Data::Text("settled-"@ + decimal(p.prompt->0 as nat))
}

/// A turn is over when the harness, asked after it took the prompt, is at rest: interrupted if that was
/// asked for, else as its last message ended, and completed where nothing had to be done.
pub proof fn turns_end_at_rest(
    p: ProtocolView,
    s: ProgressView,
    value: Data,
    raw: Seq<char>,
    drained: Result<Seq<EventView>, FaultView>,
)
    requires
        answers_the_question(p, value),
        !p.forking,
        p.compaction is None,
        call_number(value) is None,
        s.request is Some,
        !s.finished,
        s.native is Some,
        received(p, s, value, raw, drained).2 is Ok,
    ensures
        ({
            let (q, after, told) = received(p, s, value, raw, drained);
            let data = value.field("data"@);
            let rests = p.accepted && data.field("isStreaming"@) == Data::Bool(false) && data.field(
                "isCompacting"@,
            ) == Data::Bool(false) && data.field("pendingMessageCount"@) == Data::Number(
                Number::Unsigned(0),
            );
            &&& rests ==> after == (ProgressView { finished: true, ..s }) && told->Ok_0.len() == 2
            &&& rests ==> (told->Ok_0[1] matches EventView::Finished { request, status, error }
                && request == s.request->0 && error is None && (p.interrupting ==> status
                == "interrupted"@) && (!p.interrupting && s.status.len() > 0 ==> status == s.status)
                && (!p.interrupting && s.status.len() == 0 && !s.started ==> status == "completed"@)
                && (!p.interrupting && s.status.len() == 0 && s.started ==> status == "unknown"@))
            &&& !rests ==> after == s && told->Ok_0.len() == 1
        }),
{
    pi_words();
}

/// A prompt that the harness takes is remembered as taken; one that it refuses is over.
pub proof fn prompts_are_taken_or_over(
    p: ProtocolView,
    s: ProgressView,
    value: Data,
    raw: Seq<char>,
    drained: Result<Seq<EventView>, FaultView>,
    id: u64,
)
    requires
        value.field("type"@) == Data::Text("response"@),
        value.field("command"@) == Data::Text("prompt"@),
        p.prompt == Some(id),
        call_number(value) == Some(id),
    ensures
        ({
            let (q, after, told) = received(p, s, value, raw, drained);
            let taken = value.field("success"@) == Data::Bool(true);
            &&& told is Ok
            &&& taken ==> q.accepted && after == s
            &&& !taken ==> !q.accepted && after.finished
        }),
{
    pi_words();
}

/// Once the agent settles, or takes the prompt, it is asked whether the turn is over; it is asked for the
/// messages that the turn can be taken back to as well.
pub proof fn settled_agents_are_asked(p: ProtocolView, value: Data, id: u64)
    requires
        p.prompt == Some(id),
    ensures
        ({
            let frames = frames_for(p, value);
            let question = "settled-"@ + decimal(id as nat);
            &&& value.field("type"@) == Data::Text("agent_settled"@) ==> frames.len() == 2
                && frames[0].field("type"@) == Data::Text("get_fork_messages"@) && frames[0].field(
                "id"@,
            ) == Data::Text("checkpoint-"@ + decimal(id as nat)) && frames[1].field("type"@)
                == Data::Text("get_state"@) && frames[1].field("id"@) == Data::Text(question)
            &&& value.field("type"@) == Data::Text("response"@) && value.field("command"@)
                == Data::Text("prompt"@) && call_number(value) == Some(id) && value.field(
                "success"@,
            ) == Data::Bool(true) ==> frames.len() == 1 && frames[0].field("type"@) == Data::Text(
                "get_state"@,
            ) && frames[0].field("id"@) == Data::Text(question)
            &&& value.field("type"@) == Data::Text("message_end"@) || value.field("type"@)
                == Data::Text("agent_start"@) ==> frames.len() == 0
        }),
{
    pi_words();
}

// Compactions, checkpoints, children.

/// A compaction ends with the answer to it: completed if it succeeded, else failed.
pub proof fn compactions_end_with_their_answer(
    p: ProtocolView,
    s: ProgressView,
    value: Data,
    raw: Seq<char>,
    drained: Result<Seq<EventView>, FaultView>,
    id: u64,
)
    requires
        value.field("type"@) == Data::Text("response"@),
        value.field("command"@) == Data::Text("compact"@),
        p.compaction == Some(id),
        p.prompt != Some(id),
    ensures
        ({
            let (q, after, told) = received(p, s, value, raw, drained);
            let ended = call_number(value) == Some(id);
            &&& told is Ok
            &&& ended ==> q.compaction is None && told->Ok_0.len() == 2
            &&& ended && value.field("success"@) == Data::Bool(true) ==> told->Ok_0[1]
                == (EventView::Compacted { status: "completed"@ })
            &&& ended && value.field("success"@) != Data::Bool(true) ==> told->Ok_0[1]
                == (EventView::Compacted { status: "failed"@ })
            &&& !ended ==> q.compaction == Some(id)
        }),
{
    pi_words();
}

/// Every message that is listed is known from then on, and none is forgotten.
pub proof fn listed_messages_are_known(known: Seq<Seq<char>>, messages: Seq<Data>, at: int, id: Seq<char>)
    ensures
        known.contains(id) ==> users_known(known, messages).0.contains(id),
        0 <= at < messages.len() && messages[at].field("entryId"@) == Data::Text(id) ==> users_known(
            known,
            messages,
        ).0.contains(id),
        users_known(known, messages).1 == Some(id) ==> !known.contains(id) && exists|i: int|
            0 <= i < messages.len() && (#[trigger] messages[i]).field("entryId"@) == Data::Text(id),
        0 <= at < messages.len() && messages[at].field("entryId"@) == Data::Text(id)
            && !known.contains(id) ==> users_known(known, messages).1 is Some,
    decreases messages.len(),
{
    if messages.len() > 0 {
        let rest = messages.drop_last();
        listed_messages_are_known(known, rest, at, id);
        let before = users_known(known, rest).0;
        let all = users_known(known, messages).0;
        if before.contains(id) {
            let i = choose|i: int| 0 <= i < before.len() && before[i] == id;
            assert(all[i] == id);
        }
        if let Data::Text(last) = messages.last().field("entryId"@) {
            listed_messages_are_known(known, rest, at, last);
            if !before.contains(last) {
                assert(all[all.len() - 1] == last);
            }
        }
        if users_known(known, rest).1 == Some(id) {
            let i = choose|i: int|
                0 <= i < rest.len() && (#[trigger] rest[i]).field("entryId"@) == Data::Text(id);
            assert(messages[i] == rest[i]);
        } else if users_known(known, messages).1 == Some(id) {
            assert(messages[messages.len() - 1].field("entryId"@) == Data::Text(id));
        }
        if 0 <= at < messages.len() - 1 {
            assert(rest[at] == messages[at]);
        } else if at == messages.len() - 1 && messages[at].field("entryId"@) == Data::Text(id)
            && !known.contains(id) && users_known(known, rest).1 is None {
            nothing_new(known, rest);
        }
    }
}

proof fn nothing_new(known: Seq<Seq<char>>, messages: Seq<Data>)
    ensures
        users_known(known, messages).1 is None ==> users_known(known, messages).0 == known,
    decreases messages.len(),
{
    if messages.len() > 0 {
        nothing_new(known, messages.drop_last());
    }
}

/// A turn can be taken back to the first message that was not known before, if the messages were asked for
/// that and a request runs.
pub proof fn turns_are_marked_by_their_message(
    p: ProtocolView,
    s: ProgressView,
    value: Data,
    raw: Seq<char>,
    drained: Result<Seq<EventView>, FaultView>,
    messages: Seq<Data>,
    number: u64,
)
    requires
        value.field("type"@) == Data::Text("response"@),
        value.field("command"@) == Data::Text("get_fork_messages"@),
        value.field("success"@) == Data::Bool(true),
        value.field("data"@).field("messages"@) == Data::Array(messages),
        value.field("id"@) == Data::Text("checkpoint-"@ + decimal(number as nat)),
        call_number(value) is None,
    ensures
        ({
            let (q, after, told) = received(p, s, value, raw, drained);
            let (known, first) = users_known(p.known_users, messages);
            &&& told is Ok && after == s && q.known_users == known
            &&& first is Some && s.request is Some ==> told->Ok_0.len() == 2 && records(
                told->Ok_0[1],
                "checkpoint"@,
            ) && recorded(told->Ok_0[1]).field("kind"@) == Data::Text("entry"@) && recorded(
                told->Ok_0[1],
            ).field("id"@) == Data::Text(first->0) && recorded(told->Ok_0[1]).field("request_id"@)
                == Data::Text(s.request->0)
            &&& first is None || s.request is None ==> told->Ok_0.len() == 1
        }),
{
    pi_words();
    reveal_strlit("checkpoint-");
    let id = "checkpoint-"@ + decimal(number as nat);
    assert(id.take(11) =~= "checkpoint-"@);
}

/// A child that is asked for is one of the request that runs, with its task; one that is asked for in no
/// turn is refused.
pub proof fn children_are_asked_for_in_a_turn(
    p: ProtocolView,
    s: ProgressView,
    value: Data,
    raw: Seq<char>,
    drained: Result<Seq<EventView>, FaultView>,
)
    requires
        value.field("type"@) == Data::Text("cloudroom_child_request"@),
    ensures
        ({
            let (q, after, told) = received(p, s, value, raw, drained);
            &&& q == p && after == s
            &&& s.request is None || s.finished ==> told is Err
            &&& told matches Ok(list) ==> (list.len() == 1 && (list[0] matches
                EventView::ChildRequest(child) && Some(child.request) == s.request && Data::Text(
                child.id,
            ) == value.field("id"@) && Data::Text(child.prompt) == value.field("prompt"@)
                && Data::Text(child.tool_call_id) == value.field("tool_call_id"@)
                && 0 < child.id.len() && byte_len(child.id) <= 48 && byte_len(child.prompt) <= 32768))
        }),
{
    pi_words();
}

// Identity and forks.

/// The session is known by its first state, and must stay the same.
pub proof fn sessions_are_known_by_their_state(
    p: ProtocolView,
    s: ProgressView,
    value: Data,
    raw: Seq<char>,
    drained: Result<Seq<EventView>, FaultView>,
    id: Seq<char>,
    path: Seq<char>,
)
    requires
        value.field("type"@) == Data::Text("response"@),
        value.field("command"@) == Data::Text("get_state"@),
        value.field("success"@) == Data::Bool(true),
        value.field("data"@).field("sessionId"@) == Data::Text(id),
        value.field("data"@).field("sessionFile"@) == Data::Text(path),
        !p.forking,
        p.compaction is None,
        p.prompt is None,
        !p.accepted,
    ensures
        ({
            let (q, after, told) = received(p, s, value, raw, drained);
            let right = path == p.path && (p.expected is None || p.expected == Some(id));
            &&& told is Ok <==> right
            &&& right ==> q.expected == Some(id) && q.path == p.path
            &&& right && s.native is None ==> after.native == Some(id) && told->Ok_0.len() == 2
                && records(told->Ok_0[1], "native_identity"@) && recorded(told->Ok_0[1]).field("id"@)
                == Data::Text(id) && recorded(told->Ok_0[1]).field("path"@) == Data::Text(path)
            &&& right && s.native is Some ==> after == s && told->Ok_0.len() == 1
        }),
{
    pi_words();
}

/// A fork that was made is told after the rest of the history before it; the harness works in the new
/// session, at its beginning, from then on.
pub proof fn forks_are_told_after_their_past(
    p: ProtocolView,
    s: ProgressView,
    value: Data,
    raw: Seq<char>,
    rest: Seq<EventView>,
    id: Seq<char>,
    path: Seq<char>,
)
    requires
        value.field("type"@) == Data::Text("response"@),
        value.field("command"@) == Data::Text("get_state"@),
        value.field("success"@) == Data::Bool(true),
        value.field("data"@).field("sessionId"@) == Data::Text(id),
        value.field("data"@).field("sessionFile"@) == Data::Text(path),
        p.forking,
        p.compaction is None,
        p.prompt is None || call_number(value) is None,
        p.expected != Some(id),
    ensures
        ({
            let (q, after, told) = received(p, s, value, raw, Ok(rest));
            &&& told is Ok
            &&& !q.forking && q.expected == Some(id) && q.path == path && q.prompt is None
            &&& q.capture.offset == 0 && q.capture.cursor is Null && !q.capture.initialized
            &&& after.native == Some(id) && after.request is None && after.finished
            &&& told->Ok_0.len() == rest.len() + 2
            &&& forall|i: int| 0 <= i < rest.len() ==> told->Ok_0[i + 1] == #[trigger] rest[i]
            &&& records(told->Ok_0.last(), "rewind_ready"@)
            &&& recorded(told->Ok_0.last()).field("id"@) == Data::Text(id)
            &&& recorded(told->Ok_0.last()).field("path"@) == Data::Text(path)
        }),
{
    pi_words();
}

/// A fork that the harness refuses or gives up is dropped; the session is not replaced by itself.
pub proof fn refused_forks_are_dropped(
    p: ProtocolView,
    s: ProgressView,
    value: Data,
    raw: Seq<char>,
    drained: Result<Seq<EventView>, FaultView>,
)
    requires
        value.field("type"@) == Data::Text("response"@),
        value.field("command"@) == Data::Text("fork"@),
        p.compaction is None,
        p.prompt is None || call_number(value) is None,
    ensures
        ({
            let (q, after, told) = received(p, s, value, raw, drained);
            let refused = value.field("success"@) != Data::Bool(true) || value.field("data"@).field(
                "cancelled"@,
            ) == Data::Bool(true);
            &&& told is Ok && after == s
            &&& refused ==> !q.forking
            &&& !refused ==> q.forking == p.forking
        }),
{
    pi_words();
}

// Calls and answers.

/// A call is written with its number and its method; a prompt, a compaction, a fork and an interruption are
/// remembered.
pub proof fn calls_are_written_and_remembered(
    p: ProtocolView,
    id: u64,
    method: Seq<char>,
    fields: Map<Seq<char>, Data>,
    begins: bool,
    key: Seq<char>,
)
    ensures
        ({
            let (q, frame) = encoded(p, id, method, Data::Object(fields), begins);
            &&& frame.field("id"@) == Data::Text(decimal(id as nat))
            &&& frame.field("type"@) == Data::Text(method)
            &&& key != "id"@ && key != "type"@ && fields.dom().contains(key) ==> frame.field(key)
                == fields[key]
            &&& begins ==> q.prompt == Some(id) && !q.accepted
            &&& begins && method != "abort"@ ==> !q.interrupting
            &&& !begins ==> q.prompt == p.prompt && q.accepted == p.accepted
            &&& method == "abort"@ ==> q.interrupting
            &&& !begins && method != "abort"@ ==> q.interrupting == p.interrupting
            &&& method == "fork"@ ==> q.forking
            &&& method != "fork"@ ==> q.forking == p.forking
            &&& method == "compact"@ ==> q.compaction == Some(id)
            &&& method != "compact"@ ==> q.compaction == p.compaction
        }),
{
    pi_words();
}

/// An answer is that of the call with its number: what the harness gave, or that it refused.
pub proof fn answers_are_those_of_their_call(value: Data, id: u64)
    requires
        value.field("type"@) == Data::Text("response"@),
        call_number(value) == Some(id),
    ensures
        answer_in(value) matches Some((call, answer)) && call == id && (value.field("success"@)
            == Data::Bool(true) ==> answer == Ok::<Data, FaultView>(value.field("data"@))) && (
        value.field("success"@) != Data::Bool(true) ==> answer is Err),
{
    pi_words();
}

/// Only lines that answer are answers.
pub proof fn other_lines_are_no_answers(value: Data)
    requires
        value.field("type"@) != Data::Text("response"@),
    ensures
        answer_in(value) is None,
{
}

/// A session is the one that was asked for, with the file and the model that were asked for, and at rest.
pub proof fn started_sessions_are_the_right_ones(
    state: Data,
    path: Seq<char>,
    model: Seq<char>,
    provider: Seq<char>,
    saved: Option<Seq<char>>,
    id: Seq<char>,
)
    ensures
        started_id(state, path, model, Some(provider), saved) == Ok::<Seq<char>, FaultView>(id)
            <==> state.field("sessionId"@) == Data::Text(id) && state.field("sessionFile"@)
            == Data::Text(path) && state.field("model"@).field("id"@) == Data::Text(model)
            && state.field("model"@).field("provider"@) == Data::Text(provider) && state.field(
            "isStreaming"@,
        ) == Data::Bool(false) && state.field("isCompacting"@) == Data::Bool(false) && (saved is None
            || saved == Some(id)),
{
}

/// The level that is asked for as none is off for the harness, and back; each other keeps its name.
pub proof fn levels_keep_their_names(level: Seq<char>, state: Data)
    requires
        state.field("thinkingLevel"@) == Data::Text(level),
    ensures
        thinking_level("none"@) == "off"@,
        level != "none"@ ==> thinking_level(level) == level,
        level == "off"@ && pi_reasoning_level("none"@) ==> baseline_level(state) == Some("none"@),
        level != "off"@ && pi_reasoning_level(level) ==> baseline_level(state) == Some(level),
        level != "off"@ && !pi_reasoning_level(level) ==> baseline_level(state) is None,
{
    pi_words();
}

/// A fork is made before the entry that is named.
pub proof fn forks_are_asked_at_their_entry(input: Data, id: Seq<char>)
    ensures
        input.field("before"@) == Data::Text(id) ==> fork_params(input).field("entryId"@)
            == Data::Text(id),
        !(input.field("before"@) is Text) && input.field("entry_id"@) == Data::Text(id)
            ==> fork_params(input).field("entryId"@) == Data::Text(id),
{
    pi_words();
    reveal_with_fuel(super::codex::first_field, 4);
    let keys = seq!["before"@, "entry_id"@, "entryId"@];
    assert(keys.drop_last() =~= seq!["before"@, "entry_id"@]);
    assert(keys.drop_last().drop_last() =~= seq!["before"@]);
    assert(keys.drop_last().drop_last().drop_last() =~= Seq::<Seq<char>>::empty());
}

/// A prompt says its text, and names each file that is attached and no image.
pub proof fn files_are_named(text: Seq<char>, attachments: Seq<Data>, last: Data, path: Seq<char>)
    requires
        last.field("path"@) == Data::Text(path),
    ensures
        with_files(text, Seq::empty()) == text,
        last.field("kind"@) == Data::Text("image"@) ==> with_files(text, attachments.push(last))
            == with_files(text, attachments),
        last.field("kind"@) != Data::Text("image"@) ==> with_files(text, attachments.push(last))
            == with_files(text, attachments) + "\n[Attached file: "@ + path + "]"@,
{
    assert(attachments.push(last).drop_last() =~= attachments);
}

/// The harness has ended once its queue, its shell and its agent are confirmed to be closed, each by its own
/// answer.
pub proof fn ends_are_confirmed_one_by_one(p: ProtocolView, value: Data)
    requires
        value.field("type"@) == Data::Text("response"@),
        value.field("success"@) == Data::Bool(true),
    ensures
        confirmed(p, value).queue_closed == (p.queue_closed || value.field("id"@) == Data::Text(
            "close-queue"@,
        )),
        confirmed(p, value).shell_closed == (p.shell_closed || value.field("id"@) == Data::Text(
            "close-bash"@,
        )),
        confirmed(p, value).agent_closed == (p.agent_closed || value.field("id"@) == Data::Text(
            "close-agent"@,
        )),
        confirmed(p, value).prompt == p.prompt,
{
}

/// A conversation begins with nothing closed, asked or accepted.
pub proof fn conversations_begin_fresh(path: Seq<char>, saved: Option<Seq<char>>, cursor: Data)
    ensures
        opened(path, saved, cursor).path == path,
        opened(path, saved, cursor).expected == saved,
        opened(path, saved, cursor).capture.cursor == cursor,
        opened(path, saved, cursor).prompt is None,
        !opened(path, saved, cursor).accepted,
        !opened(path, saved, cursor).queue_closed,
        !opened(path, saved, cursor).shell_closed,
        !opened(path, saved, cursor).agent_closed,
{
}

// Histories.

/// An entry that comes next is told, word for word, and is where reading goes on.
pub proof fn next_entries_are_told(
    c: CaptureView,
    session: Seq<char>,
    raw: Seq<char>,
    entry: Data,
    id: Seq<char>,
)
    requires
        c.initialized,
        byte_len(raw) <= MAX_LINE,
        finishes(raw, "\n"@),
        text_read(raw) == Ok::<Data, FaultView>(entry),
        entry.field("type"@) != Data::Text("session"@),
        entry.field("id"@) == Data::Text(id),
    ensures
        ({
            let (after, told) = captured(c, session, seq![raw]);
            &&& told is Ok && told->Ok_0.len() == 1
            &&& told->Ok_0[0] matches EventView::Record { kind, data, native } && kind
                == "native_record"@ && native == Some(raw) && data.field("cursor"@).field("entry"@)
                == Data::Text(id)
            &&& after.cursor.field("entry"@) == Data::Text(id)
            &&& after.cursor.field("line"@) == Data::Text(raw)
            &&& after.anchor == raw
            &&& after.initialized
            &&& c.offset + byte_len(raw) <= u64::MAX ==> after.offset == c.offset + byte_len(raw)
        }),
{
    pi_words();
    let lines = seq![raw];
    assert(lines.drop_last() =~= Seq::<Seq<char>>::empty());
    assert(lines.last() == raw);
    reveal_with_fuel(super::pi::batch, 3);
}

/// A line that is not finished is left for later.
pub proof fn unfinished_entries_wait(c: CaptureView, session: Seq<char>, raw: Seq<char>)
    requires
        c.initialized,
        byte_len(raw) <= MAX_LINE,
        !finishes(raw, "\n"@),
    ensures
        captured(c, session, seq![raw]).1 == Ok::<Seq<EventView>, FaultView>(Seq::empty()),
        captured(c, session, seq![raw]).0.offset == c.offset,
        captured(c, session, seq![raw]).0.cursor == c.cursor,
{
    let lines = seq![raw];
    assert(lines.drop_last() =~= Seq::<Seq<char>>::empty());
    assert(lines.last() == raw);
    reveal_with_fuel(super::pi::batch, 3);
}

} // verus!
