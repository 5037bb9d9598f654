//! What is recorded and told of a conversation with Cursor or fx, line by line, and how a chat is driven.
use super::cursor::{
    answer_in, concluded, control_refused, encoded, first_record, model_offered, prompt_params,
    prompt_text, received, snapshot_event, with_files, with_line, Flavor, ProtocolView,
    RestartView, TerminalView,
};
use super::cursor_print::{
    handled, heard, opened_frame, translated, turn_answer, ActionView, DriverView, HearingView,
};
use super::fx::model_request;
use super::{EventView, ProgressView};
use crate::fault::FaultView;
use crate::json::{Data, Number};
use crate::text::finishes;
use crate::wire::bytes_read;
use vstd::prelude::*;

verus! {

proof fn cursor_words()
    ensures
        "id"@.len() == 2 && "id"@[0] == 'i',
        "fx"@.len() == 2 && "fx"@[0] == 'f',
        "cwd"@.len() == 3,
        "text"@.len() == 4 && "text"@[2] == 'x',
        "type"@.len() == 4 && "type"@[2] == 'p',
        "tool"@.len() == 4 && "tool"@[2] == 'o',
        "kind"@.len() == 4 && "kind"@[2] == 'n',
        "code"@.len() == 4 && "code"@[2] == 'd',
        "path"@.len() == 4 && "path"@[2] == 't',
        "error"@.len() == 5 && "error"@[0] == 'e',
        "delta"@.len() == 5 && "delta"@[0] == 'd',
        "index"@.len() == 5 && "index"@[0] == 'i',
        "model"@.len() == 5 && "model"@[0] == 'm',
        "value"@.len() == 5 && "value"@[0] == 'v',
        "title"@.len() == 5 && "title"@[0] == 't',
        "method"@.len() == 6 && "method"@[3] == 'h' && "method"@[0] == 'm',
        "params"@.len() == 6 && "params"@[3] == 'a' && "params"@[0] == 'p',
        "result"@.len() == 6 && "result"@[3] == 'u' && "result"@[0] == 'r',
        "update"@.len() == 6 && "update"@[3] == 'a' && "update"@[0] == 'u',
        "cursor"@.len() == 6 && "cursor"@[3] == 's' && "cursor"@[0] == 'c',
        "status"@.len() == 6 && "status"@[3] == 't' && "status"@[0] == 's',
        "failed"@.len() == 6 && "failed"@[3] == 'l' && "failed"@[0] == 'f',
        "reason"@.len() == 6 && "reason"@[3] == 's' && "reason"@[0] == 'r',
        "record"@.len() == 6 && "record"@[3] == 'o' && "record"@[0] == 'r',
        "prompt"@.len() == 6 && "prompt"@[3] == 'm' && "prompt"@[0] == 'p',
        "models"@.len() == 6 && "models"@[3] == 'e' && "models"@[0] == 'm',
        "content"@.len() == 7 && "content"@[2] == 'n' && "content"@[1] == 'o',
        "harness"@.len() == 7 && "harness"@[2] == 'r' && "harness"@[1] == 'a',
        "item_id"@.len() == 7 && "item_id"@[2] == 'e' && "item_id"@[1] == 't',
        "outcome"@.len() == 7 && "outcome"@[2] == 't' && "outcome"@[1] == 'u',
        "options"@.len() == 7 && "options"@[2] == 't' && "options"@[1] == 'p',
        "skipped"@.len() == 7 && "skipped"@[2] == 'i' && "skipped"@[1] == 'k',
        "jsonrpc"@.len() == 7 && "jsonrpc"@[2] == 'o' && "jsonrpc"@[1] == 's',
        "message"@.len() == 7 && "message"@[2] == 's' && "message"@[1] == 'e',
        "subtype"@.len() == 7 && "subtype"@[2] == 'b' && "subtype"@[1] == 'u',
        "started"@.len() == 7 && "started"@[2] == 'a' && "started"@[1] == 't',
        "success"@.len() == 7 && "success"@[2] == 'c' && "success"@[1] == 'u',
        "default"@.len() == 7 && "default"@[2] == 'f' && "default"@[1] == 'e',
        "call_id"@.len() == 7 && "call_id"@[2] == 'l' && "call_id"@[1] == 'a',
        "end_turn"@.len() == 8 && "end_turn"@[2] == 'd',
        "selected"@.len() == 8 && "selected"@[2] == 'l',
        "optionId"@.len() == 8 && "optionId"@[2] == 't',
        "rejected"@.len() == 8 && "rejected"@[2] == 'j',
        "snapshot"@.len() == 8 && "snapshot"@[2] == 'a',
        "complete"@.len() == 8 && "complete"@[2] == 'm',
        "configId"@.len() == 8 && "configId"@[2] == 'n',
        "thinking"@.len() == 8 && "thinking"@[2] == 'i',
        "rawInput"@.len() == 8 && "rawInput"@[2] == 'w',
        "is_error"@.len() == 8 && "is_error"@[2] == '_',
        "sessionId"@.len() == 9 && "sessionId"@[2] == 's' && "sessionId"@[0] == 's',
        "tool_call"@.len() == 9 && "tool_call"@[2] == 'o' && "tool_call"@[0] == 't',
        "item_type"@.len() == 9 && "item_type"@[2] == 'e' && "item_type"@[0] == 'i',
        "reasoning"@.len() == 9 && "reasoning"@[2] == 'a' && "reasoning"@[0] == 'r',
        "completed"@.len() == 9 && "completed"@[2] == 'm' && "completed"@[0] == 'c',
        "cancelled"@.len() == 9 && "cancelled"@[2] == 'n' && "cancelled"@[0] == 'c',
        "assistant"@.len() == 9 && "assistant"@[2] == 's' && "assistant"@[0] == 'a',
        "rawOutput"@.len() == 9 && "rawOutput"@[2] == 'w' && "rawOutput"@[0] == 'r',
        "text_delta"@.len() == 10 && "text_delta"@[4] == '_',
        "request_id"@.len() == 10 && "request_id"@[4] == 'e',
        "toolCallId"@.len() == 10 && "toolCallId"@[4] == 'C',
        "stopReason"@.len() == 10 && "stopReason"@[4] == 'R',
        "allow_once"@.len() == 10 && "allow_once"@[4] == 'w',
        "initialize"@.len() == 10 && "initialize"@[4] == 'i',
        "session/new"@.len() == 11 && "session/new"@[6] == 'n',
        "cursor/task"@.len() == 11 && "cursor/task"@[6] == '/',
        "interrupted"@.len() == 11 && "interrupted"@[6] == 'u',
        "loadSession"@.len() == 11 && "loadSession"@[6] == 's',
        "in_progress"@.len() == 11 && "in_progress"@[6] == 'g',
        "attachments"@.len() == 11 && "attachments"@[6] == 'm',
        "session/load"@.len() == 12 && "session/load"@[0] == 's',
        "item_started"@.len() == 12 && "item_started"@[0] == 'i',
        "agentMessage"@.len() == 12 && "agentMessage"@[0] == 'a',
        "native_event"@.len() == 12 && "native_event"@[0] == 'n',
        "currentValue"@.len() == 12 && "currentValue"@[0] == 'c',
        "sessionUpdate"@.len() == 13 && "sessionUpdate"@[0] == 's',
        "tool_snapshot"@.len() == 13 && "tool_snapshot"@[0] == 't',
        "native_record"@.len() == 13 && "native_record"@[0] == 'n',
        "configOptions"@.len() == 13 && "configOptions"@[0] == 'c',
        "session/update"@.len() == 14 && "session/update"@[9] == 'p',
        "session/cancel"@.len() == 14 && "session/cancel"@[9] == 'a',
        "session/prompt"@.len() == 14 && "session/prompt"@[9] == 'r',
        "item_completed"@.len() == 14 && "item_completed"@[9] == 'l',
        "thinking_delta"@.len() == 14 && "thinking_delta"@[9] == 'd',
        "cloudroom/steer"@.len() == 15 && "cloudroom/steer"@[0] == 'c',
        "native_identity"@.len() == 15 && "native_identity"@[0] == 'n',
        "protocolVersion"@.len() == 15 && "protocolVersion"@[0] == 'p',
        "availableModels"@.len() == 15 && "availableModels"@[0] == 'a',
        "tool_call_update"@.len() == 16,
        "agentCapabilities"@.len() == 17,
        "cursor/create_plan"@.len() == 18,
        "cursor/ask_question"@.len() == 19 && "cursor/ask_question"@[7] == 'a',
        "cursor/update_todos"@.len() == 19 && "cursor/update_todos"@[7] == 'u',
        "agent_message_chunk"@.len() == 19 && "agent_message_chunk"@[7] == 'e',
        "agent_thought_chunk"@.len() == 19 && "agent_thought_chunk"@[7] == 'h',
        "cursor/generate_image"@.len() == 21,
        "session/set_config_option"@.len() == 25,
        "session/request_permission"@.len() == 26,
{
    reveal_strlit("id");
    reveal_strlit("fx");
    reveal_strlit("cwd");
    reveal_strlit("text");
    reveal_strlit("type");
    reveal_strlit("tool");
    reveal_strlit("kind");
    reveal_strlit("code");
    reveal_strlit("path");
    reveal_strlit("error");
    reveal_strlit("delta");
    reveal_strlit("index");
    reveal_strlit("model");
    reveal_strlit("value");
    reveal_strlit("title");
    reveal_strlit("method");
    reveal_strlit("params");
    reveal_strlit("result");
    reveal_strlit("update");
    reveal_strlit("cursor");
    reveal_strlit("status");
    reveal_strlit("failed");
    reveal_strlit("reason");
    reveal_strlit("record");
    reveal_strlit("prompt");
    reveal_strlit("models");
    reveal_strlit("content");
    reveal_strlit("harness");
    reveal_strlit("item_id");
    reveal_strlit("outcome");
    reveal_strlit("options");
    reveal_strlit("skipped");
    reveal_strlit("jsonrpc");
    reveal_strlit("message");
    reveal_strlit("subtype");
    reveal_strlit("started");
    reveal_strlit("success");
    reveal_strlit("default");
    reveal_strlit("call_id");
    reveal_strlit("end_turn");
    reveal_strlit("selected");
    reveal_strlit("optionId");
    reveal_strlit("rejected");
    reveal_strlit("snapshot");
    reveal_strlit("complete");
    reveal_strlit("configId");
    reveal_strlit("thinking");
    reveal_strlit("rawInput");
    reveal_strlit("is_error");
    reveal_strlit("sessionId");
    reveal_strlit("tool_call");
    reveal_strlit("item_type");
    reveal_strlit("reasoning");
    reveal_strlit("completed");
    reveal_strlit("cancelled");
    reveal_strlit("assistant");
    reveal_strlit("rawOutput");
    reveal_strlit("text_delta");
    reveal_strlit("request_id");
    reveal_strlit("toolCallId");
    reveal_strlit("stopReason");
    reveal_strlit("allow_once");
    reveal_strlit("initialize");
    reveal_strlit("session/new");
    reveal_strlit("cursor/task");
    reveal_strlit("interrupted");
    reveal_strlit("loadSession");
    reveal_strlit("in_progress");
    reveal_strlit("attachments");
    reveal_strlit("session/load");
    reveal_strlit("item_started");
    reveal_strlit("agentMessage");
    reveal_strlit("native_event");
    reveal_strlit("currentValue");
    reveal_strlit("sessionUpdate");
    reveal_strlit("tool_snapshot");
    reveal_strlit("native_record");
    reveal_strlit("configOptions");
    reveal_strlit("session/update");
    reveal_strlit("session/cancel");
    reveal_strlit("session/prompt");
    reveal_strlit("item_completed");
    reveal_strlit("thinking_delta");
    reveal_strlit("cloudroom/steer");
    reveal_strlit("native_identity");
    reveal_strlit("protocolVersion");
    reveal_strlit("availableModels");
    reveal_strlit("tool_call_update");
    reveal_strlit("agentCapabilities");
    reveal_strlit("cursor/create_plan");
    reveal_strlit("cursor/ask_question");
    reveal_strlit("cursor/update_todos");
    reveal_strlit("agent_message_chunk");
    reveal_strlit("agent_thought_chunk");
    reveal_strlit("cursor/generate_image");
    reveal_strlit("session/set_config_option");
    reveal_strlit("session/request_permission");
    assert("id"@.len() == 2 && "id"@[0] == 'i');
    assert("fx"@.len() == 2 && "fx"@[0] == 'f');
    assert("cwd"@.len() == 3);
    assert("text"@.len() == 4 && "text"@[2] == 'x');
    assert("type"@.len() == 4 && "type"@[2] == 'p');
    assert("tool"@.len() == 4 && "tool"@[2] == 'o');
    assert("kind"@.len() == 4 && "kind"@[2] == 'n');
    assert("code"@.len() == 4 && "code"@[2] == 'd');
    assert("path"@.len() == 4 && "path"@[2] == 't');
    assert("error"@.len() == 5 && "error"@[0] == 'e');
    assert("delta"@.len() == 5 && "delta"@[0] == 'd');
    assert("index"@.len() == 5 && "index"@[0] == 'i');
    assert("model"@.len() == 5 && "model"@[0] == 'm');
    assert("value"@.len() == 5 && "value"@[0] == 'v');
    assert("title"@.len() == 5 && "title"@[0] == 't');
    assert("method"@.len() == 6 && "method"@[3] == 'h' && "method"@[0] == 'm');
    assert("params"@.len() == 6 && "params"@[3] == 'a' && "params"@[0] == 'p');
    assert("result"@.len() == 6 && "result"@[3] == 'u' && "result"@[0] == 'r');
    assert("update"@.len() == 6 && "update"@[3] == 'a' && "update"@[0] == 'u');
    assert("cursor"@.len() == 6 && "cursor"@[3] == 's' && "cursor"@[0] == 'c');
    assert("status"@.len() == 6 && "status"@[3] == 't' && "status"@[0] == 's');
    assert("failed"@.len() == 6 && "failed"@[3] == 'l' && "failed"@[0] == 'f');
    assert("reason"@.len() == 6 && "reason"@[3] == 's' && "reason"@[0] == 'r');
    assert("record"@.len() == 6 && "record"@[3] == 'o' && "record"@[0] == 'r');
    assert("prompt"@.len() == 6 && "prompt"@[3] == 'm' && "prompt"@[0] == 'p');
    assert("models"@.len() == 6 && "models"@[3] == 'e' && "models"@[0] == 'm');
    assert("content"@.len() == 7 && "content"@[2] == 'n' && "content"@[1] == 'o');
    assert("harness"@.len() == 7 && "harness"@[2] == 'r' && "harness"@[1] == 'a');
    assert("item_id"@.len() == 7 && "item_id"@[2] == 'e' && "item_id"@[1] == 't');
    assert("outcome"@.len() == 7 && "outcome"@[2] == 't' && "outcome"@[1] == 'u');
    assert("options"@.len() == 7 && "options"@[2] == 't' && "options"@[1] == 'p');
    assert("skipped"@.len() == 7 && "skipped"@[2] == 'i' && "skipped"@[1] == 'k');
    assert("jsonrpc"@.len() == 7 && "jsonrpc"@[2] == 'o' && "jsonrpc"@[1] == 's');
    assert("message"@.len() == 7 && "message"@[2] == 's' && "message"@[1] == 'e');
    assert("subtype"@.len() == 7 && "subtype"@[2] == 'b' && "subtype"@[1] == 'u');
    assert("started"@.len() == 7 && "started"@[2] == 'a' && "started"@[1] == 't');
    assert("success"@.len() == 7 && "success"@[2] == 'c' && "success"@[1] == 'u');
    assert("default"@.len() == 7 && "default"@[2] == 'f' && "default"@[1] == 'e');
    assert("call_id"@.len() == 7 && "call_id"@[2] == 'l' && "call_id"@[1] == 'a');
    assert("end_turn"@.len() == 8 && "end_turn"@[2] == 'd');
    assert("selected"@.len() == 8 && "selected"@[2] == 'l');
    assert("optionId"@.len() == 8 && "optionId"@[2] == 't');
    assert("rejected"@.len() == 8 && "rejected"@[2] == 'j');
    assert("snapshot"@.len() == 8 && "snapshot"@[2] == 'a');
    assert("complete"@.len() == 8 && "complete"@[2] == 'm');
    assert("configId"@.len() == 8 && "configId"@[2] == 'n');
    assert("thinking"@.len() == 8 && "thinking"@[2] == 'i');
    assert("rawInput"@.len() == 8 && "rawInput"@[2] == 'w');
    assert("is_error"@.len() == 8 && "is_error"@[2] == '_');
    assert("sessionId"@.len() == 9 && "sessionId"@[2] == 's' && "sessionId"@[0] == 's');
    assert("tool_call"@.len() == 9 && "tool_call"@[2] == 'o' && "tool_call"@[0] == 't');
    assert("item_type"@.len() == 9 && "item_type"@[2] == 'e' && "item_type"@[0] == 'i');
    assert("reasoning"@.len() == 9 && "reasoning"@[2] == 'a' && "reasoning"@[0] == 'r');
    assert("completed"@.len() == 9 && "completed"@[2] == 'm' && "completed"@[0] == 'c');
    assert("cancelled"@.len() == 9 && "cancelled"@[2] == 'n' && "cancelled"@[0] == 'c');
    assert("assistant"@.len() == 9 && "assistant"@[2] == 's' && "assistant"@[0] == 'a');
    assert("rawOutput"@.len() == 9 && "rawOutput"@[2] == 'w' && "rawOutput"@[0] == 'r');
    assert("text_delta"@.len() == 10 && "text_delta"@[4] == '_');
    assert("request_id"@.len() == 10 && "request_id"@[4] == 'e');
    assert("toolCallId"@.len() == 10 && "toolCallId"@[4] == 'C');
    assert("stopReason"@.len() == 10 && "stopReason"@[4] == 'R');
    assert("allow_once"@.len() == 10 && "allow_once"@[4] == 'w');
    assert("initialize"@.len() == 10 && "initialize"@[4] == 'i');
    assert("session/new"@.len() == 11 && "session/new"@[6] == 'n');
    assert("cursor/task"@.len() == 11 && "cursor/task"@[6] == '/');
    assert("interrupted"@.len() == 11 && "interrupted"@[6] == 'u');
    assert("loadSession"@.len() == 11 && "loadSession"@[6] == 's');
    assert("in_progress"@.len() == 11 && "in_progress"@[6] == 'g');
    assert("attachments"@.len() == 11 && "attachments"@[6] == 'm');
    assert("session/load"@.len() == 12 && "session/load"@[0] == 's');
    assert("item_started"@.len() == 12 && "item_started"@[0] == 'i');
    assert("agentMessage"@.len() == 12 && "agentMessage"@[0] == 'a');
    assert("native_event"@.len() == 12 && "native_event"@[0] == 'n');
    assert("currentValue"@.len() == 12 && "currentValue"@[0] == 'c');
    assert("sessionUpdate"@.len() == 13 && "sessionUpdate"@[0] == 's');
    assert("tool_snapshot"@.len() == 13 && "tool_snapshot"@[0] == 't');
    assert("native_record"@.len() == 13 && "native_record"@[0] == 'n');
    assert("configOptions"@.len() == 13 && "configOptions"@[0] == 'c');
    assert("session/update"@.len() == 14 && "session/update"@[9] == 'p');
    assert("session/cancel"@.len() == 14 && "session/cancel"@[9] == 'a');
    assert("session/prompt"@.len() == 14 && "session/prompt"@[9] == 'r');
    assert("item_completed"@.len() == 14 && "item_completed"@[9] == 'l');
    assert("thinking_delta"@.len() == 14 && "thinking_delta"@[9] == 'd');
    assert("cloudroom/steer"@.len() == 15 && "cloudroom/steer"@[0] == 'c');
    assert("native_identity"@.len() == 15 && "native_identity"@[0] == 'n');
    assert("protocolVersion"@.len() == 15 && "protocolVersion"@[0] == 'p');
    assert("availableModels"@.len() == 15 && "availableModels"@[0] == 'a');
    assert("tool_call_update"@.len() == 16);
    assert("agentCapabilities"@.len() == 17);
    assert("cursor/create_plan"@.len() == 18);
    assert("cursor/ask_question"@.len() == 19 && "cursor/ask_question"@[7] == 'a');
    assert("cursor/update_todos"@.len() == 19 && "cursor/update_todos"@[7] == 'u');
    assert("agent_message_chunk"@.len() == 19 && "agent_message_chunk"@[7] == 'e');
    assert("agent_thought_chunk"@.len() == 19 && "agent_thought_chunk"@[7] == 'h');
    assert("cursor/generate_image"@.len() == 21);
    assert("session/set_config_option"@.len() == 25);
    assert("session/request_permission"@.len() == 26);
}
/// What an event records of a kind.
pub open spec fn records(event: EventView, kind: Seq<char>) -> bool {
    event matches EventView::Record { kind: k, .. } && k == kind
}

/// What an event that is a record holds.
pub open spec fn recorded(event: EventView) -> Data {
    match event {
        EventView::Record { data, .. } => data,
        _ => Data::Null,
    }
}

/// The name of the harness.
pub open spec fn named(flavor: Flavor) -> Seq<char> {
    match flavor {
        Flavor::Cursor => "cursor"@,
        Flavor::Fx => "fx"@,
    }
}

proof fn records_are_found(told: Seq<EventView>, at: int)
    ensures
        0 <= at < told.len() && told[at] is Record ==> first_record(told) is Some,
        first_record(told) matches Some(i) ==> 0 <= i < told.len() && told[i] is Record,
    decreases told.len(),
{
    if told.len() > 0 {
        records_are_found(told.drop_last(), at);
        if let Some(i) = first_record(told.drop_last()) {
            assert(told.drop_last()[i] == told[i]);
        }
        if 0 <= at < told.len() - 1 {
            assert(told.drop_last()[at] == told[at]);
        }
    }
}

proof fn lines_leave_what_is_told(
    told: Seq<EventView>,
    raw: Seq<char>,
    flavor: Flavor,
    request: Option<Seq<char>>,
    at: int,
)
    requires
        0 <= at < told.len(),
        told[at] is Record,
    ensures
        with_line(told, raw, flavor, request).len() == told.len(),
        forall|i: int|
            0 <= i < told.len() ==> recorded(#[trigger] with_line(told, raw, flavor, request)[i])
                == recorded(told[i]),
        forall|i: int, kind: Seq<char>|
            0 <= i < told.len() ==> #[trigger] records(
                with_line(told, raw, flavor, request)[i],
                kind,
            ) == records(told[i], kind),
        forall|i: int|
            0 <= i < told.len() && !(told[i] is Record) ==> #[trigger] with_line(
                told,
                raw,
                flavor,
                request,
            )[i] == told[i],
{
    records_are_found(told, at);
}

/// A line that brings something of the turn that runs.
pub open spec fn updates_the_turn(p: ProtocolView, s: ProgressView, value: Data, kind: Seq<char>) -> bool {
    &&& value.field("method"@) == Data::Text("session/update"@)
    &&& value.get("id"@) is None
    &&& p.prompt is Some
    &&& p.opening is None
    &&& s.native is Some
    &&& s.started
    &&& value.field("params"@).field("sessionId"@) == Data::Text(s.native->0)
    &&& value.field("params"@).field("update"@).field("sessionUpdate"@) == Data::Text(kind)
}

/// What the agent says and thinks is recorded piece by piece, of one item, and is gathered for its end; the
/// first piece begins the item.
pub proof fn pieces_are_recorded_and_gathered(
    p: ProtocolView,
    s: ProgressView,
    value: Data,
    raw: Seq<char>,
    kind: Seq<char>,
    text: Seq<char>,
)
    requires
        kind == "agent_message_chunk"@ || kind == "agent_thought_chunk"@,
        updates_the_turn(p, s, value, kind),
        value.field("params"@).field("update"@).field("content"@).field("text"@) == Data::Text(text),
    ensures
        ({
            let (q, after, told) = received(p, s, value, raw);
            let spoken = kind == "agent_message_chunk"@;
            let before = if spoken { p.text } else { p.thinking };
            let last = told->Ok_0.last();
            &&& told is Ok && after == s
            &&& told->Ok_0.len() == if before.len() == 0 { 2int } else { 1int }
            &&& spoken ==> records(last, "text_delta"@) && q.text == p.text + text && q.thinking
                == p.thinking
            &&& !spoken ==> records(last, "thinking_delta"@) && q.thinking == p.thinking + text
                && q.text == p.text
            &&& recorded(last).field("delta"@) == Data::Text(text)
            &&& recorded(last).field("harness"@) == Data::Text(named(p.flavor))
            &&& s.request is Some ==> recorded(last).field("request_id"@) == Data::Text(s.request->0)
            &&& before.len() == 0 ==> records(told->Ok_0[0], "item_started"@) && recorded(
                told->Ok_0[0],
            ).field("item_id"@) == recorded(last).field("item_id"@)
            &&& before.len() == 0 && spoken ==> recorded(told->Ok_0[0]).field("item_type"@)
                == Data::Text("agentMessage"@)
            &&& before.len() == 0 && !spoken ==> recorded(told->Ok_0[0]).field("item_type"@)
                == Data::Text("reasoning"@)
        }),
{
    cursor_words();
    let fresh = ProtocolView { responses: Seq::empty(), acknowledgement: None, ..p };
    let b = super::cursor::updated(fresh, s, value);
    let told = b.told->Ok_0;
    assert(Seq::<EventView>::empty() + told + Seq::<EventView>::empty() =~= told);
    lines_leave_what_is_told(told, raw, p.flavor, s.request, told.len() - 1);
}

/// What a tool does is recorded with all that is known of it, by its call: begun, gone on, or ended; a tool
/// that has ended has changed the history.
pub proof fn tools_are_recorded(
    p: ProtocolView,
    s: ProgressView,
    value: Data,
    raw: Seq<char>,
    id: Seq<char>,
    fields: Map<Seq<char>, Data>,
    first: bool,
)
    requires
        updates_the_turn(
            p,
            s,
            value,
            if first {
                "tool_call"@
            } else {
                "tool_call_update"@
            },
        ),
        value.field("params"@).field("update"@) == Data::Object(fields),
        Data::Object(fields).field("toolCallId"@) == Data::Text(id),
        !p.tools.contains_key(id),
        p.text.len() == 0,
        p.thinking.len() == 0,
    ensures
        ({
            let (q, after, told) = received(p, s, value, raw);
            let status = Data::Object(fields).field("status"@);
            let done = status == Data::Text("completed"@) || status == Data::Text("failed"@) || status
                == Data::Text("cancelled"@);
            &&& told is Ok && told->Ok_0.len() == 1 && after == s
            &&& done ==> records(told->Ok_0[0], "item_completed"@) && q.dirty
            &&& !done && first ==> records(told->Ok_0[0], "item_started"@)
            &&& !done && !first ==> records(told->Ok_0[0], "tool_snapshot"@)
            &&& !done ==> q.dirty == p.dirty
            &&& recorded(told->Ok_0[0]).field("item_id"@) == Data::Text(id)
            &&& recorded(told->Ok_0[0]).field("tool"@) == Data::Object(fields)
            &&& q.tools.contains_key(id) && q.tools[id] == Data::Object(fields)
        }),
{
    cursor_words();
    let fresh = ProtocolView { responses: Seq::empty(), acknowledgement: None, ..p };
    let b = super::cursor::updated(fresh, s, value);
    let none = Map::<Seq<char>, Data>::empty();
    assert(none.union_prefer_right(fields) =~= fields);
    let told = b.told->Ok_0;
    assert(Seq::<EventView>::empty() + told + Seq::<EventView>::empty() =~= told);
    lines_leave_what_is_told(told, raw, p.flavor, s.request, told.len() - 1);
}

/// What another session says is refused while a turn runs.
pub proof fn strangers_are_refused(
    p: ProtocolView,
    s: ProgressView,
    value: Data,
    raw: Seq<char>,
    other: Seq<char>,
)
    requires
        value.field("method"@) == Data::Text("session/update"@),
        p.prompt is Some,
        value.field("params"@).field("sessionId"@) == Data::Text(other),
        s.native != Some(other),
        p.opening is None,
    ensures
        received(p, s, value, raw).2 is Err,
{
    cursor_words();
}

/// The first sign of a turn tells that it has begun.
pub proof fn turns_begin_with_their_first_sign(
    p: ProtocolView,
    s: ProgressView,
    value: Data,
    raw: Seq<char>,
)
    requires
        updates_the_turn(p, ProgressView { started: true, ..s }, value, "agent_message_chunk"@),
        !s.started,
        !s.finished,
        s.request is Some,
    ensures
        received(p, s, value, raw).2 matches Ok(told) && told.len() > 0 && told[0]
            == (EventView::Started { request: s.request->0, native_turn: s.native_turn }),
        received(p, s, value, raw).1.started,
{
    cursor_words();
    let fresh = ProtocolView { responses: Seq::empty(), acknowledgement: None, ..p };
    let b = super::cursor::updated(fresh, s, value);
    let told = b.told->Ok_0;
    assert(Seq::<EventView>::empty() + told + Seq::<EventView>::empty() =~= told);
    lines_leave_what_is_told(told, raw, p.flavor, s.request, told.len() - 1);
}

/// The answer to the prompt ends the turn as it stopped: completed, interrupted, or failed. What was said is
/// an item that has ended, and the history is saved before the end is told.
pub proof fn turns_end_as_they_stopped(
    p: ProtocolView,
    s: ProgressView,
    value: Data,
    raw: Seq<char>,
    id: u64,
    request: Seq<char>,
)
    requires
        value.get("method"@) is None,
        value.get("error"@) is None,
        value.field("id"@) == Data::Number(Number::Unsigned(id)),
        p.prompt == Some(id),
        p.opening != Some(id),
        p.restart is None,
        s.request == Some(request),
        s.started,
        !s.finished,
    ensures
        ({
            let (q, after, told) = received(p, s, value, raw);
            let stop = value.field("result"@).field("stopReason"@);
            &&& told is Ok
            &&& after == (ProgressView { finished: true, ..s })
            &&& q.prompt is None && q.dirty
            &&& q.text.len() == 0 && q.thinking.len() == 0
            &&& stop == Data::Text("end_turn"@) ==> q.terminal == Some(
                TerminalView { request, status: "completed"@ },
            )
            &&& stop == Data::Text("cancelled"@) ==> q.terminal == Some(
                TerminalView { request, status: "interrupted"@ },
            )
            &&& stop != Data::Text("end_turn"@) && stop != Data::Text("cancelled"@) ==> q.terminal
                == Some(TerminalView { request, status: "failed"@ })
            &&& p.cancel is Some ==> q.cancel is None && q.acknowledgement is Some
                && q.acknowledgement->0.id == p.cancel->0
            &&& p.text.len() > 0 ==> records(told->Ok_0[0], "item_completed"@) && recorded(
                told->Ok_0[0],
            ).field("text"@) == Data::Text(p.text) && recorded(told->Ok_0[0]).field("item_type"@)
                == Data::Text("agentMessage"@)
        }),
{
    cursor_words();
    let fresh = ProtocolView { responses: Seq::empty(), acknowledgement: None, ..p };
    let told = super::cursor::message_ended(fresh, s).1;
    assert(Seq::<EventView>::empty() + Seq::<EventView>::empty() + (told
        + Seq::<EventView>::empty()) =~= told);
    if p.text.len() > 0 {
        lines_leave_what_is_told(told, raw, p.flavor, s.request, 0);
    }
}

/// A message to the turn that runs is sent when the turn has stopped for it, and the turn goes on with it.
pub proof fn turns_go_on_with_a_new_message(
    p: ProtocolView,
    s: ProgressView,
    value: Data,
    raw: Seq<char>,
    id: u64,
    next: RestartView,
)
    requires
        value.get("method"@) is None,
        value.get("error"@) is None,
        value.field("id"@) == Data::Number(Number::Unsigned(id)),
        value.field("result"@).field("stopReason"@) == Data::Text("cancelled"@),
        p.prompt == Some(id),
        p.opening != Some(id),
        p.restart == Some(next),
    ensures
        ({
            let (q, after, told) = received(p, s, value, raw);
            &&& told is Ok && after == s
            &&& q.restart is None && q.prompt == Some(next.id) && q.terminal == p.terminal
            &&& q.responses.len() == 1
            &&& q.responses[0].field("method"@) == Data::Text("session/prompt"@)
            &&& q.responses[0].field("params"@) == next.params
            &&& q.responses[0].field("id"@) == Data::Number(Number::Unsigned(next.id))
            &&& q.acknowledgement is Some && q.acknowledgement->0.id == next.id
        }),
{
    cursor_words();
}

/// The end of a turn is told once its history is saved, with its request and its status.
pub proof fn ends_are_told_after_the_history(p: ProtocolView, t: TerminalView)
    requires
        p.terminal == Some(t),
    ensures
        p.dirty && p.chat_id is Some ==> concluded(p, false) == (p, None::<EventView>),
        concluded(p, true) == (p, None::<EventView>),
        !p.dirty || p.chat_id is None ==> concluded(p, false).1 == Some(
            EventView::Finished { request: t.request, status: t.status, error: None },
        ) && concluded(p, false).0.terminal is None,
{
}

// Questions of the harness.

/// What may be done once is allowed, in the session that runs; nothing is while the turn is being stopped.
pub proof fn permissions_are_given_once(
    p: ProtocolView,
    s: ProgressView,
    value: Data,
    raw: Seq<char>,
    option: Data,
    choice: Seq<char>,
)
    requires
        value.field("method"@) == Data::Text("session/request_permission"@),
        value.field("params"@).field("options"@) == Data::Array(seq![option]),
        option.field("kind"@) == Data::Text("allow_once"@),
        option.field("optionId"@) == Data::Text(choice),
        s.native is Some,
        value.field("params"@).field("sessionId"@) == Data::Text(s.native->0),
    ensures
        ({
            let (q, after, told) = received(p, s, value, raw);
            let answer = q.responses[0].field("result"@).field("outcome"@);
            let stopping = p.closing || p.cancel is Some || p.restart is Some;
            &&& told is Ok && after == s && q.responses.len() == 1
            &&& q.responses[0].field("id"@) == value.field("id"@)
            &&& !stopping ==> answer.field("outcome"@) == Data::Text("selected"@) && answer.field(
                "optionId"@,
            ) == Data::Text(choice)
            &&& stopping ==> answer.field("outcome"@) == Data::Text("cancelled"@)
        }),
{
    cursor_words();
    reveal_with_fuel(super::cursor::first_with, 2);
    assert(seq![option][0] == option);
}

/// A session is permitted nothing that another one asks for, and nothing but what may be done once.
pub proof fn other_permissions_are_not_given(
    p: ProtocolView,
    s: ProgressView,
    value: Data,
    raw: Seq<char>,
    option: Data,
)
    requires
        value.field("method"@) == Data::Text("session/request_permission"@),
        value.field("params"@).field("options"@) == Data::Array(seq![option]),
        option.field("kind"@) != Data::Text("allow_once"@) || (value.field("params"@).field(
            "sessionId"@,
        ) matches Data::Text(asked) && s.native != Some(asked)),
    ensures
        received(p, s, value, raw).0.responses.len() == 1,
        received(p, s, value, raw).0.responses[0].field("result"@).field("outcome"@).field("outcome"@)
            == Data::Text("cancelled"@),
{
    cursor_words();
    reveal_with_fuel(super::cursor::first_with, 3);
    assert(seq![option][0] == option);
    assert(seq![option].subrange(1, 1) =~= Seq::<Data>::empty());
}

/// A question to the user is skipped, a plan is not approved, and what is only told is taken; anything else
/// is not supported.
pub proof fn questions_are_not_answered(
    p: ProtocolView,
    s: ProgressView,
    value: Data,
    raw: Seq<char>,
    id: Data,
    method: Seq<char>,
)
    requires
        value.get("id"@) == Some(id),
        value.field("method"@) == Data::Text(method),
        method != "session/update"@,
        method != "session/request_permission"@,
    ensures
        ({
            let (q, after, told) = received(p, s, value, raw);
            let answer = q.responses[0];
            &&& told is Ok && after == s && q.responses.len() == 1 && answer.field("id"@) == id
            &&& method == "cursor/ask_question"@ ==> answer.field("result"@).field("outcome"@).field(
                "outcome"@,
            ) == Data::Text("skipped"@)
            &&& method == "cursor/create_plan"@ ==> answer.field("result"@).field("outcome"@).field(
                "outcome"@,
            ) == Data::Text("rejected"@)
            &&& method == "cursor/task"@ || method == "cursor/update_todos"@ || method
                == "cursor/generate_image"@ ==> answer.get("result"@) is Some && answer.get("error"@)
                is None
            &&& method != "cursor/ask_question"@ && method != "cursor/create_plan"@ && method
                != "cursor/task"@ && method != "cursor/update_todos"@ && method
                != "cursor/generate_image"@ ==> answer.field("error"@).field("code"@) == Data::Number(
                Number::Negative((-32601) as i64),
            )
        }),
{
    cursor_words();
}

// Calls and answers.

/// A call is written with its number; a message to a turn, and an interruption, stop the turn and are
/// remembered.
pub proof fn calls_are_written_and_remembered(
    p: ProtocolView,
    id: u64,
    method: Seq<char>,
    params: Data,
    begins: bool,
)
    ensures
        ({
            let (q, frame) = encoded(p, id, method, params, begins);
            &&& begins ==> q.prompt == Some(id)
            &&& !begins ==> q.prompt == p.prompt
            &&& method == "session/new"@ || method == "session/load"@ ==> q.opening == Some(id)
            &&& method == "cloudroom/steer"@ ==> frame.field("method"@) == Data::Text(
                "session/cancel"@,
            ) && frame.field("params"@).field("sessionId"@) == params.field("sessionId"@)
                && frame.get("id"@) is None && q.restart == Some(RestartView { id, params })
            &&& method == "session/cancel"@ ==> frame.field("method"@) == Data::Text(
                "session/cancel"@,
            ) && frame.get("id"@) is None && q.cancel == Some(id)
            &&& method != "cloudroom/steer"@ && method != "session/cancel"@ ==> frame.field("id"@)
                == Data::Number(Number::Unsigned(id)) && frame.field("method"@) == Data::Text(method)
                && frame.field("params"@) == params && q.restart == p.restart && q.cancel == p.cancel
        }),
{
    cursor_words();
}

/// A turn is steered or interrupted only while it runs and is not being stopped.
pub proof fn turns_are_stopped_once(p: ProtocolView, method: Seq<char>)
    requires
        method == "cloudroom/steer"@ || method == "session/cancel"@,
    ensures
        control_refused(p, method) <==> p.prompt is None || p.restart is Some || p.cancel is Some,
{
}

/// An answer is that of the call with its number: what the harness gave, or that it refused.
pub proof fn answers_are_those_of_their_call(p: ProtocolView, value: Data, id: u64)
    requires
        p.acknowledgement is None,
        value.field("id"@) == Data::Number(Number::Unsigned(id)),
    ensures
        value.get("method"@) is Some ==> answer_in(p, value) is None,
        value.get("method"@) is None ==> (answer_in(p, value) matches Some((call, answer)) && call == id
            && (value.get("error"@) is None ==> answer == Ok::<Data, FaultView>(
            value.field("result"@),
        )) && (value.get("error"@) is Some ==> answer is Err)),
{
}

/// A prompt is sent to its session with its text, and asks for plain chat; each file that is attached is
/// named.
pub proof fn prompts_say_their_text(native: Seq<char>, text: Seq<char>, input: Data, files: Seq<Data>, last: Data, path: Seq<char>)
    requires
        last.field("path"@) == Data::Text(path),
    ensures
        prompt_params(native, text).field("sessionId"@) == Data::Text(native),
        prompt_params(native, text).field("prompt"@) matches Data::Array(parts) && parts.len() == 1
            && parts[0].field("text"@) == Data::Text(text) && parts[0].field("type"@) == Data::Text(
            "text"@,
        ),
        with_files(text, Seq::empty()) == text,
        with_files(text, files.push(last)) == with_files(text, files) + "\n[Attached file: "@ + path
            + "]"@,
        input.field("text"@) == Data::Text(text) && !(input.field("attachments"@) is Array)
            ==> finishes(prompt_text(input), text),
{
    cursor_words();
    assert(files.push(last).drop_last() =~= files);
    if input.field("text"@) == Data::Text(text) && !(input.field("attachments"@) is Array) {
        let none: Seq<Data> = Seq::empty();
        assert(input.field("attachments"@).items() =~= none);
        let all = prompt_text(input);
        assert(all.skip(all.len() - text.len()) =~= text);
        assert(all.subrange(all.len() - text.len(), all.len() as int) =~= text);
    }
}

/// A part of the history is recorded word for word, with its place in its snapshot.
pub proof fn snapshots_are_recorded(value: Data, record: Seq<char>)
    requires
        value.field("record"@) == Data::Text(record),
    ensures
        snapshot_event(value) matches Some(EventView::Record { kind, data, native }) && kind
            == "native_record"@ && native == Some(record + "\n"@) && data.field("snapshot"@)
            == value.field("snapshot"@) && data.field("index"@) == value.field("index"@)
            && data.field("complete"@) == value.field("complete"@),
{
    cursor_words();
}

/// fx is asked for the model that is wanted where it has it; its own choice is not asked for.
pub proof fn models_are_asked_of_fx(id: Seq<char>, session: Data, model: Seq<char>)
    ensures
        model == "default"@ ==> model_request(id, session, model) == Ok::<Option<Data>, FaultView>(None),
        model != "default"@ && !model_offered(session, model) ==> model_request(id, session, model) is
            Err,
        model != "default"@ && model_offered(session, model) ==> (model_request(id, session, model)
            matches Ok(Some(params)) && params.field("sessionId"@) == Data::Text(id) && params.field(
            "configId"@,
        ) == Data::Text("model"@) && params.field("value"@) == Data::Text(model)),
{
    cursor_words();
}

// A chat that is driven by its printed events.

/// What the printed events say is passed on: a text that is new, a thought, a tool that starts or ends. What
/// a whole message repeats is not passed on twice.
pub proof fn printed_events_are_passed_on(
    session: Option<Seq<char>>,
    event: Data,
    segment: Seq<char>,
    block: Data,
    text: Seq<char>,
)
    requires
        event.field("type"@) == Data::Text("assistant"@),
        event.field("message"@).field("content"@) == Data::Array(seq![block]),
        block.field("type"@) == Data::Text("text"@),
        block.field("text"@) == Data::Text(text),
    ensures
        ({
            let out = translated(session, event, segment);
            let update = out.news->0.field("params"@).field("update"@);
            &&& text.len() == 0 || text == segment ==> out.news is None && out.segment == segment
            &&& text.len() > 0 && text != segment ==> out.news is Some && out.segment == segment + text
                && out.news->0.field("method"@) == Data::Text("session/update"@)
                && update.field("sessionUpdate"@) == Data::Text("agent_message_chunk"@)
                && update.field("content"@).field("text"@) == Data::Text(text)
            &&& session is Some && out.news is Some ==> out.news->0.field("params"@).field(
                "sessionId"@,
            ) == Data::Text(session->0)
        }),
{
    cursor_words();
    reveal_with_fuel(super::cursor_print::block_texts, 3);
    assert(seq![block].drop_last() =~= Seq::<Data>::empty());
    assert(seq![block].last() == block);
    assert(Seq::<char>::empty() + text =~= text);
}

/// A thought that is printed is passed on as a thought, and a tool with its call, what it was given, and how it
/// ended.
pub proof fn printed_tools_are_passed_on(
    session: Option<Seq<char>>,
    event: Data,
    segment: Seq<char>,
    text: Seq<char>,
)
    ensures
        event.field("type"@) == Data::Text("thinking"@) && event.field("text"@) == Data::Text(text)
            && text.len() > 0 ==> (translated(session, event, segment).news matches Some(news)
            && news.field("params"@).field("update"@).field("sessionUpdate"@) == Data::Text(
            "agent_thought_chunk"@,
        ) && news.field("params"@).field("update"@).field("content"@).field("text"@) == Data::Text(
            text,
        )),
        event.field("type"@) == Data::Text("tool_call"@) && event.field("subtype"@) == Data::Text(
            "started"@,
        ) ==> (translated(session, event, segment).news matches Some(news) && news.field(
            "params"@,
        ).field("update"@).field("sessionUpdate"@) == Data::Text("tool_call"@) && news.field(
            "params"@,
        ).field("update"@).field("status"@) == Data::Text("in_progress"@)),
        event.field("type"@) == Data::Text("tool_call"@) && event.field("subtype"@) == Data::Text(
            "completed"@,
        ) ==> (translated(session, event, segment).news matches Some(news) && news.field(
            "params"@,
        ).field("update"@).field("sessionUpdate"@) == Data::Text("tool_call_update"@) && (news.field(
            "params"@,
        ).field("update"@).field("status"@) == Data::Text("completed"@) || news.field("params"@).field(
            "update"@,
        ).field("status"@) == Data::Text("failed"@))),
{
    cursor_words();
}

/// The result of a turn is remembered as its outcome.
pub proof fn results_are_remembered(
    h: HearingView,
    session: Option<Seq<char>>,
    line: Seq<u8>,
    fields: Map<Seq<char>, Data>,
)
    requires
        bytes_read(line) == Ok::<Data, FaultView>(Data::Object(fields)),
    ensures
        Data::Object(fields).field("type"@) == Data::Text("result"@) ==> heard(h, session, line).0.outcome
            == Data::Object(fields),
        Data::Object(fields).field("type"@) != Data::Text("result"@) ==> heard(h, session, line).0.outcome
            == h.outcome,
{
    cursor_words();
}

/// A printed turn is answered as it ended: cancelled where that was asked for, ended where its result is no
/// error, and else as an error.
pub proof fn printed_turns_are_answered(
    request: Data,
    outcome: Data,
    code: i32,
    stderr: Seq<char>,
)
    ensures
        turn_answer(request, true, outcome, code, stderr).field("result"@).field("stopReason"@)
            == Data::Text("cancelled"@),
        !(outcome is Null) && outcome.get("is_error"@) is None ==> turn_answer(
            request,
            false,
            outcome,
            code,
            stderr,
        ).field("result"@).field("stopReason"@) == Data::Text("end_turn"@),
        outcome is Null || outcome.field("is_error"@) == Data::Bool(true) ==> turn_answer(
            request,
            false,
            outcome,
            code,
            stderr,
        ).get("error"@) is Some && turn_answer(request, false, outcome, code, stderr).get("result"@)
            is None,
        turn_answer(request, false, outcome, code, stderr).field("id"@) == request,
        turn_answer(request, true, outcome, code, stderr).field("id"@) == request,
{
    cursor_words();
}

/// What is asked of a printed chat: a new one is created, a saved one opened, a model chosen, a turn started in
/// the chat that is open, and the turn that runs cancelled.
pub proof fn chats_do_what_is_asked(
    d: DriverView,
    message: Data,
    cwd: Seq<char>,
    model: Seq<char>,
    session: Seq<char>,
)
    requires
        !(message.field("id"@) is Null),
    ensures
        ({
            let method = message.field("method"@);
            let params = message.field("params"@);
            let (after, action) = handled(d, message);
            &&& method == Data::Text("session/cancel"@) ==> after == d && action == if d.running {
                ActionView::Cancel
            } else {
                ActionView::Nothing
            }
            &&& method == Data::Text("session/new"@) && params.field("cwd"@) == Data::Text(cwd)
                ==> action == (ActionView::Create { cwd }) && after == d
            &&& method == Data::Text("session/set_config_option"@) && params.field("configId"@)
                == Data::Text("model"@) && params.field("value"@) == Data::Text(model) ==> after
                == (DriverView { model: Some(model), ..d }) && action is Reply
            &&& method == Data::Text("session/prompt"@) && params.field("sessionId"@) == Data::Text(
                session,
            ) && d.session == Some(session) && d.cwd == Some(cwd) && !d.running ==> (
            action matches ActionView::Start { session: at, cwd: folder, model: chosen, .. } && at
                == session && folder == cwd && chosen == d.model)
            &&& method == Data::Text("session/prompt"@) && params.field("sessionId"@) == Data::Text(
                session,
            ) && d.session != Some(session) ==> action is Reply
        }),
{
    cursor_words();
}

/// A chat that was opened is told with its name and its file.
pub proof fn opened_chats_are_told(
    request: Data,
    session: Seq<char>,
    cwd: Seq<char>,
    stdout: Seq<char>,
    home: Seq<char>,
)
    ensures
        opened_frame(request, session, cwd, stdout, home).field("id"@) == request,
        opened_frame(request, session, cwd, stdout, home).field("result"@).field("sessionId"@)
            == Data::Text(session),
        opened_frame(request, session, cwd, stdout, home).field("result"@).field("path"@) matches
            Data::Text(path) && finishes(path, "/meta.json"@),
{
    cursor_words();
    let path = super::cursor_print::chat_file(home, cwd, session);
    reveal_strlit("/meta.json");
    assert(path.skip(path.len() - 10) =~= "/meta.json"@);
    assert(path.subrange(path.len() - 10, path.len() as int) =~= "/meta.json"@);
}

} // verus!
