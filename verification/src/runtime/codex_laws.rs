//! What is recorded and told of a conversation with Codex, line by line.
use super::codex::{
    answer_in, encoded, fork_params, open_call, opened_id, prompt_data, received, turn_params,
    CompactionView, ProtocolView,
};
use super::{EventView, ProgressView};
use crate::fault::FaultView;
use crate::json::{Data, Number};
use vstd::prelude::*;

verus! {

proof fn codex_words()
    ensures
        "id"@.len() == 2,
        "cwd"@.len() == 3 && "cwd"@[0] == 'c',
        "url"@.len() == 3 && "url"@[0] == 'u',
        "item"@.len() == 4 && "item"@[2] == 'e',
        "text"@.len() == 4 && "text"@[2] == 'x',
        "turn"@.len() == 4 && "turn"@[2] == 'r',
        "path"@.len() == 4 && "path"@[2] == 't',
        "type"@.len() == 4 && "type"@[2] == 'p',
        "fast"@.len() == 4 && "fast"@[2] == 's',
        "file"@.len() == 4 && "file"@[2] == 'l',
        "kind"@.len() == 4 && "kind"@[2] == 'n',
        "delta"@.len() == 5 && "delta"@[0] == 'd' && "delta"@[1] == 'e',
        "usage"@.len() == 5 && "usage"@[0] == 'u' && "usage"@[1] == 's',
        "error"@.len() == 5 && "error"@[0] == 'e' && "error"@[1] == 'r',
        "model"@.len() == 5 && "model"@[0] == 'm' && "model"@[1] == 'o',
        "input"@.len() == 5 && "input"@[0] == 'i' && "input"@[1] == 'n',
        "image"@.len() == 5 && "image"@[0] == 'i' && "image"@[1] == 'm',
        "never"@.len() == 5 && "never"@[0] == 'n' && "never"@[1] == 'e',
        "method"@.len() == 6 && "method"@[3] == 'h' && "method"@[0] == 'm',
        "params"@.len() == 6 && "params"@[3] == 'a' && "params"@[0] == 'p',
        "itemId"@.len() == 6 && "itemId"@[3] == 'm' && "itemId"@[0] == 'i',
        "status"@.len() == 6 && "status"@[3] == 't' && "status"@[0] == 's',
        "output"@.len() == 6 && "output"@[3] == 'p' && "output"@[0] == 'o',
        "thread"@.len() == 6 && "thread"@[3] == 'e' && "thread"@[0] == 't',
        "result"@.len() == 6 && "result"@[3] == 'u' && "result"@[0] == 'r',
        "turnId"@.len() == 6 && "turnId"@[3] == 'n' && "turnId"@[0] == 't',
        "cursor"@.len() == 6 && "cursor"@[3] == 's' && "cursor"@[0] == 'c',
        "offset"@.len() == 6 && "offset"@[3] == 's' && "offset"@[0] == 'o',
        "config"@.len() == 6 && "config"@[3] == 'f' && "config"@[0] == 'c',
        "effort"@.len() == 6 && "effort"@[3] == 'o' && "effort"@[0] == 'e',
        "before"@.len() == 6 && "before"@[3] == 'o' && "before"@[0] == 'b',
        "command"@.len() == 7 && "command"@[4] == 'a',
        "item_id"@.len() == 7 && "item_id"@[4] == '_',
        "unknown"@.len() == 7 && "unknown"@[4] == 'o',
        "sandbox"@.len() == 7 && "sandbox"@[4] == 'b',
        "default"@.len() == 7 && "default"@[4] == 'u',
        "content"@.len() == 7 && "content"@[4] == 'e',
        "clientId"@.len() == 8 && "clientId"@[0] == 'c',
        "threadId"@.len() == 8 && "threadId"@[0] == 't',
        "response"@.len() == 8 && "response"@[0] == 'r',
        "tool_name"@.len() == 9 && "tool_name"@[0] == 't',
        "processId"@.len() == 9 && "processId"@[0] == 'p',
        "completed"@.len() == 9 && "completed"@[0] == 'c',
        "ephemeral"@.len() == 9 && "ephemeral"@[0] == 'e',
        "localFile"@.len() == 9 && "localFile"@[0] == 'l',
        "reasoning"@.len() == 9 && "reasoning"@[0] == 'r',
        "tokenUsage"@.len() == 10 && "tokenUsage"@[2] == 'k',
        "request_id"@.len() == 10 && "request_id"@[2] == 'q',
        "text_delta"@.len() == 10 && "text_delta"@[2] == 'x',
        "tool_delta"@.len() == 10 && "tool_delta"@[2] == 'o',
        "lastTurnId"@.len() == 10 && "lastTurnId"@[2] == 's',
        "localImage"@.len() == 10 && "localImage"@[2] == 'c',
        "thread/fork"@.len() == 11 && "thread/fork"@[0] == 't',
        "initialized"@.len() == 11 && "initialized"@[0] == 'i',
        "attachments"@.len() == 11 && "attachments"@[0] == 'a',
        "native_event"@.len() == 12 && "native_event"@[0] == 'n' && "native_event"@[4] == 'v',
        "item_started"@.len() == 12 && "item_started"@[0] == 'i' && "item_started"@[4] == '_',
        "item/started"@.len() == 12 && "item/started"@[0] == 'i' && "item/started"@[4] == '/',
        "turn/started"@.len() == 12 && "turn/started"@[0] == 't' && "turn/started"@[4] == '/',
        "rewind_ready"@.len() == 12 && "rewind_ready"@[0] == 'r' && "rewind_ready"@[4] == 'n',
        "excludeTurns"@.len() == 12 && "excludeTurns"@[0] == 'e' && "excludeTurns"@[4] == 'u',
        "thread/start"@.len() == 12 && "thread/start"@[0] == 't' && "thread/start"@[4] == 'a',
        "beforeTurnId"@.len() == 12 && "beforeTurnId"@[0] == 'b' && "beforeTurnId"@[4] == 'r',
        "last_turn_id"@.len() == 12 && "last_turn_id"@[0] == 'l' && "last_turn_id"@[4] == '_',
        "service_tier"@.len() == 12 && "service_tier"@[0] == 's' && "service_tier"@[4] == 'i',
        "thread/resume"@.len() == 13 && "thread/resume"@[1] == 'h',
        "text_elements"@.len() == 13 && "text_elements"@[1] == 'e',
        "item_completed"@.len() == 14 && "item_completed"@[0] == 'i' && "item_completed"@[4] == '_',
        "item/completed"@.len() == 14 && "item/completed"@[0] == 'i' && "item/completed"@[4] == '/',
        "turn/completed"@.len() == 14 && "turn/completed"@[0] == 't' && "turn/completed"@[4] == '/',
        "approvalPolicy"@.len() == 14 && "approvalPolicy"@[0] == 'a' && "approvalPolicy"@[4] == 'o',
        "before_turn_id"@.len() == 14 && "before_turn_id"@[0] == 'b' && "before_turn_id"@[4] == 'r',
        "native_identity"@.len() == 15,
        "aggregatedOutput"@.len() == 16 && "aggregatedOutput"@[0] == 'a',
        "thread/compacted"@.len() == 16 && "thread/compacted"@[0] == 't',
        "commandExecution"@.len() == 16 && "commandExecution"@[0] == 'c',
        "serviceTierForTurn"@.len() == 18,
        "clientUserMessageId"@.len() == 19,
        "thread/compact/start"@.len() == 20,
        "model_reasoning_effort"@.len() == 22,
        "item/agentMessage/delta"@.len() == 23,
        "item/commandExecution/outputDelta"@.len() == 33,
{
    reveal_strlit("id");
    reveal_strlit("cwd");
    reveal_strlit("url");
    reveal_strlit("item");
    reveal_strlit("text");
    reveal_strlit("turn");
    reveal_strlit("path");
    reveal_strlit("type");
    reveal_strlit("fast");
    reveal_strlit("file");
    reveal_strlit("kind");
    reveal_strlit("delta");
    reveal_strlit("usage");
    reveal_strlit("error");
    reveal_strlit("model");
    reveal_strlit("input");
    reveal_strlit("image");
    reveal_strlit("never");
    reveal_strlit("method");
    reveal_strlit("params");
    reveal_strlit("itemId");
    reveal_strlit("status");
    reveal_strlit("output");
    reveal_strlit("thread");
    reveal_strlit("result");
    reveal_strlit("turnId");
    reveal_strlit("cursor");
    reveal_strlit("offset");
    reveal_strlit("config");
    reveal_strlit("effort");
    reveal_strlit("before");
    reveal_strlit("command");
    reveal_strlit("item_id");
    reveal_strlit("unknown");
    reveal_strlit("sandbox");
    reveal_strlit("default");
    reveal_strlit("content");
    reveal_strlit("clientId");
    reveal_strlit("threadId");
    reveal_strlit("response");
    reveal_strlit("tool_name");
    reveal_strlit("processId");
    reveal_strlit("completed");
    reveal_strlit("ephemeral");
    reveal_strlit("localFile");
    reveal_strlit("reasoning");
    reveal_strlit("tokenUsage");
    reveal_strlit("request_id");
    reveal_strlit("text_delta");
    reveal_strlit("tool_delta");
    reveal_strlit("lastTurnId");
    reveal_strlit("localImage");
    reveal_strlit("thread/fork");
    reveal_strlit("initialized");
    reveal_strlit("attachments");
    reveal_strlit("native_event");
    reveal_strlit("item_started");
    reveal_strlit("item/started");
    reveal_strlit("turn/started");
    reveal_strlit("rewind_ready");
    reveal_strlit("excludeTurns");
    reveal_strlit("thread/start");
    reveal_strlit("beforeTurnId");
    reveal_strlit("last_turn_id");
    reveal_strlit("service_tier");
    reveal_strlit("thread/resume");
    reveal_strlit("text_elements");
    reveal_strlit("item_completed");
    reveal_strlit("item/completed");
    reveal_strlit("turn/completed");
    reveal_strlit("approvalPolicy");
    reveal_strlit("before_turn_id");
    reveal_strlit("native_identity");
    reveal_strlit("aggregatedOutput");
    reveal_strlit("thread/compacted");
    reveal_strlit("commandExecution");
    reveal_strlit("serviceTierForTurn");
    reveal_strlit("clientUserMessageId");
    reveal_strlit("thread/compact/start");
    reveal_strlit("model_reasoning_effort");
    reveal_strlit("item/agentMessage/delta");
    reveal_strlit("item/commandExecution/outputDelta");
    assert("id"@.len() == 2);
    assert("cwd"@.len() == 3 && "cwd"@[0] == 'c');
    assert("url"@.len() == 3 && "url"@[0] == 'u');
    assert("item"@.len() == 4 && "item"@[2] == 'e');
    assert("text"@.len() == 4 && "text"@[2] == 'x');
    assert("turn"@.len() == 4 && "turn"@[2] == 'r');
    assert("path"@.len() == 4 && "path"@[2] == 't');
    assert("type"@.len() == 4 && "type"@[2] == 'p');
    assert("fast"@.len() == 4 && "fast"@[2] == 's');
    assert("file"@.len() == 4 && "file"@[2] == 'l');
    assert("kind"@.len() == 4 && "kind"@[2] == 'n');
    assert("delta"@.len() == 5 && "delta"@[0] == 'd' && "delta"@[1] == 'e');
    assert("usage"@.len() == 5 && "usage"@[0] == 'u' && "usage"@[1] == 's');
    assert("error"@.len() == 5 && "error"@[0] == 'e' && "error"@[1] == 'r');
    assert("model"@.len() == 5 && "model"@[0] == 'm' && "model"@[1] == 'o');
    assert("input"@.len() == 5 && "input"@[0] == 'i' && "input"@[1] == 'n');
    assert("image"@.len() == 5 && "image"@[0] == 'i' && "image"@[1] == 'm');
    assert("never"@.len() == 5 && "never"@[0] == 'n' && "never"@[1] == 'e');
    assert("method"@.len() == 6 && "method"@[3] == 'h' && "method"@[0] == 'm');
    assert("params"@.len() == 6 && "params"@[3] == 'a' && "params"@[0] == 'p');
    assert("itemId"@.len() == 6 && "itemId"@[3] == 'm' && "itemId"@[0] == 'i');
    assert("status"@.len() == 6 && "status"@[3] == 't' && "status"@[0] == 's');
    assert("output"@.len() == 6 && "output"@[3] == 'p' && "output"@[0] == 'o');
    assert("thread"@.len() == 6 && "thread"@[3] == 'e' && "thread"@[0] == 't');
    assert("result"@.len() == 6 && "result"@[3] == 'u' && "result"@[0] == 'r');
    assert("turnId"@.len() == 6 && "turnId"@[3] == 'n' && "turnId"@[0] == 't');
    assert("cursor"@.len() == 6 && "cursor"@[3] == 's' && "cursor"@[0] == 'c');
    assert("offset"@.len() == 6 && "offset"@[3] == 's' && "offset"@[0] == 'o');
    assert("config"@.len() == 6 && "config"@[3] == 'f' && "config"@[0] == 'c');
    assert("effort"@.len() == 6 && "effort"@[3] == 'o' && "effort"@[0] == 'e');
    assert("before"@.len() == 6 && "before"@[3] == 'o' && "before"@[0] == 'b');
    assert("command"@.len() == 7 && "command"@[4] == 'a');
    assert("item_id"@.len() == 7 && "item_id"@[4] == '_');
    assert("unknown"@.len() == 7 && "unknown"@[4] == 'o');
    assert("sandbox"@.len() == 7 && "sandbox"@[4] == 'b');
    assert("default"@.len() == 7 && "default"@[4] == 'u');
    assert("content"@.len() == 7 && "content"@[4] == 'e');
    assert("clientId"@.len() == 8 && "clientId"@[0] == 'c');
    assert("threadId"@.len() == 8 && "threadId"@[0] == 't');
    assert("response"@.len() == 8 && "response"@[0] == 'r');
    assert("tool_name"@.len() == 9 && "tool_name"@[0] == 't');
    assert("processId"@.len() == 9 && "processId"@[0] == 'p');
    assert("completed"@.len() == 9 && "completed"@[0] == 'c');
    assert("ephemeral"@.len() == 9 && "ephemeral"@[0] == 'e');
    assert("localFile"@.len() == 9 && "localFile"@[0] == 'l');
    assert("reasoning"@.len() == 9 && "reasoning"@[0] == 'r');
    assert("tokenUsage"@.len() == 10 && "tokenUsage"@[2] == 'k');
    assert("request_id"@.len() == 10 && "request_id"@[2] == 'q');
    assert("text_delta"@.len() == 10 && "text_delta"@[2] == 'x');
    assert("tool_delta"@.len() == 10 && "tool_delta"@[2] == 'o');
    assert("lastTurnId"@.len() == 10 && "lastTurnId"@[2] == 's');
    assert("localImage"@.len() == 10 && "localImage"@[2] == 'c');
    assert("thread/fork"@.len() == 11 && "thread/fork"@[0] == 't');
    assert("initialized"@.len() == 11 && "initialized"@[0] == 'i');
    assert("attachments"@.len() == 11 && "attachments"@[0] == 'a');
    assert("native_event"@.len() == 12 && "native_event"@[0] == 'n' && "native_event"@[4] == 'v');
    assert("item_started"@.len() == 12 && "item_started"@[0] == 'i' && "item_started"@[4] == '_');
    assert("item/started"@.len() == 12 && "item/started"@[0] == 'i' && "item/started"@[4] == '/');
    assert("turn/started"@.len() == 12 && "turn/started"@[0] == 't' && "turn/started"@[4] == '/');
    assert("rewind_ready"@.len() == 12 && "rewind_ready"@[0] == 'r' && "rewind_ready"@[4] == 'n');
    assert("excludeTurns"@.len() == 12 && "excludeTurns"@[0] == 'e' && "excludeTurns"@[4] == 'u');
    assert("thread/start"@.len() == 12 && "thread/start"@[0] == 't' && "thread/start"@[4] == 'a');
    assert("beforeTurnId"@.len() == 12 && "beforeTurnId"@[0] == 'b' && "beforeTurnId"@[4] == 'r');
    assert("last_turn_id"@.len() == 12 && "last_turn_id"@[0] == 'l' && "last_turn_id"@[4] == '_');
    assert("service_tier"@.len() == 12 && "service_tier"@[0] == 's' && "service_tier"@[4] == 'i');
    assert("thread/resume"@.len() == 13 && "thread/resume"@[1] == 'h');
    assert("text_elements"@.len() == 13 && "text_elements"@[1] == 'e');
    assert("item_completed"@.len() == 14 && "item_completed"@[0] == 'i' && "item_completed"@[4] == '_');
    assert("item/completed"@.len() == 14 && "item/completed"@[0] == 'i' && "item/completed"@[4] == '/');
    assert("turn/completed"@.len() == 14 && "turn/completed"@[0] == 't' && "turn/completed"@[4] == '/');
    assert("approvalPolicy"@.len() == 14 && "approvalPolicy"@[0] == 'a' && "approvalPolicy"@[4] == 'o');
    assert("before_turn_id"@.len() == 14 && "before_turn_id"@[0] == 'b' && "before_turn_id"@[4] == 'r');
    assert("native_identity"@.len() == 15);
    assert("aggregatedOutput"@.len() == 16 && "aggregatedOutput"@[0] == 'a');
    assert("thread/compacted"@.len() == 16 && "thread/compacted"@[0] == 't');
    assert("commandExecution"@.len() == 16 && "commandExecution"@[0] == 'c');
    assert("serviceTierForTurn"@.len() == 18);
    assert("clientUserMessageId"@.len() == 19);
    assert("thread/compact/start"@.len() == 20);
    assert("model_reasoning_effort"@.len() == 22);
    assert("item/agentMessage/delta"@.len() == 23);
    assert("item/commandExecution/outputDelta"@.len() == 33);
}
/// The conversation itself is known, and a line names no other.
pub open spec fn of_the_conversation(p: ProtocolView, value: Data) -> bool {
    let params = value.field("params"@);
    &&& p.root is Some
    &&& params.field("threadId"@) == Data::Text(p.root->0) || (!(params.field("threadId"@) is Text)
        && params.field("thread"@) is Null)
}

/// What the first record of a line holds.
pub open spec fn line_record(told: Seq<EventView>) -> Data {
    match told[0] {
        EventView::Record { data, .. } => data,
        _ => Data::Null,
    }
}

/// The kind of the first record of a line.
pub open spec fn line_kind(told: Seq<EventView>) -> Seq<char> {
    match told[0] {
        EventView::Record { kind, .. } => kind,
        _ => Seq::empty(),
    }
}

// Records of lines.

/// Every line that is understood is recorded first, word for word, with what it says: what the agent said
/// and did, of which item, and what it cost.
pub proof fn lines_are_recorded_with_what_they_say(
    p: ProtocolView,
    s: ProgressView,
    value: Data,
    raw: Seq<char>,
    drained: Seq<EventView>,
)
    requires
        received(p, s, value, raw, drained).2 is Ok,
    ensures
        ({
            let told = received(p, s, value, raw, drained).2->Ok_0;
            let data = line_record(told);
            let params = value.field("params"@);
            let item = params.field("item"@);
            &&& told.len() > 0
            &&& told[0] matches EventView::Record { kind, data, native } && native == Some(raw)
            &&& value.field("method"@) is Text ==> data.field("method"@) == value.field("method"@)
            &&& !(value.field("method"@) is Text) ==> data.field("method"@) == Data::Text(
                "response"@,
            )
            &&& data.field("text"@) == item.field("text"@)
            &&& data.field("tool_name"@) == item.field("command"@)
            &&& data.field("output"@) == item.field("aggregatedOutput"@)
            &&& data.field("status"@) == item.field("status"@)
            &&& data.field("request_id"@) == item.field("clientId"@)
            &&& data.field("delta"@) == params.field("delta"@)
            &&& params.field("itemId"@) is Text ==> data.field("item_id"@) == params.field(
                "itemId"@,
            )
            &&& !(params.field("itemId"@) is Text) && item.field("id"@) is Text ==> data.field(
                "item_id"@,
            ) == item.field("id"@)
            &&& params.field("turn"@).get("usage"@) is Some ==> data.field("usage"@) == params.field(
                "turn"@,
            ).field("usage"@)
            &&& params.field("turn"@).get("usage"@) is None && params.field("turn"@).get(
                "tokenUsage"@,
            ) is Some ==> data.field("usage"@) == params.field("turn"@).field("tokenUsage"@)
            &&& params.get("turn"@) is None ==> data.field("usage"@) == params.field("usage"@)
        }),
{
    codex_words();
}

/// A line of the conversation itself is recorded as what it is: a piece of text, a piece of what a tool
/// wrote, the beginning or the end of an item, or something else.
pub proof fn lines_are_recorded_as_what_they_are(
    p: ProtocolView,
    s: ProgressView,
    value: Data,
    raw: Seq<char>,
    drained: Seq<EventView>,
    method: Seq<char>,
)
    requires
        received(p, s, value, raw, drained).2 is Ok,
        of_the_conversation(p, value),
        value.field("method"@) == Data::Text(method),
    ensures
        ({
            let kind = line_kind(received(p, s, value, raw, drained).2->Ok_0);
            &&& method == "item/agentMessage/delta"@ ==> kind == "text_delta"@
            &&& method == "item/commandExecution/outputDelta"@ ==> kind == "tool_delta"@
            &&& method == "item/started"@ ==> kind == "item_started"@
            &&& method == "item/completed"@ ==> kind == "item_completed"@
            &&& method == "turn/started"@ || method == "turn/completed"@ ==> kind == "native_event"@
        }),
{
    codex_words();
}

/// What a conversation that this one started says is recorded, but not as what this one says, and it
/// neither begins nor ends a turn.
pub proof fn other_conversations_speak_for_themselves(
    p: ProtocolView,
    s: ProgressView,
    value: Data,
    raw: Seq<char>,
    drained: Seq<EventView>,
    thread: Seq<char>,
)
    requires
        received(p, s, value, raw, drained).2 is Ok,
        p.root is Some,
        p.forking is None,
        value.get("id"@) is None,
        p.prompt_id is Some,
        value.field("params"@).field("threadId"@) == Data::Text(thread),
        value.field("params"@).get("thread"@) is None,
        value.get("result"@) is None,
        p.root != Some(thread),
    ensures
        line_kind(received(p, s, value, raw, drained).2->Ok_0) == "native_event"@,
        received(p, s, value, raw, drained).1 == s,
        received(p, s, value, raw, drained).2->Ok_0.len() == 1,
{
    codex_words();
}

// Turns.

/// A turn of the conversation begins: its name is noted, and the request that it is for is told to have
/// begun, once.
pub proof fn turns_begin(
    p: ProtocolView,
    s: ProgressView,
    value: Data,
    raw: Seq<char>,
    drained: Seq<EventView>,
    turn: Seq<char>,
)
    requires
        received(p, s, value, raw, drained).2 is Ok,
        of_the_conversation(p, value),
        p.forking is None,
        value.get("id"@) is None,
        p.prompt_id is Some,
        value.field("method"@) == Data::Text("turn/started"@),
        value.field("params"@).field("turn"@).field("id"@) == Data::Text(turn),
    ensures
        ({
            let (q, after, told) = received(p, s, value, raw, drained);
            &&& after.native_turn == Some(turn)
            &&& after.request == s.request
            &&& s.request is Some && !s.started && !s.finished ==> after.started
                && told->Ok_0.last() == (EventView::Started {
                request: s.request->0,
                native_turn: Some(turn),
            })
            &&& after.finished == s.finished
            &&& after.status == s.status
        }),
{
    codex_words();
}

/// The turn that runs ends with the outcome that the harness tells; the end of another turn is not taken
/// for it.
pub proof fn turns_end_as_they_are_told(
    p: ProtocolView,
    s: ProgressView,
    value: Data,
    raw: Seq<char>,
    drained: Seq<EventView>,
    turn: Seq<char>,
)
    requires
        received(p, s, value, raw, drained).2 is Ok,
        of_the_conversation(p, value),
        p.forking is None,
        value.get("id"@) is None,
        p.prompt_id is Some,
        value.field("method"@) == Data::Text("turn/completed"@),
        value.field("params"@).field("turn"@).field("id"@) == Data::Text(turn),
        s.request is Some,
        !s.finished,
    ensures
        ({
            let (q, after, told) = received(p, s, value, raw, drained);
            let status = value.field("params"@).field("turn"@).field("status"@);
            let ours = s.native_turn == Some(turn);
            &&& ours ==> after.finished
            &&& ours && status is Text ==> told->Ok_0.last() == (EventView::Finished {
                request: s.request->0,
                status: status->Text_0,
                error: None,
            })
            &&& ours && !(status is Text) ==> told->Ok_0.last() == (EventView::Finished {
                request: s.request->0,
                status: "unknown"@,
                error: None,
            })
            &&& !ours ==> !after.finished && forall|i: int|
                0 <= i < told->Ok_0.len() ==> !(#[trigger] told->Ok_0[i] is Finished)
        }),
{
    codex_words();
}

/// A command that runs on in the background is noted by its process while its turn runs.
pub proof fn background_commands_are_noted(
    p: ProtocolView,
    s: ProgressView,
    value: Data,
    raw: Seq<char>,
    drained: Seq<EventView>,
    process: Seq<char>,
)
    requires
        received(p, s, value, raw, drained).2 is Ok,
        of_the_conversation(p, value),
        p.forking is None,
        value.get("id"@) is None,
        p.prompt_id is Some,
        value.field("method"@) == Data::Text("item/started"@),
        value.field("params"@).field("item"@).field("type"@) == Data::Text("commandExecution"@),
        value.field("params"@).field("item"@).field("processId"@) == Data::Text(process),
        s.native_turn is Some,
        value.field("params"@).field("turnId"@) == Data::Text(s.native_turn->0),
    ensures
        received(p, s, value, raw, drained).1.processes.contains(process),
        forall|other: Seq<char>| #[trigger]
            s.processes.contains(other) ==> received(p, s, value, raw, drained).1.processes.contains(
                other,
            ),
        received(p, s, value, raw, drained).1.finished == s.finished,
{
    codex_words();
    let after = received(p, s, value, raw, drained).1;
    if !s.processes.contains(process) {
        assert(after.processes[after.processes.len() - 1] == process);
        assert forall|other: Seq<char>| #[trigger]
            s.processes.contains(other) implies after.processes.contains(other) by {
            let i = choose|i: int| 0 <= i < s.processes.len() && s.processes[i] == other;
            assert(after.processes[i] == other);
        }
    }
}

/// A prompt that the harness refuses is over; an answer to another call, or without an error, ends
/// nothing.
pub proof fn refused_prompts_are_over(
    p: ProtocolView,
    s: ProgressView,
    value: Data,
    raw: Seq<char>,
    drained: Seq<EventView>,
    id: u64,
)
    requires
        received(p, s, value, raw, drained).2 is Ok,
        value.field("id"@) == Data::Number(Number::Unsigned(id)),
        value.get("method"@) is None,
        p.forking != Some(id),
    ensures
        p.prompt_id == Some(id) && value.get("error"@) is Some ==> received(
            p,
            s,
            value,
            raw,
            drained,
        ).1.finished,
        p.prompt_id != Some(id) || value.get("error"@) is None ==> received(
            p,
            s,
            value,
            raw,
            drained,
        ).1.finished == s.finished,
{
    codex_words();
}

// Compactions.

/// A compaction ends with the turn that it began, as that turn ends; one that fails to begin is dropped.
pub proof fn compactions_end_with_their_turn(
    p: ProtocolView,
    s: ProgressView,
    value: Data,
    raw: Seq<char>,
    drained: Seq<EventView>,
    c: CompactionView,
)
    requires
        received(p, s, value, raw, drained).2 is Ok,
        p.compaction == Some(c),
        p.root is Some,
        p.forking is None,
        value.field("params"@).field("threadId"@) == Data::Text(p.root->0),
        value.get("id"@) is None,
    ensures
        ({
            let (q, after, told) = received(p, s, value, raw, drained);
            let turn = value.field("params"@).field("turn"@);
            let method = value.field("method"@);
            &&& method == Data::Text("turn/started"@) && c.turn is None && turn.field("id"@) is Text
                ==> q.compaction == Some(
                CompactionView { id: c.id, turn: Some(turn.field("id"@)->Text_0) },
            )
            &&& method == Data::Text("turn/completed"@) && c.turn is Some && turn.field("id"@)
                == Data::Text(c.turn->0) && turn.field("status"@) is Text ==> q.compaction is None
                && told->Ok_0[1] == (EventView::Compacted { status: turn.field("status"@)->Text_0 })
            &&& method == Data::Text("thread/compacted"@) && c.turn is None ==> q.compaction is None
                && told->Ok_0[1] == (EventView::Compacted { status: "completed"@ })
            &&& method == Data::Text("turn/completed"@) && c.turn is Some && turn.field("id"@)
                != Data::Text(c.turn->0) ==> q.compaction == Some(c)
        }),
{
    codex_words();
}

// Identity and forks.

/// The conversation is known by the first line that names it, with the file of its history; the harness
/// is said to work in it.
pub proof fn conversations_are_known_by_name(
    p: ProtocolView,
    s: ProgressView,
    value: Data,
    raw: Seq<char>,
    drained: Seq<EventView>,
    id: Seq<char>,
    path: Seq<char>,
)
    requires
        p.root is None,
        p.path is None,
        p.compaction is None,
        p.forking is None,
        value.get("params"@) is None,
        value.get("method"@) is None,
        value.field("result"@).field("thread"@).field("id"@) == Data::Text(id),
        value.field("result"@).field("thread"@).field("path"@) == Data::Text(path),
    ensures
        ({
            let (q, after, told) = received(p, s, value, raw, drained);
            &&& told is Ok
            &&& q.root == Some(id)
            &&& q.path == Some(path)
            &&& after.native == Some(id)
            &&& told->Ok_0[1] matches EventView::Record { kind, data, native } && kind
                == "native_identity"@ && data.field("id"@) == Data::Text(id) && data.field("path"@)
                == Data::Text(path)
        }),
{
    codex_words();
}

/// A fork that was made is told after the rest of the history before it, with its conversation, its file and
/// its beginning; the harness works in it from then on.
pub proof fn forks_are_told_after_their_past(
    p: ProtocolView,
    s: ProgressView,
    value: Data,
    raw: Seq<char>,
    drained: Seq<EventView>,
    call: u64,
    id: Seq<char>,
    path: Seq<char>,
)
    requires
        p.forking == Some(call),
        p.prompt_id != Some(call),
        p.compaction is None,
        p.root is Some,
        value.field("id"@) == Data::Number(Number::Unsigned(call)),
        value.get("error"@) is None,
        value.get("params"@) is None,
        value.get("method"@) is None,
        value.field("result"@).field("thread"@).field("id"@) == Data::Text(id),
        value.field("result"@).field("thread"@).field("path"@) == Data::Text(path),
    ensures
        ({
            let (q, after, told) = received(p, s, value, raw, drained);
            &&& told is Ok
            &&& q.forking is None
            &&& q.root == Some(id)
            &&& q.path == Some(path)
            &&& q.tail.read_offset == 0 && q.tail.committed_offset == 0 && q.tail.partial.len() == 0
            &&& after.native == Some(id)
            &&& after.request is None
            &&& told->Ok_0.len() == drained.len() + 2
            &&& forall|i: int| 0 <= i < drained.len() ==> told->Ok_0[i + 1] == #[trigger] drained[i]
            &&& told->Ok_0.last() matches EventView::Record { kind, data, native } && kind
                == "rewind_ready"@ && data.field("id"@) == Data::Text(id) && data.field("path"@)
                == Data::Text(path) && data.field("cursor"@).field("offset"@) == Data::Number(
                Number::Unsigned(0),
            )
        }),
{
    codex_words();
}

/// A fork that the harness refuses leaves the conversation as it is.
pub proof fn refused_forks_change_nothing(
    p: ProtocolView,
    s: ProgressView,
    value: Data,
    raw: Seq<char>,
    drained: Seq<EventView>,
    call: u64,
)
    requires
        p.forking == Some(call),
        p.prompt_id != Some(call),
        p.compaction is None,
        p.root is Some,
        p.path is Some,
        value.field("id"@) == Data::Number(Number::Unsigned(call)),
        value.get("error"@) is Some,
        value.get("method"@) is None,
    ensures
        received(p, s, value, raw, drained).2 is Ok,
        received(p, s, value, raw, drained).0 == (ProtocolView { forking: None, ..p }),
        received(p, s, value, raw, drained).1 == s,
{
    codex_words();
}

// Calls and answers.

/// A call is written with its number, its method and its parameters; the one that begins a turn, a fork or
/// a compaction is remembered by its number.
pub proof fn calls_are_written_and_remembered(
    p: ProtocolView,
    id: u64,
    method: Seq<char>,
    params: Data,
    begins: bool,
)
    ensures
        ({
            let (q, frame) = encoded(p, id, method, params, begins);
            &&& frame.field("method"@) == Data::Text(method)
            &&& method != "initialized"@ ==> frame.field("id"@) == Data::Number(
                Number::Unsigned(id),
            ) && frame.field("params"@) == params
            &&& method == "initialized"@ ==> frame.get("id"@) is None
            &&& begins ==> q.prompt_id == Some(id)
            &&& !begins ==> q.prompt_id == p.prompt_id
            &&& method == "thread/fork"@ ==> q.forking == Some(id)
            &&& method != "thread/fork"@ ==> q.forking == p.forking
            &&& method == "thread/compact/start"@ ==> q.compaction == Some(
                CompactionView { id, turn: None },
            )
            &&& method != "thread/compact/start"@ ==> q.compaction == p.compaction
            &&& q.root == p.root && q.path == p.path
        }),
{
    codex_words();
}

/// An answer is that of the call with its number: what the harness gave, or that it refused.
pub proof fn answers_are_those_of_their_call(value: Data, id: u64)
    requires
        value.field("id"@) == Data::Number(Number::Unsigned(id)),
    ensures
        value.get("method"@) is Some ==> answer_in(value) is None,
        value.get("method"@) is None ==> (answer_in(value) matches Some((call, answer)) && call == id
            && (value.get("error"@) is None ==> answer == Ok::<Data, FaultView>(
            value.field("result"@),
        )) && (value.get("error"@) is Some ==> answer is Err)),
{
}

/// A conversation is opened in its folder, with its model and its level, by its name and file where it is a
/// saved one.
pub proof fn conversations_are_opened_as_asked(
    repository: Seq<char>,
    model: Seq<char>,
    reasoning: Option<Seq<char>>,
    saved: Option<(Seq<char>, Seq<char>)>,
)
    ensures
        ({
            let (method, params) = open_call(repository, model, reasoning, saved);
            &&& params.field("cwd"@) == Data::Text(repository)
            &&& params.field("model"@) == Data::Text(model)
            &&& params.field("ephemeral"@) == Data::Bool(false)
            &&& params.field("approvalPolicy"@) == Data::Text("never"@)
            &&& reasoning is Some ==> params.field("config"@).field("model_reasoning_effort"@)
                == Data::Text(reasoning->0)
            &&& reasoning is None ==> params.get("config"@) is None
            &&& saved is None ==> method == "thread/start"@ && params.get("threadId"@) is None
            &&& saved matches Some((id, path)) ==> (method == "thread/resume"@ && params.field(
                "threadId"@,
            ) == Data::Text(id) && params.field("path"@) == Data::Text(path) && params.field(
                "excludeTurns"@,
            ) == Data::Bool(true))
        }),
{
    codex_words();
}

/// An opened conversation is the one that was asked for, with the model that was asked for.
pub proof fn opened_conversations_are_the_right_ones(
    result: Data,
    model: Seq<char>,
    saved: Option<Seq<char>>,
    id: Seq<char>,
)
    ensures
        opened_id(result, model, saved) == Ok::<Seq<char>, FaultView>(id) <==> result.field("model"@)
            == Data::Text(model) && result.field("thread"@).field("id"@) == Data::Text(id) && (saved
            is None || saved == Some(id)),
{
}

/// A prompt is sent to its conversation under the name of its request, with its level and its tier.
pub proof fn prompts_are_sent_as_asked(
    native: Seq<char>,
    request: Seq<char>,
    reasoning: Option<Seq<char>>,
    input: Data,
)
    ensures
        ({
            let params = turn_params(native, request, reasoning, input);
            &&& params.field("threadId"@) == Data::Text(native)
            &&& params.field("clientUserMessageId"@) == Data::Text(request)
            &&& params.field("input"@) == Data::Array(prompt_data(input))
            &&& input.field("service_tier"@) == Data::Text("fast"@) ==> params.field(
                "serviceTierForTurn"@,
            ) == Data::Text("fast"@)
            &&& input.field("service_tier"@) != Data::Text("fast"@) ==> params.field(
                "serviceTierForTurn"@,
            ) == Data::Text("default"@)
            &&& reasoning is Some ==> params.field("effort"@) == Data::Text(reasoning->0)
            &&& reasoning is None && input.field("reasoning"@) is Text ==> params.field("effort"@)
                == input.field("reasoning"@)
            &&& reasoning is None && !(input.field("reasoning"@) is Text) ==> params.get("effort"@)
                is None
        }),
{
    codex_words();
}

/// A prompt without parts says its text; each attachment after it is an image, or names its file.
pub proof fn prompts_say_their_text(input: Data, text: Seq<char>)
    requires
        input.field("text"@) == Data::Text(text),
        !(input.field("content"@) is Array) || input.field("content"@)->Array_0.len() == 0,
    ensures
        !(input.field("attachments"@) is Array) ==> prompt_data(input).len() == 1,
        prompt_data(input).len() >= 1,
        prompt_data(input)[0].field("type"@) == Data::Text("text"@),
        prompt_data(input)[0].field("text"@) == Data::Text(text),
{
    codex_words();
    let before = seq![super::codex::text_item(text)];
    attachments_come_after(before, input.field("attachments"@).items());
    assert(super::codex::part_items(input.field("content"@).items()).len() == 0);
    assert(prompt_data(input).take(1)[0] == before[0]);
}

proof fn attachments_come_after(before: Seq<Data>, attachments: Seq<Data>)
    ensures
        super::codex::attachment_items(before, attachments).len() >= before.len(),
        super::codex::attachment_items(before, attachments).take(before.len() as int) == before,
    decreases attachments.len(),
{
    if attachments.len() > 0 {
        attachments_come_after(before, attachments.drop_last());
        let list = super::codex::attachment_items(before, attachments.drop_last());
        let all = super::codex::attachment_items(before, attachments);
        assert(all.take(before.len() as int) =~= list.take(before.len() as int));
    } else {
        assert(before.take(before.len() as int) =~= before);
    }
}

/// A last part of a prompt is sent as what it is: its text, or the image or the file at its path. The parts
/// before it are sent as they are without it.
pub proof fn parts_are_sent_as_they_are(parts: Seq<Data>, part: Data)
    ensures
        ({
            let before = super::codex::part_items(parts);
            let all = super::codex::part_items(parts.push(part));
            let kind = part.field("type"@);
            let path = part.field("path"@);
            &&& kind == Data::Text("text"@) && part.field("text"@) is Text ==> all.len()
                == before.len() + 1 && all.last().field("type"@) == Data::Text("text"@)
                && all.last().field("text"@) == part.field("text"@)
            &&& (kind == Data::Text("image"@) || kind == Data::Text("localImage"@)) && path is Text
                ==> all.len() == before.len() + 1 && all.last().field("type"@) == Data::Text(
                "localImage"@,
            ) && all.last().field("path"@) == path
            &&& (kind == Data::Text("localFile"@) || kind == Data::Text("file"@)) && path is Text
                ==> all.len() == before.len() + 1 && all.last().field("type"@) == Data::Text(
                "text"@,
            ) && all.last().field("text"@) == Data::Text(
                "[Attached file: "@ + path->Text_0 + "]"@,
            )
            &&& all.len() == before.len() || all.drop_last() == before
        }),
{
    codex_words();
    assert(parts.push(part).drop_last() =~= parts);
    let before = super::codex::part_items(parts);
    let all = super::codex::part_items(parts.push(part));
    if all.len() != before.len() {
        assert(all.drop_last() =~= before);
    }
}

/// A last attachment is sent as an image, or named as a file, by its path.
pub proof fn attachments_are_sent_by_path(before: Seq<Data>, attachments: Seq<Data>, last: Data, path: Seq<char>)
    requires
        last.field("path"@) == Data::Text(path),
    ensures
        ({
            let list = super::codex::attachment_items(before, attachments);
            let all = super::codex::attachment_items(before, attachments.push(last));
            &&& all.len() == list.len() + 1
            &&& all.drop_last() == list
            &&& last.field("kind"@) == Data::Text("image"@) ==> all.last().field("type"@)
                == Data::Text("localImage"@) && all.last().field("path"@) == Data::Text(path)
            &&& last.field("kind"@) != Data::Text("image"@) ==> all.last().field("type"@)
                == Data::Text("text"@) && all.last().field("text"@) == Data::Text(
                "[Attached file: "@ + path + "]"@,
            )
        }),
{
    codex_words();
    assert(attachments.push(last).drop_last() =~= attachments);
    let list = super::codex::attachment_items(before, attachments);
    let all = super::codex::attachment_items(before, attachments.push(last));
    assert(all.drop_last() =~= list);
}

/// A fork is asked of its conversation, at the place that is named.
pub proof fn forks_are_asked_at_their_place(native: Seq<char>, input: Data)
    ensures
        fork_params(native, input).field("threadId"@) == Data::Text(native),
        input.field("last_turn_id"@) is Text ==> fork_params(native, input).field("lastTurnId"@)
            == input.field("last_turn_id"@),
        input.field("before"@) is Text ==> fork_params(native, input).field("beforeTurnId"@)
            == input.field("before"@),
        !(input.field("before"@) is Text) && input.field("before_turn_id"@) is Text ==> fork_params(
            native,
            input,
        ).field("beforeTurnId"@) == input.field("before_turn_id"@),
{
    codex_words();
    reveal_with_fuel(super::codex::first_field, 4);
    let last = seq!["last_turn_id"@, "lastTurnId"@];
    let before = seq!["before"@, "before_turn_id"@, "beforeTurnId"@];
    assert(last.drop_last() =~= seq!["last_turn_id"@]);
    assert(last.drop_last().drop_last() =~= Seq::<Seq<char>>::empty());
    assert(before.drop_last() =~= seq!["before"@, "before_turn_id"@]);
    assert(before.drop_last().drop_last() =~= seq!["before"@]);
    assert(before.drop_last().drop_last().drop_last() =~= Seq::<Seq<char>>::empty());
}

} // verus!
