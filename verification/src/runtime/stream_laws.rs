//! What is recorded and told of a conversation over streamed JSON messages, line by line.
use super::claude_protocol::{
    account_accepted, confirms_close, encoded, message_wire, received, usage_data, ActiveView,
    ProtocolView,
};
use super::process::MAX_LINE;
use super::{ChildView, EventView, ProgressView};
use crate::json::{Data, Number};
use crate::text::{all_in, blank, byte_len, decimal, joined, number, Class};
use crate::wire::{denoted, written};
use vstd::prelude::*;

verus! {

proof fn stream_words()
    ensures
        "id"@.len() == 2 && "id"@[0] == 'i',
        "on"@.len() == 2 && "on"@[0] == 'o',
        "type"@.len() == 4 && "type"@[1] == 'y' && "type"@[0] == 't',
        "init"@.len() == 4 && "init"@[1] == 'n' && "init"@[0] == 'i',
        "user"@.len() == 4 && "user"@[1] == 's' && "user"@[0] == 'u',
        "deny"@.len() == 4 && "deny"@[1] == 'e' && "deny"@[0] == 'd',
        "name"@.len() == 4 && "name"@[1] == 'a' && "name"@[0] == 'n',
        "text"@.len() == 4 && "text"@[1] == 'e' && "text"@[0] == 't',
        "kind"@.len() == 4 && "kind"@[1] == 'i' && "kind"@[0] == 'k',
        "uuid"@.len() == 4 && "uuid"@[1] == 'u' && "uuid"@[0] == 'u',
        "role"@.len() == 4 && "role"@[1] == 'o' && "role"@[0] == 'r',
        "tools"@.len() == 5 && "tools"@[3] == 'l' && "tools"@[0] == 't',
        "model"@.len() == 5 && "model"@[3] == 'e' && "model"@[0] == 'm',
        "state"@.len() == 5 && "state"@[3] == 't' && "state"@[0] == 's',
        "event"@.len() == 5 && "event"@[3] == 'n' && "event"@[0] == 'e',
        "index"@.len() == 5 && "index"@[3] == 'e' && "index"@[0] == 'i',
        "delta"@.len() == 5 && "delta"@[3] == 't' && "delta"@[0] == 'd',
        "input"@.len() == 5 && "input"@[3] == 'u' && "input"@[0] == 'i',
        "usage"@.len() == 5 && "usage"@[3] == 'g' && "usage"@[0] == 'u',
        "error"@.len() == 5 && "error"@[3] == 'o' && "error"@[0] == 'e',
        "close"@.len() == 5 && "close"@[3] == 's' && "close"@[0] == 'c',
        "total"@.len() == 5 && "total"@[3] == 'a' && "total"@[0] == 't',
        "system"@.len() == 6 && "system"@[3] == 't' && "system"@[0] == 's',
        "result"@.len() == 6 && "result"@[3] == 'u' && "result"@[0] == 'r',
        "reason"@.len() == 6 && "reason"@[3] == 's' && "reason"@[0] == 'r',
        "method"@.len() == 6 && "method"@[3] == 'h' && "method"@[0] == 'm',
        "params"@.len() == 6 && "params"@[3] == 'a' && "params"@[0] == 'p',
        "prompt"@.len() == 6 && "prompt"@[3] == 'm' && "prompt"@[0] == 'p',
        "queued"@.len() == 6 && "queued"@[3] == 'u' && "queued"@[0] == 'q',
        "notice"@.len() == 6 && "notice"@[3] == 'i' && "notice"@[0] == 'n',
        "failed"@.len() == 6 && "failed"@[3] == 'l' && "failed"@[0] == 'f',
        "tokens"@.len() == 6 && "tokens"@[3] == 'e' && "tokens"@[0] == 't',
        "output"@.len() == 6 && "output"@[3] == 'p' && "output"@[0] == 'o',
        "version"@.len() == 7 && "version"@[2] == 'r' && "version"@[0] == 'v',
        "subtype"@.len() == 7 && "subtype"@[2] == 'b' && "subtype"@[0] == 's',
        "request"@.len() == 7 && "request"@[2] == 'q' && "request"@[0] == 'r',
        "success"@.len() == 7 && "success"@[2] == 'c' && "success"@[0] == 's',
        "message"@.len() == 7 && "message"@[2] == 's' && "message"@[0] == 'm',
        "harness"@.len() == 7 && "harness"@[2] == 'r' && "harness"@[0] == 'h',
        "jsonrpc"@.len() == 7 && "jsonrpc"@[2] == 'o' && "jsonrpc"@[0] == 'j',
        "isError"@.len() == 7 && "isError"@[2] == 'E' && "isError"@[0] == 'i',
        "content"@.len() == 7 && "content"@[2] == 'n' && "content"@[0] == 'c',
        "started"@.len() == 7 && "started"@[2] == 'a' && "started"@[0] == 's',
        "compact"@.len() == 7 && "compact"@[2] == 'm' && "compact"@[0] == 'c',
        "item_id"@.len() == 7 && "item_id"@[2] == 'e' && "item_id"@[0] == 'i',
        "response"@.len() == 8 && "response"@[2] == 's',
        "continue"@.len() == 8 && "continue"@[2] == 'n',
        "behavior"@.len() == 8 && "behavior"@[2] == 'h',
        "delegate"@.len() == 8 && "delegate"@[2] == 'l',
        "rejected"@.len() == 8 && "rejected"@[2] == 'j',
        "thinking"@.len() == 8 && "thinking"@[2] == 'i',
        "tool_use"@.len() == 8 && "tool_use"@[2] == 'o',
        "is_error"@.len() == 8 && "is_error"@[2] == '_',
        "isReplay"@.len() == 8 && "isReplay"@[2] == 'R',
        "assistant"@.len() == 9 && "assistant"@[3] == 'i' && "assistant"@[0] == 'a',
        "cloudroom"@.len() == 9 && "cloudroom"@[3] == 'u' && "cloudroom"@[0] == 'c',
        "arguments"@.len() == 9 && "arguments"@[3] == 'u' && "arguments"@[0] == 'a',
        "cancelled"@.len() == 9 && "cancelled"@[3] == 'c' && "cancelled"@[0] == 'c',
        "bootstrap"@.len() == 9 && "bootstrap"@[3] == 't' && "bootstrap"@[0] == 'b',
        "item_type"@.len() == 9 && "item_type"@[3] == 'm' && "item_type"@[0] == 'i',
        "tool_name"@.len() == 9 && "tool_name"@[3] == 'l' && "tool_name"@[0] == 't',
        "completed"@.len() == 9 && "completed"@[3] == 'p' && "completed"@[0] == 'c',
        "interrupt"@.len() == 9 && "interrupt"@[3] == 'e' && "interrupt"@[0] == 'i',
        "lastUsage"@.len() == 9 && "lastUsage"@[3] == 't' && "lastUsage"@[0] == 'l',
        "cacheRead"@.len() == 9 && "cacheRead"@[3] == 'h' && "cacheRead"@[0] == 'c',
        "serverInfo"@.len() == 10 && "serverInfo"@[5] == 'r' && "serverInfo"@[6] == 'I',
        "request_id"@.len() == 10 && "request_id"@[5] == 's' && "request_id"@[6] == 't',
        "stopReason"@.len() == 10 && "stopReason"@[5] == 'e' && "stopReason"@[6] == 'a',
        "initialize"@.len() == 10 && "initialize"@[5] == 'a' && "initialize"@[6] == 'l',
        "tools/list"@.len() == 10 && "tools/list"@[5] == '/' && "tools/list"@[6] == 'l',
        "tools/call"@.len() == 10 && "tools/call"@[5] == '/' && "tools/call"@[6] == 'c',
        "session_id"@.len() == 10 && "session_id"@[5] == 'o' && "session_id"@[6] == 'n',
        "checkpoint"@.len() == 10 && "checkpoint"@[5] == 'p' && "checkpoint"@[6] == 'o',
        "text_delta"@.len() == 10 && "text_delta"@[5] == 'd' && "text_delta"@[6] == 'e',
        "cacheWrite"@.len() == 10 && "cacheWrite"@[5] == 'W' && "cacheWrite"@[6] == 'r',
        "description"@.len() == 11 && "description"@[6] == 'p' && "description"@[0] == 'd',
        "inputSchema"@.len() == 11 && "inputSchema"@[6] == 'c' && "inputSchema"@[0] == 'i',
        "mcp_message"@.len() == 11 && "mcp_message"@[6] == 's' && "mcp_message"@[0] == 'm',
        "server_name"@.len() == 11 && "server_name"@[6] == '_' && "server_name"@[0] == 's',
        "tool_use_id"@.len() == 11 && "tool_use_id"@[6] == 's' && "tool_use_id"@[0] == 't',
        "tool_result"@.len() == 11 && "tool_result"@[6] == 'e' && "tool_result"@[0] == 't',
        "interrupted"@.len() == 11 && "interrupted"@[6] == 'u' && "interrupted"@[0] == 'i',
        "isSynthetic"@.len() == 11 && "isSynthetic"@[6] == 'h' && "isSynthetic"@[0] == 'i',
        "shouldQuery"@.len() == 11 && "shouldQuery"@[6] == 'Q' && "shouldQuery"@[0] == 's',
        "totalTokens"@.len() == 11 && "totalTokens"@[6] == 'o' && "totalTokens"@[0] == 't',
        "stream_event"@.len() == 12 && "stream_event"@[4] == 'a' && "stream_event"@[0] == 's',
        "mcp_response"@.len() == 12 && "mcp_response"@[4] == 'r' && "mcp_response"@[0] == 'm',
        "capabilities"@.len() == 12 && "capabilities"@[4] == 'b' && "capabilities"@[0] == 'c',
        "command_uuid"@.len() == 12 && "command_uuid"@[4] == 'a' && "command_uuid"@[0] == 'c',
        "partial_json"@.len() == 12 && "partial_json"@[4] == 'i' && "partial_json"@[0] == 'p',
        "native_event"@.len() == 12 && "native_event"@[4] == 'v' && "native_event"@[0] == 'n',
        "item_started"@.len() == 12 && "item_started"@[4] == '_' && "item_started"@[0] == 'i',
        "child_result"@.len() == 12 && "child_result"@[4] == 'd' && "child_result"@[0] == 'c',
        "contextUsage"@.len() == 12 && "contextUsage"@[4] == 'e' && "contextUsage"@[0] == 'c',
        "input_tokens"@.len() == 12 && "input_tokens"@[4] == 't' && "input_tokens"@[0] == 'i',
        "hook_callback"@.len() == 13 && "hook_callback"@[5] == 'c',
        "message_start"@.len() == 13 && "message_start"@[5] == 'g',
        "content_block"@.len() == 13 && "content_block"@[5] == 'n',
        "output_tokens"@.len() == 13 && "output_tokens"@[5] == 't',
        "cancel_queued"@.len() == 13 && "cancel_queued"@[5] == 'l',
        "contextWindow"@.len() == 13 && "contextWindow"@[5] == 'x',
        "permissionMode"@.len() == 14 && "permissionMode"@[1] == 'e',
        "thinking_delta"@.len() == 14 && "thinking_delta"@[1] == 'h',
        "item_completed"@.len() == 14 && "item_completed"@[1] == 't',
        "total_cost_usd"@.len() == 14 && "total_cost_usd"@[1] == 'o',
        "protocolVersion"@.len() == 15 && "protocolVersion"@[0] == 'p',
        "control_request"@.len() == 15 && "control_request"@[0] == 'c',
        "fast_mode_state"@.len() == 15 && "fast_mode_state"@[0] == 'f',
        "control_response"@.len() == 16 && "control_response"@[2] == 'n',
        "msg_lifecycle_v1"@.len() == 16 && "msg_lifecycle_v1"@[2] == 'g',
        "compact_boundary"@.len() == 16 && "compact_boundary"@[2] == 'm',
        "command_lifecycle"@.len() == 17 && "command_lifecycle"@[0] == 'c',
        "bypassPermissions"@.len() == 17 && "bypassPermissions"@[0] == 'b',
        "user_message_uuid"@.len() == 17 && "user_message_uuid"@[0] == 'u',
        "parent_tool_use_id"@.len() == 18 && "parent_tool_use_id"@[0] == 'p',
        "content_block_stop"@.len() == 18 && "content_block_stop"@[0] == 'c',
        "user_message_uuids"@.len() == 18 && "user_message_uuids"@[0] == 'u',
        "estimated_cost_usd"@.len() == 18 && "estimated_cost_usd"@[0] == 'e',
        "content_block_start"@.len() == 19 && "content_block_start"@[14] == 's',
        "content_block_delta"@.len() == 19 && "content_block_delta"@[14] == 'd',
        "interaction_cancelled"@.len() == 21 && "interaction_cancelled"@[0] == 'i',
        "authentication_failed"@.len() == 21 && "authentication_failed"@[0] == 'a',
        "cache_read_input_tokens"@.len() == 23,
        "notifications/initialized"@.len() == 25,
        "interrupt_cancel_queued_v1"@.len() == 26,
        "cache_creation_input_tokens"@.len() == 27,
{
    reveal_strlit("id");
    reveal_strlit("on");
    reveal_strlit("type");
    reveal_strlit("init");
    reveal_strlit("user");
    reveal_strlit("deny");
    reveal_strlit("name");
    reveal_strlit("text");
    reveal_strlit("kind");
    reveal_strlit("uuid");
    reveal_strlit("role");
    reveal_strlit("tools");
    reveal_strlit("model");
    reveal_strlit("state");
    reveal_strlit("event");
    reveal_strlit("index");
    reveal_strlit("delta");
    reveal_strlit("input");
    reveal_strlit("usage");
    reveal_strlit("error");
    reveal_strlit("close");
    reveal_strlit("total");
    reveal_strlit("system");
    reveal_strlit("result");
    reveal_strlit("reason");
    reveal_strlit("method");
    reveal_strlit("params");
    reveal_strlit("prompt");
    reveal_strlit("queued");
    reveal_strlit("notice");
    reveal_strlit("failed");
    reveal_strlit("tokens");
    reveal_strlit("output");
    reveal_strlit("version");
    reveal_strlit("subtype");
    reveal_strlit("request");
    reveal_strlit("success");
    reveal_strlit("message");
    reveal_strlit("harness");
    reveal_strlit("jsonrpc");
    reveal_strlit("isError");
    reveal_strlit("content");
    reveal_strlit("started");
    reveal_strlit("compact");
    reveal_strlit("item_id");
    reveal_strlit("response");
    reveal_strlit("continue");
    reveal_strlit("behavior");
    reveal_strlit("delegate");
    reveal_strlit("rejected");
    reveal_strlit("thinking");
    reveal_strlit("tool_use");
    reveal_strlit("is_error");
    reveal_strlit("isReplay");
    reveal_strlit("assistant");
    reveal_strlit("cloudroom");
    reveal_strlit("arguments");
    reveal_strlit("cancelled");
    reveal_strlit("bootstrap");
    reveal_strlit("item_type");
    reveal_strlit("tool_name");
    reveal_strlit("completed");
    reveal_strlit("interrupt");
    reveal_strlit("lastUsage");
    reveal_strlit("cacheRead");
    reveal_strlit("serverInfo");
    reveal_strlit("request_id");
    reveal_strlit("stopReason");
    reveal_strlit("initialize");
    reveal_strlit("tools/list");
    reveal_strlit("tools/call");
    reveal_strlit("session_id");
    reveal_strlit("checkpoint");
    reveal_strlit("text_delta");
    reveal_strlit("cacheWrite");
    reveal_strlit("description");
    reveal_strlit("inputSchema");
    reveal_strlit("mcp_message");
    reveal_strlit("server_name");
    reveal_strlit("tool_use_id");
    reveal_strlit("tool_result");
    reveal_strlit("interrupted");
    reveal_strlit("isSynthetic");
    reveal_strlit("shouldQuery");
    reveal_strlit("totalTokens");
    reveal_strlit("stream_event");
    reveal_strlit("mcp_response");
    reveal_strlit("capabilities");
    reveal_strlit("command_uuid");
    reveal_strlit("partial_json");
    reveal_strlit("native_event");
    reveal_strlit("item_started");
    reveal_strlit("child_result");
    reveal_strlit("contextUsage");
    reveal_strlit("input_tokens");
    reveal_strlit("hook_callback");
    reveal_strlit("message_start");
    reveal_strlit("content_block");
    reveal_strlit("output_tokens");
    reveal_strlit("cancel_queued");
    reveal_strlit("contextWindow");
    reveal_strlit("permissionMode");
    reveal_strlit("thinking_delta");
    reveal_strlit("item_completed");
    reveal_strlit("total_cost_usd");
    reveal_strlit("protocolVersion");
    reveal_strlit("control_request");
    reveal_strlit("fast_mode_state");
    reveal_strlit("control_response");
    reveal_strlit("msg_lifecycle_v1");
    reveal_strlit("compact_boundary");
    reveal_strlit("command_lifecycle");
    reveal_strlit("bypassPermissions");
    reveal_strlit("user_message_uuid");
    reveal_strlit("parent_tool_use_id");
    reveal_strlit("content_block_stop");
    reveal_strlit("user_message_uuids");
    reveal_strlit("estimated_cost_usd");
    reveal_strlit("content_block_start");
    reveal_strlit("content_block_delta");
    reveal_strlit("interaction_cancelled");
    reveal_strlit("authentication_failed");
    reveal_strlit("cache_read_input_tokens");
    reveal_strlit("notifications/initialized");
    reveal_strlit("interrupt_cancel_queued_v1");
    reveal_strlit("cache_creation_input_tokens");
    assert("id"@.len() == 2 && "id"@[0] == 'i');
    assert("on"@.len() == 2 && "on"@[0] == 'o');
    assert("type"@.len() == 4 && "type"@[1] == 'y' && "type"@[0] == 't');
    assert("init"@.len() == 4 && "init"@[1] == 'n' && "init"@[0] == 'i');
    assert("user"@.len() == 4 && "user"@[1] == 's' && "user"@[0] == 'u');
    assert("deny"@.len() == 4 && "deny"@[1] == 'e' && "deny"@[0] == 'd');
    assert("name"@.len() == 4 && "name"@[1] == 'a' && "name"@[0] == 'n');
    assert("text"@.len() == 4 && "text"@[1] == 'e' && "text"@[0] == 't');
    assert("kind"@.len() == 4 && "kind"@[1] == 'i' && "kind"@[0] == 'k');
    assert("uuid"@.len() == 4 && "uuid"@[1] == 'u' && "uuid"@[0] == 'u');
    assert("role"@.len() == 4 && "role"@[1] == 'o' && "role"@[0] == 'r');
    assert("tools"@.len() == 5 && "tools"@[3] == 'l' && "tools"@[0] == 't');
    assert("model"@.len() == 5 && "model"@[3] == 'e' && "model"@[0] == 'm');
    assert("state"@.len() == 5 && "state"@[3] == 't' && "state"@[0] == 's');
    assert("event"@.len() == 5 && "event"@[3] == 'n' && "event"@[0] == 'e');
    assert("index"@.len() == 5 && "index"@[3] == 'e' && "index"@[0] == 'i');
    assert("delta"@.len() == 5 && "delta"@[3] == 't' && "delta"@[0] == 'd');
    assert("input"@.len() == 5 && "input"@[3] == 'u' && "input"@[0] == 'i');
    assert("usage"@.len() == 5 && "usage"@[3] == 'g' && "usage"@[0] == 'u');
    assert("error"@.len() == 5 && "error"@[3] == 'o' && "error"@[0] == 'e');
    assert("close"@.len() == 5 && "close"@[3] == 's' && "close"@[0] == 'c');
    assert("total"@.len() == 5 && "total"@[3] == 'a' && "total"@[0] == 't');
    assert("system"@.len() == 6 && "system"@[3] == 't' && "system"@[0] == 's');
    assert("result"@.len() == 6 && "result"@[3] == 'u' && "result"@[0] == 'r');
    assert("reason"@.len() == 6 && "reason"@[3] == 's' && "reason"@[0] == 'r');
    assert("method"@.len() == 6 && "method"@[3] == 'h' && "method"@[0] == 'm');
    assert("params"@.len() == 6 && "params"@[3] == 'a' && "params"@[0] == 'p');
    assert("prompt"@.len() == 6 && "prompt"@[3] == 'm' && "prompt"@[0] == 'p');
    assert("queued"@.len() == 6 && "queued"@[3] == 'u' && "queued"@[0] == 'q');
    assert("notice"@.len() == 6 && "notice"@[3] == 'i' && "notice"@[0] == 'n');
    assert("failed"@.len() == 6 && "failed"@[3] == 'l' && "failed"@[0] == 'f');
    assert("tokens"@.len() == 6 && "tokens"@[3] == 'e' && "tokens"@[0] == 't');
    assert("output"@.len() == 6 && "output"@[3] == 'p' && "output"@[0] == 'o');
    assert("version"@.len() == 7 && "version"@[2] == 'r' && "version"@[0] == 'v');
    assert("subtype"@.len() == 7 && "subtype"@[2] == 'b' && "subtype"@[0] == 's');
    assert("request"@.len() == 7 && "request"@[2] == 'q' && "request"@[0] == 'r');
    assert("success"@.len() == 7 && "success"@[2] == 'c' && "success"@[0] == 's');
    assert("message"@.len() == 7 && "message"@[2] == 's' && "message"@[0] == 'm');
    assert("harness"@.len() == 7 && "harness"@[2] == 'r' && "harness"@[0] == 'h');
    assert("jsonrpc"@.len() == 7 && "jsonrpc"@[2] == 'o' && "jsonrpc"@[0] == 'j');
    assert("isError"@.len() == 7 && "isError"@[2] == 'E' && "isError"@[0] == 'i');
    assert("content"@.len() == 7 && "content"@[2] == 'n' && "content"@[0] == 'c');
    assert("started"@.len() == 7 && "started"@[2] == 'a' && "started"@[0] == 's');
    assert("compact"@.len() == 7 && "compact"@[2] == 'm' && "compact"@[0] == 'c');
    assert("item_id"@.len() == 7 && "item_id"@[2] == 'e' && "item_id"@[0] == 'i');
    assert("response"@.len() == 8 && "response"@[2] == 's');
    assert("continue"@.len() == 8 && "continue"@[2] == 'n');
    assert("behavior"@.len() == 8 && "behavior"@[2] == 'h');
    assert("delegate"@.len() == 8 && "delegate"@[2] == 'l');
    assert("rejected"@.len() == 8 && "rejected"@[2] == 'j');
    assert("thinking"@.len() == 8 && "thinking"@[2] == 'i');
    assert("tool_use"@.len() == 8 && "tool_use"@[2] == 'o');
    assert("is_error"@.len() == 8 && "is_error"@[2] == '_');
    assert("isReplay"@.len() == 8 && "isReplay"@[2] == 'R');
    assert("assistant"@.len() == 9 && "assistant"@[3] == 'i' && "assistant"@[0] == 'a');
    assert("cloudroom"@.len() == 9 && "cloudroom"@[3] == 'u' && "cloudroom"@[0] == 'c');
    assert("arguments"@.len() == 9 && "arguments"@[3] == 'u' && "arguments"@[0] == 'a');
    assert("cancelled"@.len() == 9 && "cancelled"@[3] == 'c' && "cancelled"@[0] == 'c');
    assert("bootstrap"@.len() == 9 && "bootstrap"@[3] == 't' && "bootstrap"@[0] == 'b');
    assert("item_type"@.len() == 9 && "item_type"@[3] == 'm' && "item_type"@[0] == 'i');
    assert("tool_name"@.len() == 9 && "tool_name"@[3] == 'l' && "tool_name"@[0] == 't');
    assert("completed"@.len() == 9 && "completed"@[3] == 'p' && "completed"@[0] == 'c');
    assert("interrupt"@.len() == 9 && "interrupt"@[3] == 'e' && "interrupt"@[0] == 'i');
    assert("lastUsage"@.len() == 9 && "lastUsage"@[3] == 't' && "lastUsage"@[0] == 'l');
    assert("cacheRead"@.len() == 9 && "cacheRead"@[3] == 'h' && "cacheRead"@[0] == 'c');
    assert("serverInfo"@.len() == 10 && "serverInfo"@[5] == 'r' && "serverInfo"@[6] == 'I');
    assert("request_id"@.len() == 10 && "request_id"@[5] == 's' && "request_id"@[6] == 't');
    assert("stopReason"@.len() == 10 && "stopReason"@[5] == 'e' && "stopReason"@[6] == 'a');
    assert("initialize"@.len() == 10 && "initialize"@[5] == 'a' && "initialize"@[6] == 'l');
    assert("tools/list"@.len() == 10 && "tools/list"@[5] == '/' && "tools/list"@[6] == 'l');
    assert("tools/call"@.len() == 10 && "tools/call"@[5] == '/' && "tools/call"@[6] == 'c');
    assert("session_id"@.len() == 10 && "session_id"@[5] == 'o' && "session_id"@[6] == 'n');
    assert("checkpoint"@.len() == 10 && "checkpoint"@[5] == 'p' && "checkpoint"@[6] == 'o');
    assert("text_delta"@.len() == 10 && "text_delta"@[5] == 'd' && "text_delta"@[6] == 'e');
    assert("cacheWrite"@.len() == 10 && "cacheWrite"@[5] == 'W' && "cacheWrite"@[6] == 'r');
    assert("description"@.len() == 11 && "description"@[6] == 'p' && "description"@[0] == 'd');
    assert("inputSchema"@.len() == 11 && "inputSchema"@[6] == 'c' && "inputSchema"@[0] == 'i');
    assert("mcp_message"@.len() == 11 && "mcp_message"@[6] == 's' && "mcp_message"@[0] == 'm');
    assert("server_name"@.len() == 11 && "server_name"@[6] == '_' && "server_name"@[0] == 's');
    assert("tool_use_id"@.len() == 11 && "tool_use_id"@[6] == 's' && "tool_use_id"@[0] == 't');
    assert("tool_result"@.len() == 11 && "tool_result"@[6] == 'e' && "tool_result"@[0] == 't');
    assert("interrupted"@.len() == 11 && "interrupted"@[6] == 'u' && "interrupted"@[0] == 'i');
    assert("isSynthetic"@.len() == 11 && "isSynthetic"@[6] == 'h' && "isSynthetic"@[0] == 'i');
    assert("shouldQuery"@.len() == 11 && "shouldQuery"@[6] == 'Q' && "shouldQuery"@[0] == 's');
    assert("totalTokens"@.len() == 11 && "totalTokens"@[6] == 'o' && "totalTokens"@[0] == 't');
    assert("stream_event"@.len() == 12 && "stream_event"@[4] == 'a' && "stream_event"@[0] == 's');
    assert("mcp_response"@.len() == 12 && "mcp_response"@[4] == 'r' && "mcp_response"@[0] == 'm');
    assert("capabilities"@.len() == 12 && "capabilities"@[4] == 'b' && "capabilities"@[0] == 'c');
    assert("command_uuid"@.len() == 12 && "command_uuid"@[4] == 'a' && "command_uuid"@[0] == 'c');
    assert("partial_json"@.len() == 12 && "partial_json"@[4] == 'i' && "partial_json"@[0] == 'p');
    assert("native_event"@.len() == 12 && "native_event"@[4] == 'v' && "native_event"@[0] == 'n');
    assert("item_started"@.len() == 12 && "item_started"@[4] == '_' && "item_started"@[0] == 'i');
    assert("child_result"@.len() == 12 && "child_result"@[4] == 'd' && "child_result"@[0] == 'c');
    assert("contextUsage"@.len() == 12 && "contextUsage"@[4] == 'e' && "contextUsage"@[0] == 'c');
    assert("input_tokens"@.len() == 12 && "input_tokens"@[4] == 't' && "input_tokens"@[0] == 'i');
    assert("hook_callback"@.len() == 13 && "hook_callback"@[5] == 'c');
    assert("message_start"@.len() == 13 && "message_start"@[5] == 'g');
    assert("content_block"@.len() == 13 && "content_block"@[5] == 'n');
    assert("output_tokens"@.len() == 13 && "output_tokens"@[5] == 't');
    assert("cancel_queued"@.len() == 13 && "cancel_queued"@[5] == 'l');
    assert("contextWindow"@.len() == 13 && "contextWindow"@[5] == 'x');
    assert("permissionMode"@.len() == 14 && "permissionMode"@[1] == 'e');
    assert("thinking_delta"@.len() == 14 && "thinking_delta"@[1] == 'h');
    assert("item_completed"@.len() == 14 && "item_completed"@[1] == 't');
    assert("total_cost_usd"@.len() == 14 && "total_cost_usd"@[1] == 'o');
    assert("protocolVersion"@.len() == 15 && "protocolVersion"@[0] == 'p');
    assert("control_request"@.len() == 15 && "control_request"@[0] == 'c');
    assert("fast_mode_state"@.len() == 15 && "fast_mode_state"@[0] == 'f');
    assert("control_response"@.len() == 16 && "control_response"@[2] == 'n');
    assert("msg_lifecycle_v1"@.len() == 16 && "msg_lifecycle_v1"@[2] == 'g');
    assert("compact_boundary"@.len() == 16 && "compact_boundary"@[2] == 'm');
    assert("command_lifecycle"@.len() == 17 && "command_lifecycle"@[0] == 'c');
    assert("bypassPermissions"@.len() == 17 && "bypassPermissions"@[0] == 'b');
    assert("user_message_uuid"@.len() == 17 && "user_message_uuid"@[0] == 'u');
    assert("parent_tool_use_id"@.len() == 18 && "parent_tool_use_id"@[0] == 'p');
    assert("content_block_stop"@.len() == 18 && "content_block_stop"@[0] == 'c');
    assert("user_message_uuids"@.len() == 18 && "user_message_uuids"@[0] == 'u');
    assert("estimated_cost_usd"@.len() == 18 && "estimated_cost_usd"@[0] == 'e');
    assert("content_block_start"@.len() == 19 && "content_block_start"@[14] == 's');
    assert("content_block_delta"@.len() == 19 && "content_block_delta"@[14] == 'd');
    assert("interaction_cancelled"@.len() == 21 && "interaction_cancelled"@[0] == 'i');
    assert("authentication_failed"@.len() == 21 && "authentication_failed"@[0] == 'a');
    assert("cache_read_input_tokens"@.len() == 23);
    assert("notifications/initialized"@.len() == 25);
    assert("interrupt_cancel_queued_v1"@.len() == 26);
    assert("cache_creation_input_tokens"@.len() == 27);
}
/// What an event records of a kind.
pub open spec fn records(event: EventView, kind: Seq<char>) -> bool {
    event matches EventView::Record { kind: k, .. } && k == kind
}

/// What an event that is a record holds.
pub open spec fn recorded(event: EventView) -> Data {
    match event {
        EventView::Record { data, .. } => data,
        _ => Data::Null,
    }
}

/// A line of the conversation itself.
pub open spec fn of_the_conversation(p: ProtocolView, value: Data) -> bool {
    &&& !(value.field("parent_tool_use_id"@) is Text)
    &&& value.field("session_id"@) is Text ==> value.field("session_id"@) == Data::Text(p.native)
}

// Requests of the harness.

/// What the harness would ask its user is denied at once, and that is told; a subagent of its own is
/// stopped.
pub proof fn questions_are_denied(
    p: ProtocolView,
    s: ProgressView,
    value: Data,
    raw: Seq<char>,
    id: Seq<char>,
)
    requires
        value.field("type"@) == Data::Text("control_request"@),
        value.field("request_id"@) == Data::Text(id),
        value.field("request"@).field("subtype"@) != Data::Text("mcp_message"@),
    ensures
        ({
            let (q, after, told) = received(p, s, value, raw);
            let answer = q.frames[0].field("response"@);
            &&& after == s
            &&& told is Ok && told->Ok_0.len() == 1 && records(
                told->Ok_0[0],
                "interaction_cancelled"@,
            )
            &&& q.frames.len() == 1
            &&& q.frames[0].field("type"@) == Data::Text("control_response"@)
            &&& answer.field("subtype"@) == Data::Text("success"@)
            &&& answer.field("request_id"@) == Data::Text(id)
            &&& value.field("request"@).field("subtype"@) == Data::Text("hook_callback"@)
                ==> answer.field("response"@).field("continue"@) == Data::Bool(false)
            &&& value.field("request"@).field("subtype"@) != Data::Text("hook_callback"@)
                ==> answer.field("response"@).field("behavior"@) == Data::Text("deny"@)
        }),
{
    stream_words();
}

/// A request to the tools of the service.
pub open spec fn asks_a_tool(value: Data, wire: Seq<char>) -> bool {
    &&& value.field("type"@) == Data::Text("control_request"@)
    &&& value.field("request"@).field("subtype"@) == Data::Text("mcp_message"@)
    &&& value.field("request"@).field("server_name"@) == Data::Text("cloudroom"@)
    &&& value.field("request_id"@) == Data::Text(wire)
    &&& 0 < wire.len() && byte_len(wire) <= 48 && all_in(wire, Class::Alnum, "-"@)
}

/// A task that the turn that runs delegates is asked for as a child of its request, once.
pub proof fn tasks_are_delegated_in_a_turn(
    p: ProtocolView,
    s: ProgressView,
    value: Data,
    raw: Seq<char>,
    wire: Seq<char>,
    task: Seq<char>,
)
    requires
        asks_a_tool(value, wire),
        value.field("request"@).field("message"@).field("method"@) == Data::Text("tools/call"@),
        value.field("request"@).field("message"@).field("params"@).field("name"@) == Data::Text(
            "delegate"@,
        ),
        value.field("request"@).field("message"@).field("params"@).field("arguments"@).field(
            "prompt"@,
        ) == Data::Text(task),
        !blank(task),
        byte_len(task) <= 32768,
    ensures
        ({
            let (q, after, told) = received(p, s, value, raw);
            let runs = p.active is Some && s.request == Some(p.active->0.request) && !s.finished;
            &&& after == s && told is Ok
            &&& runs && !p.children.contains_key(wire) ==> told->Ok_0.len() == 1 && told->Ok_0[0]
                == EventView::ChildRequest(
                ChildView {
                    request: s.request->0,
                    id: wire,
                    tool_call_id: wire,
                    prompt: task,
                },
            ) && q.children.contains_key(wire) && q.frames.len() == 0
            &&& runs && p.children.contains_key(wire) ==> told->Ok_0.len() == 0
            &&& !runs ==> told->Ok_0.len() == 0 && q.frames.len() == 1 && q.frames[0].field(
                "response"@,
            ).field("request_id"@) == Data::Text(wire) && q.children == p.children
        }),
{
    stream_words();
}

/// The tools of the service are told of where they are asked for, and each answer goes to its question.
pub proof fn tools_are_told_of(
    p: ProtocolView,
    s: ProgressView,
    value: Data,
    raw: Seq<char>,
    wire: Seq<char>,
    rpc: Data,
)
    requires
        asks_a_tool(value, wire),
        value.field("request"@).field("message"@).get("id"@) == Some(rpc),
        value.field("request"@).field("message"@).field("method"@) == Data::Text("tools/list"@)
            || value.field("request"@).field("message"@).field("method"@) == Data::Text(
            "initialize"@,
        ),
    ensures
        ({
            let (q, after, told) = received(p, s, value, raw);
            let answer = q.frames[0].field("response"@);
            let said = answer.field("response"@).field("mcp_response"@);
            &&& after == s && told is Ok && told->Ok_0.len() == 0
            &&& q.frames.len() == 1 && answer.field("request_id"@) == Data::Text(wire)
            &&& said.field("id"@) == rpc
            &&& value.field("request"@).field("message"@).field("method"@) == Data::Text(
                "tools/list"@,
            ) ==> (said.field("result"@).field("tools"@) matches Data::Array(tools) && tools.len() == 1
                && tools[0].field("name"@) == Data::Text("delegate"@))
            &&& value.field("request"@).field("message"@).field("method"@) == Data::Text(
                "initialize"@,
            ) ==> said.field("result"@).get("capabilities"@) is Some
        }),
{
    stream_words();
}

/// An answer of the harness is that to the call with its number; it failed unless it says that it succeeded.
pub proof fn answers_are_those_of_their_call(
    p: ProtocolView,
    s: ProgressView,
    value: Data,
    raw: Seq<char>,
    wire: Seq<char>,
)
    requires
        value.field("type"@) == Data::Text("control_response"@),
        value.field("response"@).field("request_id"@) == Data::Text(wire),
    ensures
        ({
            let (q, after, told) = received(p, s, value, raw);
            let response = value.field("response"@);
            &&& after == s && told is Ok && told->Ok_0.len() == 0
            &&& number(wire, u64::MAX as nat) matches Some(n) ==> (q.reply matches Some(reply)
                && reply.id == n && reply.value == response.field("response"@) && (reply.failed
                <==> response.field("subtype"@) != Data::Text("success"@)))
            &&& number(wire, u64::MAX as nat) is None && p.users.contains_key(wire) ==> (
            q.reply matches Some(reply) && reply.id == p.users[wire].id && !q.users.contains_key(wire))
            &&& number(wire, u64::MAX as nat) is None && !p.users.contains_key(wire) ==> q.reply
                is None
        }),
{
    stream_words();
}

// Lines that are refused.

/// What a subagent of the harness, or another conversation, says is refused.
pub proof fn strangers_are_refused(p: ProtocolView, s: ProgressView, value: Data, raw: Seq<char>)
    requires
        value.field("type"@) != Data::Text("control_request"@),
        value.field("type"@) != Data::Text("control_response"@),
        value.field("parent_tool_use_id"@) is Text || (value.field("session_id"@) is Text
            && value.field("session_id"@) != Data::Text(p.native)),
    ensures
        received(p, s, value, raw).2 is Err,
        received(p, s, value, raw).1 == s,
{
    stream_words();
}

/// A harness is taken exactly where it can do what is needed and works as it was told to; its model is known
/// from then on.
pub proof fn harnesses_introduce_themselves(
    p: ProtocolView,
    s: ProgressView,
    value: Data,
    raw: Seq<char>,
    abilities: Seq<Data>,
)
    requires
        value.field("type"@) == Data::Text("system"@),
        value.field("subtype"@) == Data::Text("init"@),
        of_the_conversation(p, value),
        value.field("capabilities"@) == Data::Array(abilities),
    ensures
        ({
            let (q, after, told) = received(p, s, value, raw);
            let able = abilities.contains(Data::Text("msg_lifecycle_v1"@)) && abilities.contains(
                Data::Text("interrupt_cancel_queued_v1"@),
            ) && value.field("permissionMode"@) == Data::Text("bypassPermissions"@) && value.field(
                "fast_mode_state"@,
            ) != Data::Text("on"@);
            &&& told is Ok <==> able
            &&& able ==> after.native == Some(p.native)
            &&& able && value.field("model"@) is Text ==> Data::Text(after.model->0) == value.field(
                "model"@,
            ) && after.model is Some
        }),
{
    stream_words();
}

// Messages and turns.

/// A message that the harness queues is taken; one that it rejects or cancels has failed.
pub proof fn messages_are_taken_or_refused(
    p: ProtocolView,
    s: ProgressView,
    value: Data,
    raw: Seq<char>,
    wire: Seq<char>,
)
    requires
        value.field("type"@) == Data::Text("command_lifecycle"@),
        of_the_conversation(p, value),
        value.field("command_uuid"@) == Data::Text(wire),
        p.users.contains_key(wire),
        p.users[wire].kind != "bootstrap"@,
    ensures
        ({
            let (q, after, told) = received(p, s, value, raw);
            let state = value.field("state"@);
            &&& told is Ok
            &&& state == Data::Text("queued"@) ==> (q.reply matches Some(r) && r.id
                == p.users[wire].id && !r.failed)
            &&& state == Data::Text("rejected"@) || state == Data::Text("cancelled"@) ==> (
            q.reply matches Some(r) && r.id == p.users[wire].id && r.failed)
            &&& state == Data::Text("started"@) ==> q.reply is None
        }),
{
    stream_words();
}

/// A turn begins with its own message: it is told to have begun, and marked as a place to go back to.
pub proof fn turns_begin_with_their_message(
    p: ProtocolView,
    s: ProgressView,
    value: Data,
    raw: Seq<char>,
    wire: Seq<char>,
)
    requires
        value.field("type"@) == Data::Text("command_lifecycle"@),
        of_the_conversation(p, value),
        value.field("command_uuid"@) == Data::Text(wire),
        value.field("state"@) == Data::Text("started"@),
        p.users.contains_key(wire),
        s.request is Some,
        !s.started,
        !s.finished,
    ensures
        ({
            let (q, after, told) = received(p, s, value, raw);
            let ours = p.active is Some && p.active->0.wire == wire;
            &&& told is Ok
            &&& ours ==> after.started && told->Ok_0.len() == 3 && told->Ok_0[1]
                == (EventView::Started { request: s.request->0, native_turn: s.native_turn })
                && records(told->Ok_0[2], "checkpoint"@) && recorded(told->Ok_0[2]).field("kind"@)
                == Data::Text("message"@) && recorded(told->Ok_0[2]).field("id"@) == Data::Text(wire)
                && recorded(told->Ok_0[2]).field("request_id"@) == Data::Text(s.request->0)
            &&& !ours ==> after == s && told->Ok_0.len() == 1
        }),
{
    stream_words();
}

/// The result of the turn that runs: it names the message of the turn.
pub open spec fn ends_the_turn(p: ProtocolView, value: Data) -> bool {
    &&& value.field("type"@) == Data::Text("result"@)
    &&& of_the_conversation(p, value)
    &&& p.active is Some
    &&& value.field("user_message_uuid"@) == Data::Text(p.active->0.wire)
    &&& !(value.field("user_message_uuids"@) is Array)
}

/// A turn ends with its result: interrupted where that was asked for, completed where it succeeded, else
/// failed; what it used is kept and recorded.
pub proof fn turns_end_with_their_result(
    p: ProtocolView,
    s: ProgressView,
    value: Data,
    raw: Seq<char>,
)
    requires
        ends_the_turn(p, value),
        s.request is Some,
        !s.finished,
    ensures
        ({
            let (q, after, told) = received(p, s, value, raw);
            let succeeded = value.field("is_error"@) == Data::Bool(false) && value.field("subtype"@)
                == Data::Text("success"@);
            &&& told is Ok
            &&& q.active is None && q.children == Map::<Seq<char>, Data>::empty()
            &&& after.finished && after.request == s.request
            &&& after.last_usage == usage_data(value)
            &&& recorded(told->Ok_0[0]).field("usage"@) == usage_data(value)
            &&& told->Ok_0.last() matches EventView::Finished { request, status, error } && request
                == s.request->0 && error is None && (p.interrupting ==> status == "interrupted"@) && (
            !p.interrupting && succeeded ==> status == "completed"@) && (!p.interrupting && !succeeded
                ==> status == "failed"@)
        }),
{
    stream_words();
    one_settles(p, value);
}

proof fn one_settles(p: ProtocolView, value: Data)
    requires
        ends_the_turn(p, value),
    ensures
        super::claude_protocol::settled_ids(value) == seq![p.active->0.wire],
        forall|q: ProtocolView, failed: bool| #[trigger]
            super::claude_protocol::settled(q, seq![p.active->0.wire], failed).0.active == q.active,
        forall|q: ProtocolView, failed: bool| #[trigger]
            super::claude_protocol::settled(q, seq![p.active->0.wire], failed).0.interrupting
                == q.interrupting,
{
    let wire = p.active->0.wire;
    let none: Seq<Data> = Seq::empty();
    assert(value.field("user_message_uuids"@).items() =~= none);
    assert(super::claude_protocol::settled_ids(value) =~= seq![wire]);
    assert(seq![wire].drop_last() =~= Seq::<Seq<char>>::empty());
    reveal_with_fuel(super::claude_protocol::settled, 2);
}

/// A result of another message does not end the turn.
pub proof fn other_results_leave_the_turn(
    p: ProtocolView,
    s: ProgressView,
    value: Data,
    raw: Seq<char>,
)
    requires
        value.field("type"@) == Data::Text("result"@),
        of_the_conversation(p, value),
        !(value.field("user_message_uuids"@) is Array),
        !(value.field("user_message_uuid"@) is Text),
    ensures
        received(p, s, value, raw).2 is Ok,
        received(p, s, value, raw).1 == s,
        received(p, s, value, raw).0.active == p.active,
{
    stream_words();
    let none: Seq<Data> = Seq::empty();
    assert(value.field("user_message_uuids"@).items() =~= none);
    assert(super::claude_protocol::settled_ids(value) =~= Seq::<Seq<char>>::empty());
}

/// A compaction ends with the result of its message: completed where the conversation was compacted and
/// nothing failed.
pub proof fn compactions_end_with_their_result(
    p: ProtocolView,
    s: ProgressView,
    value: Data,
    raw: Seq<char>,
    wire: Seq<char>,
)
    requires
        value.field("type"@) == Data::Text("result"@),
        of_the_conversation(p, value),
        value.field("user_message_uuid"@) == Data::Text(wire),
        !(value.field("user_message_uuids"@) is Array),
        p.active is None,
        p.users.contains_key(wire),
        p.users[wire].kind == "compact"@,
    ensures
        ({
            let (q, after, told) = received(p, s, value, raw);
            let done = p.compacted && value.field("is_error"@) != Data::Bool(true);
            &&& told is Ok && told->Ok_0.len() == 2 && after == s
            &&& done ==> told->Ok_0[1] == (EventView::Compacted { status: "completed"@ })
            &&& !done ==> told->Ok_0[1] == (EventView::Compacted { status: "failed"@ })
        }),
{
    stream_words();
    let none: Seq<Data> = Seq::empty();
    assert(value.field("user_message_uuids"@).items() =~= none);
    assert(super::claude_protocol::settled_ids(value) =~= seq![wire]);
    assert(seq![wire].drop_last() =~= Seq::<Seq<char>>::empty());
    reveal_with_fuel(super::claude_protocol::settled, 2);
}

/// A compaction is known to have been made by the line that says so.
pub proof fn compactions_are_noticed(p: ProtocolView, s: ProgressView, value: Data, raw: Seq<char>)
    requires
        value.field("type"@) == Data::Text("system"@),
        value.field("subtype"@) == Data::Text("compact_boundary"@),
        of_the_conversation(p, value),
    ensures
        received(p, s, value, raw).0.compacted,
        received(p, s, value, raw).2 is Ok,
{
    stream_words();
}

/// An account that the harness cannot use is told of; one that a turn has used is told to be accepted.
pub proof fn accounts_are_judged(p: ProtocolView, s: ProgressView, value: Data, raw: Seq<char>)
    requires
        of_the_conversation(p, value),
    ensures
        value.field("type"@) == Data::Text("assistant"@) && value.field("error"@) == Data::Text(
            "authentication_failed"@,
        ) && value.field("isReplay"@) != Data::Bool(true) ==> received(p, s, value, raw).2->Ok_0[1]
            == (EventView::Authentication { accepted: false }),
        ends_the_turn(p, value) && !p.interrupting && value.field("is_error"@) == Data::Bool(false)
            && value.field("subtype"@) == Data::Text("success"@) && (value.field("usage"@).field(
            "output_tokens"@,
        ) matches Data::Number(Number::Unsigned(n)) && n > 0) ==> account_accepted(p, value),
{
    stream_words();
}

// What is said.

/// A piece of text that comes is recorded as such, of the item that it belongs to, and is added to it.
pub proof fn pieces_are_recorded_and_added(
    p: ProtocolView,
    s: ProgressView,
    value: Data,
    raw: Seq<char>,
    index: u64,
    text: Seq<char>,
    before: Seq<char>,
)
    requires
        value.field("type"@) == Data::Text("stream_event"@),
        of_the_conversation(p, value),
        value.field("event"@).field("type"@) == Data::Text("content_block_delta"@),
        value.field("event"@).field("index"@) == Data::Number(Number::Unsigned(index)),
        value.field("event"@).field("delta"@).field("type"@) == Data::Text("text_delta"@),
        value.field("event"@).field("delta"@).get("text"@) == Some(Data::Text(text)),
        p.blocks.contains_key(decimal(index as nat)),
        p.blocks[decimal(index as nat)].takes_fields(),
        p.blocks[decimal(index as nat)].field("text"@) == Data::Text(before),
        byte_len(before) + byte_len(text) <= MAX_LINE,
    ensures
        ({
            let (q, after, told) = received(p, s, value, raw);
            let block = p.blocks[decimal(index as nat)];
            &&& told is Ok && told->Ok_0.len() == 1 && after == s
            &&& records(told->Ok_0[0], "text_delta"@)
            &&& recorded(told->Ok_0[0]).field("delta"@) == Data::Text(text)
            &&& recorded(told->Ok_0[0]).field("item_id"@) == block.field("item_id"@)
            &&& q.blocks[decimal(index as nat)].field("text"@) == Data::Text(before + text)
            &&& told->Ok_0[0] matches EventView::Record { kind, data, native } && native == Some(raw)
        }),
{
    stream_words();
}

/// A piece that would make an item too long is refused.
pub proof fn items_have_a_limit(
    p: ProtocolView,
    s: ProgressView,
    value: Data,
    raw: Seq<char>,
    index: u64,
    text: Seq<char>,
    before: Seq<char>,
)
    requires
        value.field("type"@) == Data::Text("stream_event"@),
        value.field("event"@).field("type"@) == Data::Text("content_block_delta"@),
        value.field("event"@).field("index"@) == Data::Number(Number::Unsigned(index)),
        value.field("event"@).field("delta"@).get("text"@) == Some(Data::Text(text)),
        p.blocks.contains_key(decimal(index as nat)),
        p.blocks[decimal(index as nat)].field("text"@) == Data::Text(before),
        byte_len(before) + byte_len(text) > MAX_LINE,
    ensures
        received(p, s, value, raw).2 is Err,
{
    stream_words();
}

/// An item begins empty, with its name, its kind and its tool.
pub proof fn items_begin(
    p: ProtocolView,
    s: ProgressView,
    value: Data,
    raw: Seq<char>,
    index: u64,
    id: Seq<char>,
)
    requires
        value.field("type"@) == Data::Text("stream_event"@),
        of_the_conversation(p, value),
        value.field("event"@).field("type"@) == Data::Text("content_block_start"@),
        value.field("event"@).field("index"@) == Data::Number(Number::Unsigned(index)),
        value.field("event"@).field("content_block"@).field("id"@) == Data::Text(id),
    ensures
        ({
            let (q, after, told) = received(p, s, value, raw);
            let block = value.field("event"@).field("content_block"@);
            let data = recorded(told->Ok_0[0]);
            &&& told is Ok && told->Ok_0.len() == 1
            &&& data.field("item_id"@) == Data::Text(id)
            &&& data.field("item_type"@) == block.field("type"@)
            &&& data.field("tool_name"@) == block.field("name"@)
            &&& data.field("text"@) == Data::Text(Seq::empty())
            &&& q.blocks.contains_key(decimal(index as nat)) && q.blocks[decimal(index as nat)] == data
            &&& block.field("type"@) == Data::Text("tool_use"@) ==> records(
                told->Ok_0[0],
                "native_event"@,
            )
            &&& block.field("type"@) != Data::Text("tool_use"@) ==> records(
                told->Ok_0[0],
                "item_started"@,
            )
            &&& block.field("name"@) is Text ==> q.tools.contains_key(id) && Data::Text(q.tools[id])
                == block.field("name"@)
        }),
{
    stream_words();
}

/// An item ends with all that was said of it; a call of a tool starts then, with what it was given.
pub proof fn items_end_whole(
    p: ProtocolView,
    s: ProgressView,
    value: Data,
    raw: Seq<char>,
    index: u64,
    text: Seq<char>,
)
    requires
        value.field("type"@) == Data::Text("stream_event"@),
        of_the_conversation(p, value),
        value.field("event"@).field("type"@) == Data::Text("content_block_stop"@),
        value.field("event"@).field("index"@) == Data::Number(Number::Unsigned(index)),
        p.blocks.contains_key(decimal(index as nat)),
        p.blocks[decimal(index as nat)].takes_fields(),
        p.blocks[decimal(index as nat)].field("text"@) == Data::Text(text),
    ensures
        ({
            let (q, after, told) = received(p, s, value, raw);
            let block = p.blocks[decimal(index as nat)];
            let called = block.field("item_type"@) == Data::Text("tool_use"@);
            &&& told is Ok && told->Ok_0.len() == 1
            &&& !q.blocks.contains_key(decimal(index as nat))
            &&& !called ==> records(told->Ok_0[0], "item_completed"@) && recorded(told->Ok_0[0])
                == block
            &&& called ==> records(told->Ok_0[0], "item_started"@)
            &&& called ==> (denoted(text) matches Some(input) ==> recorded(told->Ok_0[0]).field(
                "input"@,
            ) == input)
        }),
{
    stream_words();
}

/// What a tool gave is recorded with its call, its name and whether it failed.
pub proof fn results_of_tools_are_recorded(
    p: ProtocolView,
    s: ProgressView,
    value: Data,
    raw: Seq<char>,
    block: Data,
    id: Seq<char>,
)
    requires
        value.field("type"@) == Data::Text("user"@),
        of_the_conversation(p, value),
        value.field("message"@).field("content"@) == Data::Array(seq![block]),
        block.field("type"@) == Data::Text("tool_result"@),
        block.field("tool_use_id"@) == Data::Text(id),
    ensures
        ({
            let (q, after, told) = received(p, s, value, raw);
            let data = recorded(told->Ok_0[1]);
            &&& told is Ok && told->Ok_0.len() == 2 && records(told->Ok_0[1], "item_completed"@)
            &&& data.field("item_id"@) == Data::Text(id)
            &&& data.field("result"@) == block.field("content"@)
            &&& data.field("is_error"@) == block.field("is_error"@)
            &&& p.tools.contains_key(id) ==> data.field("tool_name"@) == Data::Text(p.tools[id])
            &&& p.active is Some ==> data.field("request_id"@) == Data::Text(p.active->0.request)
        }),
{
    stream_words();
    assert(seq![block].drop_last() =~= Seq::<Data>::empty());
    assert(seq![block].last() == block);
    reveal_with_fuel(super::claude_protocol::tools_ended, 3);
}

/// A message that was not streamed is recorded whole: each text is an item that begins and ends, and what was
/// said last is remembered.
pub proof fn whole_messages_are_recorded(
    p: ProtocolView,
    s: ProgressView,
    value: Data,
    raw: Seq<char>,
    block: Data,
    text: Seq<char>,
    name: Seq<char>,
)
    requires
        value.field("type"@) == Data::Text("assistant"@),
        of_the_conversation(p, value),
        value.get("error"@) is None,
        value.field("message"@).field("content"@) == Data::Array(seq![block]),
        value.field("message"@).field("id"@) == Data::Text(name),
        block.field("type"@) == Data::Text("text"@),
        block.get("text"@) == Some(Data::Text(text)),
        text.len() > 0,
        !p.streamed.contains(name),
    ensures
        ({
            let (q, after, told) = received(p, s, value, raw);
            let data = recorded(told->Ok_0[2]);
            &&& told is Ok && told->Ok_0.len() == 3
            &&& records(told->Ok_0[1], "item_started"@) && records(told->Ok_0[2], "item_completed"@)
            &&& data.field("text"@) == Data::Text(text)
            &&& data.field("item_type"@) == Data::Text("text"@)
            &&& after.last_text == text
        }),
{
    stream_words();
    let content = seq![block];
    assert(content.drop_last() =~= Seq::<Data>::empty());
    assert(content.last() == block);
    reveal_with_fuel(super::claude_protocol::whole_message, 3);
    reveal_with_fuel(super::claude_protocol::block_texts, 3);
    assert(super::claude_protocol::block_texts(content) =~= seq![text]);
    assert(seq![text].drop_last() =~= Seq::<Seq<char>>::empty());
    reveal_with_fuel(joined, 3);
    assert(joined(seq![text], "\n"@) =~= text);
}

// Calls.

/// A message is sent as the user's, to its conversation, under a name made of its number; notices are kept
/// from the user. The turn of a request is known by that name.
pub proof fn messages_are_sent_under_their_name(
    p: ProtocolView,
    id: u64,
    method: Seq<char>,
    params: Data,
    request: Option<Seq<char>>,
    content: Data,
)
    requires
        method == "prompt"@ || method == "bootstrap"@ || method == "notice"@ || method == "compact"@,
        params.get("content"@) == Some(content),
    ensures
        ({
            let (q, frame) = encoded(p, id, method, params, request);
            let wire = message_wire(p.namespace, id);
            let silent = method == "notice"@ || method == "bootstrap"@;
            &&& frame.field("type"@) == Data::Text("user"@)
            &&& frame.field("uuid"@) == Data::Text(wire)
            &&& frame.field("session_id"@) == Data::Text(p.native)
            &&& frame.field("message"@).field("role"@) == Data::Text("user"@)
            &&& frame.field("message"@).field("content"@) == content
            &&& frame.field("isSynthetic"@) == Data::Bool(silent)
            &&& frame.field("shouldQuery"@) == Data::Bool(!silent)
            &&& q.users.contains_key(wire) && q.users[wire].id == id && q.users[wire].kind == method
            &&& request is Some ==> q.active == Some(ActiveView { wire, request: request->0 })
                && !q.interrupting
            &&& request is None ==> q.active == p.active
            &&& method == "compact"@ ==> !q.compacted
        }),
{
    stream_words();
}

/// Any other call is a request to the harness, by its number; an interruption is remembered.
pub proof fn calls_are_requests(p: ProtocolView, id: u64, method: Seq<char>, params: Data)
    requires
        method != "prompt"@,
        method != "bootstrap"@,
        method != "notice"@,
        method != "compact"@,
        method != "child_result"@,
        params.takes_fields(),
    ensures
        ({
            let (q, frame) = encoded(p, id, method, params, None);
            &&& frame.field("type"@) == Data::Text("control_request"@)
            &&& frame.field("request_id"@) == Data::Text(decimal(id as nat))
            &&& frame.field("request"@).field("subtype"@) == Data::Text(method)
            &&& method == "interrupt"@ ==> q.interrupting
            &&& method != "interrupt"@ ==> q.interrupting == p.interrupting
            &&& q.active == p.active
        }),
{
    stream_words();
}

/// The result of a child goes to the call that asked for it, as an error where it is one.
pub proof fn results_of_children_go_to_their_call(
    p: ProtocolView,
    id: u64,
    params: Data,
    wire: Seq<char>,
)
    requires
        params.field("id"@) == Data::Text(wire),
        p.children.contains_key(wire),
    ensures
        ({
            let (q, frame) = encoded(p, id, "child_result"@, params, None);
            let said = frame.field("response"@).field("response"@).field("mcp_response"@);
            &&& frame.field("response"@).field("request_id"@) == Data::Text(wire)
            &&& said.field("id"@) == p.children[wire]
            &&& said.field("result"@).field("isError"@) == Data::Bool(params.get("error"@) is Some)
            &&& said.field("result"@).field("content"@) matches Data::Array(parts) && parts.len() == 1
                && parts[0].field("text"@) == Data::Text(written(params))
            &&& !q.children.contains_key(wire)
        }),
{
    stream_words();
}

/// The end of the harness is confirmed by the answer to the request for it, and by no other line.
pub proof fn ends_are_confirmed(value: Data)
    ensures
        confirms_close(value) <==> value.field("type"@) == Data::Text("control_response"@)
            && value.field("response"@).field("request_id"@) == Data::Text("close"@) && value.field(
            "response"@,
        ).field("subtype"@) == Data::Text("success"@),
{
}

/// What was used is told of the last message and in all: the cost, and the tokens that were read, written
/// and taken from what was kept.
pub proof fn usage_is_told(value: Data)
    ensures
        ({
            let told = usage_data(value);
            let last = value.field("usage"@);
            &&& told.field("estimated_cost_usd"@) == value.field("total_cost_usd"@)
            &&& told.field("lastUsage"@).field("input"@) == last.field("input_tokens"@)
            &&& told.field("lastUsage"@).field("output"@) == last.field("output_tokens"@)
            &&& told.field("lastUsage"@).field("cacheRead"@) == last.field(
                "cache_read_input_tokens"@,
            )
            &&& told.field("lastUsage"@).field("cacheWrite"@) == last.field(
                "cache_creation_input_tokens"@,
            )
        }),
{
    stream_words();
}

} // verus!
