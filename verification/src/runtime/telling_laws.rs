//! What holds of the words in which harnesses are spoken to and tell of themselves.
use super::claude::{file_note, image_block, is_picture};
use super::claude_protocol::{block_data, delta_text, model_window, server_info, tool_list, usage_data};
use super::codex::{part_item, text_item};
use super::cursor::{call_frame, note_frame, opened_session, result_frame, updated, Flavor};
use super::cursor_models::{first_usual, usual_level};
use super::cursor_print::{handled, tool_id, tool_key, tool_news, ActionView, DriverView};
use super::pi::{child_asked, entry_record};
use super::{cursor, offset_checkpoint, pi, snapshot_checkpoint, EventView, ProgressView};
use crate::fault::{other, FaultView};
use crate::json::{Data, Number};
use crate::table::in_order;
use crate::text::byte_len;
use vstd::prelude::*;

verus! {

proof fn telling_words()
    ensures
        "id"@.len() == 2 && "id"@[0] == 'i',
        "pi"@.len() == 2 && "pi"@[0] == 'p',
        "url"@.len() == 3 && "url"@[0] == 'u',
        "cwd"@.len() == 3 && "cwd"@[0] == 'c',
        "low"@.len() == 3 && "low"@[0] == 'l',
        "max"@.len() == 3 && "max"@[0] == 'm',
        "type"@.len() == 4 && "type"@[0] == 't' && "type"@[1] == 'y',
        "text"@.len() == 4 && "text"@[0] == 't' && "text"@[1] == 'e',
        "path"@.len() == 4 && "path"@[0] == 'p' && "path"@[1] == 'a',
        "file"@.len() == 4 && "file"@[0] == 'f' && "file"@[1] == 'i',
        "kind"@.len() == 4 && "kind"@[0] == 'k' && "kind"@[1] == 'i',
        "args"@.len() == 4 && "args"@[0] == 'a' && "args"@[1] == 'r',
        "name"@.len() == 4 && "name"@[0] == 'n' && "name"@[1] == 'a',
        "data"@.len() == 4 && "data"@[0] == 'd' && "data"@[1] == 'a',
        "code"@.len() == 4 && "code"@[0] == 'c' && "code"@[1] == 'o',
        "high"@.len() == 4 && "high"@[0] == 'h' && "high"@[1] == 'i',
        "none"@.len() == 4 && "none"@[0] == 'n' && "none"@[1] == 'o',
        "image"@.len() == 5 && "image"@[1] == 'm' && "image"@[2] == 'a',
        "model"@.len() == 5 && "model"@[1] == 'o' && "model"@[2] == 'd',
        "value"@.len() == 5 && "value"@[1] == 'a' && "value"@[2] == 'l',
        "title"@.len() == 5 && "title"@[1] == 'i' && "title"@[2] == 't',
        "usage"@.len() == 5 && "usage"@[1] == 's' && "usage"@[2] == 'a',
        "input"@.len() == 5 && "input"@[1] == 'n' && "input"@[2] == 'p',
        "total"@.len() == 5 && "total"@[1] == 'o' && "total"@[2] == 't',
        "tools"@.len() == 5 && "tools"@[1] == 'o' && "tools"@[2] == 'o',
        "entry"@.len() == 5 && "entry"@[1] == 'n' && "entry"@[2] == 't',
        "index"@.len() == 5 && "index"@[1] == 'n' && "index"@[2] == 'd',
        "error"@.len() == 5 && "error"@[1] == 'r' && "error"@[2] == 'r',
        "xhigh"@.len() == 5 && "xhigh"@[1] == 'h' && "xhigh"@[2] == 'i',
        "method"@.len() == 6 && "method"@[2] == 't' && "method"@[0] == 'm',
        "params"@.len() == 6 && "params"@[2] == 'r' && "params"@[0] == 'p',
        "result"@.len() == 6 && "result"@[2] == 's' && "result"@[0] == 'r',
        "update"@.len() == 6 && "update"@[2] == 'd' && "update"@[0] == 'u',
        "failed"@.len() == 6 && "failed"@[2] == 'i' && "failed"@[0] == 'f',
        "status"@.len() == 6 && "status"@[2] == 'a' && "status"@[0] == 's',
        "tokens"@.len() == 6 && "tokens"@[2] == 'k' && "tokens"@[0] == 't',
        "output"@.len() == 6 && "output"@[2] == 't' && "output"@[0] == 'o',
        "prompt"@.len() == 6 && "prompt"@[2] == 'o' && "prompt"@[0] == 'p',
        "object"@.len() == 6 && "object"@[2] == 'j' && "object"@[0] == 'o',
        "string"@.len() == 6 && "string"@[2] == 'r' && "string"@[0] == 's',
        "source"@.len() == 6 && "source"@[2] == 'u' && "source"@[0] == 's',
        "base64"@.len() == 6 && "base64"@[2] == 's' && "base64"@[0] == 'b',
        "cursor"@.len() == 6 && "cursor"@[2] == 'r' && "cursor"@[0] == 'c',
        "offset"@.len() == 6 && "offset"@[2] == 'f' && "offset"@[0] == 'o',
        "medium"@.len() == 6 && "medium"@[2] == 'd' && "medium"@[0] == 'm',
        "jsonrpc"@.len() == 7 && "jsonrpc"@[2] == 'o' && "jsonrpc"@[0] == 'j',
        "started"@.len() == 7 && "started"@[2] == 'a' && "started"@[0] == 's',
        "subtype"@.len() == 7 && "subtype"@[2] == 'b' && "subtype"@[0] == 's',
        "success"@.len() == 7 && "success"@[2] == 'c' && "success"@[0] == 's',
        "version"@.len() == 7 && "version"@[2] == 'r' && "version"@[0] == 'v',
        "harness"@.len() == 7 && "harness"@[2] == 'r' && "harness"@[0] == 'h',
        "item_id"@.len() == 7 && "item_id"@[2] == 'e' && "item_id"@[0] == 'i',
        "command"@.len() == 7 && "command"@[2] == 'm' && "command"@[0] == 'c',
        "message"@.len() == 7 && "message"@[2] == 's' && "message"@[0] == 'm',
        "call_id"@.len() == 7 && "call_id"@[2] == 'l' && "call_id"@[0] == 'c',
        "configId"@.len() == 8 && "configId"@[2] == 'n' && "configId"@[0] == 'c',
        "rawInput"@.len() == 8 && "rawInput"@[2] == 'w' && "rawInput"@[0] == 'r',
        "required"@.len() == 8 && "required"@[2] == 'q' && "required"@[0] == 'r',
        "delegate"@.len() == 8 && "delegate"@[2] == 'l' && "delegate"@[0] == 'd',
        "thinking"@.len() == 8 && "thinking"@[2] == 'i' && "thinking"@[0] == 't',
        "mimeType"@.len() == 8 && "mimeType"@[2] == 'm' && "mimeType"@[0] == 'm',
        "snapshot"@.len() == 8 && "snapshot"@[2] == 'a' && "snapshot"@[0] == 's',
        "complete"@.len() == 8 && "complete"@[2] == 'm' && "complete"@[0] == 'c',
        "response"@.len() == 8 && "response"@[2] == 's' && "response"@[0] == 'r',
        "toolName"@.len() == 8 && "toolName"@[2] == 'o' && "toolName"@[0] == 't',
        "localFile"@.len() == 9 && "localFile"@[3] == 'a' && "localFile"@[1] == 'o' && "localFile"@[5] == 'F',
        "sessionId"@.len() == 9 && "sessionId"@[3] == 's' && "sessionId"@[1] == 'e' && "sessionId"@[5] == 'o',
        "completed"@.len() == 9 && "completed"@[3] == 'p' && "completed"@[1] == 'o' && "completed"@[5] == 'e',
        "rawOutput"@.len() == 9 && "rawOutput"@[3] == 'O' && "rawOutput"@[1] == 'a' && "rawOutput"@[5] == 't',
        "tool_call"@.len() == 9 && "tool_call"@[3] == 'l' && "tool_call"@[1] == 'o' && "tool_call"@[5] == 'c',
        "cacheRead"@.len() == 9 && "cacheRead"@[3] == 'h' && "cacheRead"@[1] == 'a' && "cacheRead"@[5] == 'R',
        "lastUsage"@.len() == 9 && "lastUsage"@[3] == 't' && "lastUsage"@[1] == 'a' && "lastUsage"@[5] == 's',
        "minLength"@.len() == 9 && "minLength"@[3] == 'L' && "minLength"@[1] == 'i' && "minLength"@[5] == 'n',
        "maxLength"@.len() == 9 && "maxLength"@[3] == 'L' && "maxLength"@[1] == 'a' && "maxLength"@[5] == 'n',
        "cloudroom"@.len() == 9 && "cloudroom"@[3] == 'u' && "cloudroom"@[1] == 'l' && "cloudroom"@[5] == 'r',
        "item_type"@.len() == 9 && "item_type"@[3] == 'm' && "item_type"@[1] == 't' && "item_type"@[5] == 't',
        "tool_name"@.len() == 9 && "tool_name"@[3] == 'l' && "tool_name"@[1] == 'o' && "tool_name"@[5] == 'n',
        "localImage"@.len() == 10 && "localImage"@[3] == 'a',
        "initialize"@.len() == 10 && "initialize"@[3] == 't',
        "toolCallId"@.len() == 10 && "toolCallId"@[3] == 'l',
        "modelUsage"@.len() == 10 && "modelUsage"@[3] == 'e',
        "cacheWrite"@.len() == 10 && "cacheWrite"@[3] == 'h',
        "properties"@.len() == 10 && "properties"@[3] == 'p',
        "serverInfo"@.len() == 10 && "serverInfo"@[3] == 'v',
        "request_id"@.len() == 10 && "request_id"@[3] == 'u',
        "media_type"@.len() == 10 && "media_type"@[3] == 'i',
        "session/new"@.len() == 11 && "session/new"@[3] == 's' && "session/new"@[5] == 'o',
        "loadSession"@.len() == 11 && "loadSession"@[3] == 'd' && "loadSession"@[5] == 'e',
        "in_progress"@.len() == 11 && "in_progress"@[3] == 'p' && "in_progress"@[5] == 'o',
        "totalTokens"@.len() == 11 && "totalTokens"@[3] == 'a' && "totalTokens"@[5] == 'T',
        "inputTokens"@.len() == 11 && "inputTokens"@[3] == 'u' && "inputTokens"@[5] == 'T',
        "description"@.len() == 11 && "description"@[3] == 'c' && "description"@[5] == 'i',
        "inputSchema"@.len() == 11 && "inputSchema"@[3] == 'u' && "inputSchema"@[5] == 'S',
        "mcpToolCall"@.len() == 11 && "mcpToolCall"@[3] == 'T' && "mcpToolCall"@[5] == 'o',
        "session/load"@.len() == 12 && "session/load"@[5] == 'o',
        "currentValue"@.len() == 12 && "currentValue"@[5] == 'n',
        "contextUsage"@.len() == 12 && "contextUsage"@[5] == 'x',
        "input_tokens"@.len() == 12 && "input_tokens"@[5] == '_',
        "outputTokens"@.len() == 12 && "outputTokens"@[5] == 't',
        "capabilities"@.len() == 12 && "capabilities"@[5] == 'i',
        "partial_json"@.len() == 12 && "partial_json"@[5] == 'a',
        "tool_call_id"@.len() == 12 && "tool_call_id"@[5] == 'c',
        "text_elements"@.len() == 13 && "text_elements"@[7] == 'e',
        "configOptions"@.len() == 13 && "configOptions"@[7] == 'p',
        "sessionUpdate"@.len() == 13 && "sessionUpdate"@[7] == 'U',
        "contextWindow"@.len() == 13 && "contextWindow"@[7] == 'W',
        "output_tokens"@.len() == 13 && "output_tokens"@[7] == 't',
        "native_record"@.len() == 13 && "native_record"@[7] == 'r',
        "session/cancel"@.len() == 14 && "session/cancel"@[8] == 'c',
        "session/update"@.len() == 14 && "session/update"@[8] == 'u',
        "total_cost_usd"@.len() == 14 && "total_cost_usd"@[8] == 's',
        "protocolVersion"@.len() == 15,
        "tool_call_update"@.len() == 16,
        "agentCapabilities"@.len() == 17,
        "estimated_cost_usd"@.len() == 18,
        "cacheReadInputTokens"@.len() == 20 && "cacheReadInputTokens"@[0] == 'c',
        "additionalProperties"@.len() == 20 && "additionalProperties"@[0] == 'a',
        "cache_read_input_tokens"@.len() == 23,
        "cacheCreationInputTokens"@.len() == 24,
        "session/set_config_option"@.len() == 25,
        "cache_creation_input_tokens"@.len() == 27,
{
    reveal_strlit("id");
    reveal_strlit("pi");
    reveal_strlit("url");
    reveal_strlit("cwd");
    reveal_strlit("low");
    reveal_strlit("max");
    reveal_strlit("type");
    reveal_strlit("text");
    reveal_strlit("path");
    reveal_strlit("file");
    reveal_strlit("kind");
    reveal_strlit("args");
    reveal_strlit("name");
    reveal_strlit("data");
    reveal_strlit("code");
    reveal_strlit("high");
    reveal_strlit("none");
    reveal_strlit("image");
    reveal_strlit("model");
    reveal_strlit("value");
    reveal_strlit("title");
    reveal_strlit("usage");
    reveal_strlit("input");
    reveal_strlit("total");
    reveal_strlit("tools");
    reveal_strlit("entry");
    reveal_strlit("index");
    reveal_strlit("error");
    reveal_strlit("xhigh");
    reveal_strlit("method");
    reveal_strlit("params");
    reveal_strlit("result");
    reveal_strlit("update");
    reveal_strlit("failed");
    reveal_strlit("status");
    reveal_strlit("tokens");
    reveal_strlit("output");
    reveal_strlit("prompt");
    reveal_strlit("object");
    reveal_strlit("string");
    reveal_strlit("source");
    reveal_strlit("base64");
    reveal_strlit("cursor");
    reveal_strlit("offset");
    reveal_strlit("medium");
    reveal_strlit("jsonrpc");
    reveal_strlit("started");
    reveal_strlit("subtype");
    reveal_strlit("success");
    reveal_strlit("version");
    reveal_strlit("harness");
    reveal_strlit("item_id");
    reveal_strlit("command");
    reveal_strlit("message");
    reveal_strlit("call_id");
    reveal_strlit("configId");
    reveal_strlit("rawInput");
    reveal_strlit("required");
    reveal_strlit("delegate");
    reveal_strlit("thinking");
    reveal_strlit("mimeType");
    reveal_strlit("snapshot");
    reveal_strlit("complete");
    reveal_strlit("response");
    reveal_strlit("toolName");
    reveal_strlit("localFile");
    reveal_strlit("sessionId");
    reveal_strlit("completed");
    reveal_strlit("rawOutput");
    reveal_strlit("tool_call");
    reveal_strlit("cacheRead");
    reveal_strlit("lastUsage");
    reveal_strlit("minLength");
    reveal_strlit("maxLength");
    reveal_strlit("cloudroom");
    reveal_strlit("item_type");
    reveal_strlit("tool_name");
    reveal_strlit("localImage");
    reveal_strlit("initialize");
    reveal_strlit("toolCallId");
    reveal_strlit("modelUsage");
    reveal_strlit("cacheWrite");
    reveal_strlit("properties");
    reveal_strlit("serverInfo");
    reveal_strlit("request_id");
    reveal_strlit("media_type");
    reveal_strlit("session/new");
    reveal_strlit("loadSession");
    reveal_strlit("in_progress");
    reveal_strlit("totalTokens");
    reveal_strlit("inputTokens");
    reveal_strlit("description");
    reveal_strlit("inputSchema");
    reveal_strlit("mcpToolCall");
    reveal_strlit("session/load");
    reveal_strlit("currentValue");
    reveal_strlit("contextUsage");
    reveal_strlit("input_tokens");
    reveal_strlit("outputTokens");
    reveal_strlit("capabilities");
    reveal_strlit("partial_json");
    reveal_strlit("tool_call_id");
    reveal_strlit("text_elements");
    reveal_strlit("configOptions");
    reveal_strlit("sessionUpdate");
    reveal_strlit("contextWindow");
    reveal_strlit("output_tokens");
    reveal_strlit("native_record");
    reveal_strlit("session/cancel");
    reveal_strlit("session/update");
    reveal_strlit("total_cost_usd");
    reveal_strlit("protocolVersion");
    reveal_strlit("tool_call_update");
    reveal_strlit("agentCapabilities");
    reveal_strlit("estimated_cost_usd");
    reveal_strlit("cacheReadInputTokens");
    reveal_strlit("additionalProperties");
    reveal_strlit("cache_read_input_tokens");
    reveal_strlit("cacheCreationInputTokens");
    reveal_strlit("session/set_config_option");
    reveal_strlit("cache_creation_input_tokens");
    assert("id"@.len() == 2 && "id"@[0] == 'i');
    assert("pi"@.len() == 2 && "pi"@[0] == 'p');
    assert("url"@.len() == 3 && "url"@[0] == 'u');
    assert("cwd"@.len() == 3 && "cwd"@[0] == 'c');
    assert("low"@.len() == 3 && "low"@[0] == 'l');
    assert("max"@.len() == 3 && "max"@[0] == 'm');
    assert("type"@.len() == 4 && "type"@[0] == 't' && "type"@[1] == 'y');
    assert("text"@.len() == 4 && "text"@[0] == 't' && "text"@[1] == 'e');
    assert("path"@.len() == 4 && "path"@[0] == 'p' && "path"@[1] == 'a');
    assert("file"@.len() == 4 && "file"@[0] == 'f' && "file"@[1] == 'i');
    assert("kind"@.len() == 4 && "kind"@[0] == 'k' && "kind"@[1] == 'i');
    assert("args"@.len() == 4 && "args"@[0] == 'a' && "args"@[1] == 'r');
    assert("name"@.len() == 4 && "name"@[0] == 'n' && "name"@[1] == 'a');
    assert("data"@.len() == 4 && "data"@[0] == 'd' && "data"@[1] == 'a');
    assert("code"@.len() == 4 && "code"@[0] == 'c' && "code"@[1] == 'o');
    assert("high"@.len() == 4 && "high"@[0] == 'h' && "high"@[1] == 'i');
    assert("none"@.len() == 4 && "none"@[0] == 'n' && "none"@[1] == 'o');
    assert("image"@.len() == 5 && "image"@[1] == 'm' && "image"@[2] == 'a');
    assert("model"@.len() == 5 && "model"@[1] == 'o' && "model"@[2] == 'd');
    assert("value"@.len() == 5 && "value"@[1] == 'a' && "value"@[2] == 'l');
    assert("title"@.len() == 5 && "title"@[1] == 'i' && "title"@[2] == 't');
    assert("usage"@.len() == 5 && "usage"@[1] == 's' && "usage"@[2] == 'a');
    assert("input"@.len() == 5 && "input"@[1] == 'n' && "input"@[2] == 'p');
    assert("total"@.len() == 5 && "total"@[1] == 'o' && "total"@[2] == 't');
    assert("tools"@.len() == 5 && "tools"@[1] == 'o' && "tools"@[2] == 'o');
    assert("entry"@.len() == 5 && "entry"@[1] == 'n' && "entry"@[2] == 't');
    assert("index"@.len() == 5 && "index"@[1] == 'n' && "index"@[2] == 'd');
    assert("error"@.len() == 5 && "error"@[1] == 'r' && "error"@[2] == 'r');
    assert("xhigh"@.len() == 5 && "xhigh"@[1] == 'h' && "xhigh"@[2] == 'i');
    assert("method"@.len() == 6 && "method"@[2] == 't' && "method"@[0] == 'm');
    assert("params"@.len() == 6 && "params"@[2] == 'r' && "params"@[0] == 'p');
    assert("result"@.len() == 6 && "result"@[2] == 's' && "result"@[0] == 'r');
    assert("update"@.len() == 6 && "update"@[2] == 'd' && "update"@[0] == 'u');
    assert("failed"@.len() == 6 && "failed"@[2] == 'i' && "failed"@[0] == 'f');
    assert("status"@.len() == 6 && "status"@[2] == 'a' && "status"@[0] == 's');
    assert("tokens"@.len() == 6 && "tokens"@[2] == 'k' && "tokens"@[0] == 't');
    assert("output"@.len() == 6 && "output"@[2] == 't' && "output"@[0] == 'o');
    assert("prompt"@.len() == 6 && "prompt"@[2] == 'o' && "prompt"@[0] == 'p');
    assert("object"@.len() == 6 && "object"@[2] == 'j' && "object"@[0] == 'o');
    assert("string"@.len() == 6 && "string"@[2] == 'r' && "string"@[0] == 's');
    assert("source"@.len() == 6 && "source"@[2] == 'u' && "source"@[0] == 's');
    assert("base64"@.len() == 6 && "base64"@[2] == 's' && "base64"@[0] == 'b');
    assert("cursor"@.len() == 6 && "cursor"@[2] == 'r' && "cursor"@[0] == 'c');
    assert("offset"@.len() == 6 && "offset"@[2] == 'f' && "offset"@[0] == 'o');
    assert("medium"@.len() == 6 && "medium"@[2] == 'd' && "medium"@[0] == 'm');
    assert("jsonrpc"@.len() == 7 && "jsonrpc"@[2] == 'o' && "jsonrpc"@[0] == 'j');
    assert("started"@.len() == 7 && "started"@[2] == 'a' && "started"@[0] == 's');
    assert("subtype"@.len() == 7 && "subtype"@[2] == 'b' && "subtype"@[0] == 's');
    assert("success"@.len() == 7 && "success"@[2] == 'c' && "success"@[0] == 's');
    assert("version"@.len() == 7 && "version"@[2] == 'r' && "version"@[0] == 'v');
    assert("harness"@.len() == 7 && "harness"@[2] == 'r' && "harness"@[0] == 'h');
    assert("item_id"@.len() == 7 && "item_id"@[2] == 'e' && "item_id"@[0] == 'i');
    assert("command"@.len() == 7 && "command"@[2] == 'm' && "command"@[0] == 'c');
    assert("message"@.len() == 7 && "message"@[2] == 's' && "message"@[0] == 'm');
    assert("call_id"@.len() == 7 && "call_id"@[2] == 'l' && "call_id"@[0] == 'c');
    assert("configId"@.len() == 8 && "configId"@[2] == 'n' && "configId"@[0] == 'c');
    assert("rawInput"@.len() == 8 && "rawInput"@[2] == 'w' && "rawInput"@[0] == 'r');
    assert("required"@.len() == 8 && "required"@[2] == 'q' && "required"@[0] == 'r');
    assert("delegate"@.len() == 8 && "delegate"@[2] == 'l' && "delegate"@[0] == 'd');
    assert("thinking"@.len() == 8 && "thinking"@[2] == 'i' && "thinking"@[0] == 't');
    assert("mimeType"@.len() == 8 && "mimeType"@[2] == 'm' && "mimeType"@[0] == 'm');
    assert("snapshot"@.len() == 8 && "snapshot"@[2] == 'a' && "snapshot"@[0] == 's');
    assert("complete"@.len() == 8 && "complete"@[2] == 'm' && "complete"@[0] == 'c');
    assert("response"@.len() == 8 && "response"@[2] == 's' && "response"@[0] == 'r');
    assert("toolName"@.len() == 8 && "toolName"@[2] == 'o' && "toolName"@[0] == 't');
    assert("localFile"@.len() == 9 && "localFile"@[3] == 'a' && "localFile"@[1] == 'o' && "localFile"@[5] == 'F');
    assert("sessionId"@.len() == 9 && "sessionId"@[3] == 's' && "sessionId"@[1] == 'e' && "sessionId"@[5] == 'o');
    assert("completed"@.len() == 9 && "completed"@[3] == 'p' && "completed"@[1] == 'o' && "completed"@[5] == 'e');
    assert("rawOutput"@.len() == 9 && "rawOutput"@[3] == 'O' && "rawOutput"@[1] == 'a' && "rawOutput"@[5] == 't');
    assert("tool_call"@.len() == 9 && "tool_call"@[3] == 'l' && "tool_call"@[1] == 'o' && "tool_call"@[5] == 'c');
    assert("cacheRead"@.len() == 9 && "cacheRead"@[3] == 'h' && "cacheRead"@[1] == 'a' && "cacheRead"@[5] == 'R');
    assert("lastUsage"@.len() == 9 && "lastUsage"@[3] == 't' && "lastUsage"@[1] == 'a' && "lastUsage"@[5] == 's');
    assert("minLength"@.len() == 9 && "minLength"@[3] == 'L' && "minLength"@[1] == 'i' && "minLength"@[5] == 'n');
    assert("maxLength"@.len() == 9 && "maxLength"@[3] == 'L' && "maxLength"@[1] == 'a' && "maxLength"@[5] == 'n');
    assert("cloudroom"@.len() == 9 && "cloudroom"@[3] == 'u' && "cloudroom"@[1] == 'l' && "cloudroom"@[5] == 'r');
    assert("item_type"@.len() == 9 && "item_type"@[3] == 'm' && "item_type"@[1] == 't' && "item_type"@[5] == 't');
    assert("tool_name"@.len() == 9 && "tool_name"@[3] == 'l' && "tool_name"@[1] == 'o' && "tool_name"@[5] == 'n');
    assert("localImage"@.len() == 10 && "localImage"@[3] == 'a');
    assert("initialize"@.len() == 10 && "initialize"@[3] == 't');
    assert("toolCallId"@.len() == 10 && "toolCallId"@[3] == 'l');
    assert("modelUsage"@.len() == 10 && "modelUsage"@[3] == 'e');
    assert("cacheWrite"@.len() == 10 && "cacheWrite"@[3] == 'h');
    assert("properties"@.len() == 10 && "properties"@[3] == 'p');
    assert("serverInfo"@.len() == 10 && "serverInfo"@[3] == 'v');
    assert("request_id"@.len() == 10 && "request_id"@[3] == 'u');
    assert("media_type"@.len() == 10 && "media_type"@[3] == 'i');
    assert("session/new"@.len() == 11 && "session/new"@[3] == 's' && "session/new"@[5] == 'o');
    assert("loadSession"@.len() == 11 && "loadSession"@[3] == 'd' && "loadSession"@[5] == 'e');
    assert("in_progress"@.len() == 11 && "in_progress"@[3] == 'p' && "in_progress"@[5] == 'o');
    assert("totalTokens"@.len() == 11 && "totalTokens"@[3] == 'a' && "totalTokens"@[5] == 'T');
    assert("inputTokens"@.len() == 11 && "inputTokens"@[3] == 'u' && "inputTokens"@[5] == 'T');
    assert("description"@.len() == 11 && "description"@[3] == 'c' && "description"@[5] == 'i');
    assert("inputSchema"@.len() == 11 && "inputSchema"@[3] == 'u' && "inputSchema"@[5] == 'S');
    assert("mcpToolCall"@.len() == 11 && "mcpToolCall"@[3] == 'T' && "mcpToolCall"@[5] == 'o');
    assert("session/load"@.len() == 12 && "session/load"@[5] == 'o');
    assert("currentValue"@.len() == 12 && "currentValue"@[5] == 'n');
    assert("contextUsage"@.len() == 12 && "contextUsage"@[5] == 'x');
    assert("input_tokens"@.len() == 12 && "input_tokens"@[5] == '_');
    assert("outputTokens"@.len() == 12 && "outputTokens"@[5] == 't');
    assert("capabilities"@.len() == 12 && "capabilities"@[5] == 'i');
    assert("partial_json"@.len() == 12 && "partial_json"@[5] == 'a');
    assert("tool_call_id"@.len() == 12 && "tool_call_id"@[5] == 'c');
    assert("text_elements"@.len() == 13 && "text_elements"@[7] == 'e');
    assert("configOptions"@.len() == 13 && "configOptions"@[7] == 'p');
    assert("sessionUpdate"@.len() == 13 && "sessionUpdate"@[7] == 'U');
    assert("contextWindow"@.len() == 13 && "contextWindow"@[7] == 'W');
    assert("output_tokens"@.len() == 13 && "output_tokens"@[7] == 't');
    assert("native_record"@.len() == 13 && "native_record"@[7] == 'r');
    assert("session/cancel"@.len() == 14 && "session/cancel"@[8] == 'c');
    assert("session/update"@.len() == 14 && "session/update"@[8] == 'u');
    assert("total_cost_usd"@.len() == 14 && "total_cost_usd"@[8] == 's');
    assert("protocolVersion"@.len() == 15);
    assert("tool_call_update"@.len() == 16);
    assert("agentCapabilities"@.len() == 17);
    assert("estimated_cost_usd"@.len() == 18);
    assert("cacheReadInputTokens"@.len() == 20 && "cacheReadInputTokens"@[0] == 'c');
    assert("additionalProperties"@.len() == 20 && "additionalProperties"@[0] == 'a');
    assert("cache_read_input_tokens"@.len() == 23);
    assert("cacheCreationInputTokens"@.len() == 24);
    assert("session/set_config_option"@.len() == 25);
    assert("cache_creation_input_tokens"@.len() == 27);
}
// What is asked of harnesses.

/// Each frame is of the known form, and holds what it was made of.
pub proof fn frames_hold_what_they_say(id: u64, method: Seq<char>, params: Data, request: Data, result: Data)
    ensures
        call_frame(id, method, params).field("jsonrpc"@) == Data::Text("2.0"@),
        call_frame(id, method, params).field("id"@) == Data::Number(Number::Unsigned(id)),
        call_frame(id, method, params).field("method"@) == Data::Text(method),
        call_frame(id, method, params).field("params"@) == params,
        note_frame(method, params).field("jsonrpc"@) == Data::Text("2.0"@),
        note_frame(method, params).field("method"@) == Data::Text(method),
        note_frame(method, params).field("params"@) == params,
        note_frame(method, params).get("id"@) is None,
        result_frame(request, result).field("jsonrpc"@) == Data::Text("2.0"@),
        result_frame(request, result).field("id"@) == request,
        result_frame(request, result).field("result"@) == result,
{
    telling_words();
}

/// A part of a message is sent as what it is: a text as text, an image by its path, else by its address.
pub proof fn parts_keep_their_kind(part: Data, text: Seq<char>, path: Seq<char>)
    ensures
        text_item(text).field("type"@) == Data::Text("text"@) && text_item(text).field("text"@)
            == Data::Text(text),
        part.field("type"@) == Data::Text("text"@) && part.field("text"@) == Data::Text(text)
            ==> part_item(part) == Some(text_item(text)),
        part.field("type"@) == Data::Text("image"@) && part.field("path"@) is Null && part.field("url"@)
            == Data::Text(path) ==> (part_item(part) matches Some(item) && item.field("path"@)
            == Data::Text(path)),
        part.field("type"@) == Data::Text("image"@) && part.field("path"@) is Null && part.field("url"@)
            is Null ==> part_item(part) is None,
{
    telling_words();
}

/// A picture is of one of four kinds, and is sent whole; another file is named.
pub proof fn attachments_are_sent_or_named(image: Data, attachment: Data, mime: Seq<char>, path: Seq<char>)
    ensures
        is_picture("image/png"@) && is_picture("image/jpeg"@) && is_picture("image/gif"@) && is_picture(
            "image/webp"@,
        ),
        is_picture(mime) ==> mime == "image/png"@ || mime == "image/jpeg"@ || mime == "image/gif"@
            || mime == "image/webp"@,
        image_block(image).field("type"@) == Data::Text("image"@),
        image_block(image).field("source"@).field("type"@) == Data::Text("base64"@),
        image_block(image).field("source"@).field("media_type"@) == image.field("mimeType"@),
        image_block(image).field("source"@).field("data"@) == image.field("data"@),
        attachment.field("kind"@) == Data::Text("image"@) ==> file_note(attachment) is None,
        attachment.field("kind"@) == Data::Text("file"@) && attachment.field("path"@) == Data::Text(path)
            ==> file_note(attachment) == Some(
            "[Attached file: "@ + path + "] Use the Read tool to inspect it."@,
        ),
{
    telling_words();
}

/// The one tool that is offered hands work to a child: it takes a message, which must be there and may not be
/// too long.
pub proof fn one_tool_is_offered()
    ensures
        tool_list().field("tools"@) matches Data::Array(tools) && tools.len() == 1 && tools[0].field(
            "name"@,
        ) == Data::Text("delegate"@) && tools[0].field("inputSchema"@).field("type"@) == Data::Text(
            "object"@,
        ) && tools[0].field("inputSchema"@).field("required"@) == Data::Array(
            seq![Data::Text("prompt"@)],
        ) && tools[0].field("inputSchema"@).field("additionalProperties"@) == Data::Bool(false)
            && tools[0].field("inputSchema"@).field("properties"@).field("prompt"@).field("type"@)
            == Data::Text("string"@) && tools[0].field("inputSchema"@).field("properties"@).field(
            "prompt"@,
        ).field("minLength"@) == Data::Number(Number::Unsigned(1)) && tools[0].field(
            "inputSchema"@,
        ).field("properties"@).field("prompt"@).field("maxLength"@) == Data::Number(
            Number::Unsigned(32768),
        ),
        server_info().field("protocolVersion"@) == Data::Text("2024-11-05"@),
        server_info().field("serverInfo"@).field("name"@) == Data::Text("cloudroom"@),
        server_info().field("serverInfo"@).field("version"@) == Data::Text("0.1.0"@),
        server_info().field("capabilities"@).get("tools"@) is Some,
{
    telling_words();
}

// What harnesses tell.

/// What is used of a model is told by kind, and its cost as it was told; the sum is that of the kinds.
pub proof fn usage_is_told_by_kind(
    value: Data,
    name: Seq<char>,
    model: Data,
    fresh: u64,
    said: u64,
    read: u64,
    kept: u64,
    window: u64,
)
    requires
        value.field("modelUsage"@) == Data::Object(map![name => model]),
        in_order(map![name => model]) == seq![name],
        model.field("inputTokens"@) == Data::Number(Number::Unsigned(fresh)),
        model.field("outputTokens"@) == Data::Number(Number::Unsigned(said)),
        model.field("cacheReadInputTokens"@) == Data::Number(Number::Unsigned(read)),
        model.field("cacheCreationInputTokens"@) == Data::Number(Number::Unsigned(kept)),
        model.field("contextWindow"@) == Data::Number(Number::Unsigned(window)),
        fresh + said + read + kept <= u64::MAX,
    ensures
        ({
            let d = usage_data(value);
            &&& d.field("tokens"@).field("input"@) == Data::Number(Number::Unsigned(fresh))
            &&& d.field("tokens"@).field("output"@) == Data::Number(Number::Unsigned(said))
            &&& d.field("tokens"@).field("cacheRead"@) == Data::Number(Number::Unsigned(read))
            &&& d.field("tokens"@).field("cacheWrite"@) == Data::Number(Number::Unsigned(kept))
            &&& d.field("tokens"@).field("total"@) == Data::Number(Number::Unsigned((fresh + said + read + kept) as u64))
            &&& d.field("contextUsage"@).field("contextWindow"@) == Data::Number(
                Number::Unsigned(window),
            )
            &&& d.field("lastUsage"@).field("input"@) == value.field("usage"@).field("input_tokens"@)
            &&& d.field("lastUsage"@).field("output"@) == value.field("usage"@).field("output_tokens"@)
            &&& d.field("lastUsage"@).field("cacheRead"@) == value.field("usage"@).field(
                "cache_read_input_tokens"@,
            )
            &&& d.field("lastUsage"@).field("cacheWrite"@) == value.field("usage"@).field(
                "cache_creation_input_tokens"@,
            )
            &&& d.field("estimated_cost_usd"@) == value.field("total_cost_usd"@)
        }),
{
    telling_words();
    let models = map![name => model];
    assert(models[name] == model);
    assert(seq![name].drop_last() =~= Seq::<Seq<char>>::empty());
    reveal_with_fuel(model_window, 2);
    reveal_with_fuel(super::claude_protocol::model_total, 2);
}

/// A piece of text is what is told as text, else as thought, else as a part of a call.
pub proof fn pieces_are_read(delta: Data, text: Seq<char>)
    ensures
        delta.get("text"@) == Some(Data::Text(text)) ==> delta_text(delta) == text,
        delta.get("text"@) is None && delta.get("thinking"@) == Some(Data::Text(text)) ==> delta_text(
            delta,
        ) == text,
        delta.get("text"@) is None && delta.get("thinking"@) is None && delta.get("partial_json"@)
            == Some(Data::Text(text)) ==> delta_text(delta) == text,
        delta.get("text"@) is None && delta.get("thinking"@) is None && delta.get("partial_json"@)
            is None ==> delta_text(delta).len() == 0,
{
}

/// A block is recorded with its name, its kind, its words and what it calls.
pub proof fn blocks_are_recorded_whole(label: Seq<char>, block: Data, id: Seq<char>, request: Seq<char>)
    ensures
        ({
            let d = block_data(label, block, id, Some(request));
            &&& d.field("harness"@) == Data::Text(label)
            &&& d.field("request_id"@) == Data::Text(request)
            &&& d.field("item_id"@) == Data::Text(id)
            &&& d.field("item_type"@) == block.field("type"@)
            &&& d.field("tool_name"@) == block.field("name"@)
            &&& d.field("input"@) == block.field("input"@)
            &&& block.get("text"@) is None ==> d.field("text"@) == block.field("thinking"@)
            &&& block.get("text"@) is Some ==> d.field("text"@) == block.field("text"@)
        }),
{
    telling_words();
}

/// An answer is that of its call: what it gave, or why it was refused.
pub proof fn answers_say_what_came(value: Data, id: u64, command: Seq<char>, error: Seq<char>)
    requires
        value.field("type"@) == Data::Text("response"@),
        pi::call_number(value) == Some(id),
    ensures
        value.field("success"@) == Data::Bool(true) ==> pi::answer_in(value) == Some(
            (id, Ok::<Data, FaultView>(value.field("data"@))),
        ),
        value.field("success"@) == Data::Bool(false) && value.field("command"@) == Data::Text(command)
            && value.field("error"@) == Data::Text(error) ==> (pi::answer_in(value) matches Some(
            (n, Err(f)),
        ) && n == id && f.message == "Pi rejected the "@ + command + " command: "@ + error),
{
}

/// An entry of a conversation is kept as it stands, under its key.
pub proof fn entries_are_kept_as_they_stand(key: Seq<char>, raw: Seq<char>)
    ensures
        entry_record(key, raw) matches EventView::Record { kind, data, native } && kind
            == "native_record"@ && native == Some(raw) && data.field("harness"@) == Data::Text("pi"@)
            && data.field("cursor"@).field("entry"@) == Data::Text(key),
{
    telling_words();
}

/// A child is asked for within a turn, by the call that asks, with its own words.
pub proof fn children_are_asked_for_by_their_call(
    s: ProgressView,
    value: Data,
    id: Seq<char>,
    prompt: Seq<char>,
    call: Seq<char>,
)
    requires
        value.field("id"@) == Data::Text(id),
        value.field("prompt"@) == Data::Text(prompt),
        value.field("tool_call_id"@) == Data::Text(call),
    ensures
        child_asked(s, value) matches Ok(told) ==> told.len() == 1 && (told[0] matches
            EventView::ChildRequest(child) && child.id == id && child.prompt == prompt
            && child.tool_call_id == call && Some(child.request) == s.request),
        id.len() == 0 || byte_len(id) > 48 || byte_len(prompt) > 32768 ==> child_asked(s, value) is Err,
        s.request is None || s.finished ==> child_asked(s, value) is Err,
{
}

/// A tool's beginning and its end are told under one name: what it is given, and what it gave.
pub proof fn tools_are_told_from_beginning_to_end(session: Option<Seq<char>>, event: Data)
    ensures
        event.field("subtype"@) == Data::Text("started"@) ==> (tool_news(session, event) matches Some(f)
            && f.field("params"@).field("update"@).field("sessionUpdate"@) == Data::Text("tool_call"@)
            && f.field("params"@).field("update"@).field("toolCallId"@) == Data::Text(tool_id(event))
            && f.field("params"@).field("update"@).field("status"@) == Data::Text("in_progress"@)),
        event.field("subtype"@) == Data::Text("completed"@) ==> (tool_news(session, event) matches
            Some(f) && f.field("params"@).field("update"@).field("sessionUpdate"@) == Data::Text(
            "tool_call_update"@,
        ) && f.field("params"@).field("update"@).field("toolCallId"@) == Data::Text(tool_id(event))
            && (f.field("params"@).field("update"@).field("status"@) == Data::Text("completed"@)
            || f.field("params"@).field("update"@).field("status"@) == Data::Text("failed"@))
            && (f.field("params"@).field("update"@).field("status"@) == Data::Text("completed"@)
            <==> f.field("params"@).field("update"@).field("rawOutput"@).get("success"@) is Some)),
        event.field("subtype"@) == Data::Text("other"@) ==> tool_news(session, event) is None,
{
    telling_words();
    reveal_strlit("other");
    reveal_strlit("started");
    reveal_strlit("completed");
    assert("other"@.len() == 5 && "started"@.len() == 7 && "completed"@.len() == 9);
}

/// The key of a tool is the first that ends as one.
pub proof fn tools_are_found_by_their_key(keys: Seq<Seq<char>>, key: Seq<char>)
    ensures
        tool_key(Seq::empty()) is None,
        tool_key(keys) is Some ==> tool_key(keys.push(key)) == tool_key(keys),
        tool_key(keys) is None ==> (tool_key(keys.push(key)) == Some(key) || tool_key(keys.push(key))
            is None),
        tool_key(keys) is None ==> (tool_key(keys.push(key)) == Some(key) <==> crate::text::finishes(
            key,
            "ToolCall"@,
        )),
{
    assert(keys.push(key).drop_last() =~= keys);
}

// The bridge.

/// The bridge answers what it is asked: what it can do, which model was chosen, and that it knows no more.
pub proof fn bridges_answer_what_is_asked(d: DriverView, message: Data, id: u64, value: Seq<char>)
    requires
        message.field("id"@) == Data::Number(Number::Unsigned(id)),
    ensures
        message.field("method"@) == Data::Text("initialize"@) ==> ({
            let (e, action) = handled(d, message);
            &&& e == d
            &&& action matches ActionView::Reply(frame) && frame.field("id"@) == message.field("id"@)
                && frame.field("result"@).field("protocolVersion"@) == Data::Number(Number::Unsigned(1))
                && frame.field("result"@).field("agentCapabilities"@).field("loadSession"@)
                == Data::Bool(true)
        }),
        message.field("method"@) == Data::Text("session/new"@) && message.field("params"@).field("cwd"@)
            == Data::Text(value) ==> handled(d, message) == (d, (ActionView::Create { cwd: value })),
        message.field("method"@) == Data::Text("session/cancel"@) ==> handled(d, message) == (
            d,
            if d.running {
                ActionView::Cancel
            } else {
                ActionView::Nothing
            },
        ),
        message.field("method"@) == Data::Text("session/set_config_option"@) && message.field(
            "params"@,
        ).field("configId"@) == Data::Text("model"@) && message.field("params"@).field("value"@)
            == Data::Text(value) ==> ({
            let (e, action) = handled(d, message);
            &&& e.model == Some(value)
            &&& action matches ActionView::Reply(frame) && frame.field("id"@) == message.field("id"@)
        }),
        message.field("method"@) == Data::Text("session/load"@) && message.field("params"@).field(
            "sessionId"@,
        ) is Null ==> (handled(d, message) matches (e, ActionView::Reply(frame)) && e == d
            && frame.field("result"@) is Null),
{
    telling_words();
}

/// A message to no one is not answered.
pub proof fn notices_are_not_answered(d: DriverView, message: Data)
    requires
        message.field("id"@) is Null,
        message.field("method"@) != Data::Text("session/cancel"@),
    ensures
        handled(d, message) == (d, ActionView::Nothing),
{
}

// Cursor and its kin.

/// A session that is opened has a name that fits, the one that was expected where one was; one of its kind lies
/// where its home says.
pub proof fn opened_sessions_have_their_name(p: cursor::ProtocolView, result: Data)
    ensures
        opened_session(p, result) matches Ok((id, path, root)) ==> (p.expected is Some ==> p.expected
            == Some(id)) && (result.field("sessionId"@) is Text ==> result.field("sessionId"@)
            == Data::Text(id)) && (p.flavor == Flavor::Fx ==> path == p.home + "/sessions/"@ + id
            + "/session.json"@ && root is None) && (p.flavor == Flavor::Cursor ==> result.field("path"@)
            == Data::Text(path) && root is Some),
        !(result.field("sessionId"@) is Text) && p.expected is None ==> opened_session(p, result) is Err,
{
}

/// What is told of another session, while a turn runs, is an error; what is told outside a turn changes
/// nothing.
pub proof fn updates_are_for_their_session(
    p: cursor::ProtocolView,
    s: ProgressView,
    value: Data,
    session: Seq<char>,
)
    requires
        value.field("method"@) == Data::Text("session/update"@),
        value.field("params"@).field("sessionId"@) == Data::Text(session),
    ensures
        p.prompt is Some && s.native != Some(session) ==> updated(p, s, value).told is Err
            && updated(p, s, value).state == p && updated(p, s, value).progress == s,
        p.prompt is None ==> updated(p, s, value).state == p && updated(p, s, value).progress == s && (
        updated(p, s, value).told matches Ok(told) && told.len() == 0),
{
}

/// A model works at its usual level: medium where it has it, else the lowest it has.
pub proof fn usual_levels_are_chosen_in_order(levels: Seq<Seq<char>>)
    ensures
        levels.contains("medium"@) ==> first_usual(levels) == Some("medium"@),
        !levels.contains("medium"@) && levels.contains("low"@) ==> first_usual(levels) == Some("low"@),
        !levels.contains("medium"@) && !levels.contains("low"@) && levels.contains("high"@)
            ==> first_usual(levels) == Some("high"@),
        !levels.contains("medium"@) && !levels.contains("low"@) && !levels.contains("high"@)
            && levels.contains("xhigh"@) ==> first_usual(levels) == Some("xhigh"@),
        first_usual(levels) matches Some(level) ==> levels.contains(level),
{
}

/// The level that a model usually works at is one that it offers.
pub proof fn usual_levels_are_offered(ids: Seq<Seq<char>>, name: Seq<char>)
    ensures
        usual_level(ids, name) matches Some(level) ==> super::cursor_models::offers(
            ids,
            name,
            super::cursor_models::thinks(ids, name),
            level,
        ),
        super::cursor_models::offers(
            ids,
            name,
            super::cursor_models::thinks(ids, name),
            "medium"@,
        ) ==> usual_level(ids, name) == Some("medium"@),
{
}

// Places in a history.

/// A history is read on where it was left: the next line begins there, and ends by its length further on.
pub proof fn places_follow_each_other(previous: Data, data: Data, line: Seq<char>, at: u64)
    requires
        data.field("offset"@) == Data::Number(Number::Unsigned(at)),
        at + byte_len(line) <= u64::MAX,
    ensures
        previous.field("offset"@) == Data::Number(Number::Unsigned(at)) ==> (offset_checkpoint(
            previous,
            data,
            Some(line),
        ) matches Ok(next) && next.field("offset"@) == Data::Number(
            Number::Unsigned((at + byte_len(line)) as u64),
        )),
        previous.field("offset"@) is Null && at != 0 ==> offset_checkpoint(previous, data, Some(line))
            is Err,
        offset_checkpoint(previous, data, None) is Err,
{
    telling_words();
}

/// A snapshot is read part by part, from its first, without a gap.
pub proof fn snapshots_are_read_in_order(previous: Data, data: Data, name: Seq<char>, index: u64, line: Seq<char>)
    requires
        data.field("snapshot"@) == Data::Text(name),
        data.field("index"@) == Data::Number(Number::Unsigned(index)),
        index < u64::MAX,
    ensures
        index == 0 ==> snapshot_checkpoint(previous, data, Some(line)) is Ok,
        snapshot_checkpoint(previous, data, Some(line)) matches Ok(next) ==> next.field("snapshot"@)
            == Data::Text(name) && next.field("index"@) == Data::Number(
            Number::Unsigned((index + 1) as u64),
        ) && (next.field("complete"@) == Data::Bool(true) <==> data.field("complete"@) == Data::Bool(
            true,
        )),
        index > 0 && previous.field("snapshot"@) != Data::Text(name) ==> snapshot_checkpoint(
            previous,
            data,
            Some(line),
        ) is Err,
        snapshot_checkpoint(previous, data, None) is Err,
{
    telling_words();
}

} // verus!
