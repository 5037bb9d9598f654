//! What is kept of sessions, and what is shown and promised of them.
use super::accounts::{account_refused, continued, login_refused, Account};
use super::asking::tells_of;
use super::catalog::{
    counts_data, dashboard_entry, dashboard_data, entries_shown, harness_data, level_refused, list_entry, listed, looking,
    prompt_level_refused, tier_refused, Overview,
};
use super::children::{
    child_ending, child_reply, delegated, ended_note, DelegationView, Ending, SaidView,
};
use super::command::NextView;
use super::guard::{duty, next_upload, pause_data, resume_data, warnings, Duty, Guard, Level};
use super::history::{saved_receipt, saved_session, summary_step, SummaryView};
use super::local::{applied, drafted, LocalView};
use super::outbox::{opened, record_id, record_name, JournalView};
use super::pick::{chosen, Pick};
use super::prompt::{edited_input, latest_input, payload, prompts_after, PromptView};
use super::query::{dashboard_word, guarded};
use super::record::{page_after, record_json};
use super::replay::session_words;
use super::start::{asked_kind, begun, early_reply, saved_reply, start_input, start_receipt, start_refused, StartView};
use super::{ErrorView, ReceiptView, RecordView, SessionView, WorkspaceView};
use crate::fault::FaultView;
use crate::json::{Data, Number};
use crate::runtime::{kind_name, pi_reasoning_level, ChildView, Kind, ModelView};
use crate::table::in_order;
use crate::text::{decimal, number};
use vstd::prelude::*;

verus! {

proof fn keeping_words()
    ensures
        "id"@.len() == 2,
        "text"@.len() == 4 && "text"@[0] == 't',
        "path"@.len() == 4 && "path"@[0] == 'p',
        "kind"@.len() == 4 && "kind"@[0] == 'k',
        "data"@.len() == 4 && "data"@[0] == 'd',
        "fast"@.len() == 4 && "fast"@[0] == 'f',
        "edit"@.len() == 4 && "edit"@[0] == 'e',
        "error"@.len() == 5 && "error"@[0] == 'e' && "error"@[3] == 'o',
        "state"@.len() == 5 && "state"@[0] == 's' && "state"@[3] == 't',
        "child"@.len() == 5 && "child"@[0] == 'c' && "child"@[3] == 'l',
        "model"@.len() == 5 && "model"@[0] == 'm' && "model"@[3] == 'e',
        "start"@.len() == 5 && "start"@[0] == 's' && "start"@[3] == 'r',
        "input"@.len() == 5 && "input"@[0] == 'i' && "input"@[3] == 'u',
        "total"@.len() == 5 && "total"@[0] == 't' && "total"@[3] == 'a',
        "title"@.len() == 5 && "title"@[0] == 't' && "title"@[3] == 'l',
        "ready"@.len() == 5 && "ready"@[0] == 'r' && "ready"@[3] == 'd',
        "steer"@.len() == 5 && "steer"@[0] == 's' && "steer"@[3] == 'e',
        "usage"@.len() == 5 && "usage"@[0] == 'u' && "usage"@[3] == 'g',
        "files"@.len() == 5 && "files"@[0] == 'f' && "files"@[3] == 'e',
        "parent"@.len() == 6 && "parent"@[2] == 'r' && "parent"@[0] == 'p',
        "result"@.len() == 6 && "result"@[2] == 's' && "result"@[0] == 'r',
        "failed"@.len() == 6 && "failed"@[2] == 'i' && "failed"@[0] == 'f',
        "closed"@.len() == 6 && "closed"@[2] == 'o' && "closed"@[0] == 'c',
        "prompt"@.len() == 6 && "prompt"@[2] == 'o' && "prompt"@[0] == 'p',
        "paused"@.len() == 6 && "paused"@[2] == 'u' && "paused"@[0] == 'p',
        "reason"@.len() == 6 && "reason"@[2] == 'a' && "reason"@[0] == 'r',
        "native"@.len() == 6 && "native"@[2] == 't' && "native"@[0] == 'n',
        "queued"@.len() == 6 && "queued"@[2] == 'e' && "queued"@[0] == 'q',
        "commit"@.len() == 6 && "commit"@[2] == 'm' && "commit"@[0] == 'c',
        "agents"@.len() == 6 && "agents"@[2] == 'e' && "agents"@[0] == 'a',
        "rewind"@.len() == 6 && "rewind"@[2] == 'w' && "rewind"@[0] == 'r',
        "images"@.len() == 6 && "images"@[2] == 'a' && "images"@[0] == 'i',
        "models"@.len() == 6 && "models"@[2] == 'd' && "models"@[0] == 'm',
        "cancel"@.len() == 6 && "cancel"@[2] == 'n' && "cancel"@[0] == 'c',
        "started"@.len() == 7 && "started"@[0] == 's' && "started"@[2] == 'a' && "started"@[3] == 'r',
        "unknown"@.len() == 7 && "unknown"@[0] == 'u' && "unknown"@[2] == 'k' && "unknown"@[3] == 'n',
        "harness"@.len() == 7 && "harness"@[0] == 'h' && "harness"@[2] == 'r' && "harness"@[3] == 'n',
        "receipt"@.len() == 7 && "receipt"@[0] == 'r' && "receipt"@[2] == 'c' && "receipt"@[3] == 'e',
        "command"@.len() == 7 && "command"@[0] == 'c' && "command"@[2] == 'm' && "command"@[3] == 'm',
        "waiting"@.len() == 7 && "waiting"@[0] == 'w' && "waiting"@[2] == 'i' && "waiting"@[3] == 't',
        "working"@.len() == 7 && "working"@[0] == 'w' && "working"@[2] == 'r' && "working"@[3] == 'k',
        "version"@.len() == 7 && "version"@[0] == 'v' && "version"@[2] == 'r' && "version"@[3] == 's',
        "runtime"@.len() == 7 && "runtime"@[0] == 'r' && "runtime"@[2] == 'n' && "runtime"@[3] == 't',
        "storage"@.len() == 7 && "storage"@[0] == 's' && "storage"@[2] == 'o' && "storage"@[3] == 'r',
        "default"@.len() == 7 && "default"@[0] == 'd' && "default"@[2] == 'f' && "default"@[3] == 'a',
        "compact"@.len() == 7 && "compact"@[0] == 'c' && "compact"@[2] == 'm' && "compact"@[3] == 'p',
        "missing"@.len() == 7 && "missing"@[0] == 'm' && "missing"@[2] == 's' && "missing"@[3] == 's',
        "expired"@.len() == 7 && "expired"@[0] == 'e' && "expired"@[2] == 'p' && "expired"@[3] == 'i',
        "limited"@.len() == 7 && "limited"@[0] == 'l' && "limited"@[2] == 'm' && "limited"@[3] == 'i',
        "content"@.len() == 7 && "content"@[0] == 'c' && "content"@[2] == 'n' && "content"@[3] == 't',
        "prompts"@.len() == 7 && "prompts"@[0] == 'p' && "prompts"@[2] == 'o' && "prompts"@[3] == 'm',
        "provider"@.len() == 8 && "provider"@[2] == 'o',
        "accepted"@.len() == 8 && "accepted"@[2] == 'c',
        "sequence"@.len() == 8 && "sequence"@[2] == 'q',
        "sessions"@.len() == 8 && "sessions"@[2] == 's',
        "activity"@.len() == 8 && "activity"@[2] == 't',
        "sleeping"@.len() == 8 && "sleeping"@[2] == 'e',
        "teleport"@.len() == 8 && "teleport"@[2] == 'l',
        "completed"@.len() == 9 && "completed"@[2] == 'm' && "completed"@[0] == 'c',
        "reasoning"@.len() == 9 && "reasoning"@[2] == 'a' && "reasoning"@[0] == 'r',
        "workspace"@.len() == 9 && "workspace"@[2] == 'r' && "workspace"@[0] == 'w',
        "sampledAt"@.len() == 9 && "sampledAt"@[2] == 'm' && "sampledAt"@[0] == 's',
        "resources"@.len() == 9 && "resources"@[2] == 's' && "resources"@[0] == 'r',
        "subagents"@.len() == 9 && "subagents"@[2] == 'b' && "subagents"@[0] == 's',
        "connected"@.len() == 9 && "connected"@[2] == 'n' && "connected"@[0] == 'c',
        "native_id"@.len() == 9 && "native_id"@[2] == 't' && "native_id"@[0] == 'n',
        "suspended"@.len() == 9 && "suspended"@[2] == 's' && "suspended"@[0] == 's',
        "session_id"@.len() == 10 && "session_id"@[2] == 's',
        "request_id"@.len() == 10 && "request_id"@[2] == 'q',
        "repository"@.len() == 10 && "repository"@[2] == 'p',
        "configured"@.len() == 10 && "configured"@[2] == 'n',
        "onboarding"@.len() == 10 && "onboarding"@[2] == 'b',
        "interrupted"@.len() == 11 && "interrupted"@[0] == 'i',
        "attachments"@.len() == 11 && "attachments"@[0] == 'a',
        "unavailable"@.len() == 11 && "unavailable"@[0] == 'u',
        "native_path"@.len() == 11 && "native_path"@[0] == 'n',
        "process_lost"@.len() == 12 && "process_lost"@[3] == 'c',
        "tool_call_id"@.len() == 12 && "tool_call_id"@[3] == 'l',
        "timestamp_ms"@.len() == 12 && "timestamp_ms"@[3] == 'e',
        "lastActivity"@.len() == 12 && "lastActivity"@[3] == 't',
        "sessionCount"@.len() == 12 && "sessionCount"@[3] == 's',
        "service_tier"@.len() == 12 && "service_tier"@[3] == 'v',
        "capabilities"@.len() == 12 && "capabilities"@[3] == 'a',
        "storage_pause"@.len() == 13 && "storage_pause"@[0] == 's',
        "last_sequence"@.len() == 13 && "last_sequence"@[0] == 'l',
        "native_record"@.len() == 13 && "native_record"@[0] == 'n',
        "resourceBytes"@.len() == 13 && "resourceBytes"@[0] == 'r',
        "parent_session"@.len() == 14 && "parent_session"@[9] == 's',
        "parent_request"@.len() == 14 && "parent_request"@[9] == 'q',
        "workspace_name"@.len() == 14 && "workspace_name"@[9] == '_',
        "skill_mentions"@.len() == 14 && "skill_mentions"@[9] == 't',
        "diskThresholds"@.len() == 14 && "diskThresholds"@[9] == 'h',
        "storage_warning"@.len() == 15 && "storage_warning"@[0] == 's',
        "current_request"@.len() == 15 && "current_request"@[0] == 'c',
        "native_identity"@.len() == 15 && "native_identity"@[0] == 'n',
        "appConnectivity"@.len() == 15 && "appConnectivity"@[0] == 'a',
        "last_activity_ms"@.len() == 16 && "last_activity_ms"@[0] == 'l',
        "reasoning_levels"@.len() == 16 && "reasoning_levels"@[0] == 'r',
        "storage_recovered"@.len() == 17 && "storage_recovered"@[0] == 's',
        "target_request_id"@.len() == 17 && "target_request_id"@[0] == 't',
        "provider_selection"@.len() == 18 && "provider_selection"@[0] == 'p',
        "saved_history_only"@.len() == 18 && "saved_history_only"@[0] == 's',
        "unknown_after_restart"@.len() == 21 && "unknown_after_restart"@[0] == 'u',
        "command_guard_enabled"@.len() == 21 && "command_guard_enabled"@[0] == 'c',
{
    reveal_strlit("id");
    reveal_strlit("text");
    reveal_strlit("path");
    reveal_strlit("kind");
    reveal_strlit("data");
    reveal_strlit("fast");
    reveal_strlit("edit");
    reveal_strlit("error");
    reveal_strlit("state");
    reveal_strlit("child");
    reveal_strlit("model");
    reveal_strlit("start");
    reveal_strlit("input");
    reveal_strlit("total");
    reveal_strlit("title");
    reveal_strlit("ready");
    reveal_strlit("steer");
    reveal_strlit("usage");
    reveal_strlit("files");
    reveal_strlit("parent");
    reveal_strlit("result");
    reveal_strlit("failed");
    reveal_strlit("closed");
    reveal_strlit("prompt");
    reveal_strlit("paused");
    reveal_strlit("reason");
    reveal_strlit("native");
    reveal_strlit("queued");
    reveal_strlit("commit");
    reveal_strlit("agents");
    reveal_strlit("rewind");
    reveal_strlit("images");
    reveal_strlit("models");
    reveal_strlit("cancel");
    reveal_strlit("started");
    reveal_strlit("unknown");
    reveal_strlit("harness");
    reveal_strlit("receipt");
    reveal_strlit("command");
    reveal_strlit("waiting");
    reveal_strlit("working");
    reveal_strlit("version");
    reveal_strlit("runtime");
    reveal_strlit("storage");
    reveal_strlit("default");
    reveal_strlit("compact");
    reveal_strlit("missing");
    reveal_strlit("expired");
    reveal_strlit("limited");
    reveal_strlit("content");
    reveal_strlit("prompts");
    reveal_strlit("provider");
    reveal_strlit("accepted");
    reveal_strlit("sequence");
    reveal_strlit("sessions");
    reveal_strlit("activity");
    reveal_strlit("sleeping");
    reveal_strlit("teleport");
    reveal_strlit("completed");
    reveal_strlit("reasoning");
    reveal_strlit("workspace");
    reveal_strlit("sampledAt");
    reveal_strlit("resources");
    reveal_strlit("subagents");
    reveal_strlit("connected");
    reveal_strlit("native_id");
    reveal_strlit("suspended");
    reveal_strlit("session_id");
    reveal_strlit("request_id");
    reveal_strlit("repository");
    reveal_strlit("configured");
    reveal_strlit("onboarding");
    reveal_strlit("interrupted");
    reveal_strlit("attachments");
    reveal_strlit("unavailable");
    reveal_strlit("native_path");
    reveal_strlit("process_lost");
    reveal_strlit("tool_call_id");
    reveal_strlit("timestamp_ms");
    reveal_strlit("lastActivity");
    reveal_strlit("sessionCount");
    reveal_strlit("service_tier");
    reveal_strlit("capabilities");
    reveal_strlit("storage_pause");
    reveal_strlit("last_sequence");
    reveal_strlit("native_record");
    reveal_strlit("resourceBytes");
    reveal_strlit("parent_session");
    reveal_strlit("parent_request");
    reveal_strlit("workspace_name");
    reveal_strlit("skill_mentions");
    reveal_strlit("diskThresholds");
    reveal_strlit("storage_warning");
    reveal_strlit("current_request");
    reveal_strlit("native_identity");
    reveal_strlit("appConnectivity");
    reveal_strlit("last_activity_ms");
    reveal_strlit("reasoning_levels");
    reveal_strlit("storage_recovered");
    reveal_strlit("target_request_id");
    reveal_strlit("provider_selection");
    reveal_strlit("saved_history_only");
    reveal_strlit("unknown_after_restart");
    reveal_strlit("command_guard_enabled");
    assert("id"@.len() == 2);
    assert("text"@.len() == 4 && "text"@[0] == 't');
    assert("path"@.len() == 4 && "path"@[0] == 'p');
    assert("kind"@.len() == 4 && "kind"@[0] == 'k');
    assert("data"@.len() == 4 && "data"@[0] == 'd');
    assert("fast"@.len() == 4 && "fast"@[0] == 'f');
    assert("edit"@.len() == 4 && "edit"@[0] == 'e');
    assert("error"@.len() == 5 && "error"@[0] == 'e' && "error"@[3] == 'o');
    assert("state"@.len() == 5 && "state"@[0] == 's' && "state"@[3] == 't');
    assert("child"@.len() == 5 && "child"@[0] == 'c' && "child"@[3] == 'l');
    assert("model"@.len() == 5 && "model"@[0] == 'm' && "model"@[3] == 'e');
    assert("start"@.len() == 5 && "start"@[0] == 's' && "start"@[3] == 'r');
    assert("input"@.len() == 5 && "input"@[0] == 'i' && "input"@[3] == 'u');
    assert("total"@.len() == 5 && "total"@[0] == 't' && "total"@[3] == 'a');
    assert("title"@.len() == 5 && "title"@[0] == 't' && "title"@[3] == 'l');
    assert("ready"@.len() == 5 && "ready"@[0] == 'r' && "ready"@[3] == 'd');
    assert("steer"@.len() == 5 && "steer"@[0] == 's' && "steer"@[3] == 'e');
    assert("usage"@.len() == 5 && "usage"@[0] == 'u' && "usage"@[3] == 'g');
    assert("files"@.len() == 5 && "files"@[0] == 'f' && "files"@[3] == 'e');
    assert("parent"@.len() == 6 && "parent"@[2] == 'r' && "parent"@[0] == 'p');
    assert("result"@.len() == 6 && "result"@[2] == 's' && "result"@[0] == 'r');
    assert("failed"@.len() == 6 && "failed"@[2] == 'i' && "failed"@[0] == 'f');
    assert("closed"@.len() == 6 && "closed"@[2] == 'o' && "closed"@[0] == 'c');
    assert("prompt"@.len() == 6 && "prompt"@[2] == 'o' && "prompt"@[0] == 'p');
    assert("paused"@.len() == 6 && "paused"@[2] == 'u' && "paused"@[0] == 'p');
    assert("reason"@.len() == 6 && "reason"@[2] == 'a' && "reason"@[0] == 'r');
    assert("native"@.len() == 6 && "native"@[2] == 't' && "native"@[0] == 'n');
    assert("queued"@.len() == 6 && "queued"@[2] == 'e' && "queued"@[0] == 'q');
    assert("commit"@.len() == 6 && "commit"@[2] == 'm' && "commit"@[0] == 'c');
    assert("agents"@.len() == 6 && "agents"@[2] == 'e' && "agents"@[0] == 'a');
    assert("rewind"@.len() == 6 && "rewind"@[2] == 'w' && "rewind"@[0] == 'r');
    assert("images"@.len() == 6 && "images"@[2] == 'a' && "images"@[0] == 'i');
    assert("models"@.len() == 6 && "models"@[2] == 'd' && "models"@[0] == 'm');
    assert("cancel"@.len() == 6 && "cancel"@[2] == 'n' && "cancel"@[0] == 'c');
    assert("started"@.len() == 7 && "started"@[0] == 's' && "started"@[2] == 'a' && "started"@[3] == 'r');
    assert("unknown"@.len() == 7 && "unknown"@[0] == 'u' && "unknown"@[2] == 'k' && "unknown"@[3] == 'n');
    assert("harness"@.len() == 7 && "harness"@[0] == 'h' && "harness"@[2] == 'r' && "harness"@[3] == 'n');
    assert("receipt"@.len() == 7 && "receipt"@[0] == 'r' && "receipt"@[2] == 'c' && "receipt"@[3] == 'e');
    assert("command"@.len() == 7 && "command"@[0] == 'c' && "command"@[2] == 'm' && "command"@[3] == 'm');
    assert("waiting"@.len() == 7 && "waiting"@[0] == 'w' && "waiting"@[2] == 'i' && "waiting"@[3] == 't');
    assert("working"@.len() == 7 && "working"@[0] == 'w' && "working"@[2] == 'r' && "working"@[3] == 'k');
    assert("version"@.len() == 7 && "version"@[0] == 'v' && "version"@[2] == 'r' && "version"@[3] == 's');
    assert("runtime"@.len() == 7 && "runtime"@[0] == 'r' && "runtime"@[2] == 'n' && "runtime"@[3] == 't');
    assert("storage"@.len() == 7 && "storage"@[0] == 's' && "storage"@[2] == 'o' && "storage"@[3] == 'r');
    assert("default"@.len() == 7 && "default"@[0] == 'd' && "default"@[2] == 'f' && "default"@[3] == 'a');
    assert("compact"@.len() == 7 && "compact"@[0] == 'c' && "compact"@[2] == 'm' && "compact"@[3] == 'p');
    assert("missing"@.len() == 7 && "missing"@[0] == 'm' && "missing"@[2] == 's' && "missing"@[3] == 's');
    assert("expired"@.len() == 7 && "expired"@[0] == 'e' && "expired"@[2] == 'p' && "expired"@[3] == 'i');
    assert("limited"@.len() == 7 && "limited"@[0] == 'l' && "limited"@[2] == 'm' && "limited"@[3] == 'i');
    assert("content"@.len() == 7 && "content"@[0] == 'c' && "content"@[2] == 'n' && "content"@[3] == 't');
    assert("prompts"@.len() == 7 && "prompts"@[0] == 'p' && "prompts"@[2] == 'o' && "prompts"@[3] == 'm');
    assert("provider"@.len() == 8 && "provider"@[2] == 'o');
    assert("accepted"@.len() == 8 && "accepted"@[2] == 'c');
    assert("sequence"@.len() == 8 && "sequence"@[2] == 'q');
    assert("sessions"@.len() == 8 && "sessions"@[2] == 's');
    assert("activity"@.len() == 8 && "activity"@[2] == 't');
    assert("sleeping"@.len() == 8 && "sleeping"@[2] == 'e');
    assert("teleport"@.len() == 8 && "teleport"@[2] == 'l');
    assert("completed"@.len() == 9 && "completed"@[2] == 'm' && "completed"@[0] == 'c');
    assert("reasoning"@.len() == 9 && "reasoning"@[2] == 'a' && "reasoning"@[0] == 'r');
    assert("workspace"@.len() == 9 && "workspace"@[2] == 'r' && "workspace"@[0] == 'w');
    assert("sampledAt"@.len() == 9 && "sampledAt"@[2] == 'm' && "sampledAt"@[0] == 's');
    assert("resources"@.len() == 9 && "resources"@[2] == 's' && "resources"@[0] == 'r');
    assert("subagents"@.len() == 9 && "subagents"@[2] == 'b' && "subagents"@[0] == 's');
    assert("connected"@.len() == 9 && "connected"@[2] == 'n' && "connected"@[0] == 'c');
    assert("native_id"@.len() == 9 && "native_id"@[2] == 't' && "native_id"@[0] == 'n');
    assert("suspended"@.len() == 9 && "suspended"@[2] == 's' && "suspended"@[0] == 's');
    assert("session_id"@.len() == 10 && "session_id"@[2] == 's');
    assert("request_id"@.len() == 10 && "request_id"@[2] == 'q');
    assert("repository"@.len() == 10 && "repository"@[2] == 'p');
    assert("configured"@.len() == 10 && "configured"@[2] == 'n');
    assert("onboarding"@.len() == 10 && "onboarding"@[2] == 'b');
    assert("interrupted"@.len() == 11 && "interrupted"@[0] == 'i');
    assert("attachments"@.len() == 11 && "attachments"@[0] == 'a');
    assert("unavailable"@.len() == 11 && "unavailable"@[0] == 'u');
    assert("native_path"@.len() == 11 && "native_path"@[0] == 'n');
    assert("process_lost"@.len() == 12 && "process_lost"@[3] == 'c');
    assert("tool_call_id"@.len() == 12 && "tool_call_id"@[3] == 'l');
    assert("timestamp_ms"@.len() == 12 && "timestamp_ms"@[3] == 'e');
    assert("lastActivity"@.len() == 12 && "lastActivity"@[3] == 't');
    assert("sessionCount"@.len() == 12 && "sessionCount"@[3] == 's');
    assert("service_tier"@.len() == 12 && "service_tier"@[3] == 'v');
    assert("capabilities"@.len() == 12 && "capabilities"@[3] == 'a');
    assert("storage_pause"@.len() == 13 && "storage_pause"@[0] == 's');
    assert("last_sequence"@.len() == 13 && "last_sequence"@[0] == 'l');
    assert("native_record"@.len() == 13 && "native_record"@[0] == 'n');
    assert("resourceBytes"@.len() == 13 && "resourceBytes"@[0] == 'r');
    assert("parent_session"@.len() == 14 && "parent_session"@[9] == 's');
    assert("parent_request"@.len() == 14 && "parent_request"@[9] == 'q');
    assert("workspace_name"@.len() == 14 && "workspace_name"@[9] == '_');
    assert("skill_mentions"@.len() == 14 && "skill_mentions"@[9] == 't');
    assert("diskThresholds"@.len() == 14 && "diskThresholds"@[9] == 'h');
    assert("storage_warning"@.len() == 15 && "storage_warning"@[0] == 's');
    assert("current_request"@.len() == 15 && "current_request"@[0] == 'c');
    assert("native_identity"@.len() == 15 && "native_identity"@[0] == 'n');
    assert("appConnectivity"@.len() == 15 && "appConnectivity"@[0] == 'a');
    assert("last_activity_ms"@.len() == 16 && "last_activity_ms"@[0] == 'l');
    assert("reasoning_levels"@.len() == 16 && "reasoning_levels"@[0] == 'r');
    assert("storage_recovered"@.len() == 17 && "storage_recovered"@[0] == 's');
    assert("target_request_id"@.len() == 17 && "target_request_id"@[0] == 't');
    assert("provider_selection"@.len() == 18 && "provider_selection"@[0] == 'p');
    assert("saved_history_only"@.len() == 18 && "saved_history_only"@[0] == 's');
    assert("unknown_after_restart"@.len() == 21 && "unknown_after_restart"@[0] == 'u');
    assert("command_guard_enabled"@.len() == 21 && "command_guard_enabled"@[0] == 'c');
}
// Children.

/// A child is started for the turn that asks: a session of its own, in the folder and with the model of its
/// parent, that knows its parent, its task and its level; the parent is told.
pub proof fn children_are_started_for_their_parent(
    l: LocalView,
    parent: Seq<char>,
    child: ChildView,
)
    requires
        l.sessions.contains_key(parent),
        l.sessions[parent].harness == Kind::Pi || l.sessions[parent].harness == Kind::Claude,
        l.sessions[parent].current_request == Some(child.request),
        !l.sessions.contains_key("cr_child_"@ + child.id),
    ensures
        delegated(l, parent, child, false, false) matches Ok(DelegationView::Started(list))
            && list.len() == 2 && ({
            let s = l.sessions[parent];
            let first = list[0].note.data;
            let input = first.field("input"@);
            &&& list[0].session == "cr_child_"@ + child.id
            &&& list[0].note.kind == "receipt"@
            &&& first.field("request_id"@) == Data::Text("child_"@ + child.id)
            &&& first.field("command"@) == Data::Text("start"@)
            &&& first.field("state"@) == Data::Text("accepted"@)
            &&& s.model is Some ==> first.field("model"@) == Data::Text(s.model->0)
            &&& input.field("parent_session"@) == Data::Text(parent)
            &&& input.field("parent_request"@) == Data::Text(child.request)
            &&& input.field("tool_call_id"@) == Data::Text(child.tool_call_id)
            &&& input.field("prompt"@) == Data::Text(child.prompt)
            &&& input.field("harness"@) == Data::Text(kind_name(s.harness, s.word))
            &&& guarded(s) ==> input.get("command_guard_enabled"@) is None
            &&& !guarded(s) ==> input.field("command_guard_enabled"@) == Data::Bool(false)
            &&& list[1].session == parent
            &&& list[1].note.kind == "child"@
            &&& list[1].note.data.field("id"@) == Data::Text("cr_child_"@ + child.id)
            &&& list[1].note.data.field("request_id"@) == Data::Text(child.request)
            &&& list[1].note.data.field("state"@) == Data::Text("started"@)
        }),
{
    session_words();
    keeping_words();
}

/// No child is started for a session that is not there, or in no turn of its own; one that cannot be started
/// now is refused at once.
pub proof fn children_need_their_turn(
    l: LocalView,
    parent: Seq<char>,
    child: ChildView,
    stopping: bool,
    blocked: bool,
)
    ensures
        !l.sessions.contains_key(parent) ==> delegated(l, parent, child, stopping, blocked) is Err,
        l.sessions.contains_key(parent) && l.sessions[parent].current_request != Some(child.request)
            ==> delegated(l, parent, child, stopping, blocked) is Err,
        l.sessions.contains_key(parent) && l.sessions[parent].harness == Kind::Codex ==> delegated(
            l,
            parent,
            child,
            stopping,
            blocked,
        ) is Err,
        l.sessions.contains_key(parent) && l.sessions[parent].harness == Kind::Pi
            && l.sessions[parent].current_request == Some(child.request) && (stopping || blocked)
            ==> (delegated(l, parent, child, stopping, blocked) matches Ok(
            DelegationView::Refused(reply),
        ) && reply.field("id"@) == Data::Text(child.id) && reply.field("error"@) is Text),
{
    keeping_words();
}

/// A child has ended as its task has: completed, or failed; where its task is open it is lost with its
/// session.
pub proof fn children_end_with_their_task(s: SessionView, key: Seq<char>)
    requires
        s.receipts.contains_key("task_"@ + key),
    ensures
        ({
            let state = s.receipts["task_"@ + key].state;
            let gone = s.state == "failed"@ || s.state == "closed"@ || s.state == "process_lost"@;
            &&& state == "completed"@ ==> child_ending(s, key) == Ending::Completed
            &&& state == "failed"@ || state == "interrupted"@ || state == "unknown"@ || state
                == "unknown_after_restart"@ ==> child_ending(s, key) == Ending::Failed
            &&& state == "accepted"@ && gone ==> child_ending(s, key) == Ending::Unavailable
            &&& state == "accepted"@ && !gone ==> child_ending(s, key) == Ending::Open
        }),
{
    session_words();
    keeping_words();
}

/// What a completed child said is its result, cut where it is too long; any other child is an error. The
/// parent's record says which it was.
pub proof fn results_of_children_are_told(child: ChildView, text: Seq<char>)
    ensures
        ({
            let done = child_reply(child.id, Ending::Completed, SaidView::Text(text));
            let lost = child_reply(child.id, Ending::Unavailable, SaidView::Text(text));
            let failed = child_reply(child.id, Ending::Failed, SaidView::Text(text));
            let silent = child_reply(child.id, Ending::Completed, SaidView::Silent);
            &&& done.field("id"@) == Data::Text(child.id)
            &&& done.field("session_id"@) == Data::Text("cr_child_"@ + child.id)
            &&& text.len() <= 32768 ==> done.field("result"@) == Data::Text(text)
            &&& text.len() > 32768 ==> done.field("result"@) == Data::Text(text.take(32768))
            &&& done.get("error"@) is None
            &&& lost.field("error"@) is Text && lost.get("result"@) is None
            &&& failed.field("error"@) is Text && failed.get("result"@) is None
            &&& silent.field("error"@) is Text
            &&& ended_note(child, done).data.field("state"@) == Data::Text("completed"@)
            &&& ended_note(child, lost).data.field("state"@) == Data::Text("failed"@)
            &&& ended_note(child, done).data.field("result"@) == done
            &&& ended_note(child, done).data.field("id"@) == Data::Text("cr_child_"@ + child.id)
            &&& ended_note(child, done).data.field("request_id"@) == Data::Text(child.request)
        }),
{
    keeping_words();
}

// Starts.

/// A new session is recorded first and then started; it gets its own name by the request.
pub proof fn new_sessions_are_recorded_and_started(l: LocalView, receipt: ReceiptView)
    requires
        !l.sessions.contains_key("cr_"@ + receipt.request_id),
        receipt.state == "accepted"@,
    ensures
        ({
            let out = begun(l, receipt, false, false);
            &&& out.reply == Ok::<ReceiptView, ErrorView>(receipt)
            &&& out.notes.len() == 1 && tells_of(out.notes[0], receipt.request_id, "accepted"@)
            &&& out.next == (NextView::Launch { request: receipt.request_id })
        }),
        begun(l, receipt, true, false).reply is Err,
        begun(l, receipt, false, true).reply is Err,
        begun(l, receipt, true, false).notes.len() == 0,
        begun(l, receipt, false, true).notes.len() == 0,
{
    session_words();
    keeping_words();
}

/// What is asked of a start is what it holds: its harness, model, provider, level and folder, each only where
/// it was asked for.
pub proof fn starts_hold_what_was_asked(start: StartView, kind: Kind, word: Seq<char>)
    ensures
        ({
            let input = start_input(start, kind, word);
            &&& kind == Kind::Codex ==> input.get("harness"@) is None
            &&& kind != Kind::Codex ==> input.field("harness"@) == Data::Text(kind_name(kind, word))
            &&& start.model is Some ==> input.field("model"@) == Data::Text(start.model->0)
            &&& start.model is None ==> input.get("model"@) is None
            &&& start.provider is Some ==> input.field("provider"@) == Data::Text(start.provider->0)
            &&& start.provider is None ==> input.get("provider"@) is None
            &&& start.reasoning is Some ==> input.field("reasoning"@) == Data::Text(
                start.reasoning->0,
            )
            &&& start.reasoning is None ==> input.get("reasoning"@) is None
            &&& start.workspace is Some ==> input.field("workspace"@) == Data::Text(
                start.workspace->0,
            )
            &&& start.workspace is None ==> input.get("workspace"@) is None
            &&& start.workspace_name is Some ==> input.field("workspace_name"@) == Data::Text(
                start.workspace_name->0,
            )
            &&& start.command_guard_enabled == Some(false) ==> input.field("command_guard_enabled"@)
                == Data::Bool(false)
            &&& start.command_guard_enabled != Some(false) ==> input.get("command_guard_enabled"@)
                is None
        }),
{
    keeping_words();
}

/// The receipt of a start holds what was asked for, and the usual where nothing was.
pub proof fn starts_use_the_usual_where_nothing_is_asked(
    start: StartView,
    input: Data,
    model: Seq<char>,
    provider: Option<Seq<char>>,
    workspace: WorkspaceView,
)
    ensures
        ({
            let r = start_receipt(start, input, model, provider, workspace);
            &&& r.request_id == start.request && r.command == "start"@ && r.state == "accepted"@
            &&& r.input == input && r.workspace == Some(workspace) && r.error is None
            &&& start.model is Some ==> r.model == start.model
            &&& start.model is None ==> r.model == Some(model)
            &&& start.provider is Some ==> r.provider == start.provider
            &&& start.provider is None ==> r.provider == provider
        }),
{
}

/// The harness that was asked for is used, else that of the session, else the usual one.
pub proof fn harnesses_are_chosen(l: LocalView, start: StartView, usual: Kind)
    ensures
        start.harness is Some ==> asked_kind(l, start, usual) == start.harness->0,
        start.harness is None && l.sessions.contains_key("cr_"@ + start.request) ==> asked_kind(
            l,
            start,
            usual,
        ) == l.sessions["cr_"@ + start.request].harness,
        start.harness is None && !l.sessions.contains_key("cr_"@ + start.request) ==> asked_kind(
            l,
            start,
            usual,
        ) == usual,
{
}

/// A start is refused exactly where it asks a provider of another harness than Pi, or a folder that is none.
pub proof fn starts_are_refused_where_they_ask_too_much(
    start: StartView,
    kind: Kind,
    valid_workspace: bool,
    valid_name: bool,
)
    ensures
        start_refused(start, kind, valid_workspace, valid_name) is None <==> (start.provider is None
            || kind == Kind::Pi) && (start.workspace is None || valid_workspace) && (
        start.workspace_name is None || (start.workspace is Some && valid_name)),
{
}

/// A new start is answered early where it cannot be made: nothing can be recorded, storage is unsafe, or the
/// harness is not set up.
pub proof fn starts_are_answered_early(
    l: LocalView,
    request: Seq<char>,
    input: Data,
    blocked: bool,
    configured: bool,
)
    requires
        !l.sessions.contains_key("cr_"@ + request),
    ensures
        early_reply(l, request, input, blocked, configured) is None <==> l.journal.writable && !blocked
            && configured,
        early_reply(l, request, input, blocked, configured) matches Some(reply) ==> reply is Err,
{
}

// Storage and records.

/// Every harness is warned that was not, each with the level and the reason; at rest none is.
pub proof fn sessions_are_warned_once(l: LocalView, reason: Seq<char>, i: int)
    ensures
        warnings(l, Level::Normal, reason).len() == 0,
        warnings(l, Level::Warning, reason).len() == chosen(l.sessions, Pick::Unwarned).len(),
        warnings(l, Level::Blocked, reason).len() == chosen(l.sessions, Pick::Unwarned).len(),
        0 <= i < chosen(l.sessions, Pick::Unwarned).len() ==> ({
            let e = warnings(l, Level::Warning, reason)[i];
            e.session == chosen(l.sessions, Pick::Unwarned)[i] && e.note.kind == "storage_warning"@
                && e.note.data.field("reason"@) == Data::Text(reason)
        }),
{
    keeping_words();
}

/// Work is told to be paused with its reason, and to go on: all is well again, or space is still low.
pub proof fn pauses_are_told(reason: Seq<char>)
    ensures
        pause_data(reason).kind == "storage_pause"@,
        pause_data(reason).data.field("paused"@) == Data::Bool(true),
        pause_data(reason).data.field("reason"@) == Data::Text(reason),
        resume_data(Level::Normal).kind == "storage_recovered"@,
        resume_data(Level::Warning).kind == "storage_pause"@,
        resume_data(Level::Warning).data.field("paused"@) == Data::Bool(false),
{
    keeping_words();
}

/// Nothing has to be done where nothing was paused and no warning has to be taken back.
pub proof fn storage_at_rest_needs_nothing(g: Guard, level: Level, warned: bool)
    ensures
        duty(g, level, warned) == Duty::Nothing <==> level != Level::Blocked && !g.was_blocked && !(level
            == Level::Normal && warned),
{
}

/// The next records that are saved elsewhere are those after the last one that is, at most so many at once.
pub proof fn records_are_saved_in_order(j: JournalView)
    requires
        j.saved <= j.last,
    ensures
        ({
            let (from, count) = next_upload(j);
            &&& from == j.saved + 1
            &&& count <= 128
            &&& j.last - j.saved <= 128 ==> count == j.last - j.saved
            &&& j.last - j.saved > 128 ==> count == 128
        }),
{
}

/// A journal is opened with all of its records, and remembers how many are saved elsewhere.
pub proof fn journals_are_opened_whole(ids: Seq<u64>, text: Seq<char>)
    requires
        forall|n: u64| 1 <= n <= ids.len() ==> #[trigger] ids.contains(n),
    ensures
        opened(ids, None) matches Ok(j) && j.last == ids.len() && j.saved == 0 && j.writable,
        number(text, u64::MAX as nat) matches Some(n) ==> (n <= ids.len() ==> (opened(ids, Some(text))
            matches Ok(j) && j.last == ids.len() && j.saved == n && j.writable)),
        number(text, u64::MAX as nat) matches Some(n) ==> (n > ids.len() ==> opened(ids, Some(text)) is
            Err),
        number(text, u64::MAX as nat) is None ==> opened(ids, Some(text)) is Err,
{
}

/// A journal with a gap is not opened.
pub proof fn journals_with_gaps_are_refused(ids: Seq<u64>, saved: Option<Seq<char>>, n: u64)
    requires
        1 <= n <= ids.len(),
        !ids.contains(n),
    ensures
        opened(ids, saved) is Err,
{
}

/// The file of a record is known by the number in its name, in one way.
pub proof fn record_files_are_known(stem: Seq<char>, name: Seq<char>, id: nat)
    ensures
        record_id(stem, name) == Ok::<nat, FaultView>(id) ==> name == record_name(id),
        number(stem, u64::MAX as nat) == Some(id) && name == record_name(id) ==> record_id(stem, name)
            == Ok::<nat, FaultView>(id),
{
}

/// A record that is made comes after the last one, now, for its session, with what it says.
pub proof fn records_are_drafted_next(
    l: LocalView,
    session: Seq<char>,
    kind: Seq<char>,
    data: Data,
    native: Option<Seq<char>>,
    now: u64,
)
    requires
        kind != "native_record"@,
        l.journal.last < u64::MAX,
    ensures
        drafted(l, session, kind, data, native, now) matches Ok(r) && r.sequence == l.journal.last + 1
            && r.session_id == session && r.kind == kind && r.timestamp_ms == Some(now) && r.data
            == data && r.native == native,
{
}

/// What is saved of a record is its number, its session, its kind, its time, what it says, and what the harness
/// wrote.
pub proof fn records_are_saved_with_what_they_say(r: RecordView)
    ensures
        record_json(r).field("sequence"@) == Data::Number(Number::Unsigned(r.sequence)),
        record_json(r).field("session_id"@) == Data::Text(r.session_id),
        record_json(r).field("kind"@) == Data::Text(r.kind),
        record_json(r).field("data"@) == r.data,
        r.timestamp_ms is Some ==> record_json(r).field("timestamp_ms"@) == Data::Number(
            Number::Unsigned(r.timestamp_ms->0),
        ),
        r.timestamp_ms is None ==> record_json(r).get("timestamp_ms"@) is None,
        r.native is Some ==> record_json(r).field("native"@) == Data::Text(r.native->0),
        r.native is None ==> record_json(r).get("native"@) is None,
{
    keeping_words();
}

/// A page holds the records after a number, in order, at most so many.
pub proof fn pages_follow_a_number(sequences: Seq<u64>, after: u64, i: int)
    requires
        forall|i: int, j: int| 0 <= i < j < sequences.len() ==> sequences[i] < sequences[j],
    ensures
        page_after(sequences, after).len() <= 256,
        0 <= i < page_after(sequences, after).len() ==> sequences.contains(
            page_after(sequences, after)[i],
        ) && page_after(sequences, after)[i] > after,
{
    page_place(sequences, after);
    let at = super::record::place_after(sequences, after);
    if 0 <= i < page_after(sequences, after).len() {
        assert(page_after(sequences, after)[i] == sequences[at + i]);
        if i > 0 {
            assert(sequences[at] < sequences[at + i]);
        }
    }
}

proof fn page_place(sequences: Seq<u64>, after: u64)
    ensures
        0 <= super::record::place_after(sequences, after) <= sequences.len(),
        super::record::place_after(sequences, after) < sequences.len()
            ==> sequences[super::record::place_after(sequences, after)] > after,
    decreases sequences.len(),
{
    if sequences.len() > 0 && sequences[0] <= after {
        page_place(sequences.skip(1), after);
        let at = super::record::place_after(sequences.skip(1), after);
        if at < sequences.skip(1).len() {
            assert(sequences.skip(1)[at] == sequences[at + 1]);
        }
    }
}

/// A conversation that was brought over is known with its history, and waits for its harness.
pub proof fn brought_conversations_wait(
    l: LocalView,
    r: RecordView,
    prompts: Seq<Data>,
    id: Seq<char>,
    path: Seq<char>,
)
    requires
        r.kind == "teleport"@,
        r.data.field("prompts"@) == Data::Array(prompts),
        r.data.field("native_id"@) == Data::Text(id),
        r.data.field("native_path"@) == Data::Text(path),
        applied(l, r).1 is None,
    ensures
        applied(l, r).0.sessions.contains_key(r.session_id),
        applied(l, r).0.sessions[r.session_id].native_id == Some(id),
        applied(l, r).0.sessions[r.session_id].native_path == Some(path),
        applied(l, r).0.sessions[r.session_id].state == "suspended"@,
{
    session_words();
    keeping_words();
}

/// A record of what was brought over without its messages, identity or history is a fault.
pub proof fn brought_conversations_are_whole(l: LocalView, r: RecordView)
    requires
        r.kind == "teleport"@,
        !(r.data.field("prompts"@) is Array) || !(r.data.field("native_id"@) is Text) || !(
        r.data.field("native_path"@) is Text),
    ensures
        applied(l, r).1 is Some,
{
}

// Saved sessions.

/// A saved session is summed up by its records: the first identity, the last folder, the harness of its start
/// and the receipt that is looked for.
pub proof fn saved_sessions_are_summed_up(v: SummaryView, r: RecordView, request: Seq<char>, id: Seq<char>)
    ensures
        r.kind == "native_identity"@ && r.data.field("id"@) == Data::Text(id) ==> (summary_step(
            v,
            r,
            Some(request),
        ) matches Ok(w) && w.last_sequence == r.sequence && (v.native_id is None ==> w.native_id
            == Some(id)) && (v.native_id is Some ==> w.native_id == v.native_id) && w.workspace
            == v.workspace && w.harness == v.harness),
        r.kind == "receipt"@ && r.data.field("command"@) == Data::Text("prompt"@) && r.data.field(
            "request_id"@,
        ) == Data::Text(request) ==> (summary_step(v, r, Some(request)) matches Ok(w) && w.receipt
            == Some(r.data)),
        r.kind == "receipt"@ && r.data.field("command"@) == Data::Text("prompt"@) && r.data.field(
            "request_id"@,
        ) != Data::Text(request) ==> (summary_step(v, r, Some(request)) matches Ok(w) && w.receipt
            == v.receipt),
{
    session_words();
    keeping_words();
}

/// A session that was saved elsewhere is shown with its history only.
pub proof fn saved_sessions_are_shown(id: Seq<char>, v: SummaryView)
    ensures
        v.last_sequence == 0 ==> saved_session(id, v) is None,
        v.last_sequence > 0 ==> (saved_session(id, v) matches Some(s) && s.session_id == id && s.state
            == "saved_history_only"@ && s.last_sequence == v.last_sequence && s.native_id == v.native_id
            && s.workspace == v.workspace && s.harness == v.harness),
        v.receipt is None ==> saved_receipt(v) == Ok::<Option<ReceiptView>, FaultView>(None),
{
}

/// A start that was saved elsewhere is answered with its receipt where it is asked for again alike, and is
/// refused else.
pub proof fn saved_starts_are_answered(
    harness: Option<Kind>,
    saved: Kind,
    receipt: ReceiptView,
    input: Data,
)
    ensures
        saved_reply(harness, saved, None, input) is Err,
        harness is Some && harness->0 != saved ==> saved_reply(harness, saved, Some(receipt), input) is
            Err,
        saved_reply(harness, saved, Some(receipt), input) matches Ok(r) ==> r == receipt,
{
}

// Messages.

/// What a message says is its text, its level, its tier, its parts and its attachments, as far as they are
/// there.
pub proof fn messages_say_what_was_written(input: Data, text: Seq<char>)
    requires
        input.field("text"@) == Data::Text(text),
    ensures
        payload(input).field("text"@) == Data::Text(text),
        input.field("reasoning"@) matches Data::Text(level) ==> (level.len() > 0 ==> payload(
            input,
        ).field("reasoning"@) == Data::Text(level)),
        input.get("reasoning"@) is None ==> payload(input).get("reasoning"@) is None,
        input.field("service_tier"@) matches Data::Text(tier) ==> (tier.len() > 0 ==> payload(
            input,
        ).field("service_tier"@) == Data::Text(tier)),
        input.get("service_tier"@) is None ==> payload(input).get("service_tier"@) is None,
        input.get("content"@) matches Some(content) ==> (!(content is Null) ==> payload(input).field(
            "content"@,
        ) == content),
        input.get("attachments"@) matches Some(files) ==> (!(files is Null) ==> payload(input).field(
            "attachments"@,
        ) == files),
{
    keeping_words();
}

/// An edited message says the new text; its level and tier stay where the edit names none.
pub proof fn edited_messages_keep_their_level(previous: Data, edit: Data, text: Seq<char>)
    requires
        edit.field("text"@) == Data::Text(text),
    ensures
        edited_input(previous, edit).field("text"@) == Data::Text(text),
        edit.get("reasoning"@) is None ==> edited_input(previous, edit).get("reasoning"@)
            == previous.get("reasoning"@),
        edit.field("reasoning"@) matches Data::Text(level) ==> (level.len() > 0 ==> edited_input(
            previous,
            edit,
        ).field("reasoning"@) == Data::Text(level)),
        edit.get("service_tier"@) is None ==> edited_input(previous, edit).get("service_tier"@)
            == previous.get("service_tier"@),
{
    keeping_words();
}

/// A message is known with its first revision; each edit makes the next; a cancelled one is known to be.
pub proof fn messages_are_revised(
    prompts: Map<Seq<char>, PromptView>,
    r: ReceiptView,
    target: Seq<char>,
)
    ensures
        r.command == "prompt"@ && r.state == "accepted"@ && !prompts.contains_key(r.request_id) ==> {
            let now = prompts_after(prompts, r);
            now.contains_key(r.request_id) && now[r.request_id].revision == 1
                && now[r.request_id].input == r.input && !now[r.request_id].cancelled
        },
        r.command == "edit"@ && r.state == "accepted"@ && r.input.field("target_request_id"@)
            == Data::Text(target) && prompts.contains_key(target) && !prompts[target].cancelled
            && prompts[target].revision < u64::MAX ==> prompts_after(prompts, r)[target].revision
            == prompts[target].revision + 1,
        r.command == "cancel"@ && (r.state == "accepted"@ || r.state == "completed"@)
            && r.input.field("target_request_id"@) == Data::Text(target) && prompts.contains_key(target)
            ==> prompts_after(prompts, r)[target].cancelled,
        r.command == "stop"@ || r.command == "resume"@ || r.command == "start"@ ==> prompts_after(
            prompts,
            r,
        ) == prompts,
{
    session_words();
    keeping_words();
}

/// The latest of a message is its last revision, unless it was cancelled.
pub proof fn the_latest_is_the_last_revision(
    prompts: Map<Seq<char>, PromptView>,
    receipts: Map<Seq<char>, ReceiptView>,
    request: Seq<char>,
)
    ensures
        prompts.contains_key(request) && !prompts[request].cancelled ==> latest_input(
            prompts,
            receipts,
            request,
        ) == Some(prompts[request].input),
        !prompts.contains_key(request) && receipts.contains_key(request) ==> latest_input(
            prompts,
            receipts,
            request,
        ) == Some(receipts[request].input),
        !prompts.contains_key(request) && !receipts.contains_key(request) ==> latest_input(
            prompts,
            receipts,
            request,
        ) is None,
{
}

// Accounts.

/// Sessions that stopped at a limit go on with a message of their own, all of them; none does while the service
/// stops or storage is unsafe.
pub proof fn limited_sessions_go_on(l: LocalView, now: u64, i: int)
    ensures
        continued(l, true, false, now).len() == 0,
        continued(l, false, true, now).len() == 0,
        continued(l, false, false, now).len() == chosen(l.sessions, Pick::Limited).len(),
        0 <= i < chosen(l.sessions, Pick::Limited).len() ==> ({
            let e = continued(l, false, false, now)[i];
            &&& e.session == chosen(l.sessions, Pick::Limited)[i]
            &&& tells_of(e.note, "continue_"@ + decimal(now as nat), "accepted"@)
            &&& e.note.data.field("command"@) == Data::Text("prompt"@)
            &&& e.note.data.field("input"@).field("text"@) == Data::Text("keep working"@)
        }),
{
    session_words();
    keeping_words();
}

/// An account is changed exactly where the service goes on, storage is safe and its harness is free.
pub proof fn logins_wait_for_work(
    l: LocalView,
    stopping: bool,
    blocked: bool,
    work: Pick,
    message: Seq<char>,
)
    ensures
        login_refused(l, stopping, blocked, work, message) is None <==> !stopping && !blocked && !(
        exists|id: Seq<char>| #[trigger]
            l.sessions.contains_key(id) && super::pick::fits(l.sessions[id], work)),
{
}

/// Work starts with an account that is connected; without one it is refused, where the harness needs one.
pub proof fn work_needs_its_account(kind: Kind, account: Account, product: Seq<char>)
    ensures
        account is Unneeded ==> account_refused(kind, account, product) is None,
        account matches Account::State(state) ==> (state@ == "connected"@ ==> account_refused(
            kind,
            account,
            product,
        ) is None),
        account matches Account::State(state) ==> (state@ != "connected"@ && (kind == Kind::Codex || kind
            == Kind::Cursor) ==> account_refused(kind, account, product) is Some),
        account matches Account::Asked(Ok(true)) ==> account_refused(kind, account, product) is None,
        account matches Account::Asked(Ok(false)) ==> (kind == Kind::Claude ==> account_refused(
            kind,
            account,
            product,
        ) is Some),
        account matches Account::Asked(Err(_)) ==> (kind == Kind::Claude ==> account_refused(
            kind,
            account,
            product,
        ) is Some),
{
}

// What is shown.

/// A session is listed with its name, harness, model, state, folder, turn, queue and place.
pub proof fn sessions_are_listed_as_they_are(s: SessionView)
    requires
        s.queue.len() <= u64::MAX,
    ensures
        ({
            let e = list_entry(s);
            &&& e.field("session_id"@) == Data::Text(s.session_id)
            &&& e.field("harness"@) == Data::Text(kind_name(s.harness, s.word))
            &&& e.field("state"@) == Data::Text(s.state)
            &&& s.model is Some ==> e.field("model"@) == Data::Text(s.model->0)
            &&& s.provider is Some ==> e.field("provider"@) == Data::Text(s.provider->0)
            &&& s.workspace is Some ==> e.field("workspace"@).field("path"@) == Data::Text(
                s.workspace->0.path,
            ) && e.field("workspace"@).field("id"@) == Data::Text(s.workspace->0.id)
            &&& s.workspace is None ==> e.field("workspace"@) is Null
            &&& s.parent_session is Some ==> e.field("parent_session"@) == Data::Text(
                s.parent_session->0,
            )
            &&& s.current_request is Some ==> e.field("current_request"@) == Data::Text(
                s.current_request->0,
            )
            &&& s.current_request is None ==> e.field("current_request"@) is Null
            &&& e.field("queued"@) == Data::Number(Number::Unsigned(s.queue.len() as u64))
            &&& e.field("last_sequence"@) == Data::Number(Number::Unsigned(s.last_sequence))
            &&& s.last_activity is Some ==> e.field("last_activity_ms"@) == Data::Number(
                Number::Unsigned(s.last_activity->0),
            )
        }),
{
    keeping_words();
}

/// On the dashboard a session has its name, its harness, its model, its word and the time of its last use.
pub proof fn sessions_are_on_the_dashboard(s: SessionView, repository: Seq<char>, product: Seq<char>)
    ensures
        ({
            let e = dashboard_entry(s, repository, product);
            &&& e.field("id"@) == Data::Text(s.session_id)
            &&& e.field("harness"@) == Data::Text(kind_name(s.harness, s.word))
            &&& e.field("state"@) == Data::Text(dashboard_word(s))
            &&& s.model is Some ==> e.field("model"@) == Data::Text(s.model->0)
            &&& dashboard_word(s) == "waiting"@ ==> e.field("activity"@) == Data::Text("waiting"@)
            &&& dashboard_word(s) != "waiting"@ ==> e.field("activity"@) == Data::Text("unknown"@)
            &&& s.harness == Kind::Codex ==> e.field("title"@) == Data::Text("Codex session"@)
            &&& s.harness == Kind::Pi ==> e.field("title"@) == Data::Text("Pi session"@)
            &&& s.harness == Kind::Cursor ==> e.field("title"@) == Data::Text("Cursor session"@)
            &&& s.harness == Kind::Fx ==> e.field("title"@) == Data::Text("Fx session"@)
            &&& s.harness == Kind::Claude ==> e.field("title"@) == Data::Text(product + " session"@)
            &&& s.last_activity is Some ==> e.field("lastActivity"@) == Data::Number(
                Number::Unsigned(s.last_activity->0),
            )
        }),
{
    keeping_words();
}

/// The dashboard tells whether work can be done: the service goes on, storage is safe and records can be
/// written.
pub proof fn the_dashboard_tells_readiness(l: LocalView, o: Overview)
    ensures
        ({
            let d = dashboard_data(l, o);
            &&& d.field("runtime"@).field("ready"@) == Data::Bool(
                !o.stopping && !o.blocked && l.journal.writable,
            )
            &&& d.field("runtime"@).field("commit"@) == Data::Text(o.commit@)
            &&& d.field("runtime"@).field("configured"@) == Data::Bool(o.configured)
            &&& d.field("storage"@) == o.storage@
            &&& d.field("agents"@) == counts_data(l.sessions)
            &&& d.field("sessions"@) == Data::Array(
                entries_shown(l.sessions, Some(o.repository@), o.product@),
            )
            &&& o.sampled_at is Some ==> d.field("sampledAt"@) == Data::Number(
                Number::Unsigned(o.sampled_at->0),
            )
        }),
{
    keeping_words();
}

/// Each session that is listed is shown, in the order of the list.
pub proof fn every_listed_session_is_shown(
    sessions: Map<Seq<char>, SessionView>,
    repository: Seq<char>,
    product: Seq<char>,
    i: int,
)
    requires
        0 <= i < listed(sessions).len(),
    ensures
        entries_shown(sessions, None, product).len() == listed(sessions).len(),
        entries_shown(sessions, None, product)[i].field("session_id"@) == Data::Text(
            sessions[listed(sessions)[i]].session_id,
        ),
        entries_shown(sessions, Some(repository), product)[i].field("id"@) == Data::Text(
            sessions[listed(sessions)[i]].session_id,
        ),
        listed(sessions).len() <= 1000,
{
    keeping_words();
}

/// Sessions are counted by the word that they are shown with: one more that is shown so counts one more.
pub proof fn sessions_are_counted_by_their_word(
    sessions: Map<Seq<char>, SessionView>,
    keys: Seq<Seq<char>>,
    last: Seq<char>,
    word: Seq<char>,
)
    ensures
        looking(sessions, Seq::empty(), word) == 0,
        dashboard_word(sessions[last]) == word ==> looking(sessions, keys.push(last), word) == looking(
            sessions,
            keys,
            word,
        ) + 1,
        dashboard_word(sessions[last]) != word ==> looking(sessions, keys.push(last), word) == looking(
            sessions,
            keys,
            word,
        ),
        counts_data(sessions).field("working"@) == Data::Number(
            Number::Unsigned(looking(sessions, in_order(sessions), "working"@) as u64),
        ),
        counts_data(sessions).field("queued"@) == Data::Number(
            Number::Unsigned(looking(sessions, in_order(sessions), "queued"@) as u64),
        ),
        counts_data(sessions).field("waiting"@) == Data::Number(
            Number::Unsigned(looking(sessions, in_order(sessions), "waiting"@) as u64),
        ),
        counts_data(sessions).field("sleeping"@) == Data::Number(
            Number::Unsigned(looking(sessions, in_order(sessions), "sleeping"@) as u64),
        ),
        counts_data(sessions).field("failed"@) == Data::Number(
            Number::Unsigned(looking(sessions, in_order(sessions), "failed"@) as u64),
        ),
{
    keeping_words();
    assert(keys.push(last).drop_last() =~= keys);
}

/// A level that is asked of a model is one that it has; of Pi and Fx it is one that they know.
pub proof fn levels_are_those_of_the_model(
    kind: Kind,
    model: ModelView,
    level: Seq<char>,
)
    ensures
        kind == Kind::Pi || kind == Kind::Fx ==> (level_refused(kind, seq![model], None, level) is None
            <==> pi_reasoning_level(level)),
        kind != Kind::Pi && kind != Kind::Fx ==> (level_refused(
            kind,
            seq![model],
            Some(model.model),
            level,
        ) is None <==> model.reasoning_levels.contains(level)),
        kind != Kind::Pi && kind != Kind::Fx ==> level_refused(kind, seq![model], None, level) is Some,
{
    reveal_with_fuel(super::teleport::model_named, 2);
    assert(seq![model][0] == model);
}

/// The fast tier is that of Codex; the default is everyone's; there is no other.
pub proof fn tiers_are_known(l: LocalView, id: Seq<char>, tier: Seq<char>)
    requires
        l.sessions.contains_key(id),
    ensures
        tier_refused(l, id, None) is None,
        tier_refused(l, id, Some(tier)) is None <==> tier == "default"@ || (tier == "fast"@
            && l.sessions[id].harness == Kind::Codex),
{
    keeping_words();
}

/// The level of a message to Cursor or Fx is that of the session.
pub proof fn fixed_levels_stay(
    l: LocalView,
    id: Seq<char>,
    level: Seq<char>,
    models: Seq<ModelView>,
    configured: Option<Seq<char>>,
)
    requires
        l.sessions.contains_key(id),
    ensures
        prompt_level_refused(l, id, None, models, configured) is None,
        (l.sessions[id].harness == Kind::Cursor || l.sessions[id].harness == Kind::Fx)
            && l.sessions[id].reasoning != Some(level) ==> prompt_level_refused(
            l,
            id,
            Some(level),
            models,
            configured,
        ) is Some,
        l.sessions[id].harness == Kind::Pi ==> (prompt_level_refused(
            l,
            id,
            Some(level),
            models,
            configured,
        ) is None <==> pi_reasoning_level(level)),
{
}

/// What a harness can do is told of it.
pub proof fn abilities_are_told(model: Seq<char>, word: Seq<char>)
    ensures
        ({
            let codex = harness_data(Kind::Codex, model, None, None, word);
            let pi = harness_data(Kind::Pi, model, None, None, word);
            let named = harness_data(Kind::Claude, model, None, None, word);
            &&& codex.field("id"@) == Data::Text(kind_name(Kind::Codex, word))
            &&& codex.field("model"@) == Data::Text(model)
            &&& codex.field("steer"@) == Data::Bool(true)
            &&& codex.field("service_tier"@) == Data::Bool(true)
            &&& codex.field("compact"@) == Data::Bool(true) && codex.field("rewind"@) == Data::Bool(true)
            &&& codex.field("skill_mentions"@) == Data::Bool(false)
            &&& pi.field("id"@) == Data::Text(kind_name(Kind::Pi, word))
            &&& pi.field("provider_selection"@) == Data::Bool(true)
            &&& pi.field("steer"@) == Data::Bool(true)
            &&& pi.field("service_tier"@) == Data::Bool(false)
            &&& pi.field("compact"@) == Data::Bool(true) && pi.field("rewind"@) == Data::Bool(true)
            &&& named.field("id"@) == Data::Text(kind_name(Kind::Claude, word))
            &&& named.field("steer"@) == Data::Bool(false)
            &&& named.field("service_tier"@) == Data::Bool(false)
            &&& named.field("skill_mentions"@) == Data::Bool(true)
        }),
{
    keeping_words();
}

} // verus!
