//! What holds of what the service is asked over the network, of its setup, of previews, of the paired machine
//! and of what is kept alike on it.
use crate::api::{
    error_code, error_status, error_words, key_refused, prompt_members, prompt_refused,
    request_name, rewind_asked, start_refused, stream_start, upload_refused, PromptView, Uploading,
};
use crate::config::{configured, profile, reached, strong, Variables};
use crate::failure::{conflicting, forbidden, missing, FailureView};
use crate::fault::FaultView;
use crate::hex::nibble;
use crate::json::{Data, Number};
use crate::mac::cli::{AskView};
use crate::mac::{
    awaited, job_data, kept_jobs, pair_number, reported, run_refused, sent, JobView, MacView,
    ReportView, RunView, WaitingView,
};
use crate::preview::account::{account_uid, authorized, opened};
use crate::preview::cli::Ask;
use crate::preview::listener::{proves, Owners};
use crate::preview::{
    connection, generation_of, pair_refused, port_refused, preview_data, report_refused,
    setup_sound, with_preview, PreviewView, SavedView, SetupView, StampedView,
};
use crate::session::{ErrorView, ReceiptView};
use crate::sync::{
    failed, operation_refused, overall, pairing, place, reply_refused, request_data, CheckInView,
    HomesView, Op, OperationView, SettingsView, SyncView, ToldView,
};
use crate::runtime::files::below;
use crate::runtime::Kind;
use crate::table::{in_order, is_order};
use crate::text::{blank, byte_len, decimal, number};
use crate::{mac, preview};
use vstd::prelude::*;

verus! {

proof fn service_words()
    ensures
        "1"@.len() == 1 && "1"@[0] == '1',
        "."@.len() == 1 && "."@[0] == '.',
        "~"@.len() == 1 && "~"@[0] == '~',
        "pi"@.len() == 2 && "pi"@[1] == 'i',
        "PI"@.len() == 2 && "PI"@[1] == 'I',
        "id"@.len() == 2 && "id"@[1] == 'd',
        "op"@.len() == 2 && "op"@[1] == 'p',
        "ok"@.len() == 2 && "ok"@[1] == 'k',
        "url"@.len() == 3 && "url"@[0] == 'u',
        "cwd"@.len() == 3 && "cwd"@[0] == 'c',
        "job"@.len() == 3 && "job"@[0] == 'j',
        "tag"@.len() == 3 && "tag"@[0] == 't',
        "run"@.len() == 3 && "run"@[0] == 'r',
        "text"@.len() == 4 && "text"@[2] == 'x' && "text"@[0] == 't',
        "name"@.len() == 4 && "name"@[2] == 'm' && "name"@[0] == 'n',
        "kind"@.len() == 4 && "kind"@[2] == 'n' && "kind"@[0] == 'k',
        "port"@.len() == 4 && "port"@[2] == 'r' && "port"@[0] == 'p',
        "host"@.len() == 4 && "host"@[2] == 's' && "host"@[0] == 'h',
        "user"@.len() == 4 && "user"@[2] == 'e' && "user"@[0] == 'u',
        "done"@.len() == 4 && "done"@[2] == 'n' && "done"@[0] == 'd',
        "code"@.len() == 4 && "code"@[2] == 'd' && "code"@[0] == 'c',
        "scan"@.len() == 4 && "scan"@[2] == 'a' && "scan"@[0] == 's',
        "read"@.len() == 4 && "read"@[2] == 'a' && "read"@[0] == 'r',
        "tree"@.len() == 4 && "tree"@[2] == 'e' && "tree"@[0] == 't',
        "root"@.len() == 4 && "root"@[2] == 'o' && "root"@[0] == 'r',
        "path"@.len() == 4 && "path"@[2] == 't' && "path"@[0] == 'p',
        "size"@.len() == 4 && "size"@[2] == 'z' && "size"@[0] == 's',
        "pull"@.len() == 4 && "pull"@[2] == 'l' && "pull"@[0] == 'p',
        "push"@.len() == 4 && "push"@[2] == 's' && "push"@[0] == 'p',
        "input"@.len() == 5 && "input"@[3] == 'u',
        "codex"@.len() == 5 && "codex"@[3] == 'e',
        "CODEX"@.len() == 5 && "CODEX"@[3] == 'E',
        "ready"@.len() == 5 && "ready"@[3] == 'd',
        "error"@.len() == 5 && "error"@[3] == 'o',
        "state"@.len() == 5 && "state"@[3] == 't',
        "stdin"@.len() == 5 && "stdin"@[3] == 'i',
        "apply"@.len() == 5 && "apply"@[3] == 'l',
        "cache"@.len() == 5 && "cache"@[3] == 'h',
        "entry"@.len() == 5 && "entry"@[3] == 'r',
        "close"@.len() == 5 && "close"@[3] == 's',
        "--cwd"@.len() == 5 && "--cwd"@[3] == 'w',
        "before"@.len() == 6 && "before"@[2] == 'f' && "before"@[3] == 'o',
        "attach"@.len() == 6 && "attach"@[2] == 't' && "attach"@[3] == 'a',
        "stdout"@.len() == 6 && "stdout"@[2] == 'd' && "stdout"@[3] == 'o',
        "stderr"@.len() == 6 && "stderr"@[2] == 'd' && "stderr"@[3] == 'e',
        "synced"@.len() == 6 && "synced"@[2] == 'n' && "synced"@[3] == 'c',
        "create"@.len() == 6 && "create"@[2] == 'e' && "create"@[3] == 'a',
        "skills"@.len() == 6 && "skills"@[2] == 'i' && "skills"@[3] == 'l',
        "status"@.len() == 6 && "status"@[2] == 'a' && "status"@[3] == 't',
        "result"@.len() == 6 && "result"@[2] == 's' && "result"@[3] == 'u',
        "--help"@.len() == 6 && "--help"@[2] == 'h' && "--help"@[3] == 'e',
        "content"@.len() == 7 && "content"@[0] == 'c' && "content"@[2] == 'n',
        "pending"@.len() == 7 && "pending"@[0] == 'p' && "pending"@[2] == 'n',
        "message"@.len() == 7 && "message"@[0] == 'm' && "message"@[2] == 's',
        "command"@.len() == 7 && "command"@[0] == 'c' && "command"@[2] == 'm',
        "running"@.len() == 7 && "running"@[0] == 'r' && "running"@[2] == 'n',
        "unknown"@.len() == 7 && "unknown"@[0] == 'u' && "unknown"@[2] == 'k',
        "offline"@.len() == 7 && "offline"@[0] == 'o' && "offline"@[2] == 'f',
        "syncing"@.len() == 7 && "syncing"@[0] == 's' && "syncing"@[2] == 'n',
        "--stdin"@.len() == 7 && "--stdin"@[0] == '-' && "--stdin"@[2] == 's',
        "host_key"@.len() == 8 && "host_key"@[0] == 'h',
        "conflict"@.len() == 8 && "conflict"@[0] == 'c',
        "filename"@.len() == 8 && "filename"@[0] == 'f',
        "expected"@.len() == 8 && "expected"@[0] == 'e',
        "--socket"@.len() == 8 && "--socket"@[0] == '-',
        "reasoning"@.len() == 9 && "reasoning"@[0] == 'r',
        "truncated"@.len() == 9 && "truncated"@[0] == 't',
        "skills-pi"@.len() == 9 && "skills-pi"@[0] == 's',
        "request_id"@.len() == 10 && "request_id"@[0] == 'r',
        "generation"@.len() == 10 && "generation"@[0] == 'g',
        "executable"@.len() == 10 && "executable"@[0] == 'e',
        "attachments"@.len() == 11 && "attachments"@[0] == 'a',
        "replacement"@.len() == 11 && "replacement"@[0] == 'r',
        "settings-pi"@.len() == 11 && "settings-pi"@[0] == 's',
        "service_tier"@.len() == 12 && "service_tier"@[1] == 'e',
        "last_turn_id"@.len() == 12 && "last_turn_id"@[1] == 'a',
        "skills-codex"@.len() == 12 && "skills-codex"@[1] == 'k',
        "rules-cursor"@.len() == 12 && "rules-cursor"@[1] == 'u',
        "invalid model"@.len() == 13 && "invalid model"@[7] == ' ',
        "invalid_model"@.len() == 13 && "invalid_model"@[7] == '_',
        "skills-shared"@.len() == 13 && "skills-shared"@[7] == 's',
        "skills-cursor"@.len() == 13 && "skills-cursor"@[7] == 'c',
        "settings-codex"@.len() == 14,
        "settings-cursor"@.len() == 15,
        "invalid provider"@.len() == 16,
        "invalid workspace"@.len() == 17 && "invalid workspace"@[0] == 'i',
        "session not found"@.len() == 17 && "session not found"@[0] == 's',
        "cloudroom-preview"@.len() == 17 && "cloudroom-preview"@[0] == 'c',
        "service is stopping"@.len() == 19,
        "invalid service tier"@.len() == 20,
        "session already exists"@.len() == 22,
        "invalid reasoning effort"@.len() == 24 && "invalid reasoning effort"@[0] == 'i',
        "attachment upload failed"@.len() == 24 && "attachment upload failed"@[0] == 'a',
        "agent setup is incomplete"@.len() == 25 && "agent setup is incomplete"@[0] == 'a',
        "harness is not configured"@.len() == 25 && "harness is not configured"@[0] == 'h',
        "model catalog unavailable"@.len() == 25 && "model catalog unavailable"@[0] == 'm',
        "file exceeds the 25 MiB limit"@.len() == 29 && "file exceeds the 25 MiB limit"@[0] == 'f',
        "workspace mapping unavailable"@.len() == 29 && "workspace mapping unavailable"@[0] == 'w',
        "provider selection requires Pi"@.len() == 30 && "provider selection requires Pi"@[0] == 'p',
        "Cloud folder permission denied"@.len() == 30 && "Cloud folder permission denied"@[0] == 'C',
        "image exceeds the 10 MiB limit"@.len() == 30 && "image exceeds the 10 MiB limit"@[0] == 'i',
        "saved session has no matching receipt"@.len() == 37,
        "request_id already has different content"@.len() == 40 && "request_id already has different content"@[0] == 'r',
        "storage unsafe; new execution is blocked"@.len() == 40 && "storage unsafe; new execution is blocked"@[0] == 's',
        "storage unavailable; retry with the same request_id"@.len() == 51,
{
    reveal_strlit("1");
    reveal_strlit(".");
    reveal_strlit("~");
    reveal_strlit("pi");
    reveal_strlit("PI");
    reveal_strlit("id");
    reveal_strlit("op");
    reveal_strlit("ok");
    reveal_strlit("url");
    reveal_strlit("cwd");
    reveal_strlit("job");
    reveal_strlit("tag");
    reveal_strlit("run");
    reveal_strlit("text");
    reveal_strlit("name");
    reveal_strlit("kind");
    reveal_strlit("port");
    reveal_strlit("host");
    reveal_strlit("user");
    reveal_strlit("done");
    reveal_strlit("code");
    reveal_strlit("scan");
    reveal_strlit("read");
    reveal_strlit("tree");
    reveal_strlit("root");
    reveal_strlit("path");
    reveal_strlit("size");
    reveal_strlit("pull");
    reveal_strlit("push");
    reveal_strlit("input");
    reveal_strlit("codex");
    reveal_strlit("CODEX");
    reveal_strlit("ready");
    reveal_strlit("error");
    reveal_strlit("state");
    reveal_strlit("stdin");
    reveal_strlit("apply");
    reveal_strlit("cache");
    reveal_strlit("entry");
    reveal_strlit("close");
    reveal_strlit("--cwd");
    reveal_strlit("before");
    reveal_strlit("attach");
    reveal_strlit("stdout");
    reveal_strlit("stderr");
    reveal_strlit("synced");
    reveal_strlit("create");
    reveal_strlit("skills");
    reveal_strlit("status");
    reveal_strlit("result");
    reveal_strlit("--help");
    reveal_strlit("content");
    reveal_strlit("pending");
    reveal_strlit("message");
    reveal_strlit("command");
    reveal_strlit("running");
    reveal_strlit("unknown");
    reveal_strlit("offline");
    reveal_strlit("syncing");
    reveal_strlit("--stdin");
    reveal_strlit("host_key");
    reveal_strlit("conflict");
    reveal_strlit("filename");
    reveal_strlit("expected");
    reveal_strlit("--socket");
    reveal_strlit("reasoning");
    reveal_strlit("truncated");
    reveal_strlit("skills-pi");
    reveal_strlit("request_id");
    reveal_strlit("generation");
    reveal_strlit("executable");
    reveal_strlit("attachments");
    reveal_strlit("replacement");
    reveal_strlit("settings-pi");
    reveal_strlit("service_tier");
    reveal_strlit("last_turn_id");
    reveal_strlit("skills-codex");
    reveal_strlit("rules-cursor");
    reveal_strlit("invalid model");
    reveal_strlit("invalid_model");
    reveal_strlit("skills-shared");
    reveal_strlit("skills-cursor");
    reveal_strlit("settings-codex");
    reveal_strlit("settings-cursor");
    reveal_strlit("invalid provider");
    reveal_strlit("invalid workspace");
    reveal_strlit("session not found");
    reveal_strlit("cloudroom-preview");
    reveal_strlit("service is stopping");
    reveal_strlit("invalid service tier");
    reveal_strlit("session already exists");
    reveal_strlit("invalid reasoning effort");
    reveal_strlit("attachment upload failed");
    reveal_strlit("agent setup is incomplete");
    reveal_strlit("harness is not configured");
    reveal_strlit("model catalog unavailable");
    reveal_strlit("file exceeds the 25 MiB limit");
    reveal_strlit("workspace mapping unavailable");
    reveal_strlit("provider selection requires Pi");
    reveal_strlit("Cloud folder permission denied");
    reveal_strlit("image exceeds the 10 MiB limit");
    reveal_strlit("saved session has no matching receipt");
    reveal_strlit("request_id already has different content");
    reveal_strlit("storage unsafe; new execution is blocked");
    reveal_strlit("storage unavailable; retry with the same request_id");
    assert("1"@.len() == 1 && "1"@[0] == '1');
    assert("."@.len() == 1 && "."@[0] == '.');
    assert("~"@.len() == 1 && "~"@[0] == '~');
    assert("pi"@.len() == 2 && "pi"@[1] == 'i');
    assert("PI"@.len() == 2 && "PI"@[1] == 'I');
    assert("id"@.len() == 2 && "id"@[1] == 'd');
    assert("op"@.len() == 2 && "op"@[1] == 'p');
    assert("ok"@.len() == 2 && "ok"@[1] == 'k');
    assert("url"@.len() == 3 && "url"@[0] == 'u');
    assert("cwd"@.len() == 3 && "cwd"@[0] == 'c');
    assert("job"@.len() == 3 && "job"@[0] == 'j');
    assert("tag"@.len() == 3 && "tag"@[0] == 't');
    assert("run"@.len() == 3 && "run"@[0] == 'r');
    assert("text"@.len() == 4 && "text"@[2] == 'x' && "text"@[0] == 't');
    assert("name"@.len() == 4 && "name"@[2] == 'm' && "name"@[0] == 'n');
    assert("kind"@.len() == 4 && "kind"@[2] == 'n' && "kind"@[0] == 'k');
    assert("port"@.len() == 4 && "port"@[2] == 'r' && "port"@[0] == 'p');
    assert("host"@.len() == 4 && "host"@[2] == 's' && "host"@[0] == 'h');
    assert("user"@.len() == 4 && "user"@[2] == 'e' && "user"@[0] == 'u');
    assert("done"@.len() == 4 && "done"@[2] == 'n' && "done"@[0] == 'd');
    assert("code"@.len() == 4 && "code"@[2] == 'd' && "code"@[0] == 'c');
    assert("scan"@.len() == 4 && "scan"@[2] == 'a' && "scan"@[0] == 's');
    assert("read"@.len() == 4 && "read"@[2] == 'a' && "read"@[0] == 'r');
    assert("tree"@.len() == 4 && "tree"@[2] == 'e' && "tree"@[0] == 't');
    assert("root"@.len() == 4 && "root"@[2] == 'o' && "root"@[0] == 'r');
    assert("path"@.len() == 4 && "path"@[2] == 't' && "path"@[0] == 'p');
    assert("size"@.len() == 4 && "size"@[2] == 'z' && "size"@[0] == 's');
    assert("pull"@.len() == 4 && "pull"@[2] == 'l' && "pull"@[0] == 'p');
    assert("push"@.len() == 4 && "push"@[2] == 's' && "push"@[0] == 'p');
    assert("input"@.len() == 5 && "input"@[3] == 'u');
    assert("codex"@.len() == 5 && "codex"@[3] == 'e');
    assert("CODEX"@.len() == 5 && "CODEX"@[3] == 'E');
    assert("ready"@.len() == 5 && "ready"@[3] == 'd');
    assert("error"@.len() == 5 && "error"@[3] == 'o');
    assert("state"@.len() == 5 && "state"@[3] == 't');
    assert("stdin"@.len() == 5 && "stdin"@[3] == 'i');
    assert("apply"@.len() == 5 && "apply"@[3] == 'l');
    assert("cache"@.len() == 5 && "cache"@[3] == 'h');
    assert("entry"@.len() == 5 && "entry"@[3] == 'r');
    assert("close"@.len() == 5 && "close"@[3] == 's');
    assert("--cwd"@.len() == 5 && "--cwd"@[3] == 'w');
    assert("before"@.len() == 6 && "before"@[2] == 'f' && "before"@[3] == 'o');
    assert("attach"@.len() == 6 && "attach"@[2] == 't' && "attach"@[3] == 'a');
    assert("stdout"@.len() == 6 && "stdout"@[2] == 'd' && "stdout"@[3] == 'o');
    assert("stderr"@.len() == 6 && "stderr"@[2] == 'd' && "stderr"@[3] == 'e');
    assert("synced"@.len() == 6 && "synced"@[2] == 'n' && "synced"@[3] == 'c');
    assert("create"@.len() == 6 && "create"@[2] == 'e' && "create"@[3] == 'a');
    assert("skills"@.len() == 6 && "skills"@[2] == 'i' && "skills"@[3] == 'l');
    assert("status"@.len() == 6 && "status"@[2] == 'a' && "status"@[3] == 't');
    assert("result"@.len() == 6 && "result"@[2] == 's' && "result"@[3] == 'u');
    assert("--help"@.len() == 6 && "--help"@[2] == 'h' && "--help"@[3] == 'e');
    assert("content"@.len() == 7 && "content"@[0] == 'c' && "content"@[2] == 'n');
    assert("pending"@.len() == 7 && "pending"@[0] == 'p' && "pending"@[2] == 'n');
    assert("message"@.len() == 7 && "message"@[0] == 'm' && "message"@[2] == 's');
    assert("command"@.len() == 7 && "command"@[0] == 'c' && "command"@[2] == 'm');
    assert("running"@.len() == 7 && "running"@[0] == 'r' && "running"@[2] == 'n');
    assert("unknown"@.len() == 7 && "unknown"@[0] == 'u' && "unknown"@[2] == 'k');
    assert("offline"@.len() == 7 && "offline"@[0] == 'o' && "offline"@[2] == 'f');
    assert("syncing"@.len() == 7 && "syncing"@[0] == 's' && "syncing"@[2] == 'n');
    assert("--stdin"@.len() == 7 && "--stdin"@[0] == '-' && "--stdin"@[2] == 's');
    assert("host_key"@.len() == 8 && "host_key"@[0] == 'h');
    assert("conflict"@.len() == 8 && "conflict"@[0] == 'c');
    assert("filename"@.len() == 8 && "filename"@[0] == 'f');
    assert("expected"@.len() == 8 && "expected"@[0] == 'e');
    assert("--socket"@.len() == 8 && "--socket"@[0] == '-');
    assert("reasoning"@.len() == 9 && "reasoning"@[0] == 'r');
    assert("truncated"@.len() == 9 && "truncated"@[0] == 't');
    assert("skills-pi"@.len() == 9 && "skills-pi"@[0] == 's');
    assert("request_id"@.len() == 10 && "request_id"@[0] == 'r');
    assert("generation"@.len() == 10 && "generation"@[0] == 'g');
    assert("executable"@.len() == 10 && "executable"@[0] == 'e');
    assert("attachments"@.len() == 11 && "attachments"@[0] == 'a');
    assert("replacement"@.len() == 11 && "replacement"@[0] == 'r');
    assert("settings-pi"@.len() == 11 && "settings-pi"@[0] == 's');
    assert("service_tier"@.len() == 12 && "service_tier"@[1] == 'e');
    assert("last_turn_id"@.len() == 12 && "last_turn_id"@[1] == 'a');
    assert("skills-codex"@.len() == 12 && "skills-codex"@[1] == 'k');
    assert("rules-cursor"@.len() == 12 && "rules-cursor"@[1] == 'u');
    assert("invalid model"@.len() == 13 && "invalid model"@[7] == ' ');
    assert("invalid_model"@.len() == 13 && "invalid_model"@[7] == '_');
    assert("skills-shared"@.len() == 13 && "skills-shared"@[7] == 's');
    assert("skills-cursor"@.len() == 13 && "skills-cursor"@[7] == 'c');
    assert("settings-codex"@.len() == 14);
    assert("settings-cursor"@.len() == 15);
    assert("invalid provider"@.len() == 16);
    assert("invalid workspace"@.len() == 17 && "invalid workspace"@[0] == 'i');
    assert("session not found"@.len() == 17 && "session not found"@[0] == 's');
    assert("cloudroom-preview"@.len() == 17 && "cloudroom-preview"@[0] == 'c');
    assert("service is stopping"@.len() == 19);
    assert("invalid service tier"@.len() == 20);
    assert("session already exists"@.len() == 22);
    assert("invalid reasoning effort"@.len() == 24 && "invalid reasoning effort"@[0] == 'i');
    assert("attachment upload failed"@.len() == 24 && "attachment upload failed"@[0] == 'a');
    assert("agent setup is incomplete"@.len() == 25 && "agent setup is incomplete"@[0] == 'a');
    assert("harness is not configured"@.len() == 25 && "harness is not configured"@[0] == 'h');
    assert("model catalog unavailable"@.len() == 25 && "model catalog unavailable"@[0] == 'm');
    assert("file exceeds the 25 MiB limit"@.len() == 29 && "file exceeds the 25 MiB limit"@[0] == 'f');
    assert("workspace mapping unavailable"@.len() == 29 && "workspace mapping unavailable"@[0] == 'w');
    assert("provider selection requires Pi"@.len() == 30 && "provider selection requires Pi"@[0] == 'p');
    assert("Cloud folder permission denied"@.len() == 30 && "Cloud folder permission denied"@[0] == 'C');
    assert("image exceeds the 10 MiB limit"@.len() == 30 && "image exceeds the 10 MiB limit"@[0] == 'i');
    assert("saved session has no matching receipt"@.len() == 37);
    assert("request_id already has different content"@.len() == 40 && "request_id already has different content"@[0] == 'r');
    assert("storage unsafe; new execution is blocked"@.len() == 40 && "storage unsafe; new execution is blocked"@[0] == 's');
    assert("storage unavailable; retry with the same request_id"@.len() == 51);
}
// Requests.

/// A message that is asked for holds its text, and its parts, attachments, level and tier where it has them.
pub proof fn messages_hold_what_was_written(p: PromptView)
    ensures
        ({
            let input = Data::Object(prompt_members(p));
            &&& input.field("text"@) == Data::Text(p.text)
            &&& p.content is Some ==> input.field("content"@) == p.content->0
            &&& p.content is None ==> input.get("content"@) is None
            &&& p.attachments is Some ==> input.field("attachments"@) == p.attachments->0
            &&& p.attachments is None ==> input.get("attachments"@) is None
            &&& p.reasoning is Some ==> input.field("reasoning"@) == Data::Text(p.reasoning->0)
            &&& p.reasoning is None ==> input.get("reasoning"@) is None
            &&& p.service_tier is Some ==> input.field("service_tier"@) == Data::Text(p.service_tier->0)
            &&& p.service_tier is None ==> input.get("service_tier"@) is None
        }),
{
    service_words();
}

/// A message is refused where it says nothing and brings nothing, or is too long.
pub proof fn messages_say_something(p: PromptView)
    ensures
        byte_len(p.text) > 32768 ==> prompt_refused(p) is Some,
        blank(p.text) && p.attachments is None ==> prompt_refused(p) is Some,
        !blank(p.text) && byte_len(p.text) <= 32768 ==> prompt_refused(p) is None,
        p.attachments matches Some(Data::Array(files)) ==> (files.len() > 0 && byte_len(p.text) <= 32768
            ==> prompt_refused(p) is None),
{
}

/// A rewind that is asked for names its place, and brings the message that takes the place of the old one.
pub proof fn rewinds_hold_what_was_asked(
    request: Seq<char>,
    before: Option<Seq<char>>,
    last_turn: Option<Seq<char>>,
    p: PromptView,
)
    requires
        request_name(request),
    ensures
        rewind_asked(request, before, last_turn, None) matches Ok(input) && (before is Some
            ==> input.field("before"@) == Data::Text(before->0)) && (before is None ==> input.get(
            "before"@,
        ) is None) && (last_turn is Some ==> input.field("last_turn_id"@) == Data::Text(last_turn->0))
            && input.get("replacement"@) is None,
        request_name(p.request_id) && !blank(p.text) && byte_len(p.text) <= 32768 ==> (rewind_asked(
            request,
            before,
            last_turn,
            Some(p),
        ) matches Ok(input) && input.field("replacement"@).field("request_id"@) == Data::Text(
            p.request_id,
        ) && input.field("replacement"@).field("input"@).field("text"@) == Data::Text(p.text)),
        !request_name(p.request_id) ==> rewind_asked(request, before, last_turn, Some(p)) is Err,
        byte_len(p.text) > 32768 ==> rewind_asked(request, before, last_turn, Some(p)) is Err,
{
    service_words();
}

/// A request has a name that is short and plain.
pub proof fn requests_have_names(value: Seq<char>)
    ensures
        value.len() == 0 ==> !request_name(value),
        byte_len(value) > 64 ==> !request_name(value),
        key_refused(value) is None <==> request_name(value),
{
}

/// A stream begins after the number that the reader has seen last, else after the one that is asked for.
pub proof fn streams_begin_where_they_ended(text: Seq<char>, after: u64)
    ensures
        after <= i64::MAX ==> stream_start(None, after) == Ok::<u64, ErrorView>(after),
        after > i64::MAX ==> stream_start(None, after) is Err,
        stream_start(Some(None), after) is Err,
        number(text, u64::MAX as nat) is None ==> stream_start(Some(Some(text)), after) is Err,
        number(text, u64::MAX as nat) matches Some(n) ==> (n <= i64::MAX ==> stream_start(
            Some(Some(text)),
            after,
        ) == Ok::<u64, ErrorView>(n as u64)),
{
}

/// A start that is asked for over the network has a plain name, and a provider, model and level that can be
/// ones.
pub proof fn starts_are_checked(
    request: Seq<char>,
    provider: Option<Seq<char>>,
    model: Option<Seq<char>>,
    reasoning: Option<Seq<char>>,
)
    ensures
        !request_name(request) ==> start_refused(request, provider, model, reasoning) is Some,
        request_name(request) ==> start_refused(request, None, None, None) is None,
        provider is Some && provider->0.len() == 0 ==> start_refused(
            request,
            provider,
            model,
            reasoning,
        ) is Some,
        provider is Some && provider->0.contains('/') ==> start_refused(
            request,
            provider,
            model,
            reasoning,
        ) is Some,
        model is Some && (model->0.len() == 0 || byte_len(model->0) > 256) ==> start_refused(
            request,
            provider,
            model,
            reasoning,
        ) is Some,
        reasoning is Some && reasoning->0.len() == 0 ==> start_refused(
            request,
            provider,
            model,
            reasoning,
        ) is Some,
{
    if provider is Some && provider->0.contains('/') {
        let name = provider->0;
        let i = choose|i: int| 0 <= i < name.len() && name[i] == '/';
        assert(name[i] == '/');
        assert(crate::api::odd_provider(name));
    }
}

/// A file is taken for a session that works in a known folder, while it can be recorded and storage is safe; a
/// request that came with another file is refused.
pub proof fn uploads_are_taken_where_they_fit(
    request: Seq<char>,
    receipt: ReceiptView,
    name: Seq<char>,
    kind: Seq<char>,
    u: Uploading,
)
    requires
        request_name(request),
    ensures
        upload_refused(request, None, name, kind, u) is None <==> u.placed && u.mapped && u.recording
            && !u.stopping && !u.blocked,
        receipt.command != "attach"@ || receipt.input.field("name"@) != Data::Text(name)
            || receipt.input.field("kind"@) != Data::Text(kind) ==> upload_refused(
            request,
            Some(receipt),
            name,
            kind,
            u,
        ) is Some,
        receipt.command == "attach"@ && receipt.input.field("name"@) == Data::Text(name)
            && receipt.input.field("kind"@) == Data::Text(kind) ==> upload_refused(
            request,
            Some(receipt),
            name,
            kind,
            u,
        ) == upload_refused(request, None, name, kind, u),
{
}

/// What went wrong is told by its number: not there, refused, or to be tried again; and by a word.
pub proof fn errors_have_their_number(message: Seq<char>)
    ensures
        error_status(ErrorView::NotFound) == 404,
        error_status(ErrorView::Conflict(message)) == 409,
        error_status(ErrorView::Storage(message)) == 503,
        error_words(ErrorView::Conflict(message)) == message,
        error_words(ErrorView::Storage(message))
            == "storage unavailable; retry with the same request_id"@,
        error_code("invalid model"@) == "invalid_model"@,
        error_code("invalid provider"@) == "invalid_provider"@,
        error_code("invalid reasoning effort"@) == "invalid_reasoning_effort"@,
        error_code("invalid service tier"@) == "invalid_service_tier"@,
        error_code("request_id already has different content"@) == "request_conflict"@,
        error_code("session already exists"@) == "request_conflict"@,
        error_code("agent setup is incomplete"@) == "harness_not_configured"@,
        error_code("invalid workspace"@) == "invalid_workspace"@,
        error_code("storage unsafe; new execution is blocked"@) == "storage_blocked"@,
        error_code("service is stopping"@) == "service_stopping"@,
        conflicting(message).status == 409,
        missing(message).status == 404,
        forbidden(message).status == 403,
{
    service_words();
}

// Setup.

/// The service is reached with a strong token: behind its policy, or for tests on its own machine.
pub proof fn services_are_protected(env: Variables, local: bool)
    ensures
        reached(env, Some(local)) matches Ok(a) ==> strong(a.token) && env.contains_key(
            "CLOUDROOM_TOKEN"@,
        ) && a.token == env["CLOUDROOM_TOKEN"@] && (a.policy is None ==> local) && (a.policy is Some
            ==> env.contains_key("CLOUDROOM_STORAGE_POLICY"@) && a.policy->0
            == env["CLOUDROOM_STORAGE_POLICY"@]),
        reached(env, None) is Err,
        !env.contains_key("CLOUDROOM_TOKEN"@) ==> reached(env, Some(local)) is Err,
{
}

/// The setup of a harness is that of its own variables, and the common model where it has none of its own.
pub proof fn harnesses_are_set_up(env: Variables, prefix: Seq<char>)
    ensures
        !env.contains_key("CLOUDROOM_"@ + prefix + "_BINARY"@) ==> (profile(env, prefix, false) matches
            Ok(None)),
        profile(env, prefix, false) matches Ok(Some(h)) ==> h.binary == env["CLOUDROOM_"@ + prefix
            + "_BINARY"@] && h.home == env["CLOUDROOM_"@ + prefix + "_HOME"@] && h.provider is None,
        profile(env, prefix, true) matches Ok(Some(h)) ==> h.provider == Some(
            env["CLOUDROOM_PI_PROVIDER"@],
        ),
        profile(env, prefix, false) matches Ok(Some(h)) ==> (env.contains_key("CLOUDROOM_"@ + prefix
            + "_MODEL"@) && env["CLOUDROOM_"@ + prefix + "_MODEL"@].len() > 0 ==> h.model
            == env["CLOUDROOM_"@ + prefix + "_MODEL"@]),
        profile(env, prefix, false) matches Ok(Some(h)) ==> (!env.contains_key("CLOUDROOM_"@ + prefix
            + "_MODEL"@) ==> h.model == env["CLOUDROOM_MODEL"@]),
{
}

/// The service keeps what its variables say.
pub proof fn services_are_set_up(env: Variables)
    ensures
        configured(env) matches Ok(c) ==> c.state_dir == env["CLOUDROOM_STATE_DIR"@] && c.database_url
            == env["CLOUDROOM_DATABASE_URL"@] && c.store == env["CLOUDROOM_STORE"@] && c.account_home
            == env["CLOUDROOM_ACCOUNT_HOME"@],
        configured(env) matches Ok(c) ==> (env.contains_key("CLOUDROOM_REPOSITORY"@) ==> c.repository
            == env["CLOUDROOM_REPOSITORY"@]),
        configured(env) matches Ok(c) ==> (!env.contains_key("CLOUDROOM_REPOSITORY"@) ==> c.repository
            == c.account_home),
        configured(env) matches Ok(c) ==> (c.allow_insecure_database <==> env.contains_key(
            "CLOUDROOM_ALLOW_INSECURE_DATABASE"@,
        ) && env["CLOUDROOM_ALLOW_INSECURE_DATABASE"@] == "1"@),
        configured(env) matches Ok(c) ==> (!env.contains_key("CLOUDROOM_HARNESS"@) ==> c.default_harness
            == Kind::Codex),
        configured(env) matches Ok(c) ==> (env.contains_key("CLOUDROOM_HARNESS"@)
            && env["CLOUDROOM_HARNESS"@] == "pi"@ ==> c.default_harness == Kind::Pi),
        configured(env) matches Ok(c) ==> (env.contains_key("CLOUDROOM_MAX_HARNESSES"@) ==> number(
            env["CLOUDROOM_MAX_HARNESSES"@],
            usize::MAX as nat,
        ) == Some(c.max_harnesses)),
{
    service_words();
}

// Previews.

/// A port that is registered keeps its first registration; one that is closed is not registered.
pub proof fn ports_keep_their_registration(
    list: Seq<PreviewView>,
    port: u16,
    first: Seq<char>,
    second: Seq<char>,
)
    requires
        preview::by_port(list),
        !preview::registered(list, port),
    ensures
        ({
            let once = with_preview(list, port, first);
            &&& once.len() == list.len() + 1
            &&& once.contains(PreviewView { port, generation: first })
            &&& with_preview(once, port, second) == once
        }),
{
    preview::registering_keeps_order(list, port, first);
    let at = preview::before_port(list, port);
    place_in_list(list, port);
    let once = with_preview(list, port, first);
    assert(once[at] == (PreviewView { port, generation: first }));
}

proof fn place_in_list(list: Seq<PreviewView>, port: u16)
    ensures
        0 <= preview::before_port(list, port) <= list.len(),
    decreases list.len(),
{
    if list.len() > 0 && list.last().port >= port {
        place_in_list(list.drop_last(), port);
    }
}

/// Only ports of applications that the agent serves are previewed.
pub proof fn ports_are_checked(port: u16, core: u16, ssh: u16, listens: bool)
    ensures
        port_refused(port, core, ssh, listens) is None <==> port >= 1024 && port != core && port != ssh
            && listens,
{
}

/// One machine is paired, with one key, where the service can be reached.
pub proof fn machines_are_paired_once(
    devices: Map<Seq<char>, Seq<char>>,
    device: Seq<char>,
    key: Seq<char>,
    host: Seq<char>,
)
    requires
        preview::device_name(device),
        preview::public_key(key),
    ensures
        pair_refused(devices, device, key, None) is Some,
        devices.contains_key(device) ==> (pair_refused(devices, device, key, Some(host)) is None
            <==> devices[device] == key),
        !devices.contains_key(device) && in_order(devices).len() > 0 ==> pair_refused(
            devices,
            device,
            key,
            Some(host),
        ) is Some,
        !devices.contains_key(device) && in_order(devices).len() == 0 ==> pair_refused(
            devices,
            device,
            key,
            Some(host),
        ) is None,
{
}

/// A report is taken from the paired machine, on the registration that stands, and says one thing.
pub proof fn reports_are_checked(saved: SavedView, r: preview::ReportView)
    requires
        report_refused(saved, r) is None,
    ensures
        saved.devices.contains_key(r.device),
        generation_of(saved.previews, r.port) == Some(r.generation),
        r.local_port is None || r.error is None,
        r.local_port != Some(0u16),
{
}

/// A preview is ready where a machine has opened it, is an error where one failed, and waits else; what it is
/// called does not change that.
pub proof fn previews_are_shown_as_they_are(
    port: u16,
    generation: Seq<char>,
    now: u64,
    name: Seq<char>,
    s: StampedView,
)
    requires
        is_order(in_order(map![name => s]), map![name => s]),
    ensures
        ({
            let d = preview_data(map![name => s], port, generation, now);
            let fresh = s.report.port == port && s.report.generation == generation && now <= s.at + 15;
            &&& d.field("port"@) == Data::Number(Number::Unsigned(port as u64))
            &&& d.field("generation"@) == Data::Text(generation)
            &&& fresh && s.report.local_port is Some ==> d.field("state"@) == Data::Text("ready"@)
                && d.field("url"@) is Text
            &&& fresh && s.report.local_port is None && s.report.error is Some ==> d.field("state"@)
                == Data::Text("error"@) && d.field("message"@) == Data::Text(s.report.error->0)
                && d.field("url"@) is Null
            &&& !fresh ==> d.field("state"@) == Data::Text("pending"@) && d.field("url"@) is Null
        }),
{
    service_words();
    let reports = map![name => s];
    let keys = in_order(reports);
    assert(reports.contains_key(name));
    assert(keys.contains(name));
    assert(keys =~= seq![name]) by {
        assert forall|i: int| 0 <= i < keys.len() implies keys[i] == name by {
            assert(reports.contains_key(keys[i]));
        }
        if keys.len() > 1 {
            assert(crate::table::before(keys[0], keys[1]));
            crate::table::before_irreflexive(name);
        }
    }
    assert(seq![name].drop_last() =~= Seq::<Seq<char>>::empty());
    reveal_with_fuel(preview::first_ready, 3);
    reveal_with_fuel(preview::first_error, 3);
}

/// The connection of a preview is that of its setup.
pub proof fn connections_are_told(setup: SetupView, key: Seq<char>)
    ensures
        setup.host is Some ==> connection(setup, key).field("host"@) == Data::Text(setup.host->0),
        connection(setup, key).field("port"@) == Data::Number(Number::Unsigned(setup.port as u64)),
        connection(setup, key).field("user"@) == Data::Text("cloudroom-preview"@),
        connection(setup, key).field("host_key"@) == Data::Text(key),
        setup_sound(setup, None) ==> setup.port != 0,
{
    service_words();
}

/// Where nothing is served, no key is let in; a key may only reach the ports that are.
pub proof fn keys_reach_what_is_served(saved: SavedView, port: u16, key: Seq<char>)
    ensures
        saved.previews.len() == 0 ==> authorized(saved, Seq::empty()).len() == 0,
        opened(port) == "permitopen=\"127.0.0.1:"@ + decimal(port as nat) + "\""@,
{
}

/// The account of previews is neither the root's, nor the agent's, nor the service's.
pub proof fn preview_accounts_are_apart(accounts: Seq<char>, agent: u32, service: u32)
    ensures
        account_uid(accounts, agent, service) matches Ok(uid) ==> uid != 0 && uid != agent && uid
            != service,
{
}

/// A listener is the agent's where every owner of its address is; the exact address counts before any, and that
/// before any of the new kind.
pub proof fn listeners_are_the_agents(uid: u32, other: u32)
    requires
        uid != other,
    ensures
        proves(Owners { exact: seq![uid as nat], any: seq![other as nat], any6: Seq::empty() }, uid),
        !proves(Owners { exact: seq![other as nat], any: seq![uid as nat], any6: Seq::empty() }, uid),
        proves(Owners { exact: Seq::empty(), any: seq![uid as nat], any6: seq![other as nat] }, uid),
        proves(Owners { exact: Seq::empty(), any: Seq::empty(), any6: seq![uid as nat] }, uid),
        !proves(Owners { exact: Seq::empty(), any: Seq::empty(), any6: Seq::empty() }, uid),
        !proves(
            Owners { exact: seq![uid as nat, other as nat], any: Seq::empty(), any6: Seq::empty() },
            uid,
        ),
{
    assert(seq![other as nat][0] == other as nat);
    assert(seq![uid as nat, other as nat][1] == other as nat);
}

/// What is asked of previews on the command line: one is opened, shown, all are shown, one is closed.
pub proof fn preview_commands_are_read(number_text: Seq<char>, port: u16)
    requires
        number(number_text, u16::MAX as nat) == Some(port as nat),
        number_text != "--help"@ && number_text != "status"@ && number_text != "close"@,
    ensures
        preview::cli::asked(seq![number_text], 0) == Ok::<Ask, FaultView>(Ask::Open { port }),
        preview::cli::asked(seq!["status"@, number_text], 0) == Ok::<Ask, FaultView>(
            Ask::Status { only: Some(port) },
        ),
        preview::cli::asked(seq!["status"@], 0) == Ok::<Ask, FaultView>(Ask::Status { only: None }),
        preview::cli::asked(seq!["close"@, number_text], 0) == Ok::<Ask, FaultView>(
            Ask::Close { port },
        ),
        preview::cli::asked(seq!["close"@], 0) is Err,
        preview::cli::asked(Seq::empty(), 0) == Ok::<Ask, FaultView>(Ask::Help),
{
    service_words();
}

// The paired machine.

/// A command that is sent is known by its name, for the machine that is there, and has not ended; what is
/// remembered of others stays.
pub proof fn commands_are_sent(m: MacView, process: u32, now: u64, other: Seq<char>)
    requires
        m.helper is Some,
        m.next < u64::MAX,
    ensures
        ({
            let after = sent(m, process, now);
            let id = decimal(process as nat) + "-"@ + decimal(m.next as nat);
            &&& after.jobs.contains_key(id)
            &&& after.jobs[id] == (JobView {
                device: m.helper->0.device,
                acked: false,
                result: None,
                at: now,
            })
            &&& after.next == m.next + 1
            &&& after.helper == m.helper
            &&& other != id && m.jobs.contains_key(other) && m.jobs[other].at == now
                ==> after.jobs.contains_key(other) && after.jobs[other] == m.jobs[other]
        }),
{
}

/// What is sent is the command, its input and its folder.
pub proof fn commands_are_sent_whole(id: Seq<char>, run: RunView)
    ensures
        job_data(id, run).field("id"@) == Data::Text(id),
        job_data(id, run).field("command"@) == Data::Text(run.command),
        job_data(id, run).field("stdin"@) == Data::Text(run.stdin),
        run.cwd is Some ==> job_data(id, run).field("cwd"@) == Data::Text(run.cwd->0),
        run.cwd is None ==> job_data(id, run).field("cwd"@) is Null,
{
    service_words();
}

/// A command is remembered for an hour after it has ended, and for a day while it runs.
pub proof fn commands_are_remembered(jobs: Map<Seq<char>, JobView>, id: Seq<char>, now: u64)
    requires
        jobs.contains_key(id),
    ensures
        jobs[id].result is Some ==> (kept_jobs(jobs, now).contains_key(id) <==> now < jobs[id].at
            + 3600000),
        jobs[id].result is None ==> (kept_jobs(jobs, now).contains_key(id) <==> now < jobs[id].at
            + 86400000),
        kept_jobs(jobs, now).contains_key(id) ==> kept_jobs(jobs, now)[id] == jobs[id],
{
}

/// What the machine reports is kept: that the command runs, and what it came to.
pub proof fn reports_of_commands_are_kept(m: MacView, id: Seq<char>, report: ReportView, now: u64)
    requires
        m.jobs.contains_key(id),
        m.jobs[id].device == report.device,
    ensures
        report.state == "running"@ ==> (reported(m, id, report, now) matches Ok(after)
            && after.jobs[id].acked && after.jobs[id].result == m.jobs[id].result),
        report.state == "done"@ && reported(m, id, report, now) is Ok ==> ({
            let after = reported(m, id, report, now)->Ok_0;
            let result = after.jobs[id].result;
            &&& after.jobs[id].at == now && after.jobs[id].acked && result is Some
            &&& result->0.field("state"@) == Data::Text("done"@)
            &&& result->0.field("stdout"@) == Data::Text(report.stdout)
            &&& result->0.field("stderr"@) == Data::Text(report.stderr)
            &&& result->0.field("truncated"@) == Data::Bool(report.truncated)
        }),
        report.state != "running"@ && report.state != "done"@ ==> reported(m, id, report, now) is Err,
{
    service_words();
}

/// A command is waited for until it has ended; one that the machine never took is forgotten, and one that was
/// lost with the machine may still end.
pub proof fn commands_are_waited_for(m: MacView, id: Seq<char>, generation: u64, waited: u64)
    requires
        m.jobs.contains_key(id),
        m.jobs[id].result is None,
    ensures
        ({
            let here = m.helper is Some && m.helper->0.generation == generation;
            let (after, told) = awaited(m, id, generation, waited);
            &&& !m.jobs[id].acked && (!here || waited >= 10000) ==> told == WaitingView::Gone
                && !after.jobs.contains_key(id)
            &&& !m.jobs[id].acked && here && waited < 10000 ==> told == WaitingView::Still && after == m
            &&& m.jobs[id].acked && here ==> told == WaitingView::Still && after == m
            &&& m.jobs[id].acked && !here ==> (told matches WaitingView::Lost(data) && data.field("job"@)
                == Data::Text(id) && data.field("state"@) == Data::Text("unknown"@)) && after == m
        }),
{
    service_words();
}

/// A command is refused where it is none, its folder is none, or its input is too long or no digits.
pub proof fn commands_are_checked(run: RunView)
    ensures
        blank(run.command) || byte_len(run.command) > 65536 ==> run_refused(run) is Some,
        run.cwd is Some && run.cwd->0.len() == 0 ==> run_refused(run) is Some,
        byte_len(run.stdin) > 33554432 ==> run_refused(run) is Some,
        mac::unhexed(run.stdin) is None ==> run_refused(run) is Some,
        !blank(run.command) && byte_len(run.command) <= 65536 && !run.command.contains('\0') && run.cwd
            is None && run.stdin.len() == 0 && byte_len(run.stdin) == 0 ==> run_refused(run) is None,
{
}

/// Two digits are a byte, the first the higher one; each digit has its value.
pub proof fn digits_have_values(d: int)
    ensures
        0 <= d < 10 ==> nibble(d) as int == '0' as int + d,
        10 <= d < 16 ==> nibble(d) as int == 'a' as int + (d - 10),
        pair_number('0', '7') == Some(7nat),
        pair_number('a', 'F') == Some(175nat),
        pair_number('g', '0') is None,
{
}

/// What is asked of the machine on the command line.
pub proof fn machine_commands_are_read(word: Seq<char>, other: Seq<char>)
    requires
        word != "--cwd"@ && word != "--stdin"@,
    ensures
        mac::cli::asked(seq!["status"@], 0) == AskView::Status,
        mac::cli::asked(seq!["pull"@, word], 0) == (AskView::Pull { source: word, target: "."@ }),
        mac::cli::asked(seq!["pull"@, word, other], 0) == (AskView::Pull {
            source: word,
            target: other,
        }),
        mac::cli::asked(seq!["push"@, word], 0) == (AskView::Push { source: word, target: "~"@ }),
        mac::cli::asked(seq!["push"@, word, other], 0) == (AskView::Push {
            source: word,
            target: other,
        }),
        mac::cli::asked(Seq::empty(), 0) == (AskView::Usage { code: 0 }),
        mac::cli::asked(seq!["run"@], 0) == AskView::Misused,
        mac::cli::run_asked(seq!["--stdin"@, word], 0, None, false) matches AskView::Run {
            command,
            cwd,
            stdin,
        } && stdin && cwd is None,
        mac::cli::run_asked(seq!["--cwd"@, other, word], 0, None, false) matches AskView::Run {
            command,
            cwd,
            stdin,
        } && !stdin && cwd == Some(other),
{
    service_words();
    reveal_strlit("");
    reveal_with_fuel(mac::cli::run_asked, 3);
}

// What is kept alike.

/// The state of all is the worst of its parts: offline where one was not heard of for so long, then in
/// conflict, then not done.
pub proof fn the_worst_state_counts(told: Map<Seq<char>, ToldView>, now: u64, id: Seq<char>)
    requires
        told.contains_key(id),
        is_order(in_order(told), told),
    ensures
        now > told[id].at + 30 ==> overall(told, now) == "offline"@,
        told[id].state == "conflict"@ ==> overall(told, now) == "offline"@ || overall(told, now)
            == "conflict"@,
        told[id].state != "synced"@ ==> overall(told, now) != "synced"@,
        overall(Map::empty(), now) == "offline"@ || in_order(
            Map::<Seq<char>, ToldView>::empty(),
        ).len() > 0,
{
    service_words();
    assert(in_order(told).contains(id));
}

/// A machine that checks in first is paired; from then on there is no other.
pub proof fn machines_check_in(s: SettingsView, input: CheckInView)
    requires
        input.repositories.len() == 0,
    ensures
        s.device is None && s.revision < u64::MAX ==> (pairing(s, input, true, true) matches Ok(Some(next))
            && next.device == Some(input.device) && next.revision == s.revision + 1
            && next.initialized_roots == s.initialized_roots),
        s.device == Some(input.device) ==> pairing(s, input, true, true) == Ok::<
            Option<SettingsView>,
            FailureView,
        >(None),
        pairing(s, input, false, true) is Err,
        pairing(s, input, true, false) is Err,
{
}

/// A place is looked at, read or changed by the paired machine, where it is known.
pub proof fn places_are_for_the_paired_machine(
    s: SettingsView,
    input: OperationView,
    available: bool,
    known: bool,
)
    ensures
        operation_refused(s, input, available, known) is None <==> s.device == Some(input.device)
            && available && known,
        s.device != Some(input.device) ==> operation_refused(s, input, available, known) == Some(
            failed(409),
        ),
        failed(409).status == 409,
{
}

/// Each place lies where its harness keeps it: in the home that was set up, or in the account's.
pub proof fn places_lie_where_they_belong(h: HomesView, own: Seq<char>)
    ensures
        place("skills-shared"@, h) matches Some(p) && p.root == below(h.account, ".agents/skills"@)
            && p.kind == "skills"@ && p.filename is None,
        h.codex == Some(own) ==> (place("skills-codex"@, h) matches Some(p) && p.root == below(
            own,
            "skills"@,
        )),
        h.codex == Some(own) ==> (place("settings-codex"@, h) matches Some(p) && p.root == own && p.kind
            == "codex"@ && p.filename == Some("config.toml"@)),
        h.pi == Some(own) ==> (place("skills-pi"@, h) matches Some(p) && p.root == below(own, "skills"@)),
        h.codex is None ==> (place("skills-codex"@, h) matches Some(p) && p.root == below(
            below(h.account, ".codex"@),
            "skills"@,
        )),
{
    let shared = crate::runtime::product::skills_place(h.word);
    reveal_strlit("settings-codex");
    reveal_strlit("skills-");
    assert("settings-codex"@[1] == 'e');
    assert(shared[1] == 'k');
    service_words();
}

/// What is asked for a place: its folder, what is to be done, what is expected there, and whether it is made.
pub proof fn places_are_asked_for(
    s: SyncView,
    p: crate::sync::PlaceView,
    id: Seq<char>,
    input: OperationView,
)
    ensures
        ({
            let scan = request_data(s, p, id, input, Op::Scan);
            let read = request_data(s, p, id, input, Op::Read);
            let apply = request_data(s, p, id, input, Op::Apply);
            &&& scan.field("op"@) == Data::Text("scan"@) && read.field("op"@) == Data::Text("read"@)
                && apply.field("op"@) == Data::Text("apply"@)
            &&& scan.field("tree"@).field("root"@) == Data::Text(p.root)
            &&& scan.field("tree"@).field("create"@) == Data::Bool(
                !s.settings.initialized_roots.contains(id),
            )
            &&& read.field("tree"@).field("create"@) == Data::Bool(false)
            &&& input.path is Some ==> read.field("path"@) == Data::Text(input.path->0)
            &&& input.expected is Some ==> apply.field("expected"@) == Data::Text(input.expected->0)
            &&& s.scans.contains_key(id) ==> scan.field("cache"@) == s.scans[id]
            &&& input.kind is Some ==> apply.field("entry"@).field("kind"@) == Data::Text(input.kind->0)
            &&& input.kind is Some && input.incoming is Some ==> apply.field("entry"@).field("tag"@)
                == Data::Text(input.incoming->0)
            &&& input.kind is Some && input.size is Some ==> apply.field("entry"@).field("size"@)
                == Data::Number(Number::Unsigned(input.size->0))
            &&& input.kind is Some ==> apply.field("entry"@).field("executable"@) == Data::Bool(
                input.executable == Some(true),
            )
            &&& input.kind is None ==> apply.get("entry"@) is None
        }),
{
    service_words();
}

/// A reply is taken where it says that all is well; a conflict is told as one.
pub proof fn replies_are_judged(reply: Data)
    ensures
        reply.field("ok"@) == Data::Bool(true) <==> reply_refused(reply) is None,
        reply.field("ok"@) != Data::Bool(true) && reply.field("error"@) == Data::Text("conflict"@)
            ==> reply_refused(reply) == Some(failed(409)),
        reply.field("ok"@) != Data::Bool(true) && reply.field("error"@) != Data::Text("conflict"@)
            ==> reply_refused(reply) == Some(failed(503)),
{
}

} // verus!
