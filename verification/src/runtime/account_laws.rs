//! What holds of the accounts of the harnesses, of their logins and of what they are started with.
use super::auth::{
    account_call, account_state, credentials_in, exhausted, failed_state, limited_state, login_event, login_in, may_import,
    may_login, AccountCall, CodexAuthView, LoginView, StatusView,
};
use super::claude::{
    account_answer, catalog_models, content_refused, entry_levels, is_checkpoint, parent_from, prompt_content, prompt_level, session_arguments,
    supports,
};
use super::claude_auth::{recorded, ClaudeAuth, Reason};
use super::claude_login::{
    key_refused, key_step_after, step_for, token_refused, ClaudeLoginView, KeyStep, Saving,
};
use super::claude_version::{install_error, update_data, wanted_update, UpdateView};
use super::cursor_auth::{keyed, login_seen, output_state, wants_check, CursorAuthView};
use super::pi_auth::{key_login, login_entry, login_request};
use super::{auth, claude_login, cursor_auth};
use crate::fault::{FaultKind, FaultView};
use crate::json::{Data, Number};
use crate::text::byte_len;
use crate::wire::{bytes_read, written};
use super::{EventView, ModelView};
use vstd::prelude::*;

verus! {

proof fn account_words()
    ensures
        "id"@.len() == 2 && "id"@[0] == 'i',
        "op"@.len() == 2 && "op"@[0] == 'o',
        "key"@.len() == 3 && "key"@[0] == 'k',
        "env"@.len() == 3 && "env"@[0] == 'e',
        "type"@.len() == 4 && "type"@[0] == 't' && "type"@[1] == 'y',
        "tree"@.len() == 4 && "tree"@[0] == 't' && "tree"@[1] == 'r',
        "root"@.len() == 4 && "root"@[0] == 'r' && "root"@[1] == 'o',
        "kind"@.len() == 4 && "kind"@[0] == 'k' && "kind"@[1] == 'i',
        "auth"@.len() == 4 && "auth"@[0] == 'a' && "auth"@[1] == 'u',
        "none"@.len() == 4 && "none"@[0] == 'n' && "none"@[1] == 'o',
        "text"@.len() == 4 && "text"@[0] == 't' && "text"@[1] == 'e',
        "data"@.len() == 4 && "data"@[0] == 'd' && "data"@[1] == 'a',
        "path"@.len() == 4 && "path"@[0] == 'p' && "path"@[1] == 'a',
        "uuid"@.len() == 4 && "uuid"@[0] == 'u' && "uuid"@[1] == 'u',
        "user"@.len() == 4 && "user"@[0] == 'u' && "user"@[1] == 's',
        "error"@.len() == 5 && "error"@[3] == 'o' && "error"@[0] == 'e',
        "email"@.len() == 5 && "email"@[3] == 'i' && "email"@[0] == 'e',
        "token"@.len() == 5 && "token"@[3] == 'e' && "token"@[0] == 't',
        "state"@.len() == 5 && "state"@[3] == 't' && "state"@[0] == 's',
        "oauth"@.len() == 5 && "oauth"@[3] == 't' && "oauth"@[0] == 'o',
        "value"@.len() == 5 && "value"@[3] == 'u' && "value"@[0] == 'v',
        "image"@.len() == 5 && "image"@[3] == 'g' && "image"@[0] == 'i',
        "start"@.len() == 5 && "start"@[3] == 'r' && "start"@[0] == 's',
        "method"@.len() == 6 && "method"@[0] == 'm' && "method"@[1] == 'e',
        "params"@.len() == 6 && "params"@[0] == 'p' && "params"@[1] == 'a',
        "tokens"@.len() == 6 && "tokens"@[0] == 't' && "tokens"@[1] == 'o',
        "cancel"@.len() == 6 && "cancel"@[0] == 'c' && "cancel"@[1] == 'a',
        "target"@.len() == 6 && "target"@[0] == 't' && "target"@[1] == 'a',
        "failed"@.len() == 6 && "failed"@[0] == 'f' && "failed"@[1] == 'a',
        "access"@.len() == 6 && "access"@[0] == 'a' && "access"@[1] == 'c',
        "source"@.len() == 6 && "source"@[0] == 's' && "source"@[1] == 'o',
        "base64"@.len() == 6 && "base64"@[0] == 'b' && "base64"@[1] == 'a',
        "isMeta"@.len() == 6 && "isMeta"@[0] == 'i' && "isMeta"@[1] == 's',
        "missing"@.len() == 7 && "missing"@[1] == 'i' && "missing"@[6] == 'g',
        "waiting"@.len() == 7 && "waiting"@[1] == 'a' && "waiting"@[6] == 'g',
        "expired"@.len() == 7 && "expired"@[1] == 'x' && "expired"@[6] == 'd',
        "limited"@.len() == 7 && "limited"@[1] == 'i' && "limited"@[6] == 'd',
        "account"@.len() == 7 && "account"@[1] == 'c' && "account"@[6] == 't',
        "chatgpt"@.len() == 7 && "chatgpt"@[1] == 'h' && "chatgpt"@[6] == 't',
        "primary"@.len() == 7 && "primary"@[1] == 'r' && "primary"@[6] == 'y',
        "loginId"@.len() == 7 && "loginId"@[1] == 'o' && "loginId"@[6] == 'd',
        "success"@.len() == 7 && "success"@[1] == 'u' && "success"@[6] == 's',
        "current"@.len() == 7 && "current"@[1] == 'u' && "current"@[6] == 't',
        "api_key"@.len() == 7 && "api_key"@[1] == 'p' && "api_key"@[6] == 'y',
        "refresh"@.len() == 7 && "refresh"@[1] == 'e' && "refresh"@[6] == 'h',
        "expires"@.len() == 7 && "expires"@[1] == 'x' && "expires"@[6] == 's',
        "replace"@.len() == 7 && "replace"@[1] == 'e' && "replace"@[6] == 'e',
        "pi_auth"@.len() == 7 && "pi_auth"@[1] == 'i' && "pi_auth"@[6] == 'h',
        "planType"@.len() == 8 && "planType"@[4] == 'T' && "planType"@[0] == 'p',
        "userCode"@.len() == 8 && "userCode"@[4] == 'C' && "userCode"@[0] == 'u',
        "id_token"@.len() == 8 && "id_token"@[4] == 'o' && "id_token"@[0] == 'i',
        "complete"@.len() == 8 && "complete"@[4] == 'l' && "complete"@[0] == 'c',
        "loggedIn"@.len() == 8 && "loggedIn"@[4] == 'e' && "loggedIn"@[0] == 'l',
        "updating"@.len() == 8 && "updating"@[4] == 't' && "updating"@[0] == 'u',
        "userInfo"@.len() == 8 && "userInfo"@[4] == 'I' && "userInfo"@[0] == 'u',
        "filename"@.len() == 8 && "filename"@[4] == 'n' && "filename"@[0] == 'f',
        "mimeType"@.len() == 8 && "mimeType"@[4] == 'T' && "mimeType"@[0] == 'm',
        "--resume"@.len() == 8 && "--resume"@[4] == 's' && "--resume"@[0] == '-',
        "connected"@.len() == 9 && "connected"@[6] == 't',
        "secondary"@.len() == 9 && "secondary"@[6] == 'a',
        "auth_mode"@.len() == 9 && "auth_mode"@[6] == 'o',
        "installed"@.len() == 9 && "installed"@[6] == 'l',
        "reasoning"@.len() == 9 && "reasoning"@[6] == 'i',
        "image/png"@.len() == 9 && "image/png"@[6] == 'p',
        "image/gif"@.len() == 9 && "image/gif"@[6] == 'g',
        "auth.json"@.len() == 9 && "auth.json"@[6] == 's',
        "rateLimits"@.len() == 10 && "rateLimits"@[7] == 'i',
        "account_id"@.len() == 10 && "account_id"@[7] == '_',
        "media_type"@.len() == 10 && "media_type"@[7] == 'y',
        "image/jpeg"@.len() == 10 && "image/jpeg"@[7] == 'p',
        "image/webp"@.len() == 10 && "image/webp"@[7] == 'e',
        "parentUuid"@.len() == 10 && "parentUuid"@[7] == 'u',
        "unavailable"@.len() == 11 && "unavailable"@[1] == 'n',
        "usedPercent"@.len() == 11 && "usedPercent"@[1] == 's',
        "credentials"@.len() == 11 && "credentials"@[1] == 'r',
        "attachments"@.len() == 11 && "attachments"@[1] == 't',
        "access_token"@.len() == 12 && "access_token"@[6] == '_',
        "last_refresh"@.len() == 12 && "last_refresh"@[6] == 'e',
        "account/read"@.len() == 12 && "account/read"@[6] == 't',
        "refreshToken"@.len() == 12 && "refreshToken"@[6] == 'h',
        "--session-id"@.len() == 12 && "--session-id"@[6] == 'i',
        "refresh_token"@.len() == 13 && "refresh_token"@[2] == 'f',
        "resolvedModel"@.len() == 13 && "resolvedModel"@[2] == 's',
        "OPENAI_API_KEY"@.len() == 14 && "OPENAI_API_KEY"@[0] == 'O',
        "supportsEffort"@.len() == 14 && "supportsEffort"@[0] == 's',
        "--fork-session"@.len() == 14 && "--fork-session"@[0] == '-',
        "verificationUrl"@.len() == 15 && "verificationUrl"@[0] == 'v',
        "login_completed"@.len() == 15 && "login_completed"@[0] == 'l',
        "isAuthenticated"@.len() == 15 && "isAuthenticated"@[0] == 'i',
        "chatgptDeviceCode"@.len() == 17,
        "requiresOpenaiAuth"@.len() == 18,
        "account/login/start"@.len() == 19 && "account/login/start"@[0] == 'a',
        "--resume-session-at"@.len() == 19 && "--resume-session-at"@[0] == '-',
        "supportedEffortLevels"@.len() == 21,
        "account/login/completed"@.len() == 23 && "account/login/completed"@[8] == 'l',
        "account/rateLimits/read"@.len() == 23 && "account/rateLimits/read"@[8] == 'r',
{
    reveal_strlit("id");
    reveal_strlit("op");
    reveal_strlit("key");
    reveal_strlit("env");
    reveal_strlit("type");
    reveal_strlit("tree");
    reveal_strlit("root");
    reveal_strlit("kind");
    reveal_strlit("auth");
    reveal_strlit("none");
    reveal_strlit("text");
    reveal_strlit("data");
    reveal_strlit("path");
    reveal_strlit("uuid");
    reveal_strlit("user");
    reveal_strlit("error");
    reveal_strlit("email");
    reveal_strlit("token");
    reveal_strlit("state");
    reveal_strlit("oauth");
    reveal_strlit("value");
    reveal_strlit("image");
    reveal_strlit("start");
    reveal_strlit("method");
    reveal_strlit("params");
    reveal_strlit("tokens");
    reveal_strlit("cancel");
    reveal_strlit("target");
    reveal_strlit("failed");
    reveal_strlit("access");
    reveal_strlit("source");
    reveal_strlit("base64");
    reveal_strlit("isMeta");
    reveal_strlit("missing");
    reveal_strlit("waiting");
    reveal_strlit("expired");
    reveal_strlit("limited");
    reveal_strlit("account");
    reveal_strlit("chatgpt");
    reveal_strlit("primary");
    reveal_strlit("loginId");
    reveal_strlit("success");
    reveal_strlit("current");
    reveal_strlit("api_key");
    reveal_strlit("refresh");
    reveal_strlit("expires");
    reveal_strlit("replace");
    reveal_strlit("pi_auth");
    reveal_strlit("planType");
    reveal_strlit("userCode");
    reveal_strlit("id_token");
    reveal_strlit("complete");
    reveal_strlit("loggedIn");
    reveal_strlit("updating");
    reveal_strlit("userInfo");
    reveal_strlit("filename");
    reveal_strlit("mimeType");
    reveal_strlit("--resume");
    reveal_strlit("connected");
    reveal_strlit("secondary");
    reveal_strlit("auth_mode");
    reveal_strlit("installed");
    reveal_strlit("reasoning");
    reveal_strlit("image/png");
    reveal_strlit("image/gif");
    reveal_strlit("auth.json");
    reveal_strlit("rateLimits");
    reveal_strlit("account_id");
    reveal_strlit("media_type");
    reveal_strlit("image/jpeg");
    reveal_strlit("image/webp");
    reveal_strlit("parentUuid");
    reveal_strlit("unavailable");
    reveal_strlit("usedPercent");
    reveal_strlit("credentials");
    reveal_strlit("attachments");
    reveal_strlit("access_token");
    reveal_strlit("last_refresh");
    reveal_strlit("account/read");
    reveal_strlit("refreshToken");
    reveal_strlit("--session-id");
    reveal_strlit("refresh_token");
    reveal_strlit("resolvedModel");
    reveal_strlit("OPENAI_API_KEY");
    reveal_strlit("supportsEffort");
    reveal_strlit("--fork-session");
    reveal_strlit("verificationUrl");
    reveal_strlit("login_completed");
    reveal_strlit("isAuthenticated");
    reveal_strlit("chatgptDeviceCode");
    reveal_strlit("requiresOpenaiAuth");
    reveal_strlit("account/login/start");
    reveal_strlit("--resume-session-at");
    reveal_strlit("supportedEffortLevels");
    reveal_strlit("account/login/completed");
    reveal_strlit("account/rateLimits/read");
    assert("id"@.len() == 2 && "id"@[0] == 'i');
    assert("op"@.len() == 2 && "op"@[0] == 'o');
    assert("key"@.len() == 3 && "key"@[0] == 'k');
    assert("env"@.len() == 3 && "env"@[0] == 'e');
    assert("type"@.len() == 4 && "type"@[0] == 't' && "type"@[1] == 'y');
    assert("tree"@.len() == 4 && "tree"@[0] == 't' && "tree"@[1] == 'r');
    assert("root"@.len() == 4 && "root"@[0] == 'r' && "root"@[1] == 'o');
    assert("kind"@.len() == 4 && "kind"@[0] == 'k' && "kind"@[1] == 'i');
    assert("auth"@.len() == 4 && "auth"@[0] == 'a' && "auth"@[1] == 'u');
    assert("none"@.len() == 4 && "none"@[0] == 'n' && "none"@[1] == 'o');
    assert("text"@.len() == 4 && "text"@[0] == 't' && "text"@[1] == 'e');
    assert("data"@.len() == 4 && "data"@[0] == 'd' && "data"@[1] == 'a');
    assert("path"@.len() == 4 && "path"@[0] == 'p' && "path"@[1] == 'a');
    assert("uuid"@.len() == 4 && "uuid"@[0] == 'u' && "uuid"@[1] == 'u');
    assert("user"@.len() == 4 && "user"@[0] == 'u' && "user"@[1] == 's');
    assert("error"@.len() == 5 && "error"@[3] == 'o' && "error"@[0] == 'e');
    assert("email"@.len() == 5 && "email"@[3] == 'i' && "email"@[0] == 'e');
    assert("token"@.len() == 5 && "token"@[3] == 'e' && "token"@[0] == 't');
    assert("state"@.len() == 5 && "state"@[3] == 't' && "state"@[0] == 's');
    assert("oauth"@.len() == 5 && "oauth"@[3] == 't' && "oauth"@[0] == 'o');
    assert("value"@.len() == 5 && "value"@[3] == 'u' && "value"@[0] == 'v');
    assert("image"@.len() == 5 && "image"@[3] == 'g' && "image"@[0] == 'i');
    assert("start"@.len() == 5 && "start"@[3] == 'r' && "start"@[0] == 's');
    assert("method"@.len() == 6 && "method"@[0] == 'm' && "method"@[1] == 'e');
    assert("params"@.len() == 6 && "params"@[0] == 'p' && "params"@[1] == 'a');
    assert("tokens"@.len() == 6 && "tokens"@[0] == 't' && "tokens"@[1] == 'o');
    assert("cancel"@.len() == 6 && "cancel"@[0] == 'c' && "cancel"@[1] == 'a');
    assert("target"@.len() == 6 && "target"@[0] == 't' && "target"@[1] == 'a');
    assert("failed"@.len() == 6 && "failed"@[0] == 'f' && "failed"@[1] == 'a');
    assert("access"@.len() == 6 && "access"@[0] == 'a' && "access"@[1] == 'c');
    assert("source"@.len() == 6 && "source"@[0] == 's' && "source"@[1] == 'o');
    assert("base64"@.len() == 6 && "base64"@[0] == 'b' && "base64"@[1] == 'a');
    assert("isMeta"@.len() == 6 && "isMeta"@[0] == 'i' && "isMeta"@[1] == 's');
    assert("missing"@.len() == 7 && "missing"@[1] == 'i' && "missing"@[6] == 'g');
    assert("waiting"@.len() == 7 && "waiting"@[1] == 'a' && "waiting"@[6] == 'g');
    assert("expired"@.len() == 7 && "expired"@[1] == 'x' && "expired"@[6] == 'd');
    assert("limited"@.len() == 7 && "limited"@[1] == 'i' && "limited"@[6] == 'd');
    assert("account"@.len() == 7 && "account"@[1] == 'c' && "account"@[6] == 't');
    assert("chatgpt"@.len() == 7 && "chatgpt"@[1] == 'h' && "chatgpt"@[6] == 't');
    assert("primary"@.len() == 7 && "primary"@[1] == 'r' && "primary"@[6] == 'y');
    assert("loginId"@.len() == 7 && "loginId"@[1] == 'o' && "loginId"@[6] == 'd');
    assert("success"@.len() == 7 && "success"@[1] == 'u' && "success"@[6] == 's');
    assert("current"@.len() == 7 && "current"@[1] == 'u' && "current"@[6] == 't');
    assert("api_key"@.len() == 7 && "api_key"@[1] == 'p' && "api_key"@[6] == 'y');
    assert("refresh"@.len() == 7 && "refresh"@[1] == 'e' && "refresh"@[6] == 'h');
    assert("expires"@.len() == 7 && "expires"@[1] == 'x' && "expires"@[6] == 's');
    assert("replace"@.len() == 7 && "replace"@[1] == 'e' && "replace"@[6] == 'e');
    assert("pi_auth"@.len() == 7 && "pi_auth"@[1] == 'i' && "pi_auth"@[6] == 'h');
    assert("planType"@.len() == 8 && "planType"@[4] == 'T' && "planType"@[0] == 'p');
    assert("userCode"@.len() == 8 && "userCode"@[4] == 'C' && "userCode"@[0] == 'u');
    assert("id_token"@.len() == 8 && "id_token"@[4] == 'o' && "id_token"@[0] == 'i');
    assert("complete"@.len() == 8 && "complete"@[4] == 'l' && "complete"@[0] == 'c');
    assert("loggedIn"@.len() == 8 && "loggedIn"@[4] == 'e' && "loggedIn"@[0] == 'l');
    assert("updating"@.len() == 8 && "updating"@[4] == 't' && "updating"@[0] == 'u');
    assert("userInfo"@.len() == 8 && "userInfo"@[4] == 'I' && "userInfo"@[0] == 'u');
    assert("filename"@.len() == 8 && "filename"@[4] == 'n' && "filename"@[0] == 'f');
    assert("mimeType"@.len() == 8 && "mimeType"@[4] == 'T' && "mimeType"@[0] == 'm');
    assert("--resume"@.len() == 8 && "--resume"@[4] == 's' && "--resume"@[0] == '-');
    assert("connected"@.len() == 9 && "connected"@[6] == 't');
    assert("secondary"@.len() == 9 && "secondary"@[6] == 'a');
    assert("auth_mode"@.len() == 9 && "auth_mode"@[6] == 'o');
    assert("installed"@.len() == 9 && "installed"@[6] == 'l');
    assert("reasoning"@.len() == 9 && "reasoning"@[6] == 'i');
    assert("image/png"@.len() == 9 && "image/png"@[6] == 'p');
    assert("image/gif"@.len() == 9 && "image/gif"@[6] == 'g');
    assert("auth.json"@.len() == 9 && "auth.json"@[6] == 's');
    assert("rateLimits"@.len() == 10 && "rateLimits"@[7] == 'i');
    assert("account_id"@.len() == 10 && "account_id"@[7] == '_');
    assert("media_type"@.len() == 10 && "media_type"@[7] == 'y');
    assert("image/jpeg"@.len() == 10 && "image/jpeg"@[7] == 'p');
    assert("image/webp"@.len() == 10 && "image/webp"@[7] == 'e');
    assert("parentUuid"@.len() == 10 && "parentUuid"@[7] == 'u');
    assert("unavailable"@.len() == 11 && "unavailable"@[1] == 'n');
    assert("usedPercent"@.len() == 11 && "usedPercent"@[1] == 's');
    assert("credentials"@.len() == 11 && "credentials"@[1] == 'r');
    assert("attachments"@.len() == 11 && "attachments"@[1] == 't');
    assert("access_token"@.len() == 12 && "access_token"@[6] == '_');
    assert("last_refresh"@.len() == 12 && "last_refresh"@[6] == 'e');
    assert("account/read"@.len() == 12 && "account/read"@[6] == 't');
    assert("refreshToken"@.len() == 12 && "refreshToken"@[6] == 'h');
    assert("--session-id"@.len() == 12 && "--session-id"@[6] == 'i');
    assert("refresh_token"@.len() == 13 && "refresh_token"@[2] == 'f');
    assert("resolvedModel"@.len() == 13 && "resolvedModel"@[2] == 's');
    assert("OPENAI_API_KEY"@.len() == 14 && "OPENAI_API_KEY"@[0] == 'O');
    assert("supportsEffort"@.len() == 14 && "supportsEffort"@[0] == 's');
    assert("--fork-session"@.len() == 14 && "--fork-session"@[0] == '-');
    assert("verificationUrl"@.len() == 15 && "verificationUrl"@[0] == 'v');
    assert("login_completed"@.len() == 15 && "login_completed"@[0] == 'l');
    assert("isAuthenticated"@.len() == 15 && "isAuthenticated"@[0] == 'i');
    assert("chatgptDeviceCode"@.len() == 17);
    assert("requiresOpenaiAuth"@.len() == 18);
    assert("account/login/start"@.len() == 19 && "account/login/start"@[0] == 'a');
    assert("--resume-session-at"@.len() == 19 && "--resume-session-at"@[0] == '-');
    assert("supportedEffortLevels"@.len() == 21);
    assert("account/login/completed"@.len() == 23 && "account/login/completed"@[8] == 'l');
    assert("account/rateLimits/read"@.len() == 23 && "account/rateLimits/read"@[8] == 'r');
}
// Codex.

/// A login of Codex is looked at when it has ended or taken too long, and else left; an account is looked at
/// when it is asked for or was not looked at lately.
pub proof fn codex_logins_are_looked_at(
    a: CodexAuthView,
    now: u64,
    refresh: bool,
    completed: Data,
    disconnected: bool,
)
    ensures
        ({
            let check = auth::wanted_check(a, now, refresh, completed, disconnected);
            let ours = a.login is Some && completed.field("id"@) == Data::Text(a.login->0.native_id);
            &&& ours && completed.field("success"@) == Data::Bool(true) ==> check is Login
            &&& ours && completed.field("success"@) != Data::Bool(true) ==> check is Failed
            &&& a.login is Some && !ours && (disconnected || now >= a.login->0.started + 600000)
                ==> check is Expired
            &&& a.login is Some && !ours && !disconnected && now < a.login->0.started + 600000
                ==> check is Keep
            &&& a.login is None && (refresh || a.checked is None) ==> check is Account
            &&& a.login is None && !refresh && a.checked is Some && now > a.checked->0 + 15000
                ==> check is Account
            &&& a.login is None && !refresh && a.checked is Some && now <= a.checked->0 + 15000
                ==> check is Keep
        }),
{
}

/// A login that has succeeded leaves what its account is; sessions are told where it is connected. One that
/// failed or took too long is told so.
pub proof fn codex_logins_come_to_what_they_are(
    a: CodexAuthView,
    status: StatusView,
    now: u64,
)
    ensures
        ({
            let after = auth::checked(a, auth::Check::Login, Ok(status), now);
            after.status == status && after.login is None && after.checked == Some(now)
                && after.switched == (status.state == "connected"@)
        }),
        auth::checked(a, auth::Check::Failed, Ok(status), now).status.state == "error"@,
        auth::checked(a, auth::Check::Expired, Ok(status), now).status.state == "expired"@,
        auth::checked(a, auth::Check::Failed, Ok(status), now).login is None,
        auth::checked(a, auth::Check::Expired, Ok(status), now).login is None,
        auth::checked(a, auth::Check::Account, Ok(status), now).status == status,
        auth::checked(a, auth::Check::Account, Ok(status), now).checked == Some(now),
        auth::checked(a, auth::Check::Keep, Ok(status), now) == a,
{
}

/// An account that refuses is signed out; one that cannot be asked is unavailable.
pub proof fn codex_failures_are_told_apart(fault: FaultView)
    ensures
        fault.kind == FaultKind::PermissionDenied ==> failed_state(fault).state == "missing"@,
        fault.kind != FaultKind::PermissionDenied ==> failed_state(fault).state == "unavailable"@,
{
}

/// An account of Codex is connected, missing, or looked at further where it is a subscription.
pub proof fn codex_accounts_are_judged(result: Data)
    ensures
        result.get("account"@) is None && result.field("requiresOpenaiAuth"@) == Data::Bool(false) ==> (
        account_state(result) matches Ok(Some(s)) && s.state == "connected"@),
        result.get("account"@) is None && result.field("requiresOpenaiAuth"@) == Data::Bool(true) ==> (
        account_state(result) matches Ok(Some(s)) && s.state == "missing"@),
        result.field("account"@).field("type"@) == Data::Text("chatgpt"@) ==> account_state(result)
            == Ok::<Option<StatusView>, FaultView>(None),
{
    account_words();
}

/// A subscription is used up where one of its limits is, and else connected; it is shown with its address and
/// its plan.
pub proof fn subscriptions_are_used_up_at_their_limit(account: Data, limits: Data, used: u64)
    requires
        limits.get("rateLimits"@) is Some,
    ensures
        ({
            let limit = limits.field("rateLimits"@);
            let s = limited_state(account, limits);
            &&& s is Ok
            &&& exhausted(limit) ==> s->Ok_0.state == "limited"@
            &&& !exhausted(limit) ==> s->Ok_0.state == "connected"@
            &&& account.field("email"@) is Text ==> s->Ok_0.email == Some(account.field("email"@)->Text_0)
            &&& account.field("planType"@) is Text ==> s->Ok_0.plan == Some(
                account.field("planType"@)->Text_0,
            )
            &&& limit.field("primary"@).field("usedPercent"@) == Data::Number(Number::Unsigned(used))
                && used >= 100 ==> exhausted(limit)
            &&& limit.field("secondary"@).field("usedPercent"@) == Data::Number(
                Number::Unsigned(used),
            ) && used >= 100 ==> exhausted(limit)
            &&& limit.field("primary"@).field("usedPercent"@) == Data::Number(Number::Unsigned(used))
                && used < 100 && limit.get("secondary"@) is None ==> !exhausted(limit)
        }),
{
    account_words();
}

/// A login of Codex is begun once, shown with its page and its code; only who began it cancels it.
pub proof fn codex_logins_are_shown(
    a: CodexAuthView,
    request: Seq<char>,
    other: Seq<char>,
    native_id: Seq<char>,
    url: Seq<char>,
    code: Seq<char>,
    now: u64,
)
    requires
        other != request,
    ensures
        ({
            let begun = auth::login_begun(a, request, Ok((native_id, url, code)), now);
            &&& begun.status.state == "waiting"@
            &&& begun.status.login_id == Some(request)
            &&& begun.status.verification_url == Some(url)
            &&& begun.status.user_code == Some(code)
            &&& begun.login == Some(LoginView { request, native_id, started: now })
            &&& !may_login(begun)
            &&& auth::login_cancelled(begun, request).login is None
            &&& auth::login_cancelled(begun, request).status.state == "missing"@
            &&& auth::login_cancelled(begun, other) == begun
        }),
        a.login is None && a.status.state == "missing"@ ==> may_login(a) && may_import(a),
        a.status.state == "connected"@ ==> !may_login(a) && !may_import(a),
{
    account_words();
}

/// A login of Codex is taken with the page of its maker and a code that can be typed, and with no other.
pub proof fn codex_logins_are_checked(result: Data)
    ensures
        login_in(result) is Ok ==> result.field("verificationUrl"@) == Data::Text(
            "https://auth.openai.com/codex/device"@,
        ),
        login_in(result) matches Ok((id, url, code)) ==> (Data::Text(id) == result.field("loginId"@)
            && id.len() > 0 && url == "https://auth.openai.com/codex/device"@ && Data::Text(code)
            == result.field("userCode"@) && code.len() > 0 && byte_len(code) <= 32),
{
}

/// What is asked of an account of Codex; and the end of a login is recognized.
pub proof fn codex_accounts_are_asked(value: Data)
    ensures
        account_call(AccountCall::Read).0 == "account/read"@,
        account_call(AccountCall::Limits).0 == "account/rateLimits/read"@,
        account_call(AccountCall::Login).0 == "account/login/start"@,
        account_call(AccountCall::Login).1.field("type"@) == Data::Text("chatgptDeviceCode"@),
        value.field("method"@) == Data::Text("account/login/completed"@) ==> (login_event(value) matches
            Some(EventView::Record { kind, data, native }) && kind == "login_completed"@ && data.field(
            "id"@,
        ) == value.field("params"@).field("loginId"@) && data.field("success"@) == value.field(
            "params"@,
        ).field("success"@)),
        value.field("method"@) != Data::Text("account/login/completed"@) ==> login_event(value) is None,
{
    account_words();
}

/// A saved login of Codex that is brought over holds its four tokens and no key.
pub proof fn codex_logins_hold_their_tokens(value: Data)
    requires
        credentials_in(value) is Some,
    ensures
        ({
            let saved = credentials_in(value)->0;
            let tokens = value.field("tokens"@);
            &&& saved.field("auth_mode"@) == Data::Text("chatgpt"@)
            &&& saved.field("OPENAI_API_KEY"@) is Null
            &&& saved.field("tokens"@).field("id_token"@) == tokens.field("id_token"@)
            &&& saved.field("tokens"@).field("access_token"@) == tokens.field("access_token"@)
            &&& saved.field("tokens"@).field("refresh_token"@) == tokens.field("refresh_token"@)
            &&& saved.field("tokens"@).field("account_id"@) == tokens.field("account_id"@)
            &&& tokens.field("refresh_token"@) is Text
            &&& value.get("OPENAI_API_KEY"@) is None || value.field("OPENAI_API_KEY"@) is Null
        }),
{
    account_words();
}

// The harness with a product of its own.

/// Its account is connected exactly where it says so and ends well, and missing where it says that.
pub proof fn its_accounts_are_judged(bytes: Seq<u8>, product: Seq<char>, value: Data)
    requires
        bytes.len() <= 65536,
        bytes_read(bytes) == Ok::<Data, FaultView>(value),
    ensures
        account_answer(bytes, Some(0i32), product) == Ok::<bool, FaultView>(true) <==> value.field(
            "loggedIn"@,
        ) == Data::Bool(true),
        account_answer(bytes, Some(1i32), product) == Ok::<bool, FaultView>(false) <==> value.field(
            "loggedIn"@,
        ) == Data::Bool(false),
        account_answer(bytes, None, product) is Err,
{
}

/// What is asked of its login: a token or a key is saved; only who began a login ends it; a login is begun where
/// none runs and the account is not connected.
pub proof fn its_logins_do_what_is_asked(a: ClaudeLoginView, id: Seq<char>)
    ensures
        step_for(a, "token"@, id) is Token,
        step_for(a, "key"@, id) is Key,
        a.login is Some && a.login->0.id == id ==> step_for(a, "cancel"@, id) is Cancel && step_for(
            a,
            "complete"@,
            id,
        ) is Complete,
        a.login is None || a.login->0.id != id ==> step_for(a, "cancel"@, id) is Current && step_for(
            a,
            "complete"@,
            id,
        ) is Current,
        a.login is None && a.status.state == "missing"@ ==> step_for(a, "start"@, id) is Start,
        a.login is Some || a.status.state == "connected"@ ==> step_for(a, "start"@, id) is Current,
{
    account_words();
}

/// Its login ends, takes too long, or goes on; its account is looked at every so often.
pub proof fn its_logins_are_looked_at(a: ClaudeLoginView, now: u64, success: bool)
    ensures
        a.login is Some ==> claude_login::wanted_check(a, now, Some(success)) == (
        claude_login::Check::Done { success }),
        a.login is Some && now >= a.login->0.started + 600000 ==> claude_login::wanted_check(
            a,
            now,
            None,
        ) is Expired,
        a.login is Some && now < a.login->0.started + 600000 ==> claude_login::wanted_check(
            a,
            now,
            None,
        ) is Keep,
        a.login is None && a.checked is None ==> claude_login::wanted_check(a, now, None) is Account,
        a.login is None && a.checked is Some && now < a.checked->0 + 15000 ==> claude_login::wanted_check(
            a,
            now,
            None,
        ) is Keep,
        a.login is None && a.checked is Some && now >= a.checked->0 + 15000 ==> claude_login::wanted_check(
            a,
            now,
            None,
        ) is Account,
{
}

/// A login is connected exactly where it has succeeded and the account is ready.
pub proof fn its_logins_come_to_what_they_are(
    a: ClaudeLoginView,
    success: bool,
    ready: Option<bool>,
    now: u64,
    product: Seq<char>,
)
    ensures
        ({
            let done = claude_login::checked(
                a,
                claude_login::Check::Done { success },
                ready,
                now,
                product,
            );
            &&& done.status.state == "connected"@ <==> success && ready == Some(true)
            &&& !(success && ready == Some(true)) ==> done.status.state == "error"@
            &&& done.login is None
        }),
        claude_login::checked(a, claude_login::Check::Expired, ready, now, product).status.state
            == "expired"@,
        claude_login::checked(a, claude_login::Check::Account, Some(true), now, product).status.state
            == "connected"@,
        claude_login::checked(a, claude_login::Check::Account, Some(false), now, product).status.state
            == "missing"@,
        claude_login::checked(a, claude_login::Check::Account, None, now, product).status.state
            == "unavailable"@,
{
    account_words();
}

/// A login that is begun waits, with its page and its name; one that could not be begun is an error.
pub proof fn its_logins_are_shown(
    a: ClaudeLoginView,
    id: Seq<char>,
    url: Seq<char>,
    fault: FaultView,
    now: u64,
    product: Seq<char>,
)
    ensures
        ({
            let begun = claude_login::login_begun(a, id, Ok(url), now, product);
            &&& begun.status.state == "waiting"@
            &&& begun.status.verification_url == Some(url)
            &&& begun.status.login_id == Some(id)
            &&& begun.login is Some && begun.login->0.id == id && begun.login->0.started == now
        }),
        claude_login::login_begun(a, id, Err(fault), now, product).status.state == "error"@,
        claude_login::login_begun(a, id, Err(fault), now, product).login == a.login,
{
}

/// A key is tried once it is written; one that is not accepted is taken back, one that is replaces the token.
pub proof fn keys_are_tried(former: bool)
    ensures
        key_step_after(KeyStep::Write, true, former) == KeyStep::Try,
        key_step_after(KeyStep::Write, false, former) == KeyStep::End(Saving::Unwritten),
        key_step_after(KeyStep::Try, true, former) == KeyStep::RemoveToken,
        key_step_after(KeyStep::Try, false, true) == KeyStep::Restore,
        key_step_after(KeyStep::Try, false, false) == KeyStep::RemoveKey,
        key_step_after(KeyStep::Restore, true, former) == KeyStep::End(Saving::Rejected),
        key_step_after(KeyStep::RemoveKey, true, former) == KeyStep::End(Saving::Rejected),
        key_step_after(KeyStep::Restore, false, former) == KeyStep::End(Saving::Unrestored),
        key_step_after(KeyStep::RemoveToken, true, former) == KeyStep::End(Saving::Saved),
        key_step_after(KeyStep::RemoveToken, false, former) == KeyStep::End(Saving::Kept),
{
}

/// What was saved is told as saved, and nothing else is.
pub proof fn savings_are_told(saving: Saving, product: Seq<char>)
    ensures
        saving == Saving::Saved <==> token_refused(saving, product) is None,
        saving == Saving::Saved <==> key_refused(saving, product) is None,
        token_refused(saving, product) matches Some(s) ==> s.state == "error"@,
        key_refused(saving, product) matches Some(s) ==> s.state == "error"@,
{
}

/// The health of an account is told when it changes, and once a day.
pub proof fn health_is_told_daily(a: ClaudeAuth, reason: Reason, now: u64, at: u64)
    requires
        a.recorded == Some(at),
        at <= now,
    ensures
        recorded(a, true, reason, now).1 matches Some(h) && h.credentials == a.credentials && h.request
            == a.request && h.request_at == a.request_at && h.reason == reason,
        now - at >= 86400000 ==> (recorded(a, false, reason, now).1 matches Some(h) && h.reason
            == Reason::DailySummary),
        now - at < 86400000 ==> recorded(a, false, reason, now) == (
            a,
            None::<super::claude_auth::Health>,
        ),
        recorded(a, true, reason, now).0.recorded == Some(now),
{
}

// Versions.

/// A program is changed to the version that is wanted where it has another, is not being changed, and does not
/// run.
pub proof fn versions_are_changed_at_rest(
    version: Seq<char>,
    target: Seq<char>,
    changing: bool,
    busy: bool,
    fault: FaultView,
)
    ensures
        ({
            let update = wanted_update(Ok(version), target, changing, busy);
            &&& version == target ==> update == UpdateView::Current(version)
            &&& version != target && changing ==> update == UpdateView::Underway(version)
            &&& version != target && !changing && busy ==> update == UpdateView::Waiting(version)
            &&& version != target && !changing && !busy ==> update == UpdateView::Begin(version)
        }),
        wanted_update(Err(fault), target, changing, busy) == UpdateView::Failed(fault.message),
        update_data(UpdateView::Current(version), target, None).field("state"@) == Data::Text(
            "current"@,
        ),
        update_data(UpdateView::Begin(version), target, None).field("state"@) == Data::Text(
            "updating"@,
        ),
        update_data(UpdateView::Underway(version), target, None).field("state"@) == Data::Text(
            "updating"@,
        ),
        update_data(UpdateView::Waiting(version), target, None).field("state"@) == Data::Text(
            "waiting"@,
        ),
        update_data(UpdateView::Failed(version), target, None).field("state"@) == Data::Text("failed"@),
        update_data(UpdateView::Failed(version), target, None).field("error"@) == Data::Text(version),
        update_data(UpdateView::Begin(version), target, None).field("installed"@) == Data::Text(version),
        update_data(UpdateView::Begin(version), target, None).field("target"@) == Data::Text(target),
{
    account_words();
}

/// A version is installed exactly where the installer ends well and the program then has it.
pub proof fn installations_are_checked(
    version: Seq<char>,
    code: Option<i32>,
    found: Seq<char>,
    error: Seq<char>,
    name: Seq<char>,
    word: Seq<char>,
)
    ensures
        install_error(version, Ok(code), Ok(found), name, word) is None <==> code == Some(0i32) && found
            == version,
        install_error(version, Err(error), Ok(found), name, word) is Some,
{
}

// Models, prompts and histories.

/// The models of a catalog are those of its entries, each once, with the levels of the entry that names it
/// first.
pub proof fn catalogs_list_their_models(entries: Seq<Data>, entry: Data, name: Seq<char>)
    requires
        entry.field("value"@) == Data::Text(name),
        entry.get("resolvedModel"@) is None,
    ensures
        ({
            let before = catalog_models(entries);
            let all = catalog_models(entries.push(entry));
            let known = exists|i: int| 0 <= i < before.len() && (#[trigger] before[i]).model == name;
            &&& known ==> all == before
            &&& !known ==> all == before.push(
                ModelView { model: name, reasoning_levels: entry_levels(entry) },
            )
        }),
        entry.get("supportsEffort"@) is None && entry.get("supportedEffortLevels"@) is None
            ==> entry_levels(entry) == seq!["none"@],
{
    account_words();
    assert(entries.push(entry).drop_last() =~= entries);
    if entry.get("supportedEffortLevels"@) is None {
        let none: Seq<Data> = Seq::empty();
        assert(entry.field("supportedEffortLevels"@).items() =~= none);
    }
}

/// The level of a prompt is the one that it names, else that of its session; none is none.
pub proof fn prompts_have_their_level(input: Data, level: Seq<char>, session: Option<Seq<char>>)
    ensures
        input.field("reasoning"@) == Data::Text(level) && level != "none"@ ==> prompt_level(
            input,
            session,
        ) == Data::Text(level),
        input.field("reasoning"@) == Data::Text("none"@) ==> prompt_level(input, session) is Null,
        input.get("reasoning"@) is None && session == Some(level) && level != "none"@ ==> prompt_level(
            input,
            session,
        ) == Data::Text(level),
        input.get("reasoning"@) is None && session is None ==> prompt_level(input, session) is Null,
{
}

/// A prompt says its text first, then its images, then names its files; an empty one and one with an image that
/// is none are refused.
pub proof fn prompts_say_all(text: Seq<char>, images: Seq<Data>, input: Data, product: Seq<char>, i: int)
    ensures
        ({
            let content = prompt_content(text, images, input);
            let at: int = if text.len() > 0 { 1 } else { 0 };
            &&& text.len() > 0 ==> content.len() > 0 && content[0].field("type"@) == Data::Text("text"@)
                && content[0].field("text"@) == Data::Text(text)
            &&& content.len() >= at + images.len()
            &&& 0 <= i < images.len() ==> content[at + i].field("type"@) == Data::Text("image"@)
                && content[at + i].field("source"@).field("data"@) == images[i].field("data"@)
                && content[at + i].field("source"@).field("media_type"@) == images[i].field("mimeType"@)
            &&& content.len() == 0 ==> content_refused(text, images, input, product) is Some
            &&& 0 <= i < images.len() && images[i].get("mimeType"@) is None ==> content_refused(
                text,
                images,
                input,
                product,
            ) is Some
            &&& text.len() > 0 && images.len() == 0 ==> content_refused(text, images, input, product)
                is None
        }),
{
    account_words();
    let content = prompt_content(text, images, input);
    if 0 <= i < images.len() && images[i].get("mimeType"@) is None {
        assert(!super::claude::takes_image(images[i]));
    }
}

/// A conversation is begun, gone on with, or gone on with from before a message, by its arguments.
pub proof fn conversations_are_begun_by_arguments(saved: Seq<char>, id: Seq<char>, before: Seq<char>)
    ensures
        session_arguments(None, id, None) == seq!["--session-id"@, id],
        session_arguments(Some(saved), id, None) == seq!["--resume"@, saved],
        session_arguments(Some(saved), id, Some(before)).contains(before),
        session_arguments(Some(saved), id, Some(before))[1] == saved,
        session_arguments(Some(saved), id, Some(before))[2] == "--fork-session"@,
        session_arguments(Some(saved), id, Some(before))[4] == id,
        session_arguments(Some(saved), id, Some(before)).last() == before,
{
    let all = session_arguments(Some(saved), id, Some(before));
    assert(all[6] == before);
}

/// A conversation is taken back to what stands before the message that is named, where the message is one of
/// the user's.
pub proof fn conversations_are_taken_back(lines: Seq<Seq<char>>, before: Seq<char>, value: Data, parent: Seq<char>, product: Seq<char>)
    requires
        lines.len() > 0,
        super::claude::transcript_line(lines[0], product) == Ok::<Data, FaultView>(value),
        value.field("uuid"@) == Data::Text(before),
        value.field("type"@) == Data::Text("user"@),
        value.get("isMeta"@) is None,
    ensures
        is_checkpoint(value, before),
        value.field("parentUuid"@) == Data::Text(parent) ==> parent_from(lines, before, 0, product)
            == Ok::<Seq<char>, FaultView>(parent),
        value.get("parentUuid"@) is None ==> parent_from(lines, before, 0, product) is Err,
{
}

/// A model has a level exactly where a catalog says so.
pub proof fn models_have_their_levels(models: Seq<ModelView>, i: int, level: Seq<char>)
    requires
        0 <= i < models.len(),
        models[i].reasoning_levels.contains(level),
    ensures
        supports(models, models[i].model, level),
{
}

// Cursor and Pi.

/// An account of Cursor is connected where it says so; an answer that is too long or cannot be read leaves it
/// unavailable; a key is connected where it worked.
pub proof fn cursor_accounts_are_judged(bytes: Seq<u8>, success: bool, value: Data)
    ensures
        bytes.len() > 65536 ==> output_state(bytes, success, false).state == "unavailable"@,
        bytes.len() <= 65536 ==> (output_state(bytes, success, true).state == "connected"@ <==> success),
        bytes.len() <= 65536 && bytes_read(bytes) == Ok::<Data, FaultView>(value) ==> (output_state(
            bytes,
            success,
            false,
        ).state == "connected"@ <==> success && value.field("isAuthenticated"@) == Data::Bool(true)),
        bytes.len() <= 65536 && bytes_read(bytes) is Err ==> output_state(bytes, success, false).state
            == "unavailable"@,
{
    account_words();
}

/// A login of Cursor shows what it says until it ends; the account is looked at every so often where none runs.
pub proof fn cursor_logins_are_seen(a: CursorAuthView, shown: StatusView, now: u64)
    ensures
        a.login is Some ==> login_seen(a, shown, false).status == shown && login_seen(
            a,
            shown,
            false,
        ).login == a.login,
        a.login is Some ==> login_seen(a, shown, true).login is None && login_seen(a, shown, true).status
            == shown,
        a.login is None ==> login_seen(a, shown, false) == a,
        a.login is Some ==> !wants_check(a, now),
        a.login is None && a.checked is None ==> wants_check(a, now),
        a.login is None && a.checked is Some ==> (wants_check(a, now) <==> now > a.checked->0 + 15000),
        cursor_auth::may_login(a) <==> a.login is None && a.status.state != "connected"@,
{
}

/// A key of Cursor is kept where it worked and was saved, and else nothing has changed.
pub proof fn cursor_keys_are_kept_where_they_work(
    a: CursorAuthView,
    tried: StatusView,
    saved: bool,
    now: u64,
)
    ensures
        tried.state == "connected"@ && saved ==> keyed(a, tried, saved, now).0.status == tried && keyed(
            a,
            tried,
            saved,
            now,
        ).1 == tried,
        tried.state == "connected"@ && !saved ==> keyed(a, tried, saved, now).0 == a && keyed(
            a,
            tried,
            saved,
            now,
        ).1.state == "error"@,
        tried.state != "connected"@ ==> keyed(a, tried, saved, now) == (a, tried),
{
}

/// A login of Pi is a key, or tokens with their end; it is handed over whole where it is small enough.
pub proof fn pi_logins_are_whole(value: Data, key: Seq<char>)
    requires
        byte_len(written(value)) <= 16384,
    ensures
        login_entry(value) matches Some(entry) ==> (value.field("type"@) == Data::Text("api_key"@)
            || value.field("type"@) == Data::Text("oauth"@)),
        value.field("type"@) == Data::Text("oauth"@) && login_entry(value) is Some ==> login_entry(value)
            == Some(value) && value.field("expires"@) is Number,
        login_entry(value) matches Some(entry) ==> (value.field("type"@) == Data::Text("api_key"@)
            ==> entry.field("key"@) == value.field("key"@) && entry.field("type"@) == Data::Text(
            "api_key"@,
        )),
        key_login(key).field("type"@) == Data::Text("api_key"@),
        key_login(key).field("key"@) == Data::Text(key),
{
    account_words();
}

/// What is asked for a login of Pi: its file, what is to be saved, and whether it replaces.
pub proof fn pi_logins_are_asked_for(home: Seq<char>, credentials: Map<Seq<char>, Data>, replace: bool)
    ensures
        login_request(home, credentials, replace).field("op"@) == Data::Text("pi_auth"@),
        login_request(home, credentials, replace).field("credentials"@) == Data::Object(credentials),
        login_request(home, credentials, replace).field("replace"@) == Data::Bool(replace),
        login_request(home, credentials, replace).field("tree"@).field("root"@) == Data::Text(home),
        login_request(home, credentials, replace).field("tree"@).field("filename"@) == Data::Text(
            "auth.json"@,
        ),
{
    account_words();
}

} // verus!
