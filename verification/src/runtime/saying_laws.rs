//! What holds of the words in which accounts, requests and paired machines are answered.
use super::auth::{account_state, checked, failed_state, limited_state, login_begun, login_cancelled, Check, CodexAuthView};
use super::claude::account_answer;
use super::claude_login::{ready_state, step_for, ClaudeLoginView, Step};
use super::claude_skills::{expanded, looked_up, mentioned, native_setting, Part, SkillView};
use super::cursor_models::{catalog_ids, selected, served, stands_for, variant, variant_for};
use super::cursor_print::truthy;
use super::{claude_login, cursor_auth};
use crate::api::error_code;
use crate::fault::{FaultKind, FaultView};
use crate::json::{Data, Number};
use crate::mac::{digit_number, quoted};
use crate::preview::known_error;
use crate::runtime::auth::StatusView;
use crate::runtime::files::below;
use crate::session::catalog::attachable;
use crate::sync::{failed, place, HomesView};
use crate::wire::bytes_read;
use vstd::prelude::*;

verus! {

proof fn saying_words()
    ensures
        "pi"@.len() == 2,
        "key"@.len() == 3,
        "type"@.len() == 4 && "type"@[0] == 't',
        "name"@.len() == 4 && "name"@[0] == 'n',
        "email"@.len() == 5 && "email"@[0] == 'e' && "email"@[1] == 'm',
        "error"@.len() == 5 && "error"@[0] == 'e' && "error"@[1] == 'r',
        "token"@.len() == 5 && "token"@[0] == 't' && "token"@[1] == 'o',
        "start"@.len() == 5 && "start"@[0] == 's' && "start"@[1] == 't',
        "codex"@.len() == 5 && "codex"@[0] == 'c' && "codex"@[1] == 'o',
        "files"@.len() == 5 && "files"@[0] == 'f' && "files"@[1] == 'i',
        "model"@.len() == 5 && "model"@[0] == 'm' && "model"@[1] == 'o',
        "agent"@.len() == 5 && "agent"@[0] == 'a' && "agent"@[1] == 'g',
        "hooks"@.len() == 5 && "hooks"@[0] == 'h' && "hooks"@[1] == 'o',
        "shell"@.len() == 5 && "shell"@[0] == 's' && "shell"@[1] == 'h',
        "title"@.len() == 5 && "title"@[0] == 't' && "title"@[1] == 'i',
        "cancel"@.len() == 6 && "cancel"@[1] == 'a',
        "skills"@.len() == 6 && "skills"@[1] == 'k',
        "cursor"@.len() == 6 && "cursor"@[1] == 'u',
        "images"@.len() == 6 && "images"@[1] == 'm',
        "origin"@.len() == 6 && "origin"@[1] == 'r',
        "effort"@.len() == 6 && "effort"@[1] == 'f',
        "account"@.len() == 7 && "account"@[2] == 'c',
        "chatgpt"@.len() == 7 && "chatgpt"@[2] == 'a',
        "missing"@.len() == 7 && "missing"@[2] == 's',
        "limited"@.len() == 7 && "limited"@[2] == 'm',
        "expired"@.len() == 7 && "expired"@[2] == 'p',
        "waiting"@.len() == 7 && "waiting"@[2] == 'i',
        "context"@.len() == 7 && "context"@[2] == 'n',
        "planType"@.len() == 8 && "planType"@[0] == 'p',
        "loggedIn"@.len() == 8 && "loggedIn"@[0] == 'l',
        "userInfo"@.len() == 8 && "userInfo"@[0] == 'u',
        "complete"@.len() == 8 && "complete"@[0] == 'c',
        "resource"@.len() == 8 && "resource"@[0] == 'r',
        "connected"@.len() == 9 && "connected"@[0] == 'c',
        "skills-pi"@.len() == 9 && "skills-pi"@[0] == 's',
        "arguments"@.len() == 9 && "arguments"@[0] == 'a',
        "rateLimits"@.len() == 10 && "rateLimits"@[0] == 'r',
        "background"@.len() == 10 && "background"@[0] == 'b',
        "unavailable"@.len() == 11 && "unavailable"@[0] == 'u',
        "settings-pi"@.len() == 11 && "settings-pi"@[0] == 's',
        "skills-codex"@.len() == 12 && "skills-codex"@[0] == 's',
        "rules-cursor"@.len() == 12 && "rules-cursor"@[0] == 'r',
        "skills-shared"@.len() == 13 && "skills-shared"@[7] == 's',
        "skills-cursor"@.len() == 13 && "skills-cursor"@[7] == 'c',
        "allowed-tools"@.len() == 13 && "allowed-tools"@[7] == '-',
        "settings-codex"@.len() == 14 && "settings-codex"@[0] == 's',
        "user-invocable"@.len() == 14 && "user-invocable"@[0] == 'u',
        "isAuthenticated"@.len() == 15 && "isAuthenticated"@[0] == 'i',
        "settings-cursor"@.len() == 15 && "settings-cursor"@[0] == 's',
        "disallowed-tools"@.len() == 16,
        "requiresOpenaiAuth"@.len() == 18,
{
    reveal_strlit("pi");
    reveal_strlit("key");
    reveal_strlit("type");
    reveal_strlit("name");
    reveal_strlit("email");
    reveal_strlit("error");
    reveal_strlit("token");
    reveal_strlit("start");
    reveal_strlit("codex");
    reveal_strlit("files");
    reveal_strlit("model");
    reveal_strlit("agent");
    reveal_strlit("hooks");
    reveal_strlit("shell");
    reveal_strlit("title");
    reveal_strlit("cancel");
    reveal_strlit("skills");
    reveal_strlit("cursor");
    reveal_strlit("images");
    reveal_strlit("origin");
    reveal_strlit("effort");
    reveal_strlit("account");
    reveal_strlit("chatgpt");
    reveal_strlit("missing");
    reveal_strlit("limited");
    reveal_strlit("expired");
    reveal_strlit("waiting");
    reveal_strlit("context");
    reveal_strlit("planType");
    reveal_strlit("loggedIn");
    reveal_strlit("userInfo");
    reveal_strlit("complete");
    reveal_strlit("resource");
    reveal_strlit("connected");
    reveal_strlit("skills-pi");
    reveal_strlit("arguments");
    reveal_strlit("rateLimits");
    reveal_strlit("background");
    reveal_strlit("unavailable");
    reveal_strlit("settings-pi");
    reveal_strlit("skills-codex");
    reveal_strlit("rules-cursor");
    reveal_strlit("skills-shared");
    reveal_strlit("skills-cursor");
    reveal_strlit("allowed-tools");
    reveal_strlit("settings-codex");
    reveal_strlit("user-invocable");
    reveal_strlit("isAuthenticated");
    reveal_strlit("settings-cursor");
    reveal_strlit("disallowed-tools");
    reveal_strlit("requiresOpenaiAuth");
    assert("pi"@.len() == 2);
    assert("key"@.len() == 3);
    assert("type"@.len() == 4 && "type"@[0] == 't');
    assert("name"@.len() == 4 && "name"@[0] == 'n');
    assert("email"@.len() == 5 && "email"@[0] == 'e' && "email"@[1] == 'm');
    assert("error"@.len() == 5 && "error"@[0] == 'e' && "error"@[1] == 'r');
    assert("token"@.len() == 5 && "token"@[0] == 't' && "token"@[1] == 'o');
    assert("start"@.len() == 5 && "start"@[0] == 's' && "start"@[1] == 't');
    assert("codex"@.len() == 5 && "codex"@[0] == 'c' && "codex"@[1] == 'o');
    assert("files"@.len() == 5 && "files"@[0] == 'f' && "files"@[1] == 'i');
    assert("model"@.len() == 5 && "model"@[0] == 'm' && "model"@[1] == 'o');
    assert("agent"@.len() == 5 && "agent"@[0] == 'a' && "agent"@[1] == 'g');
    assert("hooks"@.len() == 5 && "hooks"@[0] == 'h' && "hooks"@[1] == 'o');
    assert("shell"@.len() == 5 && "shell"@[0] == 's' && "shell"@[1] == 'h');
    assert("title"@.len() == 5 && "title"@[0] == 't' && "title"@[1] == 'i');
    assert("cancel"@.len() == 6 && "cancel"@[1] == 'a');
    assert("skills"@.len() == 6 && "skills"@[1] == 'k');
    assert("cursor"@.len() == 6 && "cursor"@[1] == 'u');
    assert("images"@.len() == 6 && "images"@[1] == 'm');
    assert("origin"@.len() == 6 && "origin"@[1] == 'r');
    assert("effort"@.len() == 6 && "effort"@[1] == 'f');
    assert("account"@.len() == 7 && "account"@[2] == 'c');
    assert("chatgpt"@.len() == 7 && "chatgpt"@[2] == 'a');
    assert("missing"@.len() == 7 && "missing"@[2] == 's');
    assert("limited"@.len() == 7 && "limited"@[2] == 'm');
    assert("expired"@.len() == 7 && "expired"@[2] == 'p');
    assert("waiting"@.len() == 7 && "waiting"@[2] == 'i');
    assert("context"@.len() == 7 && "context"@[2] == 'n');
    assert("planType"@.len() == 8 && "planType"@[0] == 'p');
    assert("loggedIn"@.len() == 8 && "loggedIn"@[0] == 'l');
    assert("userInfo"@.len() == 8 && "userInfo"@[0] == 'u');
    assert("complete"@.len() == 8 && "complete"@[0] == 'c');
    assert("resource"@.len() == 8 && "resource"@[0] == 'r');
    assert("connected"@.len() == 9 && "connected"@[0] == 'c');
    assert("skills-pi"@.len() == 9 && "skills-pi"@[0] == 's');
    assert("arguments"@.len() == 9 && "arguments"@[0] == 'a');
    assert("rateLimits"@.len() == 10 && "rateLimits"@[0] == 'r');
    assert("background"@.len() == 10 && "background"@[0] == 'b');
    assert("unavailable"@.len() == 11 && "unavailable"@[0] == 'u');
    assert("settings-pi"@.len() == 11 && "settings-pi"@[0] == 's');
    assert("skills-codex"@.len() == 12 && "skills-codex"@[0] == 's');
    assert("rules-cursor"@.len() == 12 && "rules-cursor"@[0] == 'r');
    assert("skills-shared"@.len() == 13 && "skills-shared"@[7] == 's');
    assert("skills-cursor"@.len() == 13 && "skills-cursor"@[7] == 'c');
    assert("allowed-tools"@.len() == 13 && "allowed-tools"@[7] == '-');
    assert("settings-codex"@.len() == 14 && "settings-codex"@[0] == 's');
    assert("user-invocable"@.len() == 14 && "user-invocable"@[0] == 'u');
    assert("isAuthenticated"@.len() == 15 && "isAuthenticated"@[0] == 'i');
    assert("settings-cursor"@.len() == 15 && "settings-cursor"@[0] == 's');
    assert("disallowed-tools"@.len() == 16);
    assert("requiresOpenaiAuth"@.len() == 18);
}
// Requests.

proof fn error_words_apart()
    ensures
        "invalid model"@.len() == 13,
        "invalid provider"@.len() == 16,
        "invalid workspace"@.len() == 17,
        "service is stopping"@.len() == 19 && "service is stopping"@[0] == 's',
        "unsupported command"@.len() == 19 && "unsupported command"@[0] == 'u',
        "invalid service tier"@.len() == 20,
        "session already exists"@.len() == 22,
        "invalid reasoning effort"@.len() == 24 && "invalid reasoning effort"@[0] == 'i',
        "attachment upload failed"@.len() == 24 && "attachment upload failed"@[0] == 'a',
        "agent setup is incomplete"@.len() == 25 && "agent setup is incomplete"@[0] == 'a',
        "harness is not configured"@.len() == 25 && "harness is not configured"@[0] == 'h',
        "model catalog unavailable"@.len() == 25 && "model catalog unavailable"@[0] == 'm',
        "file exceeds the 25 MiB limit"@.len() == 29 && "file exceeds the 25 MiB limit"@[0] == 'f',
        "workspace mapping unavailable"@.len() == 29 && "workspace mapping unavailable"@[0] == 'w',
        "provider selection requires Pi"@.len() == 30 && "provider selection requires Pi"@[0] == 'p',
        "Cloud folder permission denied"@.len() == 30 && "Cloud folder permission denied"@[0] == 'C',
        "image exceeds the 10 MiB limit"@.len() == 30 && "image exceeds the 10 MiB limit"@[0] == 'i',
        "saved session has no matching receipt"@.len() == 37,
        "request_id already has different content"@.len() == 40 && "request_id already has different content"@[0] == 'r',
        "storage unsafe; new execution is blocked"@.len() == 40 && "storage unsafe; new execution is blocked"@[0] == 's',
{
    reveal_strlit("invalid model");
    reveal_strlit("invalid provider");
    reveal_strlit("invalid workspace");
    reveal_strlit("service is stopping");
    reveal_strlit("unsupported command");
    reveal_strlit("invalid service tier");
    reveal_strlit("session already exists");
    reveal_strlit("invalid reasoning effort");
    reveal_strlit("attachment upload failed");
    reveal_strlit("agent setup is incomplete");
    reveal_strlit("harness is not configured");
    reveal_strlit("model catalog unavailable");
    reveal_strlit("file exceeds the 25 MiB limit");
    reveal_strlit("workspace mapping unavailable");
    reveal_strlit("provider selection requires Pi");
    reveal_strlit("Cloud folder permission denied");
    reveal_strlit("image exceeds the 10 MiB limit");
    reveal_strlit("saved session has no matching receipt");
    reveal_strlit("request_id already has different content");
    reveal_strlit("storage unsafe; new execution is blocked");
    assert("invalid model"@.len() == 13);
    assert("invalid provider"@.len() == 16);
    assert("invalid workspace"@.len() == 17);
    assert("service is stopping"@.len() == 19 && "service is stopping"@[0] == 's');
    assert("unsupported command"@.len() == 19 && "unsupported command"@[0] == 'u');
    assert("invalid service tier"@.len() == 20);
    assert("session already exists"@.len() == 22);
    assert("invalid reasoning effort"@.len() == 24 && "invalid reasoning effort"@[0] == 'i');
    assert("attachment upload failed"@.len() == 24 && "attachment upload failed"@[0] == 'a');
    assert("agent setup is incomplete"@.len() == 25 && "agent setup is incomplete"@[0] == 'a');
    assert("harness is not configured"@.len() == 25 && "harness is not configured"@[0] == 'h');
    assert("model catalog unavailable"@.len() == 25 && "model catalog unavailable"@[0] == 'm');
    assert("file exceeds the 25 MiB limit"@.len() == 29 && "file exceeds the 25 MiB limit"@[0] == 'f');
    assert("workspace mapping unavailable"@.len() == 29 && "workspace mapping unavailable"@[0] == 'w');
    assert("provider selection requires Pi"@.len() == 30 && "provider selection requires Pi"@[0] == 'p');
    assert("Cloud folder permission denied"@.len() == 30 && "Cloud folder permission denied"@[0] == 'C');
    assert("image exceeds the 10 MiB limit"@.len() == 30 && "image exceeds the 10 MiB limit"@[0] == 'i');
    assert("saved session has no matching receipt"@.len() == 37);
    assert("request_id already has different content"@.len() == 40 && "request_id already has different content"@[0] == 'r');
    assert("storage unsafe; new execution is blocked"@.len() == 40 && "storage unsafe; new execution is blocked"@[0] == 's');
}
/// Each refusal that clients tell apart has a word of its own; all others share one.
pub proof fn refusals_have_their_word()
    ensures
        error_code("provider selection requires Pi"@) == "invalid_provider"@,
        error_code("Cloud folder permission denied"@) == "attachment_permission_denied"@,
        error_code("attachment upload failed"@) == "invalid_attachment"@,
        error_code("image exceeds the 10 MiB limit"@) == "attachment_too_large"@,
        error_code("file exceeds the 25 MiB limit"@) == "attachment_too_large"@,
        error_code("saved session has no matching receipt"@) == "request_conflict"@,
        error_code("harness is not configured"@) == "harness_not_configured"@,
        error_code("workspace mapping unavailable"@) == "invalid_workspace"@,
        error_code("model catalog unavailable"@) == "model_catalog_unavailable"@,
        error_code("unsupported command"@) == "request_rejected"@,
{
    error_words_apart();
}

// Codex accounts.

/// An account is connected, missing, limited, or could not be checked, by what the harness says of it.
pub proof fn accounts_are_what_is_said_of_them(result: Data, account: Data, limits: Data, fault: FaultView)
    ensures
        result.field("account"@) is Null && result.field("requiresOpenaiAuth"@) == Data::Bool(false)
            ==> (account_state(result) matches Ok(Some(s)) && s.state == "connected"@),
        result.field("account"@) is Null && result.field("requiresOpenaiAuth"@) == Data::Bool(true)
            ==> (account_state(result) matches Ok(Some(s)) && s.state == "missing"@ && s.message == Some(
            "Connect your ChatGPT subscription to use Codex in Cloud."@,
        )),
        result.field("account"@) is Null && result.field("requiresOpenaiAuth"@) is Null
            ==> account_state(result) is Err,
        result.field("account"@).field("type"@) == Data::Text("chatgpt"@) ==> account_state(result)
            == Ok::<Option<StatusView>, FaultView>(None),
        limits.get("rateLimits"@) is None ==> limited_state(account, limits) is Err,
        limited_state(account, limits) matches Ok(s) ==> (s.state == "limited"@ || s.state
            == "connected"@) && s.email == account.field("email"@).as_text() && s.plan
            == account.field("planType"@).as_text(),
        fault.kind == FaultKind::PermissionDenied ==> failed_state(fault).state == "missing"@,
        fault.kind != FaultKind::PermissionDenied ==> failed_state(fault).state == "unavailable"@,
{
    saying_words();
}

/// A sign-in that began waits, with its address and its code; one that could not begin is an error; one that
/// was cancelled is gone, and another is not touched.
pub proof fn sign_ins_are_told(
    a: CodexAuthView,
    request: Seq<char>,
    id: Seq<char>,
    url: Seq<char>,
    code: Seq<char>,
    fault: FaultView,
    now: u64,
    probe: Result<StatusView, FaultView>,
)
    ensures
        ({
            let b = login_begun(a, request, Ok((id, url, code)), now);
            &&& b.status.state == "waiting"@
            &&& b.status.login_id == Some(request)
            &&& b.status.verification_url == Some(url)
            &&& b.status.user_code == Some(code)
            &&& b.login matches Some(login) && login.request == request && login.native_id == id
                && login.started == now
            &&& login_cancelled(b, request).login is None && login_cancelled(b, request).status.state
                == "missing"@
        }),
        login_begun(a, request, Err(fault), now).status.state == "error"@ && login_begun(
            a,
            request,
            Err(fault),
            now,
        ).login == a.login,
        a.login matches Some(login) ==> (login.request != request ==> login_cancelled(a, request) == a),
        checked(a, Check::Keep, probe, now) == a,
        checked(a, Check::Failed, probe, now).status.state == "error"@ && checked(
            a,
            Check::Failed,
            probe,
            now,
        ).login is None,
        checked(a, Check::Expired, probe, now).status.state == "expired"@,
        probe matches Ok(s) ==> checked(a, Check::Account, probe, now).status == s && checked(
            a,
            Check::Account,
            probe,
            now,
        ).login == a.login && checked(a, Check::Login, probe, now).status == s && checked(
            a,
            Check::Login,
            probe,
            now,
        ).login is None,
{
    saying_words();
}

// Other accounts.

/// An account that was asked for is connected only where the command ended well and says so.
pub proof fn asked_accounts_say_so(bytes: Seq<u8>, code: Option<i32>, product: Seq<char>)
    ensures
        account_answer(bytes, code, product) == Ok::<bool, FaultView>(true) ==> code == Some(0i32) && (
        bytes_read(bytes) matches Ok(v) && v.field("loggedIn"@) == Data::Bool(true)),
        account_answer(bytes, code, product) == Ok::<bool, FaultView>(false) ==> code == Some(1i32) && (
        bytes_read(bytes) matches Ok(v) && v.field("loggedIn"@) == Data::Bool(false)),
        bytes.len() > 65536 ==> account_answer(bytes, code, product) is Err,
{
}

/// What an account is ready for is told by its state; what was asked for in a sign-in decides the step.
pub proof fn steps_follow_what_was_asked(a: ClaudeLoginView, id: Seq<char>, product: Seq<char>)
    ensures
        ready_state(Some(true), product).state == "connected"@,
        ready_state(Some(false), product).state == "missing"@,
        ready_state(None, product).state == "unavailable"@,
        step_for(a, "token"@, id) == Step::Token,
        step_for(a, "key"@, id) == Step::Key,
        a.login is None ==> step_for(a, "cancel"@, id) != Step::Token && step_for(a, "cancel"@, id)
            != Step::Start,
        a.login is Some ==> step_for(a, "start"@, id) == Step::Current,
        a.login is None && a.status.state == "connected"@ ==> step_for(a, "start"@, id)
            == Step::Current,
        a.login is None && a.status.state == "missing"@ ==> step_for(a, "start"@, id) == Step::Start,
        claude_login::checked(a, claude_login::Check::Keep, None, 0, product) == a,
        claude_login::checked(a, claude_login::Check::Expired, None, 7, product).status.state
            == "expired"@,
        claude_login::checked(
            a,
            claude_login::Check::Done { success: true },
            Some(true),
            7,
            product,
        ).status.state == "connected"@,
        claude_login::checked(
            a,
            claude_login::Check::Done { success: false },
            Some(true),
            7,
            product,
        ).status.state == "error"@,
{
    saying_words();
}

/// An account of Cursor is connected only where its command ended well and says so.
pub proof fn cursor_accounts_say_so(success: bool, value: Data)
    ensures
        cursor_auth::account_state(success, value).state == "connected"@ <==> success && value.field(
            "isAuthenticated"@,
        ) == Data::Bool(true),
        cursor_auth::account_state(success, value).email == value.field("userInfo"@).field(
            "email"@,
        ).as_text(),
{
    saying_words();
}

// Skills.

/// A selected skill stands in the text where its tag says, behind those before it, and is written by its name.
pub proof fn selected_skills_are_written_by_name(
    p: Part,
    skills: Seq<SkillView>,
    text: Seq<char>,
    mention: Data,
    product: Seq<char>,
    name: Seq<char>,
)
    requires
        mention.field("resource"@).field("name"@) == Data::Text(name),
    ensures
        mentioned(p, skills, text, mention, product) matches Ok(q) ==> (
        super::claude_skills::span(text, mention) matches Some((start, end)) && p.cursor <= start
            && start < end && q.cursor == end && text.subrange(start, end) == "/"@ + name && q.rendered
            == p.rendered + text.subrange(p.cursor, start) + name),
{
}

/// A setting that only the harness itself understands is one of these.
pub proof fn native_settings_are_known(key: Seq<char>)
    ensures
        native_setting("allowed-tools"@) && native_setting("disallowed-tools"@) && native_setting(
            "model"@,
        ) && native_setting("effort"@) && native_setting("context"@) && native_setting("agent"@)
            && native_setting("background"@) && native_setting("hooks"@) && native_setting("shell"@)
            && native_setting("arguments"@) && native_setting("user-invocable"@),
        !native_setting("title"@) && !native_setting("name"@),
{
    saying_words();
}

/// A skill is the one of its name and origin that stands first; one that is not there was not loaded.
pub proof fn skills_are_found_by_name_and_origin(skills: Seq<SkillView>, s: SkillView, name: Seq<char>, origin: Seq<char>)
    ensures
        s.name == name && s.origin == origin ==> looked_up(seq![s] + skills, name, origin) == s.found,
        s.name != name || s.origin != origin ==> looked_up(seq![s] + skills, name, origin) == looked_up(
            skills,
            name,
            origin,
        ),
        looked_up(Seq::empty(), name, origin) is Err,
{
    let all = seq![s] + skills;
    assert(all[0] == s);
    assert(all.subrange(1, all.len() as int) =~= skills);
}

/// A message without parts is sent as it is.
pub proof fn plain_messages_stay(input: Data, skills: Seq<SkillView>, product: Seq<char>, text: Seq<char>)
    requires
        input.field("text"@) == Data::Text(text),
        !(input.field("content"@) is Array),
    ensures
        expanded(input, skills, product) == Ok::<Seq<char>, FaultView>(text),
{
}

// Models.

/// The variants of a catalog stand in its order; an entry without a name is passed over.
pub proof fn catalogs_are_read_in_order(items: Seq<Data>, item: Data, id: Seq<char>)
    ensures
        catalog_ids(Seq::empty()).len() == 0,
        item.field("modelId"@) == Data::Text(id) ==> catalog_ids(items.push(item)) == catalog_ids(
            items,
        ).push(id),
        item.field("modelId"@) is Null ==> catalog_ids(items.push(item)) == catalog_ids(items),
{
    assert(items.push(item).drop_last() =~= items);
}

/// The variant that serves a model is one of the catalog, of the wanted level and speed, and there is one where
/// any could serve.
pub proof fn serving_variants_are_listed(
    ids: Seq<Seq<char>>,
    name: Seq<char>,
    thinking: bool,
    wanted: Seq<char>,
    fast: bool,
    i: int,
)
    requires
        0 <= i < ids.len(),
    ensures
        served(ids, name, thinking, wanted, fast) matches Some(id) ==> ids.contains(id) && stands_for(
            id,
            name,
            thinking,
            wanted,
        ) && variant(id).fast == fast,
        stands_for(ids[i], name, thinking, wanted) && variant(ids[i]).fast == fast ==> served(
            ids,
            name,
            thinking,
            wanted,
            fast,
        ) is Some,
    decreases ids.len(),
{
    let rest = ids.drop_last();
    assert(ids.contains(ids.last()));
    if rest.len() > 0 {
        serving_variants_are_listed(rest, name, thinking, wanted, fast, if i < rest.len() {
            i
        } else {
            0
        });
        if i < rest.len() {
            assert(rest[i] == ids[i]);
        }
        if let Some(id) = served(rest, name, thinking, wanted, fast) {
            let k = choose|k: int| 0 <= k < rest.len() && rest[k] == id;
            assert(ids[k] == id);
        }
    } else {
        reveal_with_fuel(served, 2);
    }
}

/// A slower variant is taken before a fast one; without a catalog nothing is.
pub proof fn slow_variants_come_first(ids: Seq<Seq<char>>, name: Seq<char>, wanted: Seq<char>, session: Data)
    ensures
        ({
            let thinking = super::cursor_models::thinks(ids, name);
            &&& served(ids, name, thinking, wanted, false) is Some ==> variant_for(ids, name, wanted)
                == served(ids, name, thinking, wanted, false)
            &&& served(ids, name, thinking, wanted, false) is None ==> variant_for(ids, name, wanted)
                == served(ids, name, thinking, wanted, true)
        }),
        session.field("models"@).field("availableModels"@) is Null ==> selected(
            session,
            name,
            Some(wanted),
        ) is Err,
{
}

/// A value counts as said where it is not empty, not zero and not false.
pub proof fn empty_values_say_nothing(text: Seq<char>, n: u64, items: Seq<Data>)
    ensures
        !truthy(Data::Null),
        !truthy(Data::Bool(false)) && truthy(Data::Bool(true)),
        truthy(Data::Number(Number::Unsigned(n))) <==> n != 0,
        truthy(Data::Text(text)) <==> text.len() > 0,
        truthy(Data::Array(items)) <==> items.len() > 0,
{
}

// The paired machine.

/// The digits of both cases have their values, and nothing else has one.
pub proof fn digits_of_both_cases_count(c: char)
    ensures
        '0' <= c <= '9' ==> digit_number(c) == Some((c as int - '0' as int) as nat),
        'a' <= c <= 'f' ==> digit_number(c) == Some((c as int - 'a' as int + 10) as nat),
        'A' <= c <= 'F' ==> digit_number(c) == Some((c as int - 'A' as int + 10) as nat),
        digit_number(c) matches Some(n) ==> n < 16,
        digit_number('g') is None && digit_number('/') is None && digit_number(':') is None
            && digit_number('@') is None && digit_number('`') is None && digit_number('G') is None,
{
}

/// The home of the machine's own user stands for itself.
pub proof fn homes_are_not_quoted()
    ensures
        quoted("~"@) == "\"$HOME\""@,
{
    reveal_strlit("");
}

/// A preview fails for one of three reasons.
pub proof fn previews_fail_for_known_reasons(error: Seq<char>)
    ensures
        known_error("SSH connection unavailable"@),
        known_error("Cloud HTTP server unavailable"@),
        known_error("Local preview port unavailable"@),
        known_error(error) ==> error == "SSH connection unavailable"@ || error
            == "Cloud HTTP server unavailable"@ || error == "Local preview port unavailable"@,
{
}

/// The places of Cursor and Pi lie in the account's home, or in the home that was set up.
pub proof fn more_places_lie_where_they_belong(h: HomesView, own: Seq<char>)
    requires
        h.word.len() > 0,
        h.word[0] != 'c' && h.word[0] != 'p',
    ensures
        place("skills-cursor"@, h) matches Some(p) && p.root == below(h.account, ".cursor/skills"@)
            && p.kind == "skills"@,
        place("rules-cursor"@, h) matches Some(p) && p.root == below(h.account, ".cursor/rules"@)
            && p.kind == "skills"@,
        place("settings-cursor"@, h) matches Some(p) && p.root == below(h.account, ".cursor"@) && p.kind
            == "cursor"@ && p.filename == Some("cli-config.json"@),
        h.pi == Some(own) ==> (place("settings-pi"@, h) matches Some(p) && p.root == own && p.kind
            == "pi"@ && p.filename == Some("settings.json"@)),
        h.pi is None ==> (place("skills-pi"@, h) matches Some(p) && p.root == below(
            below(h.account, ".pi/agent"@),
            "skills"@,
        )),
        failed(409).message == "sync conflict; originals preserved"@,
        failed(503).message == "sync unavailable; check setup, paths, and storage"@,
        attachable(true).field("images"@) == Data::Bool(true),
        attachable(false).field("images"@) == Data::Bool(false),
        attachable(false).field("files"@) == Data::Bool(true),
{
    saying_words();
    let shared = super::product::skills_place(h.word);
    reveal_strlit("skills-");
    reveal_strlit("skills-cursor");
    reveal_strlit("rules-cursor");
    reveal_strlit("settings-cursor");
    reveal_strlit("settings-pi");
    assert(shared.len() == 7 + h.word.len());
    assert(shared[7] == h.word[0]);
    assert(shared[0] == 's' && shared[1] == 'k');
    assert("skills-cursor"@[7] == 'c');
    assert("rules-cursor"@[0] == 'r');
    assert("settings-cursor"@[1] == 'e');
    assert("settings-pi"@[1] == 'e');
}

} // verus!
