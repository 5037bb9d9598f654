//! Accounts: the state of a login, and the login of Codex.
use super::codex::opt_json;
use super::helper::{check_made, not_made};
use super::{record_event, Event, EventView};
use crate::fault::{other, Fault, FaultKind, FaultView};
use crate::json::{object, Data, Json, Number, Numeral};
use crate::text::{
    all_in, all_text_in, byte_len, chars_of, contains, holds, lowered, opt, opt_copy, opt_owned,
    opt_str, same, size, to_lower, Class,
};
use vstd::prelude::*;

verus! {

/// How long a login may take, in milliseconds.
pub const LOGIN_LIFETIME: u64 = 600000;

/// How long a check of an account counts, in milliseconds.
pub const CHECK_LIFETIME: u64 = 15000;

/// The state of an account, as it is shown.
#[derive(Debug)]
pub struct Status {
    pub state: &'static str,
    pub email: Option<String>,
    pub plan: Option<String>,
    pub message: Option<String>,
    pub login_id: Option<String>,
    pub verification_url: Option<String>,
    pub user_code: Option<String>,
}

/// The mathematical value of the state of an account.
pub struct StatusView {
    pub state: Seq<char>,
    pub email: Option<Seq<char>>,
    pub plan: Option<Seq<char>>,
    pub message: Option<Seq<char>>,
    pub login_id: Option<Seq<char>>,
    pub verification_url: Option<Seq<char>>,
    pub user_code: Option<Seq<char>>,
}

impl View for Status {
    type V = StatusView;

    open spec fn view(&self) -> StatusView {
        StatusView {
            state: self.state@,
            email: opt(self.email),
            plan: opt(self.plan),
            message: opt(self.message),
            login_id: opt(self.login_id),
            verification_url: opt(self.verification_url),
            user_code: opt(self.user_code),
        }
    }
}

/// A state with its message, and nothing more.
pub open spec fn plain_status(state: Seq<char>, message: Option<Seq<char>>) -> StatusView {
    StatusView {
        state,
        message,
        email: None,
        plan: None,
        login_id: None,
        verification_url: None,
        user_code: None,
    }
}

impl Status {
    /// A state with its message, and nothing more.
    pub fn new(state: &'static str, message: Option<&str>) -> (r: Status)
        ensures
            r@ == plain_status(state@, opt_str(message)),
    {
        Status {
            state,
            message: opt_owned(message),
            email: None,
            plan: None,
            login_id: None,
            verification_url: None,
            user_code: None,
        }
    }

    /// A copy.
    pub fn duplicate(&self) -> (r: Status)
        ensures
            r@ == self@,
    {
        Status {
            state: self.state,
            message: opt_copy(&self.message),
            email: opt_copy(&self.email),
            plan: opt_copy(&self.plan),
            login_id: opt_copy(&self.login_id),
            verification_url: opt_copy(&self.verification_url),
            user_code: opt_copy(&self.user_code),
        }
    }
}

/// The time that has passed, in milliseconds.
pub open spec fn passed(now: u64, then: u64) -> int {
    if now < then {
        0
    } else {
        now - then
    }
}

/// The time that has passed, in milliseconds.
pub fn since(now: u64, then: u64) -> (r: u64)
    ensures
        r == passed(now, then),
{
    if now < then {
        0
    } else {
        now - then
    }
}

// Saved logins of Codex.

/// A string that says something.
pub open spec fn filled(value: Data) -> bool {
    match value {
        Data::Text(t) => t.len() > 0,
        _ => false,
    }
}

/// A saved login is one of ChatGPT.
pub open spec fn is_chatgpt(value: Data) -> bool {
    (value.get("auth_mode"@) is Some ==> value.field("auth_mode"@).is_text("chatgpt"@)) && (
    value.get("OPENAI_API_KEY"@) is Some ==> value.field("OPENAI_API_KEY"@) is Null)
}

/// A saved login of Codex in the form it is imported, if it is complete. Nothing else of the file
/// is taken over.
pub open spec fn credentials_in(value: Data) -> Option<Data> {
    let tokens = value.field("tokens"@);
    if is_chatgpt(value) && filled(tokens.field("id_token"@)) && filled(
        tokens.field("access_token"@),
    ) && filled(tokens.field("refresh_token"@)) && filled(tokens.field("account_id"@)) {
        let plain = Data::Object(
            map![
                "auth_mode"@ => Data::Text("chatgpt"@),
                "OPENAI_API_KEY"@ => Data::Null,
                "tokens"@ => Data::Object(
                    map![
                        "id_token"@ => tokens.field("id_token"@),
                        "access_token"@ => tokens.field("access_token"@),
                        "refresh_token"@ => tokens.field("refresh_token"@),
                        "account_id"@ => tokens.field("account_id"@)
                    ],
                )
            ],
        );
        Some(
            if value.field("last_refresh"@) is Text {
                plain.with("last_refresh"@, value.field("last_refresh"@))
            } else {
                plain
            },
        )
    } else {
        None
    }
}

fn is_filled(value: &Json) -> (r: bool)
    ensures
        r == filled(value@),
{
    match value.as_text() {
        Some(t) => chars_of(t).len() > 0,
        None => false,
    }
}

/// A saved login of Codex in the form it is imported, if it is complete.
pub fn credentials(value: &Json) -> (r: Option<Json>)
    ensures
        opt_json(r) == credentials_in(value@),
{
    if let Some(mode) = value.get("auth_mode") {
        if !mode.is_text("chatgpt") {
            return None;
        }
    }
    if let Some(key) = value.get("OPENAI_API_KEY") {
        if !key.is_null() {
            return None;
        }
    }
    let tokens = value.field("tokens");
    if !is_filled(tokens.field("id_token")) || !is_filled(tokens.field("access_token"))
        || !is_filled(tokens.field("refresh_token")) || !is_filled(tokens.field("account_id")) {
        return None;
    }
    let kept = object().with("id_token", tokens.field("id_token").duplicate()).with(
        "access_token",
        tokens.field("access_token").duplicate(),
    ).with("refresh_token", tokens.field("refresh_token").duplicate()).with(
        "account_id",
        tokens.field("account_id").duplicate(),
    );
    let mut result = Json::Object(
        object().with_text("auth_mode", "chatgpt").with("OPENAI_API_KEY", Json::Null).with(
            "tokens",
            Json::Object(kept),
        ),
    );
    let refreshed = value.field("last_refresh");
    if refreshed.as_text().is_some() {
        result.put("last_refresh", refreshed.duplicate());
    }
    Some(result)
}

// Answers of Codex about an account.

/// What is told of a line: a login has ended.
pub open spec fn login_event(value: Data) -> Option<EventView> {
    if value.field("method"@).is_text("account/login/completed"@) {
        Some(
            record_event(
                "login_completed"@,
                Data::Object(
                    map![
                        "id"@ => value.field("params"@).field("loginId"@),
                        "success"@ => value.field("params"@).field("success"@)
                    ],
                ),
            ),
        )
    } else {
        None
    }
}

/// What is told of a line: a login has ended.
pub fn receive(value: &Json) -> (r: Option<Event>)
    ensures
        super::opt_event(r) == login_event(value@),
{
    if !value.field_is("method", "account/login/completed") {
        return None;
    }
    let params = value.field("params");
    Some(
        Event::record(
            "login_completed",
            Json::Object(
                object().with("id", params.field("loginId").duplicate()).with(
                    "success",
                    params.field("success").duplicate(),
                ),
            ),
        ),
    )
}

/// The message means that the account is not signed in.
pub open spec fn means_signed_out(message: Seq<char>) -> bool {
    let m = lowered(message);
    ||| holds(m, "401"@)
    ||| holds(m, "unauthorized"@)
    ||| holds(m, "not logged in"@)
    ||| holds(m, "not authenticated"@)
    ||| holds(m, "refresh token"@)
    ||| holds(m, "authentication token"@)
}

/// The answer that a line is. That the account is not signed in is told apart.
pub open spec fn answer_in(value: Data) -> Option<(u64, Result<Data, FaultView>)> {
    if value.get("method"@) is Some {
        None
    } else {
        match value.field("id"@).as_u64() {
            None => None,
            Some(id) => Some(
                (
                    id,
                    match value.get("error"@) {
                        Some(error) => Err(
                            FaultView {
                                kind: if means_signed_out(
                                    error.field("message"@).text_or_empty(),
                                ) {
                                    FaultKind::PermissionDenied
                                } else {
                                    FaultKind::Other
                                },
                                message: "Codex account check failed"@,
                            },
                        ),
                        None => Ok(value.field("result"@)),
                    },
                ),
            ),
        }
    }
}

/// The answer that a line is.
pub fn response(value: &Json) -> (r: Option<(u64, Result<Json, Fault>)>)
    ensures
        super::codex::answer_view(r) == answer_in(value@),
{
    if value.get("method").is_some() {
        return None;
    }
    let id = match value.field("id").as_u64() {
        Some(id) => id,
        None => {
            return None;
        },
    };
    match value.get("error") {
        None => Some((id, Ok(value.field("result").duplicate()))),
        Some(error) => {
            let m = to_lower(error.field("message").text_or_empty());
            let text = m.as_str();
            let signed_out = contains(text, "401") || contains(text, "unauthorized") || contains(
                text,
                "not logged in",
            ) || contains(text, "not authenticated") || contains(text, "refresh token")
                || contains(text, "authentication token");
            let kind = if signed_out {
                FaultKind::PermissionDenied
            } else {
                FaultKind::Other
            };
            Some(
                (
                    id,
                    Err(Fault { kind, message: "Codex account check failed".to_owned() }),
                ),
            )
        },
    }
}

/// The state that an answer about the account means. For an account of ChatGPT, its limits are
/// asked for first.
pub open spec fn account_state(result: Data) -> Result<Option<StatusView>, FaultView> {
    let account = result.field("account"@);
    if account is Null {
        if result.field("requiresOpenaiAuth"@).is_false() {
            Ok(
                Some(
                    plain_status(
                        "connected"@,
                        Some("Using the configured inference provider."@),
                    ),
                ),
            )
        } else if result.field("requiresOpenaiAuth"@).is_true() {
            Ok(
                Some(
                    plain_status(
                        "missing"@,
                        Some("Connect your ChatGPT subscription to use Codex in Cloud."@),
                    ),
                ),
            )
        } else {
            Err(other("Invalid account response"@))
        }
    } else if !account.field("type"@).is_text("chatgpt"@) {
        Ok(Some(plain_status("connected"@, Some("Using the configured inference provider."@))))
    } else {
        Ok(None)
    }
}

/// The number is a hundred or more.
pub open spec fn hundred(value: Data) -> bool {
    match value {
        Data::Number(Number::Unsigned(n)) => n >= 100,
        // Doubles from zero up are ordered as their bits are; these are the bits of a hundred.
        Data::Number(Number::Double(bits)) => 0x4059_0000_0000_0000 <= bits < 0x8000_0000_0000_0000,
        _ => false,
    }
}

/// The account has used up a limit.
pub open spec fn exhausted(limit: Data) -> bool {
    hundred(limit.field("primary"@).field("usedPercent"@)) || hundred(
        limit.field("secondary"@).field("usedPercent"@),
    )
}

/// The state of an account of ChatGPT with its limits.
pub open spec fn limited_state(account: Data, limits: Data) -> Result<StatusView, FaultView> {
    match limits.get("rateLimits"@) {
        None => Err(other("Missing live account limits"@)),
        Some(limit) => Ok(
            StatusView {
                email: account.field("email"@).as_text(),
                plan: account.field("planType"@).as_text(),
                ..if exhausted(limit) {
                    plain_status(
                        "limited"@,
                        Some(
                            "Your Codex usage limit is reached. Sign in with another ChatGPT account to keep working, or wait for it to reset."@,
                        ),
                    )
                } else {
                    plain_status("connected"@, None)
                }
            },
        ),
    }
}

/// The view of a result about an account.
pub open spec fn status_result(r: Result<Status, Fault>) -> Result<StatusView, FaultView> {
    match r {
        Ok(s) => Ok(s@),
        Err(f) => Err(f@),
    }
}

/// The state that an answer about the account means, if the limits need not be asked for.
pub fn read_account(result: &Json) -> (r: Result<Option<Status>, Fault>)
    ensures
        match r {
            Ok(Some(s)) => account_state(result@) == Ok::<Option<StatusView>, FaultView>(
                Some(s@),
            ),
            Ok(None) => account_state(result@) == Ok::<Option<StatusView>, FaultView>(None),
            Err(f) => account_state(result@) == Err::<Option<StatusView>, FaultView>(f@),
        },
{
    let account = result.field("account");
    if account.is_null() {
        let required = result.field("requiresOpenaiAuth");
        if required.is_false() {
            return Ok(
                Some(
                    Status::new("connected", Some("Using the configured inference provider.")),
                ),
            );
        }
        if required.is_true() {
            return Ok(
                Some(
                    Status::new(
                        "missing",
                        Some("Connect your ChatGPT subscription to use Codex in Cloud."),
                    ),
                ),
            );
        }
        return Err(Fault::other("Invalid account response"));
    }
    if !account.field_is("type", "chatgpt") {
        return Ok(
            Some(Status::new("connected", Some("Using the configured inference provider."))),
        );
    }
    Ok(None)
}

fn is_hundred(value: &Json) -> (r: bool)
    ensures
        r == hundred(value@),
{
    match value {
        Json::Number(Numeral::Unsigned(n)) => *n >= 100,
        Json::Number(Numeral::Double(d)) => {
            let bits = d.bits();
            0x4059_0000_0000_0000 <= bits && bits < 0x8000_0000_0000_0000
        },
        _ => false,
    }
}

/// The state of an account of ChatGPT with its limits.
pub fn read_limits(account: &Json, limits: &Json) -> (r: Result<Status, Fault>)
    ensures
        status_result(r) == limited_state(account@, limits@),
{
    let limit = match limits.get("rateLimits") {
        Some(limit) => limit,
        None => {
            return Err(Fault::other("Missing live account limits"));
        },
    };
    let full = is_hundred(limit.field("primary").field("usedPercent")) || is_hundred(
        limit.field("secondary").field("usedPercent"),
    );
    let mut status = if full {
        Status::new(
            "limited",
            Some(
                "Your Codex usage limit is reached. Sign in with another ChatGPT account to keep working, or wait for it to reset.",
            ),
        )
    } else {
        Status::new("connected", None)
    };
    status.email = opt_owned(account.field_text("email"));
    status.plan = opt_owned(account.field_text("planType"));
    Ok(status)
}

/// The state that a failed check means.
pub open spec fn failed_state(fault: FaultView) -> StatusView {
    if fault.kind == FaultKind::PermissionDenied {
        plain_status(
            "missing"@,
            Some("Your Codex login is missing or expired. Sign in again."@),
        )
    } else {
        plain_status(
            "unavailable"@,
            Some("Could not verify Codex. Check the connection and try again."@),
        )
    }
}

/// The state that a failed check means.
pub fn failure(fault: &Fault) -> (r: Status)
    ensures
        r@ == failed_state(fault@),
{
    if fault.kind == FaultKind::PermissionDenied {
        Status::new("missing", Some("Your Codex login is missing or expired. Sign in again."))
    } else {
        Status::new(
            "unavailable",
            Some("Could not verify Codex. Check the connection and try again."),
        )
    }
}

/// What a new login is known by: its identity, where to go, and the code to enter there.
pub open spec fn login_in(result: Data) -> Result<(Seq<char>, Seq<char>, Seq<char>), FaultView> {
    if !filled(result.field("loginId"@)) {
        Err(other("Missing login ID"@))
    } else if !result.field("verificationUrl"@).is_text("https://auth.openai.com/codex/device"@) {
        Err(other("Unexpected login URL"@))
    } else {
        match result.field("userCode"@).as_text() {
            None => Err(other("Invalid login code"@)),
            Some(code) => if code.len() > 0 && byte_len(code) <= 32 && all_in(
                code,
                Class::Alnum,
                "-"@,
            ) {
                Ok(
                    (
                        result.field("loginId"@).text_or_empty(),
                        "https://auth.openai.com/codex/device"@,
                        code,
                    ),
                )
            } else {
                Err(other("Invalid login code"@))
            },
        }
    }
}

/// A login that was begun.
#[derive(Debug)]
pub struct Started {
    pub native_id: String,
    pub url: String,
    pub code: String,
}

/// The view of a login that was begun.
pub open spec fn started_view(s: Started) -> (Seq<char>, Seq<char>, Seq<char>) {
    (s.native_id@, s.url@, s.code@)
}

/// What a new login is known by. A login leads to one place only.
pub fn read_login(result: &Json) -> (r: Result<Started, Fault>)
    ensures
        match r {
            Ok(s) => login_in(result@) == Ok::<(Seq<char>, Seq<char>, Seq<char>), FaultView>(
                started_view(s),
            ),
            Err(f) => login_in(result@) == Err::<(Seq<char>, Seq<char>, Seq<char>), FaultView>(
                f@,
            ),
        },
{
    if !is_filled(result.field("loginId")) {
        return Err(Fault::other("Missing login ID"));
    }
    if !result.field_is("verificationUrl", "https://auth.openai.com/codex/device") {
        return Err(Fault::other("Unexpected login URL"));
    }
    match result.field_text("userCode") {
        None => Err(Fault::other("Invalid login code")),
        Some(code) => if chars_of(code).len() > 0 && size(code) <= 32 && all_text_in(
            code,
            Class::Alnum,
            "-",
        ) {
            Ok(
                Started {
                    native_id: result.field("loginId").text_or_empty().to_owned(),
                    url: "https://auth.openai.com/codex/device".to_owned(),
                    code: code.to_owned(),
                },
            )
        } else {
            Err(Fault::other("Invalid login code"))
        },
    }
}

// The login of Codex.

/// A login that waits for the user.
#[derive(Debug)]
pub struct Login {
    pub request: String,
    pub native_id: String,
    pub started: u64,
}

/// The mathematical value of a login that waits.
pub struct LoginView {
    pub request: Seq<char>,
    pub native_id: Seq<char>,
    pub started: u64,
}

impl View for Login {
    type V = LoginView;

    open spec fn view(&self) -> LoginView {
        LoginView { request: self.request@, native_id: self.native_id@, started: self.started }
    }
}

/// The account of Codex.
#[derive(Debug)]
pub struct CodexAuth {
    pub status: Status,
    pub checked: Option<u64>,
    pub login: Option<Login>,
    /// A login has ended that the sessions have not been told of.
    pub switched: bool,
}

/// The mathematical value of the account of Codex.
pub struct CodexAuthView {
    pub status: StatusView,
    pub checked: Option<u64>,
    pub login: Option<LoginView>,
    pub switched: bool,
}

/// The view of an optional login.
pub open spec fn opt_login(login: Option<Login>) -> Option<LoginView> {
    match login {
        Some(l) => Some(l@),
        None => None,
    }
}

impl View for CodexAuth {
    type V = CodexAuthView;

    open spec fn view(&self) -> CodexAuthView {
        CodexAuthView {
            status: self.status@,
            checked: self.checked,
            login: opt_login(self.login),
            switched: self.switched,
        }
    }
}

/// What is to be found out about an account.
#[derive(Clone, Copy, PartialEq, Eq, Structural, Debug)]
pub enum Check {
    /// Nothing: what is known counts.
    Keep,
    /// The login has succeeded: the account is looked at through it.
    Login,
    /// The login has failed.
    Failed,
    /// The login has taken too long, or its process has ended: it is cancelled.
    Expired,
    /// The account is looked at.
    Account,
}

/// What is to be found out about the account.
pub open spec fn wanted_check(
    a: CodexAuthView,
    now: u64,
    refresh: bool,
    completed: Data,
    disconnected: bool,
) -> Check {
    match a.login {
        Some(login) => if completed.field("id"@).is_text(login.native_id) {
            if completed.field("success"@).is_true() {
                Check::Login
            } else {
                Check::Failed
            }
        } else if passed(now, login.started) >= LOGIN_LIFETIME || disconnected {
            Check::Expired
        } else {
            Check::Keep
        },
        None => if refresh || match a.checked {
            Some(at) => passed(now, at) > CHECK_LIFETIME,
            None => true,
        } {
            Check::Account
        } else {
            Check::Keep
        },
    }
}

/// The state that a look at the account means.
pub open spec fn probed(probe: Result<StatusView, FaultView>) -> StatusView {
    match probe {
        Ok(status) => status,
        Err(fault) => failed_state(fault),
    }
}

/// The account once it was checked.
pub open spec fn checked(
    a: CodexAuthView,
    check: Check,
    probe: Result<StatusView, FaultView>,
    now: u64,
) -> CodexAuthView {
    match check {
        Check::Keep => a,
        Check::Login => CodexAuthView {
            status: probed(probe),
            switched: probed(probe).state == "connected"@,
            login: None,
            checked: Some(now),
        },
        Check::Failed => CodexAuthView {
            status: plain_status("error"@, Some("Sign-in was not completed. Try again."@)),
            login: None,
            checked: Some(now),
            ..a
        },
        Check::Expired => CodexAuthView {
            status: plain_status("expired"@, Some("Sign-in expired. Try again."@)),
            login: None,
            checked: Some(now),
            ..a
        },
        Check::Account => CodexAuthView { status: probed(probe), checked: Some(now), ..a },
    }
}

/// A login may be begun.
pub open spec fn may_login(a: CodexAuthView) -> bool {
    a.login is None && a.status.state != "connected"@ && a.status.state != "unavailable"@
}

/// A saved login may be imported.
pub open spec fn may_import(a: CodexAuthView) -> bool {
    a.login is None && (a.status.state == "missing"@ || a.status.state == "error"@ || a.status.state
        == "expired"@)
}

/// The account once a login was begun, or could not be.
pub open spec fn login_begun(
    a: CodexAuthView,
    request: Seq<char>,
    attempt: Result<(Seq<char>, Seq<char>, Seq<char>), FaultView>,
    now: u64,
) -> CodexAuthView {
    match attempt {
        Ok((native_id, url, code)) => CodexAuthView {
            status: StatusView {
                login_id: Some(request),
                verification_url: Some(url),
                user_code: Some(code),
                ..plain_status(
                    "waiting"@,
                    Some("Finish signing in with OpenAI, then return here."@),
                )
            },
            login: Some(LoginView { request, native_id, started: now }),
            ..a
        },
        Err(_) => CodexAuthView {
            status: plain_status(
                "error"@,
                Some(
                    "Could not start sign-in. Enable device-code login in ChatGPT security settings and try again."@,
                ),
            ),
            ..a
        },
    }
}

/// The account once a login was cancelled. Only the login that is named is.
pub open spec fn login_cancelled(a: CodexAuthView, request: Seq<char>) -> CodexAuthView {
    match a.login {
        Some(login) => if login.request == request {
            CodexAuthView {
                login: None,
                checked: None,
                status: plain_status(
                    "missing"@,
                    Some("Sign-in cancelled. Your task has not been sent."@),
                ),
                ..a
            }
        } else {
            a
        },
        None => a,
    }
}

impl CodexAuth {
    /// Nothing is known of the account.
    pub fn new() -> (r: CodexAuth)
        ensures
            r@ == (CodexAuthView {
                status: plain_status("missing"@, None),
                checked: None,
                login: None,
                switched: false,
            }),
    {
        CodexAuth {
            status: Status::new("missing", None),
            checked: None,
            login: None,
            switched: false,
        }
    }

    /// What is to be found out about the account. `completed` is what the harness told of a login,
    /// or null.
    pub fn inspect(&self, now: u64, refresh: bool, completed: &Json, disconnected: bool) -> (r: Check)
        ensures
            r == wanted_check(self@, now, refresh, completed@, disconnected),
    {
        match &self.login {
            Some(login) => if completed.field_is("id", login.native_id.as_str()) {
                if completed.field("success").is_true() {
                    Check::Login
                } else {
                    Check::Failed
                }
            } else if since(now, login.started) >= LOGIN_LIFETIME || disconnected {
                Check::Expired
            } else {
                Check::Keep
            },
            None => {
                let stale = match self.checked {
                    Some(at) => since(now, at) > CHECK_LIFETIME,
                    None => true,
                };
                if refresh || stale {
                    Check::Account
                } else {
                    Check::Keep
                }
            },
        }
    }

    /// Notes what was found out about the account.
    pub fn settle(&mut self, check: Check, probe: Result<Status, Fault>, now: u64)
        ensures
            final(self)@ == checked(old(self)@, check, status_result(probe), now),
    {
        match check {
            Check::Keep => {},
            Check::Login => {
                self.status = look(probe);
                self.switched = same(self.status.state, "connected");
                self.login = None;
                self.checked = Some(now);
            },
            Check::Failed => {
                self.status = Status::new("error", Some("Sign-in was not completed. Try again."));
                self.login = None;
                self.checked = Some(now);
            },
            Check::Expired => {
                self.status = Status::new("expired", Some("Sign-in expired. Try again."));
                self.login = None;
                self.checked = Some(now);
            },
            Check::Account => {
                self.status = look(probe);
                self.checked = Some(now);
            },
        }
    }

    /// Whether a login may be begun.
    pub fn may_login(&self) -> (r: bool)
        ensures
            r == may_login(self@),
    {
        self.login.is_none() && !same(self.status.state, "connected") && !same(
            self.status.state,
            "unavailable",
        )
    }

    /// Whether a saved login may be imported.
    pub fn may_import(&self) -> (r: bool)
        ensures
            r == may_import(self@),
    {
        self.login.is_none() && (same(self.status.state, "missing") || same(
            self.status.state,
            "error",
        ) || same(self.status.state, "expired"))
    }

    /// A saved login was imported, and the account looked at again.
    pub fn imported(&mut self)
        ensures
            final(self)@ == (CodexAuthView {
                switched: old(self)@.status.state == "connected"@,
                ..old(self)@
            }),
    {
        self.switched = same(self.status.state, "connected");
    }

    /// What is shown where a saved login was not imported: it is not complete, or it could not be
    /// copied.
    pub fn not_imported(complete: bool) -> (r: Status)
        ensures
            r@ == if complete {
                plain_status(
                    "unavailable"@,
                    Some(
                        "Could not copy the saved Codex login. Check cloud storage and try again."@,
                    ),
                )
            } else {
                plain_status(
                    "error"@,
                    Some("Saved Codex login is invalid. Sign in with ChatGPT."@),
                )
            },
    {
        if complete {
            Status::new(
                "unavailable",
                Some("Could not copy the saved Codex login. Check cloud storage and try again."),
            )
        } else {
            Status::new("error", Some("Saved Codex login is invalid. Sign in with ChatGPT."))
        }
    }

    /// A login was begun, or could not be.
    pub fn begin(&mut self, request: &str, attempt: Result<Started, Fault>, now: u64)
        ensures
            final(self)@ == login_begun(
                old(self)@,
                request@,
                match attempt {
                    Ok(s) => Ok(started_view(s)),
                    Err(f) => Err(f@),
                },
                now,
            ),
    {
        match attempt {
            Ok(started) => {
                let mut status = Status::new(
                    "waiting",
                    Some("Finish signing in with OpenAI, then return here."),
                );
                status.login_id = Some(request.to_owned());
                status.verification_url = Some(started.url);
                status.user_code = Some(started.code);
                self.status = status;
                self.login = Some(
                    Login {
                        request: request.to_owned(),
                        native_id: started.native_id,
                        started: now,
                    },
                );
            },
            Err(_) => {
                self.status = Status::new(
                    "error",
                    Some(
                        "Could not start sign-in. Enable device-code login in ChatGPT security settings and try again.",
                    ),
                );
            },
        }
    }

    /// Cancels a login. Gives what the harness knows it by, if it was the one that waits.
    pub fn cancel(&mut self, request: &str) -> (r: Option<String>)
        ensures
            final(self)@ == login_cancelled(old(self)@, request@),
            opt(r) == match old(self)@.login {
                Some(login) => if login.request == request@ {
                    Some(login.native_id)
                } else {
                    None
                },
                None => None,
            },
    {
        let named: Option<String> = match &self.login {
            Some(login) => if same(login.request.as_str(), request) {
                Some(login.native_id.clone())
            } else {
                None
            },
            None => None,
        };
        if named.is_some() {
            self.login = None;
            self.checked = None;
            self.status = Status::new(
                "missing",
                Some("Sign-in cancelled. Your task has not been sent."),
            );
        }
        named
    }

    /// Whether a login has ended that the sessions have not been told of. They are told once.
    pub fn take_switched(&mut self) -> (r: bool)
        ensures
            r == old(self)@.switched,
            final(self)@ == (CodexAuthView { switched: false, ..old(self)@ }),
    {
        let switched = self.switched;
        self.switched = false;
        switched
    }
}

/// The calls about an account.
#[derive(Clone, Copy, PartialEq, Eq, Structural, Debug)]
pub enum AccountCall {
    /// The account is looked at.
    Read,
    /// How much of it is used is looked at.
    Limits,
    /// A login is begun.
    Login,
}

/// A call about an account, and its parameters.
pub open spec fn account_call(call: AccountCall) -> (Seq<char>, Data) {
    match call {
        AccountCall::Read => (
            "account/read"@,
            Data::Object(map!["refreshToken"@ => Data::Bool(false)]),
        ),
        AccountCall::Limits => ("account/rateLimits/read"@, Data::Object(Map::empty())),
        AccountCall::Login => (
            "account/login/start"@,
            Data::Object(map!["type"@ => Data::Text("chatgptDeviceCode"@)]),
        ),
    }
}

impl AccountCall {
    /// The call, and its parameters.
    pub fn frame(self) -> (r: (&'static str, Json))
        ensures
            ({
                let (method, params) = r;
                (method@, params@) == account_call(self)
            }),
    {
        match self {
            AccountCall::Read => (
                "account/read",
                Json::Object(object().with("refreshToken", Json::Bool(false))),
            ),
            AccountCall::Limits => ("account/rateLimits/read", Json::Object(object())),
            AccountCall::Login => (
                "account/login/start",
                Json::Object(object().with_text("type", "chatgptDeviceCode")),
            ),
        }
    }
}

/// The parameters of a call that cancels a login.
pub fn cancel_params(native_id: &str) -> (r: Json)
    ensures
        r@ == Data::Object(map!["loginId"@ => Data::Text(native_id@)]),
{
    Json::Object(object().with_text("loginId", native_id))
}

/// What the helper that keeps files is asked for a saved login: to put it in the place of Codex, which
/// is made where it is missing.
pub fn import_request(home: &str, credentials: &Json) -> (r: Json)
    ensures
        r@ == Data::Object(
            map![
                "op"@ => Data::Text("import_auth"@),
                "tree"@ => Data::Object(
                    map![
                        "root"@ => Data::Text(home@),
                        "kind"@ => Data::Text("auth"@),
                        "filename"@ => Data::Text("auth.json"@),
                        "create"@ => Data::Bool(true)
                    ],
                ),
                "credentials"@ => credentials@
            ],
        ),
{
    let tree = object().with_text("root", home).with_text("kind", "auth").with_text(
        "filename",
        "auth.json",
    ).with("create", Json::Bool(true));
    Json::Object(
        object().with_text("op", "import_auth").with("tree", Json::Object(tree)).with(
            "credentials",
            credentials.duplicate(),
        ),
    )
}

/// Whether the helper has put a saved login in its place: it ended well and told so.
pub fn read_import(success: bool, stdout: &[u8]) -> (r: Result<(), Fault>)
    ensures
        match r {
            Ok(_) => not_made(success, stdout@, "Codex login import failed"@) is None,
            Err(f) => not_made(success, stdout@, "Codex login import failed"@) == Some(f@),
        },
{
    check_made(success, stdout, "Codex login import failed")
}

fn look(probe: Result<Status, Fault>) -> (r: Status)
    ensures
        r@ == probed(status_result(probe)),
{
    match probe {
        Ok(status) => status,
        Err(fault) => failure(&fault),
    }
}

/// A login that waits is not replaced by another one.
pub proof fn one_login_at_a_time(a: CodexAuthView)
    requires
        a.login is Some,
    ensures
        !may_login(a),
        !may_import(a),
{
}

/// A login ends: after its lifetime nothing waits for it any more.
pub proof fn logins_end(
    a: CodexAuthView,
    now: u64,
    refresh: bool,
    completed: Data,
    disconnected: bool,
    probe: Result<StatusView, FaultView>,
)
    requires
        a.login is Some,
        passed(now, a.login->0.started) >= LOGIN_LIFETIME,
    ensures
        checked(a, wanted_check(a, now, refresh, completed, disconnected), probe, now).login
            is None,
{
}

} // verus!
