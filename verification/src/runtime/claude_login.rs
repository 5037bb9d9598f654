//! The login of claude_code.
use super::auth::{passed, plain_status, since, CHECK_LIFETIME, LOGIN_LIFETIME, Status, StatusView};
use super::codex::answer_view;
use super::product::{pages_of, sign_in_pages, Product};
use crate::fault::{other, Fault, FaultKind, FaultView};
use crate::json::{object, opt_text, Data, Json};
use crate::text::{
    begins, byte_len, concat, concat3, decimal, decimal_of, number, opt_str, parse_u64, push_text, same,
    size, starts_with, views,
};
use vstd::prelude::*;

verus! {

/// The frame of a call.
pub fn encode(id: u64, method: &str, params: Json) -> (r: Json)
    requires
        params@.takes_fields(),
    ensures
        r@ == Data::Object(
            map![
                "type"@ => Data::Text("control_request"@),
                "request_id"@ => Data::Text(decimal(id as nat)),
                "request"@ => params@.with("subtype"@, Data::Text(method@))
            ],
        ),
{
    let mut body = params;
    body.put("subtype", Json::text(method));
    Json::Object(
        object().with_text("type", "control_request").with_text(
            "request_id",
            decimal_of(id).as_str(),
        ).with("request", body),
    )
}

/// The answer that a line is.
pub open spec fn answer_in(
    value: Data,
    product: Seq<char>,
) -> Option<(u64, Result<Data, FaultView>)> {
    let response = value.field("response"@);
    if !value.field("type"@).is_text("control_response"@) {
        None
    } else {
        match response.field("request_id"@).as_text() {
            None => None,
            Some(id) => match number(id, u64::MAX as nat) {
                None => None,
                Some(n) => Some(
                    (
                        n as u64,
                        if response.field("subtype"@).is_text("success"@) {
                            Ok(response.field("response"@))
                        } else {
                            Err(other(product + " could not complete sign-in"@))
                        },
                    ),
                ),
            },
        }
    }
}

/// The answer that a line is.
pub fn response(value: &Json, product: &Product) -> (r: Option<(u64, Result<Json, Fault>)>)
    ensures
        answer_view(r) == answer_in(value@, product.name@),
{
    if !value.field_is("type", "control_response") {
        return None;
    }
    let response = value.field("response");
    let id: Option<u64> = match response.field_text("request_id") {
        Some(id) => parse_u64(id),
        None => None,
    };
    match id {
        None => None,
        Some(id) => Some(
            (
                id,
                if response.field_is("subtype", "success") {
                    Ok(response.field("response").duplicate())
                } else {
                    Err(
                        Fault::other(
                            concat(product.name.as_str(), " could not complete sign-in").as_str(),
                        ),
                    )
                },
            ),
        ),
    }
}

/// A place to sign in at: below one of the pages that are known.
pub open spec fn sign_in_url(url: Seq<char>, pages: Seq<Seq<char>>) -> bool {
    byte_len(url) <= 8192 && exists|i: int| 0 <= i < pages.len() && begins(url, #[trigger] pages[i])
}

fn is_sign_in_url(url: &str, pages: &Vec<String>) -> (r: bool)
    ensures
        r == sign_in_url(url@, views(pages@)),
{
    let ghost all = views(pages@);
    if size(url) > 8192 {
        return false;
    }
    let mut i: usize = 0;
    while i < pages.len()
        invariant
            i <= pages.len(),
            all == views(pages@),
            byte_len(url@) <= 8192,
            forall|j: int| 0 <= j < i ==> !begins(url@, #[trigger] all[j]),
        decreases pages.len() - i,
    {
        assert(all[i as int] == pages@[i as int]@);
        if starts_with(url, pages[i].as_str()) {
            assert(begins(url@, views(pages@)[i as int]));
            return true;
        }
        i += 1;
    }
    false
}

/// The place to sign in at, if the answer names one below a page of the product.
pub fn read_url(info: &Json, product: &Product) -> (r: Result<String, Fault>)
    ensures
        match r {
            Ok(url) => info@.field("manualUrl"@).is_text(url@) && sign_in_url(
                url@,
                pages_of(product.word@),
            ),
            Err(f) => f@ == other(
                "Unexpected "@ + product.name@ + " sign-in URL"@,
            ) && (!(info@.field(
                "manualUrl"@,
            ) is Text) || !sign_in_url(
                info@.field("manualUrl"@).text_or_empty(),
                pages_of(product.word@),
            )),
        },
{
    if let Some(url) = info.field_text("manualUrl") {
        if is_sign_in_url(url, &sign_in_pages(product.word.as_str())) {
            return Ok(url.to_owned());
        }
    }
    Err(Fault::other(concat3("Unexpected ", product.name.as_str(), " sign-in URL").as_str()))
}

/// What a saved token looks like: the token, and the plan it belongs to.
pub fn token_file(token: &str, plan: Option<&str>) -> (r: String)
    ensures
        r@ == token@ + "\n"@ + match opt_str(plan) {
            Some(p) => p,
            None => ""@,
        } + "\n"@,
{
    let mut out = concat(token, "\n");
    match plan {
        Some(p) => {
            push_text(&mut out, p);
        },
        None => {
            push_text(&mut out, "");
        },
    }
    push_text(&mut out, "\n");
    out
}

// The login.

/// A login that waits for the user.
#[derive(Debug)]
pub struct Login {
    pub id: String,
    pub started: u64,
}

/// The mathematical value of a login that waits.
pub struct LoginView {
    pub id: Seq<char>,
    pub started: u64,
}

impl View for Login {
    type V = LoginView;

    open spec fn view(&self) -> LoginView {
        LoginView { id: self.id@, started: self.started }
    }
}

/// The account of claude_code.
#[derive(Debug)]
pub struct ClaudeLogin {
    pub status: Status,
    pub checked: Option<u64>,
    pub login: Option<Login>,
}

/// The mathematical value of the account of claude_code.
pub struct ClaudeLoginView {
    pub status: StatusView,
    pub checked: Option<u64>,
    pub login: Option<LoginView>,
}

/// The view of an optional login.
pub open spec fn opt_login(login: Option<Login>) -> Option<LoginView> {
    match login {
        Some(l) => Some(l@),
        None => None,
    }
}

impl View for ClaudeLogin {
    type V = ClaudeLoginView;

    open spec fn view(&self) -> ClaudeLoginView {
        ClaudeLoginView {
            status: self.status@,
            checked: self.checked,
            login: opt_login(self.login),
        }
    }
}

/// What is to be found out about the account.
#[derive(Clone, Copy, PartialEq, Eq, Structural, Debug)]
pub enum Check {
    /// Nothing: what is known counts.
    Keep,
    /// The login has ended; the account is looked at where it succeeded.
    Done { success: bool },
    /// The login has taken too long.
    Expired,
    /// The account is looked at.
    Account,
}

/// What is to be found out about the account, given whether the login has ended, and how.
pub open spec fn wanted_check(a: ClaudeLoginView, now: u64, done: Option<bool>) -> Check {
    match a.login {
        Some(login) => match done {
            Some(success) => Check::Done { success },
            None => if passed(now, login.started) >= LOGIN_LIFETIME {
                Check::Expired
            } else {
                Check::Keep
            },
        },
        None => if match a.checked {
            Some(at) => passed(now, at) >= CHECK_LIFETIME,
            None => true,
        } {
            Check::Account
        } else {
            Check::Keep
        },
    }
}

/// The state that a look at the account means: it is ready, or not, or could not be looked at.
pub open spec fn ready_state(ready: Option<bool>, product: Seq<char>) -> StatusView {
    match ready {
        Some(true) => plain_status("connected"@, None),
        Some(false) => plain_status(
            "missing"@,
            Some("Connect your "@ + product + " subscription on this VM."@),
        ),
        None => plain_status(
            "unavailable"@,
            Some("Could not check "@ + product + " Code on this VM."@),
        ),
    }
}

/// The account once it was checked.
pub open spec fn checked(
    a: ClaudeLoginView,
    check: Check,
    ready: Option<bool>,
    now: u64,
    product: Seq<char>,
) -> ClaudeLoginView {
    match check {
        Check::Keep => a,
        Check::Done { success } => ClaudeLoginView {
            status: if success && ready == Some(true) {
                plain_status("connected"@, None)
            } else {
                plain_status("error"@, Some(product + " sign-in did not complete. Try again."@))
            },
            login: None,
            checked: Some(now),
        },
        Check::Expired => ClaudeLoginView {
            status: plain_status("expired"@, Some("Sign-in expired. Try again."@)),
            login: None,
            checked: Some(now),
        },
        Check::Account => ClaudeLoginView { status: ready_state(ready, product), checked: Some(now), ..a },
    }
}

/// The parameters with which the code of the user is handed to a login.
pub fn callback_params(code: Option<&str>, state: Option<&str>) -> (r: Json)
    ensures
        r@ == Data::Object(
            map![
                "authorizationCode"@ => opt_text(opt_str(code)),
                "state"@ => opt_text(opt_str(state))
            ],
        ),
{
    Json::Object(
        object().with("authorizationCode", Json::opt_text(code)).with(
            "state",
            Json::opt_text(state),
        ),
    )
}

/// What a request about the account asks for.
#[derive(Clone, Copy, PartialEq, Eq, Structural, Debug)]
pub enum Step {
    /// A token is saved, in place of a login.
    Token,
    /// A key is saved, in place of a login.
    Key,
    /// The login is cancelled.
    Cancel,
    /// The code of the user is handed to the login.
    Complete,
    /// A login is begun.
    Start,
    /// Nothing is to be done.
    Current,
}

/// The login is the one that is named.
pub open spec fn names_login(a: ClaudeLoginView, id: Seq<char>) -> bool {
    match a.login {
        Some(login) => login.id == id,
        None => false,
    }
}

/// What a request about the account comes to.
pub open spec fn step_for(a: ClaudeLoginView, action: Seq<char>, id: Seq<char>) -> Step {
    if action == "token"@ {
        Step::Token
    } else if action == "key"@ {
        Step::Key
    } else if action == "cancel"@ {
        if names_login(a, id) {
            Step::Cancel
        } else {
            Step::Current
        }
    } else if action == "complete"@ {
        if names_login(a, id) {
            Step::Complete
        } else {
            Step::Current
        }
    } else if a.login is Some || a.status.state == "connected"@ || a.status.state == "unavailable"@ {
        Step::Current
    } else {
        Step::Start
    }
}

/// The account once a login was begun, or could not be.
pub open spec fn login_begun(
    a: ClaudeLoginView,
    id: Seq<char>,
    attempt: Result<Seq<char>, FaultView>,
    now: u64,
    product: Seq<char>,
) -> ClaudeLoginView {
    match attempt {
        Ok(url) => ClaudeLoginView {
            status: StatusView {
                verification_url: Some(url),
                login_id: Some(id),
                ..plain_status("waiting"@, None)
            },
            login: Some(LoginView { id, started: now }),
            ..a
        },
        Err(_) => ClaudeLoginView {
            status: plain_status(
                "error"@,
                Some(
                    "Could not start "@ + product + " sign-in. Check the CLI version and try again."@,
                ),
            ),
            ..a
        },
    }
}

impl ClaudeLogin {
    /// Nothing is known of the account.
    pub fn new() -> (r: ClaudeLogin)
        ensures
            r@ == (ClaudeLoginView {
                status: plain_status("missing"@, None),
                checked: None,
                login: None,
            }),
    {
        ClaudeLogin { status: Status::new("missing", None), checked: None, login: None }
    }

    /// What is to be found out about the account.
    pub fn inspect(&self, now: u64, done: Option<bool>) -> (r: Check)
        ensures
            r == wanted_check(self@, now, done),
    {
        match &self.login {
            Some(login) => match done {
                Some(success) => Check::Done { success },
                None => if since(now, login.started) >= LOGIN_LIFETIME {
                    Check::Expired
                } else {
                    Check::Keep
                },
            },
            None => {
                let stale = match self.checked {
                    Some(at) => since(now, at) >= CHECK_LIFETIME,
                    None => true,
                };
                if stale {
                    Check::Account
                } else {
                    Check::Keep
                }
            },
        }
    }

    /// Notes what was found out about the account.
    pub fn settle(&mut self, check: Check, ready: Option<bool>, now: u64, product: &Product)
        ensures
            final(self)@ == checked(old(self)@, check, ready, now, product.name@),
    {
        match check {
            Check::Keep => {},
            Check::Done { success } => {
                let connected = success && match ready {
                    Some(r) => r,
                    None => false,
                };
                self.status = if connected {
                    Status::new("connected", None)
                } else {
                    Status::new(
                        "error",
                        Some(
                            concat(
                                product.name.as_str(),
                                " sign-in did not complete. Try again.",
                            ).as_str(),
                        ),
                    )
                };
                self.login = None;
                self.checked = Some(now);
            },
            Check::Expired => {
                self.status = Status::new("expired", Some("Sign-in expired. Try again."));
                self.login = None;
                self.checked = Some(now);
            },
            Check::Account => {
                self.status = match ready {
                    Some(true) => Status::new("connected", None),
                    Some(false) => Status::new(
                        "missing",
                        Some(
                            concat3(
                                "Connect your ",
                                product.name.as_str(),
                                " subscription on this VM.",
                            ).as_str(),
                        ),
                    ),
                    None => Status::new(
                        "unavailable",
                        Some(
                            concat3(
                                "Could not check ",
                                product.name.as_str(),
                                " Code on this VM.",
                            ).as_str(),
                        ),
                    ),
                };
                self.checked = Some(now);
            },
        }
    }

    /// What a request about the account comes to.
    pub fn action(&self, action: &str, id: &str) -> (r: Step)
        ensures
            r == step_for(self@, action@, id@),
    {
        let named = match &self.login {
            Some(login) => same(login.id.as_str(), id),
            None => false,
        };
        if same(action, "token") {
            return Step::Token;
        }
        if same(action, "key") {
            return Step::Key;
        }
        if same(action, "cancel") {
            return if named {
                Step::Cancel
            } else {
                Step::Current
            };
        }
        if same(action, "complete") {
            return if named {
                Step::Complete
            } else {
                Step::Current
            };
        }
        if self.login.is_some() || same(self.status.state, "connected") || same(
            self.status.state,
            "unavailable",
        ) {
            Step::Current
        } else {
            Step::Start
        }
    }

    /// What is known is forgotten: a login, and when the account was looked at.
    pub fn forget(&mut self)
        ensures
            final(self)@ == (ClaudeLoginView { login: None, checked: None, ..old(self)@ }),
    {
        self.login = None;
        self.checked = None;
    }

    /// What is shown once the code of the user was handed to the login. An answer that does not
    /// come in time is no refusal.
    pub fn completed(&self, result: &Result<Json, Fault>, product: &Product) -> (r: Status)
        ensures
            r@ == if self@.status.state == "waiting"@ && result is Err && result->Err_0@.kind
                != FaultKind::TimedOut {
                StatusView {
                    message: Some(
                        product.name@ + " could not accept that code. Check it or restart sign-in."@,
                    ),
                    ..self@.status
                }
            } else {
                self@.status
            },
    {
        let mut status = self.status.duplicate();
        let refused_code = match result {
            Err(fault) => fault.kind != FaultKind::TimedOut,
            Ok(_) => false,
        };
        if same(status.state, "waiting") && refused_code {
            status.message = Some(
                concat(
                    product.name.as_str(),
                    " could not accept that code. Check it or restart sign-in.",
                ),
            );
        }
        status
    }

    /// A login was begun, or could not be.
    pub fn begin(&mut self, id: &str, attempt: Result<String, Fault>, now: u64, product: &Product)
        ensures
            final(self)@ == login_begun(
                old(self)@,
                id@,
                match attempt {
                    Ok(url) => Ok(url@),
                    Err(f) => Err(f@),
                },
                now,
                product.name@,
            ),
    {
        match attempt {
            Ok(url) => {
                let mut status = Status::new("waiting", None);
                status.verification_url = Some(url);
                status.login_id = Some(id.to_owned());
                self.status = status;
                self.login = Some(Login { id: id.to_owned(), started: now });
            },
            Err(_) => {
                self.status = Status::new(
                    "error",
                    Some(
                        concat3(
                            "Could not start ",
                            product.name.as_str(),
                            " sign-in. Check the CLI version and try again.",
                        ).as_str(),
                    ),
                );
            },
        }
    }
}

/// A login that waits is neither replaced by another one nor ended by a request about another one.
pub proof fn one_login_at_a_time(a: ClaudeLoginView, action: Seq<char>, id: Seq<char>)
    requires
        a.login is Some,
        action != "token"@,
        action != "key"@,
        a.login->0.id != id,
    ensures
        step_for(a, action, id) is Current,
{
}

// Tokens and keys.

/// How saving a token or a key ended.
#[derive(Clone, Copy, PartialEq, Eq, Structural, Debug)]
pub enum Saving {
    /// None was given.
    Missing,
    /// It could not be written.
    Unwritten,
    /// The account was not accepted with it. The login is as it was.
    Rejected,
    /// The account was not accepted with it, and the login could not be put back.
    Unrestored,
    /// What it replaces could not be removed.
    Kept,
    Saved,
}

/// What is done next to save a key. One request proves that a key works before the token is
/// dropped. A key that does not work is taken back: the former one is put in its place again, or,
/// where there was none, the file is removed.
#[derive(Clone, Copy, PartialEq, Eq, Structural, Debug)]
pub enum KeyStep {
    Write,
    Try,
    Restore,
    RemoveKey,
    RemoveToken,
    End(Saving),
}

/// What follows a step of saving a key, which went well or not. `former` says whether a key was saved
/// before.
pub open spec fn key_step_after(step: KeyStep, done: bool, former: bool) -> KeyStep {
    match step {
        KeyStep::Write => if done {
            KeyStep::Try
        } else {
            KeyStep::End(Saving::Unwritten)
        },
        KeyStep::Try => if done {
            KeyStep::RemoveToken
        } else if former {
            KeyStep::Restore
        } else {
            KeyStep::RemoveKey
        },
        KeyStep::Restore | KeyStep::RemoveKey => if done {
            KeyStep::End(Saving::Rejected)
        } else {
            KeyStep::End(Saving::Unrestored)
        },
        KeyStep::RemoveToken => if done {
            KeyStep::End(Saving::Saved)
        } else {
            KeyStep::End(Saving::Kept)
        },
        KeyStep::End(saving) => KeyStep::End(saving),
    }
}

impl KeyStep {
    /// What follows a step of saving a key, which went well or not. `former` says whether a key was
    /// saved before.
    pub fn after(self, done: bool, former: bool) -> (r: KeyStep)
        ensures
            r == key_step_after(self, done, former),
    {
        match self {
            KeyStep::Write => if done {
                KeyStep::Try
            } else {
                KeyStep::End(Saving::Unwritten)
            },
            KeyStep::Try => if done {
                KeyStep::RemoveToken
            } else if former {
                KeyStep::Restore
            } else {
                KeyStep::RemoveKey
            },
            KeyStep::Restore | KeyStep::RemoveKey => if done {
                KeyStep::End(Saving::Rejected)
            } else {
                KeyStep::End(Saving::Unrestored)
            },
            KeyStep::RemoveToken => if done {
                KeyStep::End(Saving::Saved)
            } else {
                KeyStep::End(Saving::Kept)
            },
            KeyStep::End(saving) => KeyStep::End(saving),
        }
    }
}

/// The files of a login: what each holds, if it is there.
pub struct LoginFiles {
    pub key: Option<Seq<char>>,
    pub token: Option<Seq<char>>,
}

/// The files after a step of saving a key. A step that fails leaves them as they are: a file is
/// written under another name and then renamed.
pub open spec fn files_after(
    files: LoginFiles,
    step: KeyStep,
    done: bool,
    key: Seq<char>,
    former: Option<Seq<char>>,
) -> LoginFiles {
    if !done {
        files
    } else {
        match step {
            KeyStep::Write => LoginFiles { key: Some(key), ..files },
            KeyStep::Restore => LoginFiles { key: former, ..files },
            KeyStep::RemoveKey => LoginFiles { key: None, ..files },
            KeyStep::RemoveToken => LoginFiles { token: None, ..files },
            _ => files,
        }
    }
}

/// The step that is reached after the given outcomes, in order, and the files then.
pub open spec fn key_saved_so_far(
    files: LoginFiles,
    key: Seq<char>,
    done: Seq<bool>,
) -> (KeyStep, LoginFiles)
    decreases done.len(),
{
    if done.len() == 0 {
        (KeyStep::Write, files)
    } else {
        let (step, now) = key_saved_so_far(files, key, done.drop_last());
        (
            key_step_after(step, done.last(), files.key is Some),
            files_after(now, step, done.last(), key, files.key),
        )
    }
}

/// A rejected key leaves the login as it was: the key and the token that were saved before, if any,
/// are saved still. So does one that could not be written. The token goes only once the new key was
/// accepted.
pub proof fn rejected_keys_leave_the_login(files: LoginFiles, key: Seq<char>, done: Seq<bool>)
    ensures
        ({
            let (step, now) = key_saved_so_far(files, key, done);
            &&& step == KeyStep::End(Saving::Rejected) ==> now == files
            &&& step == KeyStep::End(Saving::Unwritten) ==> now == files
            &&& step == KeyStep::End(Saving::Saved) ==> now == (LoginFiles {
                key: Some(key),
                token: None,
            })
            &&& step != KeyStep::End(Saving::Saved) ==> now.token == files.token
        }),
{
    saving_moves_on(files, key, done);
}

/// What the files hold at each step of saving a key.
proof fn saving_moves_on(files: LoginFiles, key: Seq<char>, done: Seq<bool>)
    ensures
        ({
            let (step, now) = key_saved_so_far(files, key, done);
            match step {
                KeyStep::Write => now == files,
                KeyStep::Try | KeyStep::RemoveToken | KeyStep::End(Saving::Kept)
                | KeyStep::End(Saving::Unrestored) => now == (LoginFiles {
                    key: Some(key),
                    ..files
                }),
                KeyStep::Restore => files.key is Some && now == (LoginFiles {
                    key: Some(key),
                    ..files
                }),
                KeyStep::RemoveKey => files.key is None && now == (LoginFiles {
                    key: Some(key),
                    ..files
                }),
                KeyStep::End(Saving::Rejected) | KeyStep::End(Saving::Unwritten) => now == files,
                KeyStep::End(Saving::Saved) => now == (LoginFiles { key: Some(key), token: None }),
                KeyStep::End(Saving::Missing) => false,
            }
        }),
    decreases done.len(),
{
    if done.len() > 0 {
        saving_moves_on(files, key, done.drop_last());
    }
}

/// What is shown where a token was not saved.
pub open spec fn token_refused(saving: Saving, product: Seq<char>) -> Option<StatusView> {
    if saving == Saving::Saved {
        None
    } else {
        Some(plain_status("error"@, Some("Could not save the "@ + product + " token."@)))
    }
}

/// What is shown where a key was not saved.
pub open spec fn key_refused(saving: Saving, product: Seq<char>) -> Option<StatusView> {
    match saving {
        Saving::Missing => Some(plain_status("error"@, Some("Paste an Anthropic API key."@))),
        Saving::Unwritten => Some(plain_status("error"@, Some("Could not save the API key."@))),
        Saving::Rejected | Saving::Unrestored => Some(
            plain_status(
                "error"@,
                Some("Anthropic did not accept this API key. Check the key and its credits."@),
            ),
        ),
        Saving::Kept => Some(
            plain_status("error"@, Some("Could not remove the old "@ + product + " token."@)),
        ),
        Saving::Saved => None,
    }
}

/// The view of an optional state.
pub open spec fn opt_status(status: Option<Status>) -> Option<StatusView> {
    match status {
        Some(s) => Some(s@),
        None => None,
    }
}

impl Saving {
    /// What is shown where a token was not saved.
    pub fn refused_token(self, product: &Product) -> (r: Option<Status>)
        ensures
            opt_status(r) == token_refused(self, product.name@),
    {
        match self {
            Saving::Saved => None,
            _ => Some(
                Status::new(
                    "error",
                    Some(concat3("Could not save the ", product.name.as_str(), " token.").as_str()),
                ),
            ),
        }
    }

    /// What is shown where a key was not saved.
    pub fn refused_key(self, product: &Product) -> (r: Option<Status>)
        ensures
            opt_status(r) == key_refused(self, product.name@),
    {
        let kept = concat3("Could not remove the old ", product.name.as_str(), " token.");
        let message = match self {
            Saving::Missing => "Paste an Anthropic API key.",
            Saving::Unwritten => "Could not save the API key.",
            Saving::Rejected | Saving::Unrestored => "Anthropic did not accept this API key. Check the key and its credits.",
            Saving::Kept => kept.as_str(),
            Saving::Saved => {
                return None;
            },
        };
        Some(Status::new("error", Some(message)))
    }
}

} // verus!
