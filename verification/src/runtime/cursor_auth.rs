//! The account of Cursor.
use super::auth::{passed, plain_status, since, CHECK_LIFETIME, Status, StatusView};
use super::helper::{check_made, not_made};
use super::last_of;
use crate::fault::{other, Fault};
use crate::json::{object, Data, Json};
use crate::text::{
    after_prefix, all_in, all_text_in, byte_len, chars_of, contains_char, deep, is_space, opt,
    opt_owned, push_text, same, size, space, string_of, strip_prefix, words, words_of, Class,
};
use crate::wire::{bytes_read, parse_bytes};
use vstd::prelude::*;
use vstd::slice::slice_subrange;

verus! {

/// A key of the account: visible characters only.
pub open spec fn account_key(key: Seq<char>) -> bool {
    key.len() > 0 && byte_len(key) <= 4096 && all_in(key, Class::Graphic, Seq::empty())
}

/// Whether a text is a key of the account.
pub fn valid_key(key: &str) -> (r: bool)
    ensures
        r == account_key(key@),
{
    proof {
        reveal_strlit("");
        assert(""@ =~= Seq::<char>::empty());
    }
    chars_of(key).len() > 0 && size(key) <= 4096 && all_text_in(key, Class::Graphic, "")
}

/// The state that a check of a key means.
pub open spec fn key_state(success: bool) -> StatusView {
    if success {
        plain_status("connected"@, None)
    } else {
        plain_status(
            "error"@,
            Some(
                "Could not verify this Cursor API key. Check the key and connection, then try again."@,
            ),
        )
    }
}

/// The state that a check of a key means.
pub fn key_status(success: bool) -> (r: Status)
    ensures
        r@ == key_state(success),
{
    if success {
        Status::new("connected", None)
    } else {
        Status::new(
            "error",
            Some(
                "Could not verify this Cursor API key. Check the key and connection, then try again.",
            ),
        )
    }
}

/// The state that an answer about the account means.
pub open spec fn account_state(success: bool, value: Data) -> StatusView {
    StatusView {
        email: value.field("userInfo"@).field("email"@).as_text(),
        ..plain_status(
            if success && value.field("isAuthenticated"@).is_true() {
                "connected"@
            } else {
                "missing"@
            },
            None,
        )
    }
}

/// The state that an answer about the account means.
pub fn account_status(success: bool, value: &Json) -> (r: Status)
    ensures
        r@ == account_state(success, value@),
{
    let state = if success && value.field("isAuthenticated").is_true() {
        "connected"
    } else {
        "missing"
    };
    let mut status = Status::new(state, None);
    status.email = opt_owned(value.field("userInfo").field_text("email"));
    status
}

/// The state of an account that could not be looked at.
pub open spec fn unavailable_state() -> StatusView {
    plain_status(
        "unavailable"@,
        Some(
            "Could not verify Cursor on the cloud machine. Check its installation, connection and disk space."@,
        ),
    )
}

/// The state of an account that could not be looked at.
pub fn unavailable() -> (r: Status)
    ensures
        r@ == unavailable_state(),
{
    Status::new(
        "unavailable",
        Some(
            "Could not verify Cursor on the cloud machine. Check its installation, connection and disk space.",
        ),
    )
}

/// The file in the place of Cursor that holds the key.
pub const KEY_FILE: &'static str = "cloudroom-api-key";

/// The bytes of an answer about the account.
pub const ANSWER_BYTES: usize = 65536;

/// The state that the output of a check means. A check with a key lists models, and only its success
/// counts; any other tells of the account.
pub open spec fn output_state(bytes: Seq<u8>, success: bool, keyed: bool) -> StatusView {
    if bytes.len() > ANSWER_BYTES {
        unavailable_state()
    } else if keyed {
        key_state(success)
    } else {
        match bytes_read(bytes) {
            Ok(value) => account_state(success, value),
            Err(_) => unavailable_state(),
        }
    }
}

/// The state that the output of a check means.
pub fn read_status(bytes: &[u8], success: bool, keyed: bool) -> (r: Status)
    ensures
        r@ == output_state(bytes@, success, keyed),
{
    if bytes.len() > ANSWER_BYTES {
        return unavailable();
    }
    if keyed {
        return key_status(success);
    }
    match parse_bytes(bytes) {
        Ok(value) => account_status(success, &value),
        Err(_) => unavailable(),
    }
}

// The output of a login.

/// The text up to the last white space: whatever follows may not be complete.
pub open spec fn complete_part(text: Seq<char>) -> Seq<char>
    decreases text.len(),
{
    if text.len() == 0 {
        text
    } else if space(text.last()) {
        text.drop_last()
    } else {
        complete_part(text.drop_last())
    }
}

/// A place to sign in at, if a word is one.
pub open spec fn sign_in_word(word: Seq<char>) -> bool {
    match after_prefix(word, "https://cursor.com/loginDeepControl?"@) {
        None => false,
        Some(rest) => byte_len(rest) <= 4096 && (forall|i: int|
            0 <= i < rest.len() ==> (#[trigger] rest[i] as u32) < 128) && !rest.contains('<')
            && !rest.contains('>') && !rest.contains('"') && !rest.contains('\''),
    }
}

/// The last place to sign in at among words.
pub open spec fn sign_in_place(all: Seq<Seq<char>>) -> Option<Seq<char>>
    decreases all.len(),
{
    if all.len() == 0 {
        None
    } else if sign_in_word(all.last()) {
        Some(all.last())
    } else {
        sign_in_place(all.drop_last())
    }
}

/// What is kept of the output: the end of it, once it is long.
pub open spec fn kept_output(text: Seq<char>) -> Seq<char> {
    if byte_len(text) > 8192 {
        last_of(text, 4096)
    } else {
        text
    }
}

fn all_ascii(text: &[char]) -> (r: bool)
    ensures
        r == forall|i: int| 0 <= i < text@.len() ==> (#[trigger] text@[i] as u32) < 128,
{
    let mut i: usize = 0;
    while i < text.len()
        invariant
            i <= text.len(),
            forall|j: int| 0 <= j < i ==> (#[trigger] text@[j] as u32) < 128,
        decreases text.len() - i,
    {
        if text[i] as u32 >= 128 {
            return false;
        }
        i += 1;
    }
    true
}

fn is_sign_in_word(word: &str) -> (r: bool)
    ensures
        r == sign_in_word(word@),
{
    match strip_prefix(word, "https://cursor.com/loginDeepControl?") {
        None => false,
        Some(rest) => {
            let chars = chars_of(rest.as_str());
            let text = rest.as_str();
            size(text) <= 4096 && all_ascii(chars.as_slice()) && !contains_char(text, '<')
                && !contains_char(text, '>') && !contains_char(text, '"') && !contains_char(
                text,
                '\'',
            )
        },
    }
}

/// Takes in more of the output of a login. Gives the place to sign in at, where the output names
/// one.
pub fn read_output(tail: &mut String, more: &str) -> (r: Option<String>)
    ensures
        final(tail)@ == kept_output(old(tail)@ + more@),
        opt(r) == sign_in_place(words(complete_part(old(tail)@ + more@))),
{
    push_text(tail, more);
    let ghost whole = tail@;
    let chars = chars_of(tail.as_str());
    let mut end: usize = chars.len();
    let mut found_space = false;
    assert(whole.take(end as int) =~= whole);
    while end > 0 && !found_space
        invariant
            end <= chars.len(),
            chars@ == whole,
            found_space ==> complete_part(whole) == whole.take(end as int),
            !found_space ==> complete_part(whole) == complete_part(whole.take(end as int)),
        decreases end,
    {
        let ghost head = whole.take(end as int);
        assert(head.last() == whole[end - 1]);
        assert(head.drop_last() =~= whole.take(end - 1));
        found_space = is_space(chars[end - 1]);
        end -= 1;
    }
    assert(whole.take(end as int) == complete_part(whole));
    let part = slice_subrange(chars.as_slice(), 0, end);
    assert(part@ =~= complete_part(whole));
    let all = words_of(part);
    let ghost every = words(complete_part(whole));
    let mut found: Option<String> = None;
    let mut k: usize = all.len();
    assert(every.take(k as int) =~= every);
    while k > 0 && found.is_none()
        invariant
            k <= all.len(),
            deep(all@) == every,
            match found {
                Some(t) => sign_in_place(every) == Some(t@),
                None => sign_in_place(every) == sign_in_place(every.take(k as int)),
            },
        decreases k,
    {
        let ghost head = every.take(k as int);
        assert(head.last() == all@[k - 1]@);
        assert(head.drop_last() =~= every.take(k - 1));
        let word = string_of(all[k - 1].as_slice());
        if is_sign_in_word(word.as_str()) {
            found = Some(word);
        }
        k -= 1;
    }
    if size(tail.as_str()) > 8192 {
        let count = chars.len();
        let start = if count > 4096 {
            count - 4096
        } else {
            0
        };
        let kept = slice_subrange(chars.as_slice(), start, count);
        assert(kept@ =~= last_of(whole, 4096));
        *tail = string_of(kept);
    }
    found
}

// The login.

/// The account of Cursor.
#[derive(Debug)]
pub struct CursorAuth {
    pub status: Status,
    pub checked: Option<u64>,
    /// The login that runs.
    pub login: Option<String>,
}

/// The mathematical value of the account of Cursor.
pub struct CursorAuthView {
    pub status: StatusView,
    pub checked: Option<u64>,
    pub login: Option<Seq<char>>,
}

impl View for CursorAuth {
    type V = CursorAuthView;

    open spec fn view(&self) -> CursorAuthView {
        CursorAuthView { status: self.status@, checked: self.checked, login: opt(self.login) }
    }
}

/// The account once the login was looked at: what it shows while it runs, and whether it still
/// does.
pub open spec fn login_seen(a: CursorAuthView, shown: StatusView, ended: bool) -> CursorAuthView {
    if a.login is None {
        a
    } else if ended {
        CursorAuthView { status: shown, login: None, checked: None }
    } else {
        CursorAuthView { status: shown, ..a }
    }
}

/// The account is to be looked at.
pub open spec fn wants_check(a: CursorAuthView, now: u64) -> bool {
    a.login is None && match a.checked {
        Some(at) => passed(now, at) > CHECK_LIFETIME,
        None => true,
    }
}

/// A login may be begun.
pub open spec fn may_login(a: CursorAuthView) -> bool {
    a.login is None && a.status.state != "connected"@
}

/// Why a key is refused before it is tried.
pub open spec fn key_refused(a: CursorAuthView, key: Seq<char>) -> Option<StatusView> {
    if !account_key(key) {
        Some(plain_status("error"@, Some("Enter a valid Cursor user API key."@)))
    } else if a.login is Some {
        Some(plain_status("error"@, Some("Finish or cancel browser sign-in first."@)))
    } else {
        None
    }
}

impl CursorAuth {
    /// Nothing is known of the account.
    pub fn new() -> (r: CursorAuth)
        ensures
            r@ == (CursorAuthView {
                status: plain_status("missing"@, None),
                checked: None,
                login: None,
            }),
    {
        CursorAuth { status: Status::new("missing", None), checked: None, login: None }
    }

    /// The login was looked at.
    pub fn see_login(&mut self, shown: Status, ended: bool)
        ensures
            final(self)@ == login_seen(old(self)@, shown@, ended),
    {
        if self.login.is_some() {
            self.status = shown;
            if ended {
                self.login = None;
                self.checked = None;
            }
        }
    }

    /// Whether the account is to be looked at.
    pub fn wants_check(&self, now: u64) -> (r: bool)
        ensures
            r == wants_check(self@, now),
    {
        self.login.is_none() && match self.checked {
            Some(at) => since(now, at) > CHECK_LIFETIME,
            None => true,
        }
    }

    /// The account was looked at, or a key was saved.
    pub fn settle(&mut self, status: Status, now: u64)
        ensures
            final(self)@ == (CursorAuthView {
                status: status@,
                checked: Some(now),
                ..old(self)@
            }),
    {
        self.status = status;
        self.checked = Some(now);
    }

    /// Whether a login may be begun.
    pub fn may_login(&self) -> (r: bool)
        ensures
            r == may_login(self@),
    {
        self.login.is_none() && !same(self.status.state, "connected")
    }

    /// A login was begun.
    pub fn begin(&mut self, id: &str)
        ensures
            final(self)@ == (CursorAuthView {
                status: StatusView {
                    login_id: Some(id@),
                    ..plain_status("waiting"@, Some("Waiting for Cursor's sign-in link."@))
                },
                login: Some(id@),
                checked: None,
            }),
    {
        let mut status = Status::new("waiting", Some("Waiting for Cursor's sign-in link."));
        status.login_id = Some(id.to_owned());
        self.status = status;
        self.login = Some(id.to_owned());
        self.checked = None;
    }

    /// Cancels a login. Gives whether it was the one that runs.
    pub fn cancel(&mut self, id: &str) -> (r: bool)
        ensures
            r == (old(self)@.login == Some(id@)),
            final(self)@ == (if r {
                CursorAuthView {
                    login: None,
                    checked: None,
                    status: plain_status(
                        "missing"@,
                        Some("Cursor sign-in cancelled. Your task is preserved."@),
                    ),
                }
            } else {
                old(self)@
            }),
    {
        let named = match &self.login {
            Some(login) => same(login.as_str(), id),
            None => false,
        };
        if named {
            self.login = None;
            self.checked = None;
            self.status = Status::new(
                "missing",
                Some("Cursor sign-in cancelled. Your task is preserved."),
            );
        }
        named
    }

    /// Refuses a key that cannot be one, or that comes while a login runs.
    pub fn refuse_key(&self, key: &str) -> (r: Option<Status>)
        ensures
            match r {
                Some(s) => key_refused(self@, key@) == Some(s@),
                None => key_refused(self@, key@) is None,
            },
    {
        if !valid_key(key) {
            return Some(Status::new("error", Some("Enter a valid Cursor user API key.")));
        }
        if self.login.is_some() {
            return Some(Status::new("error", Some("Finish or cancel browser sign-in first.")));
        }
        None
    }
}

/// The state that is shown where a login could not be begun.
pub fn login_failed() -> (r: Status)
    ensures
        r@ == plain_status(
            "error"@,
            Some(
                "Could not start Cursor login. Check the CLI installation and cloud disk space."@,
            ),
        ),
{
    Status::new(
        "error",
        Some("Could not start Cursor login. Check the CLI installation and cloud disk space."),
    )
}

/// A key that was saved must still be one.
pub fn check_saved_key(key: &str) -> (r: Result<(), Fault>)
    ensures
        match r {
            Ok(_) => account_key(key@),
            Err(f) => !(account_key(key@)) && f@ == other("Saved Cursor API key is invalid"@),
        },
{
    if valid_key(key) {
        return Ok(());
    }
    Err(Fault::other("Saved Cursor API key is invalid"))
}

/// What the helper that keeps files is asked for a key: to save it in the place of Cursor, which is made
/// where it is missing.
pub fn key_request(home: &str, key: &str) -> (r: Json)
    ensures
        r@ == Data::Object(
            map![
                "op"@ => Data::Text("cursor_key"@),
                "tree"@ => Data::Object(
                    map![
                        "root"@ => Data::Text(home@),
                        "filename"@ => Data::Text(KEY_FILE@),
                        "create"@ => Data::Bool(true)
                    ],
                ),
                "key"@ => Data::Text(key@)
            ],
        ),
{
    let tree = object().with_text("root", home).with_text("filename", KEY_FILE).with(
        "create",
        Json::Bool(true),
    );
    Json::Object(
        object().with_text("op", "cursor_key").with("tree", Json::Object(tree)).with_text("key", key),
    )
}

/// Whether the helper has saved a key: it ended well and told so.
pub fn read_saved(success: bool, stdout: &[u8]) -> (r: Result<(), Fault>)
    ensures
        match r {
            Ok(_) => not_made(success, stdout@, "Cursor key was not saved"@) is None,
            Err(f) => not_made(success, stdout@, "Cursor key was not saved"@) == Some(f@),
        },
{
    check_made(success, stdout, "Cursor key was not saved")
}

/// The account, and what is shown, once a key was tried and then saved. A key that does not work
/// is not saved, and what could not be saved changes nothing.
pub open spec fn keyed(a: CursorAuthView, tried: StatusView, saved: bool, now: u64) -> (
    CursorAuthView,
    StatusView,
) {
    if tried.state != "connected"@ {
        (a, tried)
    } else if !saved {
        (
            a,
            plain_status(
                "error"@,
                Some(
                    "Could not confirm saving the Cursor key. Check cloud storage and try again."@,
                ),
            ),
        )
    } else {
        (CursorAuthView { status: tried, checked: Some(now), ..a }, tried)
    }
}

impl CursorAuth {
    /// Takes in a key that was tried and then saved. Gives what is shown.
    pub fn set_key(&mut self, tried: Status, saved: Result<(), Fault>, now: u64) -> (r: Status)
        ensures
            (final(self)@, r@) == keyed(old(self)@, tried@, saved is Ok, now),
    {
        if !same(tried.state, "connected") {
            return tried;
        }
        if saved.is_err() {
            return Status::new(
                "error",
                Some("Could not confirm saving the Cursor key. Check cloud storage and try again."),
            );
        }
        let shown = tried.duplicate();
        self.settle(tried, now);
        shown
    }
}

/// How a login ended.
pub fn login_ended(confirmed: bool) -> (r: Status)
    ensures
        r@ == if confirmed {
            plain_status("connected"@, None)
        } else {
            plain_status(
                "expired"@,
                Some("Cursor sign-in ended without confirmation. Try again."@),
            )
        },
{
    if confirmed {
        Status::new("connected", None)
    } else {
        Status::new(
            "expired",
            Some("Cursor sign-in ended without confirmation. Try again."),
        )
    }
}

} // verus!
