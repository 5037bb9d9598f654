//! Logins of Pi's providers.
use super::codex::opt_json;
use super::helper::{configured, read_reply, reply};
use super::json_result;
use crate::fault::{other, refused, Fault, FaultView};
use crate::json::{members_has, members_only, object, Data, Fields, Json};
use crate::table::Table;
use crate::text::{
    all_in, all_text_in, byte_len, chars_of, concat3, has_control, opt_str, size, some_control, Class,
};
use crate::wire::{write_json, written};
use vstd::prelude::*;

verus! {

/// The largest login of a provider, in bytes.
pub const MAX_ENTRY_BYTES: usize = 16384;

/// A name, with characters that it may hold besides letters, digits and underscores.
pub open spec fn is_name(text: Seq<char>, extra: Seq<char>) -> bool {
    text.len() > 0 && byte_len(text) <= 64 && all_in(text, Class::Alnum, extra)
}

/// Whether a text is a name, with characters that it may hold besides letters and digits.
pub fn name(text: &str, extra: &str) -> (r: bool)
    ensures
        r == is_name(text@, extra@),
{
    chars_of(text).len() > 0 && size(text) <= 64 && all_text_in(text, Class::Alnum, extra)
}

/// A secret: some text without control characters.
pub open spec fn is_secret(value: Data) -> bool {
    match value {
        Data::Text(t) => t.len() > 0 && byte_len(t) <= 8192 && !some_control(t),
        _ => false,
    }
}

/// Whether a value is a secret.
pub fn secret(value: &Json) -> (r: bool)
    ensures
        r == is_secret(value@),
{
    match value.as_text() {
        Some(t) => chars_of(t).len() > 0 && size(t) <= 8192 && !has_control(t),
        None => false,
    }
}

/// The environment of a key: names with secrets.
pub open spec fn is_environment(env: Map<Seq<char>, Data>) -> bool {
    forall|key: Seq<char>| #[trigger] env.contains_key(key) ==> is_name(key, "_"@) && is_secret(
        env[key],
    )
}

/// A login with a key, if it is one that can be used. Keys that begin with an exclamation mark are
/// commands of another machine.
pub open spec fn key_entry(value: Data) -> Option<Data> {
    let key = value.field("key"@);
    if !is_secret(key) || (key.text_or_empty().len() > 0 && key.text_or_empty()[0] == '!') {
        None
    } else {
        let plain = Data::Object(map!["type"@ => Data::Text("api_key"@), "key"@ => key]);
        match value.get("env"@) {
            None => Some(plain),
            Some(Data::Object(env)) => if is_environment(env) {
                Some(plain.with("env"@, Data::Object(env)))
            } else {
                None
            },
            Some(_) => None,
        }
    }
}

/// A login, if it is one that can be used.
pub open spec fn login_entry(value: Data) -> Option<Data> {
    if byte_len(written(value)) > MAX_ENTRY_BYTES {
        None
    } else if value.field("type"@).is_text("api_key"@) {
        key_entry(value)
    } else if value.field("type"@).is_text("oauth"@) && is_secret(value.field("access"@))
        && is_secret(value.field("refresh"@)) && value.field("expires"@) is Number {
        Some(value)
    } else {
        None
    }
}

fn environment(env: &Fields) -> (r: bool)
    ensures
        r == is_environment(env@),
{
    let mut i: usize = 0;
    while i < env.entries.len()
        invariant
            i <= env.entries.len(),
            forall|j: int|
                0 <= j < i ==> is_name((#[trigger] env.entries@[j]).0@, "_"@) && is_secret(
                    env@[env.entries@[j].0@],
                ),
        decreases env.entries.len() - i,
    {
        let key = env.entries[i].0.as_str();
        proof {
            members_has(env.entries@, i as int);
        }
        let fits = match env.get(key) {
            Some(value) => name(key, "_") && secret(value),
            None => false,
        };
        if !fits {
            assert(env@.contains_key(key@));
            return false;
        }
        i += 1;
    }
    proof {
        members_only(env.entries@);
        assert forall|key: Seq<char>| #[trigger] env@.contains_key(key) implies is_name(key, "_"@)
            && is_secret(env@[key]) by {
            let j = choose|j: int|
                0 <= j < env.entries@.len() && (#[trigger] env.entries@[j]).0@ == key;
            assert(is_name(env.entries@[j].0@, "_"@));
        }
    }
    true
}

fn with_key(value: &Json) -> (r: Option<Json>)
    ensures
        opt_json(r) == key_entry(value@),
{
    let key = value.field("key");
    if !secret(key) {
        return None;
    }
    let chars = chars_of(key.text_or_empty());
    if chars.len() > 0 && chars[0] == '!' {
        return None;
    }
    let mut kept = Json::Object(
        object().with_text("type", "api_key").with("key", key.duplicate()),
    );
    if let Some(env) = value.get("env") {
        match env.as_object() {
            Some(fields) => {
                if !environment(fields) {
                    return None;
                }
                kept.put("env", env.duplicate());
            },
            None => {
                return None;
            },
        }
    }
    Some(kept)
}

/// A login, if it is one that can be used.
pub fn entry(value: &Json) -> (r: Option<Json>)
    ensures
        opt_json(r) == login_entry(value@),
{
    if size(write_json(value).as_str()) > MAX_ENTRY_BYTES {
        return None;
    }
    if value.field_is("type", "api_key") {
        return with_key(value);
    }
    let expires = match value.field("expires") {
        Json::Number(_) => true,
        _ => false,
    };
    if value.field_is("type", "oauth") && secret(value.field("access")) && secret(
        value.field("refresh"),
    ) && expires {
        return Some(value.duplicate());
    }
    None
}

/// The logins that are imported: those of providers with names, in the form that can be used.
pub open spec fn importable(logins: Map<Seq<char>, Data>) -> Map<Seq<char>, Data> {
    Map::new(
        |provider: Seq<char>|
            logins.contains_key(provider) && is_name(provider, "_-."@) && login_entry(
                logins[provider],
            ) is Some,
        |provider: Seq<char>| login_entry(logins[provider])->0,
    )
}

/// The logins that are imported.
pub fn import(value: &Json) -> (r: Result<Table<Json>, Fault>)
    ensures
        match r {
            Ok(table) => value@ is Object && table@ == importable(value@->Object_0),
            Err(f) => !(value@ is Object) && f@ == refused("invalid Pi logins"@),
        },
{
    let logins = match value.as_object() {
        Some(fields) => fields,
        None => {
            return Err(Fault::refused("invalid Pi logins"));
        },
    };
    let ghost all = logins@;
    let mut out: Table<Json> = Table::new();
    let mut i: usize = 0;
    while i < logins.entries.len()
        invariant
            i <= logins.entries.len(),
            all == logins@,
            forall|key: Seq<char>| #[trigger]
                out@.contains_key(key) ==> importable(all).contains_key(key) && out@[key]
                    == importable(all)[key],
            forall|j: int|
                0 <= j < i ==> (importable(all).contains_key((#[trigger] logins.entries@[j]).0@)
                    ==> out@.contains_key(logins.entries@[j].0@)),
        decreases logins.entries.len() - i,
    {
        let provider = logins.entries[i].0.as_str();
        proof {
            members_has(logins.entries@, i as int);
        }
        if name(provider, "_-.") {
            if let Some(login) = logins.get(provider) {
                if let Some(kept) = entry(login) {
                    out.insert(provider, kept);
                }
            }
        }
        i += 1;
    }
    proof {
        members_only(logins.entries@);
        assert(out@ =~= importable(all)) by {
            assert forall|key: Seq<char>| importable(all).contains_key(key) implies out@.contains_key(
                key,
            ) by {
                assert(all.contains_key(key));
                let j = choose|j: int|
                    0 <= j < logins.entries@.len() && (#[trigger] logins.entries@[j]).0@ == key;
                assert(importable(all).contains_key(logins.entries@[j].0@));
            }
        }
    }
    Ok(out)
}

/// The login that a key gives.
pub open spec fn key_login(key: Seq<char>) -> Data {
    Data::Object(map!["type"@ => Data::Text("api_key"@), "key"@ => Data::Text(key)])
}

/// The login that a key of a provider gives, if both can be used.
pub fn set_key(provider: &str, key: &str) -> (r: Result<Json, Fault>)
    ensures
        match r {
            Ok(login) => is_name(provider@, "_-."@) && login_entry(key_login(key@)) is Some
                && login@ == key_login(key@),
            Err(f) => !(is_name(provider@, "_-."@) && login_entry(key_login(key@)) is Some) && f@
                == refused("invalid Pi provider key"@),
        },
{
    let login = Json::Object(object().with_text("type", "api_key").with_text("key", key));
    if !name(provider, "_-.") || entry(&login).is_none() {
        return Err(Fault::refused("invalid Pi provider key"));
    }
    Ok(login)
}

// Requests to the helper that keeps the logins, and what it answers.

/// What the helper is asked: to take over logins in the place of Pi, and whether to replace those that
/// are there.
pub open spec fn login_request(
    home: Seq<char>,
    credentials: Map<Seq<char>, Data>,
    replace: bool,
) -> Data {
    Data::Object(
        map![
            "op"@ => Data::Text("pi_auth"@),
            "tree"@ => Data::Object(
                map![
                    "root"@ => Data::Text(home),
                    "kind"@ => Data::Text("auth"@),
                    "filename"@ => Data::Text("auth.json"@)
                ],
            ),
            "credentials"@ => Data::Object(credentials),
            "replace"@ => Data::Bool(replace)
        ],
    )
}

/// What the helper is asked.
pub fn request(home: &str, credentials: &Table<Json>, replace: bool) -> (r: Json)
    ensures
        r@ == login_request(home@, credentials@, replace),
{
    let tree = object().with_text("root", home).with_text("kind", "auth").with_text(
        "filename",
        "auth.json",
    );
    Json::Object(
        object().with_text("op", "pi_auth").with("tree", Json::Object(tree)).with(
            "credentials",
            Json::Object(Fields::of_table(credentials)),
        ).with("replace", Json::Bool(replace)),
    )
}

/// What the helper is asked where Pi is configured.
pub open spec fn placed_request(
    home: Option<Seq<char>>,
    credentials: Map<Seq<char>, Data>,
    replace: bool,
) -> Result<Data, FaultView> {
    match home {
        Some(home) => Ok(login_request(home, credentials, replace)),
        None => Err(other("Pi is not configured"@)),
    }
}

fn place_request(home: Option<&str>, credentials: &Table<Json>, replace: bool) -> (r: Result<
    Json,
    Fault,
>)
    ensures
        json_result(r) == placed_request(opt_str(home), credentials@, replace),
{
    match configured(home, "Pi is not configured") {
        Ok(home) => Ok(request(home, credentials, replace)),
        Err(fault) => Err(fault),
    }
}

/// What the helper is asked for the names of the providers: to take over no logins.
pub fn providers_request(home: Option<&str>) -> (r: Result<Json, Fault>)
    ensures
        json_result(r) == placed_request(opt_str(home), Map::empty(), false),
{
    let none: Table<Json> = Table::new();
    place_request(home, &none, false)
}

/// What the helper is asked for an import: the logins that can be used, without replacing any.
pub open spec fn asked_import(home: Option<Seq<char>>, value: Data) -> Result<Data, FaultView> {
    match value {
        Data::Object(logins) => placed_request(home, importable(logins), false),
        _ => Err(refused("invalid Pi logins"@)),
    }
}

/// What the helper is asked for an import.
pub fn import_request(home: Option<&str>, value: &Json) -> (r: Result<Json, Fault>)
    ensures
        json_result(r) == asked_import(opt_str(home), value@),
{
    match import(value) {
        Ok(credentials) => place_request(home, &credentials, false),
        Err(fault) => Err(fault),
    }
}

/// What the helper is asked for the key of one provider: to save it, whatever is there.
pub open spec fn asked_key(home: Option<Seq<char>>, provider: Seq<char>, key: Seq<char>) -> Result<
    Data,
    FaultView,
> {
    if is_name(provider, "_-."@) && login_entry(key_login(key)) is Some {
        placed_request(home, map![provider => key_login(key)], true)
    } else {
        Err(refused("invalid Pi provider key"@))
    }
}

/// What the helper is asked for the key of one provider.
pub fn key_request(home: Option<&str>, provider: &str, key: &str) -> (r: Result<Json, Fault>)
    ensures
        json_result(r) == asked_key(opt_str(home), provider@, key@),
{
    match set_key(provider, key) {
        Ok(login) => {
            let mut credentials: Table<Json> = Table::new();
            credentials.insert(provider, login);
            place_request(home, &credentials, true)
        },
        Err(fault) => Err(fault),
    }
}

/// The logins were taken over: the helper ended well and told so.
pub open spec fn updated(success: bool, stdout: Seq<u8>) -> bool {
    success && reply(stdout).field("ok"@).is_true()
}

/// What the helper gave as the reason for a failure.
pub open spec fn why(answer: Data) -> Seq<char> {
    match answer.field("error"@) {
        Data::Text(error) => error,
        _ => "no helper result"@,
    }
}

/// The failure of a helper that did not take the logins over.
pub open spec fn not_updated(stdout: Seq<u8>) -> FaultView {
    other("Pi login file update failed ("@ + why(reply(stdout)) + ")"@)
}

/// What the helper answered: the names of all providers with a login, and of those that were added.
pub fn read_result(success: bool, stdout: &[u8]) -> (r: Result<Json, Fault>)
    ensures
        json_result(r) == if updated(success, stdout@) {
            Ok(
                Data::Object(
                    map![
                        "providers"@ => reply(stdout@).field("providers"@),
                        "added"@ => reply(stdout@).field("added"@)
                    ],
                ),
            )
        } else {
            Err(not_updated(stdout@))
        },
{
    let answer = read_reply(stdout);
    if !success || !answer.field("ok").is_true() {
        let reason = match answer.field_text("error") {
            Some(error) => error,
            None => "no helper result",
        };
        return Err(
            Fault::other(concat3("Pi login file update failed (", reason, ")").as_str()),
        );
    }
    Ok(
        Json::Object(
            object().with("providers", answer.field("providers").duplicate()).with(
                "added",
                answer.field("added").duplicate(),
            ),
        ),
    )
}

/// What the helper answered where it was asked for the names of the providers only.
pub fn read_providers(success: bool, stdout: &[u8]) -> (r: Result<Json, Fault>)
    ensures
        json_result(r) == if updated(success, stdout@) {
            Ok(Data::Object(map!["providers"@ => reply(stdout@).field("providers"@)]))
        } else {
            Err(not_updated(stdout@))
        },
{
    match read_result(success, stdout) {
        Ok(result) => Ok(
            Json::Object(object().with("providers", result.field("providers").duplicate())),
        ),
        Err(fault) => Err(fault),
    }
}

/// A login that is there already wins over an imported one: whatever is imported, and wherever to, the
/// helper is never asked to replace anything. Neither is it when the providers are listed, and then it
/// is given no logins at all.
pub proof fn imports_never_replace(home: Option<Seq<char>>, value: Data)
    ensures
        match asked_import(home, value) {
            Ok(asked) => asked.field("replace"@) == Data::Bool(false),
            Err(_) => true,
        },
        match placed_request(home, Map::empty(), false) {
            Ok(asked) => asked.field("replace"@) == Data::Bool(false) && asked.field("credentials"@)
                == Data::Object(Map::empty()),
            Err(_) => true,
        },
{
    names_of_requests_differ();
}

/// Only a key that the user gives replaces a login, and only that of its own provider.
pub proof fn keys_replace_one_login(home: Option<Seq<char>>, provider: Seq<char>, key: Seq<char>)
    ensures
        match asked_key(home, provider, key) {
            Ok(asked) => asked.field("replace"@) == Data::Bool(true) && asked.field("credentials"@)
                == Data::Object(map![provider => key_login(key)]),
            Err(_) => true,
        },
{
    names_of_requests_differ();
}

proof fn names_of_requests_differ()
    ensures
        "replace"@ != "credentials"@,
        "replace"@ != "tree"@,
        "replace"@ != "op"@,
        "credentials"@ != "tree"@,
        "credentials"@ != "op"@,
{
    reveal_strlit("replace");
    reveal_strlit("credentials");
    reveal_strlit("tree");
    reveal_strlit("op");
    assert("replace"@.len() == 7 && "credentials"@.len() == 11 && "tree"@.len() == 4 && "op"@.len()
        == 2);
}

/// Every login that an import hands on can be used, and is one that was given.
pub proof fn imports_hand_on_what_can_be_used(logins: Map<Seq<char>, Data>, provider: Seq<char>)
    requires
        importable(logins).contains_key(provider),
    ensures
        logins.contains_key(provider),
        is_name(provider, "_-."@),
        login_entry(logins[provider]) == Some(importable(logins)[provider]),
{
}

/// Commands of another machine are never taken over as keys.
pub proof fn commands_stay_behind(value: Data)
    requires
        value.field("type"@).is_text("api_key"@),
        value.field("key"@) is Text,
        value.field("key"@).text_or_empty().len() > 0,
        value.field("key"@).text_or_empty()[0] == '!',
    ensures
        login_entry(value) is None,
{
}

} // verus!
