//! Secrets that agents ask the user for: the request, the answer, and the file that the answer is
//! written to.
use crate::failure::{conflicting, denial, forbidden, missing, Failure, FailureView};
use crate::fault::{other, Fault, FaultView};
use crate::json::{no_json, object, opt_text, push_json, values, Data, Json};
use crate::session::query::{note, Note, NoteView};
use crate::table::{in_order, is_order, Table};
use crate::text::{
    all_in, all_text_in, begins, blank, byte_len, chars_of, concat, concat3, contains_char,
    decimal, decimal_of, digit, includes, is_blank, is_digit, number, opt, opt_slice, parse_number,
    push_string, same, size, starts_with, string_of, trim, trimmed, views, words, words_of, Class,
};
use crate::wire::{holds_texts, text_members, texts_in, texts_refused};
use vstd::prelude::*;
use vstd::slice::slice_subrange;

pub mod again;
pub mod dotenv;

verus! {

/// The bytes of a value.
pub const VALUE_LIMIT: usize = 16384;

/// A request for secrets.
#[derive(Debug)]
pub struct Request {
    pub names: Vec<String>,
    pub descriptions: Table<String>,
    pub purpose: Option<String>,
    pub path: String,
}

/// The mathematical value of a request.
pub struct RequestView {
    pub names: Seq<Seq<char>>,
    pub descriptions: Map<Seq<char>, Seq<char>>,
    pub purpose: Option<Seq<char>>,
    pub path: Seq<char>,
}

impl View for Request {
    type V = RequestView;

    open spec fn view(&self) -> RequestView {
        RequestView {
            names: views(self.names@),
            descriptions: self.descriptions@,
            purpose: opt(self.purpose),
            path: self.path@,
        }
    }
}

/// The answer of the user. Without values the request is cancelled.
#[derive(Debug)]
pub struct Answer {
    pub values: Option<Table<String>>,
}

/// A name of a variable.
pub open spec fn variable(name: Seq<char>) -> bool {
    byte_len(name) <= 128 && name.len() > 0 && !digit(name[0]) && all_in(name, Class::Alnum, "_"@)
}

/// Whether a text is a name of a variable.
pub fn valid_name(name: &str) -> (r: bool)
    ensures
        r == variable(name@),
{
    let chars = chars_of(name);
    size(name) <= 128 && chars.len() > 0 && !is_digit(chars[0]) && all_text_in(
        name,
        Class::Alnum,
        "_",
    )
}

/// A text that says something.
pub open spec fn sensible(text: Seq<char>) -> bool {
    !blank(text) && byte_len(text) <= 4096 && !text.contains('\0')
}

/// Whether a text says something.
pub fn valid_text(text: &str) -> (r: bool)
    ensures
        r == sensible(text@),
{
    !is_blank(text) && size(text) <= 4096 && !contains_char(text, '\0')
}

/// Every description is of a name that is asked for.
pub open spec fn described_well(
    names: Seq<Seq<char>>,
    descriptions: Map<Seq<char>, Seq<char>>,
) -> bool {
    forall|n: Seq<char>| #[trigger]
        descriptions.contains_key(n) ==> names.contains(n) && sensible(descriptions[n])
}

/// Why a request is refused.
pub open spec fn request_refused(r: RequestView) -> Option<Seq<char>> {
    if r.names.len() == 0 || r.names.len() > 50 || !r.names.no_duplicates() {
        Some("Request 1-50 unique variable names"@)
    } else if exists|i: int| 0 <= i < r.names.len() && !variable(#[trigger] r.names[i]) {
        Some(
            "Variable names must start with a letter or underscore and contain only letters, digits, and underscores"@,
        )
    } else if !sensible(r.path) || (r.purpose is Some && !sensible(r.purpose->0))
        || !described_well(r.names, r.descriptions) {
        Some("Invalid path, purpose, or description for the requested variables"@)
    } else {
        None
    }
}

fn repeats(names: &Vec<String>) -> (r: bool)
    ensures
        r == !views(names@).no_duplicates(),
{
    let ghost all = views(names@);
    let mut i: usize = 0;
    while i < names.len()
        invariant
            i <= names.len(),
            all == views(names@),
            forall|a: int, b: int| 0 <= a < b < i ==> all[a] != all[b],
        decreases names.len() - i,
    {
        let mut j: usize = 0;
        while j < i
            invariant
                j <= i < names.len(),
                all == views(names@),
                forall|a: int| 0 <= a < j ==> all[a] != all[i as int],
            decreases i - j,
        {
            assert(all[i as int] == names@[i as int]@ && all[j as int] == names@[j as int]@);
            if same(names[j].as_str(), names[i].as_str()) {
                return true;
            }
            j += 1;
        }
        i += 1;
    }
    false
}

fn all_variables(names: &Vec<String>) -> (r: bool)
    ensures
        r == !(exists|i: int| 0 <= i < views(names@).len() && !variable(#[trigger] views(names@)[i])),
{
    let ghost all = views(names@);
    let mut i: usize = 0;
    while i < names.len()
        invariant
            i <= names.len(),
            all == views(names@),
            forall|j: int| 0 <= j < i ==> variable(#[trigger] all[j]),
        decreases names.len() - i,
    {
        assert(all[i as int] == names@[i as int]@);
        if !valid_name(names[i].as_str()) {
            assert(!variable(views(names@)[i as int]));
            return false;
        }
        i += 1;
    }
    true
}

impl Request {
    fn is_described_well(&self) -> (r: bool)
        ensures
            r == described_well(self@.names, self@.descriptions),
    {
        let count = self.descriptions.len();
        let ghost all = self.descriptions@;
        let ghost keys = in_order(all);
        let mut i: usize = 0;
        while i < count
            invariant
                i <= count,
                all == self.descriptions@,
                keys == in_order(all),
                is_order(keys, all),
                count == keys.len(),
                forall|j: int|
                    0 <= j < i ==> self@.names.contains(#[trigger] keys[j]) && sensible(
                        all[keys[j]],
                    ),
            decreases count - i,
        {
            if !includes(&self.names, self.descriptions.key_at(i)) || !valid_text(
                self.descriptions.value_at(i).as_str(),
            ) {
                assert(all.contains_key(keys[i as int]));
                return false;
            }
            i += 1;
        }
        assert forall|n: Seq<char>| #[trigger] all.contains_key(n) implies self@.names.contains(n)
            && sensible(all[n]) by {
            let j = choose|j: int| 0 <= j < keys.len() && keys[j] == n;
            assert(keys[j] == n);
        }
        true
    }
}

/// Refuses a request that cannot be asked.
pub fn check(r: &Request) -> (result: Result<(), &'static str>)
    ensures
        match result {
            Ok(()) => request_refused(r@) is None,
            Err(e) => request_refused(r@) == Some(e@),
        },
{
    assert(r@.names.len() == r.names@.len());
    if r.names.len() == 0 || r.names.len() > 50 || repeats(&r.names) {
        return Err("Request 1-50 unique variable names");
    }
    if !all_variables(&r.names) {
        return Err(
            "Variable names must start with a letter or underscore and contain only letters, digits, and underscores",
        );
    }
    let purpose = match &r.purpose {
        Some(p) => valid_text(p.as_str()),
        None => true,
    };
    if !valid_text(r.path.as_str()) || !purpose || !r.is_described_well() {
        return Err("Invalid path, purpose, or description for the requested variables");
    }
    Ok(())
}

// The request and the answer.

/// The parent of a process, as its status line says. The name of the process may hold anything; the
/// parent follows its closing bracket and its state.
pub open spec fn parent_in(stat: Seq<char>) -> nat {
    match last_bracket(stat) {
        None => 0,
        Some(i) => {
            let all = words(stat.skip(i + 1));
            if all.len() > 1 {
                match number(all[1], i32::MAX as nat) {
                    Some(n) => n,
                    None => 0,
                }
            } else {
                0
            }
        },
    }
}

/// The place of the last closing bracket.
pub open spec fn last_bracket(text: Seq<char>) -> Option<int>
    decreases text.len(),
{
    if text.len() == 0 {
        None
    } else if text.last() == ')' {
        Some(text.len() - 1)
    } else {
        last_bracket(text.drop_last())
    }
}

/// The parent of a process, as its status line says, or nothing.
pub fn parent_of(stat: &str) -> (r: u32)
    ensures
        r == parent_in(stat@),
{
    let chars = chars_of(stat);
    let ghost all = stat@;
    let mut i: usize = chars.len();
    assert(all.take(i as int) =~= all);
    while i > 0 && chars[i - 1] != ')'
        invariant
            i <= chars.len(),
            chars@ == all,
            last_bracket(all) == last_bracket(all.take(i as int)),
        decreases i,
    {
        assert(all.take(i as int).drop_last() =~= all.take(i - 1));
        assert(all.take(i as int).last() == all[i - 1]);
        i -= 1;
    }
    if i == 0 {
        assert(all.take(0) =~= Seq::empty());
        return 0;
    }
    assert(all.take(i as int).last() == all[i - 1]);
    let rest = slice_subrange(chars.as_slice(), i, chars.len());
    assert(rest@ =~= all.skip(i as int));
    let parts = words_of(rest);
    let ghost each = words(rest@);
    assert(crate::text::deep(parts@) == each);
    if parts.len() > 1 {
        assert(each[1] == parts@[1]@);
        return match parse_number(parts[1].as_slice(), i32::MAX as u64) {
            Some(n) => n as u32,
            None => 0,
        };
    }
    0
}

/// Only the account of the agents may ask for secrets.
pub fn local_auth(agent: Option<u32>, peer: Option<u32>) -> (r: Result<(), Failure>)
    ensures
        denial(r) == if peer is Some && agent == peer {
            None
        } else {
            Some(forbidden("Only the VM agent account may request secrets"@))
        },
{
    match (agent, peer) {
        (Some(a), Some(p)) => if a == p {
            Ok(())
        } else {
            Err(Failure::forbidden("Only the VM agent account may request secrets"))
        },
        _ => Err(Failure::forbidden("Only the VM agent account may request secrets")),
    }
}

/// The name of a request.
pub fn request_id(now: u64, number: u64) -> (r: String)
    ensures
        r@ == "secret-"@ + decimal(now as nat) + "-"@ + decimal(number as nat),
{
    let mut id = concat3("secret-", decimal_of(now).as_str(), "-");
    crate::text::push_text(&mut id, decimal_of(number).as_str());
    id
}

/// What the user is shown of one variable.
pub open spec fn field_data(r: RequestView, i: int) -> Data {
    Data::Object(
        map![
            "name"@ => Data::Text(r.names[i]),
            "description"@ => if r.descriptions.contains_key(r.names[i]) {
                Data::Text(r.descriptions[r.names[i]])
            } else {
                Data::Null
            }
        ],
    )
}

/// The record that opens a request.
pub open spec fn opened_note(id: Seq<char>, r: RequestView) -> NoteView {
    note(
        "secret_request"@,
        Data::Object(
            map![
                "id"@ => Data::Text(id),
                "state"@ => Data::Text("open"@),
                "purpose"@ => opt_text(r.purpose),
                "path"@ => Data::Text(r.path),
                "fields"@ => Data::Array(Seq::new(r.names.len(), |i: int| field_data(r, i)))
            ],
        ),
    )
}

/// The record that closes a request.
pub fn closed_note(id: &str) -> (r: Note)
    ensures
        r@ == note(
            "secret_request"@,
            Data::Object(map!["id"@ => Data::Text(id@), "state"@ => Data::Text("closed"@)]),
        ),
{
    Note::new(
        "secret_request",
        Json::Object(object().with_text("id", id).with_text("state", "closed")),
    )
}

impl Request {
    /// The record that opens the request.
    pub fn opened_note(&self, id: &str) -> (r: Note)
        ensures
            r@ == opened_note(id@, self@),
    {
        let ghost all = Seq::new(self@.names.len(), |i: int| field_data(self@, i));
        let mut fields = no_json();
        let mut i: usize = 0;
        assert(values(fields@) =~= all.take(0));
        while i < self.names.len()
            invariant
                i <= self.names@.len(),
                all == Seq::new(self@.names.len(), |i: int| field_data(self@, i)),
                values(fields@) == all.take(i as int),
            decreases self.names@.len() - i,
        {
            let name = self.names[i].as_str();
            assert(self@.names[i as int] == name@);
            let description = match self.descriptions.get(name) {
                Some(d) => Json::text(d.as_str()),
                None => Json::Null,
            };
            let field = Json::Object(
                object().with_text("name", name).with("description", description),
            );
            assert(field@ == all[i as int]);
            push_json(&mut fields, field);
            assert(all.take(i + 1) =~= all.take(i as int).push(all[i as int]));
            i += 1;
        }
        assert(all.take(i as int) =~= all);
        Note::new(
            "secret_request",
            Json::Object(
                object().with_text("id", id).with_text("state", "open").with(
                    "purpose",
                    Json::opt_text(opt_slice(&self.purpose)),
                ).with_text("path", self.path.as_str()).with("fields", Json::Array(fields)),
            ),
        )
    }
}

/// A request that waits for its answer.
#[derive(Debug)]
pub struct Pending {
    pub session: String,
    pub names: Vec<String>,
}

/// The mathematical value of a request that waits.
pub struct PendingView {
    pub session: Seq<char>,
    pub names: Seq<Seq<char>>,
}

impl View for Pending {
    type V = PendingView;

    open spec fn view(&self) -> PendingView {
        PendingView { session: self.session@, names: views(self.names@) }
    }
}

/// A value that can be taken: one line.
pub open spec fn one_line(value: Seq<char>) -> bool {
    value.len() > 0 && byte_len(value) <= VALUE_LIMIT && !value.contains('\n') && !value.contains(
        '\r',
    ) && !value.contains('\0')
}

/// Every variable is answered, and nothing else.
pub open spec fn answered(names: Seq<Seq<char>>, given: Map<Seq<char>, Seq<char>>) -> bool {
    in_order(given).len() == names.len() && forall|i: int|
        0 <= i < names.len() ==> given.contains_key(#[trigger] names[i]) && one_line(
            given[names[i]],
        )
}

/// Why an answer is refused.
pub open spec fn answer_refused(
    pending: Map<Seq<char>, PendingView>,
    session: Seq<char>,
    id: Seq<char>,
    given: Option<Map<Seq<char>, Seq<char>>>,
) -> Option<FailureView> {
    if !pending.contains_key(id) || pending[id].session != session {
        Some(missing("Unknown or expired secret request"@))
    } else if given is Some && !answered(pending[id].names, given->0) {
        Some(conflicting("Answer every requested variable with one non-empty line"@))
    } else {
        None
    }
}

/// The view of the values of an answer.
pub open spec fn opt_values(given: Option<Table<String>>) -> Option<Map<Seq<char>, Seq<char>>> {
    match given {
        Some(t) => Some(t@),
        None => None,
    }
}

fn answers_all(names: &Vec<String>, given: &Table<String>) -> (r: bool)
    ensures
        r == answered(views(names@), given@),
{
    let ghost all = views(names@);
    if given.len() != names.len() {
        return false;
    }
    let mut i: usize = 0;
    while i < names.len()
        invariant
            i <= names.len(),
            all == views(names@),
            in_order(given@).len() == all.len(),
            forall|j: int|
                0 <= j < i ==> given@.contains_key(#[trigger] all[j]) && one_line(given@[all[j]]),
        decreases names.len() - i,
    {
        assert(all[i as int] == names@[i as int]@);
        match given.get(names[i].as_str()) {
            None => {
                return false;
            },
            Some(value) => {
                let v = value.as_str();
                if chars_of(v).len() == 0 || size(v) > VALUE_LIMIT || contains_char(v, '\n')
                    || contains_char(v, '\r') || contains_char(v, '\0') {
                    return false;
                }
            },
        }
        i += 1;
    }
    true
}

/// The requests that wait.
#[derive(Debug)]
pub struct Secrets {
    pub pending: Table<Pending>,
}

impl Secrets {
    /// Takes in the answer of the user. A request that is answered does not wait any more.
    pub fn answer(&mut self, session: &str, id: &str, input: &Answer) -> (r: Result<(), Failure>)
        ensures
            denial(r) == answer_refused(
                old(self).pending@,
                session@,
                id@,
                opt_values(input.values),
            ),
            final(self).pending@ == if r is Ok {
                old(self).pending@.remove(id@)
            } else {
                old(self).pending@
            },
    {
        let refused: bool = match self.pending.get(id) {
            None => {
                return Err(Failure::not_found("Unknown or expired secret request"));
            },
            Some(p) => {
                if !same(p.session.as_str(), session) {
                    return Err(Failure::not_found("Unknown or expired secret request"));
                }
                match &input.values {
                    Some(given) => !answers_all(&p.names, given),
                    None => false,
                }
            },
        };
        if refused {
            return Err(
                Failure::conflict("Answer every requested variable with one non-empty line"),
            );
        }
        let ghost was = self.pending@;
        let _ = self.pending.remove(id);
        assert(self.pending@ =~= was.remove(id@));
        Ok(())
    }
}

/// A request is answered once.
pub proof fn requests_are_answered_once(
    pending: Map<Seq<char>, PendingView>,
    session: Seq<char>,
    id: Seq<char>,
    given: Option<Map<Seq<char>, Seq<char>>>,
)
    ensures
        answer_refused(pending.remove(id), session, id, given) is Some,
{
}

// The command line.

/// An answer holds exactly the variables that were asked for.
pub open spec fn answers_exactly(
    names: Seq<Seq<char>>,
    values: Map<Seq<char>, Seq<char>>,
) -> bool {
    &&& in_order(values).len() == names.len()
    &&& forall|i: int| 0 <= i < names.len() ==> values.contains_key(#[trigger] names[i])
}

/// Refuses an answer that does not hold exactly the variables that were asked for.
pub fn check_values(names: &Vec<String>, values: &Table<String>) -> (r: Result<(), Fault>)
    ensures
        match r {
            Ok(()) => answers_exactly(views(names@), values@),
            Err(f) => !answers_exactly(views(names@), values@) && f@ == other(
                "Secret response did not contain exactly the requested variables"@,
            ),
        },
{
    let ghost all = views(names@);
    let mut complete = values.len() == names.len();
    let mut i: usize = 0;
    while i < names.len() && complete
        invariant
            i <= names.len(),
            all == views(names@),
            complete ==> in_order(values@).len() == all.len() && forall|j: int|
                0 <= j < i ==> values@.contains_key(#[trigger] all[j]),
            !complete ==> !answers_exactly(all, values@),
        decreases names.len() - i,
    {
        assert(all[i as int] == names@[i as int]@);
        if !values.contains(names[i].as_str()) {
            complete = false;
        }
        i += 1;
    }
    if complete {
        Ok(())
    } else {
        Err(Fault::other("Secret response did not contain exactly the requested variables"))
    }
}

/// The values of an answer, where it holds exactly the variables that were asked for, each with a text.
pub fn read_values(names: &Vec<String>, answer: &Json) -> (r: Result<Table<String>, Fault>)
    ensures
        ({
            let given = answer@.field("values"@);
            match r {
                Ok(values) => holds_texts(given) && answers_exactly(
                    views(names@),
                    text_members(given),
                ) && values@ == text_members(given),
                Err(f) => if holds_texts(given) {
                    !answers_exactly(views(names@), text_members(given)) && f@ == other(
                        "Secret response did not contain exactly the requested variables"@,
                    )
                } else {
                    f@ == other(texts_refused(given))
                },
            }
        }),
{
    match texts_in(answer.field("values")) {
        Ok(values) => match check_values(names, &values) {
            Ok(()) => Ok(values),
            Err(fault) => Err(fault),
        },
        Err(fault) => Err(fault),
    }
}

/// How the command is used.
pub open spec fn usage() -> Seq<char> {
    "cloudroom secret request NAME... --write-env PATH [--purpose TEXT] [--describe NAME TEXT]..."@
}

/// An error of the command line.
pub open spec fn misused(message: Seq<char>) -> FaultView {
    other(message + "\nUsage: "@ + usage())
}

fn misuse(message: &str) -> (r: Fault)
    ensures
        r@ == misused(message@),
{
    let text = concat3(
        message,
        "\nUsage: ",
        "cloudroom secret request NAME... --write-env PATH [--purpose TEXT] [--describe NAME TEXT]...",
    );
    Fault::other(text.as_str())
}

/// The value of an option.
pub open spec fn value_at(args: Seq<Seq<char>>, i: int) -> Option<Seq<char>> {
    if 0 <= i < args.len() && trimmed(args[i]).len() > 0 && !begins(trimmed(args[i]), "--"@) {
        Some(trimmed(args[i]))
    } else {
        None
    }
}

/// What has been read of a command line.
pub struct Draft {
    pub names: Seq<Seq<char>>,
    pub descriptions: Map<Seq<char>, Seq<char>>,
    pub purpose: Option<Seq<char>>,
    pub path: Option<Seq<char>>,
}

/// What a command line says, from a place on.
pub open spec fn parsed_from(args: Seq<Seq<char>>, i: int, d: Draft) -> Result<Draft, FaultView>
    decreases args.len() - i,
{
    if i < 0 || i >= args.len() {
        Ok(d)
    } else {
        let arg = args[i];
        let lacking = Err(misused(arg + " needs a value"@));
        if arg == "--purpose"@ {
            match value_at(args, i + 1) {
                None => lacking,
                Some(v) => parsed_from(args, i + 2, Draft { purpose: Some(v), ..d }),
            }
        } else if arg == "--write-env"@ {
            match value_at(args, i + 1) {
                None => lacking,
                Some(v) => parsed_from(args, i + 2, Draft { path: Some(v), ..d }),
            }
        } else if arg == "--describe"@ {
            match (value_at(args, i + 1), value_at(args, i + 2)) {
                (Some(name), Some(text)) => if d.descriptions.contains_key(name) {
                    Err(misused("Duplicate --describe for "@ + name))
                } else {
                    parsed_from(
                        args,
                        i + 3,
                        Draft { descriptions: d.descriptions.insert(name, text), ..d },
                    )
                },
                _ => lacking,
            }
        } else if begins(arg, "--"@) {
            Err(misused("Unknown option "@ + arg))
        } else {
            parsed_from(args, i + 1, Draft { names: d.names.push(arg), ..d })
        }
    }
}

/// The request that a command line makes.
pub open spec fn parsed(args: Seq<Seq<char>>) -> Result<RequestView, FaultView> {
    match parsed_from(
        args,
        0,
        Draft { names: Seq::empty(), descriptions: Map::empty(), purpose: None, path: None },
    ) {
        Err(f) => Err(f),
        Ok(d) => match d.path {
            None => Err(misused("--write-env is required"@)),
            Some(path) => {
                let r = RequestView {
                    names: d.names,
                    descriptions: d.descriptions,
                    purpose: d.purpose,
                    path,
                };
                match request_refused(r) {
                    Some(why) => Err(misused(why)),
                    None => Ok(r),
                }
            },
        },
    }
}

fn read_value(args: &Vec<String>, i: usize) -> (r: Option<String>)
    ensures
        opt(r) == value_at(views(args@), i as int),
{
    if i >= args.len() {
        return None;
    }
    assert(views(args@)[i as int] == args@[i as int]@);
    let chars = chars_of(args[i].as_str());
    let inner = trim(chars.as_slice());
    let text = string_of(inner);
    if inner.len() > 0 && !starts_with(text.as_str(), "--") {
        Some(text)
    } else {
        None
    }
}

/// The request that a command line makes.
pub fn parse(args: &Vec<String>) -> (r: Result<Request, Fault>)
    ensures
        match r {
            Ok(request) => parsed(views(args@)) == Ok::<RequestView, FaultView>(request@),
            Err(f) => parsed(views(args@)) == Err::<RequestView, FaultView>(f@),
        },
{
    let ghost all = views(args@);
    let ghost start = Draft {
        names: Seq::empty(),
        descriptions: Map::empty(),
        purpose: None,
        path: None,
    };
    let mut names: Vec<String> = Vec::new();
    let mut descriptions: Table<String> = Table::new();
    let mut purpose: Option<String> = None;
    let mut path: Option<String> = None;
    let mut i: usize = 0;
    assert(views(names@) =~= Seq::<Seq<char>>::empty());
    while i < args.len()
        invariant
            i <= args.len(),
            all == views(args@),
            parsed_from(all, 0, start) == parsed_from(
                all,
                i as int,
                Draft {
                    names: views(names@),
                    descriptions: descriptions@,
                    purpose: opt(purpose),
                    path: opt(path),
                },
            ),
            start == (Draft {
                names: Seq::empty(),
                descriptions: Map::empty(),
                purpose: None,
                path: None,
            }),
        decreases args.len() - i,
    {
        let arg = args[i].as_str();
        assert(all[i as int] == arg@);
        let is_purpose = same(arg, "--purpose");
        if is_purpose || same(arg, "--write-env") {
            match read_value(args, i + 1) {
                None => {
                    return Err(misuse(concat(arg, " needs a value").as_str()));
                },
                Some(v) => {
                    if is_purpose {
                        purpose = Some(v);
                    } else {
                        path = Some(v);
                    }
                    i += 2;
                },
            }
        } else if same(arg, "--describe") {
            let name = match read_value(args, i + 1) {
                Some(name) => name,
                None => {
                    return Err(misuse(concat(arg, " needs a value").as_str()));
                },
            };
            if i + 2 >= args.len() {
                return Err(misuse(concat(arg, " needs a value").as_str()));
            }
            let text = match read_value(args, i + 2) {
                Some(text) => text,
                None => {
                    return Err(misuse(concat(arg, " needs a value").as_str()));
                },
            };
            if descriptions.contains(name.as_str()) {
                return Err(
                    misuse(concat("Duplicate --describe for ", name.as_str()).as_str()),
                );
            }
            descriptions.insert(name.as_str(), text);
            i += 3;
        } else if starts_with(arg, "--") {
            return Err(misuse(concat("Unknown option ", arg).as_str()));
        } else {
            push_string(&mut names, arg);
            i += 1;
        }
    }
    let path = match path {
        Some(path) => path,
        None => {
            return Err(misuse("--write-env is required"));
        },
    };
    let request = Request { names, descriptions, purpose, path };
    if let Err(e) = check(&request) {
        return Err(misuse(e));
    }
    Ok(request)
}

} // verus!
