//! The version of claude_code, which follows the one on the user's own machine.
use super::product::Product;
use crate::fault::{other, Fault, FaultView};
use crate::json::{object, opt_text, Data, Json};
use crate::text::{
    all_digits, chars_of, concat, concat3, deep, digit, is_digit, opt, opt_str, push_text, same,
    signed_decimal, signed_decimal_of, split, split_chars, string_of, words, words_of,
};
use vstd::prelude::*;

verus! {

/// A part of a version: up to six digits.
pub open spec fn version_part(part: Seq<char>) -> bool {
    all_digits(part) && part.len() <= 6
}

/// A version: three numbers.
pub open spec fn is_version(text: Seq<char>) -> bool {
    let parts = split(text, '.');
    parts.len() == 3 && version_part(parts[0]) && version_part(parts[1]) && version_part(parts[2])
}

fn is_part(part: &[char]) -> (r: bool)
    ensures
        r == version_part(part@),
{
    if part.len() == 0 || part.len() > 6 {
        return false;
    }
    let mut i: usize = 0;
    while i < part.len()
        invariant
            i <= part.len(),
            forall|j: int| 0 <= j < i ==> digit(#[trigger] part@[j]),
        decreases part.len() - i,
    {
        if !is_digit(part[i]) {
            return false;
        }
        i += 1;
    }
    true
}

/// Whether a text is a version.
pub fn valid(version: &str) -> (r: bool)
    ensures
        r == is_version(version@),
{
    let chars = chars_of(version);
    let parts = split_chars(chars.as_slice(), '.');
    let ghost all = split(version@, '.');
    assert(deep(parts@) == all);
    if parts.len() != 3 {
        return false;
    }
    assert(parts@[0]@ == all[0] && parts@[1]@ == all[1] && parts@[2]@ == all[2]);
    is_part(parts[0].as_slice()) && is_part(parts[1].as_slice()) && is_part(parts[2].as_slice())
}

/// The version that a program reports: the first word it writes.
pub open spec fn reported_version(output: Seq<char>) -> Option<Seq<char>> {
    let all = words(output);
    if all.len() > 0 && is_version(all[0]) {
        Some(all[0])
    } else {
        None
    }
}

/// The version that claude_code reports.
pub fn installed(output: &str, product: &Product) -> (r: Result<String, Fault>)
    ensures
        match r {
            Ok(v) => reported_version(output@) == Some(v@),
            Err(f) => reported_version(output@) is None && f@ == other(
                product.name@ + " did not report its version"@,
            ),
        },
{
    let chars = chars_of(output);
    let all = words_of(chars.as_slice());
    let ghost whole = words(output@);
    assert(deep(all@) == whole);
    if all.len() > 0 {
        assert(all@[0]@ == whole[0]);
        let first = string_of(all[0].as_slice());
        if valid(first.as_str()) {
            return Ok(first);
        }
    }
    Err(Fault::other(concat(product.name.as_str(), " did not report its version").as_str()))
}

/// What is to be done about the version.
#[derive(Debug)]
pub enum Update {
    /// The version could not be found out.
    Failed(String),
    /// It is the one that is wanted.
    Current(String),
    /// It is being changed already.
    Underway(String),
    /// It is not changed while claude_code runs.
    Waiting(String),
    /// It is changed now.
    Begin(String),
}

/// The mathematical value of what is to be done about the version.
pub enum UpdateView {
    Failed(Seq<char>),
    Current(Seq<char>),
    Underway(Seq<char>),
    Waiting(Seq<char>),
    Begin(Seq<char>),
}

impl View for Update {
    type V = UpdateView;

    open spec fn view(&self) -> UpdateView {
        match self {
            Update::Failed(t) => UpdateView::Failed(t@),
            Update::Current(t) => UpdateView::Current(t@),
            Update::Underway(t) => UpdateView::Underway(t@),
            Update::Waiting(t) => UpdateView::Waiting(t@),
            Update::Begin(t) => UpdateView::Begin(t@),
        }
    }
}

/// What is to be done about the version: changing it while claude_code runs could delete a program that
/// is in use.
pub open spec fn wanted_update(
    current: Result<Seq<char>, FaultView>,
    target: Seq<char>,
    changing: bool,
    busy: bool,
) -> UpdateView {
    match current {
        Err(f) => UpdateView::Failed(f.message),
        Ok(version) => if version == target {
            UpdateView::Current(version)
        } else if changing {
            UpdateView::Underway(version)
        } else if busy {
            UpdateView::Waiting(version)
        } else {
            UpdateView::Begin(version)
        },
    }
}

/// What is to be done about the version.
pub fn ensure(current: Result<String, Fault>, target: &str, changing: bool, busy: bool) -> (r:
    Update)
    ensures
        r@ == wanted_update(
            match current {
                Ok(v) => Ok(v@),
                Err(f) => Err(f@),
            },
            target@,
            changing,
            busy,
        ),
{
    match current {
        Err(fault) => Update::Failed(fault.message),
        Ok(version) => if same(version.as_str(), target) {
            Update::Current(version)
        } else if changing {
            Update::Underway(version)
        } else if busy {
            Update::Waiting(version)
        } else {
            Update::Begin(version)
        },
    }
}

/// What is told of the version.
pub open spec fn update_data(update: UpdateView, target: Seq<char>, error: Option<Seq<char>>) -> Data {
    match update {
        UpdateView::Failed(message) => Data::Object(
            map![
                "state"@ => Data::Text("failed"@),
                "target"@ => Data::Text(target),
                "error"@ => Data::Text(message)
            ],
        ),
        UpdateView::Current(version) => Data::Object(
            map![
                "state"@ => Data::Text("current"@),
                "installed"@ => Data::Text(version),
                "target"@ => Data::Text(target)
            ],
        ),
        UpdateView::Waiting(version) => Data::Object(
            map![
                "state"@ => Data::Text("waiting"@),
                "installed"@ => Data::Text(version),
                "target"@ => Data::Text(target),
                "error"@ => opt_text(error)
            ],
        ),
        UpdateView::Underway(version) => updating(version, target),
        UpdateView::Begin(version) => updating(version, target),
    }
}

/// What is told of a version that is being changed.
pub open spec fn updating(version: Seq<char>, target: Seq<char>) -> Data {
    Data::Object(
        map![
            "state"@ => Data::Text("updating"@),
            "installed"@ => Data::Text(version),
            "target"@ => Data::Text(target)
        ],
    )
}

impl Update {
    /// What is told of the version. `error` is what went wrong the last time.
    pub fn to_json(&self, target: &str, error: Option<&str>) -> (r: Json)
        ensures
            r@ == update_data(self@, target@, opt_str(error)),
    {
        match self {
            Update::Failed(message) => Json::Object(
                object().with_text("state", "failed").with_text("target", target).with_text(
                    "error",
                    message.as_str(),
                ),
            ),
            Update::Current(version) => Json::Object(
                object().with_text("state", "current").with_text(
                    "installed",
                    version.as_str(),
                ).with_text("target", target),
            ),
            Update::Waiting(version) => Json::Object(
                object().with_text("state", "waiting").with_text(
                    "installed",
                    version.as_str(),
                ).with_text("target", target).with("error", Json::opt_text(error)),
            ),
            Update::Underway(version) => tell_updating(version.as_str(), target),
            Update::Begin(version) => tell_updating(version.as_str(), target),
        }
    }
}

fn tell_updating(version: &str, target: &str) -> (r: Json)
    ensures
        r@ == updating(version@, target@),
{
    Json::Object(
        object().with_text("state", "updating").with_text("installed", version).with_text(
            "target",
            target,
        ),
    )
}

/// What went wrong with a change of the version, given how the installer ended and what is
/// installed after it.
pub open spec fn install_error(
    version: Seq<char>,
    outcome: Result<Option<i32>, Seq<char>>,
    now: Result<Seq<char>, FaultView>,
    name: Seq<char>,
    word: Seq<char>,
) -> Option<Seq<char>> {
    match outcome {
        Err(error) => Some(word + " install "@ + version + " failed: "@ + error),
        Ok(Some(code)) => if code == 0 {
            match now {
                Ok(found) => if found == version {
                    None
                } else {
                    Some(
                        name + " install finished but reports "@ + found + ", not "@ + version,
                    )
                },
                Err(f) => Some(f.message),
            }
        } else {
            Some(
                word + " install "@ + version + " failed (exit Some("@ + signed_decimal(code as int)
                    + "))"@,
            )
        },
        Ok(None) => Some(word + " install "@ + version + " failed (exit None)"@),
    }
}

/// What went wrong with a change of the version.
pub fn installed_error(
    version: &str,
    outcome: Result<Option<i32>, String>,
    now: Result<String, Fault>,
    product: &Product,
) -> (r: Option<String>)
    ensures
        opt(r) == install_error(
            version@,
            match outcome {
                Ok(code) => Ok(code),
                Err(e) => Err(e@),
            },
            match now {
                Ok(v) => Ok(v@),
                Err(f) => Err(f@),
            },
            product.name@,
            product.word@,
        ),
{
    let word = product.word.as_str();
    match outcome {
        Err(error) => {
            let mut text = concat3(word, " install ", version);
            push_text(&mut text, " failed: ");
            push_text(&mut text, error.as_str());
            Some(text)
        },
        Ok(Some(code)) => if code == 0 {
            match now {
                Ok(found) => if same(found.as_str(), version) {
                    None
                } else {
                    let mut text = concat3(
                        product.name.as_str(),
                        " install finished but reports ",
                        found.as_str(),
                    );
                    push_text(&mut text, ", not ");
                    push_text(&mut text, version);
                    Some(text)
                },
                Err(fault) => Some(fault.message),
            }
        } else {
            let mut text = concat3(word, " install ", version);
            push_text(&mut text, " failed (exit Some(");
            push_text(&mut text, signed_decimal_of(code).as_str());
            push_text(&mut text, "))");
            Some(text)
        },
        Ok(None) => {
            let mut text = concat3(word, " install ", version);
            push_text(&mut text, " failed (exit None)");
            Some(text)
        },
    }
}

/// The version is never changed while claude_code runs.
pub proof fn running_programs_are_kept(
    current: Result<Seq<char>, FaultView>,
    target: Seq<char>,
    changing: bool,
)
    ensures
        !(wanted_update(current, target, changing, true) is Begin),
{
}

} // verus!
