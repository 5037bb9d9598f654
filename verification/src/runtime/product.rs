//! What a product is called: in texts that users read, in records, and with other programs. It all
//! follows from its name and from the one word by which it goes, which who sets the service up gives.
use super::files::{below, components, components_of, same_texts, under};
use crate::text::{concat, concat3, push_string, views};
use vstd::prelude::*;

verus! {

/// What a product is called: `name` in texts, `word` in small letters everywhere else.
#[derive(Debug)]
pub struct Product {
    pub name: String,
    pub word: String,
}

/// The name of the harness in its records.
pub open spec fn label_of(word: Seq<char>) -> Seq<char> {
    word + "-code"@
}

/// The name of the harness in its records.
pub fn label(word: &str) -> (r: String)
    ensures
        r@ == label_of(word@),
{
    concat(word, "-code")
}

/// The home of the product below that of the account.
pub open spec fn home_of(account: Seq<char>, word: Seq<char>) -> Seq<char> {
    below(account, "."@ + word)
}

/// The home of the product below that of the account.
pub fn home(account: &str, word: &str) -> (r: String)
    ensures
        r@ == home_of(account@, word@),
{
    under(account, concat(".", word).as_str())
}

/// Whether the product is told where its home is. Told of the usual one, it would keep its other files
/// elsewhere, and not find the user's own settings.
pub fn is_told_home(home: &str, account: &str, word: &str) -> (r: bool)
    ensures
        r == (components(home@) != components(home_of(account@, word@))),
{
    let usual = self::home(account, word);
    !same_texts(&components_of(home), &components_of(usual.as_str()))
}

/// The folder of skills below a home or a project.
pub open spec fn skills_of(word: Seq<char>) -> Seq<char> {
    "."@ + word + "/skills"@
}

/// The folder of skills below a home or a project.
pub fn skills_folder(word: &str) -> (r: String)
    ensures
        r@ == skills_of(word@),
{
    concat3(".", word, "/skills")
}

/// The pages at which users sign in. There are no others.
pub open spec fn pages_of(word: Seq<char>) -> Seq<Seq<char>> {
    seq![
        "https://"@ + word + ".ai/oauth/authorize?"@,
        "https://"@ + word + ".com/cai/oauth/authorize?"@,
        "https://platform."@ + word + ".com/oauth/authorize?"@
    ]
}

/// The pages at which users sign in.
pub fn sign_in_pages(word: &str) -> (r: Vec<String>)
    ensures
        views(r@) == pages_of(word@),
{
    let mut out: Vec<String> = Vec::new();
    push_string(&mut out, concat3("https://", word, ".ai/oauth/authorize?").as_str());
    push_string(&mut out, concat3("https://", word, ".com/cai/oauth/authorize?").as_str());
    push_string(&mut out, concat3("https://platform.", word, ".com/oauth/authorize?").as_str());
    assert(views(out@) =~= pages_of(word@));
    out
}

/// The name of the place of its skills, where it is kept alike on two machines.
pub open spec fn skills_place(word: Seq<char>) -> Seq<char> {
    "skills-"@ + word
}

/// The name of the place of its settings, where they are kept alike on two machines.
pub open spec fn settings_place(word: Seq<char>) -> Seq<char> {
    "settings-"@ + word
}

} // verus!
