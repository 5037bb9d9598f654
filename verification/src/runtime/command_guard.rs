//! Harnesses whose commands are looked at before they run. The guard is prepared as the agents' account,
//! and the harness then takes the place of what prepared it.
use super::files::{below, under};
use crate::text::{opt_str, owned, strs, views};
use vstd::prelude::*;

verus! {

/// What runs before the harness.
pub open spec fn preparation() -> Seq<char> {
    "set -eu; guard=$(\"$3\" --input-type=module -e \"$1\" \"$2\" \"$4\"); flag=$5; shift 5; exec \"$@\" \"$flag\" \"$guard\""@
}

/// What the shell is given: `source` prepares the guard, and `node` runs it.
pub open spec fn guarded(
    source: Seq<char>,
    home: Seq<char>,
    node: Seq<char>,
    binary: Seq<char>,
    word: Option<Seq<char>>,
) -> Seq<Seq<char>> {
    seq![
        "-c"@,
        preparation(),
        "cloudroom-command-guard"@,
        source,
        below(home, "cloudroom-command-guard"@),
        node,
        match word {
            Some(word) => word,
            None => "codex"@,
        },
        if word is Some {
            "--settings"@
        } else {
            "-c"@
        },
        binary
    ]
}

/// What the shell is given to run a guarded harness.
pub fn guarded_command(
    source: &str,
    home: &str,
    node: &str,
    binary: &str,
    word: Option<&str>,
) -> (r: Vec<String>)
    ensures
        views(r@) == guarded(source@, home@, node@, binary@, opt_str(word)),
{
    let directory = under(home, "cloudroom-command-guard");
    let all: [&str; 9] = [
        "-c",
        "set -eu; guard=$(\"$3\" --input-type=module -e \"$1\" \"$2\" \"$4\"); flag=$5; shift 5; exec \"$@\" \"$flag\" \"$guard\"",
        "cloudroom-command-guard",
        source,
        directory.as_str(),
        node,
        match word {
            Some(word) => word,
            None => "codex",
        },
        if word.is_some() {
            "--settings"
        } else {
            "-c"
        },
        binary,
    ];
    assert(strs(all@) =~= guarded(source@, home@, node@, binary@, opt_str(word)));
    owned(&all)
}

/// What the shell is given to run Codex guarded.
pub fn codex_command(source: &str, home: &str, node: &str, binary: &str) -> (r: Vec<String>)
    ensures
        views(r@) == guarded(source@, home@, node@, binary@, None) + seq![
            "app-server"@,
            "--listen"@,
            "stdio://"@
        ],
{
    let mut all = guarded_command(source, home, node, binary, None);
    let more: [&str; 3] = ["app-server", "--listen", "stdio://"];
    crate::text::push_strings(&mut all, &more);
    assert(strs(more@) =~= seq!["app-server"@, "--listen"@, "stdio://"@]);
    all
}

} // verus!
