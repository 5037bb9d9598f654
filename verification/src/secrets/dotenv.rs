//! Files of assignments, one on a line: what they say, and how one is changed and everything else
//! in them kept.
use crate::fault::{other, Fault};
use crate::table::Table;
use crate::text::{
    after_prefix, alnum, chars_of, concat, concat3, contains, contains_char, copy_all, deep, digit,
    ends_with, finishes, holds, is_digit, is_in_class, is_space, join, joined, lines, lines_of,
    push_string, push_text, retain_others, same, space, string_of, strip_prefix, trim, trim_end,
    trim_start, trimmed, trimmed_end, trimmed_end_cases, trimmed_start, trimmed_start_cases, views,
    without, without_holds, Class,
};
use vstd::prelude::*;
use vstd::slice::slice_subrange;

verus! {

// What a line says.

/// A character of a name.
pub open spec fn name_char(c: char) -> bool {
    alnum(c) || c == '_'
}

/// How many characters of a name stand at the front.
pub open spec fn name_length(text: Seq<char>) -> int
    decreases text.len(),
{
    if text.len() == 0 || !name_char(text[0]) {
        0
    } else {
        1 + name_length(text.skip(1))
    }
}

/// What stands after the word that may come first.
pub open spec fn after_word(start: Seq<char>) -> Seq<char> {
    match after_prefix(start, "export"@) {
        Some(rest) => if rest.len() > 0 && space(rest[0]) {
            trimmed_start(rest)
        } else {
            start
        },
        None => start,
    }
}

/// What a line assigns, and to what.
pub open spec fn assignment_body(line: Seq<char>) -> Seq<char> {
    after_word(trimmed_start(line))
}

/// An assignment: what stands before its value, the name, and the value with all that follows.
pub struct AssignmentView {
    pub prefix: Seq<char>,
    pub name: Seq<char>,
    pub value: Seq<char>,
}

/// The assignment that the body of a line is.
pub open spec fn body_assignment(line: Seq<char>, body: Seq<char>) -> Option<AssignmentView> {
    let end = name_length(body);
    let name = body.take(end);
    let rest = trimmed_start(body.skip(end));
    if rest.len() == 0 || rest[0] != '=' || name.len() == 0 || digit(name[0]) {
        None
    } else {
        let value = trimmed_start(rest.skip(1));
        Some(AssignmentView { prefix: line.take(line.len() - value.len()), name, value })
    }
}

/// The assignment that a line is.
pub open spec fn assigned(line: Seq<char>) -> Option<AssignmentView> {
    body_assignment(line, assignment_body(line))
}

/// An assignment: what stands before its value, the name, and the value with all that follows.
#[derive(Debug)]
pub struct Assignment {
    pub prefix: String,
    pub name: String,
    pub value: String,
}

impl View for Assignment {
    type V = AssignmentView;

    open spec fn view(&self) -> AssignmentView {
        AssignmentView { prefix: self.prefix@, name: self.name@, value: self.value@ }
    }
}

/// The view of an optional assignment.
pub open spec fn opt_assignment(a: Option<Assignment>) -> Option<AssignmentView> {
    match a {
        Some(a) => Some(a@),
        None => None,
    }
}

proof fn name_length_fits(text: Seq<char>)
    ensures
        0 <= name_length(text) <= text.len(),
        forall|i: int| 0 <= i < name_length(text) ==> name_char(#[trigger] text[i]),
        name_length(text) < text.len() ==> !name_char(text[name_length(text)]),
    decreases text.len(),
{
    if text.len() > 0 && name_char(text[0]) {
        let rest = text.skip(1);
        name_length_fits(rest);
        let n = name_length(rest);
        assert forall|i: int| 0 <= i < 1 + n implies name_char(#[trigger] text[i]) by {
            if i > 0 {
                assert(rest[i - 1] == text[i]);
            }
        }
        if n < rest.len() {
            assert(rest[n] == text[n + 1]);
        }
    }
}

fn read_name(text: &[char]) -> (r: usize)
    ensures
        r == name_length(text@),
        r <= text@.len(),
{
    let ghost all = text@;
    let mut i: usize = 0;
    assert(all.skip(0) =~= all);
    while i < text.len() && (is_in_class(text[i], Class::Alnum) || text[i] == '_')
        invariant
            i <= text.len(),
            text@ == all,
            name_length(all) == i + name_length(all.skip(i as int)),
        decreases text.len() - i,
    {
        assert(all.skip(i as int)[0] == all[i as int]);
        assert(all.skip(i as int).skip(1) =~= all.skip(i + 1));
        i += 1;
    }
    proof {
        if i < all.len() {
            assert(all.skip(i as int)[0] == all[i as int]);
        }
    }
    i
}

fn read_body(line: &[char]) -> (r: Vec<char>)
    ensures
        r@ == assignment_body(line@),
{
    let start = trim_start(line);
    let word = string_of(start);
    if let Some(rest) = strip_prefix(word.as_str(), "export") {
        let chars = chars_of(rest.as_str());
        if chars.len() > 0 && is_space(chars[0]) {
            return crate::text::copy_chars(trim_start(chars.as_slice()));
        }
    }
    crate::text::copy_chars(start)
}

proof fn value_is_shorter(line: Seq<char>)
    ensures
        match assigned(line) {
            Some(a) => a.value.len() <= line.len(),
            None => true,
        },
{
    let start = trimmed_start(line);
    trimmed_start_cases(line);
    match after_prefix(start, "export"@) {
        Some(rest) => trimmed_start_cases(rest),
        None => {},
    }
    let body = assignment_body(line);
    name_length_fits(body);
    let rest = body.skip(name_length(body));
    trimmed_start_cases(rest);
    let after = trimmed_start(rest);
    if after.len() > 0 {
        trimmed_start_cases(after.skip(1));
    }
}

/// Reads the assignment that a line is.
pub fn assignment(line: &str) -> (r: Option<Assignment>)
    ensures
        opt_assignment(r) == assigned(line@),
{
    proof {
        value_is_shorter(line@);
    }
    let chars = chars_of(line);
    let body = read_body(chars.as_slice());
    let end = read_name(body.as_slice());
    let name = slice_subrange(body.as_slice(), 0, end);
    assert(name@ =~= body@.take(end as int));
    let after = slice_subrange(body.as_slice(), end, body.len());
    assert(after@ =~= body@.skip(end as int));
    let rest = trim_start(after);
    if rest.len() == 0 || rest[0] != '=' || name.len() == 0 || is_digit(name[0]) {
        return None;
    }
    let beyond = slice_subrange(rest, 1, rest.len());
    assert(beyond@ =~= rest@.skip(1));
    let value = trim_start(beyond);
    let prefix = slice_subrange(chars.as_slice(), 0, chars.len() - value.len());
    assert(prefix@ =~= line@.take(line@.len() - value@.len()));
    Some(
        Assignment {
            prefix: string_of(prefix),
            name: string_of(name),
            value: string_of(value),
        },
    )
}

/// A quoted value is closed, from a place on.
pub open spec fn closed_from(value: Seq<char>, i: int, quote: char, escaped: bool) -> bool
    decreases value.len() - i,
{
    if i < 0 || i >= value.len() {
        false
    } else if escaped {
        closed_from(value, i + 1, quote, false)
    } else if quote == '"' && value[i] == '\\' {
        closed_from(value, i + 1, quote, true)
    } else if value[i] == quote {
        true
    } else {
        closed_from(value, i + 1, quote, false)
    }
}

/// Whether a quoted value is closed on its line.
pub fn closes(value: &str, quote: char) -> (r: bool)
    ensures
        r == closed_from(value@, 1, quote, false),
{
    let chars = chars_of(value);
    let ghost all = value@;
    let mut escaped = false;
    let mut i: usize = 1;
    while i < chars.len()
        invariant
            1 <= i,
            chars@ == all,
            all == value@,
            closed_from(all, 1, quote, false) == closed_from(all, i as int, quote, escaped),
        decreases chars.len() - i,
    {
        let c = chars[i];
        if escaped {
            escaped = false;
        } else if quote == '"' && c == '\\' {
            escaped = true;
        } else if c == quote {
            return true;
        }
        i += 1;
    }
    false
}

// What a file says.

/// A line whose value is continued on the next.
pub open spec fn is_open(line: Seq<char>) -> bool {
    match assigned(line) {
        None => false,
        Some(a) => a.value.len() > 0 && (a.value[0] == '\'' || a.value[0] == '"') && !closed_from(
            a.value,
            1,
            a.value[0],
            false,
        ),
    }
}

/// The line assigns a name.
pub open spec fn assigns(line: Seq<char>, name: Seq<char>) -> bool {
    match assigned(line) {
        Some(a) => a.name == name,
        None => false,
    }
}

/// How many lines assign a name.
pub open spec fn times_assigned(all: Seq<Seq<char>>, name: Seq<char>) -> nat
    decreases all.len(),
{
    if all.len() == 0 {
        0
    } else {
        times_assigned(all.drop_last(), name) + if assigns(all.last(), name) {
            1nat
        } else {
            0nat
        }
    }
}

/// The first of some names that is assigned more than once.
pub open spec fn first_repeated(all: Seq<Seq<char>>, names: Seq<Seq<char>>) -> Option<Seq<char>>
    decreases names.len(),
{
    if names.len() == 0 {
        None
    } else {
        match first_repeated(all, names.drop_last()) {
            Some(n) => Some(n),
            None => if times_assigned(all, names.last()) > 1 {
                Some(names.last())
            } else {
                None
            },
        }
    }
}

/// Why a file cannot be changed safely.
pub open spec fn file_refused(content: Seq<char>, names: Seq<Seq<char>>) -> Option<Seq<char>> {
    let all = lines(content);
    if exists|i: int| 0 <= i < all.len() && is_open(#[trigger] all[i]) {
        Some("Dotenv files with multiline quoted values cannot be reconciled safely"@)
    } else {
        match first_repeated(all, names) {
            Some(name) => Some("Dotenv file contains duplicate assignments for "@ + name),
            None => None,
        }
    }
}

fn line_is_open(line: &str) -> (r: bool)
    ensures
        r == is_open(line@),
{
    match assignment(line) {
        None => false,
        Some(a) => {
            let value = chars_of(a.value.as_str());
            value.len() > 0 && (value[0] == '\'' || value[0] == '"') && !closes(
                a.value.as_str(),
                value[0],
            )
        },
    }
}

fn count_assigned(all: &Vec<String>, name: &str) -> (r: usize)
    ensures
        r == times_assigned(views(all@), name@),
{
    let ghost every = views(all@);
    let mut count: usize = 0;
    let mut i: usize = 0;
    assert(every.take(0) =~= Seq::empty());
    while i < all.len()
        invariant
            i <= all.len(),
            every == views(all@),
            count <= i,
            count == times_assigned(every.take(i as int), name@),
        decreases all.len() - i,
    {
        assert(every.take(i + 1).drop_last() =~= every.take(i as int));
        assert(every.take(i + 1).last() == all@[i as int]@);
        if let Some(a) = assignment(all[i].as_str()) {
            if same(a.name.as_str(), name) {
                count += 1;
            }
        }
        i += 1;
    }
    assert(every.take(i as int) =~= every);
    count
}

fn texts_in(content: &str) -> (r: Vec<String>)
    ensures
        views(r@) == lines(content@),
{
    let chars = chars_of(content);
    let all = lines_of(chars.as_slice());
    let ghost every = lines(content@);
    let mut out: Vec<String> = Vec::new();
    let mut i: usize = 0;
    assert(views(out@) =~= every.take(0));
    while i < all.len()
        invariant
            i <= all.len(),
            deep(all@) == every,
            views(out@) == every.take(i as int),
        decreases all.len() - i,
    {
        assert(every[i as int] == all@[i as int]@);
        push_string(&mut out, string_of(all[i].as_slice()).as_str());
        assert(every.take(i + 1) =~= every.take(i as int).push(every[i as int]));
        i += 1;
    }
    assert(every.take(i as int) =~= every);
    out
}

proof fn repeated_stays(all: Seq<Seq<char>>, names: Seq<Seq<char>>, n: int)
    requires
        0 <= n <= names.len(),
        first_repeated(all, names.take(n)) is Some,
    ensures
        first_repeated(all, names) == first_repeated(all, names.take(n)),
    decreases names.len() - n,
{
    if n == names.len() {
        assert(names.take(n) =~= names);
    } else {
        assert(names.take(n + 1).drop_last() =~= names.take(n));
        repeated_stays(all, names, n + 1);
    }
}

/// Refuses a file that cannot be changed safely.
pub fn check_file(content: &str, names: &Vec<String>) -> (r: Result<(), Fault>)
    ensures
        match r {
            Ok(()) => file_refused(content@, views(names@)) is None,
            Err(f) => match file_refused(content@, views(names@)) {
                Some(why) => f@ == other(why),
                None => false,
            },
        },
{
    let all = texts_in(content);
    let ghost every = lines(content@);
    let ghost wanted = views(names@);
    let mut i: usize = 0;
    while i < all.len()
        invariant
            i <= all.len(),
            every == views(all@),
            every == lines(content@),
            forall|j: int| 0 <= j < i ==> !is_open(#[trigger] every[j]),
        decreases all.len() - i,
    {
        assert(every[i as int] == all@[i as int]@);
        if line_is_open(all[i].as_str()) {
            return Err(
                Fault::other(
                    "Dotenv files with multiline quoted values cannot be reconciled safely",
                ),
            );
        }
        i += 1;
    }
    assert(!(exists|j: int| 0 <= j < every.len() && is_open(#[trigger] every[j])));
    let mut k: usize = 0;
    assert(wanted.take(0) =~= Seq::empty());
    while k < names.len()
        invariant
            k <= names.len(),
            every == views(all@),
            every == lines(content@),
            !(exists|j: int| 0 <= j < every.len() && is_open(#[trigger] every[j])),
            wanted == views(names@),
            first_repeated(every, wanted.take(k as int)) is None,
        decreases names.len() - k,
    {
        assert(wanted.take(k + 1).drop_last() =~= wanted.take(k as int));
        assert(wanted.take(k + 1).last() == names@[k as int]@);
        if count_assigned(&all, names[k].as_str()) > 1 {
            proof {
                repeated_stays(every, wanted, k + 1);
            }
            return Err(
                Fault::other(
                    concat(
                        "Dotenv file contains duplicate assignments for ",
                        names[k].as_str(),
                    ).as_str(),
                ),
            );
        }
        k += 1;
    }
    assert(wanted.take(k as int) =~= wanted);
    Ok(())
}

// How a value is written.

/// A value as it is written, where that is possible on one line.
pub open spec fn encoded(value: Seq<char>) -> Option<Seq<char>> {
    if !value.contains('\'') {
        Some("'"@ + value + "'"@)
    } else if !value.contains('"') && !holds(value, "\\n"@) && !holds(value, "\\r"@) {
        Some("\""@ + value + "\""@)
    } else if value == trimmed(value) && !value.contains('#') {
        Some(value)
    } else {
        None
    }
}

/// Writes a value.
pub fn encode(value: &str) -> (r: Result<String, Fault>)
    ensures
        match r {
            Ok(text) => encoded(value@) == Some(text@),
            Err(f) => encoded(value@) is None && f@ == other(
                "A secret value cannot be represented safely in a single dotenv assignment"@,
            ),
        },
{
    proof {
        reveal_strlit("\\n");
        reveal_strlit("\\r");
        assert("\\n"@.len() == 2 && "\\r"@.len() == 2);
    }
    if !contains_char(value, '\'') {
        return Ok(concat3("'", value, "'"));
    }
    if !contains_char(value, '"') && !contains(value, "\\n") && !contains(value, "\\r") {
        return Ok(concat3("\"", value, "\""));
    }
    let chars = chars_of(value);
    let inner = string_of(trim(chars.as_slice()));
    if same(value, inner.as_str()) && !contains_char(value, '#') {
        return Ok(value.to_owned());
    }
    Err(
        Fault::other("A secret value cannot be represented safely in a single dotenv assignment"),
    )
}

/// The comment after a value, from a place on. What is quoted is no comment.
pub open spec fn comment_from(rest: Seq<char>, i: int, quote: Option<char>, escaped: bool) -> Seq<
    char,
>
    decreases rest.len() - i,
{
    if i < 0 || i >= rest.len() {
        Seq::empty()
    } else {
        let c = rest[i];
        if escaped {
            comment_from(rest, i + 1, quote, false)
        } else if c == '\\' && quote == Some('"') {
            comment_from(rest, i + 1, quote, true)
        } else if c == '\'' || c == '"' {
            comment_from(
                rest,
                i + 1,
                if quote == Some(c) {
                    None
                } else if quote is Some {
                    quote
                } else {
                    Some(c)
                },
                false,
            )
        } else if c == '#' && quote is None && i > 0 && space(rest[i - 1]) {
            rest.skip(trimmed_end(rest.take(i)).len() as int)
        } else {
            comment_from(rest, i + 1, quote, false)
        }
    }
}

/// The comment after a value, with the spaces before it.
pub fn comment(rest: &str) -> (r: String)
    ensures
        r@ == comment_from(rest@, 0, None, false),
{
    let chars = chars_of(rest);
    let ghost all = rest@;
    let mut quote: Option<char> = None;
    let mut escaped = false;
    let mut i: usize = 0;
    while i < chars.len()
        invariant
            i <= chars.len(),
            chars@ == all,
            all == rest@,
            comment_from(all, 0, None, false) == comment_from(all, i as int, quote, escaped),
        decreases chars.len() - i,
    {
        let c = chars[i];
        if escaped {
            escaped = false;
        } else if c == '\\' && quote == Some('"') {
            escaped = true;
        } else if c == '\'' || c == '"' {
            quote = match quote {
                Some(q) => if q == c {
                    None
                } else {
                    Some(q)
                },
                None => Some(c),
            };
        } else if c == '#' && quote.is_none() && i > 0 && is_space(chars[i - 1]) {
            let before = slice_subrange(chars.as_slice(), 0, i);
            assert(before@ =~= all.take(i as int));
            proof {
                trimmed_end_cases(all.take(i as int));
            }
            let kept = trim_end(before).len();
            let found = slice_subrange(chars.as_slice(), kept, chars.len());
            assert(found@ =~= all.skip(kept as int));
            return string_of(found);
        }
        i += 1;
    }
    let none = String::new();
    assert(none@ =~= Seq::<char>::empty());
    none
}

// How a file is changed.

/// A line with its value replaced, where its name has one.
pub open spec fn line_after(line: Seq<char>, values: Map<Seq<char>, Seq<char>>) -> Option<Seq<char>> {
    match assigned(line) {
        None => Some(line),
        Some(a) => if !values.contains_key(a.name) {
            Some(line)
        } else {
            match encoded(values[a.name]) {
                None => None,
                Some(text) => Some(a.prefix + text + comment_from(a.value, 0, None, false)),
            }
        },
    }
}

/// The line assigns a name that has a value.
pub open spec fn line_wanted(line: Seq<char>, values: Map<Seq<char>, Seq<char>>) -> bool {
    match assigned(line) {
        Some(a) => values.contains_key(a.name),
        None => false,
    }
}

/// Lines while they are gone through.
pub struct Pass {
    pub lines: Seq<Seq<char>>,
    /// The names that have not been met.
    pub missing: Seq<Seq<char>>,
    pub updated: nat,
    pub unchanged: nat,
}

/// One more line is gone through.
pub open spec fn line_passed(p: Pass, line: Seq<char>, values: Map<Seq<char>, Seq<char>>) -> Option<
    Pass,
> {
    match line_after(line, values) {
        None => None,
        Some(next) => Some(
            Pass {
                lines: p.lines.push(next),
                missing: if line_wanted(line, values) {
                    without(p.missing, assigned(line)->0.name)
                } else {
                    p.missing
                },
                updated: p.updated + if line_wanted(line, values) && next != line {
                    1nat
                } else {
                    0nat
                },
                unchanged: p.unchanged + if line_wanted(line, values) && next == line {
                    1nat
                } else {
                    0nat
                },
            },
        ),
    }
}

/// Lines are gone through.
pub open spec fn passed(
    all: Seq<Seq<char>>,
    names: Seq<Seq<char>>,
    values: Map<Seq<char>, Seq<char>>,
) -> Option<Pass>
    decreases all.len(),
{
    if all.len() == 0 {
        Some(Pass { lines: Seq::empty(), missing: names, updated: 0, unchanged: 0 })
    } else {
        match passed(all.drop_last(), names, values) {
            None => None,
            Some(p) => line_passed(p, all.last(), values),
        }
    }
}

/// A new line for a name.
pub open spec fn new_line(name: Seq<char>, values: Map<Seq<char>, Seq<char>>) -> Option<Seq<char>> {
    match encoded(values[name]) {
        Some(text) => Some(name + "="@ + text),
        None => None,
    }
}

/// Lines with new ones for the names that have none.
pub open spec fn lines_added(
    all: Seq<Seq<char>>,
    missing: Seq<Seq<char>>,
    values: Map<Seq<char>, Seq<char>>,
) -> Option<Seq<Seq<char>>>
    decreases missing.len(),
{
    if missing.len() == 0 {
        Some(all)
    } else {
        match (
            lines_added(all, missing.drop_last(), values),
            new_line(missing.last(), values),
        ) {
            (Some(before), Some(line)) => Some(before.push(line)),
            _ => None,
        }
    }
}

/// How the lines of a file end.
pub open spec fn line_ending(content: Seq<char>) -> Seq<char> {
    if holds(content, "\r\n"@) {
        "\r\n"@
    } else {
        "\n"@
    }
}

/// A file of lines. It ends as the one before did, or with a line ending where lines were added.
pub open spec fn file_of(content: Seq<char>, all: Seq<Seq<char>>, added: nat) -> Seq<char> {
    let ending = line_ending(content);
    let text = joined(all, ending);
    if text.len() > 0 && (finishes(content, "\n"@) || added > 0) {
        text + ending
    } else {
        text
    }
}

/// What a file is changed to.
pub struct ReconciledView {
    pub content: Seq<char>,
    pub added: nat,
    pub updated: nat,
    pub unchanged: nat,
}

/// What a file is changed to, where every value can be written.
pub open spec fn reconciled(
    content: Seq<char>,
    names: Seq<Seq<char>>,
    values: Map<Seq<char>, Seq<char>>,
) -> Option<ReconciledView> {
    match passed(lines(content), names, values) {
        None => None,
        Some(p) => match lines_added(p.lines, p.missing, values) {
            None => None,
            Some(all) => Some(
                ReconciledView {
                    content: file_of(content, all, p.missing.len()),
                    added: p.missing.len(),
                    updated: p.updated,
                    unchanged: p.unchanged,
                },
            ),
        },
    }
}

/// What a file is changed to.
#[derive(Debug)]
pub struct Reconciled {
    pub content: String,
    pub added: usize,
    pub updated: usize,
    pub unchanged: usize,
}

impl View for Reconciled {
    type V = ReconciledView;

    open spec fn view(&self) -> ReconciledView {
        ReconciledView {
            content: self.content@,
            added: self.added as nat,
            updated: self.updated as nat,
            unchanged: self.unchanged as nat,
        }
    }
}

proof fn pass_fails(
    all: Seq<Seq<char>>,
    names: Seq<Seq<char>>,
    values: Map<Seq<char>, Seq<char>>,
    n: int,
)
    requires
        0 <= n <= all.len(),
        passed(all.take(n), names, values) is None,
    ensures
        passed(all, names, values) is None,
    decreases all.len() - n,
{
    if n == all.len() {
        assert(all.take(n) =~= all);
    } else {
        assert(all.take(n + 1).drop_last() =~= all.take(n));
        pass_fails(all, names, values, n + 1);
    }
}

proof fn adding_fails(
    all: Seq<Seq<char>>,
    missing: Seq<Seq<char>>,
    values: Map<Seq<char>, Seq<char>>,
    n: int,
)
    requires
        0 <= n <= missing.len(),
        lines_added(all, missing.take(n), values) is None,
    ensures
        lines_added(all, missing, values) is None,
    decreases missing.len() - n,
{
    if n == missing.len() {
        assert(missing.take(n) =~= missing);
    } else {
        assert(missing.take(n + 1).drop_last() =~= missing.take(n));
        adding_fails(all, missing, values, n + 1);
    }
}

proof fn without_shrinks(texts: Seq<Seq<char>>, text: Seq<char>)
    ensures
        without(texts, text).len() <= texts.len(),
        forall|x: Seq<char>| #[trigger]
            without(texts, text).contains(x) ==> texts.contains(x),
    decreases texts.len(),
{
    if texts.len() > 0 {
        without_shrinks(texts.drop_last(), text);
        let before = without(texts.drop_last(), text);
        assert forall|x: Seq<char>| #[trigger] without(texts, text).contains(x) implies texts.contains(
            x,
        ) by {
            let now = without(texts, text);
            let i = choose|i: int| 0 <= i < now.len() && now[i] == x;
            if i < before.len() {
                assert(before[i] == x);
                assert(before.contains(x));
                let j = choose|j: int|
                    0 <= j < texts.drop_last().len() && texts.drop_last()[j] == x;
                assert(texts[j] == x);
            } else {
                assert(texts.last() == x);
            }
        }
    }
}

/// Changes a file so that it holds the values of the names. Everything else in it is kept.
pub fn reconcile(content: &str, names: &Vec<String>, values: &Table<String>) -> (r: Result<
    Reconciled,
    Fault,
>)
    requires
        forall|i: int| 0 <= i < names@.len() ==> values@.contains_key((#[trigger] names@[i])@),
    ensures
        match r {
            Ok(done) => changes(content@, views(names@), values@) == Some(done@),
            Err(_) => changes(content@, views(names@), values@) is None,
        },
        match file_refused(content@, views(names@)) {
            Some(why) => r is Err && r->Err_0@ == other(why),
            None => match r {
                Ok(done) => reconciled(content@, views(names@), values@) == Some(done@),
                Err(f) => reconciled(content@, views(names@), values@) is None && f@ == other(
                    "A secret value cannot be represented safely in a single dotenv assignment"@,
                ),
            },
        },
{
    if let Err(f) = check_file(content, names) {
        return Err(f);
    }
    let before = texts_in(content);
    let ghost all = lines(content@);
    let ghost wanted = views(names@);
    let mut after: Vec<String> = Vec::new();
    let mut missing = copy_all(names);
    let mut updated: usize = 0;
    let mut unchanged: usize = 0;
    let mut i: usize = 0;
    assert(all.take(0) =~= Seq::empty());
    assert(views(after@) =~= Seq::<Seq<char>>::empty());
    assert forall|x: Seq<char>| #[trigger] wanted.contains(x) implies values@.contains_key(x) by {
        let j = choose|j: int| 0 <= j < wanted.len() && wanted[j] == x;
        assert(values@.contains_key(names@[j]@));
    }
    while i < before.len()
        invariant
            i <= before.len(),
            all == views(before@),
            all == lines(content@),
            wanted == views(names@),
            file_refused(content@, wanted) is None,
            updated <= i,
            unchanged <= i,
            forall|x: Seq<char>| #[trigger]
                views(missing@).contains(x) ==> values@.contains_key(x),
            passed(all.take(i as int), wanted, values@) == Some(
                Pass {
                    lines: views(after@),
                    missing: views(missing@),
                    updated: updated as nat,
                    unchanged: unchanged as nat,
                },
            ),
        decreases before.len() - i,
    {
        assert(all.take(i + 1).drop_last() =~= all.take(i as int));
        assert(all.take(i + 1).last() == before@[i as int]@);
        let line = before[i].as_str();
        match assignment(line) {
            Some(a) => match values.get(a.name.as_str()) {
                Some(value) => {
                    let text = match encode(value.as_str()) {
                        Ok(text) => text,
                        Err(f) => {
                            proof {
                                pass_fails(all, wanted, values@, i + 1);
                            }
                            return Err(f);
                        },
                    };
                    let next = concat3(
                        a.prefix.as_str(),
                        text.as_str(),
                        comment(a.value.as_str()).as_str(),
                    );
                    proof {
                        without_shrinks(views(missing@), a.name@);
                    }
                    missing = retain_others(&missing, a.name.as_str());
                    if same(next.as_str(), line) {
                        unchanged += 1;
                    } else {
                        updated += 1;
                    }
                    push_string(&mut after, next.as_str());
                },
                None => {
                    push_string(&mut after, line);
                },
            },
            None => {
                push_string(&mut after, line);
            },
        }
        i += 1;
    }
    assert(all.take(i as int) =~= all);
    let ghost kept = views(after@);
    let ghost fresh = views(missing@);
    let added = missing.len();
    let mut k: usize = 0;
    assert(fresh.take(0) =~= Seq::empty());
    while k < missing.len()
        invariant
            k <= missing.len(),
            fresh == views(missing@),
            wanted == views(names@),
            all == lines(content@),
            file_refused(content@, wanted) is None,
            forall|x: Seq<char>| #[trigger] fresh.contains(x) ==> values@.contains_key(x),
            passed(all, wanted, values@) == Some(
                Pass {
                    lines: kept,
                    missing: fresh,
                    updated: updated as nat,
                    unchanged: unchanged as nat,
                },
            ),
            lines_added(kept, fresh.take(k as int), values@) == Some(views(after@)),
        decreases missing.len() - k,
    {
        assert(fresh.take(k + 1).drop_last() =~= fresh.take(k as int));
        assert(fresh.take(k + 1).last() == missing@[k as int]@);
        assert(fresh.contains(fresh[k as int]));
        let name = missing[k].as_str();
        if let Some(value) = values.get(name) {
            let text = match encode(value.as_str()) {
                Ok(text) => text,
                Err(f) => {
                    proof {
                        adding_fails(kept, fresh, values@, k + 1);
                    }
                    return Err(f);
                },
            };
            push_string(&mut after, concat3(name, "=", text.as_str()).as_str());
        }
        k += 1;
    }
    assert(fresh.take(k as int) =~= fresh);
    let ending = if contains(content, "\r\n") {
        "\r\n"
    } else {
        "\n"
    };
    let mut text = join(&after, ending);
    if chars_of(text.as_str()).len() > 0 && (ends_with(content, "\n") || added > 0) {
        push_text(&mut text, ending);
    }
    assert(views(missing@).len() == missing@.len());
    Ok(Reconciled { content: text, added, updated, unchanged })
}

// What holds of a changed file.

proof fn trimming_keeps_the_rest(a: Seq<char>, b: Seq<char>)
    requires
        trimmed_start(a).len() > 0,
    ensures
        trimmed_start(a + b) == trimmed_start(a) + b,
    decreases a.len(),
{
    let whole = a + b;
    assert(whole[0] == a[0]);
    if space(a[0]) {
        let rest = a.subrange(1, a.len() as int);
        trimming_keeps_the_rest(rest, b);
        assert(whole.subrange(1, whole.len() as int) =~= rest + b);
    }
}

proof fn names_end_alike(a: Seq<char>, b: Seq<char>)
    requires
        name_length(a) < a.len(),
    ensures
        name_length(a + b) == name_length(a),
    decreases a.len(),
{
    let whole = a + b;
    name_length_fits(a);
    if a.len() > 0 {
        assert(whole[0] == a[0]);
        if name_char(a[0]) {
            names_end_alike(a.skip(1), b);
            assert(whole.skip(1) =~= a.skip(1) + b);
        }
    }
}

proof fn spaces_then(a: Seq<char>, b: Seq<char>)
    requires
        trimmed_start(a).len() == 0,
        b.len() > 0,
        !space(b[0]),
    ensures
        trimmed_start(a + b) == b,
    decreases a.len(),
{
    let whole = a + b;
    if a.len() == 0 {
        assert(whole =~= b);
    } else {
        trimmed_start_cases(a);
        assert(whole[0] == a[0]);
        let rest = a.subrange(1, a.len() as int);
        spaces_then(rest, b);
        assert(whole.subrange(1, whole.len() as int) =~= rest + b);
    }
}

/// The front of a line up to its value, seen from the body of the line.
proof fn body_of_prefix(line: Seq<char>, a: AssignmentView, text: Seq<char>)
    requires
        assigned(line) == Some(a),
        text.len() > 0,
        !space(text[0]),
    ensures
        assigned(a.prefix + text) == Some(
            AssignmentView { prefix: a.prefix, name: a.name, value: text },
        ),
{
    value_is_shorter(line);
    let start = trimmed_start(line);
    trimmed_start_cases(line);
    let body = assignment_body(line);
    let end = name_length(body);
    name_length_fits(body);
    let tail = body.skip(end);
    trimmed_start_cases(tail);
    let rest = trimmed_start(tail);
    let beyond = rest.skip(1);
    trimmed_start_cases(beyond);
    let value = a.value;
    // The body without its value.
    let lead = line.len() - start.len();
    let short = start.take(start.len() - value.len());
    assert(body.len() > value.len());
    assert(start.len() >= body.len()) by {
        match after_prefix(start, "export"@) {
            Some(word) => trimmed_start_cases(word),
            None => {},
        }
    }
    assert(a.prefix =~= line.take(lead) + short) by {
        assert(start =~= line.skip(lead));
    }
    // White space before the body goes, whatever follows.
    prefix_start(line.take(lead), short, text, line);
    let front = a.prefix + text;
    assert(trimmed_start(front) == short + text);
    let whole = short + text;
    // The body of the changed line.
    let body_short = body.take(body.len() - value.len());
    body_keeps(start, short, text, value.len() as int);
    assert(assignment_body(front) == body_short + text);
    // The name ends before the value begins.
    let changed = body_short + text;
    assert(body_short.len() > end) by {
        assert(tail.len() == body.len() - end);
        assert(rest.len() <= tail.len());
        assert(beyond.len() == rest.len() - 1);
        assert(value.len() <= beyond.len());
    }
    assert(body_short.take(end) =~= body.take(end));
    prefix_name(body, body_short, end);
    names_end_alike(body_short, text);
    assert(changed.take(end) =~= body.take(end));
    // What follows the name.
    let tail_short = body_short.skip(end);
    assert(changed.skip(end) =~= tail_short + text);
    assert(tail_short =~= tail.take(tail.len() - value.len()));
    tail_keeps(tail, tail_short, text, value.len() as int);
    let rest_short = rest.take(rest.len() - value.len());
    assert(trimmed_start(changed.skip(end)) == rest_short + text);
    let after = rest_short + text;
    assert(after[0] == rest[0]);
    let gap = rest_short.skip(1);
    assert(after.skip(1) =~= gap + text);
    assert(gap =~= beyond.take(beyond.len() - value.len()));
    blank_gap(beyond, gap, value);
    spaces_then(gap, text);
    assert(front.take(front.len() - text.len()) =~= a.prefix);
}

proof fn prefix_start(white: Seq<char>, short: Seq<char>, text: Seq<char>, line: Seq<char>)
    requires
        forall|i: int| 0 <= i < white.len() ==> space(#[trigger] white[i]),
        short.len() > 0,
        !space(short[0]),
    ensures
        trimmed_start(white + short + text) == short + text,
    decreases white.len(),
{
    let whole = white + short + text;
    if white.len() == 0 {
        assert(whole =~= short + text);
        assert(whole[0] == short[0]);
    } else {
        let rest = white.subrange(1, white.len() as int);
        assert forall|i: int| 0 <= i < rest.len() implies space(#[trigger] rest[i]) by {
            assert(rest[i] == white[i + 1]);
        }
        prefix_start(rest, short, text, line);
        assert(whole[0] == white[0]);
        assert(whole.subrange(1, whole.len() as int) =~= rest + short + text);
    }
}

proof fn prefix_name(body: Seq<char>, short: Seq<char>, end: int)
    requires
        0 <= end < short.len() <= body.len(),
        short == body.take(short.len() as int),
        end == name_length(body),
    ensures
        name_length(short) == end,
    decreases body.len(),
{
    name_length_fits(body);
    if end > 0 {
        assert(short[0] == body[0]);
        assert(name_char(body[0]));
        assert(short.skip(1) =~= body.skip(1).take(short.len() - 1));
        prefix_name(body.skip(1), short.skip(1), end - 1);
    } else {
        assert(short[0] == body[0]);
    }
}

proof fn tail_keeps(tail: Seq<char>, short: Seq<char>, text: Seq<char>, cut: int)
    requires
        0 <= cut < trimmed_start(tail).len(),
        short == tail.take(tail.len() - cut),
    ensures
        trimmed_start(short + text) == trimmed_start(tail).take(trimmed_start(tail).len() - cut)
            + text,
    decreases tail.len(),
{
    trimmed_start_cases(tail);
    let whole = short + text;
    assert(short.len() > 0);
    assert(whole[0] == tail[0]);
    if space(tail[0]) {
        let rest = tail.subrange(1, tail.len() as int);
        assert(short.skip(1) =~= rest.take(rest.len() - cut));
        tail_keeps(rest, short.skip(1), text, cut);
        assert(whole.subrange(1, whole.len() as int) =~= short.skip(1) + text);
    } else {
        assert(trimmed_start(tail) == tail);
    }
}

proof fn blank_gap(beyond: Seq<char>, gap: Seq<char>, value: Seq<char>)
    requires
        value == trimmed_start(beyond),
        gap == beyond.take(beyond.len() - value.len()),
    ensures
        trimmed_start(gap).len() == 0,
{
    trimmed_start_cases(beyond);
    trimmed_start_cases(gap);
    let t = trimmed_start(gap);
    if t.len() > 0 {
        let k = gap.len() - t.len();
        assert(t[0] == gap[k]);
        assert(gap[k] == beyond[k]);
        assert(space(beyond[k]));
    }
}

/// The body of a line that begins without white space, with its value replaced.
proof fn body_keeps(start: Seq<char>, short: Seq<char>, text: Seq<char>, cut: int)
    requires
        start.len() > 0,
        !space(start[0]),
        0 <= cut,
        short == start.take(start.len() - cut),
        name_length(after_word(start)) < after_word(start).len() - cut,
    ensures
        after_word(short + text) == after_word(start).take(after_word(start).len() - cut) + text,
{
    reveal_strlit("export");
    let word = "export"@;
    assert(word.len() == 6);
    let whole = short + text;
    name_length_fits(start);
    match after_prefix(start, word) {
        Some(rest) => {
            trimmed_start_cases(rest);
            assert(rest =~= start.skip(6));
            if rest.len() > 0 && space(rest[0]) {
                let body = trimmed_start(rest);
                name_length_fits(body);
                assert(short.len() > 6);
                assert(crate::text::begins(whole, word)) by {
                    assert(whole.subrange(0, 6) =~= start.subrange(0, 6));
                }
                let changed = whole.skip(6);
                assert(after_prefix(whole, word) == Some(changed)) by {
                    assert(whole.subrange(6, whole.len() as int) =~= changed);
                }
                assert(changed =~= rest.take(rest.len() - cut) + text);
                assert(changed[0] == rest[0]);
                tail_keeps(rest, rest.take(rest.len() - cut), text, cut);
            } else {
                begins_alike(start, short, text, cut);
            }
        },
        None => {
            begins_alike(start, short, text, cut);
        },
    }
}

/// A line that does not begin with the word goes on not to.
proof fn begins_alike(start: Seq<char>, short: Seq<char>, text: Seq<char>, cut: int)
    requires
        0 <= cut,
        short == start.take(start.len() - cut),
        name_length(start) < start.len() - cut,
        match after_prefix(start, "export"@) {
            Some(rest) => !(rest.len() > 0 && space(rest[0])),
            None => true,
        },
    ensures
        match after_prefix(short + text, "export"@) {
            Some(rest) => !(rest.len() > 0 && space(rest[0])),
            None => true,
        },
{
    reveal_strlit("export");
    let word = "export"@;
    assert(word.len() == 6);
    let whole = short + text;
    name_length_fits(start);
    let end = name_length(start);
    match after_prefix(whole, word) {
        None => {},
        Some(rest) => {
            assert(rest =~= whole.skip(6));
            // The letters of the word are those of a name, so the line goes beyond them.
            assert forall|i: int| 0 <= i < 6 implies whole[i] == word[i] by {
                assert(whole.subrange(0, 6)[i] == word[i]);
            }
            assert(end >= 6) by {
                if end < 6 {
                    assert(whole[end] == start[end]);
                    assert(whole[end] == word[end]);
                    assert(name_char(word[end])) by {
                        assert(word[0] == 'e' && word[1] == 'x' && word[2] == 'p' && word[3] == 'o'
                            && word[4] == 'r' && word[5] == 't');
                    }
                    assert(!name_char(start[end]));
                }
            }
            assert(short.len() > 6);
            assert(start.subrange(0, 6) =~= word);
            assert(after_prefix(start, word) == Some(start.skip(6))) by {
                assert(start.subrange(6, start.len() as int) =~= start.skip(6));
            }
            assert(rest[0] == start.skip(6)[0]);
        },
    }
}

proof fn encoded_begins_well(value: Seq<char>)
    requires
        encoded(value) is Some,
    ensures
        encoded(value)->0.len() > 0,
        !space(encoded(value)->0[0]),
{
    reveal_strlit("'");
    reveal_strlit("\"");
    assert("'"@.len() == 1 && "\""@.len() == 1);
    assert("'"@[0] == '\'' && "\""@[0] == '"');
    let text = encoded(value)->0;
    if !value.contains('\'') {
        assert(text[0] == '\'');
    } else if !value.contains('"') && !holds(value, "\\n"@) && !holds(value, "\\r"@) {
        assert(text[0] == '"');
    } else {
        let start = trimmed_start(value);
        trimmed_start_cases(value);
        trimmed_end_cases(start);
        assert(value.len() == trimmed_end(start).len());
        assert(value.len() == start.len());
        assert(value =~= start);
        let i = choose|i: int| 0 <= i < value.len() && value[i] == '\'';
        assert(value.len() > 0);
    }
}

/// A changed line still assigns its name, and begins as it did; its value is the new one, followed by
/// the comment that it had.
pub proof fn changed_lines_assign_the_value(
    line: Seq<char>,
    values: Map<Seq<char>, Seq<char>>,
    a: AssignmentView,
    next: Seq<char>,
)
    requires
        assigned(line) == Some(a),
        values.contains_key(a.name),
        line_after(line, values) == Some(next),
    ensures
        assigned(next) == Some(
            AssignmentView {
                prefix: a.prefix,
                name: a.name,
                value: encoded(values[a.name])->0 + comment_from(a.value, 0, None, false),
            },
        ),
{
    let text = encoded(values[a.name])->0;
    let note = comment_from(a.value, 0, None, false);
    encoded_begins_well(values[a.name]);
    let whole = text + note;
    assert(whole[0] == text[0]);
    assert(next =~= a.prefix + whole);
    body_of_prefix(line, a, whole);
}

/// A line that assigns no name with a new value stays as it is.
pub proof fn other_lines_stay(line: Seq<char>, values: Map<Seq<char>, Seq<char>>)
    requires
        !line_wanted(line, values),
    ensures
        line_after(line, values) == Some(line),
{
}

/// Every line of a file stays in its place, changed or not.
pub proof fn lines_stay_in_place(
    all: Seq<Seq<char>>,
    names: Seq<Seq<char>>,
    values: Map<Seq<char>, Seq<char>>,
    i: int,
)
    requires
        passed(all, names, values) is Some,
        0 <= i < all.len(),
    ensures
        passed(all, names, values)->0.lines.len() == all.len(),
        line_after(all[i], values) == Some(passed(all, names, values)->0.lines[i]),
    decreases all.len(),
{
    let rest = all.drop_last();
    pass_length(rest, names, values);
    if i < rest.len() {
        lines_stay_in_place(rest, names, values, i);
        assert(rest[i] == all[i]);
    }
}

proof fn pass_length(
    all: Seq<Seq<char>>,
    names: Seq<Seq<char>>,
    values: Map<Seq<char>, Seq<char>>,
)
    requires
        passed(all, names, values) is Some,
    ensures
        passed(all, names, values)->0.lines.len() == all.len(),
    decreases all.len(),
{
    if all.len() > 0 {
        pass_length(all.drop_last(), names, values);
    }
}

/// A text is the end of another.
spec fn is_end(end: Seq<char>, text: Seq<char>) -> bool {
    end.len() <= text.len() && end == text.skip(text.len() - end.len())
}

proof fn ends_of_ends(a: Seq<char>, b: Seq<char>, c: Seq<char>)
    requires
        is_end(a, b),
        is_end(b, c),
    ensures
        is_end(a, c),
{
    assert(a =~= c.skip(c.len() - a.len()));
}

proof fn trimming_leaves_an_end(text: Seq<char>)
    ensures
        is_end(trimmed_start(text), text),
{
    trimmed_start_cases(text);
    assert(trimmed_start(text) =~= text.skip(text.len() - trimmed_start(text).len()));
}

/// The value of an assignment is the end of its line.
pub(super) proof fn values_end_lines(line: Seq<char>)
    requires
        assigned(line) is Some,
    ensures
        assigned(line)->0.value.len() <= line.len(),
        assigned(line)->0.prefix == line.take(line.len() - assigned(line)->0.value.len()),
        line.len() > 0,
        assigned(line)->0.value == line.skip(line.len() - assigned(line)->0.value.len()),
{
    let start = trimmed_start(line);
    trimming_leaves_an_end(line);
    let body = assignment_body(line);
    assert(is_end(body, line)) by {
        match after_prefix(start, "export"@) {
            Some(rest) => {
                assert(rest =~= start.skip(start.len() - rest.len()));
                ends_of_ends(rest, start, line);
                trimming_leaves_an_end(rest);
                ends_of_ends(trimmed_start(rest), rest, line);
            },
            None => {},
        }
    }
    name_length_fits(body);
    let rest = body.skip(name_length(body));
    assert(rest =~= body.skip(body.len() - rest.len()));
    ends_of_ends(rest, body, line);
    let after = trimmed_start(rest);
    trimming_leaves_an_end(rest);
    ends_of_ends(after, rest, line);
    let beyond = after.skip(1);
    assert(beyond =~= after.skip(after.len() - beyond.len()));
    ends_of_ends(beyond, after, line);
    trimming_leaves_an_end(beyond);
    ends_of_ends(trimmed_start(beyond), beyond, line);
}

// When a file can be changed.

/// The values are those of the names, and of no others.
pub open spec fn values_of(names: Seq<Seq<char>>, values: Map<Seq<char>, Seq<char>>) -> bool {
    forall|name: Seq<char>| #[trigger] values.contains_key(name) <==> names.contains(name)
}

proof fn passing_needs_encodings(
    all: Seq<Seq<char>>,
    names: Seq<Seq<char>>,
    values: Map<Seq<char>, Seq<char>>,
)
    requires
        values_of(names, values),
    ensures
        (forall|name: Seq<char>| #[trigger]
            names.contains(name) ==> encoded(values[name]) is Some) ==> passed(all, names, values)
            is Some,
        passed(all, names, values) matches Some(p) ==> forall|name: Seq<char>| #[trigger]
            names.contains(name) ==> p.missing.contains(name) || encoded(values[name]) is Some,
        passed(all, names, values) matches Some(p) ==> forall|name: Seq<char>| #[trigger]
            p.missing.contains(name) ==> names.contains(name),
    decreases all.len(),
{
    if all.len() > 0 {
        let rest = all.drop_last();
        passing_needs_encodings(rest, names, values);
        if let Some(p) = passed(rest, names, values) {
            if line_wanted(all.last(), values) {
                let name = assigned(all.last())->0.name;
                assert(values.contains_key(name));
                without_holds(p.missing, name);
                assert forall|n: Seq<char>| #[trigger] without(p.missing, name).contains(n) implies
                    names.contains(n) by {
                    if n != name {
                        assert(p.missing.contains(n));
                    }
                }
                assert forall|n: Seq<char>| #[trigger]
                    names.contains(n) && encoded(values[name]) is Some implies without(
                    p.missing,
                    name,
                ).contains(n) || encoded(values[n]) is Some by {
                    if n != name && p.missing.contains(n) {
                        assert(without(p.missing, name).contains(n));
                    }
                }
            }
        }
    }
}

proof fn adding_needs_encodings(
    all: Seq<Seq<char>>,
    missing: Seq<Seq<char>>,
    values: Map<Seq<char>, Seq<char>>,
)
    ensures
        lines_added(all, missing, values) is Some <==> forall|i: int|
            0 <= i < missing.len() ==> encoded(values[#[trigger] missing[i]]) is Some,
    decreases missing.len(),
{
    if missing.len() > 0 {
        let rest = missing.drop_last();
        adding_needs_encodings(all, rest, values);
        if lines_added(all, missing, values) is Some {
            assert forall|i: int| 0 <= i < missing.len() implies encoded(
                values[#[trigger] missing[i]],
            ) is Some by {
                if i < rest.len() {
                    assert(rest[i] == missing[i]);
                }
            }
        } else {
            if forall|i: int|
                0 <= i < missing.len() ==> encoded(values[#[trigger] missing[i]]) is Some {
                assert forall|i: int| 0 <= i < rest.len() implies encoded(
                    values[#[trigger] rest[i]],
                ) is Some by {
                    assert(rest[i] == missing[i]);
                }
                assert(missing[missing.len() - 1] == missing.last());
                assert(encoded(values[missing[missing.len() - 1]]) is Some);
            }
        }
    }
}

/// What follows changing a file: it is refused, or a value cannot be written, or it is changed.
pub open spec fn changes(
    content: Seq<char>,
    names: Seq<Seq<char>>,
    values: Map<Seq<char>, Seq<char>>,
) -> Option<ReconciledView> {
    if file_refused(content, names) is Some {
        None
    } else {
        reconciled(content, names, values)
    }
}

/// A file is changed exactly where it can be changed safely and every value can be written.
pub proof fn files_change_where_they_can(
    content: Seq<char>,
    names: Seq<Seq<char>>,
    values: Map<Seq<char>, Seq<char>>,
)
    requires
        values_of(names, values),
    ensures
        changes(content, names, values) is Some <==> file_refused(content, names) is None && forall|
            name: Seq<char>,
        | #[trigger]
            names.contains(name) ==> encoded(values[name]) is Some,
{
    passing_needs_encodings(lines(content), names, values);
    if let Some(p) = passed(lines(content), names, values) {
        adding_needs_encodings(p.lines, p.missing, values);
        if lines_added(p.lines, p.missing, values) is Some {
            assert forall|name: Seq<char>| #[trigger] names.contains(name) implies encoded(
                values[name],
            ) is Some by {
                if p.missing.contains(name) {
                    let i = choose|i: int| 0 <= i < p.missing.len() && p.missing[i] == name;
                    assert(encoded(values[p.missing[i]]) is Some);
                }
            }
        }
        if forall|name: Seq<char>| #[trigger]
            names.contains(name) ==> encoded(values[name]) is Some {
            assert forall|i: int| 0 <= i < p.missing.len() implies encoded(
                values[#[trigger] p.missing[i]],
            ) is Some by {
                assert(p.missing.contains(p.missing[i]));
            }
        }
    }
}

} // verus!
