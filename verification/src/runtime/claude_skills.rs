//! Skills that a prompt names: their instructions are put before the request.
use super::files::{below, under};
use super::process::MAX_LINE;
use super::product::{skills_folder, skills_of, Product};
use crate::fault::{refused, Fault, FaultView};
use crate::json::{values, Data, Json};
use crate::text::{
    all_in, all_text_in, begins, blank, byte_len, chars_of, concat, concat3, contains, deep,
    find_from, finishes, found_from, holds, is_blank, join, joined, lines, lines_of, push_string,
    push_text, replace, replaced, same, size, stands_at, string_of, trim, trim_start, trimmed,
    trimmed_start, views, Class,
};
use vstd::prelude::*;
use vstd::slice::slice_subrange;

verus! {

// Places in a text.

/// The code units of UTF-16 that a character takes.
pub open spec fn units(c: char) -> nat {
    if c as u32 >= 0x10000 {
        2
    } else {
        1
    }
}

/// The code units of UTF-16 that a text takes.
pub open spec fn total_units(text: Seq<char>) -> nat
    decreases text.len(),
{
    if text.len() == 0 {
        0
    } else {
        total_units(text.drop_last()) + units(text.last())
    }
}

/// The characters before a place that is given in code units of UTF-16. A place within a character
/// is none.
pub open spec fn place(text: Seq<char>, at: nat) -> Option<int>
    decreases text.len(),
{
    if total_units(text) == at {
        Some(text.len() as int)
    } else if text.len() == 0 {
        None
    } else {
        place(text.drop_last(), at)
    }
}

/// The characters before a place, as many as it takes to fill the code units before it.
pub proof fn place_is_right(text: Seq<char>, at: nat)
    ensures
        match place(text, at) {
            Some(i) => 0 <= i <= text.len() && total_units(text.take(i)) == at,
            None => forall|i: int| 0 <= i <= text.len() ==> total_units(#[trigger] text.take(i))
                != at,
        },
    decreases text.len(),
{
    assert(text.take(text.len() as int) =~= text);
    if total_units(text) != at && text.len() > 0 {
        let rest = text.drop_last();
        place_is_right(rest, at);
        assert forall|i: int| 0 <= i <= rest.len() implies rest.take(i) == #[trigger] text.take(
            i,
        ) by {
            assert(rest.take(i) =~= text.take(i));
        }
        if place(rest, at) is Some {
            let i = place(rest, at)->0;
            assert(rest.take(i) == text.take(i));
        } else {
            assert forall|i: int| 0 <= i <= text.len() implies total_units(#[trigger] text.take(i))
                != at by {
                if i <= rest.len() {
                    assert(rest.take(i) == text.take(i));
                }
            }
        }
    }
}

proof fn units_grow(text: Seq<char>, i: int, j: int)
    requires
        0 <= i <= j <= text.len(),
    ensures
        total_units(text.take(i)) + (j - i) <= total_units(text.take(j)),
    decreases j - i,
{
    if i < j {
        units_grow(text, i, j - 1);
        assert(text.take(j).drop_last() =~= text.take(j - 1));
    }
}

fn find_place(text: &[char], at: u64) -> (r: Option<usize>)
    ensures
        match r {
            Some(i) => place(text@, at as nat) == Some(i as int) && i <= text.len(),
            None => place(text@, at as nat) is None,
        },
{
    proof {
        place_is_right(text@, at as nat);
    }
    let mut seen: u64 = 0;
    let mut i: usize = 0;
    assert(text@.take(0) =~= Seq::empty());
    while i < text.len()
        invariant
            i <= text.len(),
            seen as nat == total_units(text@.take(i as int)),
            seen <= at,
            match place(text@, at as nat) {
                Some(k) => 0 <= k <= text@.len() && total_units(text@.take(k)) == at as nat,
                None => forall|k: int|
                    0 <= k <= text@.len() ==> total_units(#[trigger] text@.take(k)) != at as nat,
            },
        decreases text.len() - i,
    {
        if seen == at {
            proof {
                if let Some(k) = place(text@, at as nat) {
                    if k < i {
                        units_grow(text@, k, i as int);
                    } else {
                        units_grow(text@, i as int, k);
                    }
                }
                assert(total_units(text@.take(i as int)) == at as nat);
            }
            return Some(i);
        }
        assert(text@.take(i + 1).drop_last() =~= text@.take(i as int));
        let more: u64 = if text[i] as u32 >= 0x10000 {
            2
        } else {
            1
        };
        if more > at - seen {
            proof {
                if let Some(k) = place(text@, at as nat) {
                    if k <= i {
                        units_grow(text@, k, i as int);
                    } else {
                        units_grow(text@, i + 1, k);
                    }
                }
            }
            return None;
        }
        seen = seen + more;
        i += 1;
    }
    assert(text@.take(i as int) =~= text@);
    if seen == at {
        proof {
            if let Some(k) = place(text@, at as nat) {
                units_grow(text@, k, i as int);
            }
        }
        Some(i)
    } else {
        proof {
            if let Some(k) = place(text@, at as nat) {
                units_grow(text@, k, i as int);
            }
        }
        None
    }
}

/// The bytes before a place that is given in code units of UTF-16.
pub fn byte_offset(text: &str, units: u64) -> (r: Result<usize, Fault>)
    ensures
        match r {
            Ok(n) => place(text@, units as nat) is Some && n == byte_len(
                text@.take(place(text@, units as nat)->0),
            ),
            Err(f) => place(text@, units as nat) is None && f@ == refused(
                "Invalid selected skill range"@,
            ),
        },
{
    let chars = chars_of(text);
    match find_place(chars.as_slice(), units) {
        Some(i) => {
            let before = slice_subrange(chars.as_slice(), 0, i);
            assert(before@ =~= text@.take(i as int));
            Ok(size(string_of(before).as_str()))
        },
        None => Err(Fault::refused("Invalid selected skill range")),
    }
}

// The text of a skill.

/// A text without byte order marks before it.
pub open spec fn without_marks(text: Seq<char>) -> Seq<char>
    decreases text.len(),
{
    if text.len() > 0 && text[0] == '\u{feff}' {
        without_marks(text.subrange(1, text.len() as int))
    } else {
        text
    }
}

/// A text with lines that end in line feeds.
pub open spec fn plain_lines(text: Seq<char>) -> Seq<char> {
    replaced(without_marks(text), "\r\n"@, "\n"@)
}

/// A quotation mark.
pub open spec fn quote_mark(c: char) -> bool {
    c == '\'' || c == '"'
}

/// A text without quotation marks around it.
pub open spec fn unquoted(text: Seq<char>) -> Seq<char>
    decreases text.len(),
{
    if text.len() > 0 && quote_mark(text[0]) {
        unquoted(text.subrange(1, text.len() as int))
    } else if text.len() > 0 && quote_mark(text.last()) {
        unquoted(text.drop_last())
    } else {
        text
    }
}

/// Settings that only claude_code itself can apply.
pub open spec fn native_setting(key: Seq<char>) -> bool {
    ||| key == "allowed-tools"@
    ||| key == "disallowed-tools"@
    ||| key == "model"@
    ||| key == "effort"@
    ||| key == "context"@
    ||| key == "agent"@
    ||| key == "background"@
    ||| key == "hooks"@
    ||| key == "shell"@
    ||| key == "arguments"@
    ||| key == "user-invocable"@
}

/// A line of the header holds a setting that only claude_code itself can apply.
pub open spec fn native_line(line: Seq<char>) -> bool {
    match found_from(line, ":"@, 0) {
        Some(i) => native_setting(unquoted(trimmed(line.take(i)))),
        None => false,
    }
}

/// The header of a skill needs claude_code itself.
pub open spec fn native_header(header: Seq<char>) -> bool {
    let plain = trimmed_start(header);
    ||| plain.len() > 0 && (plain[0] == '{' || plain[0] == '[')
    ||| exists|i: int| 0 <= i < lines(header).len() && native_line(#[trigger] lines(header)[i])
}

/// Where the header of a skill ends.
pub open spec fn header_end(content: Seq<char>) -> Option<int> {
    match found_from(content, "\n---\n"@, 3) {
        Some(i) => Some(i),
        None => if finishes(content, "\n---"@) {
            Some(content.len() - 4)
        } else {
            None
        },
    }
}

/// The instructions of a skill need to be filled in by claude_code itself.
pub open spec fn native_body(body: Seq<char>) -> bool {
    holds(body, "!`"@) || holds(body, "$ARGUMENTS"@) || holds(body, "${CLAUDE_"@)
}

/// What is said of a skill that is refused.
pub open spec fn skill_fault(name: Seq<char>, why: Seq<char>) -> FaultView {
    refused("Skill /"@ + name + why)
}

/// Instructions, if they are ones that can be used here.
pub open spec fn body_checked(
    body: Seq<char>,
    name: Seq<char>,
    product: Seq<char>,
) -> Result<Seq<char>, FaultView> {
    if native_body(body) {
        Err(
            skill_fault(
                name,
                " requires native "@ + product + " expansion; use its native invocation instead of a Cloudroom skill tag."@,
            ),
        )
    } else if blank(body) {
        Err(skill_fault(name, " is empty"@))
    } else {
        Ok(body)
    }
}

/// The instructions of a skill.
pub open spec fn skill_body(
    content: Seq<char>,
    name: Seq<char>,
    product: Seq<char>,
) -> Result<Seq<char>, FaultView> {
    let plain = plain_lines(content);
    if begins(plain, "---\n"@) {
        match header_end(plain) {
            None => Err(skill_fault(name, " has invalid frontmatter"@)),
            Some(end) => {
                let header = plain.subrange(
                    4,
                    if end > 4 {
                        end
                    } else {
                        4
                    },
                );
                if native_header(header) {
                    Err(
                        skill_fault(
                            name,
                            " uses native "@ + product + " settings. Use its native invocation instead of a Cloudroom skill tag."@,
                        ),
                    )
                } else {
                    body_checked(
                        trimmed_start(plain.subrange(end + 4, plain.len() as int)),
                        name,
                        product,
                    )
                }
            },
        }
    } else {
        body_checked(plain, name, product)
    }
}

fn strip_marks(text: &[char]) -> (r: &[char])
    ensures
        r@ == without_marks(text@),
{
    let mut i: usize = 0;
    assert(text@.subrange(0, text@.len() as int) =~= text@);
    while i < text.len() && text[i] == '\u{feff}'
        invariant
            i <= text.len(),
            without_marks(text@) == without_marks(text@.subrange(i as int, text@.len() as int)),
        decreases text.len() - i,
    {
        let ghost rest = text@.subrange(i as int, text@.len() as int);
        assert(rest.subrange(1, rest.len() as int) =~= text@.subrange(i + 1, text@.len() as int));
        i += 1;
    }
    slice_subrange(text, i, text.len())
}

fn unquote(text: &[char]) -> (r: &[char])
    ensures
        r@ == unquoted(text@),
{
    let mut i: usize = 0;
    let mut j: usize = text.len();
    assert(text@.subrange(0, text@.len() as int) =~= text@);
    loop
        invariant
            i <= j <= text.len(),
            unquoted(text@) == unquoted(text@.subrange(i as int, j as int)),
        decreases j - i,
    {
        let ghost part = text@.subrange(i as int, j as int);
        if i < j && (text[i] == '\'' || text[i] == '"') {
            assert(part.subrange(1, part.len() as int) =~= text@.subrange(i + 1, j as int));
            i += 1;
        } else if i < j && (text[j - 1] == '\'' || text[j - 1] == '"') {
            assert(part.drop_last() =~= text@.subrange(i as int, j - 1));
            j -= 1;
        } else {
            return slice_subrange(text, i, j);
        }
    }
}

fn is_native_setting(key: &str) -> (r: bool)
    ensures
        r == native_setting(key@),
{
    same(key, "allowed-tools") || same(key, "disallowed-tools") || same(key, "model") || same(
        key,
        "effort",
    ) || same(key, "context") || same(key, "agent") || same(key, "background") || same(
        key,
        "hooks",
    ) || same(key, "shell") || same(key, "arguments") || same(key, "user-invocable")
}

fn is_native_line(line: &[char]) -> (r: bool)
    ensures
        r == native_line(line@),
{
    let colon = chars_of(":");
    match find_from(line, colon.as_slice(), 0) {
        Some(i) => {
            let key = slice_subrange(line, 0, i);
            assert(key@ =~= line@.take(i as int));
            is_native_setting(string_of(unquote(trim(key))).as_str())
        },
        None => false,
    }
}

fn is_native_header(header: &[char]) -> (r: bool)
    ensures
        r == native_header(header@),
{
    let plain = trim_start(header);
    if plain.len() > 0 && (plain[0] == '{' || plain[0] == '[') {
        return true;
    }
    let all = lines_of(header);
    let ghost whole = lines(header@);
    let mut i: usize = 0;
    while i < all.len()
        invariant
            i <= all.len(),
            deep(all@) == whole,
            whole == lines(header@),
            forall|j: int| 0 <= j < i ==> !native_line(#[trigger] whole[j]),
        decreases all.len() - i,
    {
        assert(whole[i as int] == all@[i as int]@);
        if is_native_line(all[i].as_slice()) {
            return true;
        }
        i += 1;
    }
    false
}

fn fail_skill(name: &str, why: &str) -> (r: Fault)
    ensures
        r@ == skill_fault(name@, why@),
{
    Fault::refused(concat3("Skill /", name, why).as_str())
}

fn check_body(body: &[char], name: &str, product: &Product) -> (r: Result<String, Fault>)
    ensures
        match r {
            Ok(t) => body_checked(body@, name@, product.name@) == Ok::<Seq<char>, FaultView>(t@),
            Err(f) => body_checked(body@, name@, product.name@) == Err::<Seq<char>, FaultView>(f@),
        },
{
    let text = string_of(body);
    if contains(text.as_str(), "!`") || contains(text.as_str(), "$ARGUMENTS") || contains(
        text.as_str(),
        "${CLAUDE_",
    ) {
        return Err(
            fail_skill(
                name,
                concat3(
                    " requires native ",
                    product.name.as_str(),
                    " expansion; use its native invocation instead of a Cloudroom skill tag.",
                ).as_str(),
            ),
        );
    }
    if is_blank(text.as_str()) {
        return Err(fail_skill(name, " is empty"));
    }
    Ok(text)
}

/// The instructions of a skill: its file without the header, where nothing in it needs claude_code
/// itself.
pub fn body(content: &str, name: &str, product: &Product) -> (r: Result<String, Fault>)
    ensures
        match r {
            Ok(t) => skill_body(content@, name@, product.name@) == Ok::<Seq<char>, FaultView>(t@),
            Err(f) => skill_body(content@, name@, product.name@) == Err::<Seq<char>, FaultView>(f@),
        },
{
    proof {
        reveal_strlit("---\n");
        reveal_strlit("\n---\n");
        reveal_strlit("\n---");
        reveal_strlit("\r\n");
        assert("---\n"@.len() == 4 && "\n---\n"@.len() == 5 && "\n---"@.len() == 4
            && "\r\n"@.len() == 2);
    }
    let raw = chars_of(content);
    let from = chars_of("\r\n");
    let by = chars_of("\n");
    let plain = replace(strip_marks(raw.as_slice()), from.as_slice(), by.as_slice());
    let ghost p = plain_lines(content@);
    assert(plain@ == p);
    let open = chars_of("---\n");
    if !stands_at(plain.as_slice(), open.as_slice(), 0) {
        return check_body(plain.as_slice(), name, product);
    }
    let mid = chars_of("\n---\n");
    let tail = chars_of("\n---");
    let end: usize = match find_from(plain.as_slice(), mid.as_slice(), 3) {
        Some(i) => i,
        None => if stands_at(plain.as_slice(), tail.as_slice(), plain.len() - 4) {
            plain.len() - 4
        } else {
            return Err(fail_skill(name, " has invalid frontmatter"));
        },
    };
    proof {
        // The first line ends at the fourth character, so a line that closes the header begins at
        // the third at the earliest.
        if end < 3 {
            assert(p.subrange(0, 4)[0] == '-' && p.subrange(0, 4)[1] == '-' && p.subrange(
                0,
                4,
            )[2] == '-');
            assert(p.subrange(end as int, end + 4)[0] == '\n');
            assert(p[end as int] == p.subrange(0, 4)[end as int]);
            assert(p[end as int] == '\n');
        }
    }
    let stop = if end > 4 {
        end
    } else {
        4
    };
    let header = slice_subrange(plain.as_slice(), 4, stop);
    if is_native_header(header) {
        return Err(
            fail_skill(
                name,
                concat3(
                    " uses native ",
                    product.name.as_str(),
                    " settings. Use its native invocation instead of a Cloudroom skill tag.",
                ).as_str(),
            ),
        );
    }
    let rest = slice_subrange(plain.as_slice(), end + 4, plain.len());
    check_body(trim_start(rest), name, product)
}

/// The name of a skill that is installed for a user or a project.
pub open spec fn skill_name(name: Seq<char>) -> bool {
    name.len() > 0 && all_in(name, Class::Alnum, "-_"@)
}

/// Refuses a name that is not that of an installed skill.
pub fn check_name(name: &str) -> (r: Result<(), Fault>)
    ensures
        match r {
            Ok(()) => skill_name(name@),
            Err(f) => !skill_name(name@) && f@ == refused(
                "Only installed user/project skill names are supported; use native invocation for namespaced skills"@,
            ),
        },
{
    if chars_of(name).len() == 0 || !all_text_in(name, Class::Alnum, "-_") {
        return Err(
            Fault::refused(
                "Only installed user/project skill names are supported; use native invocation for namespaced skills",
            ),
        );
    }
    Ok(())
}

/// Refuses a skill that was not found in exactly one place.
pub fn check_candidates(name: &str, count: usize) -> (r: Result<(), Fault>)
    ensures
        match r {
            Ok(()) => count == 1,
            Err(f) => count != 1 && f@ == skill_fault(
                name@,
                " is "@ + (if count == 0 {
                    "missing"@
                } else {
                    "ambiguous"@
                }) + " on this machine. Check its installation and select it again."@,
            ),
        },
{
    if count == 1 {
        return Ok(());
    }
    let state = if count == 0 {
        "missing"
    } else {
        "ambiguous"
    };
    Err(
        fail_skill(
            name,
            concat3(
                " is ",
                state,
                " on this machine. Check its installation and select it again.",
            ).as_str(),
        ),
    )
}

// Prompts that name skills.

/// The instructions in the file of a skill, given the length that the file is said to have.
pub open spec fn instructions_in(
    length: u64,
    content: Seq<char>,
    name: Seq<char>,
    product: Seq<char>,
) -> Result<Seq<char>, FaultView> {
    if length > MAX_LINE || byte_len(content) > MAX_LINE {
        Err(refused("Skill exceeds the "@ + product + " input limit"@))
    } else {
        skill_body(content, name, product)
    }
}

/// The instructions in the file of a skill. A file may have grown since its length was looked at.
pub fn instructions(length: u64, content: &str, name: &str, product: &Product) -> (r: Result<
    String,
    Fault,
>)
    ensures
        match r {
            Ok(t) => instructions_in(length, content@, name@, product.name@) == Ok::<
                Seq<char>,
                FaultView,
            >(t@),
            Err(f) => instructions_in(length, content@, name@, product.name@) == Err::<
                Seq<char>,
                FaultView,
            >(f@),
        },
{
    if length > MAX_LINE as u64 || size(content) > MAX_LINE {
        return Err(
            Fault::refused(
                concat3("Skill exceeds the ", product.name.as_str(), " input limit").as_str(),
            ),
        );
    }
    body(content, name, product)
}

/// A skill that was looked for: where it was found, and its instructions, or why it cannot be used.
#[derive(Debug)]
pub struct Skill {
    pub name: String,
    pub origin: String,
    pub found: Result<(String, String), Fault>,
}

/// The mathematical value of a skill that was looked for.
pub struct SkillView {
    pub name: Seq<char>,
    pub origin: Seq<char>,
    pub found: Result<(Seq<char>, Seq<char>), FaultView>,
}

impl View for Skill {
    type V = SkillView;

    open spec fn view(&self) -> SkillView {
        SkillView {
            name: self.name@,
            origin: self.origin@,
            found: match self.found {
                Ok((directory, body)) => Ok((directory@, body@)),
                Err(f) => Err(f@),
            },
        }
    }
}

/// The views of skills.
pub open spec fn skill_views(skills: Seq<Skill>) -> Seq<SkillView> {
    Seq::new(skills.len(), |i: int| skills[i]@)
}

/// What was found of a skill.
pub open spec fn looked_up(skills: Seq<SkillView>, name: Seq<char>, origin: Seq<char>) -> Result<
    (Seq<char>, Seq<char>),
    FaultView,
>
    decreases skills.len(),
{
    if skills.len() == 0 {
        Err(skill_fault(name, " was not loaded"@))
    } else if skills[0].name == name && skills[0].origin == origin {
        skills[0].found
    } else {
        looked_up(skills.subrange(1, skills.len() as int), name, origin)
    }
}

/// A mention of a skill.
pub open spec fn skill_mention(mention: Data) -> bool {
    mention.field("resource"@).field("kind"@).is_text("command"@) && mention.field(
        "resource"@,
    ).field("source"@).is_text("skill"@)
}

/// One mention comes before another, or at the same place.
pub open spec fn not_after(a: Data, b: Data) -> bool {
    match (a.field("start"@).as_u64(), b.field("start"@).as_u64()) {
        (None, _) => true,
        (Some(_), None) => false,
        (Some(x), Some(y)) => x <= y,
    }
}

/// A mention put in its place.
pub open spec fn inserted(sorted: Seq<Data>, mention: Data) -> Seq<Data>
    decreases sorted.len(),
{
    if sorted.len() == 0 || not_after(sorted.last(), mention) {
        sorted.push(mention)
    } else {
        inserted(sorted.drop_last(), mention).push(sorted.last())
    }
}

/// The mentions of skills in the order of their places.
pub open spec fn in_place(mentions: Seq<Data>) -> Seq<Data>
    decreases mentions.len(),
{
    if mentions.len() == 0 {
        Seq::empty()
    } else {
        let before = in_place(mentions.drop_last());
        if skill_mention(mentions.last()) {
            inserted(before, mentions.last())
        } else {
            before
        }
    }
}

/// What a prompt comes to so far.
pub struct Draft {
    pub instructions: Seq<Seq<char>>,
    /// The directories whose instructions are in.
    pub loaded: Seq<Seq<char>>,
    /// The skills that were named, with their origins.
    pub chosen: Seq<(Seq<char>, Seq<char>)>,
    pub remaining: int,
}

/// The instructions of a skill as they are put before a request.
pub open spec fn block_text(name: Seq<char>, directory: Seq<char>, body: Seq<char>) -> Seq<char> {
    "Skill: /"@ + name + "\nBase directory: "@ + directory + "\n\n"@ + body
}

/// A draft once a skill is named. Instructions are put in once.
pub open spec fn chosen(
    d: Draft,
    skills: Seq<SkillView>,
    name: Seq<char>,
    origin: Seq<char>,
    product: Seq<char>,
) -> Result<
    Draft,
    FaultView,
> {
    if d.chosen.contains((name, origin)) {
        Ok(d)
    } else {
        let named = Draft { chosen: d.chosen.push((name, origin)), ..d };
        match looked_up(skills, name, origin) {
            Err(f) => Err(refused("Cannot load /"@ + name + ": "@ + f.message)),
            Ok((directory, body)) => if named.loaded.contains(directory) {
                Ok(named)
            } else {
                let block = block_text(name, directory, body);
                if byte_len(block) > named.remaining {
                    Err(
                        refused(
                            "Selected skills exceed the "@ + product + " input limit; select fewer skills"@,
                        ),
                    )
                } else {
                    Ok(
                        Draft {
                            loaded: named.loaded.push(directory),
                            instructions: named.instructions.push(block),
                            remaining: named.remaining - byte_len(block),
                            ..named
                        },
                    )
                }
            },
        }
    }
}

/// A part of a prompt so far: the draft, the text with the names of skills, and how far it has
/// come.
pub struct Part {
    pub draft: Draft,
    pub rendered: Seq<char>,
    pub cursor: int,
}

/// The place of a mention in a text.
pub open spec fn span(text: Seq<char>, mention: Data) -> Option<(int, int)> {
    match (mention.field("start"@).as_u64(), mention.field("end"@).as_u64()) {
        (Some(a), Some(b)) => match (place(text, a as nat), place(text, b as nat)) {
            (Some(i), Some(j)) => Some((i, j)),
            _ => None,
        },
        _ => None,
    }
}

/// A part with one more mention.
pub open spec fn mentioned(
    p: Part,
    skills: Seq<SkillView>,
    text: Seq<char>,
    mention: Data,
    product: Seq<char>,
) -> Result<
    Part,
    FaultView,
> {
    match (
        mention.field("resource"@).field("name"@).as_text(),
        mention.field("resource"@).field("origin"@).as_text(),
    ) {
        (None, _) => Err(refused("Invalid selected skill name"@)),
        (Some(_), None) => Err(refused("Invalid selected skill origin"@)),
        (Some(name), Some(origin)) => match span(text, mention) {
            None => Err(refused("Invalid selected skill range"@)),
            Some((start, end)) => if start < p.cursor || start >= end || text.subrange(start, end)
                != "/"@ + name {
                Err(refused("Invalid selected skill tag; remove it and select the skill again"@))
            } else {
                match chosen(p.draft, skills, name, origin, product) {
                    Err(f) => Err(f),
                    Ok(draft) => Ok(
                        Part {
                            draft,
                            rendered: p.rendered + text.subrange(p.cursor, start) + name,
                            cursor: end,
                        },
                    ),
                }
            },
        },
    }
}

/// A part with its mentions.
pub open spec fn rendered(
    d: Draft,
    skills: Seq<SkillView>,
    text: Seq<char>,
    mentions: Seq<Data>,
    product: Seq<char>,
) -> Result<Part, FaultView>
    decreases mentions.len(),
{
    if mentions.len() == 0 {
        Ok(Part { draft: d, rendered: Seq::empty(), cursor: 0 })
    } else {
        match rendered(d, skills, text, mentions.drop_last(), product) {
            Err(f) => Err(f),
            Ok(p) => mentioned(p, skills, text, mentions.last(), product),
        }
    }
}

/// A prompt so far: the draft, the texts, and the texts with the names of skills.
pub struct Whole {
    pub draft: Draft,
    pub originals: Seq<Seq<char>>,
    pub texts: Seq<Seq<char>>,
}

/// A prompt with one more part.
pub open spec fn with_part(
    w: Whole,
    skills: Seq<SkillView>,
    part: Data,
    product: Seq<char>,
) -> Result<Whole, FaultView> {
    if !part.field("type"@).is_text("text"@) {
        Ok(w)
    } else {
        match part.field("text"@).as_text() {
            None => Err(refused("Invalid prompt text"@)),
            Some(text) => match rendered(
                w.draft,
                skills,
                text,
                in_place(part.field("mentions"@).items()),
                product,
            ) {
                Err(f) => Err(f),
                Ok(p) => Ok(
                    Whole {
                        draft: p.draft,
                        originals: w.originals.push(text),
                        texts: w.texts.push(
                            p.rendered + text.subrange(p.cursor, text.len() as int),
                        ),
                    },
                ),
            },
        }
    }
}

/// A prompt with its parts.
pub open spec fn with_parts(
    w: Whole,
    skills: Seq<SkillView>,
    parts: Seq<Data>,
    product: Seq<char>,
) -> Result<
    Whole,
    FaultView,
>
    decreases parts.len(),
{
    if parts.len() == 0 {
        Ok(w)
    } else {
        match with_parts(w, skills, parts.drop_last(), product) {
            Err(f) => Err(f),
            Ok(before) => with_part(before, skills, parts.last(), product),
        }
    }
}

/// A prompt with the instructions of skills before it.
pub open spec fn expanded_text(w: Whole) -> Seq<char> {
    "The user explicitly selected these skills. Their instructions are already loaded below; do not invoke them again with the Skill tool. Resolve relative paths from each skill's base directory.\n\n"@
        + joined(w.draft.instructions, "\n\n"@) + "\n\nUser request:\n"@ + joined(w.texts, "\n"@)
}

/// A prompt before its parts are read.
pub open spec fn no_parts(original: Seq<char>) -> Whole {
    Whole {
        draft: Draft {
            instructions: Seq::empty(),
            loaded: Seq::empty(),
            chosen: Seq::empty(),
            remaining: if byte_len(original) > MAX_LINE {
                0
            } else {
                MAX_LINE - byte_len(original)
            },
        },
        originals: Seq::empty(),
        texts: Seq::empty(),
    }
}

/// What the agent is told for a prompt that may name skills.
pub open spec fn expanded(
    input: Data,
    skills: Seq<SkillView>,
    product: Seq<char>,
) -> Result<Seq<char>, FaultView> {
    let original = input.field("text"@).text_or_empty();
    match input.field("content"@).as_array() {
        None => Ok(original),
        Some(parts) => match with_parts(no_parts(original), skills, parts, product) {
            Err(f) => Err(f),
            Ok(w) => if w.draft.instructions.len() == 0 {
                Ok(original)
            } else if joined(w.originals, "\n"@) != original {
                Err(refused("Selected skill content does not match the prompt text"@))
            } else if byte_len(expanded_text(w)) > MAX_LINE {
                Err(
                    refused(
                        "Selected skills exceed the "@ + product + " input limit; select fewer skills"@,
                    ),
                )
            } else {
                Ok(expanded_text(w))
            },
        },
    }
}

fn find_skill<'a>(skills: &'a Vec<Skill>, name: &str, origin: &str) -> (r: Result<
    (&'a str, &'a str),
    Fault,
>)
    ensures
        match r {
            Ok((directory, body)) => looked_up(skill_views(skills@), name@, origin@) == Ok::<
                (Seq<char>, Seq<char>),
                FaultView,
            >((directory@, body@)),
            Err(f) => looked_up(skill_views(skills@), name@, origin@) == Err::<
                (Seq<char>, Seq<char>),
                FaultView,
            >(f@),
        },
{
    let ghost all = skill_views(skills@);
    let mut i: usize = 0;
    assert(all.subrange(0, all.len() as int) =~= all);
    while i < skills.len()
        invariant
            i <= skills.len(),
            all == skill_views(skills@),
            looked_up(all, name@, origin@) == looked_up(
                all.subrange(i as int, all.len() as int),
                name@,
                origin@,
            ),
        decreases skills.len() - i,
    {
        let ghost rest = all.subrange(i as int, all.len() as int);
        assert(rest[0] == skills@[i as int]@);
        assert(rest.subrange(1, rest.len() as int) =~= all.subrange(i + 1, all.len() as int));
        let skill: &Skill = &skills[i];
        if same(skill.name.as_str(), name) && same(skill.origin.as_str(), origin) {
            return match &skill.found {
                Ok((directory, body)) => Ok((directory.as_str(), body.as_str())),
                Err(fault) => Err(fault.duplicate()),
            };
        }
        i += 1;
    }
    Err(fail_skill(name, " was not loaded"))
}

/// A draft as it is computed.
struct Sketch {
    instructions: Vec<String>,
    loaded: Vec<String>,
    names: Vec<String>,
    origins: Vec<String>,
    remaining: usize,
}

spec fn sketched(s: Sketch) -> Draft {
    Draft {
        instructions: views(s.instructions@),
        loaded: views(s.loaded@),
        chosen: Seq::new(s.names@.len(), |i: int| (s.names@[i]@, s.origins@[i]@)),
        remaining: s.remaining as int,
    }
}

fn was_chosen(s: &Sketch, name: &str, origin: &str) -> (r: bool)
    requires
        s.names.len() == s.origins.len(),
    ensures
        r == sketched(*s).chosen.contains((name@, origin@)),
{
    let mut i: usize = 0;
    while i < s.names.len()
        invariant
            i <= s.names.len(),
            s.names.len() == s.origins.len(),
            forall|j: int| 0 <= j < i ==> (#[trigger] sketched(*s).chosen[j]) != (name@, origin@),
        decreases s.names.len() - i,
    {
        if same(s.names[i].as_str(), name) && same(s.origins[i].as_str(), origin) {
            assert(sketched(*s).chosen[i as int] == (name@, origin@));
            return true;
        }
        i += 1;
    }
    false
}

fn choose_skill(
    s: &mut Sketch,
    skills: &Vec<Skill>,
    name: &str,
    origin: &str,
    product: &Product,
) -> (r: Result<
    (),
    Fault,
>)
    requires
        old(s).names.len() == old(s).origins.len(),
    ensures
        final(s).names.len() == final(s).origins.len(),
        match r {
            Ok(()) => chosen(
                sketched(*old(s)),
                skill_views(skills@),
                name@,
                origin@,
                product.name@,
            ) == Ok::<
                Draft,
                FaultView,
            >(sketched(*final(s))),
            Err(f) => chosen(
                sketched(*old(s)),
                skill_views(skills@),
                name@,
                origin@,
                product.name@,
            ) == Err::<
                Draft,
                FaultView,
            >(f@),
        },
{
    if was_chosen(s, name, origin) {
        return Ok(());
    }
    let ghost was = sketched(*s);
    s.names.push(name.to_owned());
    s.origins.push(origin.to_owned());
    assert(sketched(*s).chosen =~= was.chosen.push((name@, origin@)));
    let (directory, body) = match find_skill(skills, name, origin) {
        Ok(found) => found,
        Err(fault) => {
            let mut text = concat3("Cannot load /", name, ": ");
            push_text(&mut text, fault.message.as_str());
            return Err(Fault::refused(text.as_str()));
        },
    };
    if crate::text::includes(&s.loaded, directory) {
        return Ok(());
    }
    let mut block = concat3("Skill: /", name, "\nBase directory: ");
    push_text(&mut block, directory);
    push_text(&mut block, "\n\n");
    push_text(&mut block, body);
    let n = size(block.as_str());
    if n > s.remaining {
        return Err(
            Fault::refused(
                concat3(
                    "Selected skills exceed the ",
                    product.name.as_str(),
                    " input limit; select fewer skills",
                ).as_str(),
            ),
        );
    }
    s.remaining = s.remaining - n;
    push_string(&mut s.loaded, directory);
    push_string(&mut s.instructions, block.as_str());
    Ok(())
}

fn comes_not_after(a: &Json, b: &Json) -> (r: bool)
    ensures
        r == not_after(a@, b@),
{
    match (a.field("start").as_u64(), b.field("start").as_u64()) {
        (None, _) => true,
        (Some(_), None) => false,
        (Some(x), Some(y)) => x <= y,
    }
}

/// The views of references to values.
spec fn refs(items: Seq<&Json>) -> Seq<Data> {
    Seq::new(items.len(), |i: int| items[i]@)
}

fn insert_mention<'a>(sorted: &mut Vec<&'a Json>, mention: &'a Json)
    ensures
        refs(final(sorted)@) == inserted(refs(old(sorted)@), mention@),
{
    let ghost was = refs(sorted@);
    let count = sorted.len();
    let mut i: usize = count;
    assert(was.take(count as int) =~= was);
    assert(was.subrange(count as int, count as int) =~= Seq::<Data>::empty());
    assert(inserted(was, mention@) =~= inserted(was.take(count as int), mention@)
        + Seq::<Data>::empty());
    while i > 0 && !comes_not_after(sorted[i - 1], mention)
        invariant
            i <= count,
            count == sorted.len(),
            was == refs(sorted@),
            was == refs(old(sorted)@),
            inserted(was, mention@) == inserted(was.take(i as int), mention@) + was.subrange(
                i as int,
                count as int,
            ),
        decreases i,
    {
        let ghost part = was.take(i as int);
        assert(part.drop_last() =~= was.take(i - 1));
        assert(part.last() == sorted@[i - 1]@);
        assert(inserted(part.drop_last(), mention@).push(part.last()) + was.subrange(
            i as int,
            count as int,
        ) =~= inserted(was.take(i - 1), mention@) + was.subrange(i - 1, count as int));
        i -= 1;
    }
    proof {
        if i > 0 {
            assert(was.take(i as int).last() == sorted@[i - 1]@);
        }
        assert(inserted(was.take(i as int), mention@) == was.take(i as int).push(mention@));
    }
    sorted.insert(i, mention);
    assert(refs(sorted@) =~= was.take(i as int).push(mention@) + was.subrange(
        i as int,
        count as int,
    ));
}

fn sort_mentions(mentions: &[Json]) -> (r: Vec<&Json>)
    ensures
        refs(r@) == in_place(values(mentions@)),
{
    let ghost all = values(mentions@);
    let mut sorted: Vec<&Json> = Vec::new();
    let mut i: usize = 0;
    assert(all.take(0) =~= Seq::empty());
    assert(refs(sorted@) =~= Seq::<Data>::empty());
    while i < mentions.len()
        invariant
            i <= mentions.len(),
            all == values(mentions@),
            refs(sorted@) == in_place(all.take(i as int)),
        decreases mentions.len() - i,
    {
        assert(all.take(i + 1).drop_last() =~= all.take(i as int));
        assert(all.take(i + 1).last() == mentions@[i as int]@);
        let resource = mentions[i].field("resource");
        if resource.field_is("kind", "command") && resource.field_is("source", "skill") {
            insert_mention(&mut sorted, &mentions[i]);
        }
        i += 1;
    }
    assert(all.take(i as int) =~= all);
    sorted
}

fn find_span(text: &[char], mention: &Json) -> (r: Option<(usize, usize)>)
    ensures
        match r {
            Some((i, j)) => span(text@, mention@) == Some((i as int, j as int)) && i <= text.len()
                && j <= text.len(),
            None => span(text@, mention@) is None,
        },
{
    match (mention.field("start").as_u64(), mention.field("end").as_u64()) {
        (Some(a), Some(b)) => match (find_place(text, a), find_place(text, b)) {
            (Some(i), Some(j)) => Some((i, j)),
            _ => None,
        },
        _ => None,
    }
}

proof fn rendered_fails(
    d: Draft,
    skills: Seq<SkillView>,
    text: Seq<char>,
    mentions: Seq<Data>,
    i: int,
    product: Seq<char>,
)
    requires
        0 <= i <= mentions.len(),
        rendered(d, skills, text, mentions.take(i), product) is Err,
    ensures
        rendered(
            d,
            skills,
            text,
            mentions,
            product,
        ) == rendered(d, skills, text, mentions.take(i), product),
    decreases mentions.len() - i,
{
    if i < mentions.len() {
        assert(mentions.take(i + 1).drop_last() =~= mentions.take(i));
        rendered_fails(d, skills, text, mentions, i + 1, product);
    } else {
        assert(mentions.take(i) =~= mentions);
    }
}

proof fn parts_fail(w: Whole, skills: Seq<SkillView>, parts: Seq<Data>, i: int, product: Seq<char>)
    requires
        0 <= i <= parts.len(),
        with_parts(w, skills, parts.take(i), product) is Err,
    ensures
        with_parts(w, skills, parts, product) == with_parts(w, skills, parts.take(i), product),
    decreases parts.len() - i,
{
    if i < parts.len() {
        assert(parts.take(i + 1).drop_last() =~= parts.take(i));
        parts_fail(w, skills, parts, i + 1, product);
    } else {
        assert(parts.take(i) =~= parts);
    }
}

fn mention_one(
    s: &mut Sketch,
    skills: &Vec<Skill>,
    text: &[char],
    mention: &Json,
    out: &mut String,
    cursor: &mut usize,
    product: &Product,
) -> (r: Result<(), Fault>)
    requires
        old(s).names.len() == old(s).origins.len(),
        *old(cursor) <= text.len(),
    ensures
        final(s).names.len() == final(s).origins.len(),
        match r {
            Ok(()) => *final(cursor) <= text.len() && mentioned(
                Part {
                    draft: sketched(*old(s)),
                    rendered: old(out)@,
                    cursor: *old(cursor) as int,
                },
                skill_views(skills@),
                text@,
                mention@,
                product.name@,
            ) == Ok::<Part, FaultView>(
                Part {
                    draft: sketched(*final(s)),
                    rendered: final(out)@,
                    cursor: *final(cursor) as int,
                },
            ),
            Err(f) => mentioned(
                Part {
                    draft: sketched(*old(s)),
                    rendered: old(out)@,
                    cursor: *old(cursor) as int,
                },
                skill_views(skills@),
                text@,
                mention@,
                product.name@,
            ) == Err::<Part, FaultView>(f@),
        },
{
    let resource = mention.field("resource");
    let name = match resource.field_text("name") {
        Some(name) => name,
        None => {
            return Err(Fault::refused("Invalid selected skill name"));
        },
    };
    let origin = match resource.field_text("origin") {
        Some(origin) => origin,
        None => {
            return Err(Fault::refused("Invalid selected skill origin"));
        },
    };
    let (start, end) = match find_span(text, mention) {
        Some(found) => found,
        None => {
            return Err(Fault::refused("Invalid selected skill range"));
        },
    };
    let tag = concat("/", name);
    if start < *cursor || start >= end || !same(
        string_of(slice_subrange(text, start, end)).as_str(),
        tag.as_str(),
    ) {
        return Err(
            Fault::refused("Invalid selected skill tag; remove it and select the skill again"),
        );
    }
    if let Err(fault) = choose_skill(s, skills, name, origin, product) {
        return Err(fault);
    }
    push_text(out, string_of(slice_subrange(text, *cursor, start)).as_str());
    push_text(out, name);
    *cursor = end;
    Ok(())
}

fn render(
    s: &mut Sketch,
    skills: &Vec<Skill>,
    text: &[char],
    mentions: &Vec<&Json>,
    product: &Product,
) -> (r: Result<
    (String, usize),
    Fault,
>)
    requires
        old(s).names.len() == old(s).origins.len(),
    ensures
        final(s).names.len() == final(s).origins.len(),
        match r {
            Ok((out, cursor)) => cursor <= text.len() && rendered(
                sketched(*old(s)),
                skill_views(skills@),
                text@,
                refs(mentions@),
                product.name@,
            ) == Ok::<Part, FaultView>(
                Part { draft: sketched(*final(s)), rendered: out@, cursor: cursor as int },
            ),
            Err(f) => rendered(
                sketched(*old(s)),
                skill_views(skills@),
                text@,
                refs(mentions@),
                product.name@,
            ) == Err::<Part, FaultView>(f@),
        },
{
    let ghost d = sketched(*s);
    let ghost all = refs(mentions@);
    let ghost known = skill_views(skills@);
    let mut out = String::new();
    let mut cursor: usize = 0;
    let mut i: usize = 0;
    assert(all.take(0) =~= Seq::empty());
    while i < mentions.len()
        invariant
            i <= mentions.len(),
            s.names.len() == s.origins.len(),
            cursor <= text.len(),
            d == sketched(*old(s)),
            all == refs(mentions@),
            known == skill_views(skills@),
            rendered(d, known, text@, all.take(i as int), product.name@) == Ok::<Part, FaultView>(
                Part { draft: sketched(*s), rendered: out@, cursor: cursor as int },
            ),
        decreases mentions.len() - i,
    {
        assert(all.take(i + 1).drop_last() =~= all.take(i as int));
        assert(all.take(i + 1).last() == mentions@[i as int]@);
        if let Err(fault) = mention_one(
            s,
            skills,
            text,
            mentions[i],
            &mut out,
            &mut cursor,
            product,
        ) {
            proof {
                rendered_fails(d, known, text@, all, i + 1, product.name@);
            }
            return Err(fault);
        }
        i += 1;
    }
    assert(all.take(i as int) =~= all);
    Ok((out, cursor))
}

/// A prompt as it is computed.
struct Build {
    sketch: Sketch,
    originals: Vec<String>,
    texts: Vec<String>,
}

spec fn built(b: Build) -> Whole {
    Whole {
        draft: sketched(b.sketch),
        originals: views(b.originals@),
        texts: views(b.texts@),
    }
}

fn add_part(
    b: &mut Build,
    skills: &Vec<Skill>,
    part: &Json,
    product: &Product,
) -> (r: Result<(), Fault>)
    requires
        old(b).sketch.names.len() == old(b).sketch.origins.len(),
    ensures
        final(b).sketch.names.len() == final(b).sketch.origins.len(),
        match r {
            Ok(()) => with_part(built(*old(b)), skill_views(skills@), part@, product.name@) == Ok::<
                Whole,
                FaultView,
            >(built(*final(b))),
            Err(f) => with_part(
                built(*old(b)),
                skill_views(skills@),
                part@,
                product.name@,
            ) == Err::<
                Whole,
                FaultView,
            >(f@),
        },
{
    if !part.field_is("type", "text") {
        return Ok(());
    }
    let text = match part.field_text("text") {
        Some(text) => text,
        None => {
            return Err(Fault::refused("Invalid prompt text"));
        },
    };
    let chars = chars_of(text);
    let mentions = sort_mentions(part.field("mentions").items());
    let (out, cursor) = match render(&mut b.sketch, skills, chars.as_slice(), &mentions, product) {
        Ok(done) => done,
        Err(fault) => {
            return Err(fault);
        },
    };
    let rest = string_of(slice_subrange(chars.as_slice(), cursor, chars.len()));
    push_string(&mut b.originals, text);
    push_string(&mut b.texts, concat(out.as_str(), rest.as_str()).as_str());
    Ok(())
}

/// What the agent is told for a prompt that may name skills. `skills` holds what was found of each
/// skill that the prompt names.
pub fn expand(input: &Json, skills: &Vec<Skill>, product: &Product) -> (r: Result<String, Fault>)
    ensures
        match r {
            Ok(t) => expanded(
                input@,
                skill_views(skills@),
                product.name@,
            ) == Ok::<Seq<char>, FaultView>(t@),
            Err(f) => expanded(
                input@,
                skill_views(skills@),
                product.name@,
            ) == Err::<Seq<char>, FaultView>(f@),
        },
{
    let original = input.field("text").text_or_empty();
    let parts = match input.field("content").as_array() {
        Some(parts) => parts,
        None => {
            return Ok(original.to_owned());
        },
    };
    let n = size(original);
    let remaining: usize = if n > MAX_LINE {
        0
    } else {
        MAX_LINE - n
    };
    let mut b = Build {
        sketch: Sketch {
            instructions: Vec::new(),
            loaded: Vec::new(),
            names: Vec::new(),
            origins: Vec::new(),
            remaining,
        },
        originals: Vec::new(),
        texts: Vec::new(),
    };
    let ghost w = no_parts(original@);
    assert(built(b).draft.instructions =~= w.draft.instructions);
    assert(built(b).draft.loaded =~= w.draft.loaded);
    assert(built(b).draft.chosen =~= w.draft.chosen);
    assert(built(b).originals =~= w.originals);
    assert(built(b).texts =~= w.texts);
    let ghost all = values(parts@);
    let ghost known = skill_views(skills@);
    let mut i: usize = 0;
    assert(all.take(0) =~= Seq::empty());
    while i < parts.len()
        invariant
            i <= parts.len(),
            b.sketch.names.len() == b.sketch.origins.len(),
            all == values(parts@),
            known == skill_views(skills@),
            w == no_parts(original@),
            original@ == input@.field("text"@).text_or_empty(),
            input@.field("content"@).as_array() == Some(all),
            with_parts(
                w,
                known,
                all.take(i as int),
                product.name@,
            ) == Ok::<Whole, FaultView>(built(b)),
        decreases parts.len() - i,
    {
        assert(all.take(i + 1).drop_last() =~= all.take(i as int));
        assert(all.take(i + 1).last() == parts@[i as int]@);
        if let Err(fault) = add_part(&mut b, skills, &parts[i], product) {
            proof {
                parts_fail(w, known, all, i + 1, product.name@);
            }
            return Err(fault);
        }
        i += 1;
    }
    assert(all.take(i as int) =~= all);
    if b.sketch.instructions.len() == 0 {
        return Ok(original.to_owned());
    }
    if !same(join(&b.originals, "\n").as_str(), original) {
        return Err(Fault::refused("Selected skill content does not match the prompt text"));
    }
    let mut text = concat(
        "The user explicitly selected these skills. Their instructions are already loaded below; do not invoke them again with the Skill tool. Resolve relative paths from each skill's base directory.\n\n",
        join(&b.sketch.instructions, "\n\n").as_str(),
    );
    push_text(&mut text, "\n\nUser request:\n");
    push_text(&mut text, join(&b.texts, "\n").as_str());
    if size(text.as_str()) > MAX_LINE {
        return Err(
            Fault::refused(
                concat3(
                    "Selected skills exceed the ",
                    product.name.as_str(),
                    " input limit; select fewer skills",
                ).as_str(),
            ),
        );
    }
    Ok(text)
}

// Laws.

/// Mentions are put in order, and none is lost or made up.
pub proof fn mentions_are_ordered(mentions: Seq<Data>)
    ensures
        forall|i: int, j: int|
            0 <= i < j < in_place(mentions).len() ==> not_after(
                #[trigger] in_place(mentions)[i],
                #[trigger] in_place(mentions)[j],
            ),
        in_place(mentions).to_multiset() == mentions.filter(|m: Data| skill_mention(m)).to_multiset(),
    decreases mentions.len(),
{
    broadcast use vstd::seq_lib::group_to_multiset_ensures;

    let keep = |m: Data| skill_mention(m);
    if mentions.len() == 0 {
        assert(mentions.filter(keep) =~= in_place(mentions)) by {
            reveal(Seq::filter);
        }
    } else {
        let rest = mentions.drop_last();
        mentions_are_ordered(rest);
        assert(mentions =~= rest.push(mentions.last()));
        assert(mentions.filter(keep) == if keep(mentions.last()) {
            rest.filter(keep).push(mentions.last())
        } else {
            rest.filter(keep)
        }) by {
            reveal(Seq::filter);
        }
        if skill_mention(mentions.last()) {
            insertion_is_right(in_place(rest), mentions.last());
            assert(in_place(mentions).to_multiset() =~= in_place(rest).to_multiset().insert(
                mentions.last(),
            ));
            assert(mentions.filter(keep).to_multiset() =~= rest.filter(keep).to_multiset().insert(
                mentions.last(),
            ));
        }
    }
}

proof fn insertion_is_right(sorted: Seq<Data>, mention: Data)
    requires
        forall|i: int, j: int|
            0 <= i < j < sorted.len() ==> not_after(#[trigger] sorted[i], #[trigger] sorted[j]),
    ensures
        forall|i: int, j: int|
            0 <= i < j < inserted(sorted, mention).len() ==> not_after(
                #[trigger] inserted(sorted, mention)[i],
                #[trigger] inserted(sorted, mention)[j],
            ),
        inserted(sorted, mention).to_multiset() == sorted.to_multiset().insert(mention),
        forall|i: int|
            0 <= i < inserted(sorted, mention).len() ==> (#[trigger] inserted(sorted, mention)[i])
                == mention || sorted.contains(inserted(sorted, mention)[i]),
    decreases sorted.len(),
{
    broadcast use vstd::seq_lib::group_to_multiset_ensures;

    let out = inserted(sorted, mention);
    if sorted.len() == 0 || not_after(sorted.last(), mention) {
        assert forall|i: int, j: int| 0 <= i < j < out.len() implies not_after(
            #[trigger] out[i],
            #[trigger] out[j],
        ) by {
            if j == sorted.len() {
                if i < sorted.len() - 1 {
                    assert(not_after(sorted[i], sorted[sorted.len() - 1]));
                }
            } else {
                assert(not_after(sorted[i], sorted[j]));
            }
        }
        assert forall|i: int| 0 <= i < out.len() implies (#[trigger] out[i]) == mention
            || sorted.contains(out[i]) by {
            if i < sorted.len() {
                assert(sorted[i] == out[i]);
            }
        }
    } else {
        let rest = sorted.drop_last();
        insertion_is_right(rest, mention);
        let before = inserted(rest, mention);
        assert forall|i: int| 0 <= i < before.len() implies not_after(
            #[trigger] before[i],
            sorted.last(),
        ) by {
            if before[i] != mention {
                assert(rest.contains(before[i]));
                let k = choose|k: int| 0 <= k < rest.len() && rest[k] == before[i];
                assert(not_after(sorted[k], sorted[sorted.len() - 1]));
            }
        }
        assert forall|i: int, j: int| 0 <= i < j < out.len() implies not_after(
            #[trigger] out[i],
            #[trigger] out[j],
        ) by {
            if j < before.len() {
                assert(not_after(before[i], before[j]));
            }
        }
        assert(sorted =~= rest.push(sorted.last()));
        assert(out.to_multiset() =~= sorted.to_multiset().insert(mention));
        assert forall|i: int| 0 <= i < out.len() implies (#[trigger] out[i]) == mention
            || sorted.contains(out[i]) by {
            if i < before.len() && before[i] != mention {
                assert(rest.contains(before[i]));
                let k = choose|k: int| 0 <= k < rest.len() && rest[k] == before[i];
                assert(sorted[k] == out[i]);
            } else if i == before.len() {
                assert(sorted[sorted.len() - 1] == out[i]);
            }
        }
    }
}

/// A prompt without skills is handed on as it is.
pub proof fn plain_prompts_are_kept(input: Data, skills: Seq<SkillView>, product: Seq<char>)
    requires
        !(input.field("content"@) is Array),
    ensures
        expanded(input, skills, product) == Ok::<Seq<char>, FaultView>(
            input.field("text"@).text_or_empty(),
        ),
{
}

// Where skills are.

/// A folder that the session works in or below.
#[derive(Debug)]
pub struct Folder {
    pub path: String,
    /// The folder is the root of a repository.
    pub repository: bool,
}

/// The folders of skills from the session's own up to the root of its repository; where there is no
/// repository, its own only. `count` is how many have been looked at.
pub open spec fn project_roots(folders: Seq<Folder>, place: Seq<char>, count: int) -> Option<Seq<Seq<char>>>
    decreases folders.len() - count,
{
    if count < 0 || count >= folders.len() {
        None
    } else if folders[count].repository {
        Some(Seq::new((count + 1) as nat, |i: int| below(folders[i].path@, place)))
    } else {
        project_roots(folders, place, count + 1)
    }
}

/// Where skills of an origin are looked for.
pub open spec fn skill_roots(
    home: Seq<char>,
    origin: Seq<char>,
    place: Seq<char>,
    folders: Seq<Folder>,
) -> Result<Seq<Seq<char>>, FaultView> {
    if origin == "user"@ {
        Ok(seq![below(home, "skills"@)])
    } else if origin == "project"@ {
        match project_roots(folders, place, 0) {
            Some(roots) => Ok(roots),
            None => Ok(
                Seq::new(
                    if folders.len() > 0 {
                        1
                    } else {
                        0
                    },
                    |i: int| below(folders[i].path@, place),
                ),
            ),
        }
    } else {
        Err(
            refused("Selected skill must come from user or project skills on this machine"@),
        )
    }
}

/// Where skills of an origin are looked for. The folders go from the session's own outwards.
pub fn roots(home: &str, origin: &str, product: &Product, folders: &Vec<Folder>) -> (r: Result<
    Vec<String>,
    Fault,
>)
    ensures
        match r {
            Ok(list) => skill_roots(
                home@,
                origin@,
                skills_of(product.word@),
                folders@,
            ) == Ok::<Seq<Seq<char>>, FaultView>(
                views(list@),
            ),
            Err(f) => skill_roots(
                home@,
                origin@,
                skills_of(product.word@),
                folders@,
            ) == Err::<Seq<Seq<char>>, FaultView>(f@),
        },
{
    let folder = skills_folder(product.word.as_str());
    let place = folder.as_str();
    let mut out: Vec<String> = Vec::new();
    if same(origin, "user") {
        push_string(&mut out, under(home, "skills").as_str());
        assert(views(out@) =~= seq![below(home@, "skills"@)]);
        return Ok(out);
    }
    if !same(origin, "project") {
        return Err(
            Fault::refused("Selected skill must come from user or project skills on this machine"),
        );
    }
    proof {
        reveal_strlit("user");
        reveal_strlit("project");
        assert("user"@.len() == 4 && "project"@.len() == 7);
    }
    let mut i: usize = 0;
    while i < folders.len()
        invariant
            i <= folders.len(),
            origin@ == "project"@,
            "project"@ != "user"@,
            place@ == skills_of(product.word@),
            project_roots(folders@, place@, 0) == project_roots(folders@, place@, i as int),
            views(out@) == Seq::new(i as nat, |j: int| below(folders@[j].path@, place@)),
        decreases folders.len() - i,
    {
        push_string(&mut out, under(folders[i].path.as_str(), place).as_str());
        assert(views(out@) =~= Seq::new(
            (i + 1) as nat,
            |j: int| below(folders@[j].path@, place@),
        ));
        if folders[i].repository {
            return Ok(out);
        }
        i += 1;
    }
    let mut only: Vec<String> = Vec::new();
    if folders.len() > 0 {
        push_string(&mut only, under(folders[0].path.as_str(), place).as_str());
    }
    assert(views(only@) =~= Seq::new(
        if folders@.len() > 0 {
            1
        } else {
            0
        },
        |j: int| below(folders@[j].path@, place@),
    ));
    Ok(only)
}

} // verus!
