//! The models of Cursor: its variants as families with levels of reasoning.
use super::cursor::{option_of, option_value};
use super::{Model, ModelView};
use crate::fault::{other, refused, Fault, FaultView};
use crate::json::{object, values, Data, Json};
use crate::table::{in_order, is_order, order_goes_on, Table};
use crate::text::{
    after_prefix, chars_of, concat3, deep, find_from, finishes, found_from, holds, is_space, lines,
    lines_of, lossy, opt, opt_str, push_string, push_text, same, same_opt, space, string_of,
    strip_prefix, text_lossy, trim, trimmed, views,
};
use vstd::prelude::*;
use vstd::slice::slice_subrange;

verus! {

/// The levels of reasoning, from none to the most.
pub open spec fn level(i: int) -> Seq<char> {
    if i == 0 {
        "none"@
    } else if i == 1 {
        "low"@
    } else if i == 2 {
        "medium"@
    } else if i == 3 {
        "high"@
    } else if i == 4 {
        "xhigh"@
    } else {
        "max"@
    }
}

fn level_name(i: usize) -> (r: &'static str)
    ensures
        r@ == level(i as int),
{
    if i == 0 {
        "none"
    } else if i == 1 {
        "low"
    } else if i == 2 {
        "medium"
    } else if i == 3 {
        "high"
    } else if i == 4 {
        "xhigh"
    } else {
        "max"
    }
}

/// A variant of a model, by the parts of its name.
pub struct VariantView {
    pub family: Seq<char>,
    pub effort: Seq<char>,
    pub fast: bool,
    pub thinking: bool,
}

/// A variant of a model, by the parts of its name.
struct Variant {
    family: String,
    effort: &'static str,
    fast: bool,
    thinking: bool,
}

impl View for Variant {
    type V = VariantView;

    closed spec fn view(&self) -> VariantView {
        VariantView {
            family: self.family@,
            effort: self.effort@,
            fast: self.fast,
            thinking: self.thinking,
        }
    }
}

/// A text without an ending, where it has it.
pub open spec fn stripped(text: Seq<char>, ending: Seq<char>) -> Seq<char> {
    if finishes(text, ending) {
        text.take(text.len() - ending.len())
    } else {
        text
    }
}

/// A text with the first occurrence of a part replaced.
pub open spec fn first_replaced(text: Seq<char>, part: Seq<char>, by: Seq<char>) -> Seq<char> {
    match found_from(text, part, 0) {
        Some(i) => text.take(i) + by + text.subrange(i + part.len(), text.len() as int),
        None => text,
    }
}

/// The family and the effort that a name ends in.
pub open spec fn effort_of(rest: Seq<char>) -> (Seq<char>, Seq<char>) {
    if finishes(rest, "-extra-high"@) {
        (stripped(rest, "-extra-high"@), "xhigh"@)
    } else if finishes(rest, "-medium"@) {
        (stripped(rest, "-medium"@), "medium"@)
    } else if finishes(rest, "-xhigh"@) {
        (stripped(rest, "-xhigh"@), "xhigh"@)
    } else if finishes(rest, "-high"@) {
        (stripped(rest, "-high"@), "high"@)
    } else if finishes(rest, "-low"@) {
        (stripped(rest, "-low"@), "low"@)
    } else if finishes(rest, "-max"@) {
        (stripped(rest, "-max"@), "max"@)
    } else if finishes(rest, "-none"@) {
        (stripped(rest, "-none"@), "none"@)
    } else {
        (rest, "medium"@)
    }
}

/// The parts of the name of a variant.
pub open spec fn variant(id: Seq<char>) -> VariantView {
    let slow = stripped(id, "-fast"@);
    let rest = stripped(slow, "-thinking"@);
    let (family, effort) = effort_of(first_replaced(rest, "-thinking-"@, "-"@));
    VariantView {
        family,
        effort,
        fast: finishes(id, "-fast"@),
        thinking: finishes(slow, "-thinking"@) || holds(rest, "-thinking-"@),
    }
}

/// The name of a family as clients know it.
pub open spec fn shown_name(family: Seq<char>) -> Seq<char> {
    if family == "auto"@ {
        "default"@
    } else {
        match after_prefix(family, "cursor-"@) {
            Some(rest) => rest,
            None => family,
        }
    }
}

/// The variant belongs to a family.
pub open spec fn member(id: Seq<char>, name: Seq<char>) -> bool {
    shown_name(variant(id).family) == name
}

/// The family has variants that think.
pub open spec fn thinks(ids: Seq<Seq<char>>, name: Seq<char>) -> bool {
    exists|i: int| 0 <= i < ids.len() && member(#[trigger] ids[i], name) && variant(ids[i]).thinking
}

/// The level of reasoning of a variant. In a family with variants that think, the others do not
/// reason.
pub open spec fn level_of(id: Seq<char>, thinking: bool) -> Seq<char> {
    if variant(id).thinking || !thinking {
        variant(id).effort
    } else {
        "none"@
    }
}

/// The variant stands for a level of a family.
pub open spec fn stands_for(
    id: Seq<char>,
    name: Seq<char>,
    thinking: bool,
    wanted: Seq<char>,
) -> bool {
    member(id, name) && level_of(id, thinking) == wanted
}

/// The family offers a level.
pub open spec fn offers(ids: Seq<Seq<char>>, name: Seq<char>, thinking: bool, wanted: Seq<char>) -> bool {
    exists|i: int| 0 <= i < ids.len() && stands_for(#[trigger] ids[i], name, thinking, wanted)
}

/// The variant that a level of a family is served by, in its normal or its fast form: the first
/// one, but for no reasoning one of medium effort where there is one.
pub open spec fn served(
    ids: Seq<Seq<char>>,
    name: Seq<char>,
    thinking: bool,
    wanted: Seq<char>,
    fast: bool,
) -> Option<Seq<char>>
    decreases ids.len(),
{
    if ids.len() == 0 {
        None
    } else {
        let before = served(ids.drop_last(), name, thinking, wanted, fast);
        let id = ids.last();
        if !stands_for(id, name, thinking, wanted) || variant(id).fast != fast {
            before
        } else {
            match before {
                None => Some(id),
                Some(first) => if wanted == "none"@ && variant(id).effort == "medium"@ && variant(
                    first,
                ).effort != "medium"@ {
                    Some(id)
                } else {
                    before
                },
            }
        }
    }
}

/// The variant for a family and a level, the normal form before the fast one.
pub open spec fn variant_for(ids: Seq<Seq<char>>, name: Seq<char>, wanted: Seq<char>) -> Option<
    Seq<char>,
> {
    let thinking = thinks(ids, name);
    match served(ids, name, thinking, wanted, false) {
        Some(id) => Some(id),
        None => served(ids, name, thinking, wanted, true),
    }
}

/// The level that is used where none is asked for: the first of these that the family offers.
pub open spec fn usual_level(ids: Seq<Seq<char>>, name: Seq<char>) -> Option<Seq<char>> {
    let thinking = thinks(ids, name);
    if offers(ids, name, thinking, "medium"@) {
        Some("medium"@)
    } else if offers(ids, name, thinking, "low"@) {
        Some("low"@)
    } else if offers(ids, name, thinking, "high"@) {
        Some("high"@)
    } else if offers(ids, name, thinking, "xhigh"@) {
        Some("xhigh"@)
    } else if offers(ids, name, thinking, "max"@) {
        Some("max"@)
    } else if offers(ids, name, thinking, "none"@) {
        Some("none"@)
    } else {
        None
    }
}

/// A level of reasoning that is known.
pub open spec fn known_level(wanted: Seq<char>) -> bool {
    exists|i: int| 0 <= i < 6 && wanted == #[trigger] level(i)
}

/// The variant for a family and a level that may be left open.
pub open spec fn resolved(ids: Seq<Seq<char>>, name: Seq<char>, reasoning: Option<Seq<char>>) -> Option<
    Seq<char>,
> {
    match reasoning {
        Some(wanted) => if known_level(wanted) {
            variant_for(ids, name, wanted)
        } else {
            None
        },
        None => match usual_level(ids, name) {
            Some(wanted) => variant_for(ids, name, wanted),
            None => None,
        },
    }
}

/// The first levels that a family offers.
pub open spec fn levels_offered(ids: Seq<Seq<char>>, name: Seq<char>, count: nat) -> Seq<Seq<char>>
    decreases count,
{
    if count == 0 {
        Seq::empty()
    } else {
        let before = levels_offered(ids, name, (count - 1) as nat);
        if offers(ids, name, thinks(ids, name), level(count - 1)) {
            before.push(level(count - 1))
        } else {
            before
        }
    }
}

/// The families of variants.
pub open spec fn family_names(ids: Seq<Seq<char>>) -> Map<Seq<char>, bool>
    decreases ids.len(),
{
    if ids.len() == 0 {
        Map::empty()
    } else {
        family_names(ids.drop_last()).insert(shown_name(variant(ids.last()).family), true)
    }
}

/// The families of variants, each with the levels it offers.
pub open spec fn families_of(ids: Seq<Seq<char>>) -> Seq<ModelView> {
    let names = in_order(family_names(ids));
    Seq::new(
        names.len(),
        |i: int| ModelView { model: names[i], reasoning_levels: levels_offered(ids, names[i], 6) },
    )
}

/// Takes an ending off a text. Gives whether it was there.
fn strip(text: &mut String, ending: &str) -> (r: bool)
    ensures
        r == finishes(old(text)@, ending@),
        final(text)@ == stripped(old(text)@, ending@),
{
    if !crate::text::ends_with(text.as_str(), ending) {
        return false;
    }
    let chars = chars_of(text.as_str());
    let tail = chars_of(ending);
    let rest = slice_subrange(chars.as_slice(), 0, chars.len() - tail.len());
    assert(rest@ =~= stripped(text@, ending@));
    *text = string_of(rest);
    true
}

fn take_effort(rest: &mut String) -> (r: &'static str)
    ensures
        (final(rest)@, r@) == effort_of(old(rest)@),
{
    if strip(rest, "-extra-high") {
        "xhigh"
    } else if strip(rest, "-medium") {
        "medium"
    } else if strip(rest, "-xhigh") {
        "xhigh"
    } else if strip(rest, "-high") {
        "high"
    } else if strip(rest, "-low") {
        "low"
    } else if strip(rest, "-max") {
        "max"
    } else if strip(rest, "-none") {
        "none"
    } else {
        "medium"
    }
}

fn replace_first(text: &str, part: &str, by: &str) -> (r: String)
    ensures
        r@ == first_replaced(text@, part@, by@),
{
    let chars = chars_of(text);
    let piece = chars_of(part);
    match find_from(chars.as_slice(), piece.as_slice(), 0) {
        Some(i) => {
            let head = slice_subrange(chars.as_slice(), 0, i);
            let tail = slice_subrange(chars.as_slice(), i + piece.len(), chars.len());
            assert(head@ =~= text@.take(i as int));
            crate::text::concat3(string_of(head).as_str(), by, string_of(tail).as_str())
        },
        None => text.to_owned(),
    }
}

fn split(id: &str) -> (r: Variant)
    ensures
        r@ == variant(id@),
{
    let mut rest = id.to_owned();
    let fast = strip(&mut rest, "-fast");
    let ended = strip(&mut rest, "-thinking");
    let thinking = ended || crate::text::contains(rest.as_str(), "-thinking-");
    let mut family = replace_first(rest.as_str(), "-thinking-", "-");
    let effort = take_effort(&mut family);
    Variant { family, effort, fast, thinking }
}

fn family_name(family: &str) -> (r: String)
    ensures
        r@ == shown_name(family@),
{
    if same(family, "auto") {
        return "default".to_owned();
    }
    match strip_prefix(family, "cursor-") {
        Some(rest) => rest,
        None => family.to_owned(),
    }
}

fn has_thinking(ids: &Vec<String>, name: &str) -> (r: bool)
    ensures
        r == thinks(views(ids@), name@),
{
    let mut i: usize = 0;
    let ghost all = views(ids@);
    while i < ids.len()
        invariant
            i <= ids.len(),
            all == views(ids@),
            forall|j: int|
                0 <= j < i ==> !(member(#[trigger] all[j], name@) && variant(all[j]).thinking),
        decreases ids.len() - i,
    {
        let v = split(ids[i].as_str());
        assert(all[i as int] == ids@[i as int]@);
        if v.thinking && same(family_name(v.family.as_str()).as_str(), name) {
            return true;
        }
        i += 1;
    }
    false
}

fn fits(v: &Variant, name: &str, thinking: bool, wanted: &str, Ghost(id): Ghost<Seq<char>>) -> (r:
    bool)
    requires
        v@ == variant(id),
    ensures
        r == stands_for(id, name@, thinking, wanted@),
{
    let reached = if v.thinking || !thinking {
        v.effort
    } else {
        "none"
    };
    same(family_name(v.family.as_str()).as_str(), name) && same(reached, wanted)
}

fn has_level(ids: &Vec<String>, name: &str, thinking: bool, wanted: &str) -> (r: bool)
    ensures
        r == offers(views(ids@), name@, thinking, wanted@),
{
    let mut i: usize = 0;
    let ghost all = views(ids@);
    while i < ids.len()
        invariant
            i <= ids.len(),
            all == views(ids@),
            forall|j: int| 0 <= j < i ==> !stands_for(#[trigger] all[j], name@, thinking, wanted@),
        decreases ids.len() - i,
    {
        let v = split(ids[i].as_str());
        assert(all[i as int] == ids@[i as int]@);
        if fits(&v, name, thinking, wanted, Ghost(all[i as int])) {
            return true;
        }
        i += 1;
    }
    false
}

fn serve(ids: &Vec<String>, name: &str, thinking: bool, wanted: &str, fast: bool) -> (r: Option<
    String,
>)
    ensures
        opt(r) == served(views(ids@), name@, thinking, wanted@, fast),
{
    let ghost all = views(ids@);
    let mut found: Option<String> = None;
    let mut found_medium = false;
    let mut i: usize = 0;
    assert(all.take(0) =~= Seq::empty());
    while i < ids.len()
        invariant
            i <= ids.len(),
            all == views(ids@),
            opt(found) == served(all.take(i as int), name@, thinking, wanted@, fast),
            found is Some ==> found_medium == (variant(found->0@).effort == "medium"@),
        decreases ids.len() - i,
    {
        assert(all.take(i + 1).drop_last() =~= all.take(i as int));
        assert(all.take(i + 1).last() == ids@[i as int]@);
        let v = split(ids[i].as_str());
        if fits(&v, name, thinking, wanted, Ghost(ids@[i as int]@)) && v.fast == fast {
            let medium = same(v.effort, "medium");
            if found.is_none() || (same(wanted, "none") && medium && !found_medium) {
                found = Some(ids[i].clone());
                found_medium = medium;
            }
        }
        i += 1;
    }
    assert(all.take(i as int) =~= all);
    found
}

fn find_variant(ids: &Vec<String>, name: &str, wanted: &str) -> (r: Option<String>)
    ensures
        opt(r) == variant_for(views(ids@), name@, wanted@),
{
    let thinking = has_thinking(ids, name);
    match serve(ids, name, thinking, wanted, false) {
        Some(id) => Some(id),
        None => serve(ids, name, thinking, wanted, true),
    }
}

fn usual(ids: &Vec<String>, name: &str) -> (r: Option<&'static str>)
    ensures
        opt_str(r) == usual_level(views(ids@), name@),
{
    let thinking = has_thinking(ids, name);
    if has_level(ids, name, thinking, "medium") {
        Some("medium")
    } else if has_level(ids, name, thinking, "low") {
        Some("low")
    } else if has_level(ids, name, thinking, "high") {
        Some("high")
    } else if has_level(ids, name, thinking, "xhigh") {
        Some("xhigh")
    } else if has_level(ids, name, thinking, "max") {
        Some("max")
    } else if has_level(ids, name, thinking, "none") {
        Some("none")
    } else {
        None
    }
}

fn is_known_level(wanted: &str) -> (r: bool)
    ensures
        r == known_level(wanted@),
{
    let mut i: usize = 0;
    while i < 6
        invariant
            i <= 6,
            forall|j: int| 0 <= j < i ==> wanted@ != #[trigger] level(j),
        decreases 6 - i,
    {
        if same(wanted, level_name(i)) {
            assert(wanted@ == level(i as int));
            return true;
        }
        i += 1;
    }
    false
}

/// The variant of Cursor for a family and a level of reasoning.
pub fn resolve(ids: &Vec<String>, model: &str, reasoning: Option<&str>) -> (r: Option<String>)
    ensures
        opt(r) == resolved(views(ids@), model@, opt_str(reasoning)),
{
    match reasoning {
        Some(wanted) => if is_known_level(wanted) {
            find_variant(ids, model, wanted)
        } else {
            None
        },
        None => match usual(ids, model) {
            Some(wanted) => find_variant(ids, model, wanted),
            None => None,
        },
    }
}

fn offered(ids: &Vec<String>, name: &str) -> (r: Vec<String>)
    ensures
        views(r@) == levels_offered(views(ids@), name@, 6),
{
    let thinking = has_thinking(ids, name);
    let mut out: Vec<String> = Vec::new();
    let mut i: usize = 0;
    assert(views(out@) =~= Seq::<Seq<char>>::empty());
    while i < 6
        invariant
            i <= 6,
            thinking == thinks(views(ids@), name@),
            views(out@) == levels_offered(views(ids@), name@, i as nat),
        decreases 6 - i,
    {
        if has_level(ids, name, thinking, level_name(i)) {
            push_string(&mut out, level_name(i));
        }
        i += 1;
    }
    out
}

/// The families of variants, each with the levels it offers.
pub fn models(ids: &Vec<String>) -> (r: Vec<Model>)
    ensures
        super::codex::model_views(r@) == families_of(views(ids@)),
{
    let ghost all = views(ids@);
    let mut names: Table<bool> = Table::new();
    let mut i: usize = 0;
    assert(all.take(0) =~= Seq::empty());
    while i < ids.len()
        invariant
            i <= ids.len(),
            all == views(ids@),
            names@ == family_names(all.take(i as int)),
        decreases ids.len() - i,
    {
        assert(all.take(i + 1).drop_last() =~= all.take(i as int));
        assert(all.take(i + 1).last() == ids@[i as int]@);
        let v = split(ids[i].as_str());
        names.insert(family_name(v.family.as_str()).as_str(), true);
        i += 1;
    }
    assert(all.take(i as int) =~= all);
    let count = names.len();
    let ghost keys = in_order(names@);
    let mut out: Vec<Model> = Vec::new();
    let mut j: usize = 0;
    while j < count
        invariant
            j <= count,
            count == keys.len(),
            keys == in_order(names@),
            all == views(ids@),
            names@ == family_names(all),
            out.len() == j,
            forall|k: int|
                0 <= k < j ==> (#[trigger] out@[k])@ == (ModelView {
                    model: keys[k],
                    reasoning_levels: levels_offered(all, keys[k], 6),
                }),
        decreases count - j,
    {
        let name = names.key_at(j);
        out.push(Model { model: name.to_owned(), reasoning_levels: offered(ids, name) });
        j += 1;
    }
    assert(super::codex::model_views(out@) =~= families_of(all));
    out
}

/// White space stands in a text.
pub open spec fn some_space(text: Seq<char>) -> bool {
    exists|i: int| 0 <= i < text.len() && space(#[trigger] text[i])
}

/// Whether white space stands in a text.
pub fn has_space(text: &[char]) -> (r: bool)
    ensures
        r == some_space(text@),
{
    let mut i: usize = 0;
    while i < text.len()
        invariant
            i <= text.len(),
            forall|j: int| 0 <= j < i ==> !space(#[trigger] text@[j]),
        decreases text.len() - i,
    {
        if is_space(text[i]) {
            return true;
        }
        i += 1;
    }
    false
}

/// The variant that a line of the catalog names.
pub open spec fn listed(line: Seq<char>) -> Option<Seq<char>> {
    let plain = trimmed(line);
    match found_from(plain, " - "@, 0) {
        Some(i) => if i > 0 && !some_space(plain.take(i)) {
            Some(plain.take(i))
        } else {
            None
        },
        None => None,
    }
}

/// The variants that the lines of the catalog name.
pub open spec fn all_listed(all: Seq<Seq<char>>) -> Seq<Seq<char>>
    decreases all.len(),
{
    if all.len() == 0 {
        Seq::empty()
    } else {
        match listed(all.last()) {
            Some(id) => all_listed(all.drop_last()).push(id),
            None => all_listed(all.drop_last()),
        }
    }
}

/// The variants that the catalog lists.
pub fn parse(stdout: &str) -> (r: Vec<String>)
    ensures
        views(r@) == all_listed(lines(stdout@)),
{
    let chars = chars_of(stdout);
    let all = lines_of(chars.as_slice());
    let ghost whole = lines(stdout@);
    let dash = chars_of(" - ");
    let mut out: Vec<String> = Vec::new();
    let mut i: usize = 0;
    assert(whole.take(0) =~= Seq::empty());
    assert(views(out@) =~= Seq::<Seq<char>>::empty());
    while i < all.len()
        invariant
            i <= all.len(),
            deep(all@) == whole,
            dash@ == " - "@,
            views(out@) == all_listed(whole.take(i as int)),
        decreases all.len() - i,
    {
        assert(whole.take(i + 1).drop_last() =~= whole.take(i as int));
        assert(whole.take(i + 1).last() == all@[i as int]@);
        let plain = trim(all[i].as_slice());
        if let Some(k) = find_from(plain, dash.as_slice(), 0) {
            let id = slice_subrange(plain, 0, k);
            assert(id@ =~= plain@.take(k as int));
            if k > 0 && !has_space(id) {
                push_string(&mut out, string_of(id).as_str());
            }
        }
        i += 1;
    }
    assert(whole.take(i as int) =~= whole);
    out
}

/// The families that a command listed: it ended well, and there is one at least.
pub open spec fn families_listed(success: bool, stdout: Seq<u8>) -> Option<Seq<ModelView>> {
    let families = families_of(all_listed(lines(lossy(stdout))));
    if success && families.len() > 0 {
        Some(families)
    } else {
        None
    }
}

/// The families that a command listed.
pub fn read_list(success: bool, stdout: &[u8]) -> (r: Result<Vec<Model>, Fault>)
    ensures
        match r {
            Ok(list) => families_listed(success, stdout@) == Some(super::codex::model_views(list@)),
            Err(f) => families_listed(success, stdout@) is None && f@ == other(
                "Cursor model list unavailable"@,
            ),
        },
{
    let list = models(&parse(text_lossy(stdout).as_str()));
    assert(super::codex::model_views(list@).len() == list@.len());
    if !success || list.len() == 0 {
        return Err(Fault::other("Cursor model list unavailable"));
    }
    Ok(list)
}

/// A level that a family offers is served by one of its variants: what can be chosen can be used.
pub proof fn offered_levels_are_served(ids: Seq<Seq<char>>, name: Seq<char>, i: int)
    requires
        0 <= i < 6,
        offers(ids, name, thinks(ids, name), level(i)),
    ensures
        resolved(ids, name, Some(level(i))) is Some,
        ids.contains(resolved(ids, name, Some(level(i)))->0),
{
    let thinking = thinks(ids, name);
    let k = choose|k: int| 0 <= k < ids.len() && stands_for(
        #[trigger] ids[k],
        name,
        thinking,
        level(i),
    );
    served_where_offered(ids, name, thinking, level(i), variant(ids[k]).fast, k);
    served_is_a_variant(ids, name, thinking, level(i), false);
    served_is_a_variant(ids, name, thinking, level(i), true);
    assert(known_level(level(i)));
}

/// The level of a variant is one of those that are known.
proof fn levels_are_known(id: Seq<char>, thinking: bool)
    ensures
        known_level(level_of(id, thinking)),
{
    assert(level(0) == "none"@ && level(1) == "low"@ && level(2) == "medium"@ && level(3) == "high"@
        && level(4) == "xhigh"@ && level(5) == "max"@);
}

/// A variant serves a level exactly where the family offers it.
proof fn served_as_offered(ids: Seq<Seq<char>>, name: Seq<char>, wanted: Seq<char>)
    ensures
        variant_for(ids, name, wanted) is Some <==> offers(ids, name, thinks(ids, name), wanted),
{
    let thinking = thinks(ids, name);
    if offers(ids, name, thinking, wanted) {
        let k = choose|k: int|
            0 <= k < ids.len() && stands_for(#[trigger] ids[k], name, thinking, wanted);
        served_where_offered(ids, name, thinking, wanted, variant(ids[k]).fast, k);
    }
    served_is_a_variant(ids, name, thinking, wanted, false);
    served_is_a_variant(ids, name, thinking, wanted, true);
}

/// The levels of a list are those known ones that the family offers.
proof fn levels_listed(ids: Seq<Seq<char>>, name: Seq<char>, count: nat, wanted: Seq<char>)
    ensures
        levels_offered(ids, name, count).contains(wanted) <==> offers(
            ids,
            name,
            thinks(ids, name),
            wanted,
        ) && exists|i: int| 0 <= i < count && wanted == #[trigger] level(i),
    decreases count,
{
    if count > 0 {
        let less = (count - 1) as nat;
        levels_listed(ids, name, less, wanted);
        let before = levels_offered(ids, name, less);
        let now = levels_offered(ids, name, count);
        if before.contains(wanted) {
            let i = choose|i: int| 0 <= i < before.len() && before[i] == wanted;
            assert(now[i] == wanted);
        }
        if offers(ids, name, thinks(ids, name), level(count - 1)) {
            assert(now.last() == level(count - 1));
            if now.contains(wanted) {
                let i = choose|i: int| 0 <= i < now.len() && now[i] == wanted;
                if i < before.len() {
                    assert(before[i] == wanted);
                }
            }
        }
    }
}

/// The families are those of the variants.
proof fn families_are_named(ids: Seq<Seq<char>>)
    ensures
        is_order(in_order(family_names(ids)), family_names(ids)),
        forall|name: Seq<char>| #[trigger]
            family_names(ids).contains_key(name) <==> exists|k: int|
                0 <= k < ids.len() && member(#[trigger] ids[k], name),
    decreases ids.len(),
{
    if ids.len() == 0 {
        assert(is_order(Seq::<Seq<char>>::empty(), family_names(ids)));
    } else {
        let rest = ids.drop_last();
        families_are_named(rest);
        order_goes_on(family_names(rest), shown_name(variant(ids.last()).family), true);
        assert forall|name: Seq<char>| #[trigger]
            family_names(ids).contains_key(name) <==> exists|k: int|
                0 <= k < ids.len() && member(#[trigger] ids[k], name) by {
            if family_names(rest).contains_key(name) {
                let k = choose|k: int| 0 <= k < rest.len() && member(#[trigger] rest[k], name);
                assert(member(ids[k], name));
            }
            if exists|k: int| 0 <= k < ids.len() && member(#[trigger] ids[k], name) {
                let k = choose|k: int| 0 <= k < ids.len() && member(#[trigger] ids[k], name);
                if k < rest.len() {
                    assert(member(rest[k], name));
                }
            }
            if member(ids.last(), name) {
                assert(member(ids[ids.len() - 1], name));
            }
        }
    }
}

/// A family is listed at a place.
pub open spec fn family_at(ids: Seq<Seq<char>>, name: Seq<char>, m: int) -> bool {
    0 <= m < families_of(ids).len() && families_of(ids)[m].model == name
}

/// A family that is listed has a variant, and a family that has one is listed.
proof fn families_have_variants(ids: Seq<Seq<char>>, name: Seq<char>)
    ensures
        (exists|m: int| family_at(ids, name, m)) <==> exists|k: int|
            0 <= k < ids.len() && member(#[trigger] ids[k], name),
{
    families_are_named(ids);
    let names = in_order(family_names(ids));
    if exists|m: int| family_at(ids, name, m) {
        let m = choose|m: int| family_at(ids, name, m);
        assert(family_names(ids).contains_key(names[m]));
    }
    if family_names(ids).contains_key(name) {
        let m = choose|m: int| 0 <= m < names.len() && names[m] == name;
        assert(family_at(ids, name, m));
    }
}

/// What can be chosen is what can be used: a level of a family has a variant exactly where the list of
/// models holds the level for the family.
pub proof fn served_levels_are_those_listed(
    ids: Seq<Seq<char>>,
    name: Seq<char>,
    wanted: Seq<char>,
)
    ensures
        resolved(ids, name, Some(wanted)) is Some <==> exists|m: int| #[trigger]
            family_at(ids, name, m) && families_of(ids)[m].reasoning_levels.contains(wanted),
{
    served_as_offered(ids, name, wanted);
    levels_listed(ids, name, 6, wanted);
    families_have_variants(ids, name);
    if offers(ids, name, thinks(ids, name), wanted) {
        let k = choose|k: int|
            0 <= k < ids.len() && stands_for(#[trigger] ids[k], name, thinks(ids, name), wanted);
        assert(member(ids[k], name));
        let m = choose|m: int| family_at(ids, name, m);
        assert(family_at(ids, name, m));
    }
    if exists|m: int| #[trigger]
        family_at(ids, name, m) && families_of(ids)[m].reasoning_levels.contains(wanted) {
        let m = choose|m: int| #[trigger]
            family_at(ids, name, m) && families_of(ids)[m].reasoning_levels.contains(wanted);
        assert(families_of(ids)[m].reasoning_levels == levels_offered(ids, name, 6));
    }
}

/// The first of the usual levels that a list holds.
pub open spec fn first_usual(levels: Seq<Seq<char>>) -> Option<Seq<char>> {
    if levels.contains("medium"@) {
        Some("medium"@)
    } else if levels.contains("low"@) {
        Some("low"@)
    } else if levels.contains("high"@) {
        Some("high"@)
    } else if levels.contains("xhigh"@) {
        Some("xhigh"@)
    } else if levels.contains("max"@) {
        Some("max"@)
    } else if levels.contains("none"@) {
        Some("none"@)
    } else {
        None
    }
}

/// Without a level a family that is listed is used at the first of the usual levels that the list holds
/// for it, and always has a variant. A family that is not listed has none.
pub proof fn the_usual_level_is_served(ids: Seq<Seq<char>>, name: Seq<char>)
    ensures
        forall|m: int| #[trigger]
            family_at(ids, name, m) ==> {
                let usual = first_usual(families_of(ids)[m].reasoning_levels);
                &&& usual is Some
                &&& resolved(ids, name, None) == resolved(ids, name, usual)
                &&& resolved(ids, name, None) is Some
            },
        (forall|m: int| !family_at(ids, name, m)) ==> resolved(ids, name, None) is None,
{
    let thinking = thinks(ids, name);
    let levels = levels_offered(ids, name, 6);
    assert(level(0) == "none"@ && level(1) == "low"@ && level(2) == "medium"@ && level(3) == "high"@
        && level(4) == "xhigh"@ && level(5) == "max"@);
    assert forall|i: int| 0 <= i < 6 implies (levels.contains(#[trigger] level(i)) <==> offers(
        ids,
        name,
        thinking,
        level(i),
    )) && known_level(level(i)) && (variant_for(ids, name, level(i)) is Some <==> offers(
        ids,
        name,
        thinking,
        level(i),
    )) by {
        levels_listed(ids, name, 6, level(i));
        served_as_offered(ids, name, level(i));
    }
    families_have_variants(ids, name);
    assert(usual_level(ids, name) == first_usual(levels));
    assert forall|m: int| #[trigger] family_at(ids, name, m) implies {
        let usual = first_usual(families_of(ids)[m].reasoning_levels);
        &&& usual is Some
        &&& resolved(ids, name, None) == resolved(ids, name, usual)
        &&& resolved(ids, name, None) is Some
    } by {
        let k = choose|k: int| 0 <= k < ids.len() && member(#[trigger] ids[k], name);
        levels_are_known(ids[k], thinking);
        assert(stands_for(ids[k], name, thinking, level_of(ids[k], thinking)));
        assert(offers(ids, name, thinking, level_of(ids[k], thinking)));
        let i = choose|i: int| 0 <= i < 6 && level_of(ids[k], thinking) == #[trigger] level(i);
        assert(levels.contains(level(i)));
        assert(families_of(ids)[m].reasoning_levels == levels);
    }
    if forall|m: int| !family_at(ids, name, m) {
        assert forall|wanted: Seq<char>| !offers(ids, name, thinking, wanted) by {
            if offers(ids, name, thinking, wanted) {
                let k = choose|k: int|
                    0 <= k < ids.len() && stands_for(#[trigger] ids[k], name, thinking, wanted);
                assert(member(ids[k], name));
            }
        }
    }
}

proof fn served_where_offered(
    ids: Seq<Seq<char>>,
    name: Seq<char>,
    thinking: bool,
    wanted: Seq<char>,
    fast: bool,
    k: int,
)
    requires
        0 <= k < ids.len(),
        stands_for(ids[k], name, thinking, wanted),
        variant(ids[k]).fast == fast,
    ensures
        served(ids, name, thinking, wanted, fast) is Some,
    decreases ids.len(),
{
    if k < ids.len() - 1 {
        assert(ids.drop_last()[k] == ids[k]);
        served_where_offered(ids.drop_last(), name, thinking, wanted, fast, k);
    }
}

proof fn served_is_a_variant(
    ids: Seq<Seq<char>>,
    name: Seq<char>,
    thinking: bool,
    wanted: Seq<char>,
    fast: bool,
)
    ensures
        served(ids, name, thinking, wanted, fast) is Some ==> ids.contains(
            served(ids, name, thinking, wanted, fast)->0,
        ) && stands_for(
            served(ids, name, thinking, wanted, fast)->0,
            name,
            thinking,
            wanted,
        ),
    decreases ids.len(),
{
    if ids.len() > 0 {
        served_is_a_variant(ids.drop_last(), name, thinking, wanted, fast);
        let before = served(ids.drop_last(), name, thinking, wanted, fast);
        if before is Some {
            let k = choose|k: int| 0 <= k < ids.drop_last().len() && ids.drop_last()[k]
                == before->0;
            assert(ids[k] == before->0);
        }
        assert(ids[ids.len() - 1] == ids.last());
    }
}

// Choosing a model for a session.

/// The identities in a catalog of models.
pub open spec fn catalog_ids(items: Seq<Data>) -> Seq<Seq<char>>
    decreases items.len(),
{
    if items.len() == 0 {
        Seq::empty()
    } else {
        match items.last().field("modelId"@).as_text() {
            Some(id) => catalog_ids(items.drop_last()).push(id),
            None => catalog_ids(items.drop_last()),
        }
    }
}

fn read_ids(items: &Vec<Json>) -> (r: Vec<String>)
    ensures
        views(r@) == catalog_ids(values(items@)),
{
    let ghost all = values(items@);
    let mut out: Vec<String> = Vec::new();
    let mut i: usize = 0;
    assert(all.take(0) =~= Seq::empty());
    assert(views(out@) =~= Seq::<Seq<char>>::empty());
    while i < items.len()
        invariant
            i <= items.len(),
            all == values(items@),
            views(out@) == catalog_ids(all.take(i as int)),
        decreases items.len() - i,
    {
        assert(all.take(i + 1).drop_last() =~= all.take(i as int));
        assert(all.take(i + 1).last() == items@[i as int]@);
        if let Some(id) = items[i].field_text("modelId") {
            push_string(&mut out, id);
        }
        i += 1;
    }
    assert(all.take(i as int) =~= all);
    out
}

/// The model as Cursor names it.
pub open spec fn asked_model(model: Seq<char>) -> Seq<char> {
    if model == "auto"@ {
        "default"@
    } else {
        model
    }
}

/// The variant that a session is set to.
pub open spec fn selected(session: Data, model: Seq<char>, reasoning: Option<Seq<char>>) -> Result<
    Seq<char>,
    FaultView,
> {
    match session.field("models"@).field("availableModels"@).as_array() {
        None => Err(other("Cursor model catalog unavailable"@)),
        Some(catalog) => match resolved(catalog_ids(catalog), asked_model(model), reasoning) {
            Some(id) => Ok(id),
            None => Err(
                refused(
                    "Cursor offers no "@ + (match reasoning {
                        Some(level) => level,
                        None => "default"@,
                    }) + " variant of "@ + asked_model(model) + " for this account"@,
                ),
            ),
        },
    }
}

/// The variant that a session is set to.
pub fn select_model(session: &Json, model: &str, reasoning: Option<&str>) -> (r: Result<
    String,
    Fault,
>)
    ensures
        match r {
            Ok(id) => selected(session@, model@, opt_str(reasoning)) == Ok::<Seq<char>, FaultView>(
                id@,
            ),
            Err(f) => selected(session@, model@, opt_str(reasoning)) == Err::<
                Seq<char>,
                FaultView,
            >(f@),
        },
{
    let requested = if same(model, "auto") {
        "default"
    } else {
        model
    };
    let catalog = match session.field("models").field("availableModels").as_array() {
        Some(catalog) => catalog,
        None => {
            return Err(Fault::other("Cursor model catalog unavailable"));
        },
    };
    let ids = read_ids(catalog);
    match resolve(&ids, requested, reasoning) {
        Some(id) => Ok(id),
        None => {
            let level = match reasoning {
                Some(level) => level,
                None => "default",
            };
            let mut text = concat3("Cursor offers no ", level, " variant of ");
            push_text(&mut text, requested);
            push_text(&mut text, " for this account");
            Err(Fault::refused(text.as_str()))
        },
    }
}

/// What Cursor is asked for a variant.
pub fn model_params(session: &str, id: &str) -> (r: Json)
    ensures
        r@ == Data::Object(
            map![
                "sessionId"@ => Data::Text(session@),
                "configId"@ => Data::Text("model"@),
                "value"@ => Data::Text(id@)
            ],
        ),
{
    Json::Object(
        object().with_text("sessionId", session).with_text("configId", "model").with_text(
            "value",
            id,
        ),
    )
}

/// Refuses to go on where Cursor has not taken the variant.
pub fn check_selected(result: &Json, id: &str) -> (r: Result<(), Fault>)
    ensures
        match r {
            Ok(()) => option_of(result@, "model"@) == Some(id@),
            Err(f) => option_of(result@, "model"@) != Some(id@) && f@ == other(
                "Cursor did not confirm the requested model and reasoning"@,
            ),
        },
{
    if same_opt(option_value(result, "model"), Some(id)) {
        Ok(())
    } else {
        Err(Fault::other("Cursor did not confirm the requested model and reasoning"))
    }
}

} // verus!
