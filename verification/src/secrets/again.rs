//! Changing a file a second time with the same answers changes nothing.
use super::dotenv::{
    assigned, assigns, assignment_body, changed_lines_assign_the_value, changes, closed_from,
    comment_from, encoded, file_refused, first_repeated, is_open, line_after, line_wanted,
    lines_added, lines_stay_in_place, name_char, name_length, new_line, passed, reconciled,
    times_assigned, values_of, AssignmentView, ReconciledView,
};
use super::variable;
use crate::text::{
    digit, finishes, holds, joined, joined_lines_read_back, lines, lines_are_plain, occurs_at,
    one_line_text, space, trimmed_end, trimmed_start, without, without_holds,
};
use vstd::prelude::*;

verus! {

// Comments.

/// A comment with the spaces before it, or nothing.
spec fn is_note(note: Seq<char>) -> bool {
    note.len() == 0 || exists|m: int|
        0 < m < note.len() && note[m] == '#' && forall|j: int| 0 <= j < m ==> space(#[trigger] note[j])
}

proof fn end_is_space(text: Seq<char>)
    ensures
        trimmed_end(text).len() <= text.len(),
        forall|j: int| trimmed_end(text).len() <= j < text.len() ==> space(#[trigger] text[j]),
    decreases text.len(),
{
    if text.len() > 0 && space(text[text.len() - 1]) {
        let less = text.subrange(0, text.len() - 1);
        end_is_space(less);
        assert forall|j: int| trimmed_end(text).len() <= j < text.len() implies space(
            #[trigger] text[j],
        ) by {
            if j < less.len() {
                assert(less[j] == text[j]);
            }
        }
    }
}

proof fn comments_are_notes(rest: Seq<char>, i: int, quote: Option<char>, escaped: bool)
    requires
        0 <= i,
    ensures
        is_note(comment_from(rest, i, quote, escaped)),
        comment_from(rest, i, quote, escaped).len() <= rest.len(),
        comment_from(rest, i, quote, escaped) == rest.skip(
            rest.len() - comment_from(rest, i, quote, escaped).len(),
        ),
    decreases rest.len() - i,
{
    if i >= rest.len() {
        assert(rest.skip(rest.len() as int) =~= Seq::empty());
    } else {
        let c = rest[i];
        if escaped {
            comments_are_notes(rest, i + 1, quote, false);
        } else if c == '\\' && quote == Some('"') {
            comments_are_notes(rest, i + 1, quote, true);
        } else if c == '\'' || c == '"' {
            comments_are_notes(
                rest,
                i + 1,
                if quote == Some(c) {
                    None
                } else if quote is Some {
                    quote
                } else {
                    Some(c)
                },
                false,
            );
        } else if c == '#' && quote is None && i > 0 && space(rest[i - 1]) {
            let before = rest.take(i);
            end_is_space(before);
            assert(before[i - 1] == rest[i - 1]);
            end_is_space(before.subrange(0, i - 1));
            let k = trimmed_end(before).len() as int;
            let note = rest.skip(k);
            assert(note[i - k] == '#');
            assert forall|j: int| 0 <= j < i - k implies space(#[trigger] note[j]) by {
                assert(note[j] == before[k + j]);
            }
        } else {
            comments_are_notes(rest, i + 1, quote, false);
        }
    }
}

proof fn trims_to(a: Seq<char>, white: Seq<char>)
    requires
        a.len() > 0,
        !space(a.last()),
        forall|j: int| 0 <= j < white.len() ==> space(#[trigger] white[j]),
    ensures
        trimmed_end(a + white) == a,
    decreases white.len(),
{
    let whole = a + white;
    if white.len() == 0 {
        assert(whole =~= a);
    } else {
        let less = white.drop_last();
        assert forall|j: int| 0 <= j < less.len() implies space(#[trigger] less[j]) by {
            assert(white[j] == less[j]);
        }
        trims_to(a, less);
        assert(whole[whole.len() - 1] == white[white.len() - 1]);
        assert(whole.subrange(0, whole.len() - 1) =~= a + less);
    }
}

/// A value in single quotes.
spec fn quoted(value: Seq<char>) -> Seq<char> {
    seq!['\''] + value + seq!['\'']
}

proof fn quoted_is_passed(whole: Seq<char>, value: Seq<char>, note: Seq<char>, i: int)
    requires
        whole == quoted(value) + note,
        !value.contains('\''),
        1 <= i <= value.len() + 1,
    ensures
        comment_from(whole, i, Some('\''), false) == comment_from(
            whole,
            (value.len() + 2) as int,
            None,
            false,
        ),
        closed_from(whole, i, '\'', false),
    decreases value.len() + 1 - i,
{
    if i <= value.len() {
        assert(whole[i] == value[i - 1]);
        assert(value[i - 1] != '\'');
        quoted_is_passed(whole, value, note, i + 1);
    } else {
        assert(whole[i] == '\'');
    }
}

proof fn white_is_passed(whole: Seq<char>, i: int, h: int)
    requires
        0 <= i <= h < whole.len(),
        forall|j: int| i <= j < h ==> space(#[trigger] whole[j]),
    ensures
        comment_from(whole, i, None, false) == comment_from(whole, h, None, false),
    decreases h - i,
{
    if i < h {
        assert(space(whole[i]));
        white_is_passed(whole, i + 1, h);
    }
}

proof fn comment_stays(value: Seq<char>, note: Seq<char>)
    requires
        !value.contains('\''),
        is_note(note),
    ensures
        comment_from(quoted(value) + note, 0, None, false) == note,
        closed_from(quoted(value) + note, 1, '\'', false),
{
    let whole = quoted(value) + note;
    assert(whole[0] == '\'');
    quoted_is_passed(whole, value, note, 1);
    let at = value.len() + 2;
    assert(comment_from(whole, 0, None, false) == comment_from(whole, 1, Some('\''), false));
    if note.len() == 0 {
        assert(note =~= Seq::empty());
    } else {
        let m = choose|m: int|
            0 < m < note.len() && note[m] == '#' && forall|j: int|
                0 <= j < m ==> space(#[trigger] note[j]);
        assert forall|j: int| at <= j < at + m implies space(#[trigger] whole[j]) by {
            assert(whole[j] == note[j - at]);
        }
        white_is_passed(whole, at as int, at + m);
        assert(whole[at + m] == '#');
        assert(space(whole[at + m - 1]));
        let white = note.take(m);
        assert(whole.take(at + m) =~= quoted(value) + white);
        assert(quoted(value).last() == '\'');
        trims_to(quoted(value), white);
        assert(whole.skip(at as int) =~= note);
    }
}

// Lines.

proof fn encodes_in_quotes(value: Seq<char>)
    requires
        !value.contains('\''),
    ensures
        encoded(value) == Some(quoted(value)),
{
    reveal_strlit("'");
    assert("'"@ =~= seq!['\'']);
}

proof fn name_ends(name: Seq<char>, rest: Seq<char>)
    requires
        forall|i: int| 0 <= i < name.len() ==> name_char(#[trigger] name[i]),
        rest.len() > 0,
        !name_char(rest[0]),
    ensures
        name_length(name + rest) == name.len(),
    decreases name.len(),
{
    let whole = name + rest;
    if name.len() == 0 {
        assert(whole[0] == rest[0]);
    } else {
        let less = name.skip(1);
        assert forall|i: int| 0 <= i < less.len() implies name_char(#[trigger] less[i]) by {
            assert(less[i] == name[i + 1]);
        }
        name_ends(less, rest);
        assert(whole[0] == name[0]);
        assert(whole.skip(1) =~= less + rest);
    }
}

proof fn names_have_name_chars(name: Seq<char>)
    requires
        variable(name),
    ensures
        name.len() > 0,
        !digit(name[0]),
        forall|i: int| 0 <= i < name.len() ==> name_char(#[trigger] name[i]),
{
    reveal_strlit("_");
    assert("_"@ =~= seq!['_']);
}

/// A line that is written for a name assigns it.
proof fn new_lines_assign(name: Seq<char>, text: Seq<char>)
    requires
        variable(name),
        text.len() > 0,
        !space(text[0]),
    ensures
        assigned(name + "="@ + text) == Some(
            AssignmentView { prefix: name + "="@, name, value: text },
        ),
{
    names_have_name_chars(name);
    reveal_strlit("=");
    reveal_strlit("export");
    assert("="@ =~= seq!['=']);
    let line = name + "="@ + text;
    let n = name.len() as int;
    assert(line[0] == name[0]);
    assert(name_char(name[0]));
    assert(trimmed_start(line) == line);
    assert(assignment_body(line) == line) by {
        let word = "export"@;
        assert(word.len() == 6);
        if occurs_at(line, word, 0) {
            assert(line.subrange(0, 6) == word);
            assert forall|k: int| 0 <= k < 6 implies line[k] == #[trigger] word[k] by {
                assert(line.subrange(0, 6)[k] == line[k]);
            }
            let rest = line.subrange(6, line.len() as int);
            if rest.len() > 0 {
                assert(rest[0] == line[6]);
                if n > 6 {
                    assert(line[6] == name[6]);
                    assert(name_char(name[6]));
                } else if n == 6 {
                    assert(line[6] == '=');
                } else {
                    assert(line[n] == '=');
                    assert(word[n] == '=');
                    assert(false);
                }
            }
        }
    }
    let tail = "="@ + text;
    assert(line =~= name + tail);
    name_ends(name, tail);
    assert(line.take(n) =~= name);
    assert(line.skip(n) =~= tail);
    assert(tail[0] == '=');
    assert(trimmed_start(tail) == tail);
    assert(tail.skip(1) =~= text);
    assert(trimmed_start(text) == text);
    assert(line.take(line.len() - text.len()) =~= name + "="@);
}

/// The answers that are written in single quotes on one line.
spec fn plain_answers(names: Seq<Seq<char>>, values: Map<Seq<char>, Seq<char>>) -> bool {
    &&& values_of(names, values)
    &&& forall|name: Seq<char>| #[trigger]
        values.contains_key(name) ==> variable(name) && one_line_text(values[name])
            && !values[name].contains('\'')
}

/// A line that a second change leaves as it is.
spec fn stays(line: Seq<char>, values: Map<Seq<char>, Seq<char>>) -> bool {
    one_line_text(line) && !is_open(line) && line_after(line, values) == Some(line)
}

proof fn plain_parts(a: Seq<char>, b: Seq<char>)
    requires
        one_line_text(a),
        one_line_text(b),
    ensures
        one_line_text(a + b),
{
    let whole = a + b;
    assert forall|i: int| 0 <= i < whole.len() implies #[trigger] whole[i] != '\n' && whole[i] != '\r'
        by {
        if i < a.len() {
            assert(a.contains(a[i]));
        } else {
            assert(b.contains(b[i - a.len()]));
        }
    }
}

proof fn plain_pieces(line: Seq<char>, i: int)
    requires
        one_line_text(line),
        0 <= i <= line.len(),
    ensures
        one_line_text(line.take(i)),
        one_line_text(line.skip(i)),
{
    assert forall|k: int| 0 <= k < i implies #[trigger] line.take(i)[k] != '\n' && line.take(i)[k]
        != '\r' by {
        assert(line.contains(line[k]));
    }
    assert forall|k: int| 0 <= k < line.len() - i implies #[trigger] line.skip(i)[k] != '\n'
        && line.skip(i)[k] != '\r' by {
        assert(line.contains(line[i + k]));
    }
}

proof fn plain_quotes(value: Seq<char>)
    requires
        one_line_text(value),
    ensures
        one_line_text(quoted(value)),
{
    let q = seq!['\''];
    assert(one_line_text(q));
    plain_parts(q, value);
    plain_parts(q + value, q);
}

/// The value of an assignment is the end of its line.
proof fn value_ends_the_line(line: Seq<char>)
    requires
        assigned(line) is Some,
    ensures
        assigned(line)->0.value.len() <= line.len(),
        assigned(line)->0.prefix == line.take(line.len() - assigned(line)->0.value.len()),
        line.len() > 0,
        assigned(line)->0.value == line.skip(line.len() - assigned(line)->0.value.len()),
{
    super::dotenv::values_end_lines(line);
}

proof fn changed_lines_stay(
    line: Seq<char>,
    names: Seq<Seq<char>>,
    values: Map<Seq<char>, Seq<char>>,
)
    requires
        plain_answers(names, values),
        one_line_text(line),
        !is_open(line),
    ensures
        line_after(line, values) is Some,
        stays(line_after(line, values)->0, values),
        forall|name: Seq<char>| #[trigger]
            assigns(line_after(line, values)->0, name) <==> assigns(line, name),
        line.len() > 0 ==> line_after(line, values)->0.len() > 0,
{
    if line_wanted(line, values) {
        let a = assigned(line)->0;
        assert(values.contains_key(a.name));
        let value = values[a.name];
        encodes_in_quotes(value);
        let note = comment_from(a.value, 0, None, false);
        let next = line_after(line, values)->0;
        comments_are_notes(a.value, 0, None, false);
        changed_lines_assign_the_value(line, values, a, next);
        comment_stays(value, note);
        let whole = quoted(value) + note;
        assert(whole[0] == '\'');
        assert(next =~= a.prefix + whole);
        value_ends_the_line(line);
        plain_pieces(line, line.len() - a.value.len());
        plain_pieces(a.value, a.value.len() - note.len());
        plain_quotes(value);
        plain_parts(quoted(value), note);
        plain_parts(a.prefix, whole);
        assert(line_after(next, values) == Some(a.prefix + quoted(value) + note));
        assert(a.prefix + quoted(value) + note =~= next);
    }
}

proof fn new_lines_stay(
    name: Seq<char>,
    names: Seq<Seq<char>>,
    values: Map<Seq<char>, Seq<char>>,
)
    requires
        plain_answers(names, values),
        values.contains_key(name),
    ensures
        new_line(name, values) is Some,
        stays(new_line(name, values)->0, values),
        forall|n: Seq<char>| #[trigger] assigns(new_line(name, values)->0, n) <==> n == name,
        new_line(name, values)->0.len() > 0,
{
    let value = values[name];
    let text = quoted(value);
    encodes_in_quotes(value);
    assert(text[0] == '\'');
    new_lines_assign(name, text);
    names_have_name_chars(name);
    let none = Seq::<char>::empty();
    comment_stays(value, none);
    assert(text + none =~= text);
    let line = name + "="@ + text;
    assert(line_after(line, values) == Some(name + "="@ + text + none));
    assert(name + "="@ + text + none =~= line);
    reveal_strlit("=");
    assert("="@ =~= seq!['=']);
    assert(one_line_text("="@));
    assert forall|i: int| 0 <= i < name.len() implies #[trigger] name[i] != '\n' && name[i] != '\r'
        by {
        assert(name_char(name[i]));
    }
    plain_parts(name, "="@);
    plain_quotes(value);
    plain_parts(name + "="@, text);
}

// Counting.

proof fn times_go_on(all: Seq<Seq<char>>, line: Seq<char>, name: Seq<char>)
    ensures
        times_assigned(all.push(line), name) == times_assigned(all, name) + if assigns(line, name) {
            1nat
        } else {
            0nat
        },
{
    assert(all.push(line).drop_last() =~= all);
}

proof fn times_alike(a: Seq<Seq<char>>, b: Seq<Seq<char>>, name: Seq<char>)
    requires
        a.len() == b.len(),
        forall|i: int| 0 <= i < a.len() ==> (assigns(#[trigger] a[i], name) <==> assigns(b[i], name)),
    ensures
        times_assigned(a, name) == times_assigned(b, name),
    decreases a.len(),
{
    if a.len() > 0 {
        let x = a.drop_last();
        let y = b.drop_last();
        assert forall|i: int| 0 <= i < x.len() implies (assigns(#[trigger] x[i], name) <==> assigns(
            y[i],
            name,
        )) by {
            assert(x[i] == a[i] && y[i] == b[i]);
        }
        times_alike(x, y, name);
        assert(assigns(a[a.len() - 1], name) <==> assigns(b[a.len() - 1], name));
    }
}

proof fn times_grow(all: Seq<Seq<char>>, n: int, name: Seq<char>)
    requires
        0 <= n <= all.len(),
    ensures
        times_assigned(all.take(n), name) <= times_assigned(all, name),
    decreases all.len() - n,
{
    if n == all.len() {
        assert(all.take(n) =~= all);
    } else {
        assert(all.take(n + 1).drop_last() =~= all.take(n));
        times_grow(all, n + 1, name);
    }
}

proof fn some_line_assigns(all: Seq<Seq<char>>, name: Seq<char>)
    requires
        times_assigned(all, name) > 0,
    ensures
        exists|i: int| 0 <= i < all.len() && assigns(#[trigger] all[i], name),
    decreases all.len(),
{
    if all.len() > 0 {
        if assigns(all.last(), name) {
            assert(assigns(all[all.len() - 1], name));
        } else {
            some_line_assigns(all.drop_last(), name);
            let i = choose|i: int|
                0 <= i < all.drop_last().len() && assigns(#[trigger] all.drop_last()[i], name);
            assert(assigns(all[i], name));
        }
    }
}

proof fn without_one(texts: Seq<Seq<char>>, text: Seq<char>)
    requires
        texts.no_duplicates(),
        texts.contains(text),
    ensures
        without(texts, text).len() == texts.len() - 1,
    decreases texts.len(),
{
    let rest = texts.drop_last();
    if texts.last() == text {
        if rest.contains(text) {
            let i = choose|i: int| 0 <= i < rest.len() && rest[i] == text;
            assert(texts[i] == texts[texts.len() - 1]);
        }
        without_holds(rest, text);
    } else {
        let i = choose|i: int| 0 <= i < texts.len() && texts[i] == text;
        assert(rest[i] == text);
        without_one(rest, text);
    }
}

/// The names that a pass has not met are those that no line assigns.
proof fn missing_are_unassigned(
    all: Seq<Seq<char>>,
    names: Seq<Seq<char>>,
    values: Map<Seq<char>, Seq<char>>,
)
    requires
        values_of(names, values),
        names.no_duplicates(),
        passed(all, names, values) is Some,
    ensures
        passed(all, names, values)->0.missing.no_duplicates(),
        forall|n: Seq<char>| #[trigger]
            passed(all, names, values)->0.missing.contains(n) <==> names.contains(n)
                && times_assigned(all, n) == 0,
    decreases all.len(),
{
    if all.len() > 0 {
        let rest = all.drop_last();
        missing_are_unassigned(rest, names, values);
        let p = passed(rest, names, values)->0;
        let now = passed(all, names, values)->0;
        if line_wanted(all.last(), values) {
            let name = assigned(all.last())->0.name;
            without_holds(p.missing, name);
            assert forall|n: Seq<char>| #[trigger] now.missing.contains(n) <==> names.contains(n)
                && times_assigned(all, n) == 0 by {
                if n != name {
                    assert(now.missing.contains(n) <==> p.missing.contains(n));
                }
            }
        } else {
            assert forall|n: Seq<char>| #[trigger] now.missing.contains(n) <==> names.contains(n)
                && times_assigned(all, n) == 0 by {
                if names.contains(n) {
                    assert(values.contains_key(n));
                    assert(!assigns(all.last(), n));
                }
                assert(now.missing.contains(n) <==> p.missing.contains(n));
            }
        }
    }
}

/// What the lines are once new ones were added.
proof fn added_lines(
    all: Seq<Seq<char>>,
    missing: Seq<Seq<char>>,
    names: Seq<Seq<char>>,
    values: Map<Seq<char>, Seq<char>>,
)
    requires
        plain_answers(names, values),
        missing.no_duplicates(),
        forall|i: int| 0 <= i < missing.len() ==> values.contains_key(#[trigger] missing[i]),
        forall|i: int| 0 <= i < all.len() ==> stays(#[trigger] all[i], values),
    ensures
        lines_added(all, missing, values) is Some,
        ({
            let now = lines_added(all, missing, values)->0;
            &&& now.len() == all.len() + missing.len()
            &&& forall|i: int| 0 <= i < now.len() ==> stays(#[trigger] now[i], values)
            &&& forall|n: Seq<char>| #[trigger]
                times_assigned(now, n) == times_assigned(all, n) + if missing.contains(n) {
                    1nat
                } else {
                    0nat
                }
            &&& missing.len() > 0 ==> now.last().len() > 0
            &&& missing.len() == 0 ==> now == all
        }),
    decreases missing.len(),
{
    if missing.len() > 0 {
        let rest = missing.drop_last();
        let last = missing.last();
        assert(missing[missing.len() - 1] == last);
        assert forall|i: int| 0 <= i < rest.len() implies values.contains_key(#[trigger] rest[i]) by {
            assert(rest[i] == missing[i]);
        }
        added_lines(all, rest, names, values);
        let before = lines_added(all, rest, values)->0;
        new_lines_stay(last, names, values);
        let line = new_line(last, values)->0;
        let now = before.push(line);
        assert forall|i: int| 0 <= i < now.len() implies stays(#[trigger] now[i], values) by {
            if i < before.len() {
                assert(now[i] == before[i]);
            }
        }
        assert forall|n: Seq<char>| #[trigger]
            times_assigned(now, n) == times_assigned(all, n) + if missing.contains(n) {
                1nat
            } else {
                0nat
            } by {
            times_go_on(before, line, n);
            assert(times_assigned(before, n) == times_assigned(all, n) + if rest.contains(n) {
                1nat
            } else {
                0nat
            });
            if n == last {
                if rest.contains(n) {
                    let i = choose|i: int| 0 <= i < rest.len() && rest[i] == n;
                    assert(missing[i] == missing[missing.len() - 1]);
                }
                assert(missing.contains(n));
            } else if missing.contains(n) {
                let i = choose|i: int| 0 <= i < missing.len() && missing[i] == n;
                assert(rest[i] == n);
            } else if rest.contains(n) {
                let i = choose|i: int| 0 <= i < rest.len() && rest[i] == n;
                assert(missing[i] == n);
            }
        }
    } else {
        assert forall|n: Seq<char>| !missing.contains(n) by {}
    }
}

proof fn none_repeated(all: Seq<Seq<char>>, names: Seq<Seq<char>>)
    ensures
        first_repeated(all, names) is None <==> forall|n: Seq<char>| #[trigger]
            names.contains(n) ==> times_assigned(all, n) <= 1,
    decreases names.len(),
{
    if names.len() > 0 {
        let rest = names.drop_last();
        none_repeated(all, rest);
        assert(names[names.len() - 1] == names.last());
        assert forall|n: Seq<char>| #[trigger] names.contains(n) <==> rest.contains(n) || n
            == names.last() by {
            if names.contains(n) {
                let i = choose|i: int| 0 <= i < names.len() && names[i] == n;
                if i < rest.len() {
                    assert(rest[i] == n);
                }
            }
            if rest.contains(n) {
                let i = choose|i: int| 0 <= i < rest.len() && rest[i] == n;
                assert(names[i] == n);
            }
        }
        if first_repeated(all, names) is None {
            assert forall|n: Seq<char>| #[trigger] names.contains(n) implies times_assigned(all, n)
                <= 1 by {
                if n != names.last() {
                    assert(rest.contains(n));
                }
            }
        } else if forall|n: Seq<char>| #[trigger]
            names.contains(n) ==> times_assigned(all, n) <= 1 {
            assert forall|n: Seq<char>| #[trigger] rest.contains(n) implies times_assigned(all, n)
                <= 1 by {
                assert(names.contains(n));
            }
            assert(names.contains(names.last()));
        }
    }
}

/// A second pass over lines that stay leaves them, and meets each name once.
proof fn second_pass(
    all: Seq<Seq<char>>,
    names: Seq<Seq<char>>,
    values: Map<Seq<char>, Seq<char>>,
    k: int,
)
    requires
        values_of(names, values),
        names.no_duplicates(),
        0 <= k <= all.len(),
        forall|i: int| 0 <= i < all.len() ==> stays(#[trigger] all[i], values),
        forall|n: Seq<char>| #[trigger] names.contains(n) ==> times_assigned(all, n) <= 1,
    ensures
        passed(all.take(k), names, values) is Some,
        ({
            let p = passed(all.take(k), names, values)->0;
            &&& p.lines == all.take(k)
            &&& p.updated == 0
            &&& p.unchanged + p.missing.len() == names.len()
        }),
    decreases k,
{
    if k == 0 {
        assert(all.take(0) =~= Seq::empty());
    } else {
        second_pass(all, names, values, k - 1);
        let before = all.take(k - 1);
        let now = all.take(k);
        assert(now.drop_last() =~= before);
        assert(now.last() == all[k - 1]);
        let line = all[k - 1];
        assert(stays(line, values));
        let p = passed(before, names, values)->0;
        assert(p.lines.push(line) =~= now);
        if line_wanted(line, values) {
            let name = assigned(line)->0.name;
            assert(values.contains_key(name));
            assert(names.contains(name));
            missing_are_unassigned(before, names, values);
            times_grow(all, k, name);
            times_go_on(before, line, name);
            assert(before.push(line) =~= now);
            assert(times_assigned(before, name) == 0);
            assert(p.missing.contains(name));
            without_one(p.missing, name);
        }
    }
}

// Files.

proof fn joined_holds(parts: Seq<Seq<char>>, separator: Seq<char>, c: char)
    requires
        forall|i: int| 0 <= i < parts.len() ==> !(#[trigger] parts[i]).contains(c),
        !separator.contains(c),
    ensures
        !joined(parts, separator).contains(c),
    decreases parts.len(),
{
    if parts.len() == 1 {
        assert(!parts[0].contains(c));
    } else if parts.len() > 1 {
        let rest = parts.drop_last();
        assert forall|i: int| 0 <= i < rest.len() implies !(#[trigger] rest[i]).contains(c) by {
            assert(rest[i] == parts[i]);
        }
        joined_holds(rest, separator, c);
        assert(!parts[parts.len() - 1].contains(c));
        let whole = joined(parts, separator);
        let front = joined(rest, separator);
        assert forall|i: int| 0 <= i < whole.len() implies #[trigger] whole[i] != c by {
            if i < front.len() {
                assert(whole[i] == front[i]);
                assert(front.contains(front[i]));
            } else if i < front.len() + separator.len() {
                assert(whole[i] == separator[i - front.len()]);
                assert(separator.contains(separator[i - front.len()]));
            } else {
                let j = i - front.len() - separator.len();
                assert(whole[i] == parts.last()[j]);
                assert(parts.last().contains(parts.last()[j]));
            }
        }
    }
}

proof fn joined_is_long(parts: Seq<Seq<char>>, separator: Seq<char>, i: int)
    requires
        0 <= i < parts.len(),
    ensures
        joined(parts, separator).len() >= parts[i].len(),
        parts.last().len() > 0 ==> joined(parts, separator).len() > 0 && joined(
            parts,
            separator,
        ).last() == parts.last().last(),
    decreases parts.len(),
{
    if parts.len() > 1 {
        let rest = parts.drop_last();
        if i < rest.len() {
            joined_is_long(rest, separator, i);
            assert(rest[i] == parts[i]);
        }
    }
}

proof fn no_windows_ends(text: Seq<char>)
    requires
        !text.contains('\r'),
    ensures
        !holds(text, "\r\n"@),
{
    reveal_strlit("\r\n");
    assert("\r\n"@ =~= seq!['\r', '\n']);
    if holds(text, "\r\n"@) {
        let i = choose|i: int| occurs_at(text, "\r\n"@, i);
        assert(text.subrange(i, i + 2)[0] == '\r');
        assert(text[i] == '\r');
    }
}

proof fn ends_a_line(text: Seq<char>)
    ensures
        finishes(text, "\n"@) <==> text.len() > 0 && text.last() == '\n',
{
    reveal_strlit("\n");
    assert("\n"@ =~= seq!['\n']);
    if text.len() > 0 && text.last() == '\n' {
        assert(text.subrange(text.len() - 1, text.len() as int) =~= seq!['\n']);
        assert(occurs_at(text, "\n"@, text.len() - 1));
    }
    if finishes(text, "\n"@) {
        assert(text.subrange(text.len() - 1, text.len() as int)[0] == '\n');
    }
}

/// The lines of a file after a first change.
proof fn first_change(
    content: Seq<char>,
    names: Seq<Seq<char>>,
    values: Map<Seq<char>, Seq<char>>,
)
    requires
        plain_answers(names, values),
        names.no_duplicates(),
        !content.contains('\r'),
        file_refused(content, names) is None,
        passed(lines(content), names, values) is Some,
    ensures
        ({
            let p = passed(lines(content), names, values)->0;
            &&& lines_added(p.lines, p.missing, values) is Some
            &&& forall|i: int|
                0 <= i < lines_added(p.lines, p.missing, values)->0.len() ==> stays(
                    #[trigger] lines_added(p.lines, p.missing, values)->0[i],
                    values,
                )
            &&& forall|n: Seq<char>| #[trigger]
                names.contains(n) ==> times_assigned(
                    lines_added(p.lines, p.missing, values)->0,
                    n,
                ) == 1
            &&& p.missing.len() == 0 && !finishes(content, "\n"@) && lines_added(
                p.lines,
                p.missing,
                values,
            )->0.len() > 0 ==> lines_added(p.lines, p.missing, values)->0.last().len() > 0
        }),
{
    let all = lines(content);
    lines_are_plain(content);
    let p = passed(all, names, values)->0;
    none_repeated(all, names);
    missing_are_unassigned(all, names, values);
    if all.len() > 0 {
        lines_stay_in_place(all, names, values, 0);
    } else {
        assert(p.lines =~= all);
    }
    assert forall|i: int| 0 <= i < all.len() implies stays(#[trigger] p.lines[i], values) && (forall|
        n: Seq<char>,
    | #[trigger]
        assigns(p.lines[i], n) <==> assigns(all[i], n)) && (all[i].len() > 0 ==> p.lines[i].len()
        > 0) by {
        lines_stay_in_place(all, names, values, i);
        assert(one_line_text(all[i]));
        assert(!is_open(all[i]));
        changed_lines_stay(all[i], names, values);
    }
    assert forall|i: int| 0 <= i < p.missing.len() implies values.contains_key(
        #[trigger] p.missing[i],
    ) by {
        assert(p.missing.contains(p.missing[i]));
    }
    added_lines(p.lines, p.missing, names, values);
    let now = lines_added(p.lines, p.missing, values)->0;
    assert forall|n: Seq<char>| #[trigger] names.contains(n) implies times_assigned(now, n) == 1 by {
        assert forall|i: int| 0 <= i < p.lines.len() implies (assigns(#[trigger] p.lines[i], n)
            <==> assigns(all[i], n)) by {
            assert(stays(p.lines[i], values));
        }
        times_alike(p.lines, all, n);
        assert(times_assigned(all, n) <= 1);
        assert(p.missing.contains(n) <==> times_assigned(all, n) == 0);
    }
    if p.missing.len() == 0 && !finishes(content, "\n"@) && now.len() > 0 {
        assert(now == p.lines);
        ends_a_line(content);
        if content.len() == 0 {
            assert(lines(content) =~= Seq::empty());
        }
        assert(all.last().len() > 0);
        assert(all[all.len() - 1] == all.last());
        assert(stays(p.lines[all.len() - 1], values));
    }
}

/// Lines that stay, each name assigned once, are changed to themselves.
proof fn second_change(
    now: Seq<Seq<char>>,
    names: Seq<Seq<char>>,
    values: Map<Seq<char>, Seq<char>>,
    ended: bool,
    out: Seq<char>,
)
    requires
        plain_answers(names, values),
        names.len() > 0,
        names.no_duplicates(),
        forall|i: int| 0 <= i < now.len() ==> stays(#[trigger] now[i], values),
        forall|n: Seq<char>| #[trigger] names.contains(n) ==> times_assigned(now, n) == 1,
        !ended && now.len() > 0 ==> now.last().len() > 0,
        out == if ended {
            joined(now, seq!['\n']).push('\n')
        } else {
            joined(now, seq!['\n'])
        },
    ensures
        joined(now, seq!['\n']).len() > 0,
        changes(out, names, values) == Some(
            ReconciledView { content: out, added: 0, updated: 0, unchanged: names.len() },
        ),
{
    let text = joined(now, seq!['\n']);
    let first = names[0];
    assert(names.contains(first));
    some_line_assigns(now, first);
    let w = choose|w: int| 0 <= w < now.len() && assigns(#[trigger] now[w], first);
    value_ends_the_line(now[w]);
    joined_is_long(now, seq!['\n'], w);
    assert forall|i: int| 0 <= i < now.len() implies one_line_text(#[trigger] now[i]) by {
        assert(stays(now[i], values));
    }
    joined_lines_read_back(now);
    assert(lines(out) == now);
    assert forall|i: int| 0 <= i < now.len() implies !(#[trigger] now[i]).contains('\r') by {
        assert(one_line_text(now[i]));
    }
    joined_holds(now, seq!['\n'], '\r');
    assert(!out.contains('\r')) by {
        if out.contains('\r') {
            let i = choose|i: int| 0 <= i < out.len() && out[i] == '\r';
            if i < text.len() {
                assert(text[i] == '\r');
            }
        }
    }
    no_windows_ends(out);
    none_repeated(now, names);
    assert forall|i: int| 0 <= i < now.len() implies !is_open(#[trigger] now[i]) by {
        assert(stays(now[i], values));
    }
    assert(file_refused(out, names) is None);
    second_pass(now, names, values, now.len() as int);
    assert(now.take(now.len() as int) =~= now);
    let q = passed(now, names, values)->0;
    missing_are_unassigned(now, names, values);
    if q.missing.len() > 0 {
        assert(q.missing.contains(q.missing[0]));
        assert(names.contains(q.missing[0]));
        assert(false);
    }
    assert(q.missing =~= Seq::empty());
    ends_a_line(out);
    if !ended {
        assert(text.last() == now.last().last());
        assert(one_line_text(now[now.len() - 1]));
        assert(now.last().contains(now.last()[now.last().len() - 1]));
    }
    reveal_strlit("\n");
    assert("\n"@ =~= seq!['\n']);
    assert(text + seq!['\n'] =~= text.push('\n'));
}

/// Writing the same answers again changes nothing. The file has no carriage returns, and the answers
/// stand on one line and hold no single quote.
pub proof fn answers_are_written_once(
    content: Seq<char>,
    names: Seq<Seq<char>>,
    values: Map<Seq<char>, Seq<char>>,
    done: ReconciledView,
)
    requires
        names.len() > 0,
        names.no_duplicates(),
        forall|i: int| 0 <= i < names.len() ==> variable(#[trigger] names[i]),
        values_of(names, values),
        forall|name: Seq<char>| #[trigger]
            values.contains_key(name) ==> !values[name].contains('\'') && !values[name].contains('\n')
                && !values[name].contains('\r'),
        !content.contains('\r'),
        changes(content, names, values) == Some(done),
    ensures
        changes(done.content, names, values) == Some(
            ReconciledView { content: done.content, added: 0, updated: 0, unchanged: names.len() },
        ),
{
    assert(plain_answers(names, values)) by {
        assert forall|name: Seq<char>| #[trigger] values.contains_key(name) implies variable(name)
            by {
            assert(names.contains(name));
            let i = choose|i: int| 0 <= i < names.len() && names[i] == name;
            assert(variable(names[i]));
        }
    }
    first_change(content, names, values);
    let p = passed(lines(content), names, values)->0;
    let now = lines_added(p.lines, p.missing, values)->0;
    let ended = finishes(content, "\n"@) || p.missing.len() > 0;
    let text = joined(now, seq!['\n']);
    no_windows_ends(content);
    reveal_strlit("\n");
    assert("\n"@ =~= seq!['\n']);
    assert(text + seq!['\n'] =~= text.push('\n'));
    let out = if ended {
        text.push('\n')
    } else {
        text
    };
    second_change(now, names, values, ended, out);
    assert(done.content == out);
}

} // verus!
