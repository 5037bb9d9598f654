//! Text: character classes, searching, splitting, trimming and decimal numbers.
//!
//! A string is viewed as the sequence of its characters. Specification functions speak of such
//! sequences, and the executable functions work on slices of characters.
use vstd::prelude::*;
use vstd::slice::slice_subrange;
use vstd::utf8::encode_utf8;

verus! {

/// `str` equality (`<str as PartialEq>::eq`): two strings are equal when they hold the same
/// characters.
pub assume_specification[ <str as PartialEq>::eq ](left: &str, right: &str) -> (res: bool)
    ensures
        res == (left@ == right@),
;

/// `String::push` appends one character to the end of the string.
#[verifier::external_body]
pub(crate) fn push_char(text: &mut String, c: char)
    ensures
        final(text)@ == old(text)@.push(c),
{
    text.push(c);
}

/// `String::push_str` appends a string to the end of the string.
#[verifier::external_body]
pub(crate) fn push_text(text: &mut String, more: &str)
    ensures
        final(text)@ == old(text)@ + more@,
{
    text.push_str(more);
}

/// Whether two strings hold the same characters.
pub fn same(a: &str, b: &str) -> (r: bool)
    ensures
        r == (a@ == b@),
{
    *a == *b
}

/// The view of an optional string.
pub open spec fn opt(text: Option<String>) -> Option<Seq<char>> {
    match text {
        Some(t) => Some(t@),
        None => None,
    }
}

/// The view of an optional string slice.
pub open spec fn opt_str(text: Option<&str>) -> Option<Seq<char>> {
    match text {
        Some(t) => Some(t@),
        None => None,
    }
}

/// The views of a sequence of strings.
pub open spec fn views(texts: Seq<String>) -> Seq<Seq<char>> {
    Seq::new(texts.len(), |i: int| texts[i]@)
}

/// Whether two optional strings are both absent or hold the same characters.
pub fn same_opt(a: Option<&str>, b: Option<&str>) -> (r: bool)
    ensures
        r == (opt_str(a) == opt_str(b)),
{
    match (a, b) {
        (Some(x), Some(y)) => same(x, y),
        (None, None) => true,
        _ => false,
    }
}

/// An optional string as an optional slice.
pub fn opt_slice(text: &Option<String>) -> (r: Option<&str>)
    ensures
        opt_str(r) == opt(*text),
{
    match text {
        Some(t) => Some(t.as_str()),
        None => None,
    }
}

/// A copy of an optional string.
pub fn opt_copy(text: &Option<String>) -> (r: Option<String>)
    ensures
        opt(r) == opt(*text),
{
    match text {
        Some(t) => Some(t.clone()),
        None => None,
    }
}

/// An owned copy of an optional slice.
pub fn opt_owned(text: Option<&str>) -> (r: Option<String>)
    ensures
        opt(r) == opt_str(text),
{
    match text {
        Some(t) => Some(t.to_owned()),
        None => None,
    }
}

/// The first of two optional texts that is there.
pub open spec fn first_text(a: Option<Seq<char>>, b: Option<Seq<char>>) -> Option<Seq<char>> {
    match a {
        Some(_) => a,
        None => b,
    }
}

/// The first of two optional texts that is there.
pub fn or_text(a: Option<&str>, b: &Option<String>) -> (r: Option<String>)
    ensures
        opt(r) == first_text(opt_str(a), opt(*b)),
{
    match a {
        Some(t) => Some(t.to_owned()),
        None => opt_copy(b),
    }
}

/// A copy of a list of strings.
pub fn copy_all(texts: &Vec<String>) -> (r: Vec<String>)
    ensures
        views(r@) == views(texts@),
{
    let mut out: Vec<String> = Vec::new();
    let mut i: usize = 0;
    while i < texts.len()
        invariant
            i <= texts.len(),
            out.len() == i,
            forall|j: int| 0 <= j < i ==> (#[trigger] out@[j])@ == texts@[j]@,
        decreases texts.len() - i,
    {
        out.push(texts[i].clone());
        i += 1;
    }
    assert(views(out@) =~= views(texts@));
    out
}

/// Whether a text stands in a list.
pub fn includes(texts: &Vec<String>, text: &str) -> (r: bool)
    ensures
        r == views(texts@).contains(text@),
{
    let mut i: usize = 0;
    while i < texts.len()
        invariant
            i <= texts.len(),
            forall|j: int| 0 <= j < i ==> (#[trigger] texts@[j])@ != text@,
        decreases texts.len() - i,
    {
        if same(texts[i].as_str(), text) {
            assert(views(texts@)[i as int] == text@);
            return true;
        }
        i += 1;
    }
    false
}

/// The list without a text.
pub open spec fn without(texts: Seq<Seq<char>>, text: Seq<char>) -> Seq<Seq<char>>
    decreases texts.len(),
{
    if texts.len() == 0 {
        texts
    } else {
        let before = without(texts.drop_last(), text);
        if texts.last() == text {
            before
        } else {
            before.push(texts.last())
        }
    }
}

/// What a list without a text holds.
pub proof fn without_holds(texts: Seq<Seq<char>>, text: Seq<char>)
    ensures
        !without(texts, text).contains(text),
        forall|x: Seq<char>|
            x != text ==> (without(texts, text).contains(x) <==> #[trigger] texts.contains(x)),
        texts.no_duplicates() ==> without(texts, text).no_duplicates(),
        !texts.contains(text) ==> without(texts, text) == texts,
    decreases texts.len(),
{
    if texts.len() > 0 {
        let rest = texts.drop_last();
        let less = without(rest, text);
        without_holds(rest, text);
        let now = without(texts, text);
        assert forall|x: Seq<char>| x != text implies (now.contains(x)
            <==> #[trigger] texts.contains(x)) by {
            if texts.contains(x) {
                let i = choose|i: int| 0 <= i < texts.len() && texts[i] == x;
                if i < rest.len() {
                    assert(rest[i] == x);
                    assert(rest.contains(x));
                    let j = choose|j: int| 0 <= j < less.len() && less[j] == x;
                    assert(now[j] == x);
                } else {
                    assert(now.last() == x);
                }
            }
            if now.contains(x) {
                let i = choose|i: int| 0 <= i < now.len() && now[i] == x;
                if i < less.len() {
                    assert(less[i] == x);
                    assert(rest.contains(x));
                    let j = choose|j: int| 0 <= j < rest.len() && rest[j] == x;
                    assert(texts[j] == x);
                } else {
                    assert(texts.last() == x);
                }
            }
        }
        if now.contains(text) {
            let i = choose|i: int| 0 <= i < now.len() && now[i] == text;
            if i < less.len() {
                assert(less.contains(text));
            }
        }
        if texts.no_duplicates() {
            assert forall|i: int, j: int| 0 <= i < rest.len() && 0 <= j < rest.len() && i
                != j implies rest[i] != rest[j] by {
                assert(texts[i] != texts[j]);
            }
            if texts.last() != text {
                assert(!less.contains(texts.last())) by {
                    if less.contains(texts.last()) {
                        assert(rest.contains(texts.last()));
                        let j = choose|j: int| 0 <= j < rest.len() && rest[j] == texts.last();
                        assert(texts[j] == texts[texts.len() - 1]);
                    }
                }
                assert forall|i: int, j: int| 0 <= i < now.len() && 0 <= j < now.len() && i
                    != j implies now[i] != now[j] by {
                    if i < less.len() {
                        assert(less.contains(less[i]));
                    }
                    if j < less.len() {
                        assert(less.contains(less[j]));
                    }
                }
            }
        }
        if !texts.contains(text) {
            assert(texts[texts.len() - 1] != text);
            assert(!rest.contains(text)) by {
                if rest.contains(text) {
                    let j = choose|j: int| 0 <= j < rest.len() && rest[j] == text;
                    assert(texts[j] == text);
                }
            }
            assert(now =~= texts);
        }
    }
}

/// The list without a text.
pub fn retain_others(texts: &Vec<String>, text: &str) -> (r: Vec<String>)
    ensures
        views(r@) == without(views(texts@), text@),
{
    let mut out: Vec<String> = Vec::new();
    let mut i: usize = 0;
    assert(views(texts@).take(0) =~= Seq::empty());
    assert(views(out@) =~= Seq::empty());
    while i < texts.len()
        invariant
            i <= texts.len(),
            views(out@) == without(views(texts@).take(i as int), text@),
        decreases texts.len() - i,
    {
        let ghost now = views(texts@).take(i + 1);
        proof {
            assert(now.drop_last() =~= views(texts@).take(i as int));
            assert(now.last() == texts@[i as int]@);
        }
        if !same(texts[i].as_str(), text) {
            push_string(&mut out, texts[i].as_str());
        }
        i += 1;
    }
    assert(views(texts@).take(i as int) =~= views(texts@));
    out
}

/// Adds a text to a list.
pub fn push_string(texts: &mut Vec<String>, text: &str)
    ensures
        views(final(texts)@) == views(old(texts)@).push(text@),
{
    texts.push(text.to_owned());
    assert(views(texts@) =~= views(old(texts)@).push(text@));
}

/// The number of bytes of the UTF-8 encoding.
pub open spec fn byte_len(text: Seq<char>) -> nat {
    encode_utf8(text).len()
}

/// The length of a string in bytes.
pub fn size(text: &str) -> (r: usize)
    ensures
        r == byte_len(text@),
{
    text.as_bytes().len()
}

/// The characters of a string.
pub fn chars_of(text: &str) -> (r: Vec<char>)
    ensures
        r@ == text@,
{
    let mut out: Vec<char> = Vec::new();
    for c in it: text.chars()
        invariant
            out@ == text@.take(it.index() as int),
            it.seq() == text@,
    {
        out.push(c);
    }
    out
}

/// The string of the given characters.
pub fn string_of(chars: &[char]) -> (r: String)
    ensures
        r@ == chars@,
{
    let mut out = String::new();
    let mut i: usize = 0;
    while i < chars.len()
        invariant
            i <= chars.len(),
            out@ == chars@.take(i as int),
        decreases chars.len() - i,
    {
        push_char(&mut out, chars[i]);
        i += 1;
        assert(chars@.take(i as int) =~= chars@.take(i - 1).push(chars@[i - 1]));
    }
    assert(chars@.take(i as int) =~= chars@);
    out
}

/// Two strings, one after the other.
pub fn concat(a: &str, b: &str) -> (r: String)
    ensures
        r@ == a@ + b@,
{
    let mut out = a.to_owned();
    push_text(&mut out, b);
    out
}

/// Three strings, one after the other.
pub fn concat3(a: &str, b: &str, c: &str) -> (r: String)
    ensures
        r@ == a@ + b@ + c@,
{
    let mut out = a.to_owned();
    push_text(&mut out, b);
    push_text(&mut out, c);
    out
}

// Character classes.

/// `0` to `9`.
pub open spec fn digit(c: char) -> bool {
    48 <= c as u32 <= 57
}

/// `a` to `z`.
pub open spec fn lower(c: char) -> bool {
    97 <= c as u32 <= 122
}

/// `A` to `Z`.
pub open spec fn upper(c: char) -> bool {
    65 <= c as u32 <= 90
}

/// An ASCII letter or digit.
pub open spec fn alnum(c: char) -> bool {
    digit(c) || lower(c) || upper(c)
}

/// A digit or one of `a` to `f`.
pub open spec fn lower_hex(c: char) -> bool {
    digit(c) || 97 <= c as u32 <= 102
}

/// A hexadecimal digit in either case.
pub open spec fn hex_digit(c: char) -> bool {
    lower_hex(c) || 65 <= c as u32 <= 70
}

/// A visible ASCII character.
pub open spec fn graphic(c: char) -> bool {
    33 <= c as u32 <= 126
}

/// A control character (general category Cc).
pub open spec fn control(c: char) -> bool {
    c as u32 <= 31 || 127 <= c as u32 <= 159
}

/// A character with the Unicode property `White_Space`.
pub open spec fn space(c: char) -> bool {
    let u = c as u32;
    ||| 9 <= u <= 13
    ||| u == 32
    ||| u == 0x85
    ||| u == 0xa0
    ||| u == 0x1680
    ||| 0x2000 <= u <= 0x200a
    ||| u == 0x2028
    ||| u == 0x2029
    ||| u == 0x202f
    ||| u == 0x205f
    ||| u == 0x3000
}

/// The classes that a whole text can be held to.
#[derive(Clone, Copy, PartialEq, Eq, Structural)]
pub enum Class {
    Digit,
    Lower,
    LowerHex,
    Hex,
    Alnum,
    Graphic,
}

/// Membership of a class.
pub open spec fn in_class(c: char, class: Class) -> bool {
    match class {
        Class::Digit => digit(c),
        Class::Lower => lower(c),
        Class::LowerHex => lower_hex(c),
        Class::Hex => hex_digit(c),
        Class::Alnum => alnum(c),
        Class::Graphic => graphic(c),
    }
}

pub fn is_digit(c: char) -> (r: bool)
    ensures
        r == digit(c),
{
    let u = c as u32;
    48 <= u && u <= 57
}

pub fn is_space(c: char) -> (r: bool)
    ensures
        r == space(c),
{
    let u = c as u32;
    (9 <= u && u <= 13) || u == 32 || u == 0x85 || u == 0xa0 || u == 0x1680 || (0x2000 <= u && u
        <= 0x200a) || u == 0x2028 || u == 0x2029 || u == 0x202f || u == 0x205f || u == 0x3000
}

pub fn is_control(c: char) -> (r: bool)
    ensures
        r == control(c),
{
    let u = c as u32;
    u <= 31 || (127 <= u && u <= 159)
}

pub fn is_in_class(c: char, class: Class) -> (r: bool)
    ensures
        r == in_class(c, class),
{
    let u = c as u32;
    let number = 48 <= u && u <= 57;
    let small = 97 <= u && u <= 122;
    let large = 65 <= u && u <= 90;
    match class {
        Class::Digit => number,
        Class::Lower => small,
        Class::LowerHex => number || (small && u <= 102),
        Class::Hex => number || (small && u <= 102) || (large && u <= 70),
        Class::Alnum => number || small || large,
        Class::Graphic => 33 <= u && u <= 126,
    }
}

/// Every character is in the class or is one of `extra`.
pub open spec fn all_in(text: Seq<char>, class: Class, extra: Seq<char>) -> bool {
    forall|i: int|
        0 <= i < text.len() ==> in_class(#[trigger] text[i], class) || extra.contains(text[i])
}

/// Whether a character occurs in a text.
pub fn has_char(text: &[char], c: char) -> (r: bool)
    ensures
        r == text@.contains(c),
{
    let mut i: usize = 0;
    while i < text.len()
        invariant
            i <= text.len(),
            forall|j: int| 0 <= j < i ==> text@[j] != c,
        decreases text.len() - i,
    {
        if text[i] == c {
            assert(text@[i as int] == c);
            return true;
        }
        i += 1;
    }
    false
}

/// Whether a character occurs in a string.
pub fn contains_char(text: &str, c: char) -> (r: bool)
    ensures
        r == text@.contains(c),
{
    let chars = chars_of(text);
    has_char(chars.as_slice(), c)
}

/// Whether every character of a slice is in the class or is one of `extra`.
pub fn all_chars_in(chars: &[char], class: Class, extra: &str) -> (r: bool)
    ensures
        r == all_in(chars@, class, extra@),
{
    let more = chars_of(extra);
    let mut i: usize = 0;
    while i < chars.len()
        invariant
            i <= chars.len(),
            more@ == extra@,
            forall|j: int|
                0 <= j < i ==> in_class(#[trigger] chars@[j], class) || extra@.contains(chars@[j]),
        decreases chars.len() - i,
    {
        if !is_in_class(chars[i], class) && !has_char(more.as_slice(), chars[i]) {
            assert(!in_class(chars@[i as int], class));
            return false;
        }
        i += 1;
    }
    true
}

/// Whether every character of a string is in the class or is one of `extra`.
pub fn all_text_in(text: &str, class: Class, extra: &str) -> (r: bool)
    ensures
        r == all_in(text@, class, extra@),
{
    let chars = chars_of(text);
    all_chars_in(chars.as_slice(), class, extra)
}

/// Some character is a control character.
pub open spec fn some_control(text: Seq<char>) -> bool {
    exists|i: int| 0 <= i < text.len() && control(#[trigger] text[i])
}

/// Whether a string holds a control character.
pub fn has_control(text: &str) -> (r: bool)
    ensures
        r == some_control(text@),
{
    let chars = chars_of(text);
    let mut i: usize = 0;
    while i < chars.len()
        invariant
            i <= chars.len(),
            chars@ == text@,
            forall|j: int| 0 <= j < i ==> !control(#[trigger] text@[j]),
        decreases chars.len() - i,
    {
        if is_control(chars[i]) {
            assert(control(text@[i as int]));
            return true;
        }
        i += 1;
    }
    false
}

// Trimming.

/// The text without the white space before it.
pub open spec fn trimmed_start(text: Seq<char>) -> Seq<char>
    decreases text.len(),
{
    if text.len() > 0 && space(text[0]) {
        trimmed_start(text.subrange(1, text.len() as int))
    } else {
        text
    }
}

/// The text without the white space after it.
pub open spec fn trimmed_end(text: Seq<char>) -> Seq<char>
    decreases text.len(),
{
    if text.len() > 0 && space(text[text.len() - 1]) {
        trimmed_end(text.subrange(0, text.len() - 1))
    } else {
        text
    }
}

/// The text without the white space around it.
pub open spec fn trimmed(text: Seq<char>) -> Seq<char> {
    trimmed_end(trimmed_start(text))
}

/// The slice without the white space before it.
pub fn trim_start(text: &[char]) -> (r: &[char])
    ensures
        r@ == trimmed_start(text@),
{
    let mut i: usize = 0;
    assert(text@.subrange(0, text.len() as int) =~= text@);
    while i < text.len() && is_space(text[i])
        invariant
            i <= text.len(),
            trimmed_start(text@) == trimmed_start(text@.subrange(i as int, text.len() as int)),
        decreases text.len() - i,
    {
        proof {
            let rest = text@.subrange(i as int, text.len() as int);
            assert(rest.subrange(1, rest.len() as int) =~= text@.subrange(
                i + 1,
                text.len() as int,
            ));
        }
        i += 1;
    }
    slice_subrange(text, i, text.len())
}

/// The slice without the white space after it.
pub fn trim_end(text: &[char]) -> (r: &[char])
    ensures
        r@ == trimmed_end(text@),
{
    let mut i: usize = text.len();
    assert(text@.subrange(0, text.len() as int) =~= text@);
    while i > 0 && is_space(text[i - 1])
        invariant
            i <= text.len(),
            trimmed_end(text@) == trimmed_end(text@.subrange(0, i as int)),
        decreases i,
    {
        proof {
            let rest = text@.subrange(0, i as int);
            assert(rest.subrange(0, rest.len() - 1) =~= text@.subrange(0, i - 1));
        }
        i -= 1;
    }
    slice_subrange(text, 0, i)
}

/// The slice without the white space around it.
pub fn trim(text: &[char]) -> (r: &[char])
    ensures
        r@ == trimmed(text@),
{
    trim_end(trim_start(text))
}

/// Nothing but white space.
pub open spec fn blank(text: Seq<char>) -> bool {
    trimmed(text).len() == 0
}

/// Whether a string holds nothing but white space.
pub fn is_blank(text: &str) -> (r: bool)
    ensures
        r == blank(text@),
{
    let chars = chars_of(text);
    trim(chars.as_slice()).len() == 0
}

/// A text is blank when every character of it is white space.
pub proof fn blank_is_all_space(text: Seq<char>)
    ensures
        blank(text) <==> forall|i: int| 0 <= i < text.len() ==> space(#[trigger] text[i]),
{
    trimmed_start_cases(text);
    let t = trimmed_start(text);
    trimmed_end_cases(t);
    if t.len() > 0 {
        assert(trimmed_end(t).len() > 0);
        let k = text.len() - t.len();
        assert(text[k] == t[0]);
    }
}

pub(crate) proof fn trimmed_start_cases(text: Seq<char>)
    ensures
        trimmed_start(text).len() <= text.len(),
        trimmed_start(text) == text.subrange(
            text.len() - trimmed_start(text).len(),
            text.len() as int,
        ),
        trimmed_start(text).len() > 0 ==> !space(trimmed_start(text)[0]),
        forall|i: int|
            0 <= i < text.len() - trimmed_start(text).len() ==> space(#[trigger] text[i]),
    decreases text.len(),
{
    if text.len() > 0 && space(text[0]) {
        let rest = text.subrange(1, text.len() as int);
        trimmed_start_cases(rest);
        assert forall|i: int|
            0 <= i < text.len() - trimmed_start(text).len() implies space(#[trigger] text[i]) by {
            if i > 0 {
                assert(rest[i - 1] == text[i]);
            }
        }
        assert(trimmed_start(text) =~= text.subrange(
            text.len() - trimmed_start(text).len(),
            text.len() as int,
        ));
    } else {
        assert(text.subrange(0, text.len() as int) =~= text);
    }
}

pub(crate) proof fn trimmed_end_cases(text: Seq<char>)
    ensures
        trimmed_end(text).len() <= text.len(),
        trimmed_end(text) == text.subrange(0, trimmed_end(text).len() as int),
        text.len() > 0 && !space(text[0]) ==> trimmed_end(text).len() > 0,
    decreases text.len(),
{
    if text.len() > 0 && space(text[text.len() - 1]) {
        trimmed_end_cases(text.subrange(0, text.len() - 1));
        assert(trimmed_end(text) =~= text.subrange(0, trimmed_end(text).len() as int));
    } else {
        assert(text.subrange(0, text.len() as int) =~= text);
    }
}

// Searching.

/// `part` stands in `text` at position `i`.
pub open spec fn occurs_at(text: Seq<char>, part: Seq<char>, i: int) -> bool {
    &&& 0 <= i
    &&& i + part.len() <= text.len()
    &&& text.subrange(i, i + part.len()) == part
}

/// `part` stands somewhere in `text`.
pub open spec fn holds(text: Seq<char>, part: Seq<char>) -> bool {
    exists|i: int| occurs_at(text, part, i)
}

/// The first position from `from` on at which `part` stands in `text`.
pub open spec fn found_from(text: Seq<char>, part: Seq<char>, from: int) -> Option<int>
    decreases text.len() + 1 - from,
{
    if from + part.len() > text.len() {
        None
    } else if occurs_at(text, part, from) {
        Some(from)
    } else {
        found_from(text, part, from + 1)
    }
}

/// `text` begins with `part`.
pub open spec fn begins(text: Seq<char>, part: Seq<char>) -> bool {
    occurs_at(text, part, 0)
}

/// `text` ends with `part`.
pub open spec fn finishes(text: Seq<char>, part: Seq<char>) -> bool {
    occurs_at(text, part, text.len() - part.len())
}

/// Whether `part` stands in `text` at position `i`.
pub fn stands_at(text: &[char], part: &[char], i: usize) -> (r: bool)
    ensures
        r == occurs_at(text@, part@, i as int),
{
    if i > text.len() || part.len() > text.len() - i {
        return false;
    }
    let mut k: usize = 0;
    while k < part.len()
        invariant
            k <= part.len(),
            i + part.len() <= text.len(),
            forall|j: int| 0 <= j < k ==> text@[i + j] == part@[j],
        decreases part.len() - k,
    {
        if text[i + k] != part[k] {
            assert(text@.subrange(i as int, i + part.len())[k as int] != part@[k as int]);
            return false;
        }
        k += 1;
    }
    assert(text@.subrange(i as int, i + part.len()) =~= part@);
    true
}

/// The first position from `from` on at which `part` stands in `text`.
pub fn find_from(text: &[char], part: &[char], from: usize) -> (r: Option<usize>)
    ensures
        match r {
            Some(i) => found_from(text@, part@, from as int) == Some(i as int) && from <= i && i
                + part.len() <= text.len(),
            None => found_from(text@, part@, from as int) is None,
        },
{
    if part.len() > text.len() {
        return None;
    }
    let last = text.len() - part.len();
    let mut i: usize = from;
    while i <= last
        invariant
            last == text.len() - part.len(),
            from <= i,
            i <= last + 1 || i == from,
            found_from(text@, part@, from as int) == found_from(text@, part@, i as int),
        decreases last + 1 - i,
    {
        if stands_at(text, part, i) {
            return Some(i);
        }
        if i == last {
            assert(found_from(text@, part@, i + 1) is None);
            return None;
        }
        i += 1;
    }
    None
}

/// `found_from` gives the least position, and gives none only when there is none.
pub proof fn found_from_is_first(text: Seq<char>, part: Seq<char>, from: int)
    requires
        0 <= from,
    ensures
        match found_from(text, part, from) {
            Some(i) => from <= i && occurs_at(text, part, i) && forall|j: int|
                from <= j < i ==> !occurs_at(text, part, j),
            None => forall|j: int| from <= j ==> !occurs_at(text, part, j),
        },
    decreases text.len() + 1 - from,
{
    if from + part.len() > text.len() {
    } else if occurs_at(text, part, from) {
    } else {
        found_from_is_first(text, part, from + 1);
    }
}

/// Whether `part` stands somewhere in `text`.
pub fn contains_chars(text: &[char], part: &[char]) -> (r: bool)
    ensures
        r == holds(text@, part@),
{
    proof {
        found_from_is_first(text@, part@, 0);
    }
    match find_from(text, part, 0) {
        Some(i) => {
            assert(occurs_at(text@, part@, i as int));
            true
        },
        None => {
            assert forall|j: int| !occurs_at(text@, part@, j) by {
                if 0 <= j {
                }
            }
            false
        },
    }
}

/// Whether `part` stands somewhere in `text`.
pub fn contains(text: &str, part: &str) -> (r: bool)
    ensures
        r == holds(text@, part@),
{
    let a = chars_of(text);
    let b = chars_of(part);
    contains_chars(a.as_slice(), b.as_slice())
}

/// Whether `text` begins with `part`.
pub fn starts_with(text: &str, part: &str) -> (r: bool)
    ensures
        r == begins(text@, part@),
{
    let a = chars_of(text);
    let b = chars_of(part);
    stands_at(a.as_slice(), b.as_slice(), 0)
}

/// Whether `text` ends with `part`.
pub fn ends_with(text: &str, part: &str) -> (r: bool)
    ensures
        r == finishes(text@, part@),
{
    let a = chars_of(text);
    let b = chars_of(part);
    if b.len() > a.len() {
        return false;
    }
    stands_at(a.as_slice(), b.as_slice(), a.len() - b.len())
}

/// What follows `part` at the beginning of `text`.
pub open spec fn after_prefix(text: Seq<char>, part: Seq<char>) -> Option<Seq<char>> {
    if begins(text, part) {
        Some(text.subrange(part.len() as int, text.len() as int))
    } else {
        None
    }
}

/// What follows `part` at the beginning of `text`.
pub fn strip_prefix(text: &str, part: &str) -> (r: Option<String>)
    ensures
        opt(r) == after_prefix(text@, part@),
{
    let a = chars_of(text);
    let b = chars_of(part);
    if stands_at(a.as_slice(), b.as_slice(), 0) {
        Some(string_of(slice_subrange(a.as_slice(), b.len(), a.len())))
    } else {
        None
    }
}

/// The text in lower case, ASCII letters only.
pub open spec fn lowered(text: Seq<char>) -> Seq<char> {
    Seq::new(text.len(), |i: int| lowered_char(text[i]))
}

/// An ASCII capital letter made small; any other character as it is.
pub open spec fn lowered_char(c: char) -> char {
    if upper(c) {
        (c as u32 + 32) as char
    } else {
        c
    }
}

/// The string in lower case, ASCII letters only.
pub fn to_lower(text: &str) -> (r: String)
    ensures
        r@ == lowered(text@),
{
    let chars = chars_of(text);
    let mut out = String::new();
    let mut i: usize = 0;
    while i < chars.len()
        invariant
            i <= chars.len(),
            chars@ == text@,
            out@ == lowered(text@).take(i as int),
        decreases chars.len() - i,
    {
        let c = chars[i];
        let u = c as u32;
        let small: char = if 65 <= u && u <= 90 {
            ((u + 32) as u8) as char
        } else {
            c
        };
        push_char(&mut out, small);
        i += 1;
        assert(lowered(text@).take(i as int) =~= lowered(text@).take(i - 1).push(
            lowered_char(text@[i - 1]),
        ));
    }
    assert(lowered(text@).take(i as int) =~= lowered(text@));
    out
}

// Splitting and joining.

/// The pieces between the occurrences of a separator; one more than the separators.
pub open spec fn split(text: Seq<char>, separator: char) -> Seq<Seq<char>>
    decreases text.len(),
{
    if text.len() == 0 {
        seq![text]
    } else {
        let before = split(text.drop_last(), separator);
        if text.last() == separator {
            before.push(Seq::empty())
        } else {
            before.drop_last().push(before.last().push(text.last()))
        }
    }
}

/// The views of a sequence of character vectors.
pub open spec fn deep(parts: Seq<Vec<char>>) -> Seq<Seq<char>> {
    Seq::new(parts.len(), |i: int| parts[i]@)
}

/// The pieces between the occurrences of a separator.
pub fn split_chars(text: &[char], separator: char) -> (r: Vec<Vec<char>>)
    ensures
        deep(r@) == split(text@, separator),
        r.len() > 0,
{
    let mut out: Vec<Vec<char>> = Vec::new();
    let mut piece: Vec<char> = Vec::new();
    let mut i: usize = 0;
    assert(text@.take(0) =~= Seq::empty());
    assert(deep(out@).push(piece@) =~= seq![text@.take(0)]);
    while i < text.len()
        invariant
            i <= text.len(),
            deep(out@).push(piece@) == split(text@.take(i as int), separator),
        decreases text.len() - i,
    {
        let c = text[i];
        let ghost before = deep(out@).push(piece@);
        proof {
            let next = text@.take(i + 1);
            assert(next.drop_last() =~= text@.take(i as int));
            assert(next.last() == c);
            assert(before.drop_last() =~= deep(out@));
        }
        if c == separator {
            let ghost done = piece@;
            let ghost held = out@;
            out.push(piece);
            piece = Vec::new();
            proof {
                assert(deep(out@) =~= before);
                assert(deep(out@).push(piece@) =~= before.push(Seq::empty()));
            }
        } else {
            piece.push(c);
        }
        i += 1;
    }
    assert(text@.take(i as int) =~= text@);
    let ghost whole = deep(out@).push(piece@);
    out.push(piece);
    assert(deep(out@) =~= whole);
    out
}

/// The pieces joined by a separator.
pub open spec fn joined(parts: Seq<Seq<char>>, separator: Seq<char>) -> Seq<char>
    decreases parts.len(),
{
    if parts.len() == 0 {
        Seq::empty()
    } else if parts.len() == 1 {
        parts[0]
    } else {
        joined(parts.drop_last(), separator) + separator + parts.last()
    }
}

/// The strings joined by a separator.
pub fn join(parts: &Vec<String>, separator: &str) -> (r: String)
    ensures
        r@ == joined(views(parts@), separator@),
{
    let mut out = String::new();
    let mut i: usize = 0;
    assert(views(parts@).take(0) =~= Seq::empty());
    while i < parts.len()
        invariant
            i <= parts.len(),
            out@ == joined(views(parts@).take(i as int), separator@),
        decreases parts.len() - i,
    {
        let ghost all = views(parts@);
        if i > 0 {
            push_text(&mut out, separator);
        }
        push_text(&mut out, parts[i].as_str());
        i += 1;
        proof {
            let now = all.take(i as int);
            assert(now.drop_last() =~= all.take(i - 1));
            assert(now.last() == parts@[i - 1]@);
            if i == 1 {
                assert(Seq::<char>::empty() + parts@[0]@ =~= parts@[0]@);
            }
        }
    }
    assert(views(parts@).take(i as int) =~= views(parts@));
    out
}

/// A line as it is read: without a carriage return at its end.
pub open spec fn line_text(line: Seq<char>) -> Seq<char> {
    if line.len() > 0 && line.last() == '\r' {
        line.drop_last()
    } else {
        line
    }
}

/// The lines of a text. A line ends at a line feed, which may follow a carriage return; what
/// follows the last line feed is a line unless it is empty.
pub open spec fn lines(text: Seq<char>) -> Seq<Seq<char>> {
    let pieces = split(text, '\n');
    let ended = pieces.drop_last().map_values(|line: Seq<char>| line_text(line));
    if pieces.last().len() == 0 {
        ended
    } else {
        ended.push(pieces.last())
    }
}

/// The pieces of a text hold no separator, and nothing that the text does not hold.
pub proof fn pieces_are_parts(text: Seq<char>, separator: char)
    ensures
        split(text, separator).len() > 0,
        forall|i: int|
            0 <= i < split(text, separator).len() ==> !(#[trigger] split(text, separator)[i]).contains(
                separator,
            ),
        forall|i: int, c: char|
            0 <= i < split(text, separator).len() && #[trigger] split(text, separator)[i].contains(c)
                ==> text.contains(c),
        text.len() > 0 ==> (split(text, separator).last().len() == 0 <==> text.last() == separator),
    decreases text.len(),
{
    let pieces = split(text, separator);
    if text.len() > 0 {
        let rest = text.drop_last();
        let before = split(rest, separator);
        pieces_are_parts(rest, separator);
        assert(text.contains(text.last())) by {
            assert(text[text.len() - 1] == text.last());
        }
        assert forall|c: char| rest.contains(c) implies #[trigger] text.contains(c) by {
            let k = choose|k: int| 0 <= k < rest.len() && rest[k] == c;
            assert(text[k] == c);
        }
        assert forall|i: int, c: char|
            0 <= i < pieces.len() && #[trigger] pieces[i].contains(c) implies text.contains(c) && (c
            == separator ==> false) by {
            let k = choose|k: int| 0 <= k < pieces[i].len() && pieces[i][k] == c;
            if i < before.len() - 1 || (text.last() == separator && i < before.len()) {
                assert(pieces[i] == before[i]);
                assert(before[i].contains(c));
            } else if text.last() != separator {
                assert(pieces[i] == before.last().push(text.last()));
                if k < before.last().len() {
                    assert(before[before.len() - 1][k] == c);
                    assert(before[before.len() - 1].contains(c));
                }
            }
        }
    } else {
        assert(pieces[0] == text);
    }
}

proof fn split_goes_on(a: Seq<char>, separator: char, b: Seq<char>)
    requires
        !b.contains(separator),
    ensures
        split(a.push(separator) + b, separator) == split(a, separator).push(b),
    decreases b.len(),
{
    let whole = a.push(separator) + b;
    if b.len() == 0 {
        assert(whole =~= a.push(separator));
        assert(whole.drop_last() =~= a);
        assert(b =~= Seq::empty());
    } else {
        let less = b.drop_last();
        assert forall|k: int| 0 <= k < less.len() implies #[trigger] less[k] != separator by {
            assert(b[k] == less[k]);
        }
        split_goes_on(a, separator, less);
        assert(whole.drop_last() =~= a.push(separator) + less);
        assert(b[b.len() - 1] != separator);
        assert(less.push(b.last()) =~= b);
        let before = split(a, separator).push(less);
        assert(before.drop_last() =~= split(a, separator));
    }
}

proof fn split_of_one(text: Seq<char>, separator: char)
    requires
        !text.contains(separator),
    ensures
        split(text, separator) == seq![text],
    decreases text.len(),
{
    if text.len() > 0 {
        let less = text.drop_last();
        assert forall|k: int| 0 <= k < less.len() implies #[trigger] less[k] != separator by {
            assert(text[k] == less[k]);
        }
        split_of_one(less, separator);
        assert(text[text.len() - 1] != separator);
        assert(less.push(text.last()) =~= text);
        assert(split(text, separator) =~= seq![text]);
    }
}

/// Pieces that are joined by a separator, which none of them holds, are the pieces of the whole.
pub proof fn joined_pieces_read_back(parts: Seq<Seq<char>>, separator: char)
    requires
        parts.len() > 0,
        forall|i: int| 0 <= i < parts.len() ==> !(#[trigger] parts[i]).contains(separator),
    ensures
        split(joined(parts, seq![separator]), separator) == parts,
    decreases parts.len(),
{
    if parts.len() == 1 {
        assert(!parts[0].contains(separator));
        split_of_one(parts[0], separator);
        assert(parts =~= seq![parts[0]]);
    } else {
        let rest = parts.drop_last();
        assert forall|i: int| 0 <= i < rest.len() implies !(#[trigger] rest[i]).contains(
            separator,
        ) by {
            assert(rest[i] == parts[i]);
        }
        joined_pieces_read_back(rest, separator);
        let text = joined(rest, seq![separator]);
        assert(!parts[parts.len() - 1].contains(separator));
        split_goes_on(text, separator, parts.last());
        assert(text + seq![separator] + parts.last() =~= text.push(separator) + parts.last());
        assert(rest.push(parts.last()) =~= parts);
    }
}

/// A line as it can stand in a text: it holds no end of a line.
pub open spec fn one_line_text(line: Seq<char>) -> bool {
    !line.contains('\n') && !line.contains('\r')
}

/// Lines that are joined are the lines of the whole, with the last line ended or not. One that is not
/// ended must hold something.
pub proof fn joined_lines_read_back(parts: Seq<Seq<char>>)
    requires
        parts.len() > 0,
        forall|i: int| 0 <= i < parts.len() ==> one_line_text(#[trigger] parts[i]),
    ensures
        lines(joined(parts, seq!['\n']).push('\n')) == parts,
        parts.last().len() > 0 ==> lines(joined(parts, seq!['\n'])) == parts,
{
    assert forall|i: int| 0 <= i < parts.len() implies !(#[trigger] parts[i]).contains('\n') by {
        assert(one_line_text(parts[i]));
    }
    joined_pieces_read_back(parts, '\n');
    assert forall|i: int| 0 <= i < parts.len() implies line_text(#[trigger] parts[i]) == parts[i] by {
        assert(one_line_text(parts[i]));
        if parts[i].len() > 0 {
            assert(parts[i][parts[i].len() - 1] != '\r');
        }
    }
    let text = joined(parts, seq!['\n']);
    let none = Seq::<char>::empty();
    split_goes_on(text, '\n', none);
    assert(text.push('\n') + none =~= text.push('\n'));
    let pieces = split(text.push('\n'), '\n');
    assert(pieces.drop_last() =~= parts);
    assert(pieces.last() == none);
    assert(lines(text.push('\n')) =~= parts);
    if parts.last().len() > 0 {
        assert(lines(text) =~= parts);
    }
}

/// The lines of a text without carriage returns hold no end of a line; the last one holds something
/// where the text does not end a line.
pub proof fn lines_are_plain(text: Seq<char>)
    requires
        !text.contains('\r'),
    ensures
        forall|i: int| 0 <= i < lines(text).len() ==> one_line_text(#[trigger] lines(text)[i]),
        lines(text).len() > 0 && text.last() != '\n' ==> lines(text).last().len() > 0,
{
    pieces_are_parts(text, '\n');
    let pieces = split(text, '\n');
    assert forall|i: int| 0 <= i < lines(text).len() implies one_line_text(
        #[trigger] lines(text)[i],
    ) by {
        assert(!pieces[i].contains('\r'));
        assert(!pieces[i].contains('\n'));
        if pieces[i].len() > 0 {
            assert(pieces[i].contains(pieces[i][pieces[i].len() - 1]));
        }
        assert(lines(text)[i] == pieces[i]);
    }
}

/// The lines of a text.
pub fn lines_of(text: &[char]) -> (r: Vec<Vec<char>>)
    ensures
        deep(r@) == lines(text@),
{
    let pieces = split_chars(text, '\n');
    let ghost all = split(text@, '\n');
    assert(deep(pieces@).len() == all.len());
    let mut out: Vec<Vec<char>> = Vec::new();
    let mut i: usize = 0;
    let last = pieces.len() - 1;
    while i < last
        invariant
            i <= last,
            last + 1 == pieces.len(),
            deep(pieces@) == all,
            out.len() == i,
            forall|j: int| 0 <= j < i ==> (#[trigger] out@[j])@ == line_text(all[j]),
        decreases last - i,
    {
        let piece: &Vec<char> = &pieces[i];
        assert(piece@ == all[i as int]);
        let n = piece.len();
        let end = if n > 0 && piece[n - 1] == '\r' {
            n - 1
        } else {
            n
        };
        let kept = copy_chars(slice_subrange(piece.as_slice(), 0, end));
        assert(kept@ =~= line_text(all[i as int]));
        out.push(kept);
        i += 1;
    }
    let ghost ended = all.drop_last().map_values(|line: Seq<char>| line_text(line));
    assert(deep(out@) =~= ended);
    assert(pieces@[last as int]@ == all.last());
    if pieces[last].len() > 0 {
        out.push(copy_chars(pieces[last].as_slice()));
        assert(deep(out@) =~= ended.push(all.last()));
    }
    out
}

/// A copy of a slice of characters.
pub fn copy_chars(chars: &[char]) -> (r: Vec<char>)
    ensures
        r@ == chars@,
{
    let mut out: Vec<char> = Vec::new();
    let mut i: usize = 0;
    while i < chars.len()
        invariant
            i <= chars.len(),
            out@ == chars@.take(i as int),
        decreases chars.len() - i,
    {
        out.push(chars[i]);
        i += 1;
        assert(chars@.take(i as int) =~= chars@.take(i - 1).push(chars@[i - 1]));
    }
    assert(chars@.take(i as int) =~= chars@);
    out
}

/// The words of a text: its longest pieces without white space.
pub open spec fn words(text: Seq<char>) -> Seq<Seq<char>>
    decreases text.len(),
{
    if text.len() == 0 {
        Seq::empty()
    } else {
        let before = words(text.drop_last());
        if space(text.last()) {
            before
        } else if text.len() == 1 || space(text[text.len() - 2]) {
            before.push(seq![text.last()])
        } else {
            before.drop_last().push(before.last().push(text.last()))
        }
    }
}

proof fn words_open(text: Seq<char>)
    ensures
        text.len() > 0 && !space(text.last()) ==> words(text).len() > 0,
    decreases text.len(),
{
    if text.len() > 1 {
        words_open(text.drop_last());
    }
}

/// The words of a text.
pub fn words_of(text: &[char]) -> (r: Vec<Vec<char>>)
    ensures
        deep(r@) == words(text@),
{
    let mut out: Vec<Vec<char>> = Vec::new();
    let mut piece: Vec<char> = Vec::new();
    let mut i: usize = 0;
    assert(text@.take(0) =~= Seq::empty());
    assert(deep(out@) =~= Seq::empty());
    while i < text.len()
        invariant
            i <= text.len(),
            piece.len() > 0 <==> (i > 0 && !space(text@[i - 1])),
            piece.len() == 0 ==> deep(out@) == words(text@.take(i as int)),
            piece.len() > 0 ==> deep(out@).push(piece@) == words(text@.take(i as int)),
        decreases text.len() - i,
    {
        let c = text[i];
        let ghost now = text@.take(i + 1);
        proof {
            assert(now.drop_last() =~= text@.take(i as int));
            assert(now.last() == c);
            if i > 0 {
                assert(now[now.len() - 2] == text@[i - 1]);
            }
        }
        if is_space(c) {
            if piece.len() > 0 {
                let ghost whole = deep(out@).push(piece@);
                out.push(piece);
                piece = Vec::new();
                assert(deep(out@) =~= whole);
            }
        } else {
            let ghost held = piece@;
            piece.push(c);
            proof {
                if held.len() == 0 {
                    assert(piece@ =~= seq![c]);
                } else {
                    assert(deep(out@).push(held).drop_last() =~= deep(out@));
                }
            }
        }
        i += 1;
    }
    assert(text@.take(i as int) =~= text@);
    if piece.len() > 0 {
        let ghost whole = deep(out@).push(piece@);
        out.push(piece);
        assert(deep(out@) =~= whole);
    }
    out
}

/// The text with each occurrence of `part`, found from the left without overlap, replaced.
pub open spec fn replaced(text: Seq<char>, part: Seq<char>, by: Seq<char>) -> Seq<char>
    decreases text.len(),
{
    if part.len() == 0 {
        text
    } else {
        match found_from(text, part, 0) {
            Some(i) => if i + part.len() <= text.len() && 0 <= i {
                text.subrange(0, i) + by + replaced(
                    text.subrange(i + part.len(), text.len() as int),
                    part,
                    by,
                )
            } else {
                text
            },
            None => text,
        }
    }
}

/// The text with each occurrence of `part` replaced; `part` is not empty.
pub fn replace(text: &[char], part: &[char], by: &[char]) -> (r: Vec<char>)
    requires
        part.len() > 0,
    ensures
        r@ == replaced(text@, part@, by@),
{
    let mut out: Vec<char> = Vec::new();
    let mut from: usize = 0;
    assert(text@.subrange(0, text.len() as int) =~= text@);
    assert(out@ + replaced(text@, part@, by@) =~= replaced(text@, part@, by@));
    loop
        invariant
            part.len() > 0,
            from <= text.len(),
            out@ + replaced(text@.subrange(from as int, text.len() as int), part@, by@) == replaced(
                text@,
                part@,
                by@,
            ),
        decreases text.len() + 1 - from,
    {
        let rest = slice_subrange(text, from, text.len());
        proof {
            found_from_is_first(rest@, part@, 0);
        }
        match find_from(rest, part, 0) {
            Some(i) => {
                let ghost before = out@;
                let mut head = copy_chars(slice_subrange(rest, 0, i));
                let mut tail = copy_chars(by);
                out.append(&mut head);
                out.append(&mut tail);
                proof {
                    let left = rest@.subrange(i + part.len(), rest.len() as int);
                    assert(left =~= text@.subrange(from + i + part.len(), text.len() as int));
                    assert(out@ + replaced(left, part@, by@) =~= before + (rest@.subrange(
                        0,
                        i as int,
                    ) + by@ + replaced(left, part@, by@)));
                }
                from = from + i + part.len();
            },
            None => {
                let ghost before = out@;
                let mut tail = copy_chars(rest);
                out.append(&mut tail);
                assert(out@ =~= before + rest@);
                return out;
            },
        }
    }
}

// Decimal numbers.

/// The character of a digit.
pub open spec fn digit_char(d: nat) -> char {
    (48 + d) as char
}

/// The value of a digit character.
pub open spec fn digit_value(c: char) -> nat {
    (c as u32 - 48) as nat
}

/// A number in decimal notation.
pub open spec fn decimal(n: nat) -> Seq<char>
    decreases n,
{
    if n < 10 {
        seq![digit_char(n)]
    } else {
        decimal(n / 10).push(digit_char(n % 10))
    }
}

/// The value of a run of digits.
pub open spec fn digits_value(text: Seq<char>) -> nat
    decreases text.len(),
{
    if text.len() == 0 {
        0
    } else {
        digits_value(text.drop_last()) * 10 + digit_value(text.last())
    }
}

/// A non-empty run of digits.
pub open spec fn all_digits(text: Seq<char>) -> bool {
    text.len() > 0 && forall|i: int| 0 <= i < text.len() ==> digit(#[trigger] text[i])
}

/// The text without one plus sign before it.
pub open spec fn unsigned_part(text: Seq<char>) -> Seq<char> {
    if text.len() > 0 && text[0] == '+' {
        text.subrange(1, text.len() as int)
    } else {
        text
    }
}

/// The number that a text denotes: digits, after at most one plus sign, up to a limit.
pub open spec fn number(text: Seq<char>, limit: nat) -> Option<nat> {
    let digits = unsigned_part(text);
    if all_digits(digits) && digits_value(digits) <= limit {
        Some(digits_value(digits))
    } else {
        None
    }
}

/// A number in decimal notation.
pub fn decimal_of(n: u64) -> (r: String)
    ensures
        r@ == decimal(n as nat),
    decreases n,
{
    let mut out = if n < 10 {
        String::new()
    } else {
        decimal_of(n / 10)
    };
    let d: u8 = (n % 10) as u8;
    push_char(&mut out, (48 + d) as char);
    proof {
        if n < 10 {
            assert(out@ =~= seq![digit_char(n as nat)]);
        }
    }
    out
}

/// An integer in decimal notation.
pub open spec fn signed_decimal(n: int) -> Seq<char> {
    if n < 0 {
        "-"@ + decimal((-n) as nat)
    } else {
        decimal(n as nat)
    }
}

/// An integer in decimal notation.
pub fn signed_decimal_of(n: i32) -> (r: String)
    ensures
        r@ == signed_decimal(n as int),
{
    if n < 0 {
        let size: i64 = 0 - (n as i64);
        let digits = decimal_of(size as u64);
        concat("-", digits.as_str())
    } else {
        decimal_of(n as u64)
    }
}

/// The characters that bytes stand for, with a replacement character for what is not UTF-8.
pub uninterp spec fn lossy(bytes: Seq<u8>) -> Seq<char>;

/// The characters that a character has in capital form.
pub uninterp spec fn capitals(c: char) -> Seq<char>;

/// The characters that a character has in small form.
pub uninterp spec fn smalls(c: char) -> Seq<char>;

/// `char::to_uppercase`: a letter from `a` to `z` gives its capital, any other ASCII character
/// itself; what the others give is a table of Unicode and left to the name.
#[verifier::external_body]
pub(crate) fn upper_of(c: char) -> (r: String)
    ensures
        r@ == capitals(c),
        lower(c) ==> r@ == seq![(c as u32 - 32) as char],
        (c as u32) < 128 && !lower(c) ==> r@ == seq![c],
{
    c.to_uppercase().collect()
}

/// `char::to_lowercase`: a letter from `A` to `Z` gives its small form, any other ASCII character
/// itself; what the others give is a table of Unicode and left to the name.
#[verifier::external_body]
pub(crate) fn lower_of(c: char) -> (r: String)
    ensures
        r@ == smalls(c),
        upper(c) ==> r@ == seq![(c as u32 + 32) as char],
        (c as u32) < 128 && !upper(c) ==> r@ == seq![c],
{
    c.to_lowercase().collect()
}

/// `str::from_utf8`: bytes in UTF-8 give their characters; other bytes are refused.
#[verifier::external_body]
pub(crate) fn text_strict(bytes: &[u8]) -> (r: Option<String>)
    ensures
        match r {
            Some(t) => vstd::utf8::valid_utf8(bytes@) && t@ == vstd::utf8::decode_utf8(bytes@),
            None => !vstd::utf8::valid_utf8(bytes@),
        },
{
    core::str::from_utf8(bytes).ok().map(str::to_owned)
}

/// The views of string slices.
pub open spec fn strs(texts: Seq<&str>) -> Seq<Seq<char>> {
    Seq::new(texts.len(), |i: int| texts[i]@)
}

/// Owned copies of string slices.
pub fn owned(texts: &[&str]) -> (r: Vec<String>)
    ensures
        views(r@) == strs(texts@),
{
    let mut out: Vec<String> = Vec::new();
    let mut i: usize = 0;
    while i < texts.len()
        invariant
            i <= texts.len(),
            out.len() == i,
            forall|j: int| 0 <= j < i ==> (#[trigger] out@[j])@ == texts@[j]@,
        decreases texts.len() - i,
    {
        out.push(texts[i].to_owned());
        i += 1;
    }
    assert(views(out@) =~= strs(texts@));
    out
}

/// Adds strings.
pub fn push_strings(texts: &mut Vec<String>, more: &[&str])
    ensures
        views(final(texts)@) == views(old(texts)@) + strs(more@),
{
    let mut rest = owned(more);
    let ghost added = rest@;
    texts.append(&mut rest);
    assert(views(texts@) =~= views(old(texts)@) + views(added));
}

/// `String::from_utf8_lossy`: bytes in UTF-8 give their characters; what other bytes give depends
/// on the bytes alone and is left to the name.
#[verifier::external_body]
pub(crate) fn text_lossy(bytes: &[u8]) -> (r: String)
    ensures
        r@ == lossy(bytes@),
        vstd::utf8::valid_utf8(bytes@) ==> r@ == vstd::utf8::decode_utf8(bytes@),
{
    String::from_utf8_lossy(bytes).into_owned()
}

proof fn digits_value_grows(text: Seq<char>, n: int)
    requires
        0 <= n <= text.len(),
    ensures
        digits_value(text.take(n)) <= digits_value(text),
    decreases text.len() - n,
{
    if n == text.len() {
        assert(text.take(n) =~= text);
    } else {
        digits_value_grows(text, n + 1);
        assert(text.take(n + 1).drop_last() =~= text.take(n));
    }
}

/// The number that a slice denotes, up to a limit.
pub fn parse_number(text: &[char], limit: u64) -> (r: Option<u64>)
    ensures
        match r {
            Some(n) => number(text@, limit as nat) == Some(n as nat),
            None => number(text@, limit as nat) is None,
        },
{
    let start: usize = if text.len() > 0 && text[0] == '+' {
        1
    } else {
        0
    };
    let digits = slice_subrange(text, start, text.len());
    assert(digits@ =~= unsigned_part(text@));
    if digits.len() == 0 {
        return None;
    }
    let mut value: u64 = 0;
    let mut i: usize = 0;
    while i < digits.len()
        invariant
            i <= digits.len(),
            digits@ == unsigned_part(text@),
            forall|j: int| 0 <= j < i ==> digit(#[trigger] digits@[j]),
            value == digits_value(digits@.take(i as int)),
            value <= limit,
        decreases digits.len() - i,
    {
        let c = digits[i];
        if !is_digit(c) {
            assert(!digit(digits@[i as int]));
            return None;
        }
        let d: u64 = (c as u32 - 48) as u64;
        proof {
            assert(digits@.take(i + 1).drop_last() =~= digits@.take(i as int));
            digits_value_grows(digits@, i + 1);
        }
        let next: u64 = match value.checked_mul(10) {
            Some(shifted) => match shifted.checked_add(d) {
                Some(sum) => sum,
                None => {
                    return None;
                },
            },
            None => {
                return None;
            },
        };
        if next > limit {
            return None;
        }
        value = next;
        i += 1;
    }
    assert(digits@.take(i as int) =~= digits@);
    Some(value)
}

/// The `u64` that a string denotes.
pub fn parse_u64(text: &str) -> (r: Option<u64>)
    ensures
        match r {
            Some(n) => number(text@, u64::MAX as nat) == Some(n as nat),
            None => number(text@, u64::MAX as nat) is None,
        },
{
    let chars = chars_of(text);
    parse_number(chars.as_slice(), u64::MAX)
}

/// Reading a number back from its decimal notation gives the number.
pub proof fn decimal_reads_back(n: nat, limit: nat)
    requires
        n <= limit,
    ensures
        number(decimal(n), limit) == Some(n),
{
    decimal_digits(n);
    assert(decimal(n)[0] != '+');
}

/// Zeros before a number in decimal notation do not change its value.
pub proof fn padding_keeps_the_value(n: nat, zeros: nat)
    ensures
        digits_value(Seq::new(zeros, |i: int| '0') + decimal(n)) == n,
    decreases n,
{
    let pad = Seq::new(zeros, |i: int| '0');
    let whole = pad + decimal(n);
    assert(whole.last() == decimal(n).last());
    if n < 10 {
        assert(whole.drop_last() =~= pad);
        zeros_are_nothing(zeros);
    } else {
        assert(whole.drop_last() =~= pad + decimal(n / 10));
        padding_keeps_the_value(n / 10, zeros);
    }
}

proof fn zeros_are_nothing(zeros: nat)
    ensures
        digits_value(Seq::new(zeros, |i: int| '0')) == 0,
    decreases zeros,
{
    if zeros > 0 {
        zeros_are_nothing((zeros - 1) as nat);
        assert(Seq::new(zeros, |i: int| '0').drop_last() =~= Seq::new(
            (zeros - 1) as nat,
            |i: int| '0',
        ));
    }
}

proof fn decimal_digits(n: nat)
    ensures
        all_digits(decimal(n)),
        digits_value(decimal(n)) == n,
    decreases n,
{
    if n < 10 {
        assert(decimal(n).drop_last() =~= Seq::empty());
        assert(digits_value(decimal(n).drop_last()) == 0);
    } else {
        decimal_digits(n / 10);
        assert(decimal(n).drop_last() =~= decimal(n / 10));
    }
}

} // verus!
