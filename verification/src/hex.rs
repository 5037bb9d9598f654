//! Hexadecimal notation.
use crate::text::{push_char, push_text, string_of};
use vstd::prelude::*;

verus! {

/// A digit from 0 to 15.
pub open spec fn nibble(d: int) -> char {
    if d < 10 {
        (48 + d) as char
    } else {
        (87 + d) as char
    }
}

/// A number in hexadecimal notation.
pub open spec fn hex_number(n: nat) -> Seq<char>
    decreases n,
{
    if n < 16 {
        seq![nibble(n as int)]
    } else {
        hex_number(n / 16).push(nibble((n % 16) as int))
    }
}

/// A text filled up with zeros before it.
pub open spec fn padded(text: Seq<char>, width: int) -> Seq<char> {
    if text.len() >= width {
        text
    } else {
        Seq::new((width - text.len()) as nat, |i: int| '0') + text
    }
}

/// The two digits of each byte.
pub open spec fn hex_bytes(bytes: Seq<u8>) -> Seq<char>
    decreases bytes.len(),
{
    if bytes.len() == 0 {
        Seq::empty()
    } else {
        hex_bytes(bytes.drop_last()).push(nibble(bytes.last() as int / 16)).push(
            nibble(bytes.last() as int % 16),
        )
    }
}

/// A digit from 0 to 15.
pub fn nibble_of(d: u8) -> (r: char)
    requires
        d < 16,
    ensures
        r == nibble(d as int),
{
    if d < 10 {
        (48 + d) as char
    } else {
        (87 + d) as char
    }
}

/// A number in hexadecimal notation.
pub fn hex_of(n: u64) -> (r: String)
    ensures
        r@ == hex_number(n as nat),
    decreases n,
{
    let mut out = if n < 16 {
        String::new()
    } else {
        hex_of(n / 16)
    };
    push_char(&mut out, nibble_of((n % 16) as u8));
    assert(out@ =~= hex_number(n as nat));
    out
}

/// A text filled up with zeros before it.
pub fn pad(text: &str, width: usize) -> (r: String)
    ensures
        r@ == padded(text@, width as int),
{
    let count = crate::text::chars_of(text).len();
    let mut out = String::new();
    let mut i: usize = count;
    while i < width
        invariant
            count <= i <= width || i == count,
            out@ == Seq::new((i - count) as nat, |j: int| '0'),
        decreases width - i,
    {
        push_char(&mut out, '0');
        i += 1;
        assert(out@ =~= Seq::new((i - count) as nat, |j: int| '0'));
    }
    push_text(&mut out, text);
    assert(out@ =~= padded(text@, width as int));
    out
}

/// The number that digits stand for.
pub open spec fn hex_value(text: Seq<char>) -> nat
    decreases text.len(),
{
    if text.len() == 0 {
        0
    } else {
        hex_value(text.drop_last()) * 16 + nibble_value(text.last())
    }
}

/// The number from 0 to 15 that a digit stands for.
pub open spec fn nibble_value(c: char) -> nat {
    if (c as int) < 58 {
        (c as int - 48) as nat
    } else {
        (c as int - 87) as nat
    }
}

/// Digits filled up with zeros stand for the number that they were made of.
pub proof fn padded_digits_read_back(n: nat, zeros: nat)
    ensures
        hex_value(Seq::new(zeros, |i: int| '0') + hex_number(n)) == n,
    decreases n,
{
    let pad = Seq::new(zeros, |i: int| '0');
    let whole = pad + hex_number(n);
    if n < 16 {
        assert(whole.drop_last() =~= pad);
        zeros_are_nothing(zeros);
        assert(nibble_value(nibble(n as int)) == n);
    } else {
        padded_digits_read_back(n / 16, zeros);
        assert(whole.drop_last() =~= pad + hex_number(n / 16));
        assert(nibble_value(nibble((n % 16) as int)) == n % 16);
    }
}

proof fn zeros_are_nothing(zeros: nat)
    ensures
        hex_value(Seq::new(zeros, |i: int| '0')) == 0,
    decreases zeros,
{
    if zeros > 0 {
        zeros_are_nothing((zeros - 1) as nat);
        assert(Seq::new(zeros, |i: int| '0').drop_last() =~= Seq::new(
            (zeros - 1) as nat,
            |i: int| '0',
        ));
    }
}

/// Different numbers have different digits, filled up or not.
pub proof fn padding_keeps_numbers_apart(a: nat, b: nat, width: int)
    requires
        padded(hex_number(a), width) == padded(hex_number(b), width),
    ensures
        a == b,
{
    padded_reads_back(a, width);
    padded_reads_back(b, width);
}

proof fn padded_reads_back(n: nat, width: int)
    ensures
        hex_value(padded(hex_number(n), width)) == n,
{
    let digits = hex_number(n);
    if digits.len() >= width {
        padded_digits_read_back(n, 0);
        assert(Seq::new(0, |i: int| '0') + digits =~= digits);
    } else {
        padded_digits_read_back(n, (width - digits.len()) as nat);
    }
}

/// The two digits of each byte.
pub fn hex_text(bytes: &[u8]) -> (r: String)
    ensures
        r@ == hex_bytes(bytes@),
{
    let mut out = String::new();
    let mut i: usize = 0;
    assert(bytes@.take(0) =~= Seq::empty());
    while i < bytes.len()
        invariant
            i <= bytes.len(),
            out@ == hex_bytes(bytes@.take(i as int)),
        decreases bytes.len() - i,
    {
        assert(bytes@.take(i + 1).drop_last() =~= bytes@.take(i as int));
        push_char(&mut out, nibble_of(bytes[i] / 16));
        push_char(&mut out, nibble_of(bytes[i] % 16));
        i += 1;
    }
    assert(bytes@.take(i as int) =~= bytes@);
    out
}

/// The digits of bytes are twice as many as the bytes, and those of each byte stand in its place.
pub proof fn hex_places(bytes: Seq<u8>)
    ensures
        hex_bytes(bytes).len() == 2 * bytes.len(),
        forall|i: int|
            0 <= i < bytes.len() ==> hex_bytes(bytes)[2 * i] == nibble((#[trigger] bytes[i]) as int / 16)
                && hex_bytes(bytes)[2 * i + 1] == nibble(bytes[i] as int % 16),
    decreases bytes.len(),
{
    if bytes.len() > 0 {
        let rest = bytes.drop_last();
        hex_places(rest);
        assert forall|i: int| 0 <= i < bytes.len() implies hex_bytes(bytes)[2 * i] == nibble(
            (#[trigger] bytes[i]) as int / 16,
        ) && hex_bytes(bytes)[2 * i + 1] == nibble(bytes[i] as int % 16) by {
            if i < rest.len() {
                assert(rest[i] == bytes[i]);
            }
        }
    }
}

/// A universally unique identifier of the fourth version, made of sixteen random bytes.
pub open spec fn uuid_text(bytes: Seq<u8>) -> Seq<char> {
    let hex = hex_bytes(
        bytes.update(6, (bytes[6] % 16 + 64) as u8).update(8, (bytes[8] % 64 + 128) as u8),
    );
    hex.subrange(0, 8) + "-"@ + hex.subrange(8, 12) + "-"@ + hex.subrange(12, 16) + "-"@
        + hex.subrange(16, 20) + "-"@ + hex.subrange(20, 32)
}

/// A universally unique identifier of the fourth version, made of sixteen random bytes.
pub fn uuid(bytes: &[u8]) -> (r: String)
    requires
        bytes.len() == 16,
    ensures
        r@ == uuid_text(bytes@),
        r@.len() == 36,
{
    let mut all: Vec<u8> = Vec::new();
    let mut i: usize = 0;
    while i < 16
        invariant
            i <= 16,
            bytes.len() == 16,
            all@ == bytes@.take(i as int),
        decreases 16 - i,
    {
        all.push(bytes[i]);
        i += 1;
        assert(all@ =~= bytes@.take(i as int));
    }
    all.set(6, bytes[6] % 16 + 64);
    all.set(8, bytes[8] % 64 + 128);
    assert(all@ =~= bytes@.update(6, (bytes@[6] % 16 + 64) as u8).update(
        8,
        (bytes@[8] % 64 + 128) as u8,
    ));
    let text = hex_text(all.as_slice());
    proof {
        hex_places(all@);
        reveal_strlit("-");
    }
    let hex = crate::text::chars_of(text.as_str());
    let mut out = string_of(vstd::slice::slice_subrange(hex.as_slice(), 0, 8));
    push_text(&mut out, "-");
    push_text(&mut out, string_of(vstd::slice::slice_subrange(hex.as_slice(), 8, 12)).as_str());
    push_text(&mut out, "-");
    push_text(&mut out, string_of(vstd::slice::slice_subrange(hex.as_slice(), 12, 16)).as_str());
    push_text(&mut out, "-");
    push_text(&mut out, string_of(vstd::slice::slice_subrange(hex.as_slice(), 16, 20)).as_str());
    push_text(&mut out, "-");
    push_text(&mut out, string_of(vstd::slice::slice_subrange(hex.as_slice(), 20, 32)).as_str());
    out
}

} // verus!
