//! The MD5 digest, by which Cursor names the folders of its chats.
use crate::hex::{hex_bytes, hex_text};
use vstd::prelude::*;

verus! {

/// The constants of the steps: the integer parts of 2^32 times the sines of 1 to 64.
pub open spec fn sines() -> Seq<u32> {
    seq![
        0xd76a_a478u32, 0xe8c7_b756u32, 0x2420_70dbu32, 0xc1bd_ceeeu32,
        0xf57c_0fafu32, 0x4787_c62au32, 0xa830_4613u32, 0xfd46_9501u32,
        0x6980_98d8u32, 0x8b44_f7afu32, 0xffff_5bb1u32, 0x895c_d7beu32,
        0x6b90_1122u32, 0xfd98_7193u32, 0xa679_438eu32, 0x49b4_0821u32,
        0xf61e_2562u32, 0xc040_b340u32, 0x265e_5a51u32, 0xe9b6_c7aau32,
        0xd62f_105du32, 0x0244_1453u32, 0xd8a1_e681u32, 0xe7d3_fbc8u32,
        0x21e1_cde6u32, 0xc337_07d6u32, 0xf4d5_0d87u32, 0x455a_14edu32,
        0xa9e3_e905u32, 0xfcef_a3f8u32, 0x676f_02d9u32, 0x8d2a_4c8au32,
        0xfffa_3942u32, 0x8771_f681u32, 0x6d9d_6122u32, 0xfde5_380cu32,
        0xa4be_ea44u32, 0x4bde_cfa9u32, 0xf6bb_4b60u32, 0xbebf_bc70u32,
        0x289b_7ec6u32, 0xeaa1_27fau32, 0xd4ef_3085u32, 0x0488_1d05u32,
        0xd9d4_d039u32, 0xe6db_99e5u32, 0x1fa2_7cf8u32, 0xc4ac_5665u32,
        0xf429_2244u32, 0x432a_ff97u32, 0xab94_23a7u32, 0xfc93_a039u32,
        0x655b_59c3u32, 0x8f0c_cc92u32, 0xffef_f47du32, 0x8584_5dd1u32,
        0x6fa8_7e4fu32, 0xfe2c_e6e0u32, 0xa301_4314u32, 0x4e08_11a1u32,
        0xf753_7e82u32, 0xbd3a_f235u32, 0x2ad7_d2bbu32, 0xeb86_d391u32,
    ]
}

/// How far each step rotates.
pub open spec fn shifts() -> Seq<u32> {
    seq![7u32, 12, 17, 22, 5, 9, 14, 20, 4, 11, 16, 23, 6, 10, 15, 21]
}

/// The sum of two words.
pub open spec fn plus(a: u32, b: u32) -> u32 {
    ((a + b) % 0x1_0000_0000) as u32
}

/// A word with its bits rotated to the left.
pub open spec fn rotated(x: u32, by: u32) -> u32 {
    (x << by) | (x >> ((32 - by) as u32))
}

/// The four words that a digest is made of.
#[derive(Clone, Copy, PartialEq, Eq, Structural, Debug)]
pub struct Words {
    pub a: u32,
    pub b: u32,
    pub c: u32,
    pub d: u32,
}

/// The words that a digest begins with.
pub open spec fn first_words() -> Words {
    Words { a: 0x6745_2301, b: 0xefcd_ab89, c: 0x98ba_dcfe, d: 0x1032_5476 }
}

/// What a step mixes of three words.
pub open spec fn mixed(i: int, b: u32, c: u32, d: u32) -> u32 {
    if i < 16 {
        (b & c) | (!b & d)
    } else if i < 32 {
        (d & b) | (!d & c)
    } else if i < 48 {
        b ^ c ^ d
    } else {
        c ^ (b | !d)
    }
}

/// The word of the block that a step takes in.
pub open spec fn word_place(i: int) -> int {
    if i < 16 {
        i
    } else if i < 32 {
        (5 * i + 1) % 16
    } else if i < 48 {
        (3 * i + 5) % 16
    } else {
        (7 * i) % 16
    }
}

/// One step.
pub open spec fn stepped(w: Words, block: Seq<u32>, i: int) -> Words {
    let f = plus(plus(plus(mixed(i, w.b, w.c, w.d), w.a), sines()[i]), block[word_place(i)]);
    Words {
        a: w.d,
        b: plus(w.b, rotated(f, shifts()[i / 16 * 4 + i % 4])),
        c: w.b,
        d: w.c,
    }
}

/// The first steps of a block.
pub open spec fn steps(w: Words, block: Seq<u32>, count: nat) -> Words
    decreases count,
{
    if count == 0 {
        w
    } else {
        stepped(steps(w, block, (count - 1) as nat), block, count - 1)
    }
}

/// A word of four bytes, the lowest first.
pub open spec fn word_of(bytes: Seq<u8>, at: int) -> u32 {
    (bytes[at] + 256 * bytes[at + 1] + 65536 * bytes[at + 2] + 16777216 * bytes[at + 3]) as u32
}

/// The words of a block of bytes.
pub open spec fn block_words(bytes: Seq<u8>, at: int) -> Seq<u32> {
    Seq::new(16, |g: int| word_of(bytes, at + 4 * g))
}

/// The words after a block.
pub open spec fn after_block(w: Words, block: Seq<u32>) -> Words {
    let e = steps(w, block, 64);
    Words { a: plus(w.a, e.a), b: plus(w.b, e.b), c: plus(w.c, e.c), d: plus(w.d, e.d) }
}

/// The words after the first blocks of a message.
pub open spec fn after_blocks(message: Seq<u8>, count: nat) -> Words
    decreases count,
{
    if count == 0 {
        first_words()
    } else {
        after_block(
            after_blocks(message, (count - 1) as nat),
            block_words(message, 64 * (count - 1)),
        )
    }
}

/// The bytes of a number, the lowest first.
pub open spec fn low_first(n: nat, count: nat) -> Seq<u8>
    decreases count,
{
    if count == 0 {
        Seq::empty()
    } else {
        seq![(n % 256) as u8] + low_first(n / 256, (count - 1) as nat)
    }
}

/// The zeros that fill up a message.
pub open spec fn fill(len: nat) -> nat {
    ((119 - (len % 64)) % 64) as nat
}

/// A message filled up to whole blocks, with its length in bits.
pub open spec fn filled(data: Seq<u8>) -> Seq<u8> {
    data.push(0x80) + Seq::new(fill(data.len()), |i: int| 0u8) + low_first(data.len() * 8, 8)
}

/// The bytes of a digest.
pub open spec fn digest(data: Seq<u8>) -> Seq<u8> {
    let message = filled(data);
    let w = after_blocks(message, message.len() / 64);
    low_first(w.a as nat, 4) + low_first(w.b as nat, 4) + low_first(w.c as nat, 4) + low_first(
        w.d as nat,
        4,
    )
}

fn add_words(a: u32, b: u32) -> (r: u32)
    ensures
        r == plus(a, b),
{
    ((a as u64 + b as u64) % 0x1_0000_0000) as u32
}

fn rotate(x: u32, by: u32) -> (r: u32)
    requires
        0 < by < 32,
    ensures
        r == rotated(x, by),
{
    (x << by) | (x >> (32 - by))
}

fn step(w: Words, block: &Vec<u32>, i: usize, sine: u32) -> (r: Words)
    requires
        i < 64,
        block.len() == 16,
        sine == sines()[i as int],
    ensures
        r == stepped(w, block@, i as int),
{
    let turns: [u32; 16] = [7, 12, 17, 22, 5, 9, 14, 20, 4, 11, 16, 23, 6, 10, 15, 21];
    assert(turns@ =~= shifts());
    let (f, g) = if i < 16 {
        ((w.b & w.c) | (!w.b & w.d), i)
    } else if i < 32 {
        ((w.d & w.b) | (!w.d & w.c), (5 * i + 1) % 16)
    } else if i < 48 {
        (w.b ^ w.c ^ w.d, (3 * i + 5) % 16)
    } else {
        (w.c ^ (w.b | !w.d), (7 * i) % 16)
    };
    let k: usize = i / 16 * 4 + i % 4;
    assert(0 < shifts()[k as int] < 32) by {
        assert(k < 16);
    }
    let f = add_words(add_words(add_words(f, w.a), sine), block[g]);
    Words { a: w.d, b: add_words(w.b, rotate(f, turns[k])), c: w.b, d: w.c }
}

fn run_steps(w: Words, block: &Vec<u32>) -> (r: Words)
    requires
        block.len() == 16,
    ensures
        r == steps(w, block@, 64),
{
    let table: [u32; 64] = [
        0xd76a_a478u32, 0xe8c7_b756u32, 0x2420_70dbu32, 0xc1bd_ceeeu32,
        0xf57c_0fafu32, 0x4787_c62au32, 0xa830_4613u32, 0xfd46_9501u32,
        0x6980_98d8u32, 0x8b44_f7afu32, 0xffff_5bb1u32, 0x895c_d7beu32,
        0x6b90_1122u32, 0xfd98_7193u32, 0xa679_438eu32, 0x49b4_0821u32,
        0xf61e_2562u32, 0xc040_b340u32, 0x265e_5a51u32, 0xe9b6_c7aau32,
        0xd62f_105du32, 0x0244_1453u32, 0xd8a1_e681u32, 0xe7d3_fbc8u32,
        0x21e1_cde6u32, 0xc337_07d6u32, 0xf4d5_0d87u32, 0x455a_14edu32,
        0xa9e3_e905u32, 0xfcef_a3f8u32, 0x676f_02d9u32, 0x8d2a_4c8au32,
        0xfffa_3942u32, 0x8771_f681u32, 0x6d9d_6122u32, 0xfde5_380cu32,
        0xa4be_ea44u32, 0x4bde_cfa9u32, 0xf6bb_4b60u32, 0xbebf_bc70u32,
        0x289b_7ec6u32, 0xeaa1_27fau32, 0xd4ef_3085u32, 0x0488_1d05u32,
        0xd9d4_d039u32, 0xe6db_99e5u32, 0x1fa2_7cf8u32, 0xc4ac_5665u32,
        0xf429_2244u32, 0x432a_ff97u32, 0xab94_23a7u32, 0xfc93_a039u32,
        0x655b_59c3u32, 0x8f0c_cc92u32, 0xffef_f47du32, 0x8584_5dd1u32,
        0x6fa8_7e4fu32, 0xfe2c_e6e0u32, 0xa301_4314u32, 0x4e08_11a1u32,
        0xf753_7e82u32, 0xbd3a_f235u32, 0x2ad7_d2bbu32, 0xeb86_d391u32,
    ];
    assert(table@ =~= sines());
    let mut e = w;
    let mut i: usize = 0;
    while i < 64
        invariant
            i <= 64,
            block.len() == 16,
            table@ == sines(),
            e == steps(w, block@, i as nat),
        decreases 64 - i,
    {
        e = step(e, block, i, table[i]);
        i += 1;
    }
    e
}

fn read_word(bytes: &Vec<u8>, at: usize) -> (r: u32)
    requires
        at + 4 <= bytes.len(),
    ensures
        r == word_of(bytes@, at as int),
{
    (bytes[at] as u32) + 256 * (bytes[at + 1] as u32) + 65536 * (bytes[at + 2] as u32) + 16777216
        * (bytes[at + 3] as u32)
}

fn push_low_first(out: &mut Vec<u8>, n: u64, count: usize)
    ensures
        final(out)@ == old(out)@ + low_first(n as nat, count as nat),
    decreases count,
{
    let ghost was = out@;
    if count > 0 {
        out.push((n % 256) as u8);
        push_low_first(out, n / 256, count - 1);
        assert(out@ =~= was + low_first(n as nat, count as nat));
    } else {
        assert(out@ =~= was + low_first(n as nat, 0));
    }
}

fn fill_up(data: &[u8]) -> (r: Vec<u8>)
    requires
        data.len() < 0x1000_0000_0000_0000,
    ensures
        r@ == filled(data@),
        r@.len() % 64 == 0,
{
    let mut out: Vec<u8> = Vec::new();
    let mut i: usize = 0;
    while i < data.len()
        invariant
            i <= data.len(),
            out@ == data@.take(i as int),
        decreases data.len() - i,
    {
        out.push(data[i]);
        i += 1;
        assert(out@ =~= data@.take(i as int));
    }
    assert(out@ =~= data@);
    out.push(0x80);
    let zeros: usize = (119 - data.len() % 64) % 64;
    let mut j: usize = 0;
    assert(out@ =~= data@.push(0x80) + Seq::new(0, |k: int| 0u8));
    while j < zeros
        invariant
            j <= zeros,
            out@ == data@.push(0x80) + Seq::new(j as nat, |k: int| 0u8),
        decreases zeros - j,
    {
        out.push(0);
        j += 1;
        assert(out@ =~= data@.push(0x80) + Seq::new(j as nat, |k: int| 0u8));
    }
    push_low_first(&mut out, data.len() as u64 * 8, 8);
    proof {
        low_first_length(data@.len() * 8, 8);
        let n = data@.len() as int;
        assert((n + 1 + (119 - n % 64) % 64 + 8) % 64 == 0) by (nonlinear_arith)
            requires
                n >= 0,
        ;
    }
    out
}

proof fn low_first_length(n: nat, count: nat)
    ensures
        low_first(n, count).len() == count,
    decreases count,
{
    if count > 0 {
        low_first_length(n / 256, (count - 1) as nat);
    }
}

/// The digest of bytes.
pub fn digest_of(data: &[u8]) -> (r: Vec<u8>)
    requires
        data.len() < 0x1000_0000_0000_0000,
    ensures
        r@ == digest(data@),
        r.len() == 16,
{
    let message = fill_up(data);
    let ghost whole = filled(data@);
    let count = message.len() / 64;
    let mut w = Words { a: 0x6745_2301, b: 0xefcd_ab89, c: 0x98ba_dcfe, d: 0x1032_5476 };
    let mut n: usize = 0;
    while n < count
        invariant
            n <= count,
            message@ == whole,
            count == message.len() / 64,
            w == after_blocks(whole, n as nat),
        decreases count - n,
    {
        let at: usize = 64 * n;
        let mut block: Vec<u32> = Vec::new();
        let mut g: usize = 0;
        while g < 16
            invariant
                g <= 16,
                at == 64 * n,
                n < count,
                count == message.len() / 64,
                message@ == whole,
                block@ == block_words(whole, at as int).take(g as int),
            decreases 16 - g,
        {
            block.push(read_word(&message, at + 4 * g));
            g += 1;
            assert(block@ =~= block_words(whole, at as int).take(g as int));
        }
        assert(block@ =~= block_words(whole, at as int));
        let e = run_steps(w, &block);
        w = Words {
            a: add_words(w.a, e.a),
            b: add_words(w.b, e.b),
            c: add_words(w.c, e.c),
            d: add_words(w.d, e.d),
        };
        n += 1;
    }
    let mut out: Vec<u8> = Vec::new();
    push_low_first(&mut out, w.a as u64, 4);
    push_low_first(&mut out, w.b as u64, 4);
    push_low_first(&mut out, w.c as u64, 4);
    push_low_first(&mut out, w.d as u64, 4);
    assert(out@ =~= digest(data@));
    proof {
        low_first_length(w.a as nat, 4);
        low_first_length(w.b as nat, 4);
        low_first_length(w.c as nat, 4);
        low_first_length(w.d as nat, 4);
    }
    out
}

/// The digest of bytes, in hexadecimal notation.
pub fn md5_hex(data: &[u8]) -> (r: String)
    requires
        data.len() < 0x1000_0000_0000_0000,
    ensures
        r@ == hex_bytes(digest(data@)),
        r@.len() == 32,
{
    let bytes = digest_of(data);
    proof {
        crate::hex::hex_places(bytes@);
    }
    hex_text(bytes.as_slice())
}

} // verus!
