//! Who listens on a port, as the tables of the system say.
use crate::fault::{other, Fault, FaultView};
use crate::mac::digit_number;
use crate::text::{
    chars_of, deep, lines, lines_of, number, parse_number, same, string_of, words, words_of,
};
use vstd::prelude::*;
use vstd::slice::slice_subrange;

verus! {

/// The place of the last colon.
pub open spec fn last_colon(text: Seq<char>) -> Option<int>
    decreases text.len(),
{
    if text.len() == 0 {
        None
    } else if text.last() == ':' {
        Some(text.len() - 1)
    } else {
        last_colon(text.drop_last())
    }
}

/// The number that digits of either case stand for, if all of them are digits.
pub open spec fn hex_number_in(text: Seq<char>) -> Option<nat>
    decreases text.len(),
{
    if text.len() == 0 {
        Some(0)
    } else {
        match (hex_number_in(text.drop_last()), digit_number(text.last())) {
            (Some(n), Some(d)) => Some(n * 16 + d),
            _ => None,
        }
    }
}

/// The port that digits stand for. A plus sign may stand before them.
pub open spec fn port_in(text: Seq<char>) -> Option<nat> {
    let digits = if text.len() > 0 && text[0] == '+' {
        text.skip(1)
    } else {
        text
    };
    if digits.len() == 0 {
        None
    } else {
        match hex_number_in(digits) {
            Some(n) => if n <= 65535 {
                Some(n)
            } else {
                None
            },
            None => None,
        }
    }
}

/// How well an address proves who would be reached here: an exact one better than one that stands
/// for all. Other addresses prove nothing.
pub open spec fn priority_of(address: Seq<char>) -> Option<int> {
    if address == "0100007F"@ || address == "0000000000000000FFFF00000100007F"@ {
        Some(0)
    } else if address == "00000000"@ {
        Some(1)
    } else if address == "00000000000000000000000000000000"@ {
        Some(2)
    } else {
        None
    }
}

/// What a line of a table says: that an address of this port is listened on, and how well that
/// proves anything.
pub open spec fn line_priority(fields: Seq<Seq<char>>, port: u16) -> Option<int> {
    if fields.len() <= 7 || fields[3] != "0A"@ {
        None
    } else {
        match last_colon(fields[1]) {
            None => None,
            Some(i) => if port_in(fields[1].skip(i + 1)) != Some(port as nat) {
                None
            } else {
                priority_of(fields[1].take(i))
            },
        }
    }
}

/// Who listens: the owners, by how well the address proves it.
pub struct Owners {
    pub exact: Seq<nat>,
    pub any: Seq<nat>,
    pub any6: Seq<nat>,
}

/// Nobody.
pub open spec fn nobody() -> Owners {
    Owners { exact: Seq::empty(), any: Seq::empty(), any6: Seq::empty() }
}

/// Who listens, with one more line of a table.
pub open spec fn line_read(o: Owners, line: Seq<char>, port: u16) -> Result<Owners, FaultView> {
    let fields = words(line);
    match line_priority(fields, port) {
        None => Ok(o),
        Some(p) => match number(fields[7], u32::MAX as nat) {
            None => Err(other("invalid socket owner"@)),
            Some(uid) => Ok(
                if p == 0 {
                    Owners { exact: o.exact.push(uid), ..o }
                } else if p == 1 {
                    Owners { any: o.any.push(uid), ..o }
                } else {
                    Owners { any6: o.any6.push(uid), ..o }
                },
            ),
        },
    }
}

/// Who listens, after the first so many lines of a table. Its first line is a heading.
pub open spec fn table_read(o: Owners, all: Seq<Seq<char>>, count: int, port: u16) -> Result<
    Owners,
    FaultView,
>
    decreases count,
{
    if count <= 1 {
        Ok(o)
    } else {
        match table_read(o, all, count - 1, port) {
            Err(f) => Err(f),
            Ok(before) => line_read(before, all[count - 1], port),
        }
    }
}

/// Who listens, as both tables say.
pub open spec fn tables_read(tcp: Seq<char>, tcp6: Seq<char>, port: u16) -> Result<
    Owners,
    FaultView,
> {
    match table_read(nobody(), lines(tcp), lines(tcp).len() as int, port) {
        Err(f) => Err(f),
        Ok(o) => table_read(o, lines(tcp6), lines(tcp6).len() as int, port),
    }
}

/// All of them are this account.
pub open spec fn all_are(uids: Seq<nat>, uid: u32) -> bool {
    forall|i: int| 0 <= i < uids.len() ==> #[trigger] uids[i] == uid
}

/// The account owns what would be reached: the best proof there is names no other.
pub open spec fn proves(o: Owners, uid: u32) -> bool {
    if o.exact.len() > 0 {
        all_are(o.exact, uid)
    } else if o.any.len() > 0 {
        all_are(o.any, uid)
    } else {
        o.any6.len() > 0 && all_are(o.any6, uid)
    }
}

/// The owners while tables are read.
struct Found {
    exact: Vec<u32>,
    any: Vec<u32>,
    any6: Vec<u32>,
}

spec fn nats(uids: Seq<u32>) -> Seq<nat> {
    uids.map_values(|u: u32| u as nat)
}

impl Found {
    spec fn owners(self) -> Owners {
        Owners { exact: nats(self.exact@), any: nats(self.any@), any6: nats(self.any6@) }
    }
}

fn push_uid(list: &mut Vec<u32>, uid: u32)
    ensures
        nats(final(list)@) == nats(old(list)@).push(uid as nat),
{
    list.push(uid);
    assert(nats(list@) =~= nats(old(list)@).push(uid as nat));
}

fn read_port(text: &[char]) -> (r: Option<u16>)
    ensures
        match r {
            Some(p) => port_in(text@) == Some(p as nat),
            None => port_in(text@) is None,
        },
{
    let start: usize = if text.len() > 0 && text[0] == '+' {
        1
    } else {
        0
    };
    let digits = slice_subrange(text, start, text.len());
    assert(digits@ =~= if start == 1 {
        text@.skip(1)
    } else {
        text@
    });
    if digits.len() == 0 {
        return None;
    }
    let ghost all = digits@;
    let mut value: u32 = 0;
    let mut i: usize = 0;
    assert(all.take(0) =~= Seq::empty());
    while i < digits.len()
        invariant
            i <= digits.len(),
            digits@ == all,
            value <= 65535,
            all.len() > 0,
            all == if text@.len() > 0 && text@[0] == '+' {
                text@.skip(1)
            } else {
                text@
            },
            hex_number_in(all.take(i as int)) == Some(value as nat),
        decreases digits.len() - i,
    {
        assert(all.take(i + 1).drop_last() =~= all.take(i as int));
        assert(all.take(i + 1).last() == all[i as int]);
        let c = digits[i];
        let code = c as u32;
        let d: u32 = if '0' <= c && c <= '9' {
            code - 48
        } else if 'a' <= c && c <= 'f' {
            code - 87
        } else if 'A' <= c && c <= 'F' {
            code - 55
        } else {
            proof {
                number_fails(all, i + 1);
            }
            return None;
        };
        assert(digit_number(c) == Some(d as nat));
        value = value * 16 + d;
        if value > 65535 {
            proof {
                number_grows(all, i + 1);
            }
            return None;
        }
        i += 1;
    }
    assert(all.take(i as int) =~= all);
    Some(value as u16)
}

proof fn number_fails(text: Seq<char>, n: int)
    requires
        0 <= n <= text.len(),
        hex_number_in(text.take(n)) is None,
    ensures
        hex_number_in(text) is None,
    decreases text.len() - n,
{
    if n == text.len() {
        assert(text.take(n) =~= text);
    } else {
        assert(text.take(n + 1).drop_last() =~= text.take(n));
        number_fails(text, n + 1);
    }
}

proof fn number_grows(text: Seq<char>, n: int)
    requires
        0 <= n <= text.len(),
        hex_number_in(text.take(n)) is Some,
        hex_number_in(text.take(n))->0 > 65535,
    ensures
        hex_number_in(text) is None || hex_number_in(text)->0 > 65535,
    decreases text.len() - n,
{
    if n == text.len() {
        assert(text.take(n) =~= text);
    } else {
        let next = text.take(n + 1);
        assert(next.drop_last() =~= text.take(n));
        if hex_number_in(next) is Some {
            number_grows(text, n + 1);
        } else {
            number_fails(text, n + 1);
        }
    }
}

fn read_priority(fields: &Vec<Vec<char>>, port: u16) -> (r: Option<u8>)
    ensures
        match r {
            Some(p) => line_priority(deep(fields@), port) == Some(p as int) && fields@.len() > 7,
            None => line_priority(deep(fields@), port) is None,
        },
{
    let ghost all = deep(fields@);
    if fields.len() <= 7 {
        return None;
    }
    assert(all[3] == fields@[3]@ && all[1] == fields@[1]@);
    if !same(string_of(fields[3].as_slice()).as_str(), "0A") {
        return None;
    }
    let text = fields[1].as_slice();
    let ghost whole = text@;
    let mut i: usize = text.len();
    assert(whole.take(i as int) =~= whole);
    while i > 0 && text[i - 1] != ':'
        invariant
            i <= text.len(),
            text@ == whole,
            last_colon(whole) == last_colon(whole.take(i as int)),
        decreases i,
    {
        assert(whole.take(i as int).drop_last() =~= whole.take(i - 1));
        assert(whole.take(i as int).last() == whole[i - 1]);
        i -= 1;
    }
    if i == 0 {
        assert(whole.take(0) =~= Seq::empty());
        return None;
    }
    assert(whole.take(i as int).last() == whole[i - 1]);
    assert(last_colon(whole) == Some(i - 1));
    let digits = slice_subrange(text, i, text.len());
    assert(digits@ =~= whole.skip(i as int));
    let listens = match read_port(digits) {
        Some(p) => p == port,
        None => false,
    };
    if !listens {
        return None;
    }
    let address = string_of(slice_subrange(text, 0, i - 1));
    assert(address@ =~= whole.take(i - 1));
    let address = address.as_str();
    if same(address, "0100007F") || same(address, "0000000000000000FFFF00000100007F") {
        Some(0)
    } else if same(address, "00000000") {
        Some(1)
    } else if same(address, "00000000000000000000000000000000") {
        Some(2)
    } else {
        None
    }
}

proof fn fault_stays(o: Owners, all: Seq<Seq<char>>, n: int, count: int, port: u16)
    requires
        n <= count,
        table_read(o, all, n, port) is Err,
    ensures
        table_read(o, all, count, port) == table_read(o, all, n, port),
    decreases count - n,
{
    if n < count {
        fault_stays(o, all, n, count - 1, port);
    }
}

fn read_table(found: &mut Found, text: &str, port: u16) -> (r: Result<(), Fault>)
    ensures
        match r {
            Ok(()) => table_read(
                old(found).owners(),
                lines(text@),
                lines(text@).len() as int,
                port,
            ) == Ok::<Owners, FaultView>(final(found).owners()),
            Err(f) => table_read(
                old(found).owners(),
                lines(text@),
                lines(text@).len() as int,
                port,
            ) == Err::<Owners, FaultView>(f@),
        },
{
    let chars = chars_of(text);
    let all = lines_of(chars.as_slice());
    let ghost every = lines(text@);
    let ghost start = found.owners();
    if all.len() == 0 {
        return Ok(());
    }
    let mut i: usize = 1;
    while i < all.len()
        invariant
            1 <= i <= all.len(),
            deep(all@) == every,
            every == lines(text@),
            start == old(found).owners(),
            table_read(start, every, i as int, port) == Ok::<Owners, FaultView>(found.owners()),
        decreases all.len() - i,
    {
        assert(every[i as int] == all@[i as int]@);
        let fields = words_of(all[i].as_slice());
        if let Some(priority) = read_priority(&fields, port) {
            assert(deep(fields@)[7] == fields@[7]@);
            match parse_number(fields[7].as_slice(), u32::MAX as u64) {
                None => {
                    proof {
                        fault_stays(start, every, i + 1, every.len() as int, port);
                    }
                    return Err(Fault::other("invalid socket owner"));
                },
                Some(uid) => {
                    if priority == 0 {
                        push_uid(&mut found.exact, uid as u32);
                    } else if priority == 1 {
                        push_uid(&mut found.any, uid as u32);
                    } else {
                        push_uid(&mut found.any6, uid as u32);
                    }
                },
            }
        }
        i += 1;
    }
    Ok(())
}

fn are_all(uids: &Vec<u32>, uid: u32) -> (r: bool)
    ensures
        r == all_are(nats(uids@), uid),
{
    let ghost all = nats(uids@);
    let mut i: usize = 0;
    while i < uids.len()
        invariant
            i <= uids.len(),
            all == nats(uids@),
            forall|j: int| 0 <= j < i ==> #[trigger] all[j] == uid,
        decreases uids.len() - i,
    {
        if uids[i] != uid {
            assert(all[i as int] == uids@[i as int]);
            return false;
        }
        i += 1;
    }
    true
}

/// Whether the account listens on a port, as the tables of the system say.
pub fn agent_listener(tcp: &str, tcp6: &str, port: u16, uid: u32) -> (r: Result<bool, Fault>)
    ensures
        match r {
            Ok(b) => tables_read(tcp@, tcp6@, port) is Ok && b == proves(
                tables_read(tcp@, tcp6@, port)->Ok_0,
                uid,
            ),
            Err(f) => tables_read(tcp@, tcp6@, port) == Err::<Owners, FaultView>(f@),
        },
{
    let mut found = Found { exact: Vec::new(), any: Vec::new(), any6: Vec::new() };
    proof {
        assert(nats(found.exact@) =~= Seq::<nat>::empty());
        assert(nats(found.any@) =~= Seq::<nat>::empty());
        assert(nats(found.any6@) =~= Seq::<nat>::empty());
    }
    if let Err(f) = read_table(&mut found, tcp, port) {
        return Err(f);
    }
    if let Err(f) = read_table(&mut found, tcp6, port) {
        return Err(f);
    }
    Ok(
        if found.exact.len() > 0 {
            are_all(&found.exact, uid)
        } else if found.any.len() > 0 {
            are_all(&found.any, uid)
        } else {
            found.any6.len() > 0 && are_all(&found.any6, uid)
        },
    )
}

/// An address that is not the one that is reached here proves nothing, whoever listens there.
pub proof fn other_addresses_prove_nothing(o: Owners, line: Seq<char>, port: u16)
    requires
        line_priority(words(line), port) is None,
    ensures
        line_read(o, line, port) == Ok::<Owners, FaultView>(o),
{
}

/// A stranger on the exact address outweighs the account on the general one.
pub proof fn exact_addresses_come_first(o: Owners, uid: u32, i: int)
    requires
        0 <= i < o.exact.len(),
        o.exact[i] != uid,
    ensures
        !proves(o, uid),
{
}

} // verus!
