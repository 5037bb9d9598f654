//! Tables: values under text keys, kept in the order of their keys.
use crate::text::{chars_of, same};
use vstd::prelude::*;

verus! {

/// Lexicographic order by code points.
pub open spec fn before(a: Seq<char>, b: Seq<char>) -> bool
    decreases a.len(),
{
    if b.len() == 0 {
        false
    } else if a.len() == 0 {
        true
    } else if a[0] != b[0] {
        (a[0] as int) < (b[0] as int)
    } else {
        before(a.subrange(1, a.len() as int), b.subrange(1, b.len() as int))
    }
}

/// No text is before itself.
pub proof fn before_irreflexive(a: Seq<char>)
    ensures
        !before(a, a),
    decreases a.len(),
{
    if a.len() > 0 {
        before_irreflexive(a.subrange(1, a.len() as int));
    }
}

/// The order is transitive.
pub proof fn before_transitive(a: Seq<char>, b: Seq<char>, c: Seq<char>)
    requires
        before(a, b),
        before(b, c),
    ensures
        before(a, c),
    decreases a.len(),
{
    if a.len() > 0 && a[0] == b[0] && b[0] == c[0] {
        before_transitive(
            a.subrange(1, a.len() as int),
            b.subrange(1, b.len() as int),
            c.subrange(1, c.len() as int),
        );
    }
}

/// Of two texts, one is before the other or they are equal.
pub proof fn before_total(a: Seq<char>, b: Seq<char>)
    ensures
        before(a, b) || before(b, a) || a == b,
    decreases a.len(),
{
    if a.len() == 0 {
        if b.len() == 0 {
            assert(a =~= b);
        }
    } else if b.len() > 0 && a[0] == b[0] {
        let x = a.subrange(1, a.len() as int);
        let y = b.subrange(1, b.len() as int);
        before_total(x, y);
        if x == y {
            assert forall|i: int| 0 <= i < a.len() implies a[i] == b[i] by {
                if i > 0 {
                    assert(x[i - 1] == a[i] && y[i - 1] == b[i]);
                }
            }
            assert(a =~= b);
        }
    }
}

/// Whether one text is before another.
pub fn is_before(a: &str, b: &str) -> (r: bool)
    ensures
        r == before(a@, b@),
{
    let x = chars_of(a);
    let y = chars_of(b);
    let mut i: usize = 0;
    assert(x@.subrange(0, x.len() as int) =~= a@);
    assert(y@.subrange(0, y.len() as int) =~= b@);
    while i < x.len() && i < y.len()
        invariant
            i <= x.len(),
            i <= y.len(),
            before(a@, b@) == before(
                x@.subrange(i as int, x.len() as int),
                y@.subrange(i as int, y.len() as int),
            ),
        decreases x.len() - i,
    {
        if x[i] != y[i] {
            let p: char = x[i];
            let q: char = y[i];
            proof {
                vstd::utf8::char_u32_cast(p, p as u32);
                vstd::utf8::char_u32_cast(q, q as u32);
            }
            return (p as u32) < (q as u32);
        }
        proof {
            let p = x@.subrange(i as int, x.len() as int);
            let q = y@.subrange(i as int, y.len() as int);
            assert(p.subrange(1, p.len() as int) =~= x@.subrange(i + 1, x.len() as int));
            assert(q.subrange(1, q.len() as int) =~= y@.subrange(i + 1, y.len() as int));
        }
        i += 1;
    }
    i < y.len()
}

/// Values under text keys. Keys stand once each, in order.
#[derive(Debug)]
pub struct Table<T> {
    entries: Vec<(String, T)>,
}

/// The map of a sequence of entries.
spec fn entry_map<T: View>(entries: Seq<(String, T)>) -> Map<Seq<char>, T::V>
    decreases entries.len(),
{
    if entries.len() == 0 {
        Map::empty()
    } else {
        entry_map(entries.subrange(1, entries.len() as int)).insert(entries[0].0@, entries[0].1@)
    }
}

impl<T: View> View for Table<T> {
    type V = Map<Seq<char>, T::V>;

    closed spec fn view(&self) -> Map<Seq<char>, T::V> {
        entry_map(self.entries@)
    }
}

/// Each key is before the next.
pub open spec fn ascending(keys: Seq<Seq<char>>) -> bool {
    forall|i: int, j: int|
        0 <= i < j < keys.len() ==> before(#[trigger] keys[i], #[trigger] keys[j])
}

/// The keys of a map, each once, in order.
pub open spec fn is_order<V>(keys: Seq<Seq<char>>, map: Map<Seq<char>, V>) -> bool {
    &&& ascending(keys)
    &&& forall|i: int| 0 <= i < keys.len() ==> map.contains_key(#[trigger] keys[i])
    &&& forall|key: Seq<char>| #[trigger] map.contains_key(key) ==> keys.contains(key)
}

/// The keys of a map in order.
pub open spec fn in_order<V>(map: Map<Seq<char>, V>) -> Seq<Seq<char>> {
    choose|keys: Seq<Seq<char>>| is_order(keys, map)
}

/// There is only one order of the keys of a map.
pub proof fn order_is_unique<V>(a: Seq<Seq<char>>, b: Seq<Seq<char>>, map: Map<Seq<char>, V>)
    requires
        is_order(a, map),
        is_order(b, map),
    ensures
        a == b,
{
    if a.len() <= b.len() {
        order_prefix(a, b, map, a.len());
        if a.len() < b.len() {
            let key = b[a.len() as int];
            assert(map.contains_key(key));
            let j = choose|j: int| 0 <= j < a.len() && a[j] == key;
            assert(a[j] == b[j]);
            assert(before(b[j], b[a.len() as int]));
            before_irreflexive(key);
        }
    } else {
        order_prefix(a, b, map, b.len());
        let key = a[b.len() as int];
        assert(map.contains_key(key));
        let j = choose|j: int| 0 <= j < b.len() && b[j] == key;
        assert(a[j] == b[j]);
        assert(before(a[j], a[b.len() as int]));
        before_irreflexive(key);
    }
    assert(a =~= b);
}

/// The place of a new text among texts in order.
proof fn place_among(keys: Seq<Seq<char>>, key: Seq<char>) -> (p: int)
    requires
        ascending(keys),
        !keys.contains(key),
    ensures
        0 <= p <= keys.len(),
        forall|i: int| 0 <= i < p ==> before(#[trigger] keys[i], key),
        forall|i: int| p <= i < keys.len() ==> before(key, #[trigger] keys[i]),
    decreases keys.len(),
{
    if keys.len() == 0 {
        0
    } else {
        let rest = keys.drop_last();
        assert forall|x: int| 0 <= x < rest.len() implies #[trigger] rest[x] != key by {
            assert(rest[x] == keys[x]);
        }
        let last = keys.len() - 1;
        assert(keys[last] != key);
        before_total(keys[last], key);
        if before(keys[last], key) {
            assert forall|i: int| 0 <= i < keys.len() implies before(#[trigger] keys[i], key) by {
                if i < last {
                    before_transitive(keys[i], keys[last], key);
                }
            }
            keys.len() as int
        } else {
            let p = place_among(rest, key);
            assert forall|i: int| 0 <= i < p implies before(#[trigger] keys[i], key) by {
                assert(rest[i] == keys[i]);
            }
            assert forall|i: int| p <= i < keys.len() implies before(key, #[trigger] keys[i]) by {
                if i < last {
                    assert(rest[i] == keys[i]);
                }
            }
            p
        }
    }
}

/// The keys of a map can be put in order when those of the map before it could.
pub proof fn order_goes_on<V>(map: Map<Seq<char>, V>, key: Seq<char>, value: V)
    requires
        is_order(in_order(map), map),
    ensures
        is_order(in_order(map.insert(key, value)), map.insert(key, value)),
{
    let keys = in_order(map);
    let more = map.insert(key, value);
    if map.contains_key(key) {
        assert(is_order(keys, more));
    } else {
        if keys.contains(key) {
            let i = choose|i: int| 0 <= i < keys.len() && keys[i] == key;
            assert(map.contains_key(keys[i]));
        }
        let p = place_among(keys, key);
        let all = keys.insert(p, key);
        assert forall|i: int| 0 <= i < all.len() implies more.contains_key(#[trigger] all[i]) by {
            if i < p {
                assert(all[i] == keys[i]);
            } else if i > p {
                assert(all[i] == keys[i - 1]);
            }
        }
        assert forall|k: Seq<char>| #[trigger] more.contains_key(k) implies all.contains(k) by {
            if k == key {
                assert(all[p] == key);
            } else {
                assert(map.contains_key(k));
                let i = choose|i: int| 0 <= i < keys.len() && keys[i] == k;
                if i < p {
                    assert(all[i] == k);
                } else {
                    assert(all[i + 1] == k);
                }
            }
        }
        assert forall|i: int, j: int| 0 <= i < j < all.len() implies before(
            #[trigger] all[i],
            #[trigger] all[j],
        ) by {
            assert(all[i] == if i < p { keys[i] } else if i == p { key } else { keys[i - 1] });
            assert(all[j] == if j < p { keys[j] } else if j == p { key } else { keys[j - 1] });
        }
        assert(is_order(all, more));
    }
}

proof fn order_prefix<V>(
    a: Seq<Seq<char>>,
    b: Seq<Seq<char>>,
    map: Map<Seq<char>, V>,
    n: nat,
)
    requires
        is_order(a, map),
        is_order(b, map),
        n <= a.len(),
        n <= b.len(),
    ensures
        forall|i: int| 0 <= i < n ==> #[trigger] a[i] == b[i],
    decreases n,
{
    if n > 0 {
        order_prefix(a, b, map, (n - 1) as nat);
        let last = n - 1;
        order_not_after(a, b, map, last);
        order_not_after(b, a, map, last);
        if a[last] != b[last] {
            before_transitive(a[last], b[last], a[last]);
            before_irreflexive(a[last]);
        }
    }
}

proof fn order_not_after<V>(
    a: Seq<Seq<char>>,
    b: Seq<Seq<char>>,
    map: Map<Seq<char>, V>,
    n: int,
)
    requires
        is_order(a, map),
        is_order(b, map),
        0 <= n < a.len(),
        n < b.len(),
        forall|i: int| 0 <= i < n ==> #[trigger] a[i] == b[i],
    ensures
        a[n] == b[n] || before(b[n], a[n]),
{
    assert(map.contains_key(a[n]));
    let j = choose|j: int| 0 <= j < b.len() && b[j] == a[n];
    if j < n {
        assert(a[j] == b[j]);
        assert(before(a[j], a[n]));
        before_irreflexive(a[n]);
    } else if j > n {
        assert(before(b[n], b[j]));
    }
}

spec fn ordered<T>(entries: Seq<(String, T)>) -> bool {
    forall|i: int, j: int|
        0 <= i < j < entries.len() ==> before(
            (#[trigger] entries[i]).0@,
            (#[trigger] entries[j]).0@,
        )
}

spec fn keys_of<T>(entries: Seq<(String, T)>) -> Seq<Seq<char>> {
    Seq::new(entries.len(), |i: int| entries[i].0@)
}

proof fn entry_found<T: View>(entries: Seq<(String, T)>, i: int)
    requires
        ordered(entries),
        0 <= i < entries.len(),
    ensures
        entry_map(entries).contains_key(entries[i].0@),
        entry_map(entries)[entries[i].0@] == entries[i].1@,
    decreases entries.len(),
{
    if i > 0 {
        let rest = entries.subrange(1, entries.len() as int);
        assert(ordered(rest)) by {
            assert forall|a: int, b: int| 0 <= a < b < rest.len() implies before(
                (#[trigger] rest[a]).0@,
                (#[trigger] rest[b]).0@,
            ) by {
                assert(rest[a] == entries[a + 1] && rest[b] == entries[b + 1]);
            }
        }
        assert(rest[i - 1] == entries[i]);
        entry_found(rest, i - 1);
        assert(before(entries[0].0@, entries[i].0@));
        before_irreflexive(entries[i].0@);
    }
}

proof fn entry_missing<T: View>(entries: Seq<(String, T)>, key: Seq<char>)
    requires
        forall|j: int| 0 <= j < entries.len() ==> (#[trigger] entries[j]).0@ != key,
    ensures
        !entry_map(entries).contains_key(key),
    decreases entries.len(),
{
    if entries.len() > 0 {
        let rest = entries.subrange(1, entries.len() as int);
        assert forall|j: int| 0 <= j < rest.len() implies (#[trigger] rest[j]).0@ != key by {
            assert(rest[j] == entries[j + 1]);
        }
        assert(entries[0].0@ != key);
        entry_missing(rest, key);
    }
}

proof fn entry_only<T: View>(entries: Seq<(String, T)>, key: Seq<char>)
    requires
        entry_map(entries).contains_key(key),
    ensures
        exists|i: int| 0 <= i < entries.len() && (#[trigger] entries[i]).0@ == key,
{
    if forall|j: int| 0 <= j < entries.len() ==> (#[trigger] entries[j]).0@ != key {
        entry_missing(entries, key);
    }
}

proof fn entry_map_unique<T: View>(entries: Seq<(String, T)>, map: Map<Seq<char>, T::V>)
    requires
        ordered(entries),
        forall|i: int|
            0 <= i < entries.len() ==> map.contains_key((#[trigger] entries[i]).0@)
                && map[entries[i].0@] == entries[i].1@,
        forall|key: Seq<char>| #[trigger]
            map.contains_key(key) ==> exists|i: int|
                0 <= i < entries.len() && (#[trigger] entries[i]).0@ == key,
    ensures
        entry_map(entries) == map,
{
    let made = entry_map(entries);
    assert forall|key: Seq<char>| #[trigger] made.contains_key(key) implies map.contains_key(key)
        && map[key] == made[key] by {
        entry_only(entries, key);
        let i = choose|i: int| 0 <= i < entries.len() && (#[trigger] entries[i]).0@ == key;
        entry_found(entries, i);
    }
    assert forall|key: Seq<char>| #[trigger] map.contains_key(key) implies made.contains_key(
        key,
    ) by {
        let i = choose|i: int| 0 <= i < entries.len() && (#[trigger] entries[i]).0@ == key;
        entry_found(entries, i);
    }
    assert(made =~= map);
}

proof fn entries_in_order<T: View>(entries: Seq<(String, T)>)
    requires
        ordered(entries),
    ensures
        is_order(keys_of(entries), entry_map(entries)),
        in_order(entry_map(entries)) == keys_of(entries),
{
    let keys = keys_of(entries);
    let map = entry_map(entries);
    assert forall|i: int| 0 <= i < keys.len() implies map.contains_key(#[trigger] keys[i]) by {
        entry_found(entries, i);
    }
    assert forall|key: Seq<char>| #[trigger] map.contains_key(key) implies keys.contains(key) by {
        entry_only(entries, key);
        let i = choose|i: int| 0 <= i < entries.len() && (#[trigger] entries[i]).0@ == key;
        assert(keys[i] == key);
    }
    assert(is_order(keys, map));
    order_is_unique(in_order(map), keys, map);
}

fn seek<T>(entries: &Vec<(String, T)>, key: &str) -> (r: usize)
    requires
        ordered(entries@),
    ensures
        r <= entries@.len(),
        forall|j: int| 0 <= j < r ==> before((#[trigger] entries@[j]).0@, key@),
        forall|j: int|
            r <= j < entries@.len() ==> (#[trigger] entries@[j]).0@ == key@ || before(
                key@,
                entries@[j].0@,
            ),
        forall|j: int| r < j < entries@.len() ==> (#[trigger] entries@[j]).0@ != key@,
{
    let mut i: usize = 0;
    while i < entries.len() && is_before(entries[i].0.as_str(), key)
        invariant
            i <= entries@.len(),
            forall|j: int| 0 <= j < i ==> before((#[trigger] entries@[j]).0@, key@),
        decreases entries.len() - i,
    {
        i += 1;
    }
    proof {
        assert forall|j: int| i <= j < entries@.len() implies (#[trigger] entries@[j]).0@ == key@
            || before(key@, entries@[j].0@) by {
            let k = entries@[i as int].0@;
            before_total(k, key@);
            if j > i {
                assert(before(k, entries@[j].0@));
                if k != key@ {
                    before_transitive(key@, k, entries@[j].0@);
                }
            }
        }
        assert forall|j: int| i < j < entries@.len() implies (#[trigger] entries@[j]).0@
            != key@ by {
            let k = entries@[i as int].0@;
            before_irreflexive(key@);
            assert(before(k, entries@[j].0@));
        }
    }
    i
}

fn place<T: View>(entries: &mut Vec<(String, T)>, key: &str, value: T)
    requires
        ordered(old(entries)@),
    ensures
        ordered(final(entries)@),
        entry_map(final(entries)@) == entry_map(old(entries)@).insert(key@, value@),
{
    let ghost was = entries@;
    let i = seek(entries, key);
    let entry = (key.to_owned(), value);
    let ghost put = entry;
    let ghost map = entry_map(was).insert(key@, entry.1@);
    proof {
        assert forall|j: int| 0 <= j < was.len() implies entry_map(was).contains_key(
            (#[trigger] was[j]).0@,
        ) && entry_map(was)[was[j].0@] == was[j].1@ by {
            entry_found(was, j);
        }
        before_irreflexive(key@);
    }
    if i < entries.len() && same(entries[i].0.as_str(), key) {
        entries.set(i, entry);
        proof {
            let now = entries@;
            assert(now =~= was.update(i as int, put));
            assert(ordered(now)) by {
                assert forall|a: int, b: int| 0 <= a < b < now.len() implies before(
                    (#[trigger] now[a]).0@,
                    (#[trigger] now[b]).0@,
                ) by {
                    assert(before(was[a].0@, was[b].0@));
                }
            }
            assert forall|j: int| 0 <= j < now.len() implies map.contains_key(
                (#[trigger] now[j]).0@,
            ) && map[now[j].0@] == now[j].1@ by {
                if j != i {
                    assert(now[j] == was[j]);
                    assert(was[j].0@ != key@);
                }
            }
            assert forall|k: Seq<char>| #[trigger] map.contains_key(k) implies exists|j: int|
                0 <= j < now.len() && (#[trigger] now[j]).0@ == k by {
                if k == key@ {
                    assert(now[i as int].0@ == k);
                } else {
                    entry_only(was, k);
                    let j = choose|j: int| 0 <= j < was.len() && (#[trigger] was[j]).0@ == k;
                    assert(now[j] == was[j]);
                }
            }
            entry_map_unique(now, map);
        }
    } else {
        entries.insert(i, entry);
        proof {
            let now = entries@;
            assert(now =~= was.insert(i as int, put));
            assert forall|j: int| 0 <= j < was.len() implies (#[trigger] was[j]).0@ != key@ by {
                if j == i {
                    assert(was[j].0@ == now[i + 1].0@);
                }
            }
            assert(ordered(now)) by {
                assert forall|a: int, b: int| 0 <= a < b < now.len() implies before(
                    (#[trigger] now[a]).0@,
                    (#[trigger] now[b]).0@,
                ) by {
                    let p = if a < i {
                        a
                    } else {
                        a - 1
                    };
                    let q = if b < i {
                        b
                    } else {
                        b - 1
                    };
                    if a != i && b != i {
                        assert(now[a] == was[p] && now[b] == was[q]);
                        assert(before(was[p].0@, was[q].0@));
                    } else if a == i {
                        assert(now[b] == was[q]);
                    } else {
                        assert(now[a] == was[p]);
                    }
                }
            }
            assert forall|j: int| 0 <= j < now.len() implies map.contains_key(
                (#[trigger] now[j]).0@,
            ) && map[now[j].0@] == now[j].1@ by {
                if j < i {
                    assert(now[j] == was[j]);
                } else if j > i {
                    assert(now[j] == was[j - 1]);
                }
            }
            assert forall|k: Seq<char>| #[trigger] map.contains_key(k) implies exists|j: int|
                0 <= j < now.len() && (#[trigger] now[j]).0@ == k by {
                if k == key@ {
                    assert(now[i as int].0@ == k);
                } else {
                    entry_only(was, k);
                    let j = choose|j: int| 0 <= j < was.len() && (#[trigger] was[j]).0@ == k;
                    if j < i {
                        assert(now[j] == was[j]);
                    } else {
                        assert(now[j + 1] == was[j]);
                    }
                }
            }
            entry_map_unique(now, map);
        }
    }
}

fn drop_at<T: View>(entries: &mut Vec<(String, T)>, i: usize) -> (r: T)
    requires
        ordered(old(entries)@),
        i < old(entries)@.len(),
    ensures
        ordered(final(entries)@),
        entry_map(final(entries)@) == entry_map(old(entries)@).remove(old(entries)@[i as int].0@),
        r == old(entries)@[i as int].1,
{
    let ghost was = entries@;
    let ghost key = was[i as int].0@;
    let ghost map = entry_map(was).remove(key);
    let entry = entries.remove(i);
    proof {
        let now = entries@;
        assert(now =~= was.remove(i as int));
        assert(ordered(now)) by {
            assert forall|a: int, b: int| 0 <= a < b < now.len() implies before(
                (#[trigger] now[a]).0@,
                (#[trigger] now[b]).0@,
            ) by {
                let p = if a < i {
                    a
                } else {
                    a + 1
                };
                let q = if b < i {
                    b
                } else {
                    b + 1
                };
                assert(now[a] == was[p] && now[b] == was[q]);
                assert(before(was[p].0@, was[q].0@));
            }
        }
        assert forall|j: int| 0 <= j < now.len() implies map.contains_key((#[trigger] now[j]).0@)
            && map[now[j].0@] == now[j].1@ by {
            let p = if j < i {
                j
            } else {
                j + 1
            };
            assert(now[j] == was[p]);
            entry_found(was, p);
            before_irreflexive(key);
            if p < i {
                assert(before(was[p].0@, was[i as int].0@));
            } else {
                assert(before(was[i as int].0@, was[p].0@));
            }
        }
        assert forall|k: Seq<char>| #[trigger] map.contains_key(k) implies exists|j: int|
            0 <= j < now.len() && (#[trigger] now[j]).0@ == k by {
            entry_only(was, k);
            let j = choose|j: int| 0 <= j < was.len() && (#[trigger] was[j]).0@ == k;
            if j < i {
                assert(now[j] == was[j]);
            } else {
                assert(now[j - 1] == was[j]);
            }
        }
        entry_map_unique(now, map);
    }
    entry.1
}

impl<T> Table<T> {
    #[verifier::type_invariant]
    spec fn wf(self) -> bool {
        ordered(self.entries@)
    }
}

impl<T: View> Table<T> {
    /// No entries.
    pub fn new() -> (r: Table<T>)
        ensures
            r@ == Map::<Seq<char>, T::V>::empty(),
    {
        Table { entries: Vec::new() }
    }

    /// The number of entries.
    pub fn len(&self) -> (r: usize)
        ensures
            r == in_order(self@).len(),
            is_order(in_order(self@), self@),
    {
        proof {
            use_type_invariant(&*self);
            entries_in_order(self.entries@);
        }
        self.entries.len()
    }

    /// The key at a position in the order of keys.
    pub fn key_at(&self, i: usize) -> (r: &str)
        requires
            i < in_order(self@).len(),
        ensures
            r@ == in_order(self@)[i as int],
            self@.contains_key(r@),
    {
        proof {
            use_type_invariant(&*self);
            entries_in_order(self.entries@);
            entry_found(self.entries@, i as int);
        }
        self.entries[i].0.as_str()
    }

    /// The value at a position in the order of keys.
    pub fn value_at(&self, i: usize) -> (r: &T)
        requires
            i < in_order(self@).len(),
        ensures
            r@ == self@[in_order(self@)[i as int]],
            self@.contains_key(in_order(self@)[i as int]),
    {
        proof {
            use_type_invariant(&*self);
            entries_in_order(self.entries@);
            entry_found(self.entries@, i as int);
        }
        &self.entries[i].1
    }

    fn position(&self, key: &str) -> (r: Option<usize>)
        ensures
            match r {
                Some(i) => i < self.entries@.len() && self.entries@[i as int].0@ == key@
                    && self@.contains_key(key@) && self@[key@] == self.entries@[i as int].1@,
                None => !self@.contains_key(key@),
            },
    {
        proof {
            use_type_invariant(&*self);
        }
        let i = seek(&self.entries, key);
        if i < self.entries.len() && same(self.entries[i].0.as_str(), key) {
            proof {
                entry_found(self.entries@, i as int);
            }
            return Some(i);
        }
        proof {
            assert forall|j: int| 0 <= j < self.entries@.len() implies (
            #[trigger] self.entries@[j]).0@ != key@ by {
                if j < i {
                    before_irreflexive(key@);
                }
            }
            entry_missing(self.entries@, key@);
        }
        None
    }

    /// The value under a key.
    pub fn get(&self, key: &str) -> (r: Option<&T>)
        ensures
            match r {
                Some(v) => self@.contains_key(key@) && self@[key@] == v@,
                None => !self@.contains_key(key@),
            },
    {
        match self.position(key) {
            Some(i) => Some(&self.entries[i].1),
            None => None,
        }
    }

    /// Whether there is a value under a key.
    pub fn contains(&self, key: &str) -> (r: bool)
        ensures
            r == self@.contains_key(key@),
    {
        self.position(key).is_some()
    }

    /// Puts a value under a key.
    pub fn insert(&mut self, key: &str, value: T)
        ensures
            final(self)@ == old(self)@.insert(key@, value@),
    {
        proof {
            use_type_invariant(&*self);
        }
        let mut entries: Vec<(String, T)> = Vec::new();
        core::mem::swap(&mut self.entries, &mut entries);
        place(&mut entries, key, value);
        self.entries = entries;
    }

    /// Takes the value under a key out.
    pub fn remove(&mut self, key: &str) -> (r: Option<T>)
        ensures
            match r {
                Some(v) => old(self)@.contains_key(key@) && old(self)@[key@] == v@ && final(self)@
                    == old(self)@.remove(key@),
                None => !old(self)@.contains_key(key@) && final(self)@ == old(self)@,
            },
    {
        proof {
            use_type_invariant(&*self);
        }
        match self.position(key) {
            Some(i) => {
                let mut entries: Vec<(String, T)> = Vec::new();
                core::mem::swap(&mut self.entries, &mut entries);
                let value = drop_at(&mut entries, i);
                self.entries = entries;
                Some(value)
            },
            None => None,
        }
    }

    /// Whether there are no entries.
    pub fn is_empty(&self) -> (r: bool)
        ensures
            r == (self@ == Map::<Seq<char>, T::V>::empty()),
    {
        proof {
            use_type_invariant(&*self);
            if self.entries@.len() > 0 {
                entry_found(self.entries@, 0);
            }
        }
        self.entries.len() == 0
    }
}

} // verus!
