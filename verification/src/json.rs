//! JSON values: what harnesses, clients and saved records exchange.
use crate::table::{in_order, is_order, Table};
use crate::text::same;
use crate::wire::Double;
use vstd::prelude::*;

verus! {

/// The mathematical value of a JSON number.
pub enum Number {
    /// An integer from zero up.
    Unsigned(u64),
    /// An integer below zero.
    Negative(i64),
    /// The bits of a number that was not written as an integer.
    Double(u64),
}

/// A JSON number.
#[derive(Debug)]
pub enum Numeral {
    Unsigned(u64),
    Negative(Negative),
    Double(Double),
}

impl View for Numeral {
    type V = Number;

    open spec fn view(&self) -> Number {
        match self {
            Numeral::Unsigned(n) => Number::Unsigned(*n),
            Numeral::Negative(n) => Number::Negative(n@),
            Numeral::Double(d) => Number::Double(d@),
        }
    }
}

impl Numeral {
    /// A copy.
    pub fn duplicate(&self) -> (r: Numeral)
        ensures
            r@ == self@,
    {
        match self {
            Numeral::Unsigned(n) => Numeral::Unsigned(*n),
            Numeral::Negative(n) => Numeral::Negative(*n),
            Numeral::Double(d) => Numeral::Double(d.duplicate()),
        }
    }

    /// Whether two numbers are equal.
    pub fn same(&self, other: &Numeral) -> (r: bool)
        ensures
            r == alike(Data::Number(self@), Data::Number(other@)),
    {
        match (self, other) {
            (Numeral::Unsigned(a), Numeral::Unsigned(b)) => *a == *b,
            (Numeral::Negative(a), Numeral::Negative(b)) => a.value() == b.value(),
            (Numeral::Double(a), Numeral::Double(b)) => {
                let x = a.bits();
                let y = b.bits();
                x == y || ((x == 0 || x == 0x8000_0000_0000_0000) && (y == 0 || y
                    == 0x8000_0000_0000_0000))
            },
            _ => false,
        }
    }
}

/// An integer below zero.
#[derive(Clone, Copy, Debug)]
pub struct Negative {
    value: i64,
}

impl View for Negative {
    type V = i64;

    closed spec fn view(&self) -> i64 {
        self.value
    }
}

impl Negative {
    #[verifier::type_invariant]
    spec fn below_zero(self) -> bool {
        self.value < 0
    }

    /// The integer below zero.
    pub fn new(value: i64) -> (r: Negative)
        requires
            value < 0,
        ensures
            r@ == value,
    {
        Negative { value }
    }

    /// The integer.
    pub fn value(&self) -> (r: i64)
        ensures
            r == self@,
            r < 0,
    {
        proof {
            use_type_invariant(self);
        }
        self.value
    }
}

/// A JSON value.
#[derive(Debug)]
pub enum Json {
    Null,
    Bool(bool),
    Number(Numeral),
    Text(String),
    Array(Vec<Json>),
    Object(Fields),
}

/// The members of a JSON object. A key that stands more than once counts where it stands first.
#[derive(Debug)]
pub struct Fields {
    pub entries: Vec<(String, Json)>,
}

/// The mathematical value of a JSON value. An object is a map: the order of its members does not
/// matter.
pub enum Data {
    Null,
    Bool(bool),
    Number(Number),
    Text(Seq<char>),
    Array(Seq<Data>),
    Object(Map<Seq<char>, Data>),
}

/// The bits of zero, with either sign.
pub open spec fn zero_bits(bits: u64) -> bool {
    bits == 0 || bits == 0x8000_0000_0000_0000
}

/// Two values are equal: they hold the same, but for the sign of a zero that is not an integer.
pub open spec fn alike(a: Data, b: Data) -> bool
    decreases a,
{
    match (a, b) {
        (Data::Number(Number::Double(x)), Data::Number(Number::Double(y))) => x == y || (zero_bits(
            x,
        ) && zero_bits(y)),
        (Data::Array(x), Data::Array(y)) => x.len() == y.len() && forall|i: int|
            0 <= i < x.len() ==> alike(#[trigger] x[i], y[i]),
        (Data::Object(x), Data::Object(y)) => x.dom() == y.dom() && forall|key: Seq<char>| #[trigger]
            x.contains_key(key) ==> alike(x[key], y[key]),
        _ => a == b,
    }
}

/// Every value is equal to itself.
pub proof fn values_are_alike(a: Data)
    ensures
        alike(a, a),
    decreases a,
{
    match a {
        Data::Array(x) => {
            assert forall|i: int| 0 <= i < x.len() implies alike(#[trigger] x[i], x[i]) by {
                values_are_alike(x[i]);
            }
        },
        Data::Object(x) => {
            assert forall|key: Seq<char>| #[trigger] x.contains_key(key) implies alike(
                x[key],
                x[key],
            ) by {
                values_are_alike(x[key]);
            }
        },
        _ => {},
    }
}

/// The map of a sequence of members.
pub open spec fn members(entries: Seq<(String, Json)>) -> Map<Seq<char>, Data>
    decreases entries,
{
    if entries.len() == 0 {
        Map::empty()
    } else {
        members(entries.subrange(1, entries.len() as int)).insert(
            entries[0].0@,
            entries[0].1.data(),
        )
    }
}

/// The values of a sequence.
pub open spec fn values(items: Seq<Json>) -> Seq<Data>
    decreases items,
{
    Seq::new(
        items.len(),
        |i: int|
            if 0 <= i < items.len() {
                items[i].data()
            } else {
                Data::Null
            },
    )
}

impl Json {
    /// The mathematical value.
    pub open spec fn data(self) -> Data
        decreases self,
    {
        match self {
            Json::Null => Data::Null,
            Json::Bool(b) => Data::Bool(b),
            Json::Number(n) => Data::Number(n@),
            Json::Text(t) => Data::Text(t@),
            Json::Array(items) => Data::Array(values(items@)),
            Json::Object(fields) => Data::Object(members(fields.entries@)),
        }
    }
}

impl View for Json {
    type V = Data;

    open spec fn view(&self) -> Data {
        self.data()
    }
}

impl View for Fields {
    type V = Map<Seq<char>, Data>;

    open spec fn view(&self) -> Map<Seq<char>, Data> {
        members(self.entries@)
    }
}

impl Data {
    /// The member under a key.
    pub open spec fn get(self, key: Seq<char>) -> Option<Data> {
        match self {
            Data::Object(m) => if m.contains_key(key) {
                Some(m[key])
            } else {
                None
            },
            _ => None,
        }
    }

    /// The member under a key, or null where there is none.
    pub open spec fn field(self, key: Seq<char>) -> Data {
        match self.get(key) {
            Some(v) => v,
            None => Data::Null,
        }
    }

    /// The characters of a string.
    pub open spec fn as_text(self) -> Option<Seq<char>> {
        match self {
            Data::Text(t) => Some(t),
            _ => None,
        }
    }

    /// The characters of a string, or none at all.
    pub open spec fn text_or_empty(self) -> Seq<char> {
        match self {
            Data::Text(t) => t,
            _ => Seq::empty(),
        }
    }

    /// An integer from zero up.
    pub open spec fn as_u64(self) -> Option<u64> {
        match self {
            Data::Number(Number::Unsigned(n)) => Some(n),
            _ => None,
        }
    }

    /// An integer.
    pub open spec fn as_i64(self) -> Option<i64> {
        match self {
            Data::Number(Number::Unsigned(n)) => if n <= i64::MAX {
                Some(n as i64)
            } else {
                None
            },
            Data::Number(Number::Negative(n)) => Some(n),
            _ => None,
        }
    }

    /// The items of an array.
    pub open spec fn as_array(self) -> Option<Seq<Data>> {
        match self {
            Data::Array(items) => Some(items),
            _ => None,
        }
    }

    /// The items of an array, or none at all.
    pub open spec fn items(self) -> Seq<Data> {
        match self {
            Data::Array(items) => items,
            _ => Seq::empty(),
        }
    }

    /// Exactly `true`.
    pub open spec fn is_true(self) -> bool {
        self == Data::Bool(true)
    }

    /// Exactly `false`.
    pub open spec fn is_false(self) -> bool {
        self == Data::Bool(false)
    }

    /// Exactly the given string.
    pub open spec fn is_text(self, text: Seq<char>) -> bool {
        self == Data::Text(text)
    }

    /// Objects, and null, which becomes an object when a member is set.
    pub open spec fn takes_fields(self) -> bool {
        self is Object || self is Null
    }

    /// The value with a member set.
    pub open spec fn with(self, key: Seq<char>, value: Data) -> Data {
        match self {
            Data::Object(m) => Data::Object(m.insert(key, value)),
            Data::Null => Data::Object(Map::empty().insert(key, value)),
            _ => self,
        }
    }
}

/// A string, or null for none.
pub open spec fn opt_text(text: Option<Seq<char>>) -> Data {
    match text {
        Some(t) => Data::Text(t),
        None => Data::Null,
    }
}

/// An integer from zero up.
pub open spec fn uint(n: u64) -> Data {
    Data::Number(Number::Unsigned(n))
}

/// An integer, or null for none.
pub open spec fn opt_uint(n: Option<u64>) -> Data {
    match n {
        Some(n) => uint(n),
        None => Data::Null,
    }
}

/// The position at which a key stands first.
pub open spec fn first_of(entries: Seq<(String, Json)>, key: Seq<char>, i: int) -> bool {
    &&& 0 <= i < entries.len()
    &&& entries[i].0@ == key
    &&& forall|j: int| 0 <= j < i ==> (#[trigger] entries[j]).0@ != key
}

proof fn members_found(entries: Seq<(String, Json)>, key: Seq<char>, i: int)
    requires
        first_of(entries, key, i),
    ensures
        members(entries).contains_key(key),
        members(entries)[key] == entries[i].1.data(),
    decreases entries.len(),
{
    if i > 0 {
        let rest = entries.subrange(1, entries.len() as int);
        assert forall|j: int| 0 <= j < i - 1 implies (#[trigger] rest[j]).0@ != key by {
            assert(rest[j] == entries[j + 1]);
        }
        assert(entries[0].0@ != key);
        members_found(rest, key, i - 1);
    }
}

proof fn members_missing(entries: Seq<(String, Json)>, key: Seq<char>)
    requires
        forall|j: int| 0 <= j < entries.len() ==> (#[trigger] entries[j]).0@ != key,
    ensures
        !members(entries).contains_key(key),
    decreases entries.len(),
{
    if entries.len() > 0 {
        let rest = entries.subrange(1, entries.len() as int);
        assert forall|j: int| 0 <= j < rest.len() implies (#[trigger] rest[j]).0@ != key by {
            assert(rest[j] == entries[j + 1]);
        }
        assert(entries[0].0@ != key);
        members_missing(rest, key);
    }
}

proof fn members_updated(entries: Seq<(String, Json)>, i: int, entry: (String, Json))
    requires
        first_of(entries, entry.0@, i),
    ensures
        members(entries.update(i, entry)) == members(entries).insert(entry.0@, entry.1.data()),
    decreases entries.len(),
{
    let next = entries.update(i, entry);
    let rest = entries.subrange(1, entries.len() as int);
    if i == 0 {
        assert(next.subrange(1, next.len() as int) =~= rest);
        assert(members(next) =~= members(entries).insert(entry.0@, entry.1.data()));
    } else {
        assert forall|j: int| 0 <= j < i - 1 implies (#[trigger] rest[j]).0@ != entry.0@ by {
            assert(rest[j] == entries[j + 1]);
        }
        members_updated(rest, i - 1, entry);
        assert(next.subrange(1, next.len() as int) =~= rest.update(i - 1, entry));
        assert(entries[0].0@ != entry.0@);
        assert(next[0] == entries[0]);
        assert(members(next) =~= members(entries).insert(entry.0@, entry.1.data()));
    }
}

proof fn members_pushed(entries: Seq<(String, Json)>, entry: (String, Json))
    requires
        forall|j: int| 0 <= j < entries.len() ==> (#[trigger] entries[j]).0@ != entry.0@,
    ensures
        members(entries.push(entry)) == members(entries).insert(entry.0@, entry.1.data()),
    decreases entries.len(),
{
    let next = entries.push(entry);
    if entries.len() == 0 {
        assert(next.subrange(1, next.len() as int) =~= entries);
    } else {
        let rest = entries.subrange(1, entries.len() as int);
        assert forall|j: int| 0 <= j < rest.len() implies (#[trigger] rest[j]).0@ != entry.0@ by {
            assert(rest[j] == entries[j + 1]);
        }
        members_pushed(rest, entry);
        assert(next.subrange(1, next.len() as int) =~= rest.push(entry));
        assert(entries[0].0@ != entry.0@);
        assert(next[0] == entries[0]);
        assert(members(next) =~= members(entries).insert(entry.0@, entry.1.data()));
    }
}

impl Fields {
    /// No members.
    pub fn new() -> (r: Fields)
        ensures
            r@ == Map::<Seq<char>, Data>::empty(),
    {
        Fields { entries: Vec::new() }
    }

    /// The position of a key, with what it says of the map.
    pub fn position(&self, key: &str) -> (r: Option<usize>)
        ensures
            match r {
                Some(i) => first_of(self.entries@, key@, i as int) && self@.contains_key(key@)
                    && self@[key@] == self.entries@[i as int].1@,
                None => !self@.contains_key(key@) && forall|j: int|
                    0 <= j < self.entries@.len() ==> (#[trigger] self.entries@[j]).0@ != key@,
            },
    {
        let mut i: usize = 0;
        while i < self.entries.len()
            invariant
                i <= self.entries.len(),
                forall|j: int| 0 <= j < i ==> (#[trigger] self.entries@[j]).0@ != key@,
            decreases self.entries.len() - i,
        {
            if same(self.entries[i].0.as_str(), key) {
                proof {
                    members_found(self.entries@, key@, i as int);
                }
                return Some(i);
            }
            i += 1;
        }
        proof {
            members_missing(self.entries@, key@);
        }
        None
    }

    /// The member under a key.
    pub fn get(&self, key: &str) -> (r: Option<&Json>)
        ensures
            match r {
                Some(j) => self@.contains_key(key@) && self@[key@] == j@,
                None => !self@.contains_key(key@),
            },
    {
        match self.position(key) {
            Some(i) => Some(&self.entries[i].1),
            None => None,
        }
    }

    /// Sets a member.
    pub fn set(&mut self, key: &str, value: Json)
        ensures
            final(self)@ == old(self)@.insert(key@, value@),
    {
        match self.position(key) {
            Some(i) => {
                let entry = (key.to_owned(), value);
                proof {
                    members_updated(self.entries@, i as int, entry);
                }
                self.entries.set(i, entry);
            },
            None => {
                let entry = (key.to_owned(), value);
                proof {
                    members_pushed(self.entries@, entry);
                }
                self.entries.push(entry);
            },
        }
    }

    /// The members with one more.
    pub fn with(self, key: &str, value: Json) -> (r: Fields)
        ensures
            r@ == self@.insert(key@, value@),
    {
        let mut out = self;
        out.set(key, value);
        out
    }

    /// The members with one more string.
    pub fn with_text(self, key: &str, text: &str) -> (r: Fields)
        ensures
            r@ == self@.insert(key@, Data::Text(text@)),
    {
        self.with(key, Json::Text(text.to_owned()))
    }
}

/// No members yet.
pub fn object() -> (r: Fields)
    ensures
        r@ == Map::<Seq<char>, Data>::empty(),
{
    Fields::new()
}

impl Json {
    /// A string.
    pub fn text(text: &str) -> (r: Json)
        ensures
            r@ == Data::Text(text@),
    {
        Json::Text(text.to_owned())
    }

    /// A string, or null for none.
    pub fn opt_text(text: Option<&str>) -> (r: Json)
        ensures
            r@ == opt_text(crate::text::opt_str(text)),
    {
        match text {
            Some(t) => Json::Text(t.to_owned()),
            None => Json::Null,
        }
    }

    /// An integer from zero up.
    pub fn uint(n: u64) -> (r: Json)
        ensures
            r@ == uint(n),
    {
        Json::Number(Numeral::Unsigned(n))
    }

    /// An integer, where there is one.
    pub fn opt_int(n: Option<i32>) -> (r: Json)
        ensures
            r@ == opt_int(n),
    {
        match n {
            None => Json::Null,
            Some(n) => if n >= 0 {
                Json::uint(n as u64)
            } else {
                Json::Number(Numeral::Negative(Negative::new(n as i64)))
            },
        }
    }

    /// An integer, or null for none.
    pub fn opt_uint(n: Option<u64>) -> (r: Json)
        ensures
            r@ == opt_uint(n),
    {
        match n {
            Some(n) => Json::Number(Numeral::Unsigned(n)),
            None => Json::Null,
        }
    }

    /// The member under a key.
    pub fn get(&self, key: &str) -> (r: Option<&Json>)
        ensures
            match r {
                Some(j) => self@.get(key@) == Some(j@),
                None => self@.get(key@) is None,
            },
    {
        match self {
            Json::Object(fields) => fields.get(key),
            _ => None,
        }
    }

    /// The member under a key, or null where there is none.
    pub fn field(&self, key: &str) -> (r: &Json)
        ensures
            r@ == self@.field(key@),
    {
        match self.get(key) {
            Some(j) => j,
            None => &Json::Null,
        }
    }

    /// The characters of a string.
    pub fn as_text(&self) -> (r: Option<&str>)
        ensures
            crate::text::opt_str(r) == self@.as_text(),
    {
        match self {
            Json::Text(t) => Some(t.as_str()),
            _ => None,
        }
    }

    /// The characters of a string, or none at all.
    pub fn text_or_empty(&self) -> (r: &str)
        ensures
            r@ == self@.text_or_empty(),
    {
        match self {
            Json::Text(t) => t.as_str(),
            _ => {
                proof {
                    reveal_strlit("");
                    assert(""@ =~= Seq::<char>::empty());
                }
                ""
            },
        }
    }

    /// An integer from zero up.
    pub fn as_u64(&self) -> (r: Option<u64>)
        ensures
            r == self@.as_u64(),
    {
        match self {
            Json::Number(Numeral::Unsigned(n)) => Some(*n),
            _ => None,
        }
    }

    /// An integer.
    pub fn as_i64(&self) -> (r: Option<i64>)
        ensures
            r == self@.as_i64(),
    {
        match self {
            Json::Number(Numeral::Unsigned(n)) => if *n <= i64::MAX as u64 {
                Some(*n as i64)
            } else {
                None
            },
            Json::Number(Numeral::Negative(n)) => Some(n.value()),
            _ => None,
        }
    }

    /// Whether the value is null.
    pub fn is_null(&self) -> (r: bool)
        ensures
            r == (self@ == Data::Null),
    {
        match self {
            Json::Null => true,
            _ => false,
        }
    }

    /// Whether the value is exactly `true`.
    pub fn is_true(&self) -> (r: bool)
        ensures
            r == self@.is_true(),
    {
        match self {
            Json::Bool(b) => *b,
            _ => false,
        }
    }

    /// Whether the value is exactly `false`.
    pub fn is_false(&self) -> (r: bool)
        ensures
            r == self@.is_false(),
    {
        match self {
            Json::Bool(b) => !*b,
            _ => false,
        }
    }

    /// Whether the value is exactly the given string.
    pub fn is_text(&self, text: &str) -> (r: bool)
        ensures
            r == self@.is_text(text@),
    {
        match self {
            Json::Text(t) => same(t.as_str(), text),
            _ => false,
        }
    }

    /// Whether the member under a key is exactly the given string.
    pub fn field_is(&self, key: &str, text: &str) -> (r: bool)
        ensures
            r == self@.field(key@).is_text(text@),
    {
        self.field(key).is_text(text)
    }

    /// The string under a key.
    pub fn field_text(&self, key: &str) -> (r: Option<&str>)
        ensures
            crate::text::opt_str(r) == self@.field(key@).as_text(),
    {
        self.field(key).as_text()
    }

    /// Sets a member of an object, or makes null the object of that member.
    pub fn set(&mut self, key: &str, value: Json)
        requires
            old(self)@.takes_fields(),
        ensures
            final(self)@ == old(self)@.with(key@, value@),
    {
        let mut whole = Json::Null;
        core::mem::swap(self, &mut whole);
        match whole {
            Json::Object(fields) => {
                *self = Json::Object(fields.with(key, value));
            },
            _ => {
                *self = Json::Object(object().with(key, value));
            },
        }
    }

    /// Sets a member of an object, or of null, which becomes an object; anything else stays as it
    /// is.
    pub fn put(&mut self, key: &str, value: Json)
        ensures
            final(self)@ == old(self)@.with(key@, value@),
    {
        if self.is_null() || self.as_object().is_some() {
            self.set(key, value);
        }
    }

    /// An array of one item.
    pub fn one(item: Json) -> (r: Json)
        ensures
            r@ == Data::Array(seq![item@]),
    {
        let mut items: Vec<Json> = Vec::new();
        items.push(item);
        assert(values(items@) =~= seq![item@]);
        Json::Array(items)
    }

    /// The items of an array.
    pub fn as_array(&self) -> (r: Option<&Vec<Json>>)
        ensures
            match r {
                Some(items) => self@.as_array() == Some(values(items@)),
                None => self@.as_array() is None,
            },
    {
        match self {
            Json::Array(items) => Some(items),
            _ => None,
        }
    }

    /// The items of an array; none of anything else.
    pub fn items(&self) -> (r: &[Json])
        ensures
            values(r@) == self@.items(),
    {
        match self {
            Json::Array(items) => items.as_slice(),
            _ => {
                let none: &[Json] = &[];
                assert(values(none@) =~= Seq::<Data>::empty());
                none
            },
        }
    }

    /// The members of an object.
    pub fn as_object(&self) -> (r: Option<&Fields>)
        ensures
            match r {
                Some(fields) => self@ == Data::Object(fields@),
                None => !(self@ is Object),
            },
    {
        match self {
            Json::Object(fields) => Some(fields),
            _ => None,
        }
    }

    /// A copy.
    pub fn duplicate(&self) -> (r: Json)
        ensures
            r@ == self@,
        decreases self,
    {
        match self {
            Json::Null => Json::Null,
            Json::Bool(b) => Json::Bool(*b),
            Json::Number(n) => Json::Number(n.duplicate()),
            Json::Text(t) => Json::Text(t.clone()),
            Json::Array(items) => {
                let mut out: Vec<Json> = Vec::new();
                let mut i: usize = 0;
                while i < items.len()
                    invariant
                        i <= items.len(),
                        out.len() == i,
                        *self == Json::Array(*items),
                        forall|j: int| 0 <= j < i ==> (#[trigger] out@[j]).data() == items@[j].data(),
                    decreases items.len() - i,
                {
                    proof {
                        item_is_smaller(*self, *items, i as int);
                    }
                    let copied = items[i].duplicate();
                    out.push(copied);
                    i += 1;
                }
                assert(values(out@) =~= values(items@));
                Json::Array(out)
            },
            Json::Object(fields) => {
                let mut out: Vec<(String, Json)> = Vec::new();
                let entries: &Vec<(String, Json)> = &fields.entries;
                let mut i: usize = 0;
                while i < entries.len()
                    invariant
                        i <= entries.len(),
                        out.len() == i,
                        *self == Json::Object(*fields),
                        *entries == fields.entries,
                        forall|j: int|
                            0 <= j < i ==> (#[trigger] out@[j]).0@ == entries@[j].0@
                                && out@[j].1.data() == entries@[j].1.data(),
                    decreases entries.len() - i,
                {
                    proof {
                        member_is_smaller(*self, *fields, i as int);
                    }
                    let copied = entries[i].1.duplicate();
                    out.push((entries[i].0.clone(), copied));
                    i += 1;
                }
                proof {
                    members_alike(out@, entries@);
                }
                Json::Object(Fields { entries: out })
            },
        }
    }

    /// Whether two values are equal.
    pub fn same(&self, other: &Json) -> (r: bool)
        ensures
            r == alike(self@, other@),
        decreases self,
    {
        match (self, other) {
            (Json::Null, Json::Null) => true,
            (Json::Bool(a), Json::Bool(b)) => *a == *b,
            (Json::Number(a), Json::Number(b)) => a.same(b),
            (Json::Text(a), Json::Text(b)) => same(a.as_str(), b.as_str()),
            (Json::Array(a), Json::Array(b)) => {
                if a.len() != b.len() {
                    assert(values(a@).len() != values(b@).len());
                    return false;
                }
                let mut i: usize = 0;
                while i < a.len()
                    invariant
                        i <= a.len(),
                        a.len() == b.len(),
                        *self == Json::Array(*a),
                        *other == Json::Array(*b),
                        forall|j: int|
                            0 <= j < i ==> alike((#[trigger] a@[j]).data(), b@[j].data()),
                    decreases a.len() - i,
                {
                    proof {
                        item_is_smaller(*self, *a, i as int);
                    }
                    if !a[i].same(&b[i]) {
                        assert(!alike(values(a@)[i as int], values(b@)[i as int]));
                        return false;
                    }
                    i += 1;
                }
                assert forall|j: int| 0 <= j < values(a@).len() implies alike(
                    #[trigger] values(a@)[j],
                    values(b@)[j],
                ) by {
                    assert(alike(a@[j].data(), b@[j].data()));
                }
                true
            },
            (Json::Object(a), Json::Object(b)) => {
                let entries: &Vec<(String, Json)> = &a.entries;
                let mut i: usize = 0;
                while i < entries.len()
                    invariant
                        i <= entries.len(),
                        *entries == a.entries,
                        *self == Json::Object(*a),
                        *other == Json::Object(*b),
                        forall|j: int|
                            0 <= j < i ==> b@.contains_key((#[trigger] entries@[j]).0@) && alike(
                                a@[entries@[j].0@],
                                b@[entries@[j].0@],
                            ),
                    decreases entries.len() - i,
                {
                    let key = entries[i].0.as_str();
                    proof {
                        members_has(entries@, i as int);
                    }
                    let at = a.position(key);
                    match (at, b.get(key)) {
                        (Some(k), Some(theirs)) => {
                            proof {
                                member_is_smaller(*self, *a, k as int);
                            }
                            if !entries[k].1.same(theirs) {
                                return false;
                            }
                        },
                        _ => {
                            return false;
                        },
                    }
                    i += 1;
                }
                let theirs: &Vec<(String, Json)> = &b.entries;
                let mut j: usize = 0;
                while j < theirs.len()
                    invariant
                        j <= theirs.len(),
                        *theirs == b.entries,
                        *self == Json::Object(*a),
                        *other == Json::Object(*b),
                        forall|k: int|
                            0 <= k < j ==> a@.contains_key((#[trigger] theirs@[k]).0@),
                    decreases theirs.len() - j,
                {
                    proof {
                        members_has(theirs@, j as int);
                    }
                    if a.get(theirs[j].0.as_str()).is_none() {
                        return false;
                    }
                    j += 1;
                }
                proof {
                    members_only(entries@);
                    members_only(theirs@);
                    assert(a@.dom() =~= b@.dom());
                    assert forall|key: Seq<char>| #[trigger] a@.contains_key(key) implies alike(
                        a@[key],
                        b@[key],
                    ) by {
                        let k = choose|k: int|
                            0 <= k < entries@.len() && (#[trigger] entries@[k]).0@ == key;
                        assert(entries@[k].0@ == key);
                    }
                }
                true
            },
            _ => false,
        }
    }
}

/// Adds a value.
pub fn push_json(list: &mut Vec<Json>, item: Json)
    ensures
        values(final(list)@) == values(old(list)@).push(item@),
{
    list.push(item);
    assert(values(list@) =~= values(old(list)@).push(item@));
}

/// No values.
pub fn no_json() -> (r: Vec<Json>)
    ensures
        values(r@) == Seq::<Data>::empty(),
{
    let list: Vec<Json> = Vec::new();
    assert(values(list@) =~= Seq::<Data>::empty());
    list
}

/// One value.
pub fn one_json(item: Json) -> (r: Vec<Json>)
    ensures
        values(r@) == seq![item@],
{
    let mut list: Vec<Json> = Vec::new();
    list.push(item);
    assert(values(list@) =~= seq![item@]);
    list
}

/// Copies of values.
pub fn copy_json(items: &[Json]) -> (r: Vec<Json>)
    ensures
        values(r@) == values(items@),
{
    let mut out: Vec<Json> = Vec::new();
    let mut i: usize = 0;
    while i < items.len()
        invariant
            i <= items.len(),
            out.len() == i,
            forall|j: int| 0 <= j < i ==> (#[trigger] out@[j])@ == items@[j]@,
        decreases items.len() - i,
    {
        let item = items[i].duplicate();
        out.push(item);
        i += 1;
    }
    assert(values(out@) =~= values(items@));
    out
}

/// The strings among values.
pub open spec fn texts_of(items: Seq<Data>) -> Seq<Seq<char>>
    decreases items.len(),
{
    if items.len() == 0 {
        Seq::empty()
    } else {
        match items.last() {
            Data::Text(t) => texts_of(items.drop_last()).push(t),
            _ => texts_of(items.drop_last()),
        }
    }
}

/// An integer, where there is one.
pub open spec fn opt_int(n: Option<i32>) -> Data {
    match n {
        None => Data::Null,
        Some(n) => if n >= 0 {
            uint(n as u64)
        } else {
            Data::Number(Number::Negative(n as i64))
        },
    }
}

/// The strings among values.
pub fn texts_among(items: &[Json]) -> (r: Vec<String>)
    ensures
        crate::text::views(r@) == texts_of(values(items@)),
{
    let mut out: Vec<String> = Vec::new();
    let mut i: usize = 0;
    let ghost all = values(items@);
    assert(all.take(0) =~= Seq::empty());
    assert(crate::text::views(out@) =~= Seq::empty());
    while i < items.len()
        invariant
            i <= items.len(),
            all == values(items@),
            crate::text::views(out@) == texts_of(all.take(i as int)),
        decreases items.len() - i,
    {
        assert(all.take(i + 1).drop_last() =~= all.take(i as int));
        assert(all.take(i + 1).last() == items@[i as int]@);
        if let Some(t) = items[i].as_text() {
            crate::text::push_string(&mut out, t);
        }
        i += 1;
    }
    assert(all.take(i as int) =~= all);
    out
}

/// A key stands among the first members.
pub open spec fn known(entries: Seq<(String, Json)>, count: int, key: Seq<char>) -> bool {
    exists|i: int| 0 <= i < count && (#[trigger] entries[i]).0@ == key
}

impl Fields {
    /// Takes in the members of other fields. Where both have a key, the other one counts.
    pub fn merge(&mut self, more: &Fields)
        ensures
            final(self)@ == old(self)@.union_prefer_right(more@),
    {
        let ghost was = self@;
        let entries: &Vec<(String, Json)> = &more.entries;
        let mut i: usize = 0;
        while i < entries.len()
            invariant
                i <= entries.len(),
                *entries == more.entries,
                was == old(self)@,
                forall|key: Seq<char>| #[trigger]
                    self@.contains_key(key) <==> was.contains_key(key) || known(
                        entries@,
                        i as int,
                        key,
                    ),
                forall|key: Seq<char>| #[trigger]
                    self@.contains_key(key) ==> self@[key] == if known(entries@, i as int, key) {
                        more@[key]
                    } else {
                        was[key]
                    },
            decreases entries.len() - i,
        {
            let key = entries[i].0.as_str();
            proof {
                members_has(entries@, i as int);
            }
            let ghost before = self@;
            if let Some(value) = more.get(key) {
                self.set(key, value.duplicate());
            }
            proof {
                assert(known(entries@, i + 1, key@));
                assert forall|k: Seq<char>| known(entries@, i + 1, k) implies k == key@ || known(
                    entries@,
                    i as int,
                    k,
                ) by {}
                assert forall|k: Seq<char>| known(entries@, i as int, k) implies known(
                    entries@,
                    i + 1,
                    k,
                ) by {}
                assert forall|k: Seq<char>| #[trigger] self@.contains_key(k) <==> was.contains_key(k)
                    || known(entries@, i + 1, k) by {
                    assert(self@.contains_key(k) <==> k == key@ || before.contains_key(k));
                }
            }
            i += 1;
        }
        proof {
            members_only(entries@);
            assert forall|k: Seq<char>| known(entries@, entries@.len() as int, k) <==> #[trigger] more@.contains_key(k) by {
                if known(entries@, entries@.len() as int, k) {
                    let j = choose|j: int| 0 <= j < entries@.len() && (#[trigger] entries@[j]).0@ == k;
                    members_has(entries@, j);
                }
            }
            assert(self@ =~= was.union_prefer_right(more@));
        }
    }

    /// Members with the entries of a table.
    pub fn of_table(table: &Table<Json>) -> (r: Fields)
        ensures
            r@ == table@,
    {
        let mut out = Fields::new();
        let count = table.len();
        let ghost order = in_order(table@);
        let mut i: usize = 0;
        while i < count
            invariant
                i <= count,
                count == order.len(),
                order == in_order(table@),
                is_order(order, table@),
                forall|j: int| 0 <= j < i ==> out@.contains_key(#[trigger] order[j]),
                forall|key: Seq<char>| #[trigger]
                    out@.contains_key(key) ==> table@.contains_key(key) && out@[key] == table@[key],
            decreases count - i,
        {
            out.set(table.key_at(i), table.value_at(i).duplicate());
            i += 1;
        }
        assert(out@ =~= table@);
        out
    }

    /// The members in the order of their keys.
    pub fn sorted(&self) -> (r: Table<Json>)
        ensures
            r@ == self@,
    {
        let mut out: Table<Json> = Table::new();
        let mut i: usize = 0;
        while i < self.entries.len()
            invariant
                i <= self.entries.len(),
                forall|j: int| 0 <= j < i ==> out@.contains_key((#[trigger] self.entries@[j]).0@),
                forall|key: Seq<char>| #[trigger]
                    out@.contains_key(key) ==> self@.contains_key(key) && out@[key] == self@[key],
            decreases self.entries.len() - i,
        {
            let key = self.entries[i].0.as_str();
            proof {
                members_has(self.entries@, i as int);
            }
            if let Some(value) = self.get(key) {
                out.insert(key, value.duplicate());
            }
            i += 1;
        }
        proof {
            members_only(self.entries@);
            assert(out@ =~= self@) by {
                assert forall|key: Seq<char>| self@.contains_key(key) implies out@.contains_key(
                    key,
                ) by {
                    let j = choose|j: int|
                        0 <= j < self.entries@.len() && (#[trigger] self.entries@[j]).0@ == key;
                    assert(out@.contains_key(self.entries@[j].0@));
                }
            }
        }
        out
    }
}

pub(crate) proof fn item_is_smaller(whole: Json, items: Vec<Json>, i: int)
    requires
        whole == Json::Array(items),
        0 <= i < items@.len(),
    ensures
        decreases_to!(whole => items@[i]),
{
    assert(decreases_to!(whole => whole->Array_0));
    assert(decreases_to!(items => items@));
    assert(decreases_to!(items@ => items@[i]));
}

pub(crate) proof fn member_is_smaller(whole: Json, fields: Fields, i: int)
    requires
        whole == Json::Object(fields),
        0 <= i < fields.entries@.len(),
    ensures
        decreases_to!(whole => fields.entries@[i].1),
{
    assert(decreases_to!(whole => whole->Object_0));
    assert(decreases_to!(fields => fields.entries));
    assert(decreases_to!(fields.entries => fields.entries@));
    assert(decreases_to!(fields.entries@ => fields.entries@[i]));
    assert(decreases_to!(fields.entries@[i] => fields.entries@[i].1));
}

pub(crate) proof fn members_has(entries: Seq<(String, Json)>, i: int)
    requires
        0 <= i < entries.len(),
    ensures
        members(entries).contains_key(entries[i].0@),
    decreases entries.len(),
{
    if i > 0 {
        let rest = entries.subrange(1, entries.len() as int);
        assert(rest[i - 1] == entries[i]);
        members_has(rest, i - 1);
    }
}

pub(crate) proof fn members_only(entries: Seq<(String, Json)>)
    ensures
        forall|key: Seq<char>| #[trigger]
            members(entries).contains_key(key) ==> exists|i: int|
                0 <= i < entries.len() && (#[trigger] entries[i]).0@ == key,
    decreases entries.len(),
{
    assert forall|key: Seq<char>| #[trigger] members(entries).contains_key(key) implies exists|i: int|
        0 <= i < entries.len() && (#[trigger] entries[i]).0@ == key by {
        assert(entries.len() > 0);
        let rest = entries.subrange(1, entries.len() as int);
        members_only(rest);
        if entries[0].0@ != key {
            assert(members(rest).contains_key(key));
            let k = choose|k: int| 0 <= k < rest.len() && (#[trigger] rest[k]).0@ == key;
            assert(entries[k + 1] == rest[k]);
        }
    }
}

proof fn members_alike(a: Seq<(String, Json)>, b: Seq<(String, Json)>)
    requires
        a.len() == b.len(),
        forall|j: int|
            0 <= j < a.len() ==> (#[trigger] a[j]).0@ == b[j].0@ && a[j].1.data() == b[j].1.data(),
    ensures
        members(a) == members(b),
    decreases a.len(),
{
    if a.len() > 0 {
        let x = a.subrange(1, a.len() as int);
        let y = b.subrange(1, b.len() as int);
        assert forall|j: int| 0 <= j < x.len() implies (#[trigger] x[j]).0@ == y[j].0@
            && x[j].1.data() == y[j].1.data() by {
            assert(x[j] == a[j + 1] && y[j] == b[j + 1]);
        }
        assert(a[0].0@ == b[0].0@);
        members_alike(x, y);
    }
}

} // verus!
