//! JSON text: reading it with `serde_json` into the library's own values.
use crate::json::{
    item_is_smaller, known, member_is_smaller, members_has, members_only, values, Data, Fields, Json,
    Negative, Number, Numeral,
};
use crate::fault::{other, Fault, FaultView};
use crate::runtime::json_result;
use crate::table::Table;
use vstd::prelude::*;
use vstd::utf8::{decode_utf8, valid_utf8};

verus! {

/// A value of `serde_json`.
#[verifier::external_type_specification]
#[verifier::external_body]
pub struct ExValue(serde_json::Value);

/// What a value of `serde_json` holds.
pub uninterp spec fn content(value: serde_json::Value) -> Data;

/// The value that `serde_json::from_str` reads in a text, or the words in which it refuses the text.
pub uninterp spec fn parsed(text: Seq<char>) -> Result<Data, Seq<char>>;

/// The value that `serde_json::from_slice` reads in bytes, or the words in which it refuses them.
pub uninterp spec fn parsed_bytes(bytes: Seq<u8>) -> Result<Data, Seq<char>>;

/// The value that a JSON text denotes, if it is JSON.
pub open spec fn denoted(text: Seq<char>) -> Option<Data> {
    match parsed(text) {
        Ok(value) => Some(value),
        Err(_) => None,
    }
}

/// The value of a text, or the failure to read it.
pub open spec fn text_read(text: Seq<char>) -> Result<Data, FaultView> {
    match parsed(text) {
        Ok(value) => Ok(value),
        Err(words) => Err(other(words)),
    }
}

/// The value of bytes, or the failure to read them.
pub open spec fn bytes_read(bytes: Seq<u8>) -> Result<Data, FaultView> {
    match parsed_bytes(bytes) {
        Ok(value) => Ok(value),
        Err(words) => Err(other(words)),
    }
}

/// The words in which `serde_json::from_value` refuses a value that is no map from texts to texts.
pub uninterp spec fn texts_refused(value: Data) -> Seq<char>;

/// The JSON text that `serde_json::Value::to_string` writes for a value.
pub uninterp spec fn written(value: Data) -> Seq<char>;

/// The key by which `serde_json` marks text that it has not read yet.
pub open spec fn raw_key() -> Seq<char> {
    "$serde_json::private::RawValue"@
}

/// All numbers of a value are integers, no object has the key that `serde_json` keeps for itself, and
/// no more than so many containers stand in each other.
pub open spec fn plain(value: Data, depth: nat) -> bool
    decreases depth,
{
    match value {
        Data::Number(n) => !(n is Double),
        Data::Array(items) => depth > 0 && forall|i: int|
            0 <= i < items.len() ==> plain(#[trigger] items[i], (depth - 1) as nat),
        Data::Object(members) => depth > 0 && !members.contains_key(raw_key()) && forall|
            key: Seq<char>,
        | #[trigger]
            members.contains_key(key) ==> plain(members[key], (depth - 1) as nat),
        _ => true,
    }
}

/// What a value holds that was read, or the words for the failure.
pub open spec fn outcome(r: Result<serde_json::Value, String>) -> Result<Data, Seq<char>> {
    match r {
        Ok(v) => Ok(content(v)),
        Err(words) => Err(words@),
    }
}

/// `serde_json::from_str` into a `serde_json::Value`, and the words of its error. Both depend on the
/// text alone; which texts are accepted, what they denote, and what is said of the others, is left to
/// the name.
#[verifier::external_body]
pub(crate) fn read_text(text: &str) -> (r: Result<serde_json::Value, String>)
    ensures
        outcome(r) == parsed(text@),
{
    serde_json::from_str::<serde_json::Value>(text).map_err(|error| error.to_string())
}

/// `serde_json::from_slice` into a `serde_json::Value`, and the words of its error. Both depend on the
/// bytes alone, and are left to the name. Bytes that are no UTF-8 are refused; others are read as
/// `serde_json::from_str` reads the text that they encode.
#[verifier::external_body]
pub(crate) fn read_slice(bytes: &[u8]) -> (r: Result<serde_json::Value, String>)
    ensures
        outcome(r) == parsed_bytes(bytes@),
        r is Ok ==> valid_utf8(bytes@),
        valid_utf8(bytes@) ==> outcome(r) == parsed(decode_utf8(bytes@)),
{
    serde_json::from_slice::<serde_json::Value>(bytes).map_err(|error| error.to_string())
}

/// The containers that `serde_json::from_str` follows into each other.
pub const DEPTH: usize = 127;

/// `serde_json::Value::to_string`. The text depends on what the value holds alone; which text it
/// is is left to the name. Read again with `serde_json::from_str` it denotes the value, where all
/// numbers are integers, no object has the key that the crate keeps for itself, and no more containers
/// stand in each other than that function follows.
#[verifier::external_body]
pub(crate) fn write_value(value: &serde_json::Value) -> (r: String)
    ensures
        r@ == written(content(*value)),
        plain(content(*value), DEPTH as nat) ==> denoted(r@) == Some(content(*value)),
{
    value.to_string()
}

/// `serde_json::Value::default` is null.
#[verifier::external_body]
pub(crate) fn null_value() -> (r: serde_json::Value)
    ensures
        content(r) == Data::Null,
{
    serde_json::Value::default()
}

/// `serde_json::Value::from` of a boolean is that boolean.
#[verifier::external_body]
pub(crate) fn bool_value(b: bool) -> (r: serde_json::Value)
    ensures
        content(r) == Data::Bool(b),
{
    serde_json::Value::from(b)
}

/// `serde_json::Value::from` of an integer from zero up is that integer.
#[verifier::external_body]
pub(crate) fn unsigned_value(n: u64) -> (r: serde_json::Value)
    ensures
        content(r) == Data::Number(Number::Unsigned(n)),
{
    serde_json::Value::from(n)
}

/// `serde_json::Value::from` of an integer below zero is that integer.
#[verifier::external_body]
pub(crate) fn negative_value(n: i64) -> (r: serde_json::Value)
    requires
        n < 0,
    ensures
        content(r) == Data::Number(Number::Negative(n)),
{
    serde_json::Value::from(n)
}

/// `serde_json::Value::from` of a text is that string.
#[verifier::external_body]
pub(crate) fn text_value(text: &str) -> (r: serde_json::Value)
    ensures
        content(r) == Data::Text(text@),
{
    serde_json::Value::from(text)
}

/// `serde_json::Value::from` of values is the array of them.
#[verifier::external_body]
pub(crate) fn array_value(items: Vec<serde_json::Value>) -> (r: serde_json::Value)
    ensures
        content(r) == Data::Array(contents(items@)),
{
    serde_json::Value::from(items)
}

/// `serde_json::Value` collected from pairs is the object with these members, where each key stands
/// once.
#[verifier::external_body]
pub(crate) fn object_value(pairs: Vec<(&str, serde_json::Value)>) -> (r: serde_json::Value)
    requires
        forall|i: int, j: int|
            0 <= i < j < pairs@.len() ==> (#[trigger] pairs@[i]).0@ != (#[trigger] pairs@[j]).0@,
    ensures
        content(r) == Data::Object(paired(pairs@)),
{
    pairs.into_iter().collect()
}

/// What each of the values holds.
pub open spec fn contents(items: Seq<serde_json::Value>) -> Seq<Data> {
    Seq::new(items.len(), |i: int| content(items[i]))
}

/// The map of pairs.
pub open spec fn paired(pairs: Seq<(&str, serde_json::Value)>) -> Map<Seq<char>, Data>
    decreases pairs.len(),
{
    if pairs.len() == 0 {
        Map::empty()
    } else {
        paired(pairs.drop_last()).insert(pairs.last().0@, content(pairs.last().1))
    }
}

/// `serde_json::Value::is_null` tells whether the value is null.
pub assume_specification[ serde_json::Value::is_null ](value: &serde_json::Value) -> (r: bool)
    ensures
        r == (content(*value) is Null),
;

/// `serde_json::Value::as_bool` gives the boolean that the value is.
pub assume_specification[ serde_json::Value::as_bool ](value: &serde_json::Value) -> (r: Option<bool>)
    ensures
        match r {
            Some(b) => content(*value) == Data::Bool(b),
            None => !(content(*value) is Bool),
        },
;

/// `serde_json::Value::as_str` gives the string that the value is.
pub assume_specification[ serde_json::Value::as_str ](value: &serde_json::Value) -> (r: Option<&str>)
    ensures
        match r {
            Some(t) => content(*value) == Data::Text(t@),
            None => !(content(*value) is Text),
        },
;

/// `serde_json::Value::as_u64` gives the integer that the value is, where it is not negative.
pub assume_specification[ serde_json::Value::as_u64 ](value: &serde_json::Value) -> (r: Option<u64>)
    ensures
        match r {
            Some(n) => content(*value) == Data::Number(Number::Unsigned(n)),
            None => forall|n: u64| content(*value) != Data::Number(Number::Unsigned(n)),
        },
;

/// `serde_json::Value::as_i64` gives the integer that the value is, where it fits.
pub assume_specification[ serde_json::Value::as_i64 ](value: &serde_json::Value) -> (r: Option<i64>)
    ensures
        match r {
            Some(n) => if n < 0 {
                content(*value) == Data::Number(Number::Negative(n))
            } else {
                content(*value) == Data::Number(Number::Unsigned(n as u64))
            },
            None => !(content(*value) is Number && content(*value)->Number_0 is Negative),
        },
;

/// `serde_json::Value::as_f64` gives a double for every number; of a number that is not an
/// integer, the double that it is. The result is handed out by its bits. What an integer becomes
/// is left unsaid.
#[verifier::external_body]
pub(crate) fn double_bits(value: &serde_json::Value) -> (r: Option<u64>)
    ensures
        match r {
            Some(b) => content(*value) is Number && (content(*value)->Number_0 is Double ==> content(
                *value,
            ) == Data::Number(Number::Double(b))),
            None => !(content(*value) is Number),
        },
{
    value.as_f64().map(|n| n.to_bits())
}

/// `serde_json::Value::clone` gives a value that holds the same.
pub assume_specification[ <serde_json::Value as Clone>::clone ](value: &serde_json::Value) -> (r: serde_json::Value)
    ensures
        content(r) == content(*value),
;

/// A number that was not written as an integer, as `serde_json` holds it.
#[derive(Debug)]
pub struct Double {
    value: serde_json::Value,
}

impl View for Double {
    type V = u64;

    closed spec fn view(&self) -> u64 {
        content(self.value)->Number_0->Double_0
    }
}

impl Double {
    #[verifier::type_invariant]
    spec fn is_double(self) -> bool {
        content(self.value) is Number && content(self.value)->Number_0 is Double
    }

    /// The bits of the double.
    pub fn bits(&self) -> (r: u64)
        ensures
            r == self@,
    {
        proof {
            use_type_invariant(self);
        }
        match double_bits(&self.value) {
            Some(bits) => bits,
            None => 0,
        }
    }

    /// A copy.
    pub fn duplicate(&self) -> (r: Double)
        ensures
            r@ == self@,
    {
        proof {
            use_type_invariant(self);
        }
        Double { value: self.value.clone() }
    }

    /// The value of `serde_json`.
    pub fn to_value(&self) -> (r: serde_json::Value)
        ensures
            content(r) == Data::Number(Number::Double(self@)),
    {
        proof {
            use_type_invariant(self);
        }
        self.value.clone()
    }
}

/// `serde_json::Value::as_array` gives the items of the array that the value is.
pub assume_specification[ serde_json::Value::as_array ](value: &serde_json::Value) -> (r: Option<&Vec<serde_json::Value>>)
    ensures
        match r {
            Some(items) => content(*value) is Array && content(*value)->Array_0.len() == items@.len()
                && forall|i: int|
                0 <= i < items@.len() ==> content(*value)->Array_0[i] == content(
                    #[trigger] items@[i],
                ),
            None => !(content(*value) is Array),
        },
;

/// `serde_json::Value::as_object` and `serde_json::Map::iter` hand out the members of the object
/// that the value is, each key once.
#[verifier::external_body]
pub(crate) fn object_members(value: &serde_json::Value) -> (r: Option<
    Vec<(&str, &serde_json::Value)>,
>)
    ensures
        match r {
            Some(pairs) => content(*value) is Object && lists(pairs@, content(*value)->Object_0),
            None => !(content(*value) is Object),
        },
{
    value.as_object().map(|map| map.iter().map(|(key, item)| (key.as_str(), item)).collect())
}

/// The pairs are the members of the map, each key once.
pub open spec fn lists(
    pairs: Seq<(&str, &serde_json::Value)>,
    map: Map<Seq<char>, Data>,
) -> bool {
    &&& map.dom().finite()
    &&& forall|i: int|
        0 <= i < pairs.len() ==> map.contains_key((#[trigger] pairs[i]).0@) && map[pairs[i].0@]
            == content(*pairs[i].1)
    &&& forall|key: Seq<char>| #[trigger]
        map.contains_key(key) ==> exists|i: int|
            0 <= i < pairs.len() && (#[trigger] pairs[i]).0@ == key
    &&& forall|i: int, j: int|
        0 <= i < j < pairs.len() ==> (#[trigger] pairs[i]).0@ != (#[trigger] pairs[j]).0@
}

/// The library's value of a value of `serde_json`.
pub fn from_value(value: &serde_json::Value) -> (r: Json)
    ensures
        r@ == content(*value),
    decreases content(*value),
{
    if value.is_null() {
        return Json::Null;
    }
    if let Some(b) = value.as_bool() {
        return Json::Bool(b);
    }
    if let Some(t) = value.as_str() {
        return Json::text(t);
    }
    if let Some(n) = value.as_u64() {
        return Json::Number(Numeral::Unsigned(n));
    }
    if let Some(n) = value.as_i64() {
        return Json::Number(Numeral::Negative(Negative::new(n)));
    }
    if double_bits(value).is_some() {
        proof {
            match content(*value)->Number_0 {
                Number::Unsigned(n) => assert(content(*value) == Data::Number(Number::Unsigned(n))),
                Number::Negative(_) => {},
                Number::Double(_) => {},
            }
        }
        return Json::Number(Numeral::Double(Double { value: value.clone() }));
    }
    if let Some(items) = value.as_array() {
        let ghost whole = content(*value)->Array_0;
        let mut out: Vec<Json> = Vec::new();
        let mut i: usize = 0;
        while i < items.len()
            invariant
                i <= items.len(),
                out.len() == i,
                content(*value) == Data::Array(whole),
                whole.len() == items@.len(),
                forall|j: int| 0 <= j < items@.len() ==> whole[j] == content(#[trigger] items@[j]),
                forall|j: int| 0 <= j < i ==> (#[trigger] out@[j]).data() == whole[j],
            decreases items.len() - i,
        {
            assert(decreases_to!(content(*value) => content(*value)->Array_0));
            assert(decreases_to!(whole => whole[i as int]));
            assert(whole[i as int] == content(items@[i as int]));
            let item = from_value(&items[i]);
            out.push(item);
            i += 1;
        }
        assert(values(out@) =~= whole);
        return Json::Array(out);
    }
    let mut fields = Fields::new();
    if let Some(pairs) = object_members(value) {
        let ghost whole = content(*value)->Object_0;
        let mut i: usize = 0;
        while i < pairs.len()
            invariant
                i <= pairs.len(),
                content(*value) == Data::Object(whole),
                lists(pairs@, whole),
                forall|j: int|
                    0 <= j < i ==> fields@.contains_key((#[trigger] pairs@[j]).0@)
                        && fields@[pairs@[j].0@] == whole[pairs@[j].0@],
                forall|key: Seq<char>| #[trigger]
                    fields@.contains_key(key) ==> whole.contains_key(key),
            decreases pairs.len() - i,
        {
            let ghost key = pairs@[i as int].0@;
            assert(whole.contains_key(key));
            assert(decreases_to!(content(*value) => content(*value)->Object_0));
            assert(decreases_to!(whole => whole[key]));
            let item = from_value(pairs[i].1);
            fields.set(pairs[i].0, item);
            i += 1;
        }
        assert(fields@ =~= whole) by {
            assert forall|key: Seq<char>| #[trigger] whole.contains_key(key) implies fields@.contains_key(key)
                && fields@[key] == whole[key] by {
                let k = choose|k: int| 0 <= k < pairs@.len() && (#[trigger] pairs@[k]).0@ == key;
                assert(pairs@[k].0@ == key);
            }
        }
    } else {
        assert(false);
    }
    Json::Object(fields)
}

/// The value is an object whose members are all texts.
pub open spec fn holds_texts(value: Data) -> bool {
    value is Object && forall|key: Seq<char>| #[trigger]
        value->Object_0.contains_key(key) ==> value->Object_0[key] is Text
}

/// The texts that are the members of an object.
pub open spec fn text_members(value: Data) -> Map<Seq<char>, Seq<char>> {
    Map::new(
        |key: Seq<char>| value->Object_0.contains_key(key),
        |key: Seq<char>| value->Object_0[key]->Text_0,
    )
}

/// The pairs are the entries of the map, each key once.
pub open spec fn lists_texts(pairs: Seq<(String, String)>, map: Map<Seq<char>, Seq<char>>) -> bool {
    &&& forall|i: int|
        0 <= i < pairs.len() ==> map.contains_key((#[trigger] pairs[i]).0@) && map[pairs[i].0@]
            == pairs[i].1@
    &&& forall|key: Seq<char>| #[trigger]
        map.contains_key(key) ==> exists|i: int|
            0 <= i < pairs.len() && (#[trigger] pairs[i]).0@ == key
    &&& forall|i: int, j: int|
        0 <= i < j < pairs.len() ==> (#[trigger] pairs[i]).0@ != (#[trigger] pairs[j]).0@
}

/// `serde_json::from_value` into a `BTreeMap<String, String>`, and the words of its error. It takes
/// objects whose members are all texts, and hands each of them out once; what is said of other values
/// depends on the value alone, and is left to the name.
#[verifier::external_body]
pub(crate) fn read_texts(value: serde_json::Value) -> (r: Result<Vec<(String, String)>, String>)
    ensures
        match r {
            Ok(pairs) => holds_texts(content(value)) && lists_texts(
                pairs@,
                text_members(content(value)),
            ),
            Err(words) => !holds_texts(content(value)) && words@ == texts_refused(content(value)),
        },
{
    serde_json::from_value::<std::collections::BTreeMap<String, String>>(value)
        .map(|texts| texts.into_iter().collect())
        .map_err(|error| error.to_string())
}

/// The texts that are the members of an object, or why it has others.
pub fn texts_in(json: &Json) -> (r: Result<Table<String>, Fault>)
    ensures
        match r {
            Ok(texts) => holds_texts(json@) && texts@ == text_members(json@),
            Err(f) => !holds_texts(json@) && f@ == other(texts_refused(json@)),
        },
{
    let pairs = match read_texts(to_value(json)) {
        Ok(pairs) => pairs,
        Err(words) => {
            return Err(Fault::other(words.as_str()));
        },
    };
    let ghost all = text_members(json@);
    let mut out: Table<String> = Table::new();
    let mut i: usize = 0;
    while i < pairs.len()
        invariant
            i <= pairs.len(),
            lists_texts(pairs@, all),
            forall|j: int| 0 <= j < i ==> out@.contains_key((#[trigger] pairs@[j]).0@),
            forall|key: Seq<char>| #[trigger]
                out@.contains_key(key) ==> all.contains_key(key) && out@[key] == all[key],
        decreases pairs.len() - i,
    {
        out.insert(pairs[i].0.as_str(), pairs[i].1.clone());
        i += 1;
    }
    assert(out@ =~= all);
    Ok(out)
}

/// The value that a JSON text denotes, if it is JSON.
pub fn read_json(text: &str) -> (r: Option<Json>)
    ensures
        match r {
            Some(j) => denoted(text@) == Some(j@),
            None => denoted(text@) is None,
        },
{
    match read_text(text) {
        Ok(v) => Some(from_value(&v)),
        Err(_) => None,
    }
}

/// The value that a JSON text denotes, or why it is not JSON.
pub fn parse(text: &str) -> (r: Result<Json, Fault>)
    ensures
        json_result(r) == text_read(text@),
{
    match read_text(text) {
        Ok(v) => Ok(from_value(&v)),
        Err(words) => Err(Fault::other(words.as_str())),
    }
}

/// The value that the bytes of a JSON text denote, or why they are not JSON.
pub fn parse_bytes(bytes: &[u8]) -> (r: Result<Json, Fault>)
    ensures
        json_result(r) == bytes_read(bytes@),
        valid_utf8(bytes@) ==> json_result(r) == text_read(decode_utf8(bytes@)),
        r is Ok ==> valid_utf8(bytes@),
{
    match read_slice(bytes) {
        Ok(v) => Ok(from_value(&v)),
        Err(words) => Err(Fault::other(words.as_str())),
    }
}

/// The value of `serde_json` that holds what a value of the library holds.
pub fn to_value(json: &Json) -> (r: serde_json::Value)
    ensures
        content(r) == json@,
    decreases json,
{
    match json {
        Json::Null => null_value(),
        Json::Bool(b) => bool_value(*b),
        Json::Number(Numeral::Unsigned(n)) => unsigned_value(*n),
        Json::Number(Numeral::Negative(n)) => negative_value(n.value()),
        Json::Number(Numeral::Double(d)) => d.to_value(),
        Json::Text(t) => text_value(t.as_str()),
        Json::Array(items) => {
            let mut out: Vec<serde_json::Value> = Vec::new();
            let mut i: usize = 0;
            while i < items.len()
                invariant
                    i <= items.len(),
                    out.len() == i,
                    *json == Json::Array(*items),
                    forall|j: int| 0 <= j < i ==> content(#[trigger] out@[j]) == items@[j].data(),
                decreases items.len() - i,
            {
                proof {
                    item_is_smaller(*json, *items, i as int);
                }
                let item = to_value(&items[i]);
                out.push(item);
                i += 1;
            }
            assert(contents(out@) =~= values(items@));
            array_value(out)
        },
        Json::Object(fields) => {
            let entries: &Vec<(String, Json)> = &fields.entries;
            let mut out: Vec<(&str, serde_json::Value)> = Vec::new();
            let mut i: usize = 0;
            while i < entries.len()
                invariant
                    i <= entries.len(),
                    *json == Json::Object(*fields),
                    *entries == fields.entries,
                    forall|j: int, k: int|
                        0 <= j < k < out@.len() ==> (#[trigger] out@[j]).0@ != (#[trigger] out@[k]).0@,
                    forall|j: int|
                        0 <= j < i ==> paired(out@).contains_key((#[trigger] entries@[j]).0@),
                    forall|key: Seq<char>| #[trigger]
                        paired(out@).contains_key(key) ==> fields@.contains_key(key) && paired(
                            out@,
                        )[key] == fields@[key] && known(entries@, i as int, key),
                    forall|j: int| 0 <= j < out@.len() ==> known(entries@, i as int, (#[trigger] out@[j]).0@),
                decreases entries.len() - i,
            {
                let key = entries[i].0.as_str();
                proof {
                    members_has(entries@, i as int);
                }
                let ghost was = out@;
                if let Some(k) = fields.position(key) {
                    if k == i {
                        proof {
                            member_is_smaller(*json, *fields, i as int);
                            assert(!known(entries@, i as int, key@));
                        }
                        let item = to_value(&entries[i].1);
                        out.push((key, item));
                        assert(out@.drop_last() =~= was);
                        assert(paired(out@) == paired(was).insert(key@, entries@[i as int].1@));
                        assert(fields@[key@] == entries@[i as int].1@);
                        assert forall|other: Seq<char>| #[trigger]
                            paired(out@).contains_key(other) implies fields@.contains_key(other)
                            && paired(out@)[other] == fields@[other] by {
                            if other != key@ {
                                assert(paired(was).contains_key(other));
                            }
                        }
                    } else {
                        proof {
                            assert(k < i) by {
                                if i < k {
                                    assert(entries@[i as int].0@ != key@);
                                }
                            }
                            assert(paired(out@).contains_key(entries@[k as int].0@));
                        }
                    }
                }
                proof {
                    assert(known(entries@, i + 1, key@));
                    assert forall|other: Seq<char>| known(entries@, i as int, other) implies known(
                        entries@,
                        i + 1,
                        other,
                    ) by {}
                }
                i += 1;
            }
            proof {
                members_only(entries@);
                assert(paired(out@) =~= fields@) by {
                    assert forall|key: Seq<char>| fields@.contains_key(key) implies paired(
                        out@,
                    ).contains_key(key) by {
                        let j = choose|j: int| 0 <= j < entries@.len() && (#[trigger] entries@[j]).0@ == key;
                        assert(paired(out@).contains_key(entries@[j].0@));
                    }
                }
            }
            object_value(out)
        },
    }
}

/// The JSON text of a value. It denotes the value, where all numbers are integers, no object has the
/// key that `serde_json` keeps for itself, and containers do not stand in each other too deeply.
pub fn write_json(json: &Json) -> (r: String)
    ensures
        r@ == written(json@),
        plain(json@, DEPTH as nat) ==> denoted(r@) == Some(json@),
{
    let value = to_value(json);
    write_value(&value)
}

} // verus!
