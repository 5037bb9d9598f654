//! Records as they are saved and as they are read.
use super::{Error, ErrorView, Record, RecordView};
use crate::json::{object, uint, Data, Json};
use crate::runtime::{codex, for_client, older_form};
use crate::text::opt_slice;
use crate::wire::{
    denoted, plain, raw_key, read_json, text_read, write_json, written, DEPTH,
};
use vstd::prelude::*;

verus! {

/// An optional member: left out where there is none.
pub open spec fn with_some(value: Data, key: Seq<char>, member: Option<Data>) -> Data {
    match member {
        Some(m) => value.with(key, m),
        None => value,
    }
}

/// A record as JSON.
pub open spec fn record_json(r: RecordView) -> Data {
    let base = Data::Object(
        map![
            "sequence"@ => uint(r.sequence),
            "session_id"@ => Data::Text(r.session_id),
            "kind"@ => Data::Text(r.kind),
            "data"@ => r.data
        ],
    );
    let dated = with_some(
        base,
        "timestamp_ms"@,
        match r.timestamp_ms {
            Some(n) => Some(uint(n)),
            None => None,
        },
    );
    with_some(
        dated,
        "native"@,
        match r.native {
            Some(t) => Some(Data::Text(t)),
            None => None,
        },
    )
}

/// An optional number: absent or null, a number, or neither.
pub open spec fn opt_uint_in(value: Option<Data>) -> Option<Option<u64>> {
    match value {
        None => Some(None),
        Some(v) => if v is Null {
            Some(None)
        } else {
            match v.as_u64() {
                Some(n) => Some(Some(n)),
                None => None,
            }
        },
    }
}

/// The record that a JSON value holds.
pub open spec fn record_in(value: Data) -> Option<RecordView> {
    match (
        value.field("sequence"@).as_u64(),
        value.field("session_id"@).as_text(),
        value.field("kind"@).as_text(),
        value.get("data"@),
    ) {
        (Some(sequence), Some(session_id), Some(kind), Some(data)) => match (
            opt_uint_in(value.get("timestamp_ms"@)),
            super::opt_text_in(value.get("native"@)),
        ) {
            (Some(timestamp_ms), Some(native)) => Some(
                RecordView { sequence, session_id, kind, timestamp_ms, data, native },
            ),
            _ => None,
        },
        _ => None,
    }
}

/// The view of an optional record.
pub open spec fn opt_record(r: Option<Record>) -> Option<RecordView> {
    match r {
        Some(r) => Some(r@),
        None => None,
    }
}

/// A record is read back as it was saved.
pub proof fn record_reads_back(r: RecordView)
    ensures
        record_in(record_json(r)) == Some(r),
{
    reveal_strlit("sequence");
    reveal_strlit("session_id");
    reveal_strlit("kind");
    reveal_strlit("data");
    reveal_strlit("timestamp_ms");
    reveal_strlit("native");
    assert("sequence"@.len() == 8 && "session_id"@.len() == 10 && "kind"@.len() == 4
        && "data"@.len() == 4 && "timestamp_ms"@.len() == 12 && "native"@.len() == 6);
    assert("kind"@[0] == 'k' && "data"@[0] == 'd');
}

/// The record that a saved text holds.
pub open spec fn record_read(text: Seq<char>) -> Option<RecordView> {
    match denoted(text) {
        Some(value) => record_in(value),
        None => None,
    }
}

proof fn record_is_plain(r: RecordView)
    requires
        plain(r.data, (DEPTH - 1) as nat),
    ensures
        plain(record_json(r), DEPTH as nat),
{
    let value = record_json(r);
    let members = value->Object_0;
    reveal_strlit("sequence");
    reveal_strlit("session_id");
    reveal_strlit("kind");
    reveal_strlit("data");
    reveal_strlit("timestamp_ms");
    reveal_strlit("native");
    reveal_strlit("$serde_json::private::RawValue");
    assert(raw_key().len() == 30);
    assert("sequence"@.len() == 8 && "session_id"@.len() == 10 && "kind"@.len() == 4
        && "data"@.len() == 4 && "timestamp_ms"@.len() == 12 && "native"@.len() == 6);
    assert forall|key: Seq<char>| #[trigger] members.contains_key(key) implies plain(
        members[key],
        (DEPTH - 1) as nat,
    ) by {
        assert(members[key] == r.data || members[key] is Text || members[key] is Number);
    }
}

impl Record {
    /// The text that is saved. Read again it is the record, where its data holds integers only, keeps
    /// off the key that `serde_json` has for itself, and is not nested too deeply.
    pub fn encode(&self) -> (r: String)
        ensures
            r@ == written(record_json(self@)),
            plain(self@.data, (DEPTH - 1) as nat) ==> record_read(r@) == Some(self@),
    {
        proof {
            if plain(self@.data, (DEPTH - 1) as nat) {
                record_is_plain(self@);
                record_reads_back(self@);
            }
        }
        let value = self.to_json();
        write_json(&value)
    }

    /// The record that a saved text holds.
    pub fn decode(text: &str) -> (r: Option<Record>)
        ensures
            opt_record(r) == record_read(text@),
    {
        match read_json(text) {
            Some(value) => Record::from_json(&value),
            None => None,
        }
    }

    /// The record as JSON.
    pub fn to_json(&self) -> (r: Json)
        ensures
            r@ == record_json(self@),
    {
        let mut fields = object().with("sequence", Json::uint(self.sequence)).with_text(
            "session_id",
            self.session_id.as_str(),
        ).with_text("kind", self.kind.as_str()).with("data", self.data.duplicate());
        if let Some(n) = self.timestamp_ms {
            fields = fields.with("timestamp_ms", Json::uint(n));
        }
        if let Some(t) = &self.native {
            fields = fields.with_text("native", t.as_str());
        }
        Json::Object(fields)
    }

    /// The record that a JSON value holds.
    pub fn from_json(value: &Json) -> (r: Option<Record>)
        ensures
            opt_record(r) == record_in(value@),
    {
        let timestamp: Option<Option<u64>> = match value.get("timestamp_ms") {
            None => Some(None),
            Some(v) => if v.is_null() {
                Some(None)
            } else {
                match v.as_u64() {
                    Some(n) => Some(Some(n)),
                    None => None,
                }
            },
        };
        let native: Option<Option<String>> = match value.get("native") {
            None => Some(None),
            Some(Json::Null) => Some(None),
            Some(Json::Text(t)) => Some(Some(t.clone())),
            _ => None,
        };
        match (
            value.field("sequence").as_u64(),
            value.field_text("session_id"),
            value.field_text("kind"),
            value.get("data"),
        ) {
            (Some(sequence), Some(session_id), Some(kind), Some(data)) => match (
                timestamp,
                native,
            ) {
                (Some(timestamp_ms), Some(native)) => Some(
                    Record {
                        sequence,
                        session_id: session_id.to_owned(),
                        kind: kind.to_owned(),
                        timestamp_ms,
                        data: data.duplicate(),
                        native,
                    },
                ),
                _ => None,
            },
            _ => None,
        }
    }

    /// The record as clients know it. What is saved stays as it is.
    pub fn for_client(self) -> (r: Result<Record, Error>)
        ensures
            match r {
                Ok(record) => record@ == (RecordView { data: record@.data, ..self@ }) && if older_form(
                    self@.data,
                ) {
                    codex::shown(self@.data, self@.native, record@.data, Ok(()))
                } else {
                    record@.data == self@.data
                },
                Err(e) => older_form(self@.data) && match text_read(
                    match self@.native {
                        Some(raw) => raw,
                        None => "null"@,
                    },
                ) {
                    Ok(_) => false,
                    Err(f) => e@ == ErrorView::Storage(f.message),
                },
            },
    {
        let mut record = self;
        match for_client(&mut record.data, opt_slice(&record.native)) {
            Ok(()) => Ok(record),
            Err(fault) => Err(Error::Storage(fault.message)),
        }
    }
}

// Pages of records.

/// So many records stand on a page.
pub const PAGE: usize = 256;

/// The place of the first record after another.
pub open spec fn place_after(sequences: Seq<u64>, after: u64) -> int
    decreases sequences.len(),
{
    if sequences.len() == 0 {
        0
    } else if sequences[0] > after {
        0
    } else {
        1 + place_after(sequences.skip(1), after)
    }
}

/// A page: the records after another, in order.
pub open spec fn page_after(sequences: Seq<u64>, after: u64) -> Seq<u64> {
    let rest = sequences.skip(place_after(sequences, after));
    if rest.len() > PAGE {
        rest.take(PAGE as int)
    } else {
        rest
    }
}

proof fn place_in_range(sequences: Seq<u64>, after: u64)
    ensures
        0 <= place_after(sequences, after) <= sequences.len(),
        forall|i: int| 0 <= i < place_after(sequences, after) ==> #[trigger] sequences[i] <= after,
        place_after(sequences, after) < sequences.len() ==> sequences[place_after(
            sequences,
            after,
        )] > after,
    decreases sequences.len(),
{
    if sequences.len() > 0 && sequences[0] <= after {
        let rest = sequences.skip(1);
        place_in_range(rest, after);
        let k = place_after(rest, after);
        assert forall|i: int| 0 <= i < 1 + k implies #[trigger] sequences[i] <= after by {
            if i > 0 {
                assert(rest[i - 1] == sequences[i]);
            }
        }
        if k < rest.len() {
            assert(rest[k] == sequences[k + 1]);
        }
    }
}

/// A page of the records of a session.
pub fn page(sequences: &Vec<u64>, after: u64) -> (r: Vec<u64>)
    ensures
        r@ == page_after(sequences@, after),
{
    let ghost all = sequences@;
    let mut start: usize = 0;
    assert(all.skip(0) =~= all);
    while start < sequences.len() && sequences[start] <= after
        invariant
            start <= sequences.len(),
            all == sequences@,
            place_after(all, after) == start + place_after(all.skip(start as int), after),
        decreases sequences.len() - start,
    {
        assert(all.skip(start as int)[0] == all[start as int]);
        assert(all.skip(start as int).skip(1) =~= all.skip(start + 1));
        start += 1;
    }
    proof {
        if start < all.len() {
            assert(all.skip(start as int)[0] == all[start as int]);
        }
        assert(place_after(all, after) == start);
    }
    let ghost rest = all.skip(start as int);
    let count = sequences.len() - start;
    let length = if count > PAGE {
        PAGE
    } else {
        count
    };
    let mut list: Vec<u64> = Vec::new();
    let mut i: usize = 0;
    assert(list@ =~= rest.take(0));
    while i < length
        invariant
            i <= length,
            all == sequences@,
            rest == all.skip(start as int),
            start + length <= sequences.len(),
            list@ == rest.take(i as int),
        decreases length - i,
    {
        list.push(sequences[start + i]);
        assert(list@ =~= rest.take(i + 1));
        i += 1;
    }
    assert(rest.take(rest.len() as int) =~= rest);
    list
}

/// In ascending records, a page holds nothing but what comes after, and nothing between the last
/// one read and the page is passed over.
pub proof fn pages_pass_nothing_over(sequences: Seq<u64>, after: u64, id: u64)
    requires
        forall|i: int, j: int| 0 <= i < j < sequences.len() ==> sequences[i] < sequences[j],
        sequences.contains(id),
        id > after,
    ensures
        ({
            let page = page_after(sequences, after);
            &&& page.len() > 0
            &&& page[0] > after
            &&& page.contains(id) || (page.len() == PAGE && id > page.last())
        }),
{
    place_in_range(sequences, after);
    let k = place_after(sequences, after);
    let rest = sequences.skip(k);
    let page = page_after(sequences, after);
    let j = choose|j: int| 0 <= j < sequences.len() && sequences[j] == id;
    assert(j >= k);
    assert(rest[j - k] == id);
    assert(rest[0] == sequences[k]);
    if rest.len() > PAGE {
        if j - k < PAGE {
            assert(page[j - k] == id);
        } else {
            assert(page.last() == sequences[k + PAGE - 1]);
        }
    } else {
        assert(page == rest);
    }
}

} // verus!
