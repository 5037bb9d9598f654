//! Native histories that are files of lines: they are read in batches, and nothing is lost or read
//! twice.
use super::claude_protocol::events_result;
use super::process::MAX_LINE;
use super::product::Product;
use super::{events, no_events, push_event, Event, EventView};
use crate::fault::{other, Fault, FaultView};
use crate::json::{object, uint, Data, Json};
use crate::text::{byte_len, concat, ends_with, finishes, size, text_strict};
use crate::wire::{parse, text_read};
use vstd::prelude::*;
use vstd::slice::slice_subrange;
use vstd::utf8::{decode_utf8, encode_utf8, valid_utf8};

verus! {

/// A record of native history, with the place where it begins.
pub open spec fn native_record(offset: u64, raw: Seq<char>) -> EventView {
    EventView::Record {
        kind: "native_record"@,
        data: Data::Object(map!["offset"@ => uint(offset)]),
        native: Some(raw),
    }
}

fn record_native(offset: u64, raw: String) -> (r: Event)
    ensures
        r@ == native_record(offset, raw@),
{
    Event::Record {
        kind: "native_record".to_owned(),
        data: Json::Object(object().with("offset", Json::uint(offset))),
        native: Some(raw),
    }
}

// Histories read line by line.

/// A batch ends once it holds so many bytes.
pub const BATCH: u64 = 65536;

/// How far a batch of lines has come.
pub struct BatchView {
    pub told: Seq<EventView>,
    pub offset: u64,
    /// The history ends here for now.
    pub ended: bool,
}

/// A batch with one more line.
pub open spec fn batch_line(b: BatchView, start: u64, raw: Seq<char>, product: Seq<char>) -> Result<
    BatchView,
    FaultView,
> {
    if b.ended || b.offset - start >= BATCH {
        Ok(b)
    } else if byte_len(raw) > MAX_LINE {
        Err(other(product + " native record too large"@))
    } else if !finishes(raw, "\n"@) {
        Ok(BatchView { ended: true, ..b })
    } else if text_read(raw) is Err {
        Err(text_read(raw)->Err_0)
    } else if b.offset + byte_len(raw) > u64::MAX {
        Err(other("native offset overflow"@))
    } else {
        Ok(
            BatchView {
                told: b.told.push(native_record(b.offset, raw)),
                offset: (b.offset + byte_len(raw)) as u64,
                ended: false,
            },
        )
    }
}

/// A batch of lines. A line that is not complete is left for the next batch.
pub open spec fn batch(
    start: u64,
    lines: Seq<Seq<char>>,
    product: Seq<char>,
) -> Result<BatchView, FaultView>
    decreases lines.len(),
{
    if lines.len() == 0 {
        Ok(BatchView { told: Seq::empty(), offset: start, ended: false })
    } else {
        match batch(start, lines.drop_last(), product) {
            Err(f) => Err(f),
            Ok(b) => batch_line(b, start, lines.last(), product),
        }
    }
}

/// The history of claude_code: a file of lines.
#[derive(Debug)]
pub struct Capture {
    pub offset: u64,
    /// There may be more to read at once.
    pub more: bool,
}

/// The place of a batch, and what is told of it. Nothing is told of a batch that is refused, and it
/// is read again.
pub open spec fn captured(was: u64, length: u64, lines: Seq<Seq<char>>, product: Seq<char>) -> (
    u64,
    bool,
    Result<Seq<EventView>, FaultView>,
) {
    if length < was {
        (was, false, Err(other(product + " history was truncated"@)))
    } else {
        match batch(was, lines, product) {
            Err(f) => (was, false, Err(f)),
            Ok(b) => (b.offset, b.offset - was >= BATCH, Ok(b.told)),
        }
    }
}

impl Capture {
    /// Reading begins at an offset.
    pub fn new(offset: u64) -> (r: Capture)
        ensures
            r.offset == offset,
            !r.more,
    {
        Capture { offset, more: false }
    }

    /// Reads the lines that the history holds from here on, given its length in bytes.
    pub fn read(
        &mut self,
        length: u64,
        lines: &Vec<String>,
        product: &Product,
    ) -> (r: Result<Vec<Event>, Fault>)
        ensures
            (final(self).offset, final(self).more, events_result(r)) == captured(
                old(self).offset,
                length,
                crate::text::views(lines@),
                product.name@,
            ),
    {
        self.more = false;
        if length < self.offset {
            return Err(
                Fault::other(concat(product.name.as_str(), " history was truncated").as_str()),
            );
        }
        let ghost all = crate::text::views(lines@);
        let start = self.offset;
        let mut offset = start;
        let mut ended = false;
        let mut list = no_events();
        let mut i: usize = 0;
        assert(all.take(0) =~= Seq::empty());
        while i < lines.len()
            invariant
                i <= lines.len(),
                start <= offset,
                all == crate::text::views(lines@),
                batch(start, all.take(i as int), product.name@) == Ok::<BatchView, FaultView>(
                    BatchView { told: events(list@), offset, ended },
                ),
                self.offset == start,
                self.more == false,
                old(self).offset == start,
                length >= start,
            decreases lines.len() - i,
        {
            assert(all.take(i + 1).drop_last() =~= all.take(i as int));
            assert(all.take(i + 1).last() == lines@[i as int]@);
            let raw = lines[i].as_str();
            if !ended && offset - start < BATCH {
                let n = size(raw);
                if n > MAX_LINE {
                    proof {
                        batch_fails(start, all, i + 1, product.name@);
                    }
                    return Err(
                        Fault::other(
                            concat(product.name.as_str(), " native record too large").as_str(),
                        ),
                    );
                }
                if !ends_with(raw, "\n") {
                    ended = true;
                } else {
                    if let Err(fault) = parse(raw) {
                        proof {
                            batch_fails(start, all, i + 1, product.name@);
                        }
                        return Err(fault);
                    }
                    match offset.checked_add(n as u64) {
                        None => {
                            proof {
                                batch_fails(start, all, i + 1, product.name@);
                            }
                            return Err(Fault::other("native offset overflow"));
                        },
                        Some(next) => {
                            push_event(&mut list, record_native(offset, raw.to_owned()));
                            offset = next;
                        },
                    }
                }
            }
            i += 1;
        }
        assert(all.take(i as int) =~= all);
        self.offset = offset;
        self.more = offset - start >= BATCH;
        Ok(list)
    }
}

proof fn batch_fails(start: u64, lines: Seq<Seq<char>>, i: int, product: Seq<char>)
    requires
        0 <= i <= lines.len(),
        batch(start, lines.take(i), product) is Err,
    ensures
        batch(start, lines, product) == batch(start, lines.take(i), product),
    decreases lines.len() - i,
{
    if i < lines.len() {
        assert(lines.take(i + 1).drop_last() =~= lines.take(i));
        batch_fails(start, lines, i + 1, product);
    } else {
        assert(lines.take(i) =~= lines);
    }
}

/// The lengths of what records hold, together.
pub open spec fn native_bytes(told: Seq<EventView>) -> nat
    decreases told.len(),
{
    if told.len() == 0 {
        0
    } else {
        native_bytes(told.drop_last()) + match told.last() {
            EventView::Record { native: Some(raw), .. } => byte_len(raw),
            _ => 0,
        }
    }
}

/// Reading goes on exactly where the recorded lines end.
pub proof fn reading_continues(start: u64, lines: Seq<Seq<char>>, product: Seq<char>)
    ensures
        match batch(start, lines, product) {
            Ok(b) => b.offset == start + native_bytes(b.told),
            Err(_) => true,
        },
    decreases lines.len(),
{
    if lines.len() > 0 {
        reading_continues(start, lines.drop_last(), product);
        if let Ok(b) = batch(start, lines.drop_last(), product) {
            let raw = lines.last();
            assert(b.told.push(native_record(b.offset, raw)).drop_last() =~= b.told);
        }
    }
}

// Histories read in blocks of bytes.

/// The place of the first line feed.
pub open spec fn line_end(bytes: Seq<u8>) -> Option<int>
    decreases bytes.len(),
{
    if bytes.len() == 0 {
        None
    } else if bytes[0] == 10 {
        Some(0int)
    } else {
        match line_end(bytes.subrange(1, bytes.len() as int)) {
            Some(i) => Some(i + 1),
            None => None,
        }
    }
}

/// The first line feed is a place in the bytes.
pub proof fn line_end_bounds(bytes: Seq<u8>)
    ensures
        match line_end(bytes) {
            Some(i) => 0 <= i < bytes.len() && bytes[i] == 10 && forall|j: int|
                0 <= j < i ==> bytes[j] != 10,
            None => forall|j: int| 0 <= j < bytes.len() ==> bytes[j] != 10,
        },
    decreases bytes.len(),
{
    if bytes.len() > 0 {
        let rest = bytes.subrange(1, bytes.len() as int);
        line_end_bounds(rest);
        assert forall|j: int| 1 <= j < bytes.len() implies bytes[j] == rest[j - 1] by {}
    }
}

/// The lines of bytes, and what is left of them.
pub struct CutView {
    pub told: Seq<EventView>,
    pub offset: int,
    pub rest: Seq<u8>,
}

/// Cuts bytes into records of lines; what follows the last line is left.
pub open spec fn cut(bytes: Seq<u8>, offset: int) -> Result<CutView, FaultView>
    decreases bytes.len(),
{
    match line_end(bytes) {
        None => if bytes.len() > MAX_LINE {
            Err(other("native history record too large"@))
        } else {
            Ok(CutView { told: Seq::empty(), offset, rest: bytes })
        },
        Some(i) => if !(0 <= i < bytes.len()) || i + 1 > MAX_LINE {
            Err(other("native history record too large"@))
        } else {
            let line = bytes.subrange(0, i + 1);
            if !valid_utf8(line) {
                Err(other("native history is not UTF-8"@))
            } else {
                match cut(bytes.subrange(i + 1, bytes.len() as int), offset + i + 1) {
                    Err(f) => Err(f),
                    Ok(c) => Ok(
                        CutView {
                            told: seq![native_record(offset as u64, decode_utf8(line))] + c.told,
                            ..c
                        },
                    ),
                }
            }
        },
    }
}

/// The history of Codex: a file that is read in blocks.
#[derive(Debug)]
pub struct Tail {
    pub read_offset: u64,
    pub committed_offset: u64,
    pub partial: Vec<u8>,
    /// There may be more to read at once.
    pub more: bool,
}

/// The mathematical value of a tail.
pub struct TailView {
    pub read_offset: u64,
    pub committed_offset: u64,
    pub partial: Seq<u8>,
    pub more: bool,
}

impl View for Tail {
    type V = TailView;

    open spec fn view(&self) -> TailView {
        TailView {
            read_offset: self.read_offset,
            committed_offset: self.committed_offset,
            partial: self.partial@,
            more: self.more,
        }
    }
}

/// What was read and not recorded yet is held back.
pub open spec fn tail_sound(t: TailView) -> bool {
    t.committed_offset + t.partial.len() == t.read_offset
}

/// The tail after one more block, and what is told of it. Nothing of a block that is refused is
/// kept, so that it can be read again.
pub open spec fn fed(t: TailView, bytes: Seq<u8>) -> (TailView, Result<Seq<EventView>, FaultView>) {
    match cut(t.partial + bytes, t.committed_offset as int) {
        Err(f) => (TailView { more: false, ..t }, Err(f)),
        Ok(c) => (
            TailView {
                read_offset: (t.read_offset + bytes.len()) as u64,
                committed_offset: c.offset as u64,
                partial: c.rest,
                more: bytes.len() > 0,
            },
            Ok(c.told),
        ),
    }
}

fn find_line(bytes: &[u8], from: usize) -> (r: Option<usize>)
    requires
        from <= bytes.len(),
    ensures
        match r {
            Some(i) => i < bytes.len() - from && line_end(
                bytes@.subrange(from as int, bytes@.len() as int),
            ) == Some(i as int),
            None => line_end(bytes@.subrange(from as int, bytes@.len() as int)) is None,
        },
{
    let mut i: usize = from;
    let ghost tail = bytes@.subrange(from as int, bytes@.len() as int);
    proof {
        line_end_bounds(tail);
    }
    while i < bytes.len()
        invariant
            from <= i <= bytes.len(),
            tail == bytes@.subrange(from as int, bytes@.len() as int),
            forall|j: int| from <= j < i ==> bytes@[j] != 10,
            match line_end(tail) {
                Some(k) => 0 <= k < tail.len() && tail[k] == 10 && forall|j: int|
                    0 <= j < k ==> tail[j] != 10,
                None => forall|j: int| 0 <= j < tail.len() ==> tail[j] != 10,
            },
        decreases bytes.len() - i,
    {
        if bytes[i] == 10 {
            assert(tail[i - from] == 10);
            return Some(i - from);
        }
        i += 1;
    }
    proof {
        if let Some(k) = line_end(tail) {
            assert(bytes@[from + k] == 10);
        }
    }
    None
}

impl Tail {
    /// Reading begins at an offset.
    pub fn new(offset: u64) -> (r: Tail)
        ensures
            r@ == (TailView {
                read_offset: offset,
                committed_offset: offset,
                partial: Seq::empty(),
                more: false,
            }),
            tail_sound(r@),
    {
        Tail { read_offset: offset, committed_offset: offset, partial: Vec::new(), more: false }
    }

    /// Whether the history is shorter than what was read of it.
    pub fn truncated(&self, length: u64) -> (r: bool)
        ensures
            r == (length < self@.read_offset),
    {
        length < self.read_offset
    }

    /// Takes in the next block of the history.
    pub fn feed(&mut self, bytes: &[u8]) -> (r: Result<Vec<Event>, Fault>)
        requires
            tail_sound(old(self)@),
            old(self)@.read_offset + bytes@.len() <= u64::MAX,
            old(self)@.partial.len() + bytes@.len() <= usize::MAX,
        ensures
            (final(self)@, events_result(r)) == fed(old(self)@, bytes@),
            tail_sound(final(self)@),
    {
        self.more = false;
        let ghost t = old(self)@;
        let mut whole: Vec<u8> = Vec::new();
        let mut k: usize = 0;
        while k < self.partial.len()
            invariant
                k <= self.partial.len(),
                whole@ == self.partial@.take(k as int),
            decreases self.partial.len() - k,
        {
            whole.push(self.partial[k]);
            k += 1;
            assert(whole@ =~= self.partial@.take(k as int));
        }
        let mut m: usize = 0;
        assert(whole@ =~= self.partial@ + bytes@.take(0));
        while m < bytes.len()
            invariant
                m <= bytes.len(),
                whole@ == self.partial@ + bytes@.take(m as int),
            decreases bytes.len() - m,
        {
            whole.push(bytes[m]);
            m += 1;
            assert(whole@ =~= self.partial@ + bytes@.take(m as int));
        }
        assert(whole@ =~= t.partial + bytes@);
        let ghost all = whole@;
        let ghost goal = cut(all, t.committed_offset as int);
        let mut list = no_events();
        let mut at: usize = 0;
        assert(all.subrange(0, all.len() as int) =~= all);
        proof {
            if let Ok(c) = goal {
                assert(Seq::<EventView>::empty() + c.told =~= c.told);
            }
        }
        loop
            invariant
                all == whole@,
                at <= whole.len(),
                t.committed_offset + all.len() <= u64::MAX,
                t.committed_offset + all.len() == t.read_offset + bytes@.len(),
                self@ == (TailView { more: false, ..t }),
                t == old(self)@,
                tail_sound(t),
                all == t.partial + bytes@,
                goal == cut(all, t.committed_offset as int),
                match cut(all.subrange(at as int, all.len() as int), t.committed_offset + at) {
                    Err(f) => goal == Err::<CutView, FaultView>(f),
                    Ok(c) => goal == Ok::<CutView, FaultView>(
                        CutView { told: events(list@) + c.told, ..c },
                    ),
                },
            decreases whole.len() - at,
        {
            let ghost left = all.subrange(at as int, all.len() as int);
            match find_line(whole.as_slice(), at) {
                None => {
                    if whole.len() - at > MAX_LINE {
                        return Err(Fault::other("native history record too large"));
                    }
                    let rest = slice_subrange(whole.as_slice(), at, whole.len());
                    let mut kept: Vec<u8> = Vec::new();
                    let mut j: usize = 0;
                    while j < rest.len()
                        invariant
                            j <= rest.len(),
                            kept@ == rest@.take(j as int),
                        decreases rest.len() - j,
                    {
                        kept.push(rest[j]);
                        j += 1;
                        assert(kept@ =~= rest@.take(j as int));
                    }
                    assert(kept@ =~= left);
                    self.read_offset = self.read_offset + bytes.len() as u64;
                    self.committed_offset = self.committed_offset + at as u64;
                    self.partial = kept;
                    self.more = bytes.len() > 0;
                    assert(events(list@) + Seq::<EventView>::empty() =~= events(list@));
                    return Ok(list);
                },
                Some(i) => {
                    if i >= MAX_LINE {
                        return Err(Fault::other("native history record too large"));
                    }
                    let line = slice_subrange(whole.as_slice(), at, at + i + 1);
                    assert(line@ =~= left.subrange(0, i + 1));
                    match text_strict(line) {
                        None => {
                            return Err(Fault::other("native history is not UTF-8"));
                        },
                        Some(raw) => {
                            let ghost was = events(list@);
                            let offset = self.committed_offset + at as u64;
                            push_event(&mut list, record_native(offset, raw));
                            assert(left.subrange(i + 1, left.len() as int) =~= all.subrange(
                                at + i + 1,
                                all.len() as int,
                            ));
                            proof {
                                let tail = cut(
                                    all.subrange(at + i + 1, all.len() as int),
                                    t.committed_offset + at + i + 1,
                                );
                                if let Ok(c) = tail {
                                    assert(was + (seq![
                                        native_record(offset, decode_utf8(line@)),
                                    ] + c.told) =~= events(list@) + c.told);
                                }
                            }
                            at = at + i + 1;
                        },
                    }
                },
            }
        }
    }
}

/// The bytes that records hold, one after the other.
pub open spec fn recorded_bytes(told: Seq<EventView>) -> Seq<u8>
    decreases told.len(),
{
    if told.len() == 0 {
        Seq::empty()
    } else {
        (match told[0] {
            EventView::Record { native: Some(raw), .. } => encode_utf8(raw),
            _ => Seq::empty(),
        }) + recorded_bytes(told.subrange(1, told.len() as int))
    }
}

/// Every byte of a history is recorded, or held back for the next block: nothing is lost, and
/// nothing is recorded twice.
pub proof fn every_byte_is_kept(bytes: Seq<u8>, offset: int)
    ensures
        match cut(bytes, offset) {
            Ok(c) => recorded_bytes(c.told) + c.rest == bytes && c.offset + c.rest.len() == offset
                + bytes.len(),
            Err(_) => true,
        },
    decreases bytes.len(),
{
    line_end_bounds(bytes);
    match line_end(bytes) {
        None => {
            assert(recorded_bytes(Seq::empty()) + bytes =~= bytes);
        },
        Some(i) => {
            let line = bytes.subrange(0, i + 1);
            let left = bytes.subrange(i + 1, bytes.len() as int);
            every_byte_is_kept(left, offset + i + 1);
            if i + 1 <= MAX_LINE && valid_utf8(line) {
                if let Ok(c) = cut(left, offset + i + 1) {
                    let first = native_record(offset as u64, decode_utf8(line));
                    let told = seq![first] + c.told;
                    assert(told.subrange(1, told.len() as int) =~= c.told);
                    vstd::utf8::decode_utf8_encode_utf8(line);
                    assert(encode_utf8(decode_utf8(line)) == line);
                    assert(recorded_bytes(told) + c.rest =~= line + (recorded_bytes(c.told)
                        + c.rest));
                    assert(line + left =~= bytes);
                }
            }
        },
    }
}

} // verus!
