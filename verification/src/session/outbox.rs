//! The journal: append-only durable records, and how far they are saved elsewhere.
use crate::fault::{other, Fault, FaultView};
use crate::text::{chars_of, decimal, decimal_of, number, parse_number, push_char, push_text, same};
use vstd::prelude::*;

verus! {

/// Where the journal stands. Database acknowledgement is separate from local acceptance. A write
/// is begun before the file system is touched and ended when the file system has confirmed it; a
/// journal whose write was begun and not ended takes no more writes.
pub struct Journal {
    next: u64,
    saved: u64,
    writable: bool,
}

/// The mathematical value of a journal.
pub struct JournalView {
    /// The last record.
    pub last: nat,
    /// The last record that is saved elsewhere.
    pub saved: nat,
    pub writable: bool,
}

impl View for Journal {
    type V = JournalView;

    closed spec fn view(&self) -> JournalView {
        JournalView {
            last: (self.next - 1) as nat,
            saved: self.saved as nat,
            writable: self.writable,
        }
    }
}

/// The journal while a write is under way.
pub open spec fn begun(j: JournalView) -> JournalView {
    JournalView { writable: false, ..j }
}

/// The journal after the write of the next record.
pub open spec fn appended(j: JournalView) -> JournalView {
    JournalView { last: j.last + 1, writable: true, ..j }
}

/// What a record of the journal holds, given what the files hold.
pub open spec fn record_held(j: JournalView, files: Map<Seq<char>, Seq<u8>>, id: nat) -> Option<
    Seq<u8>,
> {
    if 1 <= id <= j.last && files.contains_key(record_name(id)) {
        Some(files[record_name(id)])
    } else {
        None
    }
}

/// A number with zeros before it, twenty digits in all.
pub open spec fn padded(text: Seq<char>) -> Seq<char> {
    zeros(text.len()) + text
}

/// The zeros before a number of so many digits.
pub open spec fn zeros(digits: nat) -> Seq<char> {
    Seq::new(
        if digits < 20 {
            (20 - digits) as nat
        } else {
            0
        },
        |i: int| '0',
    )
}

/// The name of the file of a record.
pub open spec fn record_name(id: nat) -> Seq<char> {
    padded(decimal(id)) + ".record"@
}

/// The name of the file of a record.
pub fn record_file(id: u64) -> (r: String)
    ensures
        r@ == record_name(id as nat),
{
    let digits = decimal_of(id);
    let count = chars_of(digits.as_str()).len();
    let mut out = String::new();
    let mut i: usize = count;
    assert(out@ =~= Seq::new(0nat, |i: int| '0'));
    if count < 20 {
        while i < 20
            invariant
                count <= i <= 20,
                out@ == Seq::new((i - count) as nat, |i: int| '0'),
            decreases 20 - i,
        {
            push_char(&mut out, '0');
            i += 1;
            assert(out@ =~= Seq::new((i - count) as nat, |i: int| '0'));
        }
    }
    assert(out@ =~= zeros(count as nat));
    push_text(&mut out, digits.as_str());
    push_text(&mut out, ".record");
    out
}

/// The identifiers are one to their number, each once, in any order.
pub open spec fn complete(ids: Seq<u64>) -> bool {
    forall|n: u64| 1 <= n <= ids.len() ==> #[trigger] ids.contains(n)
}

/// What opening a journal of the given records, with the given saved cursor, gives.
pub open spec fn opened(ids: Seq<u64>, saved: Option<Seq<char>>) -> Result<JournalView, FaultView> {
    if !complete(ids) {
        Err(other("journal has missing or duplicate records"@))
    } else {
        match saved {
            None => Ok(JournalView { last: ids.len(), saved: 0, writable: true }),
            Some(text) => match number(text, u64::MAX as nat) {
                None => Err(other("invalid saved cursor"@)),
                Some(n) => if n > ids.len() {
                    Err(other("saved cursor exceeds journal"@))
                } else {
                    Ok(JournalView { last: ids.len(), saved: n, writable: true })
                },
            },
        }
    }
}

/// The result of an operation on a journal, as a mathematical value.
pub open spec fn journal_result(r: Result<Journal, Fault>) -> Result<JournalView, FaultView> {
    match r {
        Ok(j) => Ok(j@),
        Err(f) => Err(f@),
    }
}

/// The identifier that the name of a record file tells.
pub open spec fn record_id(stem: Seq<char>, name: Seq<char>) -> Result<nat, FaultView> {
    match number(stem, u64::MAX as nat) {
        None => Err(other("invalid journal filename"@)),
        Some(id) => if name == record_name(id) {
            Ok(id)
        } else {
            Err(other("noncanonical journal filename"@))
        },
    }
}

/// The identifier that the name of a record file tells. `stem` is the name without its extension.
pub fn parse_record_file(stem: &str, name: &str) -> (r: Result<u64, Fault>)
    ensures
        match r {
            Ok(id) => record_id(stem@, name@) == Ok::<nat, FaultView>(id as nat),
            Err(f) => record_id(stem@, name@) == Err::<nat, FaultView>(f@),
        },
{
    let chars = chars_of(stem);
    match parse_number(chars.as_slice(), u64::MAX) {
        None => Err(Fault::other("invalid journal filename")),
        Some(id) => {
            let expected = record_file(id);
            if same(name, expected.as_str()) {
                Ok(id)
            } else {
                Err(Fault::other("noncanonical journal filename"))
            }
        },
    }
}

fn has_id(ids: &Vec<u64>, id: u64) -> (r: bool)
    ensures
        r == ids@.contains(id),
{
    let mut i: usize = 0;
    while i < ids.len()
        invariant
            i <= ids.len(),
            forall|j: int| 0 <= j < i ==> ids@[j] != id,
        decreases ids.len() - i,
    {
        if ids[i] == id {
            assert(ids@[i as int] == id);
            return true;
        }
        i += 1;
    }
    false
}

impl Journal {
    #[verifier::type_invariant]
    spec fn wf(self) -> bool {
        self.saved < self.next
    }

    /// The journal of the given records, with the saved cursor as it was read.
    pub fn open(ids: &Vec<u64>, saved: Option<&str>) -> (r: Result<Journal, Fault>)
        requires
            ids@.len() < u64::MAX,
        ensures
            journal_result(r) == opened(ids@, crate::text::opt_str(saved)),
    {
        let count = ids.len() as u64;
        let mut n: u64 = 1;
        while n <= count
            invariant
                count == ids@.len(),
                count < u64::MAX,
                1 <= n <= count + 1,
                forall|k: u64| 1 <= k < n ==> #[trigger] ids@.contains(k),
            decreases count + 1 - n,
        {
            if !has_id(ids, n) {
                return Err(Fault::other("journal has missing or duplicate records"));
            }
            n += 1;
        }
        let cursor: u64 = match saved {
            None => 0,
            Some(text) => {
                let chars = chars_of(text);
                match parse_number(chars.as_slice(), u64::MAX) {
                    Some(value) => value,
                    None => {
                        return Err(Fault::other("invalid saved cursor"));
                    },
                }
            },
        };
        if cursor > count {
            return Err(Fault::other("saved cursor exceeds journal"));
        }
        Ok(Journal { next: count + 1, saved: cursor, writable: true })
    }

    /// Whether the journal takes writes.
    pub fn writable(&self) -> (r: bool)
        ensures
            r == self@.writable,
    {
        self.writable
    }

    /// The last record. No more is saved elsewhere than there is.
    pub fn last(&self) -> (r: u64)
        ensures
            r == self@.last,
            self@.saved <= self@.last < u64::MAX,
    {
        proof {
            use_type_invariant(self);
        }
        self.next - 1
    }

    /// The last record that is saved elsewhere.
    pub fn saved(&self) -> (r: u64)
        ensures
            r == self@.saved,
    {
        self.saved
    }

    /// The number of records that are not saved elsewhere yet.
    pub fn pending(&self) -> (r: u64)
        ensures
            r == self@.last - self@.saved,
    {
        proof {
            use_type_invariant(self);
        }
        self.next - 1 - self.saved
    }

    /// The file of a record of the journal.
    pub fn read(&self, id: u64) -> (r: Result<String, Fault>)
        ensures
            match r {
                Ok(name) => 1 <= id <= self@.last && name@ == record_name(id as nat),
                Err(f) => !(1 <= id <= self@.last) && f@ == other("record outside journal"@),
            },
    {
        proof {
            use_type_invariant(self);
        }
        if id == 0 || id >= self.next {
            return Err(Fault::other("record outside journal"));
        }
        Ok(record_file(id))
    }

    /// Begins a write. A rename followed by a failed directory sync has an uncertain outcome:
    /// further writes are refused until reopening, rather than overwrite that record.
    pub fn begin_write(&mut self) -> (r: Result<(), Fault>)
        ensures
            match r {
                Ok(_) => old(self)@.writable,
                Err(f) => !old(self)@.writable && f@ == other(
                    "journal requires recovery after a write failure"@,
                ),
            },
            final(self)@ == begun(old(self)@),
    {
        proof {
            use_type_invariant(&*self);
        }
        if !self.writable {
            return Err(Fault::other("journal requires recovery after a write failure"));
        }
        self.writable = false;
        Ok(())
    }

    /// Ends the write of the next record, which the file system has confirmed. The last number
    /// that a record could have is never given out.
    pub fn end_append(&mut self) -> (r: u64)
        requires
            old(self)@.last + 2 <= u64::MAX,
        ensures
            r == old(self)@.last + 1,
            final(self)@ == appended(old(self)@),
    {
        proof {
            use_type_invariant(&*self);
        }
        let id = self.next;
        self.next = id + 1;
        self.writable = true;
        id
    }

    /// Whether an acknowledgement may be saved: it goes forward, and not past the last record.
    pub fn check_acknowledgement(&self, id: u64) -> (r: Result<(), Fault>)
        ensures
            match r {
                Ok(_) => self@.saved <= id <= self@.last,
                Err(f) => !(self@.saved <= id <= self@.last) && f@ == other(
                    "invalid acknowledgement"@,
                ),
            },
    {
        proof {
            use_type_invariant(self);
        }
        if id < self.saved || id >= self.next {
            return Err(Fault::other("invalid acknowledgement"));
        }
        Ok(())
    }

    /// Ends the write of an acknowledgement, which the file system has confirmed. Called only after
    /// the database confirms that the complete prefix was committed.
    pub fn end_acknowledge(&mut self, id: u64)
        requires
            old(self)@.saved <= id <= old(self)@.last,
        ensures
            final(self)@ == (JournalView { saved: id as nat, writable: true, ..old(self)@ }),
    {
        proof {
            use_type_invariant(&*self);
        }
        self.saved = id;
        self.writable = true;
    }
}

/// Each record has a file of its own.
pub proof fn record_names_differ(a: nat, b: nat)
    requires
        a <= u64::MAX,
        b <= u64::MAX,
        record_name(a) == record_name(b),
    ensures
        a == b,
{
    crate::text::decimal_reads_back(a, a + b);
    crate::text::decimal_reads_back(b, a + b);
    reveal_strlit(".record");
    let x = padded(decimal(a));
    let y = padded(decimal(b));
    assert(record_name(a).len() == x.len() + ".record"@.len());
    assert(record_name(b).len() == y.len() + ".record"@.len());
    assert(x =~= record_name(a).subrange(0, x.len() as int));
    assert(y =~= record_name(b).subrange(0, x.len() as int));
    assert(x == y);
    crate::text::padding_keeps_the_value(a, zeros(decimal(a).len()).len());
    crate::text::padding_keeps_the_value(b, zeros(decimal(b).len()).len());
}

/// A record that is appended has the next number and is held from then on; the records before it stay
/// as they are, and what is saved elsewhere does not change: accepting a record is not saving it.
pub proof fn appended_records_are_kept(
    j: JournalView,
    files: Map<Seq<char>, Seq<u8>>,
    record: Seq<u8>,
)
    requires
        j.writable,
        j.last + 1 < u64::MAX,
    ensures
        ({
            let after = appended(begun(j));
            let now = files.insert(record_name(j.last + 1), record);
            &&& after.last == j.last + 1
            &&& after.saved == j.saved
            &&& after.writable
            &&& record_held(after, now, j.last + 1) == Some(record)
            &&& forall|k: nat|
                1 <= k <= j.last ==> #[trigger] record_held(after, now, k) == record_held(j, files, k)
        }),
{
    let after = appended(begun(j));
    let now = files.insert(record_name(j.last + 1), record);
    assert forall|k: nat| 1 <= k <= j.last implies #[trigger] record_held(after, now, k)
        == record_held(j, files, k) by {
        if record_name(k) == record_name(j.last + 1) {
            record_names_differ(k, j.last + 1);
        }
    }
}

} // verus!
