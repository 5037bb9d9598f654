//! All sessions, and the journal they are recorded in.
use super::outbox::{Journal, JournalView};
use super::state::{failure, record_applied};
use super::{blank_session, Record, RecordView, Session, SessionView};
use crate::fault::{other, Fault, FaultView};
use crate::json::{values, Data, Json};
use crate::runtime::{checkpoint, checkpointed};
use crate::table::Table;
use crate::text::{opt, opt_slice, same};
use vstd::prelude::*;

verus! {

/// The sessions of this service. A session is brought up to each of its records in turn.
pub struct Local {
    pub journal: Journal,
    /// The word of the product after which one of the harnesses is named.
    pub word: String,
    pub sessions: Table<Session>,
    /// The records of each session, in order.
    pub sequences: Table<Vec<u64>>,
}

/// The mathematical value of the sessions.
pub struct LocalView {
    pub journal: JournalView,
    pub word: Seq<char>,
    pub sessions: Map<Seq<char>, SessionView>,
    pub sequences: Map<Seq<char>, Seq<u64>>,
}

impl View for Local {
    type V = LocalView;

    open spec fn view(&self) -> LocalView {
        LocalView {
            journal: self.journal@,
            word: self.word@,
            sessions: self.sessions@,
            sequences: self.sequences@,
        }
    }
}

impl LocalView {
    /// A session, or one of which nothing is recorded.
    pub open spec fn session_or_new(self, id: Seq<char>) -> SessionView {
        if self.sessions.contains_key(id) {
            self.sessions[id]
        } else {
            blank_session(id, "starting"@, self.word)
        }
    }

    /// The records of a session, in order.
    pub open spec fn records_of(self, id: Seq<char>) -> Seq<u64> {
        if self.sequences.contains_key(id) {
            self.sequences[id]
        } else {
            Seq::empty()
        }
    }

    /// The sessions with one of them changed.
    pub open spec fn with_session(self, id: Seq<char>, s: SessionView) -> LocalView {
        LocalView { sessions: self.sessions.insert(id, s), ..self }
    }

    /// One more record of a session.
    pub open spec fn with_sequence(self, id: Seq<char>, sequence: u64) -> LocalView {
        LocalView {
            sequences: self.sequences.insert(id, self.records_of(id).push(sequence)),
            ..self
        }
    }
}

/// The sessions after a record of one of them.
pub open spec fn one_applied(l: LocalView, r: RecordView) -> (LocalView, Option<FaultView>) {
    let (s, f) = record_applied(l.session_or_new(r.session_id), r);
    let next = l.with_session(r.session_id, s);
    match f {
        Some(_) => (next, f),
        None => (next.with_sequence(r.session_id, r.sequence), None),
    }
}

/// A receipt that comes with another record.
pub open spec fn imported_receipt(r: RecordView, data: Data) -> RecordView {
    RecordView { kind: "receipt"@, data, native: None, ..r }
}

/// The sessions after receipts that come with one record, up to the first that is refused.
pub open spec fn receipts_imported(l: LocalView, r: RecordView, items: Seq<Data>) -> (
    LocalView,
    Option<FaultView>,
)
    decreases items.len(),
{
    if items.len() == 0 {
        (l, None)
    } else {
        let (before, f) = receipts_imported(l, r, items.drop_last());
        match f {
            Some(_) => (before, f),
            None => one_applied(before, imported_receipt(r, items.last())),
        }
    }
}

/// The session that a conversation from another machine continues in.
pub open spec fn imported_session(s: SessionView, id: Seq<char>, path: Seq<char>) -> SessionView {
    SessionView { native_id: Some(id), native_path: Some(path), state: "suspended"@, ..s }
}

/// The sessions after a conversation comes from another machine. Its receipts and prompts count as
/// one record.
pub open spec fn teleport_applied(l: LocalView, r: RecordView) -> (LocalView, Option<FaultView>) {
    match r.data.field("prompts"@).as_array() {
        None => (l, Some(other("invalid imported prompts"@))),
        Some(prompts) => {
            let (next, f) = receipts_imported(l, r, seq![r.data.field("receipt"@)] + prompts);
            let s = next.sessions[r.session_id];
            match f {
                Some(_) => (next, f),
                None => match r.data.field("native_id"@).as_text() {
                    None => (next, Some(other("missing imported identity"@))),
                    Some(id) => match r.data.field("native_path"@).as_text() {
                        None => (
                            next.with_session(
                                r.session_id,
                                SessionView { native_id: Some(id), ..s },
                            ),
                            Some(other("missing imported history"@)),
                        ),
                        Some(path) => (
                            LocalView {
                                sessions: next.sessions.insert(
                                    r.session_id,
                                    imported_session(s, id, path),
                                ),
                                sequences: next.sequences.insert(
                                    r.session_id,
                                    l.records_of(r.session_id).push(r.sequence),
                                ),
                                ..next
                            },
                            None,
                        ),
                    },
                },
            }
        },
    }
}

/// The sessions after a record.
pub open spec fn applied(l: LocalView, r: RecordView) -> (LocalView, Option<FaultView>) {
    if r.kind == "teleport"@ {
        teleport_applied(l, r)
    } else {
        one_applied(l, r)
    }
}

impl Session {
    fn set_native(&mut self, id: &str, path: Option<&str>)
        ensures
            match path {
                Some(path) => final(self)@ == imported_session(old(self)@, id@, path@),
                None => final(self)@ == (SessionView { native_id: Some(id@), ..old(self)@ }),
            },
    {
        proof {
            reveal(Session::snapshot);
        }
        self.native_id = Some(id.to_owned());
        if let Some(path) = path {
            self.native_path = Some(path.to_owned());
            self.state = "suspended".to_owned();
        }
    }
}

fn copy_sequences(list: Option<&Vec<u64>>) -> (r: Vec<u64>)
    ensures
        r@ == (match list {
            Some(v) => v@,
            None => Seq::empty(),
        }),
{
    let mut out: Vec<u64> = Vec::new();
    if let Some(v) = list {
        let mut i: usize = 0;
        while i < v.len()
            invariant
                i <= v.len(),
                out@ == v@.take(i as int),
            decreases v.len() - i,
        {
            out.push(v[i]);
            i += 1;
            assert(v@.take(i as int) =~= v@.take(i - 1).push(v@[i - 1]));
        }
        assert(v@.take(i as int) =~= v@);
    }
    out
}

impl Record {
    fn receipt_of(&self, data: &Json) -> (r: Record)
        ensures
            r@ == imported_receipt(self@, data@),
    {
        Record {
            sequence: self.sequence,
            session_id: self.session_id.clone(),
            kind: "receipt".to_owned(),
            timestamp_ms: self.timestamp_ms,
            data: data.duplicate(),
            native: None,
        }
    }
}

impl Local {
    /// No sessions yet.
    pub fn new(journal: Journal, word: &str) -> (r: Local)
        ensures
            r@ == (LocalView {
                journal: journal@,
                word: word@,
                sessions: Map::empty(),
                sequences: Map::empty(),
            }),
    {
        Local {
            journal,
            word: word.to_owned(),
            sessions: Table::new(),
            sequences: Table::new(),
        }
    }

    fn take_session(&mut self, id: &str) -> (r: Session)
        ensures
            r@ == old(self)@.session_or_new(id@),
            final(self)@.journal == old(self)@.journal,
            final(self)@.word == old(self)@.word,
            final(self)@.sequences == old(self)@.sequences,
            forall|s: SessionView| #[trigger]
                final(self)@.sessions.insert(id@, s) == old(self)@.sessions.insert(id@, s),
    {
        let ghost was = self.sessions@;
        match self.sessions.remove(id) {
            Some(s) => {
                proof {
                    assert forall|s: SessionView| #[trigger]
                        self.sessions@.insert(id@, s) == was.insert(id@, s) by {
                        assert(self.sessions@.insert(id@, s) =~= was.insert(id@, s));
                    }
                }
                s
            },
            None => Session::blank(id, "starting", self.word.as_str()),
        }
    }

    fn apply_one(&mut self, record: &Record) -> (r: Result<(), Fault>)
        ensures
            (final(self)@, failure(r)) == one_applied(old(self)@, record@),
    {
        let ghost was = self@;
        let id = record.session_id.as_str();
        let mut session = self.take_session(id);
        let ghost rest = self@;
        let result = session.apply(record);
        assert(rest.sessions.insert(id@, session@) == was.sessions.insert(id@, session@));
        self.sessions.insert(id, session);
        if result.is_ok() {
            let mut list = copy_sequences(self.sequences.get(id));
            list.push(record.sequence);
            self.sequences.insert(id, list);
        }
        result
    }

    fn import_receipts(&mut self, record: &Record, first: &Json, items: &Vec<Json>) -> (r: Result<
        (),
        Fault,
    >)
        ensures
            (final(self)@, failure(r)) == receipts_imported(
                old(self)@,
                record@,
                seq![first@] + values(items@),
            ),
            failure(r) is None ==> final(self)@.sessions.contains_key(record@.session_id),
    {
        let ghost was = self@;
        let ghost all = seq![first@] + values(items@);
        let result = self.apply_one(&record.receipt_of(first));
        proof {
            assert(all.take(1).drop_last() =~= Seq::empty());
            assert(all.take(1).last() == first@);
            reveal_with_fuel(receipts_imported, 2);
            assert(receipts_imported(was, record@, all.take(1)) == one_applied(
                was,
                imported_receipt(record@, first@),
            ));
        }
        if result.is_err() {
            proof {
                import_stops(was, record@, all, 1);
            }
            return result;
        }
        let mut i: usize = 0;
        while i < items.len()
            invariant
                i <= items.len(),
                was == old(self)@,
                all == seq![first@] + values(items@),
                (self@, None::<FaultView>) == receipts_imported(was, record@, all.take(i + 1)),
                self@.sessions.contains_key(record@.session_id),
            decreases items.len() - i,
        {
            let ghost before = self@;
            let next = self.apply_one(&record.receipt_of(&items[i]));
            proof {
                assert(values(items@)[i as int] == items@[i as int]@);
                let now = all.take(i + 2);
                assert(now.drop_last() =~= all.take(i + 1));
                assert(now.last() == items@[i as int]@);
                assert(receipts_imported(was, record@, now) == one_applied(
                    before,
                    imported_receipt(record@, items@[i as int]@),
                ));
            }
            if next.is_err() {
                proof {
                    import_stops(was, record@, all, i + 2);
                }
                return next;
            }
            i += 1;
        }
        assert(all.take(i + 1) =~= all);
        Ok(())
    }

    /// Brings the sessions up to a record.
    pub fn apply(&mut self, record: &Record) -> (r: Result<(), Fault>)
        ensures
            (final(self)@, failure(r)) == applied(old(self)@, record@),
    {
        if !same(record.kind.as_str(), "teleport") {
            return self.apply_one(record);
        }
        let prompts = match record.data.field("prompts") {
            Json::Array(items) => items,
            _ => {
                return Err(Fault::other("invalid imported prompts"));
            },
        };
        let id = record.session_id.as_str();
        let mut list = copy_sequences(self.sequences.get(id));
        if let Err(f) = self.import_receipts(record, record.data.field("receipt"), prompts) {
            return Err(f);
        }
        let native = match record.data.field_text("native_id") {
            Some(native) => native,
            None => {
                return Err(Fault::other("missing imported identity"));
            },
        };
        let path = record.data.field_text("native_path");
        let ghost was = self@;
        let mut session = self.take_session(id);
        let ghost rest = self@;
        session.set_native(native, path);
        assert(rest.sessions.insert(id@, session@) == was.sessions.insert(id@, session@));
        self.sessions.insert(id, session);
        if path.is_none() {
            return Err(Fault::other("missing imported history"));
        }
        list.push(record.sequence);
        self.sequences.insert(id, list);
        Ok(())
    }

    /// The next record. One of native history must follow what is captured already.
    pub fn draft(
        &self,
        session: &str,
        kind: &str,
        data: Json,
        native: Option<String>,
        now: u64,
    ) -> (r: Result<Record, Fault>)
        ensures
            match r {
                Ok(record) => drafted(self@, session@, kind@, data@, opt(native), now) == Ok::<
                    RecordView,
                    FaultView,
                >(record@),
                Err(f) => drafted(self@, session@, kind@, data@, opt(native), now) == Err::<
                    RecordView,
                    FaultView,
                >(f@),
            },
    {
        if same(kind, "native_record") {
            match self.sessions.get(session) {
                None => {
                    return Err(Fault::other("native record has no session"));
                },
                Some(s) => {
                    proof {
                        reveal(Session::snapshot);
                    }
                    if let Err(f) = checkpoint(
                        s.harness,
                        &s.native_cursor,
                        &data,
                        opt_slice(&native),
                    ) {
                        return Err(f);
                    }
                },
            }
        }
        let last = self.journal.last();
        Ok(
            Record {
                sequence: last + 1,
                session_id: session.to_owned(),
                kind: kind.to_owned(),
                timestamp_ms: Some(now),
                data,
                native,
            },
        )
    }
}

/// The next record. One of native history must follow what is captured already.
pub open spec fn drafted(
    l: LocalView,
    session: Seq<char>,
    kind: Seq<char>,
    data: Data,
    native: Option<Seq<char>>,
    now: u64,
) -> Result<RecordView, FaultView> {
    let record = RecordView {
        sequence: (l.journal.last + 1) as u64,
        session_id: session,
        kind,
        timestamp_ms: Some(now),
        data,
        native,
    };
    if kind == "native_record"@ && !l.sessions.contains_key(session) {
        Err(other("native record has no session"@))
    } else if kind == "native_record"@ && checkpointed(
        l.sessions[session].harness,
        l.sessions[session].native_cursor,
        data,
        native,
    ) is Err {
        Err(
            checkpointed(
                l.sessions[session].harness,
                l.sessions[session].native_cursor,
                data,
                native,
            )->Err_0,
        )
    } else {
        Ok(record)
    }
}

proof fn import_stops(l: LocalView, r: RecordView, items: Seq<Data>, n: int)
    requires
        0 <= n <= items.len(),
        receipts_imported(l, r, items.take(n)).1 is Some,
    ensures
        receipts_imported(l, r, items) == receipts_imported(l, r, items.take(n)),
    decreases items.len() - n,
{
    if n == items.len() {
        assert(items.take(n) =~= items);
    } else {
        assert(items.take(n + 1).drop_last() =~= items.take(n));
        import_stops(l, r, items, n + 1);
    }
}

/// The sessions after a whole journal, up to the first record that is refused.
pub open spec fn replayed(l: LocalView, records: Seq<RecordView>) -> (LocalView, Option<FaultView>)
    decreases records.len(),
{
    if records.len() == 0 {
        (l, None)
    } else {
        let (before, f) = replayed(l, records.drop_last());
        match f {
            Some(_) => (before, f),
            None => applied(before, records.last()),
        }
    }
}

/// Replaying two parts of a journal, one after the other, gives what replaying the whole gives: a
/// restart continues where the service was.
pub proof fn replay_continues(l: LocalView, first: Seq<RecordView>, second: Seq<RecordView>)
    requires
        replayed(l, first).1 is None,
    ensures
        replayed(l, first + second) == replayed(replayed(l, first).0, second),
    decreases second.len(),
{
    if second.len() == 0 {
        assert(first + second =~= first);
    } else {
        assert((first + second).drop_last() =~= first + second.drop_last());
        replay_continues(l, first, second.drop_last());
    }
}

/// A record changes no session but its own.
pub proof fn sessions_are_separate(l: LocalView, r: RecordView, id: Seq<char>)
    requires
        id != r.session_id,
    ensures
        applied(l, r).0.sessions.contains_key(id) == l.sessions.contains_key(id),
        l.sessions.contains_key(id) ==> applied(l, r).0.sessions[id] == l.sessions[id],
        applied(l, r).0.records_of(id) == l.records_of(id),
        applied(l, r).0.journal == l.journal,
{
    match r.data.field("prompts"@).as_array() {
        Some(prompts) => import_is_separate(
            l,
            r,
            seq![r.data.field("receipt"@)] + prompts,
            id,
        ),
        None => {},
    }
}

proof fn import_is_separate(l: LocalView, r: RecordView, items: Seq<Data>, id: Seq<char>)
    requires
        id != r.session_id,
    ensures
        receipts_imported(l, r, items).0.sessions.contains_key(id) == l.sessions.contains_key(id),
        l.sessions.contains_key(id) ==> receipts_imported(l, r, items).0.sessions[id]
            == l.sessions[id],
        receipts_imported(l, r, items).0.records_of(id) == l.records_of(id),
        receipts_imported(l, r, items).0.journal == l.journal,
    decreases items.len(),
{
    if items.len() > 0 {
        import_is_separate(l, r, items.drop_last(), id);
    }
}

/// A record that is taken in stands last among the records of its session; those before it stay as
/// they are.
pub proof fn records_are_kept_in_order(l: LocalView, r: RecordView)
    requires
        applied(l, r).1 is None,
    ensures
        applied(l, r).0.records_of(r.session_id) == l.records_of(r.session_id).push(r.sequence),
{
}

} // verus!
