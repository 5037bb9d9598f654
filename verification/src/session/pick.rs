//! Choosing sessions by what they are doing.
use super::local::Local;
use super::query::{Note, NoteView};
use super::{Session, SessionView};
use crate::runtime::Kind;
use crate::table::{in_order, is_order};
use crate::text::{push_string, same, views};
use vstd::prelude::*;

verus! {

/// What sessions are chosen for.
#[derive(Clone, Copy, PartialEq, Eq, Structural, Debug)]
pub enum Pick {
    /// It holds a harness process.
    Attached,
    /// It holds a harness process, and was warned about storage.
    Warned,
    /// It can be warned about storage.
    Unwarned,
    /// It waits for a harness to continue its conversation.
    Waiting,
    /// It stopped at a usage limit, and nothing else keeps it from going on.
    Limited,
    /// Codex has, or is about to have, work.
    CodexWork,
    /// Cursor runs, or is about to.
    CursorWork,
    /// claude_code runs, or is about to.
    ClaudeRuns,
}

/// The session is on its way to a turn.
pub open spec fn setting_out(s: SessionView) -> bool {
    s.state == "starting"@ || s.state == "resuming"@ || s.state == "pending"@
}

/// The session is one of those that are looked for.
pub open spec fn fits(s: SessionView, what: Pick) -> bool {
    match what {
        Pick::Attached => s.handle is Some,
        Pick::Warned => s.storage_warned && s.handle is Some,
        Pick::Unwarned => s.handle is Some && !s.storage_warned && s.native_id is Some,
        Pick::Waiting => s.state == "resuming"@ && s.handle is None,
        Pick::Limited => {
            &&& s.usage_limited
            &&& s.harness == Kind::Codex || s.harness == Kind::Pi
            &&& s.ready
            &&& s.handle is Some
            &&& s.state == "idle"@
            &&& s.current_request is None
            &&& s.queue.len() == 0
            &&& !s.queue_paused
            &&& !s.compacting
            &&& s.close_request is None
            &&& s.rewind_request is None
        },
        Pick::CodexWork => s.harness == Kind::Codex && (s.current_request is Some || (
        !s.queue_paused && s.queue.len() > 0) || setting_out(s)),
        Pick::CursorWork => s.harness == Kind::Cursor && (s.handle is Some || s.current_request
            is Some || (!s.queue_paused && s.queue.len() > 0) || setting_out(s)),
        Pick::ClaudeRuns => s.harness == Kind::Claude && (s.handle is Some || s.state
            == "starting"@ || s.state == "resuming"@),
    }
}

/// The sessions that are looked for, among those of some names.
pub open spec fn fitting(
    sessions: Map<Seq<char>, SessionView>,
    keys: Seq<Seq<char>>,
    what: Pick,
) -> Seq<Seq<char>>
    decreases keys.len(),
{
    if keys.len() == 0 {
        Seq::empty()
    } else if fits(sessions[keys.last()], what) {
        fitting(sessions, keys.drop_last(), what).push(keys.last())
    } else {
        fitting(sessions, keys.drop_last(), what)
    }
}

/// The names of the sessions that are looked for, in order.
pub open spec fn chosen(sessions: Map<Seq<char>, SessionView>, what: Pick) -> Seq<Seq<char>> {
    fitting(sessions, in_order(sessions), what)
}

/// Some session is one of those that are looked for.
pub open spec fn some_fits(sessions: Map<Seq<char>, SessionView>, what: Pick) -> bool {
    exists|id: Seq<char>| #[trigger] sessions.contains_key(id) && fits(sessions[id], what)
}

proof fn fitting_are_keys(
    sessions: Map<Seq<char>, SessionView>,
    keys: Seq<Seq<char>>,
    what: Pick,
)
    ensures
        forall|id: Seq<char>| #[trigger]
            fitting(sessions, keys, what).contains(id) <==> keys.contains(id) && fits(
                sessions[id],
                what,
            ),
    decreases keys.len(),
{
    if keys.len() > 0 {
        let rest = fitting(sessions, keys.drop_last(), what);
        fitting_are_keys(sessions, keys.drop_last(), what);
        assert forall|id: Seq<char>| #[trigger]
            fitting(sessions, keys, what).contains(id) <==> keys.contains(id) && fits(
                sessions[id],
                what,
            ) by {
            assert(keys =~= keys.drop_last().push(keys.last()));
            assert(keys.contains(id) <==> keys.drop_last().contains(id) || id == keys.last()) by {
                if keys.contains(id) {
                    let j = choose|j: int| 0 <= j < keys.len() && keys[j] == id;
                    if j < keys.len() - 1 {
                        assert(keys.drop_last()[j] == id);
                    }
                }
                if keys.drop_last().contains(id) {
                    let j = choose|j: int|
                        0 <= j < keys.drop_last().len() && keys.drop_last()[j] == id;
                    assert(keys[j] == id);
                }
                assert(keys[keys.len() - 1] == keys.last());
            }
            assert(rest.push(keys.last()).contains(id) <==> rest.contains(id) || id
                == keys.last()) by {
                let more = rest.push(keys.last());
                if more.contains(id) {
                    let j = choose|j: int| 0 <= j < more.len() && more[j] == id;
                    if j < rest.len() {
                        assert(rest[j] == id);
                    }
                }
                if rest.contains(id) {
                    let j = choose|j: int| 0 <= j < rest.len() && rest[j] == id;
                    assert(more[j] == id);
                }
                assert(more[rest.len() as int] == keys.last());
            }
        }
    }
}

/// The sessions that are chosen are exactly those that fit.
pub proof fn chosen_are_those_that_fit(
    sessions: Map<Seq<char>, SessionView>,
    what: Pick,
    id: Seq<char>,
)
    requires
        is_order(in_order(sessions), sessions),
    ensures
        chosen(sessions, what).contains(id) <==> sessions.contains_key(id) && fits(
            sessions[id],
            what,
        ),
{
    let keys = in_order(sessions);
    fitting_are_keys(sessions, keys, what);
    assert(fitting(sessions, keys, what).contains(id) <==> keys.contains(id) && fits(
        sessions[id],
        what,
    ));
    if keys.contains(id) {
        let j = choose|j: int| 0 <= j < keys.len() && keys[j] == id;
        assert(sessions.contains_key(keys[j]));
    }
    if sessions.contains_key(id) {
        let j = choose|j: int| 0 <= j < keys.len() && keys[j] == id;
        assert(keys[j] == id);
    }
}

impl Session {
    fn is_setting_out(&self) -> (r: bool)
        ensures
            r == setting_out(self@),
    {
        proof {
            reveal(Session::snapshot);
        }
        let state = self.state.as_str();
        same(state, "starting") || same(state, "resuming") || same(state, "pending")
    }

    /// Whether the session is one of those that are looked for.
    pub fn fits(&self, what: Pick) -> (r: bool)
        ensures
            r == fits(self@, what),
    {
        let out = self.is_setting_out();
        proof {
            reveal(Session::snapshot);
        }
        let attached = self.handle.is_some();
        let state = self.state.as_str();
        let queued = !self.queue_paused && self.queue.len() > 0;
        assert(self@.queue.len() == self.queue@.len());
        match what {
            Pick::Attached => attached,
            Pick::Warned => self.storage_warned && attached,
            Pick::Unwarned => attached && !self.storage_warned && self.native_id.is_some(),
            Pick::Waiting => same(state, "resuming") && !attached,
            Pick::Limited => self.usage_limited && (self.harness == Kind::Codex || self.harness
                == Kind::Pi) && self.ready && attached && same(state, "idle")
                && self.current_request.is_none() && self.queue.len() == 0 && !self.queue_paused
                && !self.compacting && self.close_request.is_none()
                && self.rewind_request.is_none(),
            Pick::CodexWork => self.harness == Kind::Codex && (self.current_request.is_some()
                || queued || out),
            Pick::CursorWork => self.harness == Kind::Cursor && (attached
                || self.current_request.is_some() || queued || out),
            Pick::ClaudeRuns => self.harness == Kind::Claude && (attached || same(
                state,
                "starting",
            ) || same(state, "resuming")),
        }
    }
}

impl Local {
    /// The names of the sessions that are looked for, in order.
    pub fn pick(&self, what: Pick) -> (r: Vec<String>)
        ensures
            views(r@) == chosen(self@.sessions, what),
    {
        let mut list: Vec<String> = Vec::new();
        let count = self.sessions.len();
        let ghost keys = in_order(self.sessions@);
        let mut i: usize = 0;
        assert(keys.take(0) =~= Seq::empty());
        assert(views(list@) =~= Seq::<Seq<char>>::empty());
        while i < count
            invariant
                i <= count,
                keys == in_order(self.sessions@),
                is_order(keys, self.sessions@),
                count == keys.len(),
                views(list@) == fitting(self.sessions@, keys.take(i as int), what),
            decreases count - i,
        {
            assert(keys.take(i + 1).drop_last() =~= keys.take(i as int));
            assert(keys.take(i + 1).last() == keys[i as int]);
            if self.sessions.value_at(i).fits(what) {
                push_string(&mut list, self.sessions.key_at(i));
            }
            i += 1;
        }
        assert(keys.take(i as int) =~= keys);
        list
    }

    /// Whether some session is one of those that are looked for.
    pub fn any(&self, what: Pick) -> (r: bool)
        ensures
            r == some_fits(self@.sessions, what),
    {
        let count = self.sessions.len();
        let ghost keys = in_order(self.sessions@);
        let mut i: usize = 0;
        while i < count
            invariant
                i <= count,
                keys == in_order(self.sessions@),
                is_order(keys, self.sessions@),
                count == keys.len(),
                forall|j: int| 0 <= j < i ==> !fits(self.sessions@[#[trigger] keys[j]], what),
            decreases count - i,
        {
            if self.sessions.value_at(i).fits(what) {
                assert(self.sessions@.contains_key(keys[i as int]));
                return true;
            }
            i += 1;
        }
        proof {
            assert forall|id: Seq<char>| #[trigger] self.sessions@.contains_key(id) implies !fits(
                self.sessions@[id],
                what,
            ) by {
                let j = choose|j: int| 0 <= j < keys.len() && keys[j] == id;
                assert(keys[j] == id);
            }
        }
        false
    }
}

/// A record to make of a session that is named.
#[derive(Debug)]
pub struct Entry {
    pub session: String,
    pub note: Note,
}

/// The mathematical value of a record to make of a session that is named.
pub struct EntryView {
    pub session: Seq<char>,
    pub note: NoteView,
}

impl View for Entry {
    type V = EntryView;

    open spec fn view(&self) -> EntryView {
        EntryView { session: self.session@, note: self.note@ }
    }
}

/// The views of entries.
pub open spec fn entries(list: Seq<Entry>) -> Seq<EntryView> {
    Seq::new(list.len(), |i: int| list[i]@)
}

/// Adds an entry.
pub fn push_entry(list: &mut Vec<Entry>, entry: Entry)
    ensures
        entries(final(list)@) == entries(old(list)@).push(entry@),
{
    list.push(entry);
    assert(entries(list@) =~= entries(old(list)@).push(entry@));
}

/// The same record of each of some sessions.
pub open spec fn of_each(ids: Seq<Seq<char>>, note: NoteView) -> Seq<EntryView> {
    Seq::new(ids.len(), |i: int| EntryView { session: ids[i], note })
}

/// The same record of each of some sessions.
pub fn note_each(ids: &Vec<String>, note: &Note) -> (r: Vec<Entry>)
    ensures
        entries(r@) == of_each(views(ids@), note@),
{
    let mut list: Vec<Entry> = Vec::new();
    let ghost all = of_each(views(ids@), note@);
    let mut i: usize = 0;
    assert(entries(list@) =~= all.take(0));
    while i < ids.len()
        invariant
            i <= ids.len(),
            all == of_each(views(ids@), note@),
            entries(list@) == all.take(i as int),
        decreases ids.len() - i,
    {
        let entry = Entry { session: ids[i].clone(), note: note.duplicate() };
        assert(views(ids@)[i as int] == ids@[i as int]@);
        assert(entry@ == all[i as int]);
        push_entry(&mut list, entry);
        assert(entries(list@) =~= all.take(i + 1));
        i += 1;
    }
    assert(all.take(i as int) =~= all);
    list
}

} // verus!
