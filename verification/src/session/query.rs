//! What a session's records say of it, as the rest of the service asks.
use super::accounts::verdict;
use super::{receipt_json, Error, ErrorView, Receipt, ReceiptView, Session, SessionView};
use crate::json::{object, Data, Json};
use crate::table::{in_order, is_order, Table};
use crate::text::{includes, opt, opt_copy, opt_owned, opt_str, push_string, same, views};
use vstd::prelude::*;

verus! {

/// What a session looks like on the dashboard.
pub open spec fn dashboard_word(s: SessionView) -> Seq<char> {
    if s.storage_paused {
        "waiting"@
    } else if s.state == "starting"@ || s.state == "resuming"@ {
        "queued"@
    } else if s.state == "starting_turn"@ || s.state == "running"@ || s.state == "interrupting"@
        || s.state == "closing"@ {
        "working"@
    } else if s.state == "idle"@ {
        if s.last_prompt_state == Some("failed"@) {
            "failed"@
        } else if s.last_prompt_state == Some("unknown"@) || s.last_prompt_state == Some(
            "unknown_after_restart"@,
        ) {
            "unknown"@
        } else {
            "waiting"@
        }
    } else if s.state == "closed"@ {
        "stopped"@
    } else if s.state == "sleeping"@ {
        "sleeping"@
    } else if s.state == "failed"@ || s.state == "process_lost"@ {
        "failed"@
    } else {
        "unknown"@
    }
}

/// A native conversation is known, and nothing stands against continuing it.
pub open spec fn resumable(s: SessionView) -> bool {
    &&& s.native_id is Some
    &&& s.native_path is Some
    &&& s.close_request is None
    &&& s.state != "closed"@
    &&& s.state != "process_lost"@
    &&& s.state != "failed"@
    &&& s.state != "resuming"@
    &&& s.state != "rewinding"@
}

/// There are messages to send.
pub open spec fn has_work(s: SessionView) -> bool {
    s.queue.len() > 0 && !s.queue_paused
}

/// A turn runs or is about to.
pub open spec fn busy(s: SessionView) -> bool {
    ||| s.current_request is Some
    ||| has_work(s)
    ||| s.state == "pending"@
    ||| s.state == "waiting_for_files"@
    ||| s.state == "starting"@
    ||| s.state == "resuming"@
    ||| s.state == "starting_turn"@
    ||| s.state == "running"@
}

/// Kinds of requests that the service looks for among the receipts.
#[derive(Clone, Copy, PartialEq, Eq, Structural)]
pub enum Wanted {
    /// The start of the session.
    Start,
    /// A start that has not ended.
    AcceptedStart,
    /// A stop that has not ended.
    AcceptedStop,
    /// A resume that has not ended.
    AcceptedResume,
    /// A request to sleep that has not ended.
    AcceptedSleep,
    /// An interrupt or a stop that waits for the harness.
    PendingInterrupt,
    /// An interrupt or a stop whose outcome the harness can no longer tell.
    LostInterrupt,
}

/// Whether a receipt is of a kind.
pub open spec fn wanted(r: ReceiptView, what: Wanted) -> bool {
    let taken = r.state == "accepted"@;
    let interrupts = r.command == "interrupt"@ || r.command == "stop"@;
    match what {
        Wanted::Start => r.command == "start"@,
        Wanted::AcceptedStart => r.command == "start"@ && taken,
        Wanted::AcceptedStop => r.command == "stop"@ && taken,
        Wanted::AcceptedResume => r.command == "resume"@ && taken,
        Wanted::AcceptedSleep => r.command == "sleep"@ && taken,
        Wanted::PendingInterrupt => interrupts && (taken || r.state == "delivered"@),
        Wanted::LostInterrupt => interrupts && (taken || r.state == "delivered"@ || r.state
            == "unknown"@),
    }
}

/// The requests of a kind among some of the receipts.
pub open spec fn picked(
    receipts: Map<Seq<char>, ReceiptView>,
    keys: Seq<Seq<char>>,
    what: Wanted,
) -> Seq<Seq<char>>
    decreases keys.len(),
{
    if keys.len() == 0 {
        Seq::empty()
    } else {
        let before = picked(receipts, keys.drop_last(), what);
        if wanted(receipts[keys.last()], what) {
            before.push(keys.last())
        } else {
            before
        }
    }
}

/// The requests of a kind, in the order of their identifiers.
pub open spec fn selected(receipts: Map<Seq<char>, ReceiptView>, what: Wanted) -> Seq<Seq<char>> {
    picked(receipts, in_order(receipts), what)
}

/// There is a request of a kind.
pub open spec fn some_wanted(receipts: Map<Seq<char>, ReceiptView>, what: Wanted) -> bool {
    exists|id: Seq<char>| #[trigger] receipts.contains_key(id) && wanted(receipts[id], what)
}

/// Whether a receipt is of a kind.
pub fn is_wanted(receipt: &Receipt, what: Wanted) -> (r: bool)
    ensures
        r == wanted(receipt@, what),
{
    let command = receipt.command.as_str();
    let state = receipt.state.as_str();
    let taken = same(state, "accepted");
    match what {
        Wanted::Start => same(command, "start"),
        Wanted::AcceptedStart => same(command, "start") && taken,
        Wanted::AcceptedStop => same(command, "stop") && taken,
        Wanted::AcceptedResume => same(command, "resume") && taken,
        Wanted::AcceptedSleep => same(command, "sleep") && taken,
        Wanted::PendingInterrupt => (same(command, "interrupt") || same(command, "stop")) && (taken
            || same(state, "delivered")),
        Wanted::LostInterrupt => (same(command, "interrupt") || same(command, "stop")) && (taken
            || same(state, "delivered") || same(state, "unknown")),
    }
}

/// The requests of a kind, in the order of their identifiers.
pub fn select(receipts: &Table<Receipt>, what: Wanted) -> (r: Vec<String>)
    ensures
        views(r@) == selected(receipts@, what),
{
    let mut out: Vec<String> = Vec::new();
    let count = receipts.len();
    let ghost keys = in_order(receipts@);
    let mut i: usize = 0;
    assert(keys.take(0) =~= Seq::empty());
    assert(views(out@) =~= Seq::empty());
    while i < count
        invariant
            i <= count,
            keys == in_order(receipts@),
            count == keys.len(),
            views(out@) == picked(receipts@, keys.take(i as int), what),
        decreases count - i,
    {
        proof {
            assert(keys.take(i + 1).drop_last() =~= keys.take(i as int));
            assert(keys.take(i + 1).last() == keys[i as int]);
        }
        if is_wanted(receipts.value_at(i), what) {
            push_string(&mut out, receipts.key_at(i));
        }
        i += 1;
    }
    assert(keys.take(i as int) =~= keys);
    out
}

/// Whether there is a request of a kind.
pub fn has_wanted(receipts: &Table<Receipt>, what: Wanted) -> (r: bool)
    ensures
        r == some_wanted(receipts@, what),
{
    let count = receipts.len();
    let ghost keys = in_order(receipts@);
    let mut i: usize = 0;
    while i < count
        invariant
            i <= count,
            keys == in_order(receipts@),
            is_order(keys, receipts@),
            count == keys.len(),
            forall|j: int| 0 <= j < i ==> !wanted(receipts@[#[trigger] keys[j]], what),
        decreases count - i,
    {
        if is_wanted(receipts.value_at(i), what) {
            assert(receipts@.contains_key(keys[i as int]));
            return true;
        }
        i += 1;
    }
    proof {
        assert forall|id: Seq<char>| #[trigger] receipts@.contains_key(id) implies !wanted(
            receipts@[id],
            what,
        ) by {
            let j = choose|j: int| 0 <= j < keys.len() && keys[j] == id;
            assert(keys[j] == id);
        }
    }
    false
}

/// The first request of a kind.
pub open spec fn first_wanted(receipts: Map<Seq<char>, ReceiptView>, what: Wanted) -> Option<
    Seq<char>,
> {
    let all = selected(receipts, what);
    if all.len() > 0 {
        Some(all[0])
    } else {
        None
    }
}

/// The start that waits to be carried out.
pub open spec fn waiting_for(s: SessionView) -> Option<Seq<char>> {
    if (s.state != "pending"@ && s.state != "waiting_for_files"@) || s.close_request is Some
        || s.native_id is Some || s.harness_pid is Some {
        None
    } else {
        first_wanted(s.receipts, Wanted::AcceptedStart)
    }
}

/// The command guard is on unless the start turned it off.
pub open spec fn guarded(s: SessionView) -> bool {
    match first_wanted(s.receipts, Wanted::Start) {
        Some(id) => !s.receipts[id].input.field("command_guard_enabled"@).is_false(),
        None => true,
    }
}

/// Every request of a kind is among the receipts.
pub proof fn selected_are_known(receipts: Map<Seq<char>, ReceiptView>, what: Wanted)
    requires
        is_order(in_order(receipts), receipts),
    ensures
        forall|i: int|
            0 <= i < selected(receipts, what).len() ==> receipts.contains_key(
                #[trigger] selected(receipts, what)[i],
            ) && wanted(receipts[selected(receipts, what)[i]], what),
{
    picked_are_known(receipts, in_order(receipts), what);
}

proof fn picked_are_known(
    receipts: Map<Seq<char>, ReceiptView>,
    keys: Seq<Seq<char>>,
    what: Wanted,
)
    requires
        forall|i: int| 0 <= i < keys.len() ==> receipts.contains_key(#[trigger] keys[i]),
    ensures
        forall|i: int|
            0 <= i < picked(receipts, keys, what).len() ==> receipts.contains_key(
                #[trigger] picked(receipts, keys, what)[i],
            ) && wanted(receipts[picked(receipts, keys, what)[i]], what),
    decreases keys.len(),
{
    if keys.len() > 0 {
        let rest = keys.drop_last();
        assert forall|i: int| 0 <= i < rest.len() implies receipts.contains_key(
            #[trigger] rest[i],
        ) by {
            assert(rest[i] == keys[i]);
        }
        picked_are_known(receipts, rest, what);
        assert(receipts.contains_key(keys[keys.len() - 1]));
        let before = picked(receipts, rest, what);
        let now = picked(receipts, keys, what);
        assert forall|i: int| 0 <= i < now.len() implies receipts.contains_key(#[trigger] now[i])
            && wanted(receipts[now[i]], what) by {
            if i < before.len() {
                assert(now[i] == before[i]);
            }
        }
    }
}

impl Session {
    /// What the session looks like on the dashboard.
    pub fn dashboard_state(&self) -> (r: &'static str)
        ensures
            r@ == dashboard_word(self@),
    {
        proof {
            reveal(Session::snapshot);
        }
        let state = self.state.as_str();
        if self.storage_paused {
            return "waiting";
        }
        if same(state, "starting") || same(state, "resuming") {
            return "queued";
        }
        if same(state, "starting_turn") || same(state, "running") || same(state, "interrupting")
            || same(state, "closing") {
            return "working";
        }
        if same(state, "idle") {
            return match &self.last_prompt_state {
                Some(last) => if same(last.as_str(), "failed") {
                    "failed"
                } else if same(last.as_str(), "unknown") || same(
                    last.as_str(),
                    "unknown_after_restart",
                ) {
                    "unknown"
                } else {
                    "waiting"
                },
                None => "waiting",
            };
        }
        if same(state, "closed") {
            return "stopped";
        }
        if same(state, "sleeping") {
            return "sleeping";
        }
        if same(state, "failed") || same(state, "process_lost") {
            return "failed";
        }
        "unknown"
    }

    /// Whether the native conversation can be continued.
    pub fn can_resume(&self) -> (r: bool)
        ensures
            r == resumable(self@),
    {
        proof {
            reveal(Session::snapshot);
        }
        let state = self.state.as_str();
        self.native_id.is_some() && self.native_path.is_some() && self.close_request.is_none()
            && !same(state, "closed") && !same(state, "process_lost") && !same(state, "failed")
            && !same(state, "resuming") && !same(state, "rewinding")
    }

    /// Whether there are messages to send.
    pub fn has_work(&self) -> (r: bool)
        ensures
            r == has_work(self@),
    {
        proof {
            reveal(Session::snapshot);
        }
        !self.queue.is_empty() && !self.queue_paused
    }

    /// Whether a turn runs or is about to.
    pub fn busy(&self) -> (r: bool)
        ensures
            r == busy(self@),
    {
        proof {
            reveal(Session::snapshot);
        }
        let state = self.state.as_str();
        self.current_request.is_some() || self.has_work() || same(state, "pending") || same(
            state,
            "waiting_for_files",
        ) || same(state, "starting") || same(state, "resuming") || same(state, "starting_turn")
            || same(state, "running")
    }

    /// Whether an interrupt or a stop waits for the harness.
    pub fn interrupt_pending(&self) -> (r: bool)
        ensures
            r == some_wanted(self@.receipts, Wanted::PendingInterrupt),
    {
        proof {
            reveal(Session::snapshot);
        }
        has_wanted(&self.receipts, Wanted::PendingInterrupt)
    }

    /// Whether the session was asked to sleep.
    pub fn sleep_pending(&self) -> (r: bool)
        ensures
            r == some_wanted(self@.receipts, Wanted::AcceptedSleep),
    {
        proof {
            reveal(Session::snapshot);
        }
        has_wanted(&self.receipts, Wanted::AcceptedSleep)
    }

    /// The start that waits to be carried out.
    pub fn waiting_start(&self) -> (r: Option<String>)
        ensures
            opt(r) == waiting_for(self@),
    {
        proof {
            reveal(Session::snapshot);
        }
        let state = self.state.as_str();
        if (!same(state, "pending") && !same(state, "waiting_for_files"))
            || self.close_request.is_some() || self.native_id.is_some()
            || self.harness_pid.is_some() {
            return None;
        }
        let all = select(&self.receipts, Wanted::AcceptedStart);
        assert(views(all@).len() == all@.len());
        if all.len() > 0 {
            assert(views(all@)[0] == all@[0]@);
            Some(all[0].clone())
        } else {
            None
        }
    }

    /// Whether the command guard is on.
    pub fn command_guard_enabled(&self) -> (r: bool)
        ensures
            r == guarded(self@),
    {
        proof {
            reveal(Session::snapshot);
        }
        let all = select(&self.receipts, Wanted::Start);
        let count = self.receipts.len();
        assert(views(all@).len() == all@.len());
        if all.len() > 0 {
            proof {
                assert(views(all@)[0] == all@[0]@);
                selected_are_known(self.receipts@, Wanted::Start);
            }
            match self.receipts.get(all[0].as_str()) {
                Some(receipt) => !receipt.input.field("command_guard_enabled").is_false(),
                None => true,
            }
        } else {
            true
        }
    }

    /// Whether a request waits in the queue.
    pub fn queued(&self, request: &str) -> (r: bool)
        ensures
            r == self@.queue.contains(request@),
    {
        proof {
            reveal(Session::snapshot);
        }
        includes(&self.queue, request)
    }
}

/// A native conversation, and how to continue it.
pub struct Resume {
    pub id: String,
    pub path: String,
    pub cursor: Json,
    pub model: Option<String>,
    pub provider: Option<String>,
    pub reasoning: Option<String>,
}

impl Session {
    /// How to continue the native conversation, if it is known.
    pub fn resume(&self) -> (r: Option<Resume>)
        ensures
            r is Some <==> self@.native_id is Some && self@.native_path is Some,
            r matches Some(saved) ==> {
                &&& Some(saved.id@) == self@.native_id
                &&& Some(saved.path@) == self@.native_path
                &&& saved.cursor@ == self@.native_cursor
                &&& opt(saved.model) == self@.model
                &&& opt(saved.provider) == self@.provider
                &&& opt(saved.reasoning) == self@.reasoning
            },
    {
        proof {
            reveal(Session::snapshot);
        }
        match (&self.native_id, &self.native_path) {
            (Some(id), Some(path)) => Some(
                Resume {
                    id: id.clone(),
                    path: path.clone(),
                    cursor: self.native_cursor.duplicate(),
                    model: opt_copy(&self.model),
                    provider: opt_copy(&self.provider),
                    reasoning: opt_copy(&self.reasoning),
                },
            ),
            _ => None,
        }
    }
}

/// A record to make of a session.
#[derive(Debug)]
pub struct Note {
    pub kind: String,
    pub data: Json,
    /// What the harness wrote, where the record holds it.
    pub native: Option<String>,
}

/// The mathematical value of a note.
pub struct NoteView {
    pub kind: Seq<char>,
    pub data: Data,
    pub native: Option<Seq<char>>,
}

impl View for Note {
    type V = NoteView;

    open spec fn view(&self) -> NoteView {
        NoteView { kind: self.kind@, data: self.data@, native: opt(self.native) }
    }
}

/// The views of a sequence of notes.
pub open spec fn notes(list: Seq<Note>) -> Seq<NoteView> {
    Seq::new(list.len(), |i: int| list[i]@)
}

/// A note of any kind.
pub open spec fn note(kind: Seq<char>, data: Data) -> NoteView {
    NoteView { kind, data, native: None }
}

/// A note of a change of state.
pub open spec fn state_note(state: Seq<char>) -> NoteView {
    note("state"@, Data::Object(map!["state"@ => Data::Text(state)]))
}

/// A note of a receipt.
pub open spec fn receipt_note(r: ReceiptView) -> NoteView {
    note("receipt"@, receipt_json(r))
}

/// Adds a note.
pub fn push_note(list: &mut Vec<Note>, note: Note)
    ensures
        notes(final(list)@) == notes(old(list)@).push(note@),
{
    list.push(note);
    assert(notes(list@) =~= notes(old(list)@).push(note@));
}

impl Note {
    /// A copy.
    pub fn duplicate(&self) -> (r: Note)
        ensures
            r@ == self@,
    {
        Note {
            kind: self.kind.clone(),
            data: self.data.duplicate(),
            native: crate::text::opt_copy(&self.native),
        }
    }

    /// A note of any kind.
    pub fn new(kind: &str, data: Json) -> (r: Note)
        ensures
            r@ == note(kind@, data@),
    {
        Note { kind: kind.to_owned(), data, native: None }
    }

    /// A note of a change of state.
    pub fn state(state: &str) -> (r: Note)
        ensures
            r@ == state_note(state@),
    {
        Note {
            kind: "state".to_owned(),
            data: Json::Object(object().with_text("state", state)),
            native: None,
        }
    }

    /// A note of a receipt.
    pub fn receipt(receipt: &Receipt) -> (r: Note)
        ensures
            r@ == receipt_note(receipt@),
    {
        Note { kind: "receipt".to_owned(), data: receipt.to_json(), native: None }
    }
}

/// The states that a receipt does not leave again.
pub open spec fn settled(state: Seq<char>) -> bool {
    ||| state == "completed"@
    ||| state == "interrupted"@
    ||| state == "failed"@
    ||| state == "unknown_after_restart"@
}

/// A receipt in a new state, with a cause where there is one.
pub open spec fn finished_receipt(
    r: ReceiptView,
    state: Seq<char>,
    error: Option<Seq<char>>,
) -> ReceiptView {
    ReceiptView {
        state,
        error: if error is Some {
            error
        } else {
            r.error
        },
        ..r
    }
}

/// The notes that bring a request to a state: none where it is settled or there already, or is not
/// known.
pub open spec fn finishing(
    s: SessionView,
    request: Seq<char>,
    state: Seq<char>,
    error: Option<Seq<char>>,
) -> Seq<NoteView> {
    if !s.receipts.contains_key(request) || settled(s.receipts[request].state)
        || s.receipts[request].state == state {
        Seq::empty()
    } else {
        seq![receipt_note(finished_receipt(s.receipts[request], state, error))]
    }
}

/// The notes that bring each of several requests to a state.
pub open spec fn finishing_all(
    s: SessionView,
    requests: Seq<Seq<char>>,
    state: Seq<char>,
    error: Option<Seq<char>>,
) -> Seq<NoteView>
    decreases requests.len(),
{
    if requests.len() == 0 {
        Seq::empty()
    } else {
        finishing_all(s, requests.drop_last(), state, error) + finishing(
            s,
            requests.last(),
            state,
            error,
        )
    }
}

impl Session {
    /// Adds the notes that bring a request to a state. A request that is not known is an error.
    pub fn finish(&self, list: &mut Vec<Note>, request: &str, state: &str, error: Option<&str>) -> (r:
        Result<(), Error>)
        ensures
            verdict(r) == if self@.receipts.contains_key(request@) {
                None
            } else {
                Some(ErrorView::NotFound)
            },
            notes(final(list)@) == notes(old(list)@) + finishing(
                self@,
                request@,
                state@,
                opt_str(error),
            ),
    {
        proof {
            reveal(Session::snapshot);
        }
        let ghost was = notes(list@);
        let receipt = match self.receipts.get(request) {
            Some(receipt) => receipt,
            None => {
                assert(was + Seq::empty() =~= was);
                return Err(Error::NotFound);
            },
        };
        let current = receipt.state.as_str();
        if same(current, "completed") || same(current, "interrupted") || same(current, "failed")
            || same(current, "unknown_after_restart") || same(current, state) {
            assert(was + Seq::empty() =~= was);
            return Ok(());
        }
        let mut next = receipt.duplicate();
        next.state = state.to_owned();
        if error.is_some() {
            next.error = opt_owned(error);
        }
        push_note(list, Note::receipt(&next));
        assert(notes(list@) =~= was + finishing(self@, request@, state@, opt_str(error)));
        Ok(())
    }

    /// Adds the notes that bring each of several requests to a state.
    pub fn finish_all(
        &self,
        list: &mut Vec<Note>,
        requests: &Vec<String>,
        state: &str,
        error: Option<&str>,
    )
        ensures
            notes(final(list)@) == notes(old(list)@) + finishing_all(
                self@,
                views(requests@),
                state@,
                opt_str(error),
            ),
    {
        let ghost was = notes(list@);
        let ghost all = views(requests@);
        let mut i: usize = 0;
        assert(all.take(0) =~= Seq::empty());
        assert(was + Seq::empty() =~= was);
        while i < requests.len()
            invariant
                i <= requests.len(),
                all == views(requests@),
                notes(list@) == was + finishing_all(
                    self@,
                    all.take(i as int),
                    state@,
                    opt_str(error),
                ),
            decreases requests.len() - i,
        {
            let ghost before = finishing_all(self@, all.take(i as int), state@, opt_str(error));
            let _ = self.finish(list, requests[i].as_str(), state, error);
            proof {
                let now = all.take(i + 1);
                assert(now.drop_last() =~= all.take(i as int));
                assert(now.last() == requests@[i as int]@);
                assert(notes(list@) =~= was + finishing_all(self@, now, state@, opt_str(error)));
            }
            i += 1;
        }
        assert(all.take(i as int) =~= all);
    }
}

/// A request that is settled stays as it is, whatever is asked of it.
pub proof fn settled_requests_stay(
    s: SessionView,
    request: Seq<char>,
    state: Seq<char>,
    error: Option<Seq<char>>,
)
    requires
        s.receipts.contains_key(request),
        settled(s.receipts[request].state),
    ensures
        finishing(s, request, state, error).len() == 0,
{
}

} // verus!
