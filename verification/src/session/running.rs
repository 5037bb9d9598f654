//! What becomes of a session while its harness runs, when it ends, and when the service starts again.
use super::asking::{comes_to, tells_of};
use super::command::NextView;
use super::lifecycle::{
    advanced, brought_back, continues, delivered, gate, history_lost, launch_failed, launched,
    launches, recovery_status, relaunch_failed, relaunched, reopened, Gate, Saved, Stage,
};
use super::native::{exited, told};
use super::outcome::{compacted, interrupted, rewound, steered, usage_fits};
use super::pick::{fits, Pick};
use super::query::{
    busy, dashboard_word, finishing, finishing_all, guarded, picked, resumable, selected, waiting_for, wanted, NoteView,
    Wanted,
};
use super::replay::session_words;
use super::sleep::{idle_for, watched, Watch};
use super::{ReceiptView, SessionView};
use crate::fault::{FaultKind, FaultView};
use crate::json::Data;
use crate::runtime::{EventView, ExitView, Kind};
use crate::table::{in_order, is_order};
use vstd::prelude::*;

verus! {

proof fn running_words()
    ensures
        "id"@.len() == 2,
        "pid"@.len() == 3,
        "kind"@.len() == 4 && "kind"@[0] == 'k',
        "turn"@.len() == 4 && "turn"@[0] == 't',
        "path"@.len() == 4 && "path"@[0] == 'p',
        "idle"@.len() == 4 && "idle"@[0] == 'i',
        "stop"@.len() == 4 && "stop"@[0] == 's',
        "entry"@.len() == 5 && "entry"@[1] == 'n' && "entry"@[3] == 'r',
        "usage"@.len() == 5 && "usage"@[1] == 's' && "usage"@[3] == 'g',
        "ready"@.len() == 5 && "ready"@[1] == 'e' && "ready"@[3] == 'd',
        "empty"@.len() == 5 && "empty"@[1] == 'm' && "empty"@[3] == 't',
        "state"@.len() == 5 && "state"@[1] == 't' && "state"@[3] == 't',
        "start"@.len() == 5 && "start"@[1] == 't' && "start"@[3] == 'r',
        "sleep"@.len() == 5 && "sleep"@[1] == 'l' && "sleep"@[3] == 'e',
        "input"@.len() == 5 && "input"@[1] == 'n' && "input"@[3] == 'u',
        "reason"@.len() == 6 && "reason"@[2] == 'a' && "reason"@[0] == 'r',
        "stderr"@.len() == 6 && "stderr"@[2] == 'd' && "stderr"@[0] == 's',
        "queued"@.len() == 6 && "queued"@[2] == 'e' && "queued"@[0] == 'q',
        "legacy"@.len() == 6 && "legacy"@[2] == 'g' && "legacy"@[0] == 'l',
        "rewind"@.len() == 6 && "rewind"@[2] == 'w' && "rewind"@[0] == 'r',
        "closed"@.len() == 6 && "closed"@[2] == 'o' && "closed"@[0] == 'c',
        "failed"@.len() == 6 && "failed"@[2] == 'i' && "failed"@[0] == 'f',
        "resume"@.len() == 6 && "resume"@[2] == 's' && "resume"@[0] == 'r',
        "prompt"@.len() == 6 && "prompt"@[2] == 'o' && "prompt"@[0] == 'p',
        "before"@.len() == 6 && "before"@[2] == 'f' && "before"@[0] == 'b',
        "working"@.len() == 7 && "working"@[0] == 'w' && "working"@[1] == 'o',
        "waiting"@.len() == 7 && "waiting"@[0] == 'w' && "waiting"@[1] == 'a',
        "stopped"@.len() == 7 && "stopped"@[0] == 's' && "stopped"@[1] == 't',
        "missing"@.len() == 7 && "missing"@[0] == 'm' && "missing"@[1] == 'i',
        "turn_id"@.len() == 7 && "turn_id"@[0] == 't' && "turn_id"@[1] == 'u',
        "receipt"@.len() == 7 && "receipt"@[0] == 'r' && "receipt"@[1] == 'e',
        "harness"@.len() == 7 && "harness"@[0] == 'h' && "harness"@[1] == 'a',
        "running"@.len() == 7 && "running"@[0] == 'r' && "running"@[1] == 'u',
        "closing"@.len() == 7 && "closing"@[0] == 'c' && "closing"@[1] == 'l',
        "unknown"@.len() == 7 && "unknown"@[0] == 'u' && "unknown"@[1] == 'n',
        "pending"@.len() == 7 && "pending"@[0] == 'p' && "pending"@[1] == 'e',
        "sleeping"@.len() == 8 && "sleeping"@[1] == 'l',
        "resuming"@.len() == 8 && "resuming"@[1] == 'e',
        "starting"@.len() == 8 && "starting"@[1] == 't',
        "accepted"@.len() == 8 && "accepted"@[1] == 'c',
        "workspace"@.len() == 9 && "workspace"@[4] == 's',
        "reasoning"@.len() == 9 && "reasoning"@[4] == 'o',
        "suspended"@.len() == 9 && "suspended"@[4] == 'e',
        "completed"@.len() == 9 && "completed"@[4] == 'l',
        "delivered"@.len() == 9 && "delivered"@[4] == 'v',
        "interrupt"@.len() == 9 && "interrupt"@[4] == 'r',
        "rewinding"@.len() == 9 && "rewinding"@[4] == 'n',
        "sessionId"@.len() == 9 && "sessionId"@[4] == 'i',
        "checkpoint"@.len() == 10 && "checkpoint"@[0] == 'c',
        "request_id"@.len() == 10 && "request_id"@[0] == 'r',
        "unavailable"@.len() == 11 && "unavailable"@[0] == 'u',
        "interrupted"@.len() == 11 && "interrupted"@[0] == 'i',
        "replacement"@.len() == 11 && "replacement"@[0] == 'r',
        "rewind_ready"@.len() == 12 && "rewind_ready"@[0] == 'r',
        "interrupting"@.len() == 12 && "interrupting"@[0] == 'i',
        "process_lost"@.len() == 12 && "process_lost"@[0] == 'p',
        "diagnostic_id"@.len() == 13 && "diagnostic_id"@[5] == 'o',
        "startup_error"@.len() == 13 && "startup_error"@[5] == 'u',
        "empty_session"@.len() == 13 && "empty_session"@[5] == '_',
        "resume_failed"@.len() == 13 && "resume_failed"@[5] == 'e',
        "rewind_failed"@.len() == 13 && "rewind_failed"@[5] == 'd',
        "starting_turn"@.len() == 13 && "starting_turn"@[5] == 'i',
        "startup_timeout"@.len() == 15 && "startup_timeout"@[0] == 's',
        "missing_history"@.len() == 15 && "missing_history"@[0] == 'm',
        "native_identity"@.len() == 15 && "native_identity"@[0] == 'n',
        "launch_reasoning"@.len() == 16,
        "storage_recovered"@.len() == 17 && "storage_recovered"@[0] == 's',
        "waiting_for_files"@.len() == 17 && "waiting_for_files"@[0] == 'w',
        "saved_history_only"@.len() == 18,
        "unknown_after_restart"@.len() == 21 && "unknown_after_restart"@[0] == 'u',
        "command_guard_enabled"@.len() == 21 && "command_guard_enabled"@[0] == 'c',
        "native_history_unavailable"@.len() == 26,
{
    reveal_strlit("id");
    reveal_strlit("pid");
    reveal_strlit("kind");
    reveal_strlit("turn");
    reveal_strlit("path");
    reveal_strlit("idle");
    reveal_strlit("stop");
    reveal_strlit("entry");
    reveal_strlit("usage");
    reveal_strlit("ready");
    reveal_strlit("empty");
    reveal_strlit("state");
    reveal_strlit("start");
    reveal_strlit("sleep");
    reveal_strlit("input");
    reveal_strlit("reason");
    reveal_strlit("stderr");
    reveal_strlit("queued");
    reveal_strlit("legacy");
    reveal_strlit("rewind");
    reveal_strlit("closed");
    reveal_strlit("failed");
    reveal_strlit("resume");
    reveal_strlit("prompt");
    reveal_strlit("before");
    reveal_strlit("working");
    reveal_strlit("waiting");
    reveal_strlit("stopped");
    reveal_strlit("missing");
    reveal_strlit("turn_id");
    reveal_strlit("receipt");
    reveal_strlit("harness");
    reveal_strlit("running");
    reveal_strlit("closing");
    reveal_strlit("unknown");
    reveal_strlit("pending");
    reveal_strlit("sleeping");
    reveal_strlit("resuming");
    reveal_strlit("starting");
    reveal_strlit("accepted");
    reveal_strlit("workspace");
    reveal_strlit("reasoning");
    reveal_strlit("suspended");
    reveal_strlit("completed");
    reveal_strlit("delivered");
    reveal_strlit("interrupt");
    reveal_strlit("rewinding");
    reveal_strlit("sessionId");
    reveal_strlit("checkpoint");
    reveal_strlit("request_id");
    reveal_strlit("unavailable");
    reveal_strlit("interrupted");
    reveal_strlit("replacement");
    reveal_strlit("rewind_ready");
    reveal_strlit("interrupting");
    reveal_strlit("process_lost");
    reveal_strlit("diagnostic_id");
    reveal_strlit("startup_error");
    reveal_strlit("empty_session");
    reveal_strlit("resume_failed");
    reveal_strlit("rewind_failed");
    reveal_strlit("starting_turn");
    reveal_strlit("startup_timeout");
    reveal_strlit("missing_history");
    reveal_strlit("native_identity");
    reveal_strlit("launch_reasoning");
    reveal_strlit("storage_recovered");
    reveal_strlit("waiting_for_files");
    reveal_strlit("saved_history_only");
    reveal_strlit("unknown_after_restart");
    reveal_strlit("command_guard_enabled");
    reveal_strlit("native_history_unavailable");
    assert("id"@.len() == 2);
    assert("pid"@.len() == 3);
    assert("kind"@.len() == 4 && "kind"@[0] == 'k');
    assert("turn"@.len() == 4 && "turn"@[0] == 't');
    assert("path"@.len() == 4 && "path"@[0] == 'p');
    assert("idle"@.len() == 4 && "idle"@[0] == 'i');
    assert("stop"@.len() == 4 && "stop"@[0] == 's');
    assert("entry"@.len() == 5 && "entry"@[1] == 'n' && "entry"@[3] == 'r');
    assert("usage"@.len() == 5 && "usage"@[1] == 's' && "usage"@[3] == 'g');
    assert("ready"@.len() == 5 && "ready"@[1] == 'e' && "ready"@[3] == 'd');
    assert("empty"@.len() == 5 && "empty"@[1] == 'm' && "empty"@[3] == 't');
    assert("state"@.len() == 5 && "state"@[1] == 't' && "state"@[3] == 't');
    assert("start"@.len() == 5 && "start"@[1] == 't' && "start"@[3] == 'r');
    assert("sleep"@.len() == 5 && "sleep"@[1] == 'l' && "sleep"@[3] == 'e');
    assert("input"@.len() == 5 && "input"@[1] == 'n' && "input"@[3] == 'u');
    assert("reason"@.len() == 6 && "reason"@[2] == 'a' && "reason"@[0] == 'r');
    assert("stderr"@.len() == 6 && "stderr"@[2] == 'd' && "stderr"@[0] == 's');
    assert("queued"@.len() == 6 && "queued"@[2] == 'e' && "queued"@[0] == 'q');
    assert("legacy"@.len() == 6 && "legacy"@[2] == 'g' && "legacy"@[0] == 'l');
    assert("rewind"@.len() == 6 && "rewind"@[2] == 'w' && "rewind"@[0] == 'r');
    assert("closed"@.len() == 6 && "closed"@[2] == 'o' && "closed"@[0] == 'c');
    assert("failed"@.len() == 6 && "failed"@[2] == 'i' && "failed"@[0] == 'f');
    assert("resume"@.len() == 6 && "resume"@[2] == 's' && "resume"@[0] == 'r');
    assert("prompt"@.len() == 6 && "prompt"@[2] == 'o' && "prompt"@[0] == 'p');
    assert("before"@.len() == 6 && "before"@[2] == 'f' && "before"@[0] == 'b');
    assert("working"@.len() == 7 && "working"@[0] == 'w' && "working"@[1] == 'o');
    assert("waiting"@.len() == 7 && "waiting"@[0] == 'w' && "waiting"@[1] == 'a');
    assert("stopped"@.len() == 7 && "stopped"@[0] == 's' && "stopped"@[1] == 't');
    assert("missing"@.len() == 7 && "missing"@[0] == 'm' && "missing"@[1] == 'i');
    assert("turn_id"@.len() == 7 && "turn_id"@[0] == 't' && "turn_id"@[1] == 'u');
    assert("receipt"@.len() == 7 && "receipt"@[0] == 'r' && "receipt"@[1] == 'e');
    assert("harness"@.len() == 7 && "harness"@[0] == 'h' && "harness"@[1] == 'a');
    assert("running"@.len() == 7 && "running"@[0] == 'r' && "running"@[1] == 'u');
    assert("closing"@.len() == 7 && "closing"@[0] == 'c' && "closing"@[1] == 'l');
    assert("unknown"@.len() == 7 && "unknown"@[0] == 'u' && "unknown"@[1] == 'n');
    assert("pending"@.len() == 7 && "pending"@[0] == 'p' && "pending"@[1] == 'e');
    assert("sleeping"@.len() == 8 && "sleeping"@[1] == 'l');
    assert("resuming"@.len() == 8 && "resuming"@[1] == 'e');
    assert("starting"@.len() == 8 && "starting"@[1] == 't');
    assert("accepted"@.len() == 8 && "accepted"@[1] == 'c');
    assert("workspace"@.len() == 9 && "workspace"@[4] == 's');
    assert("reasoning"@.len() == 9 && "reasoning"@[4] == 'o');
    assert("suspended"@.len() == 9 && "suspended"@[4] == 'e');
    assert("completed"@.len() == 9 && "completed"@[4] == 'l');
    assert("delivered"@.len() == 9 && "delivered"@[4] == 'v');
    assert("interrupt"@.len() == 9 && "interrupt"@[4] == 'r');
    assert("rewinding"@.len() == 9 && "rewinding"@[4] == 'n');
    assert("sessionId"@.len() == 9 && "sessionId"@[4] == 'i');
    assert("checkpoint"@.len() == 10 && "checkpoint"@[0] == 'c');
    assert("request_id"@.len() == 10 && "request_id"@[0] == 'r');
    assert("unavailable"@.len() == 11 && "unavailable"@[0] == 'u');
    assert("interrupted"@.len() == 11 && "interrupted"@[0] == 'i');
    assert("replacement"@.len() == 11 && "replacement"@[0] == 'r');
    assert("rewind_ready"@.len() == 12 && "rewind_ready"@[0] == 'r');
    assert("interrupting"@.len() == 12 && "interrupting"@[0] == 'i');
    assert("process_lost"@.len() == 12 && "process_lost"@[0] == 'p');
    assert("diagnostic_id"@.len() == 13 && "diagnostic_id"@[5] == 'o');
    assert("startup_error"@.len() == 13 && "startup_error"@[5] == 'u');
    assert("empty_session"@.len() == 13 && "empty_session"@[5] == '_');
    assert("resume_failed"@.len() == 13 && "resume_failed"@[5] == 'e');
    assert("rewind_failed"@.len() == 13 && "rewind_failed"@[5] == 'd');
    assert("starting_turn"@.len() == 13 && "starting_turn"@[5] == 'i');
    assert("startup_timeout"@.len() == 15 && "startup_timeout"@[0] == 's');
    assert("missing_history"@.len() == 15 && "missing_history"@[0] == 'm');
    assert("native_identity"@.len() == 15 && "native_identity"@[0] == 'n');
    assert("launch_reasoning"@.len() == 16);
    assert("storage_recovered"@.len() == 17 && "storage_recovered"@[0] == 's');
    assert("waiting_for_files"@.len() == 17 && "waiting_for_files"@[0] == 'w');
    assert("saved_history_only"@.len() == 18);
    assert("unknown_after_restart"@.len() == 21 && "unknown_after_restart"@[0] == 'u');
    assert("command_guard_enabled"@.len() == 21 && "command_guard_enabled"@[0] == 'c');
    assert("native_history_unavailable"@.len() == 26);
}
/// A request has not ended for good.
pub open spec fn is_open(r: ReceiptView) -> bool {
    r.state != "completed"@ && r.state != "interrupted"@ && r.state != "failed"@ && r.state
        != "unknown_after_restart"@
}

/// Among notes stands one that a request came to a state.
pub open spec fn told_of(notes: Seq<NoteView>, request: Seq<char>, state: Seq<char>) -> bool {
    exists|i: int| 0 <= i < notes.len() && tells_of(#[trigger] notes[i], request, state)
}

/// Among notes stands one that the session came to a state.
pub open spec fn brought_to(notes: Seq<NoteView>, state: Seq<char>) -> bool {
    exists|i: int| 0 <= i < notes.len() && comes_to(#[trigger] notes[i], state)
}

proof fn told_stays(a: Seq<NoteView>, b: Seq<NoteView>, request: Seq<char>, state: Seq<char>)
    ensures
        told_of(a, request, state) ==> told_of(a + b, request, state),
        told_of(b, request, state) ==> told_of(a + b, request, state),
{
    if told_of(a, request, state) {
        let i = choose|i: int| 0 <= i < a.len() && tells_of(#[trigger] a[i], request, state);
        assert((a + b)[i] == a[i]);
    }
    if told_of(b, request, state) {
        let i = choose|i: int| 0 <= i < b.len() && tells_of(#[trigger] b[i], request, state);
        assert((a + b)[i + a.len()] == b[i]);
    }
}

/// An open request that comes to a new state is told of with it, and keeps all else; one that has ended, or
/// is there already, is not told of again.
pub proof fn open_requests_are_told_of(
    s: SessionView,
    request: Seq<char>,
    state: Seq<char>,
    error: Option<Seq<char>>,
)
    requires
        s.receipts.contains_key(request),
        s.receipts[request].request_id == request,
    ensures
        ({
            let notes = finishing(s, request, state, error);
            let r = s.receipts[request];
            &&& is_open(r) && r.state != state ==> notes.len() == 1 && tells_of(
                notes[0],
                request,
                state,
            ) && notes[0].data.field("command"@) == Data::Text(r.command) && (error is Some
                ==> notes[0].data.field("error"@) == Data::Text(error->0)) && (error is None
                && r.error is Some ==> notes[0].data.field("error"@) == Data::Text(r.error->0))
            &&& !is_open(r) || r.state == state ==> notes.len() == 0
        }),
{
    session_words();
    running_words();
}

proof fn all_are_told_of(
    s: SessionView,
    requests: Seq<Seq<char>>,
    state: Seq<char>,
    error: Option<Seq<char>>,
    request: Seq<char>,
)
    requires
        requests.contains(request),
        s.receipts.contains_key(request),
        s.receipts[request].request_id == request,
        is_open(s.receipts[request]),
        s.receipts[request].state != state,
    ensures
        told_of(finishing_all(s, requests, state, error), request, state),
    decreases requests.len(),
{
    let before = finishing_all(s, requests.drop_last(), state, error);
    let last = finishing(s, requests.last(), state, error);
    told_stays(before, last, request, state);
    if requests.last() == request {
        open_requests_are_told_of(s, request, state, error);
        assert(tells_of(last[0], request, state));
    } else {
        let i = choose|i: int| 0 <= i < requests.len() && requests[i] == request;
        assert(requests.drop_last()[i] == request);
        all_are_told_of(s, requests.drop_last(), state, error, request);
    }
}

proof fn wanted_are_picked(
    receipts: Map<Seq<char>, ReceiptView>,
    keys: Seq<Seq<char>>,
    what: Wanted,
    id: Seq<char>,
)
    ensures
        picked(receipts, keys, what).contains(id) <==> keys.contains(id) && wanted(
            receipts[id],
            what,
        ),
    decreases keys.len(),
{
    if keys.len() > 0 {
        let rest = keys.drop_last();
        wanted_are_picked(receipts, rest, what, id);
        let before = picked(receipts, rest, what);
        let all = picked(receipts, keys, what);
        if rest.contains(id) {
            let i = choose|i: int| 0 <= i < rest.len() && rest[i] == id;
            assert(keys[i] == id);
        }
        if before.contains(id) {
            let i = choose|i: int| 0 <= i < before.len() && before[i] == id;
            assert(all[i] == id);
        }
        if keys.last() == id && wanted(receipts[id], what) {
            assert(all[all.len() - 1] == id);
        }
        if all.contains(id) && !before.contains(id) {
            let i = choose|i: int| 0 <= i < all.len() && all[i] == id;
            if i < before.len() {
                assert(before[i] == id);
            }
            assert(keys[keys.len() - 1] == id);
        }
        if keys.contains(id) && !rest.contains(id) {
            let i = choose|i: int| 0 <= i < keys.len() && keys[i] == id;
            if i < rest.len() {
                assert(rest[i] == id);
            }
        }
    } else {
        assert(picked(receipts, keys, what).len() == 0);
    }
}

/// Of the requests of a session those are selected, and no others, that are wanted: known by what was asked
/// and how far it came.
pub proof fn requests_are_selected_by_what_they_are(
    receipts: Map<Seq<char>, ReceiptView>,
    id: Seq<char>,
)
    requires
        is_order(in_order(receipts), receipts),
        receipts.contains_key(id),
    ensures
        ({
            let r = receipts[id];
            let taken = r.state == "accepted"@;
            let waits = taken || r.state == "delivered"@;
            let interrupts = r.command == "interrupt"@ || r.command == "stop"@;
            &&& selected(receipts, Wanted::Start).contains(id) <==> r.command == "start"@
            &&& selected(receipts, Wanted::AcceptedStart).contains(id) <==> r.command == "start"@
                && taken
            &&& selected(receipts, Wanted::AcceptedStop).contains(id) <==> r.command == "stop"@
                && taken
            &&& selected(receipts, Wanted::AcceptedResume).contains(id) <==> r.command == "resume"@
                && taken
            &&& selected(receipts, Wanted::AcceptedSleep).contains(id) <==> r.command == "sleep"@
                && taken
            &&& selected(receipts, Wanted::PendingInterrupt).contains(id) <==> interrupts && waits
            &&& selected(receipts, Wanted::LostInterrupt).contains(id) <==> interrupts && (waits
                || r.state == "unknown"@)
        }),
{
    let keys = in_order(receipts);
    wanted_are_picked(receipts, keys, Wanted::Start, id);
    wanted_are_picked(receipts, keys, Wanted::AcceptedStart, id);
    wanted_are_picked(receipts, keys, Wanted::AcceptedStop, id);
    wanted_are_picked(receipts, keys, Wanted::AcceptedResume, id);
    wanted_are_picked(receipts, keys, Wanted::AcceptedSleep, id);
    wanted_are_picked(receipts, keys, Wanted::PendingInterrupt, id);
    wanted_are_picked(receipts, keys, Wanted::LostInterrupt, id);
}

// Turns.

/// An interrupt or a stop has been taken, and has not ended.
pub open spec fn interrupt_waits(s: SessionView) -> bool {
    exists|other: Seq<char>| #[trigger]
        s.receipts.contains_key(other) && (s.receipts[other].command == "interrupt"@
            || s.receipts[other].command == "stop"@) && (s.receipts[other].state == "accepted"@
            || s.receipts[other].state == "delivered"@)
}

/// The first message that waits is given to a harness that is ready for it, and told to start its turn.
pub proof fn waiting_messages_are_delivered(
    s: SessionView,
    stopping: bool,
    blocked: bool,
    turn_ended: bool,
)
    requires
        s.state != "sleeping"@,
        s.close_request is None,
        s.rewind_request is None,
        s.ready,
        !stopping,
        turn_ended || s.current_request is None,
    ensures
        ({
            let step = advanced(s, stopping, blocked, turn_ended);
            let free = !blocked && !s.storage_paused && !s.queue_paused && !s.compacting
                && s.handle is Some && s.queue.len() > 0;
            &&& step.notes.len() == 1
            &&& interrupt_waits(s) ==> comes_to(step.notes[0], "interrupting"@) && step.next
                == NextView::Nothing
            &&& !interrupt_waits(s) && free ==> comes_to(step.notes[0], "starting_turn"@)
                && step.notes[0].data.field("request_id"@) == Data::Text(s.queue[0]) && step.next
                == (NextView::Deliver { request: s.queue[0] })
            &&& !interrupt_waits(s) && !free && !s.compacting ==> comes_to(step.notes[0], "idle"@)
                && step.next == NextView::Nothing
            &&& !interrupt_waits(s) && s.compacting ==> comes_to(step.notes[0], "running"@)
                && step.next == NextView::Nothing
        }),
{
    session_words();
    running_words();
}

/// A session that cannot go on is left as it is: it closes, is taken back, is not ready, or a turn runs.
pub proof fn nothing_starts_out_of_turn(
    s: SessionView,
    stopping: bool,
    blocked: bool,
    turn_ended: bool,
)
    requires
        s.state != "sleeping"@,
        s.close_request is Some || s.rewind_request is Some || !s.ready || stopping || (
        s.current_request is Some && !turn_ended),
    ensures
        advanced(s, stopping, blocked, turn_ended).notes.len() == 0,
        advanced(s, stopping, blocked, turn_ended).next == NextView::Nothing,
{
}

/// A session that sleeps wakes for work, and only for work.
pub proof fn sleepers_wake_for_work(
    s: SessionView,
    stopping: bool,
    blocked: bool,
    turn_ended: bool,
)
    requires
        s.state == "sleeping"@,
        s.native_id is Some,
        s.native_path is Some,
        s.close_request is None,
        s.handle is None,
    ensures
        ({
            let step = advanced(s, stopping, blocked, turn_ended);
            let work = s.queue.len() > 0 && !s.queue_paused;
            &&& work ==> step.next == NextView::Relaunch && step.notes.len() == 1 && comes_to(
                step.notes[0],
                "resuming"@,
            )
            &&& !work ==> step.next == NextView::Nothing && step.notes.len() == 0
        }),
{
    session_words();
    running_words();
}

// Outcomes of calls.

/// A message that the harness took is delivered; one that it refused has failed, and the next is tried; of
/// another failure nothing is known.
pub proof fn messages_come_to_what_the_harness_said(
    s: SessionView,
    request: Seq<char>,
    kind: FaultKind,
)
    requires
        s.receipts.contains_key(request),
        s.receipts[request].request_id == request,
        s.receipts[request].state == "accepted"@,
    ensures
        ({
            let taken = delivered(s, request, Ok(()));
            let refused = delivered(s, request, Err(FaultKind::InvalidInput));
            let lost = delivered(s, request, Err(kind));
            &&& told_of(taken.notes, request, "delivered"@) && taken.next == NextView::Nothing
            &&& told_of(refused.notes, request, "failed"@)
            &&& s.current_request == Some(request) && s.close_request is None ==> refused.next
                == (NextView::Advance { turn_ended: true })
            &&& s.current_request != Some(request) || s.close_request is Some ==> refused.next
                == NextView::Nothing
            &&& kind != FaultKind::InvalidInput ==> told_of(lost.notes, request, "unknown"@)
                && lost.next == NextView::Nothing
        }),
{
    session_words();
    running_words();
    open_requests_are_told_of(s, request, "delivered"@, None);
    open_requests_are_told_of(s, request, "failed"@, None);
    open_requests_are_told_of(s, request, "unknown"@, None);
    assert(tells_of(finishing(s, request, "delivered"@, None)[0], request, "delivered"@));
    assert(tells_of(finishing(s, request, "failed"@, None)[0], request, "failed"@));
    assert(tells_of(finishing(s, request, "unknown"@, None)[0], request, "unknown"@));
}

/// So it is with the other calls: a message to a turn and an interruption are completed, a compaction
/// is delivered, each fails where it was refused, and is unknown after another failure.
pub proof fn calls_come_to_what_the_harness_said(
    s: SessionView,
    request: Seq<char>,
    kind: FaultKind,
)
    requires
        s.receipts.contains_key(request),
        s.receipts[request].request_id == request,
        s.receipts[request].state == "accepted"@,
    ensures
        told_of(steered(s, request, Ok(())).notes, request, "completed"@),
        told_of(interrupted(s, request, Ok(())).notes, request, "completed"@),
        told_of(compacted(s, request, Ok(())).notes, request, "delivered"@),
        interrupted(s, request, Ok(())).next == (NextView::Advance { turn_ended: false }),
        kind == FaultKind::InvalidInput ==> {
            &&& told_of(steered(s, request, Err(kind)).notes, request, "failed"@)
            &&& told_of(interrupted(s, request, Err(kind)).notes, request, "failed"@)
            &&& told_of(compacted(s, request, Err(kind)).notes, request, "failed"@)
            &&& interrupted(s, request, Err(kind)).next == (NextView::Advance { turn_ended: false })
            &&& compacted(s, request, Err(kind)).next == (NextView::Advance { turn_ended: false })
        },
        kind != FaultKind::InvalidInput ==> {
            &&& told_of(steered(s, request, Err(kind)).notes, request, "unknown"@)
            &&& told_of(interrupted(s, request, Err(kind)).notes, request, "unknown"@)
            &&& told_of(compacted(s, request, Err(kind)).notes, request, "unknown"@)
            &&& interrupted(s, request, Err(kind)).next == NextView::Nothing
            &&& compacted(s, request, Err(kind)).next == NextView::Nothing
        },
        steered(s, request, Ok(())).next == NextView::Nothing,
        steered(s, request, Err(kind)).next == NextView::Nothing,
        compacted(s, request, Ok(())).next == NextView::Nothing,
{
    session_words();
    running_words();
    open_requests_are_told_of(s, request, "delivered"@, None);
    open_requests_are_told_of(s, request, "completed"@, None);
    open_requests_are_told_of(s, request, "failed"@, None);
    open_requests_are_told_of(s, request, "unknown"@, None);
    assert(tells_of(finishing(s, request, "completed"@, None)[0], request, "completed"@));
    assert(tells_of(finishing(s, request, "delivered"@, None)[0], request, "delivered"@));
    assert(tells_of(finishing(s, request, "failed"@, None)[0], request, "failed"@));
    assert(tells_of(finishing(s, request, "unknown"@, None)[0], request, "unknown"@));
}

/// A rewind that was refused has failed and is told to have; one whose outcome is not known is told so; one
/// that goes on is told of by the harness.
pub proof fn rewinds_come_to_what_the_harness_said(
    s: SessionView,
    request: Seq<char>,
    kind: FaultKind,
)
    requires
        s.receipts.contains_key(request),
        s.receipts[request].request_id == request,
        s.receipts[request].state == "accepted"@,
    ensures
        rewound(s, request, Ok(())).len() == 0,
        ({
            let notes = rewound(s, request, Err(FaultKind::InvalidInput));
            told_of(notes, request, "failed"@) && notes.last().kind == "rewind_failed"@
                && notes.last().data.field("request_id"@) == Data::Text(request)
        }),
        kind != FaultKind::InvalidInput ==> rewound(s, request, Err(kind)).len() == 1 && tells_of(
            rewound(s, request, Err(kind))[0],
            request,
            "unknown"@,
        ),
{
    session_words();
    running_words();
    open_requests_are_told_of(s, request, "failed"@, None);
    open_requests_are_told_of(s, request, "unknown"@, None);
    let first = finishing(s, request, "failed"@, None);
    let notes = rewound(s, request, Err(FaultKind::InvalidInput));
    assert(notes[0] == first[0]);
    assert(tells_of(notes[0], request, "failed"@));
}

// Events.

/// The turn that runs begins: the session runs, with the names of the request and of the turn.
pub proof fn turns_that_begin_are_told(
    s: SessionView,
    request: Seq<char>,
    turn: Option<Seq<char>>,
)
    requires
        s.ready,
        s.current_request == Some(request),
    ensures
        told(s, EventView::Started { request, native_turn: turn }) matches Ok(out)
            && out.step.notes.len() == 1 && comes_to(
            out.step.notes[0],
            if s.close_request is Some {
                "closing"@
            } else {
                "running"@
            },
        ) && out.step.notes[0].data.field("request_id"@) == Data::Text(request) && (turn is Some
            ==> out.step.notes[0].data.field("turn_id"@) == Data::Text(turn->0)) && out.step.next
            == NextView::Nothing,
{
    session_words();
    running_words();
}

/// The turn that runs ends as the harness tells: its request comes to that, the place is marked, what was used
/// is read, and the next message is tried.
pub proof fn turns_that_end_are_told(
    s: SessionView,
    request: Seq<char>,
    status: Seq<char>,
    error: Option<Seq<char>>,
)
    requires
        s.current_request == Some(request),
        s.receipts.contains_key(request),
        s.receipts[request].request_id == request,
        is_open(s.receipts[request]),
        s.receipts[request].state != status,
    ensures
        told(s, EventView::Finished { request, status, error }) matches Ok(out) && told_of(
            out.step.notes,
            request,
            status,
        ) && out.usage && out.step.next == (NextView::Advance { turn_ended: true }) && (s.current_turn
            is Some ==> out.step.notes[0].kind == "checkpoint"@ && out.step.notes[0].data.field("id"@)
            == Data::Text(s.current_turn->0) && out.step.notes[0].data.field("request_id"@)
            == Data::Text(request)),
{
    session_words();
    running_words();
    open_requests_are_told_of(s, request, status, error);
    let out = told(s, EventView::Finished { request, status, error })->Ok_0;
    let notes = out.step.notes;
    assert(tells_of(notes[notes.len() - 1], request, status));
}

/// A compaction ends as the harness tells: completed, interrupted, or failed.
pub proof fn compactions_that_end_are_told(s: SessionView, request: Seq<char>, status: Seq<char>)
    requires
        s.compact_request == Some(request),
        s.receipts.contains_key(request),
        s.receipts[request].request_id == request,
        s.receipts[request].state == "delivered"@ || s.receipts[request].state == "accepted"@,
    ensures
        ({
            let out = told(s, EventView::Compacted { status });
            &&& out matches Ok(done) && done.usage && done.step.next == (NextView::Advance {
                turn_ended: false,
            })
            &&& status == "completed"@ ==> told_of(out->Ok_0.step.notes, request, "completed"@)
            &&& status == "interrupted"@ ==> told_of(out->Ok_0.step.notes, request, "interrupted"@)
            &&& status != "completed"@ && status != "interrupted"@ ==> told_of(
                out->Ok_0.step.notes,
                request,
                "failed"@,
            )
        }),
{
    session_words();
    running_words();
    let cause = Some("Context compaction failed; see native history"@);
    open_requests_are_told_of(s, request, "completed"@, None);
    open_requests_are_told_of(s, request, "interrupted"@, None);
    open_requests_are_told_of(s, request, "failed"@, cause);
    assert(tells_of(finishing(s, request, "completed"@, None)[0], request, "completed"@));
    assert(tells_of(finishing(s, request, "interrupted"@, None)[0], request, "interrupted"@));
    assert(tells_of(finishing(s, request, "failed"@, cause)[0], request, "failed"@));
}

/// What the harness records is recorded as it is, and what it says was used is told too.
pub proof fn records_are_kept(s: SessionView, kind: Seq<char>, data: Data, native: Option<Seq<char>>)
    requires
        kind != "rewind_ready"@,
    ensures
        told(s, EventView::Record { kind, data, native }) matches Ok(out) && out.step.notes.len() > 0
            && out.step.notes[0].kind == kind && out.step.notes[0].data == data
            && out.step.notes[0].native == native && out.step.next == NextView::Nothing && (data.get(
            "usage"@,
        ) matches Some(usage) ==> (!(usage is Null) ==> out.step.notes.len() == 2
            && out.step.notes[1].kind == "usage"@ && out.step.notes[1].data == usage)) && (data.get(
            "usage"@,
        ) is None ==> out.step.notes.len() == 1),
{
    session_words();
    running_words();
}

/// A session that was taken back is told to be, for its request, with the message that takes the place of
/// the old one; nothing is taken back that was not asked for.
pub proof fn rewinds_that_are_ready_are_told(s: SessionView, data: Data, request: Seq<char>, id: Seq<char>)
    requires
        data.takes_fields(),
        s.receipts.contains_key(request),
    ensures
        s.rewind_request is None ==> told(
            s,
            EventView::Record { kind: "rewind_ready"@, data, native: None },
        ) is Err,
        s.rewind_request == Some(request) && s.receipts[request].input.get("replacement"@) is None
            ==> (told(s, EventView::Record { kind: "rewind_ready"@, data, native: None }) matches Ok(
            out,
        ) && out.step.notes.len() == 1 && out.step.notes[0].kind == "rewind"@
            && out.step.notes[0].data.field("request_id"@) == Data::Text(request)
            && out.step.notes[0].data.field("before"@) == s.receipts[request].input.field("before"@)
            && out.step.next == (NextView::Advance { turn_ended: true })),
        s.rewind_request == Some(request) && s.receipts[request].input.field("replacement"@).field(
            "request_id"@,
        ) == Data::Text(id) ==> (told(
            s,
            EventView::Record { kind: "rewind_ready"@, data, native: None },
        ) matches Ok(out) && out.step.notes.len() == 1 && ({
            let next = out.step.notes[0].data.field("replacement"@);
            &&& next.field("request_id"@) == Data::Text(id)
            &&& next.field("command"@) == Data::Text("prompt"@)
            &&& next.field("state"@) == Data::Text("accepted"@)
            &&& next.field("input"@) == s.receipts[request].input.field("replacement"@).field(
                "input"@,
            )
        })),
{
    session_words();
    running_words();
}

// The end of the harness.

/// The harness of a session that was told to end, and that closes, ends: the session is closed, and its
/// close is completed.
pub proof fn closed_sessions_end(
    s: SessionView,
    reason: Seq<char>,
    cleaned_up: bool,
    details: ExitView,
    stopping: bool,
    diagnostic: Seq<char>,
    close: Seq<char>,
)
    requires
        s.close_request == Some(close),
        s.rewind_request is None,
        s.current_request is None,
        s.receipts.contains_key(close),
        s.receipts[close].request_id == close,
        s.receipts[close].state == "accepted"@,
    ensures
        ({
            let (after, step) = exited(s, reason, true, cleaned_up, details, stopping, diagnostic);
            &&& after.handle is None && !after.ready
            &&& brought_to(step.notes, "closed"@)
            &&& told_of(step.notes, close, "completed"@)
        }),
        ({
            let (after, step) = exited(s, reason, false, cleaned_up, details, stopping, diagnostic);
            &&& after.handle is None && !after.ready
            &&& told_of(step.notes, close, "unknown"@)
        }),
{
    session_words();
    running_words();
    open_requests_are_told_of(s, close, "completed"@, None);
    open_requests_are_told_of(s, close, "unknown"@, None);
    closing_end(s, reason, true, cleaned_up, details, stopping, diagnostic, close);
    closing_end(s, reason, false, cleaned_up, details, stopping, diagnostic, close);
    state_is_told(s, reason, true, cleaned_up, details, stopping, diagnostic);
}

proof fn closing_end(
    s: SessionView,
    reason: Seq<char>,
    expected: bool,
    cleaned_up: bool,
    details: ExitView,
    stopping: bool,
    diagnostic: Seq<char>,
    close: Seq<char>,
)
    requires
        s.close_request == Some(close),
        s.current_request is None,
        s.receipts.contains_key(close),
        s.receipts[close].request_id == close,
        s.receipts[close].state == "accepted"@,
    ensures
        told_of(
            super::native::lost_notes(
                s,
                reason,
                expected,
                cleaned_up,
                details,
                stopping,
                diagnostic,
            ),
            close,
            if expected {
                "completed"@
            } else {
                "unknown"@
            },
        ),
{
    session_words();
    running_words();
    let word = if expected {
        "completed"@
    } else {
        "unknown"@
    };
    let all = super::native::lost_notes(s, reason, expected, cleaned_up, details, stopping, diagnostic);
    let state = super::native::exit_state(s, expected, cleaned_up, stopping);
    let lost = super::native::lost_words(reason, details);
    let end = super::native::lost_end(s, state, lost, expected, cleaned_up, stopping);
    open_requests_are_told_of(s, close, word, None);
    let closed = finishing(s, close, word, None);
    assert(tells_of(closed[0], close, word));
    assert(end[0] == closed[0]);
    assert(told_of(end, close, word));
    let before = all.take(all.len() - end.len());
    assert(all =~= before + end);
    told_stays(before, end, close, word);
}

proof fn state_is_told(
    s: SessionView,
    reason: Seq<char>,
    expected: bool,
    cleaned_up: bool,
    details: ExitView,
    stopping: bool,
    diagnostic: Seq<char>,
)
    requires
        s.current_request is Some ==> s.receipts.contains_key(s.current_request->0),
    ensures
        brought_to(
            super::native::lost_notes(
                s,
                reason,
                expected,
                cleaned_up,
                details,
                stopping,
                diagnostic,
            ),
            super::native::exit_state(s, expected, cleaned_up, stopping),
        ),
{
    session_words();
    running_words();
    let all = super::native::lost_notes(s, reason, expected, cleaned_up, details, stopping, diagnostic);
    let ends = super::native::abandoned(s, stopping) + finishing_all(
        s,
        selected(s.receipts, Wanted::LostInterrupt),
        "unknown_after_restart"@,
        None,
    );
    let i: int = if cleaned_up {
        (ends.len() + 1) as int
    } else {
        ends.len() as int
    };
    assert(comes_to(all[i], super::native::exit_state(s, expected, cleaned_up, stopping)));
}

/// A harness that ends by itself is started again once, where the conversation can be gone on with; else the
/// session is lost. A service that stops leaves the session for its next start.
pub proof fn lost_harnesses_are_started_again_once(
    s: SessionView,
    reason: Seq<char>,
    details: ExitView,
    diagnostic: Seq<char>,
)
    requires
        s.close_request is None,
        s.rewind_request is None,
        !s.releasing,
        s.current_request is None,
        s.native_id is Some,
        s.native_path is Some,
        s.ready,
        s.state == "idle"@,
    ensures
        ({
            let (after, step) = exited(s, reason, false, true, details, false, diagnostic);
            &&& after.handle is None && !after.ready
            &&& !s.recovery_attempted ==> step.next == NextView::Relaunch && brought_to(
                step.notes,
                "suspended"@,
            ) && comes_to(step.notes.last(), "resuming"@)
            &&& s.recovery_attempted ==> step.next == NextView::Nothing && brought_to(
                step.notes,
                "process_lost"@,
            )
        }),
        ({
            let (after, step) = exited(s, reason, false, true, details, true, diagnostic);
            &&& step.next == NextView::Nothing
            &&& brought_to(step.notes, "suspended"@)
        }),
        ({
            let (after, step) = exited(s, reason, false, false, details, false, diagnostic);
            &&& step.next == NextView::Nothing
            &&& brought_to(step.notes, "process_lost"@)
        }),
{
    session_words();
    running_words();
    state_is_told(s, reason, false, true, details, false, diagnostic);
    state_is_told(s, reason, false, true, details, true, diagnostic);
    state_is_told(s, reason, false, false, details, false, diagnostic);
}

/// The turn that ran when the harness ended is not known to have come to anything: it is told to be unknown,
/// for good unless the service stops or the session closes.
pub proof fn turns_are_lost_with_their_harness(
    s: SessionView,
    reason: Seq<char>,
    expected: bool,
    cleaned_up: bool,
    details: ExitView,
    stopping: bool,
    diagnostic: Seq<char>,
    turn: Seq<char>,
)
    requires
        s.current_request == Some(turn),
        s.rewind_request is None,
        !s.releasing,
        s.receipts.contains_key(turn),
        s.receipts[turn].request_id == turn,
        s.receipts[turn].state == "delivered"@,
        s.close_request is None,
    ensures
        told_of(
            exited(s, reason, expected, cleaned_up, details, stopping, diagnostic).1.notes,
            turn,
            if stopping {
                "unknown"@
            } else {
                "unknown_after_restart"@
            },
        ),
{
    session_words();
    running_words();
    let word = if stopping {
        "unknown"@
    } else {
        "unknown_after_restart"@
    };
    let all = super::native::lost_notes(s, reason, expected, cleaned_up, details, stopping, diagnostic);
    open_requests_are_told_of(s, turn, word, None);
    let first = finishing(s, turn, word, None);
    assert(all[0] == first[0]);
    assert(tells_of(all[0], turn, word));
}

/// Where a session is lost, every message that waits has failed.
pub proof fn waiting_messages_fail_with_a_lost_session(
    s: SessionView,
    reason: Seq<char>,
    details: ExitView,
    stopping: bool,
    diagnostic: Seq<char>,
    request: Seq<char>,
)
    requires
        s.current_request is None,
        s.rewind_request is None,
        !s.releasing,
        s.close_request is None,
        s.startup_error is None,
        s.queue.contains(request),
        s.receipts.contains_key(request),
        s.receipts[request].request_id == request,
        s.receipts[request].state == "accepted"@,
    ensures
        told_of(
            exited(s, reason, false, false, details, stopping, diagnostic).1.notes,
            request,
            "failed"@,
        ),
{
    session_words();
    running_words();
    let all = super::native::lost_notes(s, reason, false, false, details, stopping, diagnostic);
    let lost = super::native::lost_words(reason, details);
    all_are_told_of(s, s.queue, "failed"@, Some(lost), request);
    let end = super::native::lost_end(s, "process_lost"@, lost, false, false, stopping);
    let failed = finishing_all(s, s.queue, "failed"@, Some(lost));
    assert(end =~= failed);
    let before = all.take(all.len() - end.len());
    assert(all =~= before + end);
    told_stays(before, end, request, "failed"@);
}

/// A harness that was let go leaves its session asleep; the session wakes again where work has come.
pub proof fn released_sessions_sleep(
    s: SessionView,
    reason: Seq<char>,
    expected: bool,
    details: ExitView,
    stopping: bool,
    diagnostic: Seq<char>,
)
    requires
        s.releasing,
        s.close_request is None,
        s.rewind_request is None,
        s.native_id is Some,
        s.native_path is Some,
    ensures
        ({
            let (after, step) = exited(s, reason, expected, true, details, stopping, diagnostic);
            let work = s.queue.len() > 0 && !s.queue_paused;
            &&& after.handle is None && !after.releasing && !after.ready && after.awake is None
            &&& step.notes.len() >= 2 && comes_to(step.notes[1], "sleeping"@)
            &&& work ==> step.next == NextView::Relaunch && comes_to(step.notes.last(), "resuming"@)
            &&& !work ==> step.next == NextView::Nothing
        }),
{
    session_words();
    running_words();
}

/// A request to sleep is completed once the session sleeps.
pub proof fn sleep_is_completed(
    s: SessionView,
    reason: Seq<char>,
    expected: bool,
    details: ExitView,
    stopping: bool,
    diagnostic: Seq<char>,
    request: Seq<char>,
)
    requires
        s.releasing,
        s.close_request is None,
        s.rewind_request is None,
        is_order(in_order(s.receipts), s.receipts),
        s.receipts.contains_key(request),
        s.receipts[request].request_id == request,
        s.receipts[request].command == "sleep"@,
        s.receipts[request].state == "accepted"@,
    ensures
        told_of(
            exited(s, reason, expected, true, details, stopping, diagnostic).1.notes,
            request,
            "completed"@,
        ),
{
    session_words();
    running_words();
    requests_are_selected_by_what_they_are(s.receipts, request);
    let slept = selected(s.receipts, Wanted::AcceptedSleep);
    all_are_told_of(s, slept, "completed"@, None, request);
    let first = super::native::slept_notes(s).take(2);
    let middle = finishing_all(s, slept, "completed"@, None);
    told_stays(first, middle, request, "completed"@);
    let all = super::native::slept_notes(s);
    let rest = all.skip((2 + middle.len()) as int);
    assert(all =~= (first + middle) + rest);
    told_stays(first + middle, rest, request, "completed"@);
}

// Starts.

/// A harness that has started brings its session to rest: its identity is told, and the start is completed.
pub proof fn started_sessions_come_to_rest(
    s: SessionView,
    request: Seq<char>,
    level: Option<Seq<char>>,
    identity: Data,
)
    requires
        s.handle is Some,
        s.receipts.contains_key(request),
        s.receipts[request].request_id == request,
        s.receipts[request].state == "accepted"@,
    ensures
        ({
            let (notes, fault) = launched(s, request, level, identity);
            &&& fault is None
            &&& told_of(notes, request, "completed"@)
            &&& brought_to(notes, "idle"@)
            &&& level is Some && s.reasoning is None ==> notes[0].kind == "launch_reasoning"@
                && notes[0].data.field("reasoning"@) == Data::Text(level->0) && notes[1].kind
                == "native_identity"@ && notes[1].data == identity
            &&& level is None || s.reasoning is Some ==> notes[0].kind == "native_identity"@
                && notes[0].data == identity
        }),
{
    session_words();
    running_words();
    let notes = launched(s, request, level, identity).0;
    let told = super::lifecycle::baseline_notes(s, level).push(
        super::query::note("native_identity"@, identity),
    ).push(super::query::state_note("idle"@));
    let done = finishing(s, request, "completed"@, None);
    let stops = finishing_all(
        s,
        selected(s.receipts, Wanted::AcceptedStop),
        "completed"@,
        None,
    );
    open_requests_are_told_of(s, request, "completed"@, None);
    assert(tells_of(done[0], request, "completed"@));
    assert(told_of(done, request, "completed"@));
    told_stays(told, done, request, "completed"@);
    told_stays(told + done, stops, request, "completed"@);
    assert(notes =~= (told + done) + stops);
    assert(comes_to(notes[told.len() - 1], "idle"@));
}

/// A harness that ends while it starts is a fault.
pub proof fn starts_need_their_harness(
    s: SessionView,
    request: Seq<char>,
    level: Option<Seq<char>>,
    identity: Data,
)
    requires
        s.handle is None,
    ensures
        launched(s, request, level, identity).1 is Some,
{
}

/// A start that fails is told to have failed, with the session and with every message that waits.
pub proof fn failed_starts_are_told(
    s: SessionView,
    request: Seq<char>,
    stage: Stage,
    cause: Seq<char>,
    waiting: Seq<char>,
)
    requires
        s.receipts.contains_key(request),
        s.receipts[request].request_id == request,
        s.receipts[request].state == "accepted"@,
        s.queue.contains(waiting),
        s.receipts.contains_key(waiting),
        s.receipts[waiting].request_id == waiting,
        s.receipts[waiting].state == "accepted"@,
    ensures
        told_of(launch_failed(s, request, stage, cause), request, "failed"@),
        told_of(launch_failed(s, request, stage, cause), waiting, "failed"@),
        brought_to(launch_failed(s, request, stage, cause), "failed"@),
{
    session_words();
    running_words();
    let all = launch_failed(s, request, stage, cause);
    open_requests_are_told_of(s, request, "failed"@, None);
    assert(all[0] == finishing(s, request, "failed"@, None)[0]);
    assert(tells_of(all[0], request, "failed"@));
    assert(comes_to(all[1], "failed"@));
    all_are_told_of(s, s.queue, "failed"@, None, waiting);
    let rest = finishing_all(s, s.queue, "failed"@, None);
    assert(all =~= all.take(2) + rest);
    told_stays(all.take(2), rest, waiting, "failed"@);
}

/// What stands before a start: a session that closes is dropped, a service that stops leaves it, unsafe
/// storage makes it wait.
pub proof fn starts_pass_a_gate(s: SessionView, stopping: bool, blocked: bool)
    ensures
        s.close_request is Some <==> gate(s, stopping, blocked) == Gate::Drop,
        gate(s, stopping, blocked) == Gate::Suspend <==> s.close_request is None && stopping,
        gate(s, stopping, blocked) == Gate::Wait <==> s.close_request is None && !stopping && blocked,
        gate(s, stopping, blocked) == Gate::Go <==> s.close_request is None && !stopping && !blocked,
{
}

/// A session is started where its harness is configured, it does not close, and the service goes on; a
/// conversation is gone on with where it is known too.
pub proof fn sessions_start_where_they_can(s: SessionView, stopping: bool, configured: bool)
    ensures
        launches(s, stopping, configured) == Ok::<bool, FaultView>(true) <==> !stopping && configured
            && s.close_request is None,
        launches(s, stopping, configured) == Ok::<bool, FaultView>(false) <==> !stopping
            && s.close_request is Some,
        continues(s, stopping, configured) == Ok::<bool, FaultView>(true) <==> !stopping && configured
            && s.close_request is None && s.native_id is Some && s.native_path is Some,
        continues(s, stopping, configured) == Ok::<bool, FaultView>(false) <==> stopping
            || s.close_request is Some,
{
}

/// A harness that was started again brings its session to rest, completes what asked for it, and lets the next
/// message be tried.
pub proof fn resumed_sessions_come_to_rest(
    s: SessionView,
    level: Option<Seq<char>>,
    identity: Data,
    request: Seq<char>,
)
    requires
        s.close_request is None,
        s.handle is Some,
        is_order(in_order(s.receipts), s.receipts),
        s.receipts.contains_key(request),
        s.receipts[request].request_id == request,
        s.receipts[request].command == "resume"@,
        s.receipts[request].state == "accepted"@,
    ensures
        ({
            let (step, fault) = relaunched(s, false, level, identity);
            &&& fault is None
            &&& step.next == (NextView::Advance { turn_ended: true })
            &&& told_of(step.notes, request, "completed"@)
            &&& brought_to(step.notes, "idle"@)
            &&& s.storage_paused ==> step.notes.last().kind == "storage_recovered"@
        }),
{
    session_words();
    running_words();
    requests_are_selected_by_what_they_are(s.receipts, request);
    let asked = selected(s.receipts, Wanted::AcceptedResume);
    all_are_told_of(s, asked, "completed"@, None, request);
    let notes = relaunched(s, false, level, identity).0.notes;
    let first = super::lifecycle::baseline_notes(s, level).push(
        super::query::note("native_identity"@, identity),
    ).push(super::query::state_note("idle"@));
    let middle = finishing_all(s, asked, "completed"@, None);
    told_stays(first, middle, request, "completed"@);
    let rest = notes.skip((first.len() + middle.len()) as int);
    assert(notes =~= (first + middle) + rest);
    told_stays(first + middle, rest, request, "completed"@);
    assert(comes_to(notes[first.len() - 1], "idle"@));
}

/// A session whose harness could not be started again is lost, with the cause named; a start that took too
/// long keeps the messages that wait, any other fails them.
pub proof fn failed_resumes_are_told(
    s: SessionView,
    fault: FaultView,
    saved: Saved,
    waiting: Seq<char>,
)
    requires
        s.close_request is None,
        s.queue.contains(waiting),
        s.receipts.contains_key(waiting),
        s.receipts[waiting].request_id == waiting,
        s.receipts[waiting].state == "accepted"@,
    ensures
        ({
            let notes = relaunch_failed(s, false, fault, saved);
            &&& notes.len() > 0 && comes_to(notes[0], "process_lost"@)
            &&& fault.kind == FaultKind::TimedOut ==> notes[0].data.field("startup_error"@)
                == Data::Text("startup_timeout"@)
            &&& fault.kind != FaultKind::TimedOut ==> told_of(notes, waiting, "failed"@)
            &&& fault.kind != FaultKind::TimedOut && s.state == "resuming"@ && s.native_id is Some
                && s.native_path is Some && saved == Saved::Missing ==> notes[0].data.field(
                "startup_error"@,
            ) == Data::Text(
                if s.has_dispatched {
                    "missing_history"@
                } else {
                    "empty_session"@
                },
            )
            &&& fault.kind != FaultKind::TimedOut && saved != Saved::Missing ==> notes[0].data.field(
                "startup_error"@,
            ) == Data::Text("resume_failed"@)
        }),
        relaunch_failed(s, true, fault, saved).len() == 0,
{
    session_words();
    running_words();
    let notes = relaunch_failed(s, false, fault, saved);
    let timed_out = fault.kind == FaultKind::TimedOut;
    let (code, reason) = super::lifecycle::resume_failure(timed_out, recovery_status(s, saved));
    let lost = reason + " Cause: "@ + fault.message;
    if !timed_out {
        all_are_told_of(s, s.queue, "failed"@, Some(lost), waiting);
        let middle = finishing_all(s, s.queue, "failed"@, Some(lost));
        told_stays(notes.take(1), middle, waiting, "failed"@);
        let rest = notes.skip((1 + middle.len()) as int);
        assert(notes =~= (notes.take(1) + middle) + rest);
        told_stays(notes.take(1) + middle, rest, waiting, "failed"@);
    }
}

/// Whether a saved conversation can be gone on with: it is known, is there, and is not closed.
pub proof fn saved_conversations_are_looked_for(s: SessionView, saved: Saved)
    ensures
        ({
            let known = s.close_request is None && s.state != "closed"@ && s.state
                != "saved_history_only"@ && s.native_id is Some && s.native_path is Some;
            &&& recovery_status(s, saved) == "ready"@ <==> known && saved == Saved::Readable
            &&& recovery_status(s, saved) == "missing"@ <==> known && saved == Saved::Missing
                && s.has_dispatched
            &&& recovery_status(s, saved) == "empty"@ <==> known && saved == Saved::Missing
                && !s.has_dispatched
        }),
{
    session_words();
    running_words();
}

// The next start of the service.

/// After the service starts again, a request that was open is unknown for good, unless it is a message that
/// waits in a session that can go on; the session is left for its harness, or lost.
pub proof fn open_requests_are_unknown_after_a_restart(
    s: SessionView,
    repository: Seq<char>,
    request: Seq<char>,
)
    requires
        is_order(in_order(s.receipts), s.receipts),
        s.receipts.contains_key(request),
        s.receipts[request].request_id == request,
        s.receipts[request].state == "accepted"@ || s.receipts[request].state == "delivered"@,
        s.state != "pending"@,
        s.state != "waiting_for_files"@,
        s.receipts[request].command != "prompt"@ || !s.queue.contains(request),
    ensures
        told_of(reopened(s, repository), request, "unknown_after_restart"@),
{
    session_words();
    running_words();
    let keys = in_order(s.receipts);
    assert(keys.contains(request));
    one_after_restart(s, keys, request, "unknown_after_restart"@);
    restart_holds(s, repository, request, "unknown_after_restart"@);
}

/// A message that waits when the service starts again fails where its session cannot go on.
pub proof fn waiting_messages_fail_where_a_session_is_lost(
    s: SessionView,
    repository: Seq<char>,
    request: Seq<char>,
)
    requires
        is_order(in_order(s.receipts), s.receipts),
        s.receipts.contains_key(request),
        s.receipts[request].request_id == request,
        s.receipts[request].state == "accepted"@,
        s.receipts[request].command == "prompt"@,
        s.queue.contains(request),
        s.state == "running"@ || s.state == "idle"@,
        s.native_id is None,
        s.startup_error is None,
    ensures
        told_of(reopened(s, repository), request, "failed"@),
        comes_to(reopened(s, repository).last(), "process_lost"@),
{
    session_words();
    running_words();
    let keys = in_order(s.receipts);
    assert(keys.contains(request));
    one_after_restart(s, keys, request, "failed"@);
    restart_holds(s, repository, request, "failed"@);
}

/// A session that can go on is left for its harness when the service starts again; one that is over stays
/// as it is.
pub proof fn sessions_are_left_for_their_harness(s: SessionView, repository: Seq<char>)
    requires
        s.native_id is Some,
        s.native_path is Some,
        s.close_request is None,
    ensures
        s.state == "idle"@ || s.state == "running"@ || s.state == "suspended"@ || s.state
            == "interrupting"@ ==> comes_to(reopened(s, repository).last(), "suspended"@),
{
    session_words();
    running_words();
}

proof fn one_after_restart(s: SessionView, keys: Seq<Seq<char>>, request: Seq<char>, state: Seq<char>)
    requires
        keys.contains(request),
        s.receipts[request].request_id == request,
        super::lifecycle::after_restart(s, s.receipts[request]).len() == 1,
        tells_of(super::lifecycle::after_restart(s, s.receipts[request])[0], request, state),
    ensures
        told_of(super::lifecycle::all_after_restart(s, keys), request, state),
    decreases keys.len(),
{
    let before = super::lifecycle::all_after_restart(s, keys.drop_last());
    let last = super::lifecycle::after_restart(s, s.receipts[keys.last()]);
    told_stays(before, last, request, state);
    if keys.last() == request {
        assert(tells_of(last[0], request, state));
    } else {
        let i = choose|i: int| 0 <= i < keys.len() && keys[i] == request;
        assert(keys.drop_last()[i] == request);
        one_after_restart(s, keys.drop_last(), request, state);
    }
}

proof fn restart_holds(s: SessionView, repository: Seq<char>, request: Seq<char>, state: Seq<char>)
    requires
        waiting_for(s) is None,
        told_of(
            super::lifecycle::all_after_restart(s, in_order(s.receipts)),
            request,
            state,
        ),
    ensures
        told_of(reopened(s, repository), request, state),
{
    let middle = super::lifecycle::all_after_restart(s, in_order(s.receipts));
    let all = reopened(s, repository);
    let n: int = if s.workspace is None && s.receipts != Map::<Seq<char>, ReceiptView>::empty() {
        1
    } else {
        0
    };
    let first = all.take(n);
    let rest = all.skip((n + middle.len()) as int);
    assert(all =~= (first + middle) + rest);
    told_stays(first, middle, request, state);
    told_stays(first + middle, rest, request, state);
}

/// Where the history of a conversation is lost, so is its session, with every message that waits; that is told
/// first.
pub proof fn lost_histories_end_their_session(s: SessionView, cause: Seq<char>, waiting: Seq<char>)
    requires
        s.native_id is Some,
        s.native_path is Some,
        s.close_request is None,
        s.state == "suspended"@ || s.state == "sleeping"@ || s.state == "idle"@,
        s.queue.contains(waiting),
        s.receipts.contains_key(waiting),
        s.receipts[waiting].request_id == waiting,
        s.receipts[waiting].state == "accepted"@,
    ensures
        history_lost(s, cause)[0].kind == "native_history_unavailable"@,
        comes_to(history_lost(s, cause)[1], "process_lost"@),
        told_of(history_lost(s, cause), waiting, "failed"@),
{
    session_words();
    running_words();
    all_are_told_of(s, s.queue, "failed"@, None, waiting);
    let all = history_lost(s, cause);
    let rest = finishing_all(s, s.queue, "failed"@, None);
    assert(all =~= all.take(2) + rest);
    told_stays(all.take(2), rest, waiting, "failed"@);
}

/// A session that was left is brought back where it has work or was used lately, and sleeps else.
pub proof fn sessions_are_brought_back(s: SessionView, now: u64, at: u64)
    requires
        s.native_id is Some,
        s.native_path is Some,
        s.close_request is None,
        s.handle is None,
        s.state == "suspended"@,
        s.last_activity == Some(at),
        at <= now,
    ensures
        ({
            let step = brought_back(s, now);
            let needed = (s.queue.len() > 0 && !s.queue_paused) || now - at < 1_800_000;
            &&& step.notes.len() == 1
            &&& needed ==> step.next == NextView::Relaunch && comes_to(step.notes[0], "resuming"@)
            &&& !needed ==> step.next == NextView::Nothing && comes_to(step.notes[0], "sleeping"@)
        }),
{
    session_words();
    running_words();
}

/// A session whose start is still waited for is started, by the request for it.
pub proof fn waiting_starts_are_made(s: SessionView, now: u64, request: Seq<char>)
    requires
        waiting_for(s) == Some(request),
    ensures
        s.state == "pending"@ || s.state == "waiting_for_files"@,
        brought_back(s, now).next == (NextView::Launch { request }),
        brought_back(s, now).notes.len() == 0,
        s.close_request is None && s.native_id is None && s.harness_pid is None,
{
}

// What is shown, and sleep.

/// How a session is shown follows from its state: it works, waits, is queued, sleeps, is stopped, or has
/// failed.
pub proof fn sessions_are_shown_as_they_are(s: SessionView)
    ensures
        ({
            let word = dashboard_word(s);
            &&& s.storage_paused ==> word == "waiting"@
            &&& !s.storage_paused && (s.state == "starting"@ || s.state == "resuming"@) ==> word
                == "queued"@
            &&& !s.storage_paused && (s.state == "starting_turn"@ || s.state == "running"@ || s.state
                == "interrupting"@ || s.state == "closing"@) ==> word == "working"@
            &&& !s.storage_paused && s.state == "idle"@ && s.last_prompt_state is None ==> word
                == "waiting"@
            &&& !s.storage_paused && s.state == "idle"@ && s.last_prompt_state == Some("completed"@)
                ==> word == "waiting"@
            &&& !s.storage_paused && s.state == "idle"@ && s.last_prompt_state == Some("failed"@)
                ==> word == "failed"@
            &&& !s.storage_paused && s.state == "idle"@ && (s.last_prompt_state == Some("unknown"@)
                || s.last_prompt_state == Some("unknown_after_restart"@)) ==> word == "unknown"@
            &&& !s.storage_paused && s.state == "closed"@ ==> word == "stopped"@
            &&& !s.storage_paused && s.state == "sleeping"@ ==> word == "sleeping"@
            &&& !s.storage_paused && (s.state == "failed"@ || s.state == "process_lost"@) ==> word
                == "failed"@
        }),
{
    session_words();
    running_words();
}

/// A conversation can be gone on with where it is known and its session is not over.
pub proof fn conversations_can_be_gone_on_with(s: SessionView)
    requires
        s.native_id is Some,
        s.native_path is Some,
        s.close_request is None,
    ensures
        s.state == "idle"@ || s.state == "running"@ || s.state == "sleeping"@ || s.state
            == "suspended"@ ==> resumable(s),
        s.state == "closed"@ || s.state == "process_lost"@ || s.state == "failed"@ || s.state
            == "resuming"@ || s.state == "rewinding"@ ==> !resumable(s),
{
    session_words();
    running_words();
}

/// What has no conversation, or closes, cannot be gone on with.
pub proof fn nothing_else_can_be_gone_on_with(s: SessionView)
    requires
        s.native_id is None || s.native_path is None || s.close_request is Some,
    ensures
        !resumable(s),
{
}

/// A session is busy while a turn runs or waits, or the session sets out; at rest it is not.
pub proof fn busy_sessions_work(s: SessionView)
    ensures
        s.current_request is Some ==> busy(s),
        s.queue.len() > 0 && !s.queue_paused ==> busy(s),
        s.state == "running"@ || s.state == "starting_turn"@ || s.state == "starting"@ || s.state
            == "resuming"@ || s.state == "pending"@ || s.state == "waiting_for_files"@ ==> busy(s),
        (s.state == "idle"@ || s.state == "sleeping"@ || s.state == "closed"@ || s.state
            == "process_lost"@) && s.current_request is None && (s.queue.len() == 0
            || s.queue_paused) ==> !busy(s),
{
    session_words();
    running_words();
}

/// A session that rests is let go half an hour after it was last used, or once it was asked to sleep, and
/// not before; a harness that has just become ready is remembered first.
pub proof fn resting_sessions_are_let_go(
    sessions: Map<Seq<char>, SessionView>,
    id: Seq<char>,
    now: u64,
    used: u64,
)
    requires
        sessions.contains_key(id),
        ({
            let s = sessions[id];
            &&& s.handle is Some && s.ready && !s.releasing && s.state == "idle"@
            &&& s.awake is Some && s.awake->0.pid == s.handle->0.pid && s.awake->0.since_ms <= used
            &&& s.last_activity == Some(used) && used <= now
            &&& s.current_request is None && s.queue.len() == 0 && !s.compacting
            &&& s.rewind_request is None && s.close_request is None && !s.storage_paused
            &&& !interrupt_waits(s)
        }),
        forall|child: Seq<char>| #[trigger]
            sessions.contains_key(child) ==> sessions[child].parent_session != Some(id),
    ensures
        ({
            let s = sessions[id];
            let asked = exists|r: Seq<char>| #[trigger]
                s.receipts.contains_key(r) && s.receipts[r].command == "sleep"@
                    && s.receipts[r].state == "accepted"@;
            &&& asked || now - used >= 1_800_000 ==> watched(sessions, id, now, None)
                == Watch::Release
            &&& !asked && now - used < 1_800_000 ==> watched(sessions, id, now, None) == Watch::Leave
        }),
{
    session_words();
    running_words();
    let s = sessions[id];
    if exists|r: Seq<char>| #[trigger]
        s.receipts.contains_key(r) && s.receipts[r].command == "sleep"@ && s.receipts[r].state
            == "accepted"@ {
        let r = choose|r: Seq<char>| #[trigger]
            s.receipts.contains_key(r) && s.receipts[r].command == "sleep"@ && s.receipts[r].state
                == "accepted"@;
        assert(wanted(s.receipts[r], Wanted::AcceptedSleep));
    }
}

/// A harness with more processes than when it became ready is kept.
pub proof fn working_harnesses_are_kept(
    sessions: Map<Seq<char>, SessionView>,
    id: Seq<char>,
    now: u64,
    processes: usize,
)
    requires
        sessions.contains_key(id),
        sessions[id].handle is Some,
        sessions[id].awake is Some,
        sessions[id].awake->0.pid == sessions[id].handle->0.pid,
        sessions[id].awake->0.processes is Some,
        processes > sessions[id].awake->0.processes->0,
    ensures
        watched(sessions, id, now, Some(processes)) == Watch::Leave,
{
}

/// A harness that becomes ready is remembered.
pub proof fn ready_harnesses_are_remembered(
    sessions: Map<Seq<char>, SessionView>,
    id: Seq<char>,
    now: u64,
    processes: Option<usize>,
)
    requires
        sessions.contains_key(id),
        sessions[id].handle is Some,
        sessions[id].ready,
        sessions[id].awake is None || sessions[id].awake->0.pid != sessions[id].handle->0.pid,
    ensures
        watched(sessions, id, now, processes) == Watch::Remember,
{
}

/// Rest is counted from when a session was last used, or woke if that was later.
pub proof fn rest_is_counted_from_the_last_use(s: SessionView, now: u64, used: u64)
    requires
        s.last_activity == Some(used),
        used <= now,
        s.awake matches Some(a) ==> a.since_ms <= now,
    ensures
        s.awake is None || s.awake->0.since_ms <= used ==> idle_for(s, now) == now - used,
        s.awake is Some && s.awake->0.since_ms > used ==> idle_for(s, now) == now
            - s.awake->0.since_ms,
{
}

/// Commands are guarded unless the start of the session says that they are not.
pub proof fn commands_are_guarded(s: SessionView, start: Seq<char>)
    requires
        is_order(in_order(s.receipts), s.receipts),
        selected(s.receipts, Wanted::Start) == seq![start],
    ensures
        s.receipts[start].input.field("command_guard_enabled"@) == Data::Bool(false)
            <==> !guarded(s),
{
    assert(selected(s.receipts, Wanted::Start)[0] == start);
}

/// Sessions are picked by what they do: those that hold a harness, that wait for one, that can be warned
/// about storage, or whose harness has work.
pub proof fn sessions_are_picked_by_what_they_do(s: SessionView)
    ensures
        fits(s, Pick::Attached) <==> s.handle is Some,
        fits(s, Pick::Waiting) <==> s.state == "resuming"@ && s.handle is None,
        fits(s, Pick::Warned) <==> s.handle is Some && s.storage_warned,
        fits(s, Pick::Unwarned) <==> s.handle is Some && !s.storage_warned && s.native_id is Some,
        fits(s, Pick::Limited) ==> s.usage_limited && s.ready && s.queue.len() == 0 && !s.queue_paused,
        s.harness == Kind::Codex && s.current_request is Some ==> fits(s, Pick::CodexWork),
        s.harness == Kind::Codex && s.queue.len() > 0 && !s.queue_paused ==> fits(s, Pick::CodexWork),
        s.harness != Kind::Codex ==> !fits(s, Pick::CodexWork),
        s.harness == Kind::Cursor && s.handle is Some ==> fits(s, Pick::CursorWork),
        s.harness != Kind::Cursor ==> !fits(s, Pick::CursorWork),
        s.harness == Kind::Claude && s.handle is Some ==> fits(s, Pick::ClaudeRuns),
        s.harness != Kind::Claude ==> !fits(s, Pick::ClaudeRuns),
        s.usage_limited && s.harness == Kind::Pi && s.ready && s.handle is Some && s.state == "idle"@
            && s.current_request is None && s.queue.len() == 0 && !s.queue_paused && !s.compacting
            && s.close_request is None && s.rewind_request is None ==> fits(s, Pick::Limited),
{
}

/// What was used is told where it is that of the conversation.
pub proof fn usage_is_that_of_the_conversation(s: SessionView, usage: Data, native: Seq<char>)
    ensures
        usage.field("sessionId"@) == Data::Text(native) ==> (usage_fits(s, usage) <==> s.native_id
            == Some(native)),
        usage.get("sessionId"@) is None ==> usage_fits(s, usage),
{
}

} // verus!
