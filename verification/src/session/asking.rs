//! What each request to a session leads to, and when it is taken.
use super::command::{commanded, Context, NextView};
use super::local::LocalView;
use super::query::NoteView;
use super::replay::session_words;
use super::{ErrorView, ReceiptView, SessionView};
use crate::json::{Data, Number};
use crate::runtime::Kind;
use vstd::prelude::*;

verus! {

/// A note that a request came to a state.
pub open spec fn tells_of(note: NoteView, request: Seq<char>, state: Seq<char>) -> bool {
    &&& note.kind == "receipt"@
    &&& note.data.field("request_id"@) == Data::Text(request)
    &&& note.data.field("state"@) == Data::Text(state)
}

/// A note that the session came to a state.
pub open spec fn comes_to(note: NoteView, state: Seq<char>) -> bool {
    note.kind == "state"@ && note.data.field("state"@) == Data::Text(state)
}

/// A new request that is taken.
pub open spec fn taken(
    l: LocalView,
    c: Context,
    id: Seq<char>,
    request: Seq<char>,
    command: Seq<char>,
    input: Data,
) -> bool {
    &&& l.sessions.contains_key(id)
    &&& !l.sessions[id].receipts.contains_key(request)
    &&& commanded(l, c, id, request, command, input).reply is Ok
}

/// An interrupt or a stop has been taken, and has not ended.
pub open spec fn interrupt_waits(s: SessionView) -> bool {
    exists|other: Seq<char>| #[trigger]
        s.receipts.contains_key(other) && (s.receipts[other].command == "interrupt"@
            || s.receipts[other].command == "stop"@) && (s.receipts[other].state == "accepted"@
            || s.receipts[other].state == "delivered"@)
}

/// A session that was asked for something new can be asked now: its journal is written, the service
/// goes on, and no rewind, close or interrupt stands in the way.
pub open spec fn can_be_asked(l: LocalView, c: Context, id: Seq<char>, request: Seq<char>) -> bool {
    &&& l.sessions.contains_key(id)
    &&& !l.sessions[id].receipts.contains_key(request)
    &&& l.journal.writable
    &&& !c.stopping
    &&& l.sessions[id].rewind_request is None
    &&& l.sessions[id].close_request is None
    &&& !interrupt_waits(l.sessions[id])
}

/// The process of a session is gone for good.
pub open spec fn is_gone(s: SessionView) -> bool {
    s.state == "closed"@ || s.state == "process_lost"@ || s.state == "failed"@
}

proof fn waiting_is_seen(s: SessionView)
    ensures
        interrupt_waits(s) == super::query::some_wanted(
            s.receipts,
            super::query::Wanted::PendingInterrupt,
        ),
{
}

// Stopping and interrupting.

/// A stop that is taken while a turn runs in a process that the session holds interrupts that turn, and is
/// not said to be completed. It is completed at once exactly where no turn runs or no process is held.
pub proof fn stops_end_the_turn_that_runs(
    l: LocalView,
    c: Context,
    id: Seq<char>,
    request: Seq<char>,
    input: Data,
)
    requires
        taken(l, c, id, request, "stop"@, input),
    ensures
        ({
            let s = l.sessions[id];
            let out = commanded(l, c, id, request, "stop"@, input);
            &&& s.current_request is Some && s.handle is Some ==> out.next == (NextView::Interrupt {
                target: s.current_request->0,
            }) && out.notes.len() == 1
            &&& s.current_request is None || s.handle is None ==> out.next == NextView::Nothing
                && out.notes.len() == 2 && tells_of(out.notes[1], request, "completed"@)
            &&& tells_of(out.notes[0], request, "accepted"@)
        }),
{
    session_words();
}

/// An interrupt that is taken interrupts the turn that it names, which is the one that runs; nothing is
/// said of its outcome yet.
pub proof fn interrupts_reach_the_turn_they_name(
    l: LocalView,
    c: Context,
    id: Seq<char>,
    request: Seq<char>,
    input: Data,
    target: Seq<char>,
)
    requires
        taken(l, c, id, request, "interrupt"@, input),
        input.field("target_request_id"@) == Data::Text(target),
    ensures
        ({
            let s = l.sessions[id];
            let out = commanded(l, c, id, request, "interrupt"@, input);
            &&& out.next == (NextView::Interrupt { target })
            &&& out.notes.len() == 1
            &&& s.current_request == Some(target)
            &&& s.ready
            &&& s.handle is Some
            &&& !s.storage_paused
        }),
{
    session_words();
}

/// An interrupt of the turn that runs is taken wherever the session can be asked at all.
pub proof fn turns_can_be_interrupted(
    l: LocalView,
    c: Context,
    id: Seq<char>,
    request: Seq<char>,
    input: Data,
    target: Seq<char>,
)
    requires
        can_be_asked(l, c, id, request),
        input.field("target_request_id"@) == Data::Text(target),
        l.sessions[id].ready,
        l.sessions[id].handle is Some,
        l.sessions[id].current_request == Some(target),
        !l.sessions[id].storage_paused,
        !is_gone(l.sessions[id]),
    ensures
        commanded(l, c, id, request, "interrupt"@, input).reply is Ok,
{
    session_words();
    waiting_is_seen(l.sessions[id]);
}

// Messages.

/// A message to an idle session starts its turn: the turn is noted and the message is sent. To a session
/// that is busy, paused or compacting it is only accepted.
pub proof fn messages_start_or_wait(
    l: LocalView,
    c: Context,
    id: Seq<char>,
    request: Seq<char>,
    input: Data,
)
    requires
        taken(l, c, id, request, "prompt"@, input),
        l.sessions[id].state != "sleeping"@,
    ensures
        ({
            let s = l.sessions[id];
            let out = commanded(l, c, id, request, "prompt"@, input);
            let idle = s.ready && s.state == "idle"@ && !s.queue_paused && !s.compacting
                && s.queue.len() == 0;
            &&& tells_of(out.notes[0], request, "accepted"@)
            &&& out.notes[0].data.field("input"@) == input
            &&& idle ==> out.next == (NextView::Deliver { request }) && out.notes.len() == 2
                && comes_to(out.notes[1], "starting_turn"@) && out.notes[1].data.field("request_id"@)
                == Data::Text(request)
            &&& !idle ==> out.next == NextView::Nothing && out.notes.len() == 1
        }),
{
    session_words();
}

/// A message wakes a session that sleeps: it is accepted, and the harness is started again, where the
/// queue runs and the conversation can be continued.
pub proof fn messages_wake_sleepers(
    l: LocalView,
    c: Context,
    id: Seq<char>,
    request: Seq<char>,
    input: Data,
)
    requires
        taken(l, c, id, request, "prompt"@, input),
        l.sessions[id].state == "sleeping"@,
    ensures
        ({
            let s = l.sessions[id];
            let out = commanded(l, c, id, request, "prompt"@, input);
            let wakes = s.handle is None && !s.queue_paused && s.native_id is Some && s.native_path
                is Some && s.close_request is None;
            &&& tells_of(out.notes[0], request, "accepted"@)
            &&& wakes ==> out.next == NextView::Relaunch && out.notes.len() == 2 && comes_to(
                out.notes[1],
                "resuming"@,
            )
            &&& !wakes ==> out.next == NextView::Nothing && out.notes.len() == 1
        }),
{
    session_words();
}

/// A message is taken exactly where the session can be asked, its process is not gone, and storage is
/// safe.
pub proof fn messages_are_taken_where_they_can_be_sent(
    l: LocalView,
    c: Context,
    id: Seq<char>,
    request: Seq<char>,
    input: Data,
)
    requires
        !(l.sessions.contains_key(id) && l.sessions[id].receipts.contains_key(request)),
    ensures
        commanded(l, c, id, request, "prompt"@, input).reply is Ok <==> can_be_asked(
            l,
            c,
            id,
            request,
        ) && !is_gone(l.sessions[id]) && !c.blocked,
{
    session_words();
    waiting_is_seen(l.sessions[id]);
}

/// An edit or a cancellation that is taken is completed at once, and of a message that waits: one that is
/// queued and not being sent. An edit names the revision that it replaces.
pub proof fn waiting_messages_are_changed_at_once(
    l: LocalView,
    c: Context,
    id: Seq<char>,
    request: Seq<char>,
    command: Seq<char>,
    input: Data,
    target: Seq<char>,
)
    requires
        taken(l, c, id, request, command, input),
        command == "edit"@ || command == "cancel"@,
        input.field("target_request_id"@) == Data::Text(target),
    ensures
        ({
            let s = l.sessions[id];
            let out = commanded(l, c, id, request, command, input);
            let gone = s.prompts.contains_key(target) && s.prompts[target].cancelled;
            &&& out.next == NextView::Nothing
            &&& out.notes.len() == 2
            &&& tells_of(out.notes[1], request, "completed"@)
            &&& target.len() > 0
            &&& command == "edit"@ || !gone ==> s.queue.contains(target) && s.current_request
                != Some(target)
            &&& command == "edit"@ ==> !gone
            &&& command == "edit"@ && s.prompts.contains_key(target) && s.prompts[target].revision
                > 0 ==> input.field("expected_revision"@) == Data::Number(
                Number::Unsigned(s.prompts[target].revision),
            )
        }),
{
    session_words();
}

/// A message that waits can be cancelled, and edited by who knows its revision.
pub proof fn waiting_messages_can_be_changed(
    l: LocalView,
    c: Context,
    id: Seq<char>,
    request: Seq<char>,
    command: Seq<char>,
    input: Data,
    target: Seq<char>,
)
    requires
        can_be_asked(l, c, id, request),
        command == "edit"@ || command == "cancel"@,
        !is_gone(l.sessions[id]),
        input.field("target_request_id"@) == Data::Text(target),
        target.len() > 0,
        l.sessions[id].queue.contains(target),
        l.sessions[id].current_request != Some(target),
        l.sessions[id].prompts.contains_key(target),
        !l.sessions[id].prompts[target].cancelled,
        command == "edit"@ ==> input.field("expected_revision"@) == Data::Number(
            Number::Unsigned(l.sessions[id].prompts[target].revision),
        ),
    ensures
        commanded(l, c, id, request, command, input).reply is Ok,
{
    session_words();
    waiting_is_seen(l.sessions[id]);
}

/// What is added to a session is completed at once.
pub proof fn additions_are_completed_at_once(
    l: LocalView,
    c: Context,
    id: Seq<char>,
    request: Seq<char>,
    input: Data,
)
    requires
        taken(l, c, id, request, "attach"@, input),
    ensures
        commanded(l, c, id, request, "attach"@, input).next == NextView::Nothing,
        commanded(l, c, id, request, "attach"@, input).notes.len() == 2,
        tells_of(commanded(l, c, id, request, "attach"@, input).notes[1], request, "completed"@),
{
    session_words();
}

/// A word to the turn that runs reaches that turn, and none of a harness that takes no such word.
pub proof fn steering_reaches_the_turn_it_names(
    l: LocalView,
    c: Context,
    id: Seq<char>,
    request: Seq<char>,
    input: Data,
    target: Seq<char>,
)
    requires
        taken(l, c, id, request, "steer"@, input),
        input.field("target_request_id"@) == Data::Text(target),
    ensures
        ({
            let s = l.sessions[id];
            let out = commanded(l, c, id, request, "steer"@, input);
            &&& out.next == (NextView::Steer { target })
            &&& out.notes.len() == 1
            &&& s.harness != Kind::Claude
            &&& s.ready && s.handle is Some && s.current_request == Some(target)
            &&& s.capabilities.field("steer"@) != Data::Bool(false)
        }),
{
    session_words();
}

// Compacting, rewinding, resuming.

/// A compaction that is taken begins at once, in a session that is at rest with a ready harness that can
/// compact.
pub proof fn compactions_begin_at_rest(
    l: LocalView,
    c: Context,
    id: Seq<char>,
    request: Seq<char>,
    input: Data,
)
    requires
        taken(l, c, id, request, "compact"@, input),
    ensures
        ({
            let s = l.sessions[id];
            let out = commanded(l, c, id, request, "compact"@, input);
            &&& out.next == NextView::Compact
            &&& out.notes.len() == 2
            &&& comes_to(out.notes[1], "running"@)
            &&& !s.compacting
            &&& s.current_request is None
            &&& s.state == "idle"@
            &&& s.ready && s.handle is Some
            &&& s.capabilities.field("compact"@) != Data::Bool(false)
        }),
{
    session_words();
}

/// A rewind that is taken is handed on, in a session at rest with nothing queued, to a place that it names;
/// the message that it brings is a new one.
pub proof fn rewinds_begin_at_rest(
    l: LocalView,
    c: Context,
    id: Seq<char>,
    request: Seq<char>,
    input: Data,
)
    requires
        taken(l, c, id, request, "rewind"@, input),
    ensures
        ({
            let s = l.sessions[id];
            let out = commanded(l, c, id, request, "rewind"@, input);
            let message = input.field("replacement"@).field("request_id"@);
            &&& out.next == NextView::Rewind
            &&& out.notes.len() == 1
            &&& s.queue.len() == 0
            &&& s.current_request is None
            &&& s.state == "idle"@
            &&& !s.compacting
            &&& s.ready && s.handle is Some
            &&& s.capabilities.field("rewind"@) != Data::Bool(false)
            &&& input.field("before"@) is Text || input.field("last_turn_id"@) is Text
            &&& input.get("replacement"@) is Some ==> message is Text && message->Text_0 != request
                && !s.receipts.contains_key(message->Text_0)
        }),
{
    session_words();
}

/// No conversation is taken back while a child of its session has work.
pub proof fn rewinds_wait_for_children(
    l: LocalView,
    c: Context,
    id: Seq<char>,
    request: Seq<char>,
    input: Data,
    child: Seq<char>,
)
    requires
        l.sessions.contains_key(id),
        !l.sessions[id].receipts.contains_key(request),
        l.sessions.contains_key(child),
        l.sessions[child].parent_session == Some(id),
        l.sessions[child].current_request is Some || l.sessions[child].queue.len() > 0
            || l.sessions[child].state == "pending"@ || l.sessions[child].state == "starting"@
            || l.sessions[child].state == "resuming"@ || l.sessions[child].state
            == "waiting_for_files"@,
    ensures
        commanded(l, c, id, request, "rewind"@, input).reply is Err,
{
    session_words();
}

/// A resume lets the queue run on; where the start of the harness had failed and nothing of it is left, it
/// starts the harness again.
pub proof fn resumes_go_on(
    l: LocalView,
    c: Context,
    id: Seq<char>,
    request: Seq<char>,
    input: Data,
)
    requires
        taken(l, c, id, request, "resume"@, input),
    ensures
        ({
            let s = l.sessions[id];
            let out = commanded(l, c, id, request, "resume"@, input);
            let again = s.state == "process_lost"@ && s.startup_error is Some && s.current_request
                is None && s.handle is None && s.harness_pid is None;
            &&& again ==> out.next == NextView::Relaunch && out.notes.len() == 2 && comes_to(
                out.notes[1],
                "resuming"@,
            ) && c.recoverable
            &&& !again ==> out.next == (NextView::Advance { turn_ended: false }) && out.notes.len()
                == 2 && tells_of(out.notes[1], request, "completed"@) && !is_gone(s)
            &&& tells_of(out.notes[0], request, "accepted"@)
        }),
{
    session_words();
}

// Closing and sleeping.

/// A close is told at once, with the turn that still runs; the harness is asked to end. Where there is no
/// process the session is closed then and there, and the close is completed.
pub proof fn closes_are_told_and_done(
    l: LocalView,
    c: Context,
    id: Seq<char>,
    request: Seq<char>,
    input: Data,
)
    requires
        taken(l, c, id, request, "close"@, input),
    ensures
        ({
            let s = l.sessions[id];
            let out = commanded(l, c, id, request, "close"@, input);
            let n = out.notes.len() as int;
            &&& out.next == NextView::Close
            &&& n >= 2
            &&& tells_of(out.notes[0], request, "accepted"@)
            &&& comes_to(out.notes[1], "closing"@)
            &&& s.current_request is Some ==> out.notes[1].data.field("request_id"@) == Data::Text(
                s.current_request->0,
            )
            &&& s.current_turn is Some ==> out.notes[1].data.field("turn_id"@) == Data::Text(
                s.current_turn->0,
            )
            &&& s.handle is None ==> n >= 4 && comes_to(out.notes[n - 2], "closed"@) && tells_of(
                out.notes[n - 1],
                request,
                "completed"@,
            )
            &&& s.handle is Some ==> forall|i: int|
                0 <= i < n ==> !comes_to(#[trigger] out.notes[i], "closed"@)
            &&& s.state != "starting"@
        }),
{
    session_words();
    let s = l.sessions[id];
    let out = commanded(l, c, id, request, "close"@, input);
    only_receipts_end(s, s.queue);
    if s.handle is Some {
        assert forall|i: int| 0 <= i < out.notes.len() implies !comes_to(
            #[trigger] out.notes[i],
            "closed"@,
        ) by {
            if i >= 2 {
                assert(out.notes[i] == super::query::finishing_all(s, s.queue, "failed"@, None)[i
                    - 2]);
            }
        }
    }
}

/// A close takes every message that waits with it: each is told to have failed.
pub proof fn closes_fail_what_waits(
    l: LocalView,
    c: Context,
    id: Seq<char>,
    request: Seq<char>,
    input: Data,
    i: int,
)
    requires
        taken(l, c, id, request, "close"@, input),
        0 <= i < l.sessions[id].queue.len(),
        l.sessions[id].receipts.contains_key(l.sessions[id].queue[i]),
        l.sessions[id].receipts[l.sessions[id].queue[i]].state == "accepted"@,
        l.sessions[id].receipts[l.sessions[id].queue[i]].request_id == l.sessions[id].queue[i],
    ensures
        exists|k: int|
            0 <= k < commanded(l, c, id, request, "close"@, input).notes.len() && tells_of(
                #[trigger] commanded(l, c, id, request, "close"@, input).notes[k],
                l.sessions[id].queue[i],
                "failed"@,
            ),
{
    session_words();
    let s = l.sessions[id];
    let out = commanded(l, c, id, request, "close"@, input);
    let k = queued_one_fails(s, s.queue, i);
    assert(out.notes[k + 2] == super::query::finishing_all(s, s.queue, "failed"@, None)[k]);
}

proof fn queued_one_fails(s: SessionView, queue: Seq<Seq<char>>, i: int) -> (k: int)
    requires
        0 <= i < queue.len(),
        s.receipts.contains_key(queue[i]),
        s.receipts[queue[i]].state == "accepted"@,
        s.receipts[queue[i]].request_id == queue[i],
    ensures
        0 <= k < super::query::finishing_all(s, queue, "failed"@, None).len(),
        tells_of(
            super::query::finishing_all(s, queue, "failed"@, None)[k],
            queue[i],
            "failed"@,
        ),
    decreases queue.len(),
{
    session_words();
    let rest = super::query::finishing_all(s, queue.drop_last(), "failed"@, None);
    if i == queue.len() - 1 {
        rest.len() as int
    } else {
        assert(queue.drop_last()[i] == queue[i]);
        queued_one_fails(s, queue.drop_last(), i)
    }
}

proof fn only_receipts_end(s: SessionView, queue: Seq<Seq<char>>)
    ensures
        forall|i: int|
            0 <= i < super::query::finishing_all(s, queue, "failed"@, None).len()
                ==> (#[trigger] super::query::finishing_all(s, queue, "failed"@, None)[i]).kind
                == "receipt"@,
    decreases queue.len(),
{
    if queue.len() > 0 {
        only_receipts_end(s, queue.drop_last());
    }
}

/// A session can be closed wherever it is not starting, already closing, gone or rewinding: an interrupt
/// that waits does not stand in the way.
pub proof fn sessions_can_be_closed(
    l: LocalView,
    c: Context,
    id: Seq<char>,
    request: Seq<char>,
    input: Data,
)
    requires
        l.sessions.contains_key(id),
        !l.sessions[id].receipts.contains_key(request),
    ensures
        commanded(l, c, id, request, "close"@, input).reply is Ok <==> l.journal.writable
            && !c.stopping && l.sessions[id].rewind_request is None && l.sessions[id].close_request
            is None && l.sessions[id].state != "starting"@ && !is_gone(l.sessions[id]),
{
    session_words();
}

/// A stop or a resume is taken exactly where the session can be asked and its process is not gone, but
/// that a resume may also start a harness again that could not be started.
pub proof fn stops_and_resumes_are_taken(
    l: LocalView,
    c: Context,
    id: Seq<char>,
    request: Seq<char>,
    input: Data,
)
    requires
        l.sessions.contains_key(id),
        !l.sessions[id].receipts.contains_key(request),
    ensures
        commanded(l, c, id, request, "stop"@, input).reply is Ok <==> can_be_asked(
            l,
            c,
            id,
            request,
        ) && !is_gone(l.sessions[id]),
        ({
            let s = l.sessions[id];
            let again = s.state == "process_lost"@ && s.startup_error is Some && s.current_request
                is None && s.handle is None && s.harness_pid is None;
            commanded(l, c, id, request, "resume"@, input).reply is Ok <==> can_be_asked(
                l,
                c,
                id,
                request,
            ) && (if again {
                c.recoverable
            } else {
                !is_gone(s)
            })
        }),
{
    session_words();
    waiting_is_seen(l.sessions[id]);
}

/// A session that is asked to sleep while it works, or holds a process, is let be until it rests; one that
/// rests without a process sleeps at once, where it can be continued.
pub proof fn sleep_comes_after_work(
    l: LocalView,
    c: Context,
    id: Seq<char>,
    request: Seq<char>,
    input: Data,
)
    requires
        taken(l, c, id, request, "sleep"@, input),
    ensures
        ({
            let s = l.sessions[id];
            let out = commanded(l, c, id, request, "sleep"@, input);
            &&& tells_of(out.notes[0], request, "accepted"@)
            &&& s.handle is Some || s.current_request is Some ==> out.notes.len() == 1
            &&& s.handle is None && s.state == "idle"@ && s.current_request is None && s.queue.len()
                == 0 && s.native_id is Some && s.native_path is Some && s.close_request is None
                ==> out.notes.len() == 3 && comes_to(out.notes[1], "sleeping"@) && tells_of(
                out.notes[2],
                request,
                "completed"@,
            )
            &&& s.handle is None && s.state == "sleeping"@ && s.current_request is None
                && s.queue.len() == 0 ==> out.notes.len() == 2 && tells_of(
                out.notes[1],
                request,
                "completed"@,
            )
            &&& out.next == NextView::Release || out.next == NextView::Nothing
            &&& out.next == NextView::Release ==> s.handle is Some && s.ready && s.state == "idle"@
                && s.current_request is None && (s.queue.len() == 0 || s.queue_paused)
        }),
{
    session_words();
}

/// A compaction or a rewind of a session that sleeps wakes it first, and is to be asked for again.
pub proof fn sleepers_wake_first(
    l: LocalView,
    c: Context,
    id: Seq<char>,
    request: Seq<char>,
    command: Seq<char>,
    input: Data,
)
    requires
        l.sessions.contains_key(id),
        !l.sessions[id].receipts.contains_key(request),
        l.journal.writable,
        !c.stopping,
        command == "compact"@ || command == "rewind"@,
        l.sessions[id].state == "sleeping"@,
    ensures
        ({
            let out = commanded(l, c, id, request, command, input);
            &&& out.reply is Err
            &&& out.next == NextView::Relaunch
            &&& out.notes.len() == 1
            &&& comes_to(out.notes[0], "resuming"@)
        }),
{
    session_words();
}

// Refusals.

/// A session that is not there is not found; one whose service stops, or that is rewinding, takes nothing
/// new; a command that there is not is refused.
pub proof fn some_requests_are_never_taken(
    l: LocalView,
    c: Context,
    id: Seq<char>,
    request: Seq<char>,
    command: Seq<char>,
    input: Data,
)
    ensures
        !l.sessions.contains_key(id) ==> commanded(l, c, id, request, command, input).reply == Err::<
            ReceiptView,
            ErrorView,
        >(ErrorView::NotFound),
        l.sessions.contains_key(id) && !l.sessions[id].receipts.contains_key(request) && c.stopping
            ==> commanded(l, c, id, request, command, input).reply is Err,
        l.sessions.contains_key(id) && !l.sessions[id].receipts.contains_key(request)
            && l.sessions[id].rewind_request is Some && command != "sleep"@ ==> commanded(
            l,
            c,
            id,
            request,
            command,
            input,
        ).reply is Err,
        l.sessions.contains_key(id) && !l.sessions[id].receipts.contains_key(request) && command
            != "prompt"@ && command != "interrupt"@ && command != "close"@ && command != "stop"@
            && command != "resume"@ && command != "edit"@ && command != "cancel"@ && command
            != "steer"@ && command != "compact"@ && command != "rewind"@ && command != "attach"@
            && command != "sleep"@ ==> commanded(l, c, id, request, command, input).reply is Err,
{
    session_words();
}

} // verus!
