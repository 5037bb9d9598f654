//! What holds of every session, whatever is recorded of it.
use super::prompt;
use super::state::{
    cursor_offset, ended, fresh, open_prompt, receipt_recorded, record_applied, rewound,
    start_applied, start_harness, task_id, touched,
};
use super::{receipt_in, receipt_json, receipt_reads_back, ReceiptView, RecordView, SessionView};
use crate::json::Data;
use crate::runtime::Kind;
use crate::text::{byte_len, without, without_holds};
use vstd::prelude::*;

verus! {

/// Each message is queued at most once, and only where its request is known.
pub open spec fn queue_sound(s: SessionView) -> bool {
    &&& s.queue.no_duplicates()
    &&& forall|id: Seq<char>| #[trigger] s.queue.contains(id) ==> s.receipts.contains_key(id)
}

/// A record that newly starts a child session whose task is queued already.
pub open spec fn repeats_a_task(s: SessionView, r: RecordView) -> bool {
    &&& r.kind == "receipt"@
    &&& receipt_in(r.data) matches Some(start) && start.command == "start"@ && fresh(s, start)
        && start.input.field("parent_session"@) is Text && s.queue.contains(
        task_id(start.request_id),
    )
}

proof fn push_is_sound(queue: Seq<Seq<char>>, known: Set<Seq<char>>, id: Seq<char>)
    requires
        queue.no_duplicates(),
        forall|x: Seq<char>| #[trigger] queue.contains(x) ==> known.contains(x),
        !queue.contains(id),
    ensures
        queue.push(id).no_duplicates(),
        forall|x: Seq<char>| #[trigger] queue.push(id).contains(x) ==> known.contains(x) || x == id,
{
    let next = queue.push(id);
    assert forall|i: int, j: int| 0 <= i < next.len() && 0 <= j < next.len() && i
        != j implies next[i] != next[j] by {
        if i < queue.len() {
            assert(queue.contains(queue[i]));
        }
        if j < queue.len() {
            assert(queue.contains(queue[j]));
        }
    }
    assert forall|x: Seq<char>| #[trigger] next.contains(x) implies known.contains(x) || x == id by {
        let i = choose|i: int| 0 <= i < next.len() && next[i] == x;
        if i < queue.len() {
            assert(queue.contains(queue[i]));
        }
    }
}

proof fn less_is_sound(queue: Seq<Seq<char>>, known: Set<Seq<char>>, id: Seq<char>)
    requires
        queue.no_duplicates(),
        forall|x: Seq<char>| #[trigger] queue.contains(x) ==> known.contains(x),
    ensures
        without(queue, id).no_duplicates(),
        forall|x: Seq<char>| #[trigger]
            without(queue, id).contains(x) ==> known.contains(x) && queue.contains(x),
{
    without_holds(queue, id);
    assert forall|x: Seq<char>| #[trigger] without(queue, id).contains(x) implies known.contains(x)
        && queue.contains(x) by {
        assert(queue.contains(x));
    }
}

proof fn receipt_keeps_the_queue_sound(s: SessionView, r: ReceiptView)
    requires
        queue_sound(s),
    ensures
        queue_sound(receipt_recorded(s, r)),
{
    let next = receipt_recorded(s, r);
    let known = s.receipts.dom();
    assert(forall|x: Seq<char>| #[trigger] s.queue.contains(x) ==> known.contains(x));
    if r.command == "prompt"@ {
        if fresh(s, r) {
            push_is_sound(s.queue, known, r.request_id);
            less_is_sound(s.queue.push(r.request_id), known.insert(r.request_id), r.request_id);
        } else {
            less_is_sound(s.queue, known, r.request_id);
        }
    } else if r.command == "cancel"@ {
        match r.input.field("target_request_id"@) {
            Data::Text(target) => less_is_sound(s.queue, known, target),
            _ => {},
        }
    }
    assert forall|id: Seq<char>| #[trigger] next.queue.contains(id) implies next.receipts.contains_key(
        id,
    ) by {
        assert(known.contains(id) || id == r.request_id);
    }
}

/// Each message is queued at most once: every record keeps it so. Left out is a child session that
/// is newly started and whose task is queued already.
#[verifier::rlimit(60)]
#[verifier::spinoff_prover]
pub proof fn queue_stays_sound(s: SessionView, r: RecordView)
    requires
        queue_sound(s),
        !repeats_a_task(s, r),
    ensures
        queue_sound(record_applied(s, r).0),
{
    let t = touched(s, r);
    assert(queue_sound(t));
    let known = t.receipts.dom();
    assert(forall|x: Seq<char>| #[trigger] t.queue.contains(x) ==> known.contains(x));
    if r.kind == "receipt"@ {
        match receipt_in(r.data) {
            Some(receipt) => {
                if receipt.command == "start"@ {
                    let started = start_applied(t, receipt);
                    if fresh(t, receipt) && receipt.input.field("parent_session"@) is Text {
                        push_is_sound(t.queue, known, task_id(receipt.request_id));
                    }
                    assert(queue_sound(started)) by {
                        assert forall|id: Seq<char>| #[trigger]
                            started.queue.contains(id) implies started.receipts.contains_key(
                            id,
                        ) by {
                            assert(known.contains(id) || id == task_id(receipt.request_id));
                        }
                    }
                    match start_harness(receipt.input, t.word) {
                        Some(kind) => receipt_keeps_the_queue_sound(
                            SessionView { harness: kind, ..started },
                            receipt,
                        ),
                        None => {},
                    }
                } else {
                    receipt_keeps_the_queue_sound(t, receipt);
                }
            },
            None => {},
        }
    } else if r.kind == "state"@ {
        match r.data.field("request_id"@) {
            Data::Text(request) => less_is_sound(t.queue, known, request),
            _ => {},
        }
    } else if r.kind == "rewind"@ {
        let back = rewound(t, r.data);
        assert(back.receipts.dom() =~= known);
        match prompt::present(r.data, "replacement"@) {
            Some(replacement) => match receipt_in(replacement) {
                Some(receipt) => if !back.receipts.contains_key(receipt.request_id) {
                    push_is_sound(t.queue, known, receipt.request_id);
                },
                None => {},
            },
            None => {},
        }
    }
}

/// Every queued message is a request that is known.
pub open spec fn queue_known(s: SessionView) -> bool {
    forall|id: Seq<char>| #[trigger] s.queue.contains(id) ==> s.receipts.contains_key(id)
}

proof fn push_is_known(queue: Seq<Seq<char>>, id: Seq<char>)
    ensures
        forall|x: Seq<char>| #[trigger] queue.push(id).contains(x) ==> queue.contains(x) || x == id,
{
    assert forall|x: Seq<char>| #[trigger] queue.push(id).contains(x) implies queue.contains(x) || x
        == id by {
        let i = choose|i: int| 0 <= i < queue.push(id).len() && queue.push(id)[i] == x;
        if i < queue.len() {
            assert(queue[i] == x);
        }
    }
}

proof fn less_is_known(queue: Seq<Seq<char>>, id: Seq<char>)
    ensures
        forall|x: Seq<char>| #[trigger] without(queue, id).contains(x) ==> queue.contains(x),
{
    without_holds(queue, id);
}

/// Every queued message is a request that is known: every record keeps it so.
pub proof fn queue_stays_known(s: SessionView, r: RecordView)
    requires
        queue_known(s),
    ensures
        queue_known(record_applied(s, r).0),
{
    let t = touched(s, r);
    if r.kind == "receipt"@ {
        match receipt_in(r.data) {
            Some(receipt) => {
                push_is_known(t.queue, receipt.request_id);
                less_is_known(t.queue, receipt.request_id);
                less_is_known(t.queue.push(receipt.request_id), receipt.request_id);
                if receipt.command == "start"@ {
                    push_is_known(t.queue, task_id(receipt.request_id));
                    command_words();
                }
                match receipt.input.field("target_request_id"@) {
                    Data::Text(target) => less_is_known(t.queue, target),
                    _ => {},
                }
            },
            None => {},
        }
    } else if r.kind == "state"@ {
        match r.data.field("request_id"@) {
            Data::Text(request) => less_is_known(t.queue, request),
            _ => {},
        }
    } else if r.kind == "rewind"@ {
        let back = rewound(t, r.data);
        match prompt::present(r.data, "replacement"@) {
            Some(replacement) => match receipt_in(replacement) {
                Some(receipt) => push_is_known(back.queue, receipt.request_id),
                None => {},
            },
            None => {},
        }
    }
}

/// A message that is accepted for the first time is queued last.
pub proof fn accepted_prompts_are_queued(s: SessionView, r: RecordView, prompt: ReceiptView)
    requires
        r.kind == "receipt"@,
        r.data == receipt_json(prompt),
        prompt.command == "prompt"@,
        prompt.state == "accepted"@,
        !s.receipts.contains_key(prompt.request_id),
    ensures
        record_applied(s, r).1 is None,
        record_applied(s, r).0.queue == s.queue.push(prompt.request_id),
        record_applied(s, r).0.receipts.contains_key(prompt.request_id),
        record_applied(s, r).0.receipts[prompt.request_id] == prompt,
{
    receipt_reads_back(prompt);
    command_words();
}

/// A message whose acceptance is recorded again is not queued again.
pub proof fn known_prompts_are_not_queued_again(s: SessionView, r: RecordView, prompt: ReceiptView)
    requires
        r.kind == "receipt"@,
        r.data == receipt_json(prompt),
        prompt.command == "prompt"@,
        prompt.state == "accepted"@,
        s.receipts.contains_key(prompt.request_id),
    ensures
        record_applied(s, r).0.queue == s.queue,
{
    receipt_reads_back(prompt);
    command_words();
}

/// A message that is dispatched leaves the queue; the others keep their places.
pub proof fn dispatched_prompts_leave_the_queue(s: SessionView, r: RecordView, request: Seq<char>)
    requires
        r.kind == "state"@,
        r.data.field("state"@) == Data::Text("starting_turn"@),
        r.data.field("request_id"@) == Data::Text(request),
    ensures
        record_applied(s, r).0.queue == without(s.queue, request),
        !record_applied(s, r).0.queue.contains(request),
        record_applied(s, r).0.current_request == Some(request),
{
    kind_words();
    without_holds(s.queue, request);
}

/// A message that is cancelled is neither queued nor sent.
pub proof fn cancelled_prompts_leave_the_queue(
    s: SessionView,
    r: RecordView,
    cancel: ReceiptView,
    target: Seq<char>,
)
    requires
        r.kind == "receipt"@,
        r.data == receipt_json(cancel),
        cancel.command == "cancel"@,
        cancel.state == "accepted"@ || cancel.state == "completed"@,
        cancel.input.field("target_request_id"@) == Data::Text(target),
    ensures
        !record_applied(s, r).0.queue.contains(target),
        s.prompts.contains_key(target) ==> record_applied(s, r).0.prompts[target].cancelled,
{
    receipt_reads_back(cancel);
    command_words();
    without_holds(s.queue, target);
}

/// A message that has ended, in whatever way, is not queued.
pub proof fn ended_prompts_leave_the_queue(s: SessionView, r: RecordView, prompt: ReceiptView)
    requires
        r.kind == "receipt"@,
        r.data == receipt_json(prompt),
        prompt.command == "prompt"@,
        ended(prompt.state),
    ensures
        !record_applied(s, r).0.queue.contains(prompt.request_id),
        record_applied(s, r).0.last_prompt_state == Some(prompt.state),
{
    receipt_reads_back(prompt);
    command_words();
    state_words();
    without_holds(s.queue, prompt.request_id);
}

/// Native history of a harness that keeps a file of lines is captured without gaps: a record that
/// is taken in begins where the last one ended.
pub proof fn native_history_has_no_gaps(s: SessionView, r: RecordView)
    requires
        r.kind == "native_record"@,
        s.harness == Kind::Codex || s.harness == Kind::Claude,
        record_applied(s, r).1 is None,
    ensures
        r.native is Some,
        r.data.field("offset"@).as_u64() == Some(cursor_offset(s.native_cursor)),
        record_applied(s, r).0.native_offset == cursor_offset(s.native_cursor) + byte_len(
            r.native->0,
        ),
        cursor_offset(record_applied(s, r).0.native_cursor) == record_applied(s, r).0.native_offset,
{
    kind_words();
}

/// The identity of a native conversation does not change unless it was replaced.
pub proof fn native_identity_is_kept(s: SessionView, r: RecordView)
    requires
        r.kind == "native_identity"@,
        s.native_id is Some,
        !r.data.field("replaced"@).is_true(),
    ensures
        record_applied(s, r).0.native_id == s.native_id,
        record_applied(s, r).1 is None <==> r.data.field("id"@) == Data::Text(s.native_id->0),
{
    kind_words();
}

proof fn kind_words()
    ensures
        "receipt"@ != "state"@,
        "receipt"@ != "native_identity"@,
        "receipt"@ != "native_record"@,
        "native_identity"@ != "state"@,
        "native_record"@ != "state"@,
        "native_record"@ != "native_identity"@,
{
    reveal_strlit("receipt");
    reveal_strlit("state");
    reveal_strlit("native_identity");
    reveal_strlit("native_record");
    assert("receipt"@.len() == 7 && "state"@.len() == 5 && "native_identity"@.len() == 15
        && "native_record"@.len() == 13);
}

proof fn command_words()
    ensures
        "prompt"@ != "start"@,
        "prompt"@ != "cancel"@,
        "prompt"@ != "edit"@,
        "cancel"@ != "start"@,
        "cancel"@ != "edit"@,
{
    reveal_strlit("prompt");
    reveal_strlit("start");
    reveal_strlit("cancel");
    reveal_strlit("edit");
    assert("prompt"@.len() == 6 && "start"@.len() == 5 && "cancel"@.len() == 6 && "edit"@.len()
        == 4);
    assert("prompt"@[0] == 'p' && "cancel"@[0] == 'c');
}

proof fn state_words()
    ensures
        forall|state: Seq<char>| #[trigger] ended(state) ==> !open_prompt(state),
{
    reveal_strlit("accepted");
    reveal_strlit("running");
    reveal_strlit("delivered");
    reveal_strlit("completed");
    reveal_strlit("interrupted");
    reveal_strlit("failed");
    reveal_strlit("unknown");
    reveal_strlit("unknown_after_restart");
    assert("accepted"@.len() == 8 && "running"@.len() == 7 && "delivered"@.len() == 9
        && "completed"@.len() == 9 && "interrupted"@.len() == 11 && "failed"@.len() == 6
        && "unknown"@.len() == 7 && "unknown_after_restart"@.len() == 21);
    assert("running"@[0] == 'r' && "unknown"@[0] == 'u');
    assert("delivered"@[0] == 'd' && "completed"@[0] == 'c');
}

} // verus!
