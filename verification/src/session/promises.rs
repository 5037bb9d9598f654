//! What a client can rely on when it asks a session for something.
use super::command::{
    carried_out, commanded, retried, unwritable, Context, NextView, OutcomeView,
};
use super::local::LocalView;
use super::query::receipt_note;
use super::state::{
    flag_applied, fresh, identity_applied, native_applied, receipt_applied, receipt_recorded,
    record_applied, rewind_applied, start_applied, start_harness, state_applied, task_id, touched,
};
use super::{
    accepted, receipt_in, receipt_json, receipt_reads_back, ErrorView, ReceiptView, RecordView,
    SessionView,
};
use crate::json::{alike, values_are_alike, Data};
use vstd::prelude::*;

verus! {

/// A request that is repeated gets the same receipt, and leads to nothing more.
pub proof fn repeated_requests_change_nothing(
    l: LocalView,
    c: Context,
    id: Seq<char>,
    receipt: ReceiptView,
    input: Data,
)
    requires
        l.sessions.contains_key(id),
        l.sessions[id].receipts.contains_key(receipt.request_id),
        l.sessions[id].receipts[receipt.request_id] == receipt,
        alike(receipt.input, input),
    ensures
        commanded(l, c, id, receipt.request_id, receipt.command, input) == (OutcomeView {
            notes: Seq::empty(),
            next: NextView::Nothing,
            reply: Ok(receipt),
        }),
{
}

/// A request that came before with other content is refused, and leads to nothing.
pub proof fn other_content_is_refused(
    l: LocalView,
    c: Context,
    id: Seq<char>,
    request: Seq<char>,
    command: Seq<char>,
    input: Data,
)
    requires
        l.sessions.contains_key(id),
        l.sessions[id].receipts.contains_key(request),
        l.sessions[id].receipts[request].command != command
            || !alike(l.sessions[id].receipts[request].input, input),
    ensures
        commanded(l, c, id, request, command, input) == (OutcomeView {
            notes: Seq::empty(),
            next: NextView::Nothing,
            reply: Err(ErrorView::Conflict("request_id already has different content"@)),
        }),
{
}

/// A request that is refused records nothing and leads to nothing. Left out are the two requests that
/// wake a sleeping session and ask to be repeated.
pub proof fn refused_requests_record_nothing(
    l: LocalView,
    c: Context,
    id: Seq<char>,
    request: Seq<char>,
    command: Seq<char>,
    input: Data,
)
    requires
        commanded(l, c, id, request, command, input).reply is Err,
        command != "compact"@ && command != "rewind"@ || l.sessions[id].state != "sleeping"@,
    ensures
        commanded(l, c, id, request, command, input).notes.len() == 0,
        commanded(l, c, id, request, command, input).next == NextView::Nothing,
{
}

/// Where the journal takes no writes, a new request is refused.
pub proof fn nothing_is_taken_unrecorded(
    l: LocalView,
    c: Context,
    id: Seq<char>,
    request: Seq<char>,
    command: Seq<char>,
    input: Data,
)
    requires
        l.sessions.contains_key(id),
        !l.sessions[id].receipts.contains_key(request),
        !l.journal.writable,
    ensures
        commanded(l, c, id, request, command, input).reply == Err::<ReceiptView, ErrorView>(
            ErrorView::Storage(unwritable()),
        ),
{
}

/// A new request that is taken is recorded, and recorded first.
pub proof fn taken_requests_are_recorded_first(
    l: LocalView,
    c: Context,
    id: Seq<char>,
    request: Seq<char>,
    command: Seq<char>,
    input: Data,
)
    requires
        l.sessions.contains_key(id),
        !l.sessions[id].receipts.contains_key(request),
        commanded(l, c, id, request, command, input).reply is Ok,
    ensures
        ({
            let out = commanded(l, c, id, request, command, input);
            let receipt = out.reply->Ok_0;
            &&& out.notes.len() > 0
            &&& out.notes[0] == receipt_note(receipt)
            &&& receipt.request_id == request
            &&& receipt.command == command
            &&& receipt.state == "accepted"@
            &&& command != "sleep"@ ==> receipt.input == input
        }),
{
    let s = l.sessions[id];
    if command != "sleep"@ {
        let r = accepted(request, command, input);
        let (list, next) = carried_out(s, r);
        assert(list.len() > 0 && list[0] == receipt_note(r));
    }
}

/// Once the record of a request is taken in, the request is known: repeated, it gets its receipt; with
/// other content it is refused. Left out is a start for a harness that there is not.
pub proof fn recorded_requests_are_known(s: SessionView, r: RecordView, receipt: ReceiptView)
    requires
        r.kind == "receipt"@,
        r.data == receipt_json(receipt),
        receipt.command == "start"@ ==> start_harness(receipt.input, s.word) is Some,
    ensures
        retried(
            record_applied(s, r).0,
            receipt.request_id,
            receipt.command,
            receipt.input,
        ) == Some(Ok::<ReceiptView, ErrorView>(receipt)),
{
    receipt_reads_back(receipt);
    values_are_alike(receipt.input);
}

/// A record of a request changes no other request. Left out is the task that the start of a
/// child session brings with it.
pub proof fn other_requests_stay(s: SessionView, r: RecordView, receipt: ReceiptView, other: Seq<char>)
    requires
        r.kind == "receipt"@,
        r.data == receipt_json(receipt),
        receipt.command == "start"@ && fresh(s, receipt) && receipt.input.field(
            "parent_session"@,
        ) is Text ==> other != task_id(receipt.request_id),
        other != receipt.request_id,
    ensures
        record_applied(s, r).0.receipts.contains_key(other) == s.receipts.contains_key(other),
        s.receipts.contains_key(other) ==> record_applied(s, r).0.receipts[other]
            == s.receipts[other],
{
    receipt_reads_back(receipt);
}

/// Two states of a session hold the same process.
pub open spec fn same_process(a: SessionView, b: SessionView) -> bool {
    a.handle == b.handle && a.ready == b.ready && a.awake == b.awake && a.releasing == b.releasing
}

proof fn receipts_leave_the_process(s: SessionView, data: Data)
    ensures
        same_process(receipt_applied(s, data).0, s),
{
    match receipt_in(data) {
        Some(r) => {
            assert(same_process(receipt_recorded(s, r), s));
            let started = start_applied(s, r);
            assert(same_process(started, s));
            match start_harness(r.input, s.word) {
                Some(kind) => {
                    let t = SessionView { harness: kind, ..started };
                    assert(same_process(receipt_recorded(t, r), t));
                },
                None => {},
            }
        },
        None => {},
    }
}

proof fn identities_leave_the_process(s: SessionView, data: Data)
    ensures
        same_process(identity_applied(s, data).0, s),
{
}

proof fn history_leaves_the_process(s: SessionView, data: Data, native: Option<Seq<char>>)
    ensures
        same_process(native_applied(s, data, native).0, s),
{
}

proof fn states_leave_the_process(s: SessionView, data: Data)
    ensures
        same_process(state_applied(s, data), s),
{
}

proof fn rewinds_leave_the_process(s: SessionView, data: Data)
    ensures
        same_process(rewind_applied(s, data).0, s),
{
}

proof fn flags_leave_the_process(s: SessionView, kind: Seq<char>, data: Data)
    ensures
        match flag_applied(s, kind, data) {
            Some(next) => same_process(next, s),
            None => true,
        },
{
}

/// Records say nothing of the process that a session holds now.
#[verifier::spinoff_prover]
pub proof fn records_leave_the_process(s: SessionView, r: RecordView)
    ensures
        same_process(record_applied(s, r).0, s),
{
    let t = touched(s, r);
    assert(same_process(t, s));
    receipts_leave_the_process(t, r.data);
    identities_leave_the_process(t, r.data);
    history_leaves_the_process(t, r.data, r.native);
    states_leave_the_process(t, r.data);
    rewinds_leave_the_process(t, r.data);
    flags_leave_the_process(t, r.kind, r.data);
    record_goes_one_way(t, s, r);
}

proof fn record_goes_one_way(t: SessionView, s: SessionView, r: RecordView)
    requires
        t == touched(s, r),
    ensures
        ({
            let after = record_applied(s, r).0;
            ||| after == receipt_applied(t, r.data).0
            ||| after == identity_applied(t, r.data).0
            ||| after == native_applied(t, r.data, r.native).0
            ||| after == state_applied(t, r.data)
            ||| after == rewind_applied(t, r.data).0
            ||| after == t
            ||| Some(after) == flag_applied(t, r.kind, r.data)
            ||| exists|w: super::WorkspaceView| after == (SessionView { workspace: Some(w), ..t })
        }),
{
}

} // verus!
