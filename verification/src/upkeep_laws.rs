//! What holds of what sessions ask of their owner in secret, and of what is noted of the running service.
use crate::json::{Data, Number};
use crate::observability::metrics::{begins_at, points_read, range_name, told, windows, Range};
use crate::observability::system::{disk_data, first_bytes, named_bytes, Disk};
use crate::observability::{
    collected, exit_recorded, handed_on, recorded, signal_members, ObservabilityView, Signal,
};
use crate::runtime::ExitView;
use crate::secrets::dotenv::{encoded, line_ending};
use crate::secrets::{
    answer_refused, opened_note, parsed_from, request_refused, sensible, variable, Draft, PendingView, RequestView,
};
use crate::text::{byte_len, digit, number, words};
use vstd::prelude::*;

verus! {

proof fn upkeep_words()
    ensures
        "id"@.len() == 2 && "id"@[0] == 'i',
        "to"@.len() == 2 && "to"@[0] == 't',
        "1h"@.len() == 2 && "1h"@[0] == '1',
        "7d"@.len() == 2 && "7d"@[0] == '7',
        "api"@.len() == 3 && "api"@[0] == 'a',
        "24h"@.len() == 3 && "24h"@[0] == '2',
        "30d"@.len() == 3 && "30d"@[0] == '3',
        "path"@.len() == 4 && "path"@[0] == 'p',
        "name"@.len() == 4 && "name"@[0] == 'n',
        "open"@.len() == 4 && "open"@[0] == 'o',
        "kind"@.len() == 4 && "kind"@[0] == 'k',
        "from"@.len() == 4 && "from"@[0] == 'f',
        "state"@.len() == 5 && "state"@[1] == 't',
        "route"@.len() == 5 && "route"@[1] == 'o',
        "range"@.len() == 5 && "range"@[1] == 'a',
        "fields"@.len() == 6 && "fields"@[3] == 'l',
        "run_id"@.len() == 6 && "run_id"@[3] == '_',
        "method"@.len() == 6 && "method"@[3] == 'h',
        "status"@.len() == 6 && "status"@[3] == 't',
        "reason"@.len() == 6 && "reason"@[3] == 's',
        "stderr"@.len() == 6 && "stderr"@[3] == 'e',
        "points"@.len() == 6 && "points"@[3] == 'n',
        "purpose"@.len() == 7 && "purpose"@[0] == 'p',
        "success"@.len() == 7 && "success"@[0] == 's',
        "records"@.len() == 7 && "records"@[0] == 'r',
        "dropped"@.len() == 7 && "dropped"@[0] == 'd',
        "version"@.len() == 7 && "version"@[0] == 'v',
        "sequence"@.len() == 8 && "sequence"@[0] == 's',
        "expected"@.len() == 8 && "expected"@[0] == 'e',
        "bucketMs"@.len() == 8 && "bucketMs"@[0] == 'b',
        "exit_code"@.len() == 9 && "exit_code"@[0] == 'e',
        "operation"@.len() == 9 && "operation"@[0] == 'o',
        "resources"@.len() == 9 && "resources"@[0] == 'r',
        "--purpose"@.len() == 9 && "--purpose"@[0] == '-',
        "session_id"@.len() == 10 && "session_id"@[0] == 's',
        "agent_exit"@.len() == 10 && "agent_exit"@[0] == 'a',
        "used_bytes"@.len() == 10 && "used_bytes"@[0] == 'u',
        "--describe"@.len() == 10 && "--describe"@[0] == '-',
        "description"@.len() == 11 && "description"@[1] == 'e',
        "duration_ms"@.len() == 11 && "duration_ms"@[1] == 'u',
        "agent_start"@.len() == 11 && "agent_start"@[1] == 'g',
        "diagnostics"@.len() == 11 && "diagnostics"@[1] == 'i',
        "total_bytes"@.len() == 11 && "total_bytes"@[1] == 'o',
        "--write-env"@.len() == 11 && "--write-env"@[1] == '-',
        "timestamp_ms"@.len() == 12 && "timestamp_ms"@[0] == 't',
        "stderr_bytes"@.len() == 12 && "stderr_bytes"@[0] == 's',
        "history_fault"@.len() == 13,
        "secret_request"@.len() == 14 && "secret_request"@[0] == 's',
        "history_upload"@.len() == 14 && "history_upload"@[0] == 'h',
        "pending_records"@.len() == 15 && "pending_records"@[0] == 'p',
        "upload_failures"@.len() == 15 && "upload_failures"@[0] == 'u',
        "stderr_complete"@.len() == 15 && "stderr_complete"@[0] == 's',
        "available_bytes"@.len() == 15 && "available_bytes"@[0] == 'a',
        "local_write_failures"@.len() == 20,
{
    reveal_strlit("id");
    reveal_strlit("to");
    reveal_strlit("1h");
    reveal_strlit("7d");
    reveal_strlit("api");
    reveal_strlit("24h");
    reveal_strlit("30d");
    reveal_strlit("path");
    reveal_strlit("name");
    reveal_strlit("open");
    reveal_strlit("kind");
    reveal_strlit("from");
    reveal_strlit("state");
    reveal_strlit("route");
    reveal_strlit("range");
    reveal_strlit("fields");
    reveal_strlit("run_id");
    reveal_strlit("method");
    reveal_strlit("status");
    reveal_strlit("reason");
    reveal_strlit("stderr");
    reveal_strlit("points");
    reveal_strlit("purpose");
    reveal_strlit("success");
    reveal_strlit("records");
    reveal_strlit("dropped");
    reveal_strlit("version");
    reveal_strlit("sequence");
    reveal_strlit("expected");
    reveal_strlit("bucketMs");
    reveal_strlit("exit_code");
    reveal_strlit("operation");
    reveal_strlit("resources");
    reveal_strlit("--purpose");
    reveal_strlit("session_id");
    reveal_strlit("agent_exit");
    reveal_strlit("used_bytes");
    reveal_strlit("--describe");
    reveal_strlit("description");
    reveal_strlit("duration_ms");
    reveal_strlit("agent_start");
    reveal_strlit("diagnostics");
    reveal_strlit("total_bytes");
    reveal_strlit("--write-env");
    reveal_strlit("timestamp_ms");
    reveal_strlit("stderr_bytes");
    reveal_strlit("history_fault");
    reveal_strlit("secret_request");
    reveal_strlit("history_upload");
    reveal_strlit("pending_records");
    reveal_strlit("upload_failures");
    reveal_strlit("stderr_complete");
    reveal_strlit("available_bytes");
    reveal_strlit("local_write_failures");
    assert("id"@.len() == 2 && "id"@[0] == 'i');
    assert("to"@.len() == 2 && "to"@[0] == 't');
    assert("1h"@.len() == 2 && "1h"@[0] == '1');
    assert("7d"@.len() == 2 && "7d"@[0] == '7');
    assert("api"@.len() == 3 && "api"@[0] == 'a');
    assert("24h"@.len() == 3 && "24h"@[0] == '2');
    assert("30d"@.len() == 3 && "30d"@[0] == '3');
    assert("path"@.len() == 4 && "path"@[0] == 'p');
    assert("name"@.len() == 4 && "name"@[0] == 'n');
    assert("open"@.len() == 4 && "open"@[0] == 'o');
    assert("kind"@.len() == 4 && "kind"@[0] == 'k');
    assert("from"@.len() == 4 && "from"@[0] == 'f');
    assert("state"@.len() == 5 && "state"@[1] == 't');
    assert("route"@.len() == 5 && "route"@[1] == 'o');
    assert("range"@.len() == 5 && "range"@[1] == 'a');
    assert("fields"@.len() == 6 && "fields"@[3] == 'l');
    assert("run_id"@.len() == 6 && "run_id"@[3] == '_');
    assert("method"@.len() == 6 && "method"@[3] == 'h');
    assert("status"@.len() == 6 && "status"@[3] == 't');
    assert("reason"@.len() == 6 && "reason"@[3] == 's');
    assert("stderr"@.len() == 6 && "stderr"@[3] == 'e');
    assert("points"@.len() == 6 && "points"@[3] == 'n');
    assert("purpose"@.len() == 7 && "purpose"@[0] == 'p');
    assert("success"@.len() == 7 && "success"@[0] == 's');
    assert("records"@.len() == 7 && "records"@[0] == 'r');
    assert("dropped"@.len() == 7 && "dropped"@[0] == 'd');
    assert("version"@.len() == 7 && "version"@[0] == 'v');
    assert("sequence"@.len() == 8 && "sequence"@[0] == 's');
    assert("expected"@.len() == 8 && "expected"@[0] == 'e');
    assert("bucketMs"@.len() == 8 && "bucketMs"@[0] == 'b');
    assert("exit_code"@.len() == 9 && "exit_code"@[0] == 'e');
    assert("operation"@.len() == 9 && "operation"@[0] == 'o');
    assert("resources"@.len() == 9 && "resources"@[0] == 'r');
    assert("--purpose"@.len() == 9 && "--purpose"@[0] == '-');
    assert("session_id"@.len() == 10 && "session_id"@[0] == 's');
    assert("agent_exit"@.len() == 10 && "agent_exit"@[0] == 'a');
    assert("used_bytes"@.len() == 10 && "used_bytes"@[0] == 'u');
    assert("--describe"@.len() == 10 && "--describe"@[0] == '-');
    assert("description"@.len() == 11 && "description"@[1] == 'e');
    assert("duration_ms"@.len() == 11 && "duration_ms"@[1] == 'u');
    assert("agent_start"@.len() == 11 && "agent_start"@[1] == 'g');
    assert("diagnostics"@.len() == 11 && "diagnostics"@[1] == 'i');
    assert("total_bytes"@.len() == 11 && "total_bytes"@[1] == 'o');
    assert("--write-env"@.len() == 11 && "--write-env"@[1] == '-');
    assert("timestamp_ms"@.len() == 12 && "timestamp_ms"@[0] == 't');
    assert("stderr_bytes"@.len() == 12 && "stderr_bytes"@[0] == 's');
    assert("history_fault"@.len() == 13);
    assert("secret_request"@.len() == 14 && "secret_request"@[0] == 's');
    assert("history_upload"@.len() == 14 && "history_upload"@[0] == 'h');
    assert("pending_records"@.len() == 15 && "pending_records"@[0] == 'p');
    assert("upload_failures"@.len() == 15 && "upload_failures"@[0] == 'u');
    assert("stderr_complete"@.len() == 15 && "stderr_complete"@[0] == 's');
    assert("available_bytes"@.len() == 15 && "available_bytes"@[0] == 'a');
    assert("local_write_failures"@.len() == 20);
}
// Secrets.

/// What is asked for is told: the path, the purpose, and each variable with what is said of it, in order.
pub proof fn requests_are_told_whole(id: Seq<char>, r: RequestView, i: int)
    requires
        0 <= i < r.names.len(),
    ensures
        ({
            let n = opened_note(id, r);
            &&& n.kind == "secret_request"@
            &&& n.data.field("id"@) == Data::Text(id)
            &&& n.data.field("state"@) == Data::Text("open"@)
            &&& n.data.field("path"@) == Data::Text(r.path)
            &&& r.purpose is Some ==> n.data.field("purpose"@) == Data::Text(r.purpose->0)
            &&& r.purpose is None ==> n.data.field("purpose"@) is Null
            &&& n.data.field("fields"@) matches Data::Array(fields) && fields.len() == r.names.len()
                && fields[i].field("name"@) == Data::Text(r.names[i]) && (r.descriptions.contains_key(
                r.names[i],
            ) ==> fields[i].field("description"@) == Data::Text(r.descriptions[r.names[i]]))
        }),
{
    upkeep_words();
}

/// A request that is taken asks for some variables, not too many, each once, that can be ones; and describes
/// none but those.
pub proof fn requests_are_checked(r: RequestView, i: int, j: int)
    requires
        request_refused(r) is None,
        0 <= i < j < r.names.len(),
    ensures
        r.names.len() <= 50,
        r.names[i] != r.names[j],
        !digit(r.names[i][0]),
        r.names[i].len() > 0,
        byte_len(r.names[i]) <= 128,
        byte_len(r.path) <= 4096,
        !r.path.contains('\0'),
        forall|n: Seq<char>| #[trigger] r.descriptions.contains_key(n) ==> r.names.contains(n),
{
    assert(variable(r.names[i]));
    assert(sensible(r.path));
}

/// A request without variables is refused, and so is one that names a variable twice.
pub proof fn odd_requests_are_refused(r: RequestView, i: int, j: int)
    requires
        0 <= i < j < r.names.len(),
        r.names[i] == r.names[j],
    ensures
        request_refused(r) is Some,
        request_refused(RequestView { names: Seq::empty(), ..r }) is Some,
{
}

/// An answer belongs to the request of the session that asked, and gives each variable one line; none at all
/// declines.
pub proof fn answers_belong_to_their_request(
    pending: Map<Seq<char>, PendingView>,
    session: Seq<char>,
    id: Seq<char>,
    given: Map<Seq<char>, Seq<char>>,
    i: int,
)
    requires
        pending.contains_key(id),
        0 <= i < pending[id].names.len(),
    ensures
        pending[id].session == session ==> answer_refused(pending, session, id, None) is None,
        pending[id].session != session ==> (answer_refused(pending, session, id, Some(given)) matches
            Some(f) && f.status == 404),
        answer_refused(pending, session, id, Some(given)) is None ==> given.contains_key(
            pending[id].names[i],
        ) && given[pending[id].names[i]].len() > 0 && !given[pending[id].names[i]].contains('\n')
            && byte_len(given[pending[id].names[i]]) <= 16384,
        pending[id].session == session && !given.contains_key(pending[id].names[i]) ==> (answer_refused(
            pending,
            session,
            id,
            Some(given),
        ) matches Some(f) && f.status == 409),
{
}

/// What is written on the command line is taken in order: variables, what they are for, and where they go.
pub proof fn words_are_read_in_order(args: Seq<Seq<char>>, i: int, d: Draft, e: Draft)
    requires
        0 <= i < args.len(),
        parsed_from(args, i, d) == Ok::<Draft, crate::fault::FaultView>(e),
    ensures
        args[i] == "--purpose"@ ==> parsed_from(args, i + 2, Draft {
            purpose: crate::secrets::value_at(args, i + 1),
            ..d
        }) == Ok::<Draft, crate::fault::FaultView>(e) && crate::secrets::value_at(args, i + 1) is Some,
        args[i] == "--write-env"@ ==> parsed_from(args, i + 2, Draft {
            path: crate::secrets::value_at(args, i + 1),
            ..d
        }) == Ok::<Draft, crate::fault::FaultView>(e) && crate::secrets::value_at(args, i + 1) is Some,
        args[i].len() > 0 && args[i][0] != '-' ==> parsed_from(args, i + 1, Draft {
            names: d.names.push(args[i]),
            ..d
        }) == Ok::<Draft, crate::fault::FaultView>(e),
{
    upkeep_words();
    reveal_strlit("--");
    reveal_strlit("--purpose");
    reveal_strlit("--write-env");
    reveal_strlit("--describe");
}

/// A value is written so that it can be read: in quotes that it does not hold, else bare.
pub proof fn values_are_quoted(value: Seq<char>)
    ensures
        !value.contains('\'') ==> encoded(value) == Some(seq!['\''] + value + seq!['\'']),
        encoded(value) matches Some(text) ==> (value.contains('\'') ==> text == value || text == seq!['"']
            + value + seq!['"'] && !value.contains('"')),
        value.contains('\'') && value.contains('"') && value.contains('#') ==> encoded(value) is None,
{
    reveal_strlit("'");
    reveal_strlit("\"");
    assert("'"@ =~= seq!['\'']);
    assert("\""@ =~= seq!['"']);
}

/// A file that is changed keeps its line endings, and counts each variable as added, changed or kept.
pub proof fn endings_stay(content: Seq<char>)
    ensures
        !content.contains('\r') ==> line_ending(content) == seq!['\n'],
        content.contains('\r') ==> line_ending(content) == seq!['\n'] || line_ending(content)
            == seq!['\r', '\n'],
{
    reveal_strlit("\r\n");
    reveal_strlit("\n");
    assert("\n"@ =~= seq!['\n']);
    assert("\r\n"@ =~= seq!['\r', '\n']);
    if line_ending(content) == "\r\n"@ && !content.contains('\r') {
        let i = choose|i: int| crate::text::occurs_at(content, "\r\n"@, i);
        assert(content.subrange(i, i + 2)[0] == content[i]);
    }
}

// Records of the service.

/// A record tells its run, its number and its time beside what happened, and the numbers grow by one.
pub proof fn records_are_numbered(o: ObservabilityView, now: u64, method: String, route: String, status: u16, ms: u64)
    requires
        !o.closed,
        o.queue.len() < 1024,
        o.sequence < u64::MAX,
    ensures
        ({
            let n = recorded(o, now, Signal::Api { method, route, status, duration_ms: ms });
            let last = n.queue.last();
            &&& n.sequence == o.sequence + 1
            &&& n.queue.len() == o.queue.len() + 1
            &&& n.queue.take(o.queue.len() as int) == o.queue
            &&& n.dropped == o.dropped
            &&& last.field("run_id"@) == Data::Text(o.run_id)
            &&& last.field("sequence"@) == Data::Number(Number::Unsigned((o.sequence + 1) as u64))
            &&& last.field("timestamp_ms"@) == Data::Number(Number::Unsigned(now))
            &&& last.field("kind"@) == Data::Text("api"@)
            &&& last.field("method"@) == Data::Text(method@)
            &&& last.field("route"@) == Data::Text(route@)
            &&& last.field("status"@) == Data::Number(Number::Unsigned(status as u64))
            &&& last.field("duration_ms"@) == Data::Number(Number::Unsigned(ms))
        }),
{
    upkeep_words();
}

/// Each kind of happening is told by its name and what belongs to it.
pub proof fn happenings_are_told(
    session: String,
    success: bool,
    ms: u64,
    records: u64,
    waiting: u64,
    operation: String,
    dropped: u64,
    writes: u64,
    uploads: u64,
)
    ensures
        ({
            let m = Data::Object(
                signal_members(Signal::AgentStart { session_id: session, success, duration_ms: ms }),
            );
            &&& m.field("kind"@) == Data::Text("agent_start"@)
            &&& m.field("session_id"@) == Data::Text(session@)
            &&& m.field("success"@) == Data::Bool(success)
            &&& m.field("duration_ms"@) == Data::Number(Number::Unsigned(ms))
        }),
        ({
            let m = Data::Object(
                signal_members(
                    Signal::HistoryUpload {
                        records,
                        pending_records: waiting,
                        success,
                        duration_ms: ms,
                    },
                ),
            );
            &&& m.field("kind"@) == Data::Text("history_upload"@)
            &&& m.field("records"@) == Data::Number(Number::Unsigned(records))
            &&& m.field("pending_records"@) == Data::Number(Number::Unsigned(waiting))
            &&& m.field("success"@) == Data::Bool(success)
        }),
        ({
            let m = Data::Object(signal_members(Signal::HistoryFault { operation }));
            &&& m.field("kind"@) == Data::Text("history_fault"@)
            &&& m.field("operation"@) == Data::Text(operation@)
        }),
        ({
            let m = Data::Object(
                signal_members(
                    Signal::Diagnostics {
                        dropped,
                        local_write_failures: writes,
                        upload_failures: uploads,
                    },
                ),
            );
            &&& m.field("kind"@) == Data::Text("diagnostics"@)
            &&& m.field("dropped"@) == Data::Number(Number::Unsigned(dropped))
            &&& m.field("local_write_failures"@) == Data::Number(Number::Unsigned(writes))
            &&& m.field("upload_failures"@) == Data::Number(Number::Unsigned(uploads))
        }),
{
    upkeep_words();
}

/// What is collected is what was queued, in order, and nothing of it stays; readings follow it, with what was
/// lost.
pub proof fn queues_are_collected(o: ObservabilityView, now: u64, readings: crate::json::Fields)
    requires
        o.sequence < u64::MAX - 1,
        now < u64::MAX - 10000,
    ensures
        ({
            let (n, batch) = collected(o, now, None);
            &&& n.queue.len() == 0 && batch == o.queue
            &&& n.sequence == o.sequence && n.sample_at == o.sample_at && n.pending == o.pending
        }),
        ({
            let (n, batch) = collected(o, now, Some(readings));
            &&& n.queue.len() == 0
            &&& batch.len() == o.queue.len() + 2
            &&& batch.take(o.queue.len() as int) == o.queue
            &&& n.sequence == o.sequence + 2
            &&& n.sample_at == now + 10000
            &&& batch[o.queue.len() as int].field("kind"@) == Data::Text("resources"@)
            &&& batch.last().field("kind"@) == Data::Text("diagnostics"@)
            &&& batch.last().field("dropped"@) == Data::Number(Number::Unsigned(o.dropped))
            &&& batch.last().field("upload_failures"@) == Data::Number(
                Number::Unsigned(o.upload_failures),
            )
        }),
{
    upkeep_words();
}

/// What is handed on waits behind what waits already; a failed write is counted.
pub proof fn batches_wait_in_order(o: ObservabilityView, batch: Seq<Data>)
    requires
        batch.len() > 0,
        o.pending.len() + batch.len() <= 1024,
        o.local_write_failures < u64::MAX,
    ensures
        handed_on(o, batch, true).pending == o.pending + batch,
        handed_on(o, batch, true).dropped == o.dropped,
        handed_on(o, batch, true).local_write_failures == o.local_write_failures,
        handed_on(o, batch, false).pending == o.pending + batch,
        handed_on(o, batch, false).local_write_failures == o.local_write_failures + 1,
{
}

/// What a harness wrote to its error output is kept with the record of its end, as far as there is room.
pub proof fn ends_of_harnesses_are_kept(
    o: ObservabilityView,
    now: u64,
    session: Option<String>,
    expected: bool,
    reason: String,
    details: ExitView,
)
    requires
        !o.closed,
        o.queue.len() < 1024,
        o.stderr.len() < 64,
        o.sequence < u64::MAX,
    ensures
        ({
            let signal = Signal::AgentExit { session_id: session, expected, reason, exit_code: details.code };
            let n = exit_recorded(o, now, signal, details);
            &&& n.queue.len() == o.queue.len() + 1 && n.stderr.len() == o.stderr.len() + 1
            &&& n.dropped == o.dropped
            &&& n.queue.last().field("kind"@) == Data::Text("agent_exit"@)
            &&& n.queue.last().field("expected"@) == Data::Bool(expected)
            &&& n.queue.last().field("reason"@) == Data::Text(reason@)
            &&& session is Some ==> n.queue.last().field("session_id"@) == Data::Text((session->0)@)
            &&& n.stderr.last().field("stderr_bytes"@) == Data::Number(
                Number::Unsigned(details.stderr_bytes),
            )
            &&& n.stderr.last().field("stderr_complete"@) == Data::Bool(details.stderr_complete)
        }),
{
    upkeep_words();
}

// Measures.

/// A range is as long as its name says, and has at most that many steps.
pub proof fn ranges_are_as_long_as_named(to: u64, points: Seq<Data>)
    ensures
        range_name(Range::Hour) == "1h"@ && windows(Range::Hour) == (
            (60 * 60 * 1000) as u64,
            (30 * 1000) as u64,
        ),
        range_name(Range::Day) == "24h"@ && windows(Range::Day) == (
            (24 * 60 * 60 * 1000) as u64,
            (5 * 60 * 1000) as u64,
        ),
        range_name(Range::Week) == "7d"@ && windows(Range::Week) == (
            (7 * 24 * 60 * 60 * 1000) as u64,
            (30 * 60 * 1000) as u64,
        ),
        range_name(Range::Month) == "30d"@ && windows(Range::Month) == (
            (30 * 24 * 60 * 60 * 1000) as u64,
            (3 * 60 * 60 * 1000) as u64,
        ),
        told(Range::Day, to, points).field("range"@) == Data::Text("24h"@),
        told(Range::Day, to, points).field("to"@) == Data::Number(Number::Unsigned(to)),
        told(Range::Day, to, points).field("from"@) == Data::Number(
            Number::Unsigned(begins_at(Range::Day, to)),
        ),
        told(Range::Day, to, points).field("bucketMs"@) == Data::Number(Number::Unsigned(300000)),
        told(Range::Day, to, points).field("points"@) == Data::Array(points),
{
    upkeep_words();
}

/// Rows are told in order, all of them.
pub proof fn rows_are_told_in_order(rows: Seq<Seq<char>>)
    requires
        rows.len() > 0,
        points_read(rows) is Ok,
    ensures
        points_read(rows)->Ok_0.len() == rows.len(),
        points_read(rows.drop_last()) is Ok,
        points_read(rows)->Ok_0.drop_last() == points_read(rows.drop_last())->Ok_0,
    decreases rows.len(),
{
    if rows.len() > 1 {
        rows_are_told_in_order(rows.drop_last());
    } else {
        reveal_with_fuel(points_read, 2);
    }
    assert(points_read(rows)->Ok_0.drop_last() =~= points_read(rows.drop_last())->Ok_0);
}

/// The first line that names a measure gives it, in units of a kilobyte.
pub proof fn measures_are_read(line: Seq<char>, rest: Seq<Seq<char>>, name: Seq<char>, n: nat)
    requires
        words(line).len() >= 2,
        words(line)[0] == name,
        number(words(line)[1], u64::MAX as nat) == Some(n),
        n * 1024 <= u64::MAX,
    ensures
        named_bytes(line, name) == Some(n * 1024),
        first_bytes(seq![line], name) == Some(n * 1024),
        first_bytes(seq![line] + rest, name) == Some(n * 1024),
    decreases rest.len(),
{
    assert(seq![line].drop_last() =~= Seq::empty());
    reveal_with_fuel(first_bytes, 2);
    let all = seq![line] + rest;
    if rest.len() > 0 {
        measures_are_read(line, rest.drop_last(), name, n);
        assert(all.drop_last() =~= seq![line] + rest.drop_last());
    } else {
        assert(all =~= seq![line]);
    }
}

/// A disk is told with what it has, what is used and what is left.
pub proof fn disks_are_told(d: Disk)
    ensures
        disk_data(Some(d)).field("total_bytes"@) == Data::Number(Number::Unsigned(d.total_bytes)),
        disk_data(Some(d)).field("used_bytes"@) == Data::Number(Number::Unsigned(d.used_bytes)),
        disk_data(Some(d)).field("available_bytes"@) == Data::Number(
            Number::Unsigned(d.available_bytes),
        ),
        disk_data(None) is Null,
{
    upkeep_words();
}

} // verus!
