//! Diagnostics of the service: records that never say what was asked or answered, kept on the machine
//! and in the database, and never in the way of the work.
use crate::json::{object, opt_int, opt_text, uint, values, Data, Fields, Json};
use crate::runtime::{ExitDetails, ExitView};
use crate::text::{concat3, decimal, decimal_of, lossy, opt, opt_slice, text_lossy};
use vstd::prelude::*;

pub mod metrics;
pub mod system;

verus! {

/// The records that wait at most, on their way to the disk and again to the database.
pub const CAPACITY: usize = 1024;

/// The private records that wait at most on their way to the disk.
pub const STDERR_CAPACITY: usize = 64;

/// The bytes of the file of private records, before it is set aside.
pub const STDERR_FILE_BYTES: u64 = 1048576;

/// The bytes of the file of diagnostics, before it is set aside.
pub const LOCAL_BYTES: u64 = 8388608;

/// The time between two samples of the machine, and between two clearings of old records.
pub const SAMPLE_MS: u64 = 10_000;

pub const PRUNE_MS: u64 = 3_600_000;

/// Something that happened.
#[derive(Debug)]
#[allow(inconsistent_fields)]
pub enum Signal {
    Api { method: String, route: String, status: u16, duration_ms: u64 },
    AgentStart { session_id: String, success: bool, duration_ms: u64 },
    AgentExit {
        session_id: Option<String>,
        expected: bool,
        reason: String,
        exit_code: Option<i32>,
    },
    HistoryUpload { records: u64, pending_records: u64, success: bool, duration_ms: u64 },
    HistoryFault { operation: String },
    Resources { readings: Fields },
    Diagnostics { dropped: u64, local_write_failures: u64, upload_failures: u64 },
}

/// What a record says of something that happened.
pub open spec fn signal_members(signal: Signal) -> Map<Seq<char>, Data> {
    match signal {
        Signal::Api { method, route, status, duration_ms } => map![
            "kind"@ => Data::Text("api"@),
            "method"@ => Data::Text(method@),
            "route"@ => Data::Text(route@),
            "status"@ => uint(status as u64),
            "duration_ms"@ => uint(duration_ms)
        ],
        Signal::AgentStart { session_id, success, duration_ms } => map![
            "kind"@ => Data::Text("agent_start"@),
            "session_id"@ => Data::Text(session_id@),
            "success"@ => Data::Bool(success),
            "duration_ms"@ => uint(duration_ms)
        ],
        Signal::AgentExit { session_id, expected, reason, exit_code } => map![
            "kind"@ => Data::Text("agent_exit"@),
            "session_id"@ => opt_text(opt(session_id)),
            "expected"@ => Data::Bool(expected),
            "reason"@ => Data::Text(reason@),
            "exit_code"@ => opt_int(exit_code)
        ],
        Signal::HistoryUpload { records, pending_records, success, duration_ms } => map![
            "kind"@ => Data::Text("history_upload"@),
            "records"@ => uint(records),
            "pending_records"@ => uint(pending_records),
            "success"@ => Data::Bool(success),
            "duration_ms"@ => uint(duration_ms)
        ],
        Signal::HistoryFault { operation } => map![
            "kind"@ => Data::Text("history_fault"@),
            "operation"@ => Data::Text(operation@)
        ],
        Signal::Resources { readings } => readings@.insert("kind"@, Data::Text("resources"@)),
        Signal::Diagnostics { dropped, local_write_failures, upload_failures } => map![
            "kind"@ => Data::Text("diagnostics"@),
            "dropped"@ => uint(dropped),
            "local_write_failures"@ => uint(local_write_failures),
            "upload_failures"@ => uint(upload_failures)
        ],
    }
}

impl Signal {
    fn fields(self) -> (r: Fields)
        ensures
            r@ == signal_members(self),
    {
        match self {
            Signal::Api { method, route, status, duration_ms } => object().with_text(
                "kind",
                "api",
            ).with_text("method", method.as_str()).with_text("route", route.as_str()).with(
                "status",
                Json::uint(status as u64),
            ).with("duration_ms", Json::uint(duration_ms)),
            Signal::AgentStart { session_id, success, duration_ms } => object().with_text(
                "kind",
                "agent_start",
            ).with_text("session_id", session_id.as_str()).with(
                "success",
                Json::Bool(success),
            ).with("duration_ms", Json::uint(duration_ms)),
            Signal::AgentExit { session_id, expected, reason, exit_code } => object().with_text(
                "kind",
                "agent_exit",
            ).with("session_id", Json::opt_text(opt_slice(&session_id))).with(
                "expected",
                Json::Bool(expected),
            ).with_text("reason", reason.as_str()).with("exit_code", Json::opt_int(exit_code)),
            Signal::HistoryUpload { records, pending_records, success, duration_ms } => object(

            ).with_text("kind", "history_upload").with("records", Json::uint(records)).with(
                "pending_records",
                Json::uint(pending_records),
            ).with("success", Json::Bool(success)).with("duration_ms", Json::uint(duration_ms)),
            Signal::HistoryFault { operation } => object().with_text(
                "kind",
                "history_fault",
            ).with_text("operation", operation.as_str()),
            Signal::Resources { readings } => readings.with_text("kind", "resources"),
            Signal::Diagnostics { dropped, local_write_failures, upload_failures } => object(

            ).with_text("kind", "diagnostics").with("dropped", Json::uint(dropped)).with(
                "local_write_failures",
                Json::uint(local_write_failures),
            ).with("upload_failures", Json::uint(upload_failures)),
        }
    }
}

/// A record of something that happened.
pub open spec fn record_data(run: Seq<char>, sequence: u64, now: u64, signal: Signal) -> Data {
    Data::Object(
        map![
            "run_id"@ => Data::Text(run),
            "sequence"@ => uint(sequence),
            "timestamp_ms"@ => uint(now)
        ].union_prefer_right(signal_members(signal)),
    )
}

/// Two counts together, as far as they fit.
pub open spec fn plus(a: u64, b: int) -> u64 {
    if a + b > u64::MAX {
        u64::MAX
    } else {
        (a + b) as u64
    }
}

fn count_on(a: u64, b: usize) -> (r: u64)
    ensures
        r == plus(a, b as int),
{
    match a.checked_add(b as u64) {
        Some(n) => n,
        None => u64::MAX,
    }
}

/// The last items of a list.
pub open spec fn last_items(all: Seq<Data>, limit: nat) -> Seq<Data> {
    if all.len() <= limit {
        all
    } else {
        all.skip(all.len() - limit)
    }
}

/// The diagnostics of one run of the service.
#[derive(Debug)]
pub struct Observability {
    /// Tells this run from every other.
    pub run_id: String,
    pub sequence: u64,
    /// The records that were given up.
    pub dropped: u64,
    /// The records on their way to the disk.
    pub queue: Vec<Json>,
    /// What harnesses wrote to their error output, on its way to a file of its own. It goes nowhere
    /// else.
    pub stderr: Vec<Json>,
    /// No more records are taken.
    pub closed: bool,
    /// The records on their way to the database.
    pub pending: Vec<Json>,
    pub local_write_failures: u64,
    pub upload_failures: u64,
    pub sample_at: u64,
    pub prune_at: u64,
}

/// The mathematical value of the diagnostics.
pub struct ObservabilityView {
    pub run_id: Seq<char>,
    pub sequence: u64,
    pub dropped: u64,
    pub queue: Seq<Data>,
    pub stderr: Seq<Data>,
    pub closed: bool,
    pub pending: Seq<Data>,
    pub local_write_failures: u64,
    pub upload_failures: u64,
    pub sample_at: u64,
    pub prune_at: u64,
}

impl View for Observability {
    type V = ObservabilityView;

    open spec fn view(&self) -> ObservabilityView {
        ObservabilityView {
            run_id: self.run_id@,
            sequence: self.sequence,
            dropped: self.dropped,
            queue: values(self.queue@),
            stderr: values(self.stderr@),
            closed: self.closed,
            pending: values(self.pending@),
            local_write_failures: self.local_write_failures,
            upload_failures: self.upload_failures,
            sample_at: self.sample_at,
            prune_at: self.prune_at,
        }
    }
}

impl ObservabilityView {
    /// No list is longer than it may be.
    pub open spec fn bounded(self) -> bool {
        self.queue.len() <= CAPACITY && self.pending.len() <= CAPACITY && self.stderr.len()
            <= STDERR_CAPACITY
    }
}

/// The next record is made.
pub open spec fn numbered(o: ObservabilityView) -> ObservabilityView {
    ObservabilityView { sequence: plus(o.sequence, 1), ..o }
}

/// Something is recorded. Where there is no room, that is counted, and nobody waits.
pub open spec fn recorded(o: ObservabilityView, now: u64, signal: Signal) -> ObservabilityView {
    let next = numbered(o);
    if o.closed || o.queue.len() >= CAPACITY {
        ObservabilityView { dropped: plus(o.dropped, 1), ..next }
    } else {
        ObservabilityView {
            queue: o.queue.push(record_data(o.run_id, next.sequence, now, signal)),
            ..next
        }
    }
}

/// What is kept to itself of the end of a harness. It shares its run and its number with the record
/// that tells of the end.
pub open spec fn private_data(run: Seq<char>, sequence: u64, details: ExitView) -> Data {
    Data::Object(
        map![
            "run_id"@ => Data::Text(run),
            "sequence"@ => uint(sequence),
            "stderr"@ => Data::Text(lossy(details.stderr)),
            "stderr_bytes"@ => uint(details.stderr_bytes),
            "stderr_complete"@ => Data::Bool(details.stderr_complete)
        ],
    )
}

/// What is told of the end of a harness.
pub open spec fn exit_signal(
    session_id: Option<String>,
    expected: bool,
    reason: String,
    details: ExitView,
) -> Signal {
    Signal::AgentExit { session_id, expected, reason, exit_code: details.code }
}

/// The end of a harness is recorded. Its error output is kept only beside a record that was taken, and
/// where there is no room for it, that is counted.
pub open spec fn exit_recorded(
    o: ObservabilityView,
    now: u64,
    signal: Signal,
    details: ExitView,
) -> ObservabilityView {
    let next = recorded(o, now, signal);
    if next.queue.len() == o.queue.len() || o.stderr.len() >= STDERR_CAPACITY {
        ObservabilityView { dropped: plus(next.dropped, 1), ..next }
    } else {
        ObservabilityView {
            stderr: o.stderr.push(private_data(o.run_id, next.sequence, details)),
            ..next
        }
    }
}

/// The records that are written next. `readings` is a new sample of the machine.
pub open spec fn collected(o: ObservabilityView, now: u64, readings: Option<Fields>) -> (
    ObservabilityView,
    Seq<Data>,
) {
    let empty = ObservabilityView { queue: Seq::empty(), ..o };
    match readings {
        None => (empty, o.queue),
        Some(readings) => {
            let first = numbered(empty);
            let second = numbered(first);
            (
                ObservabilityView { sample_at: plus(now, SAMPLE_MS as int), ..second },
                o.queue.push(
                    record_data(o.run_id, first.sequence, now, Signal::Resources { readings }),
                ).push(
                    record_data(
                        o.run_id,
                        second.sequence,
                        now,
                        Signal::Diagnostics {
                            dropped: o.dropped,
                            local_write_failures: o.local_write_failures,
                            upload_failures: o.upload_failures,
                        },
                    ),
                ),
            )
        },
    }
}

/// Records that were written, or not, go on to the database. Only the last ones are kept.
pub open spec fn handed_on(o: ObservabilityView, batch: Seq<Data>, written: bool) -> ObservabilityView {
    if batch.len() == 0 {
        o
    } else {
        let all = o.pending + batch;
        ObservabilityView {
            local_write_failures: if written {
                o.local_write_failures
            } else {
                plus(o.local_write_failures, 1)
            },
            pending: last_items(all, CAPACITY as nat),
            dropped: if all.len() > CAPACITY {
                plus(o.dropped, all.len() - CAPACITY)
            } else {
                o.dropped
            },
            ..o
        }
    }
}

proof fn values_of(items: Seq<Json>)
    ensures
        values(items).len() == items.len(),
        forall|i: int| 0 <= i < items.len() ==> values(items)[i] == (#[trigger] items[i])@,
{
}

impl Observability {
    /// A new run.
    pub fn new(run_id: String, now: u64) -> (r: Observability)
        ensures
            r@ == (ObservabilityView {
                run_id: run_id@,
                sequence: 0,
                dropped: 0,
                queue: Seq::empty(),
                stderr: Seq::empty(),
                closed: false,
                pending: Seq::empty(),
                local_write_failures: 0,
                upload_failures: 0,
                sample_at: now,
                prune_at: now,
            }),
            r@.bounded(),
    {
        let r = Observability {
            run_id,
            sequence: 0,
            dropped: 0,
            queue: crate::json::no_json(),
            stderr: crate::json::no_json(),
            closed: false,
            pending: crate::json::no_json(),
            local_write_failures: 0,
            upload_failures: 0,
            sample_at: now,
            prune_at: now,
        };
        assert(r@.queue =~= Seq::empty());
        assert(r@.stderr =~= Seq::empty());
        assert(r@.pending =~= Seq::empty());
        r
    }

    fn make_record(&mut self, now: u64, signal: Signal) -> (r: Json)
        ensures
            final(self)@ == numbered(old(self)@),
            r@ == record_data(old(self)@.run_id, numbered(old(self)@).sequence, now, signal),
    {
        self.sequence = count_on(self.sequence, 1);
        let mut fields = object().with_text("run_id", self.run_id.as_str()).with(
            "sequence",
            Json::uint(self.sequence),
        ).with("timestamp_ms", Json::uint(now));
        fields.merge(&signal.fields());
        Json::Object(fields)
    }

    /// Records something, and names the record. Nobody waits for the disk or the database.
    pub fn record(&mut self, now: u64, signal: Signal) -> (r: String)
        requires
            old(self)@.bounded(),
        ensures
            final(self)@ == recorded(old(self)@, now, signal),
            final(self)@.bounded(),
            r@ == old(self)@.run_id + "-"@ + decimal(numbered(old(self)@).sequence as nat),
    {
        let record = self.make_record(now, signal);
        let id = concat3(self.run_id.as_str(), "-", decimal_of(self.sequence).as_str());
        proof {
            values_of(self.queue@);
        }
        if self.closed || self.queue.len() >= CAPACITY {
            self.dropped = count_on(self.dropped, 1);
        } else {
            crate::json::push_json(&mut self.queue, record);
        }
        id
    }

    /// Records the end of a harness, and names the record.
    pub fn agent_exit(
        &mut self,
        now: u64,
        session_id: Option<String>,
        expected: bool,
        reason: String,
        details: &ExitDetails,
    ) -> (r: String)
        requires
            old(self)@.bounded(),
        ensures
            final(self)@ == exit_recorded(
                old(self)@,
                now,
                exit_signal(session_id, expected, reason, details@),
                details@,
            ),
            final(self)@.bounded(),
            r@ == old(self)@.run_id + "-"@ + decimal(numbered(old(self)@).sequence as nat),
    {
        let before = self.queue.len();
        proof {
            values_of(self.queue@);
            values_of(self.stderr@);
        }
        let signal = Signal::AgentExit { session_id, expected, reason, exit_code: details.code };
        let id = self.record(now, signal);
        proof {
            values_of(self.queue@);
        }
        if self.queue.len() == before || self.stderr.len() >= STDERR_CAPACITY {
            self.dropped = count_on(self.dropped, 1);
        } else {
            let record = object().with_text("run_id", self.run_id.as_str()).with(
                "sequence",
                Json::uint(self.sequence),
            ).with_text("stderr", text_lossy(details.stderr.as_slice()).as_str()).with(
                "stderr_bytes",
                Json::uint(details.stderr_bytes),
            ).with("stderr_complete", Json::Bool(details.stderr_complete));
            crate::json::push_json(&mut self.stderr, Json::Object(record));
        }
        id
    }

    /// The private records that are written next.
    pub fn collect_stderr(&mut self) -> (r: Vec<Json>)
        requires
            old(self)@.bounded(),
        ensures
            final(self)@ == (ObservabilityView { stderr: Seq::empty(), ..old(self)@ }),
            values(r@) == old(self)@.stderr,
            final(self)@.bounded(),
    {
        let mut batch = crate::json::no_json();
        std::mem::swap(&mut batch, &mut self.stderr);
        assert(self@.stderr =~= Seq::empty());
        batch
    }

    /// Takes no more records.
    pub fn close(&mut self)
        ensures
            final(self)@ == (ObservabilityView { closed: true, ..old(self)@ }),
    {
        self.closed = true;
    }

    /// Whether the machine is to be sampled now.
    pub fn sample_due(&self, now: u64) -> (r: bool)
        ensures
            r == (!self@.closed && now >= self@.sample_at),
    {
        !self.closed && now >= self.sample_at
    }

    /// The records that are written next.
    pub fn collect(&mut self, now: u64, readings: Option<Fields>) -> (r: Vec<Json>)
        requires
            old(self)@.bounded(),
        ensures
            final(self)@ == collected(old(self)@, now, readings).0,
            values(r@) == collected(old(self)@, now, readings).1,
            final(self)@.bounded(),
    {
        let mut batch = crate::json::no_json();
        std::mem::swap(&mut batch, &mut self.queue);
        assert(self@.queue =~= Seq::empty());
        if let Some(readings) = readings {
            let sample = self.make_record(now, Signal::Resources { readings });
            crate::json::push_json(&mut batch, sample);
            let signal = Signal::Diagnostics {
                dropped: self.dropped,
                local_write_failures: self.local_write_failures,
                upload_failures: self.upload_failures,
            };
            let own = self.make_record(now, signal);
            crate::json::push_json(&mut batch, own);
            self.sample_at = match now.checked_add(SAMPLE_MS) {
                Some(t) => t,
                None => u64::MAX,
            };
        }
        batch
    }

    /// Hands records on to the database, written to the disk or not.
    pub fn hand_on(&mut self, batch: Vec<Json>, written: bool)
        requires
            old(self)@.bounded(),
        ensures
            final(self)@ == handed_on(old(self)@, values(batch@), written),
            final(self)@.bounded(),
    {
        let mut batch = batch;
        let ghost was = self@;
        let ghost more = values(batch@);
        proof {
            values_of(batch@);
            values_of(self.pending@);
        }
        if batch.len() == 0 {
            return;
        }
        if !written {
            self.local_write_failures = count_on(self.local_write_failures, 1);
        }
        let ghost before = self.pending@;
        let ghost given = batch@;
        self.pending.append(&mut batch);
        let ghost all = was.pending + more;
        proof {
            assert(self.pending@ =~= before + given);
            values_of(self.pending@);
            assert(values(self.pending@) =~= all);
        }
        if self.pending.len() > CAPACITY {
            let excess = self.pending.len() - CAPACITY;
            let ghost whole = self.pending@;
            self.pending = self.pending.split_off(excess);
            proof {
                values_of(self.pending@);
                assert(self.pending@ =~= whole.skip(excess as int));
                assert(values(self.pending@) =~= all.skip(excess as int));
            }
            self.dropped = count_on(self.dropped, excess);
        }
    }

    /// The database has taken what was pending, or has not.
    pub fn uploaded(&mut self, taken: bool)
        requires
            old(self)@.bounded(),
        ensures
            final(self)@ == (if taken {
                ObservabilityView { pending: Seq::empty(), ..old(self)@ }
            } else {
                ObservabilityView {
                    upload_failures: plus(old(self)@.upload_failures, 1),
                    ..old(self)@
                }
            }),
            final(self)@.bounded(),
    {
        if taken {
            self.pending = crate::json::no_json();
            assert(self@.pending =~= Seq::empty());
        } else {
            self.upload_failures = count_on(self.upload_failures, 1);
        }
    }

    /// Whether old records are to be cleared now.
    pub fn prune_due(&self, now: u64) -> (r: bool)
        ensures
            r == (!self@.closed && now >= self@.prune_at),
    {
        !self.closed && now >= self.prune_at
    }

    /// Old records have been cleared, or have not.
    pub fn pruned(&mut self, done: bool, now: u64)
        ensures
            final(self)@ == (ObservabilityView {
                prune_at: plus(now, PRUNE_MS as int),
                upload_failures: if done {
                    old(self)@.upload_failures
                } else {
                    plus(old(self)@.upload_failures, 1)
                },
                ..old(self)@
            }),
    {
        if !done {
            self.upload_failures = count_on(self.upload_failures, 1);
        }
        self.prune_at = match now.checked_add(PRUNE_MS) {
            Some(t) => t,
            None => u64::MAX,
        };
    }
}

/// Whether the file of diagnostics is set aside before more is written to it.
pub fn rotates(length: u64, more: u64, limit: u64) -> (r: bool)
    ensures
        r == (length + more > limit),
{
    match length.checked_add(more) {
        Some(n) => n > limit,
        None => true,
    }
}

/// What cannot be kept is counted: a record is in the queue or among the dropped ones.
pub proof fn overload_is_visible(o: ObservabilityView, now: u64, signal: Signal)
    requires
        o.bounded(),
        o.dropped < u64::MAX,
    ensures
        recorded(o, now, signal).queue.len() + recorded(o, now, signal).dropped == o.queue.len()
            + o.dropped + 1,
        recorded(o, now, signal).bounded(),
{
}

/// What is kept of the error output of a harness stands beside the record of its end, under the same
/// run and number.
pub proof fn exits_are_told_in_pairs(
    o: ObservabilityView,
    now: u64,
    session_id: Option<String>,
    expected: bool,
    reason: String,
    details: ExitView,
)
    ensures
        ({
            let n = exit_recorded(
                o,
                now,
                exit_signal(session_id, expected, reason, details),
                details,
            );
            let told = n.queue.last();
            let kept = n.stderr.last();
            n.stderr != o.stderr ==> {
                &&& n.stderr == o.stderr.push(kept)
                &&& n.queue == o.queue.push(told)
                &&& kept.field("run_id"@) == told.field("run_id"@)
                &&& kept.field("sequence"@) == told.field("sequence"@)
                &&& told.field("exit_code"@) == opt_int(details.code)
            }
        }),
{
    record_keys();
    let signal = exit_signal(session_id, expected, reason, details);
    let n = exit_recorded(o, now, signal, details);
    if n.stderr != o.stderr {
        let next = numbered(o);
        assert(n.queue.last() == record_data(o.run_id, next.sequence, now, signal));
        assert(n.stderr.last() == private_data(o.run_id, next.sequence, details));
    }
}

/// The error output of a harness reaches no record that leaves the machine: what is told of its end is
/// the same whatever it wrote.
pub proof fn error_output_stays_private(
    o: ObservabilityView,
    now: u64,
    session_id: Option<String>,
    expected: bool,
    reason: String,
    details: ExitView,
    other: ExitView,
)
    requires
        details.code == other.code,
    ensures
        ({
            let signal = exit_signal(session_id, expected, reason, details);
            let a = exit_recorded(o, now, signal, details);
            let b = exit_recorded(
                o,
                now,
                exit_signal(session_id, expected, reason, other),
                other,
            );
            &&& a == (ObservabilityView { stderr: a.stderr, ..b })
            &&& !signal_members(signal).contains_key("stderr"@)
        }),
{
    record_keys();
}

proof fn record_keys()
    ensures
        "stderr"@ != "kind"@,
        "stderr"@ != "session_id"@,
        "stderr"@ != "expected"@,
        "stderr"@ != "reason"@,
        "stderr"@ != "exit_code"@,
        "stderr"@ != "run_id"@,
        "stderr"@ != "sequence"@,
        "run_id"@ != "sequence"@,
        "run_id"@ != "timestamp_ms"@,
        "sequence"@ != "timestamp_ms"@,
        "run_id"@ != "kind"@,
        "run_id"@ != "session_id"@,
        "run_id"@ != "expected"@,
        "run_id"@ != "reason"@,
        "run_id"@ != "exit_code"@,
        "sequence"@ != "kind"@,
        "sequence"@ != "session_id"@,
        "sequence"@ != "expected"@,
        "sequence"@ != "reason"@,
        "sequence"@ != "exit_code"@,
        "run_id"@ != "stderr_bytes"@,
        "run_id"@ != "stderr_complete"@,
        "sequence"@ != "stderr_bytes"@,
        "sequence"@ != "stderr_complete"@,
{
    reveal_strlit("stderr");
    reveal_strlit("kind");
    reveal_strlit("session_id");
    reveal_strlit("expected");
    reveal_strlit("reason");
    reveal_strlit("exit_code");
    reveal_strlit("run_id");
    reveal_strlit("sequence");
    reveal_strlit("timestamp_ms");
    reveal_strlit("stderr_bytes");
    reveal_strlit("stderr_complete");
    assert("stderr"@[1] == 't' && "reason"@[1] == 'e' && "run_id"@[1] == 'u');
    assert("sequence"@[0] == 's' && "expected"@[0] == 'e');
    assert("stderr"@.len() == 6 && "reason"@.len() == 6 && "run_id"@.len() == 6 && "kind"@.len()
        == 4 && "session_id"@.len() == 10 && "expected"@.len() == 8 && "exit_code"@.len() == 9
        && "sequence"@.len() == 8 && "timestamp_ms"@.len() == 12 && "stderr_bytes"@.len() == 12
        && "stderr_complete"@.len() == 15);
}

/// Records that wait for the database are there, or are among the dropped ones; the oldest go first.
pub proof fn outages_are_visible(o: ObservabilityView, batch: Seq<Data>, written: bool)
    requires
        o.bounded(),
        o.dropped + batch.len() <= u64::MAX,
    ensures
        handed_on(o, batch, written).pending.len() + handed_on(o, batch, written).dropped
            == o.pending.len() + batch.len() + o.dropped,
        handed_on(o, batch, written).bounded(),
        handed_on(o, batch, written).pending == last_items(o.pending + batch, CAPACITY as nat),
{
    if batch.len() == 0 {
        assert(o.pending + batch =~= o.pending);
    }
}

} // verus!
