//! Commands between the machine of the user and the cloud: agents in the cloud run commands on the
//! paired machine through its helper, and the machine runs commands here.
use crate::failure::{conflicting, forbidden, missing, Failure, FailureView};
use crate::hex::{hex_bytes, hex_places, hex_text, nibble};
use crate::json::{object, opt_int, opt_text, Data, Json};
use crate::runtime::auth::{passed, since};
use crate::table::{in_order, is_order, Table};
use crate::text::{
    after_prefix, blank, byte_len, chars_of, concat3, contains_char, decimal, decimal_of, is_blank,
    opt, opt_slice, push_text, replace, replaced, same, size, string_of, strip_prefix,
};
use vstd::prelude::*;

pub mod cli;

verus! {

/// The bytes of input or output that are taken. Each takes two digits on the wire.
pub const LIMIT: usize = 16777216;

/// A connected helper confirms a command within so many milliseconds.
pub const ACK: u64 = 10000;

/// Results are kept for so many milliseconds, and commands without one for a day.
pub const KEEP: u64 = 3600000;

/// What an agent is told where no helper answers.
pub open spec fn unavailable() -> Seq<char> {
    "Mac unavailable: the paired Mac is offline, asleep, or has Mac access turned off. Continue cloud work and try again later."@
}

fn without_mac() -> (r: Failure)
    ensures
        r@ == conflicting(unavailable()),
{
    Failure::conflict(
        "Mac unavailable: the paired Mac is offline, asleep, or has Mac access turned off. Continue cloud work and try again later.",
    )
}

/// A command to run.
#[derive(Debug)]
pub struct Run {
    pub command: String,
    /// The input of the command, two digits for each byte.
    pub stdin: String,
    pub cwd: Option<String>,
}

/// The mathematical value of a command to run.
pub struct RunView {
    pub command: Seq<char>,
    pub stdin: Seq<char>,
    pub cwd: Option<Seq<char>>,
}

impl View for Run {
    type V = RunView;

    open spec fn view(&self) -> RunView {
        RunView { command: self.command@, stdin: self.stdin@, cwd: opt(self.cwd) }
    }
}

/// What a helper reports of a command.
#[derive(Debug)]
pub struct Report {
    pub device: String,
    pub state: String,
    pub code: Option<i32>,
    pub stdout: String,
    pub stderr: String,
    pub truncated: bool,
}

/// The mathematical value of what a helper reports.
pub struct ReportView {
    pub device: Seq<char>,
    pub state: Seq<char>,
    pub code: Option<i32>,
    pub stdout: Seq<char>,
    pub stderr: Seq<char>,
    pub truncated: bool,
}

impl View for Report {
    type V = ReportView;

    open spec fn view(&self) -> ReportView {
        ReportView {
            device: self.device@,
            state: self.state@,
            code: self.code,
            stdout: self.stdout@,
            stderr: self.stderr@,
            truncated: self.truncated,
        }
    }
}

/// A machine that asks for commands.
#[derive(Debug)]
pub struct Device {
    pub device: String,
}

// Bytes in digits.

/// The number from 0 to 15 that a digit of either case stands for.
pub open spec fn digit_number(c: char) -> Option<nat> {
    if '0' <= c && c <= '9' {
        Some((c as int - 48) as nat)
    } else if 'a' <= c && c <= 'f' {
        Some((c as int - 87) as nat)
    } else if 'A' <= c && c <= 'F' {
        Some((c as int - 55) as nat)
    } else {
        None
    }
}

/// The byte that two characters stand for. A plus sign may take the place of the first digit.
pub open spec fn pair_number(a: char, b: char) -> Option<nat> {
    match digit_number(b) {
        None => None,
        Some(low) => if a == '+' {
            Some(low)
        } else {
            match digit_number(a) {
                None => None,
                Some(high) => Some(high * 16 + low),
            }
        },
    }
}

/// The bytes that digits stand for.
pub open spec fn unhexed(text: Seq<char>) -> Option<Seq<u8>>
    decreases text.len(),
{
    if text.len() == 0 {
        Some(Seq::empty())
    } else if text.len() == 1 {
        None
    } else {
        match (
            unhexed(text.subrange(0, text.len() - 2)),
            pair_number(text[text.len() - 2], text[text.len() - 1]),
        ) {
            (Some(bytes), Some(n)) => Some(bytes.push(n as u8)),
            _ => None,
        }
    }
}

/// The two digits of each byte.
pub fn hex(bytes: &[u8]) -> (r: String)
    ensures
        r@ == hex_bytes(bytes@),
{
    hex_text(bytes)
}

fn read_digit(c: char) -> (r: Option<u8>)
    ensures
        match r {
            Some(n) => n < 16 && digit_number(c) == Some(n as nat),
            None => digit_number(c) is None,
        },
{
    let code = c as u32;
    if '0' <= c && c <= '9' {
        Some((code - 48) as u8)
    } else if 'a' <= c && c <= 'f' {
        Some((code - 87) as u8)
    } else if 'A' <= c && c <= 'F' {
        Some((code - 55) as u8)
    } else {
        None
    }
}

fn read_pair(a: char, b: char) -> (r: Option<u8>)
    ensures
        match r {
            Some(n) => pair_number(a, b) == Some(n as nat),
            None => pair_number(a, b) is None,
        },
{
    match read_digit(b) {
        None => None,
        Some(low) => if a == '+' {
            Some(low)
        } else {
            match read_digit(a) {
                None => None,
                Some(high) => Some(high * 16 + low),
            }
        },
    }
}

proof fn unhex_fails(text: Seq<char>, n: int)
    requires
        0 <= n <= text.len(),
        n % 2 == 0,
        text.len() % 2 == 0,
        unhexed(text.take(n)) is None,
    ensures
        unhexed(text) is None,
    decreases text.len() - n,
{
    if n == text.len() {
        assert(text.take(n) =~= text);
    } else {
        let next = text.take(n + 2);
        assert(next.subrange(0, next.len() - 2) =~= text.take(n));
        unhex_fails(text, n + 2);
    }
}

proof fn odd_fails(text: Seq<char>)
    requires
        text.len() % 2 == 1,
    ensures
        unhexed(text) is None,
    decreases text.len(),
{
    if text.len() > 1 {
        odd_fails(text.subrange(0, text.len() - 2));
    }
}

/// The bytes that digits stand for.
pub fn unhex(text: &str) -> (r: Option<Vec<u8>>)
    ensures
        match r {
            Some(bytes) => unhexed(text@) == Some(bytes@),
            None => unhexed(text@) is None,
        },
{
    let chars = chars_of(text);
    let ghost all = text@;
    if chars.len() % 2 != 0 {
        proof {
            odd_fails(all);
        }
        return None;
    }
    let mut bytes: Vec<u8> = Vec::new();
    let mut i: usize = 0;
    assert(all.take(0) =~= Seq::empty());
    assert(bytes@ =~= Seq::<u8>::empty());
    while i < chars.len()
        invariant
            i <= chars.len(),
            i % 2 == 0,
            chars@.len() % 2 == 0,
            chars@ == all,
            all == text@,
            unhexed(all.take(i as int)) == Some(bytes@),
        decreases chars.len() - i,
    {
        let ghost next = all.take(i + 2);
        assert(next.subrange(0, next.len() - 2) =~= all.take(i as int));
        assert(next[next.len() - 2] == all[i as int] && next[next.len() - 1] == all[i + 1]);
        match read_pair(chars[i], chars[i + 1]) {
            Some(n) => {
                bytes.push(n);
            },
            None => {
                proof {
                    unhex_fails(all, i + 2);
                }
                return None;
            },
        }
        i += 2;
    }
    assert(all.take(i as int) =~= all);
    Some(bytes)
}

/// Bytes are read back from their digits.
pub proof fn digits_read_back(bytes: Seq<u8>)
    ensures
        unhexed(hex_bytes(bytes)) == Some(bytes),
    decreases bytes.len(),
{
    hex_places(bytes);
    if bytes.len() > 0 {
        let rest = bytes.drop_last();
        digits_read_back(rest);
        let text = hex_bytes(bytes);
        hex_places(rest);
        assert(text.subrange(0, text.len() - 2) =~= hex_bytes(rest));
        let n = bytes.last() as int;
        assert(text[text.len() - 2] == nibble(n / 16));
        assert(text[text.len() - 1] == nibble(n % 16));
        assert(digit_number(nibble(n / 16)) == Some((n / 16) as nat));
        assert(digit_number(nibble(n % 16)) == Some((n % 16) as nat));
        assert(rest.push(bytes.last()) =~= bytes);
    }
}

// Commands.

/// Why a command is refused.
pub open spec fn run_refused(run: RunView) -> Option<Seq<char>> {
    if blank(run.command) || byte_len(run.command) > 65536 || run.command.contains('\0') {
        Some("command must contain 1-65536 bytes"@)
    } else if run.cwd is Some && (run.cwd->0.len() == 0 || byte_len(run.cwd->0) > 4096
        || run.cwd->0.contains('\0')) {
        Some("invalid folder"@)
    } else if byte_len(run.stdin) > 2 * LIMIT {
        Some("input exceeds the 16 MiB limit"@)
    } else if unhexed(run.stdin) is None {
        Some("stdin must be hex"@)
    } else {
        None
    }
}

/// The input of a command, or why the command is refused.
pub fn validate(run: &Run) -> (r: Result<Vec<u8>, Failure>)
    ensures
        match r {
            Ok(bytes) => run_refused(run@) is None && unhexed(run@.stdin) == Some(bytes@),
            Err(f) => match run_refused(run@) {
                Some(why) => f@ == conflicting(why),
                None => false,
            },
        },
{
    let command = run.command.as_str();
    if is_blank(command) || size(command) > 65536 || contains_char(command, '\0') {
        return Err(Failure::conflict("command must contain 1-65536 bytes"));
    }
    if let Some(folder) = &run.cwd {
        let folder = folder.as_str();
        if chars_of(folder).len() == 0 || size(folder) > 4096 || contains_char(folder, '\0') {
            return Err(Failure::conflict("invalid folder"));
        }
    }
    if size(run.stdin.as_str()) > 2 * LIMIT {
        return Err(Failure::conflict("input exceeds the 16 MiB limit"));
    }
    match unhex(run.stdin.as_str()) {
        Some(bytes) => Ok(bytes),
        None => Err(Failure::conflict("stdin must be hex")),
    }
}

/// Output that is kept up to the limit.
#[derive(Debug)]
pub struct Kept {
    pub bytes: Vec<u8>,
    /// There was more.
    pub truncated: bool,
}

/// The beginning of bytes, up to the limit.
pub open spec fn up_to_limit(bytes: Seq<u8>) -> Seq<u8> {
    if bytes.len() > LIMIT {
        bytes.take(LIMIT as int)
    } else {
        bytes
    }
}

impl Kept {
    /// Nothing yet.
    pub fn new() -> (r: Kept)
        ensures
            r.bytes@ == Seq::<u8>::empty(),
            !r.truncated,
    {
        Kept { bytes: Vec::new(), truncated: false }
    }

    /// Takes in more output.
    pub fn add_bytes(&mut self, more: &[u8])
        requires
            old(self).bytes@.len() <= LIMIT,
        ensures
            final(self).bytes@ == up_to_limit(old(self).bytes@ + more@),
            final(self).truncated == (old(self).truncated || old(self).bytes@.len() + more@.len()
                > LIMIT),
            final(self).bytes@.len() <= LIMIT,
    {
        let ghost was = self.bytes@;
        let room = LIMIT - self.bytes.len();
        let count = if more.len() > room {
            self.truncated = true;
            room
        } else {
            more.len()
        };
        let mut i: usize = 0;
        assert(self.bytes@ =~= was + more@.take(0));
        while i < count
            invariant
                i <= count <= more@.len(),
                self.bytes@ == was + more@.take(i as int),
                self.truncated == (old(self).truncated || was.len() + more@.len() > LIMIT),
            decreases count - i,
        {
            self.bytes.push(more[i]);
            assert(self.bytes@ =~= was + more@.take(i + 1));
            i += 1;
        }
        assert(self.bytes@ =~= up_to_limit(was + more@));
    }
}

/// The outcome of a command that ran here.
pub fn ran(code: Option<i32>, stdout: &Kept, stderr: &Kept) -> (r: Json)
    ensures
        r@ == Data::Object(
            map![
                "code"@ => opt_int(code),
                "stdout"@ => Data::Text(hex_bytes(stdout.bytes@)),
                "stderr"@ => Data::Text(hex_bytes(stderr.bytes@)),
                "truncated"@ => Data::Bool(stdout.truncated || stderr.truncated)
            ],
        ),
{
    Json::Object(
        object().with("code", Json::opt_int(code)).with_text(
            "stdout",
            hex(stdout.bytes.as_slice()).as_str(),
        ).with_text("stderr", hex(stderr.bytes.as_slice()).as_str()).with(
            "truncated",
            Json::Bool(stdout.truncated || stderr.truncated),
        ),
    )
}

// The commands of agents, on the machine of the user.

/// A command that was sent to a machine.
#[derive(Debug)]
pub struct Job {
    pub device: String,
    /// The helper has confirmed it.
    pub acked: bool,
    pub result: Option<Json>,
    /// When it was sent, or when its result came, in milliseconds.
    pub at: u64,
}

/// The mathematical value of a command that was sent.
pub struct JobView {
    pub device: Seq<char>,
    pub acked: bool,
    pub result: Option<Data>,
    pub at: u64,
}

impl View for Job {
    type V = JobView;

    open spec fn view(&self) -> JobView {
        JobView {
            device: self.device@,
            acked: self.acked,
            result: crate::session::opt_data(self.result),
            at: self.at,
        }
    }
}

impl Job {
    fn duplicate(&self) -> (r: Job)
        ensures
            r@ == self@,
    {
        Job {
            device: self.device.clone(),
            acked: self.acked,
            result: match &self.result {
                Some(j) => Some(j.duplicate()),
                None => None,
            },
            at: self.at,
        }
    }
}

/// The helper that commands go to.
#[derive(Debug)]
pub struct Helper {
    /// Tells this connection from every other.
    pub generation: u64,
    pub device: String,
}

/// The mathematical value of the helper.
pub struct HelperView {
    pub generation: u64,
    pub device: Seq<char>,
}

impl View for Helper {
    type V = HelperView;

    open spec fn view(&self) -> HelperView {
        HelperView { generation: self.generation, device: self.device@ }
    }
}

/// The commands of agents, and the helper that they go to.
#[derive(Debug)]
pub struct Mac {
    pub jobs: Table<Job>,
    pub helper: Option<Helper>,
    /// The next number for a connection or a command.
    pub next: u64,
}

/// The mathematical value of the commands and the helper.
pub struct MacView {
    pub jobs: Map<Seq<char>, JobView>,
    pub helper: Option<HelperView>,
    pub next: u64,
}

impl View for Mac {
    type V = MacView;

    open spec fn view(&self) -> MacView {
        MacView {
            jobs: self.jobs@,
            helper: match self.helper {
                Some(h) => Some(h@),
                None => None,
            },
            next: self.next,
        }
    }
}

/// A command is remembered: a result for an hour, one that runs for a day.
pub open spec fn remembered(job: JobView, now: u64) -> bool {
    passed(now, job.at) < if job.result is Some {
        KEEP as int
    } else {
        24 * KEEP
    }
}

/// The commands that are remembered.
pub open spec fn kept_jobs(jobs: Map<Seq<char>, JobView>, now: u64) -> Map<Seq<char>, JobView> {
    jobs.restrict(Set::new(|id: Seq<char>| jobs.contains_key(id) && remembered(jobs[id], now)))
}

/// The name of a command.
pub open spec fn job_name(process: u32, number: u64) -> Seq<char> {
    decimal(process as nat) + "-"@ + decimal(number as nat)
}

/// A command is sent to the connected helper.
pub open spec fn sent(m: MacView, process: u32, now: u64) -> MacView {
    MacView {
        jobs: kept_jobs(m.jobs, now).insert(
            job_name(process, m.next),
            JobView { device: m.helper->0.device, acked: false, result: None, at: now },
        ),
        next: (m.next + 1) as u64,
        ..m
    }
}

/// What is sent to the helper.
pub open spec fn job_data(id: Seq<char>, run: RunView) -> Data {
    Data::Object(
        map![
            "id"@ => Data::Text(id),
            "command"@ => Data::Text(run.command),
            "stdin"@ => Data::Text(run.stdin),
            "cwd"@ => opt_text(run.cwd)
        ],
    )
}

/// Output as a helper reports it.
pub open spec fn fair_output(text: Seq<char>) -> bool {
    byte_len(text) <= 2 * LIMIT && unhexed(text) is Some
}

/// The outcome that a helper reports.
pub open spec fn result_data(report: ReportView) -> Data {
    Data::Object(
        map![
            "state"@ => Data::Text("done"@),
            "code"@ => opt_int(report.code),
            "stdout"@ => Data::Text(report.stdout),
            "stderr"@ => Data::Text(report.stderr),
            "truncated"@ => Data::Bool(report.truncated)
        ],
    )
}

/// What a report leads to.
pub open spec fn reported(m: MacView, id: Seq<char>, report: ReportView, now: u64) -> Result<
    MacView,
    FailureView,
> {
    if !m.jobs.contains_key(id) || m.jobs[id].device != report.device {
        Err(missing("Unknown or expired Mac job"@))
    } else if report.state == "running"@ {
        Ok(
            MacView {
                jobs: m.jobs.insert(id, JobView { acked: true, ..m.jobs[id] }),
                ..m
            },
        )
    } else if report.state == "done"@ && fair_output(report.stdout) && fair_output(report.stderr) {
        Ok(
            MacView {
                jobs: m.jobs.insert(
                    id,
                    JobView {
                        acked: true,
                        at: now,
                        result: Some(result_data(report)),
                        ..m.jobs[id]
                    },
                ),
                ..m
            },
        )
    } else {
        Err(conflicting("Invalid Mac job report"@))
    }
}

/// What an agent that waits for its command learns.
#[derive(Debug)]
pub enum Waiting {
    /// The command has ended.
    Ended(Json),
    /// The helper never confirmed the command, which is forgotten.
    Gone,
    /// The machine went away while the command ran.
    Lost(Json),
    /// There is nothing to tell yet.
    Still,
}

/// The mathematical value of what an agent that waits learns.
pub enum WaitingView {
    Ended(Data),
    Gone,
    Lost(Data),
    Still,
}

impl View for Waiting {
    type V = WaitingView;

    open spec fn view(&self) -> WaitingView {
        match self {
            Waiting::Ended(j) => WaitingView::Ended(j@),
            Waiting::Gone => WaitingView::Gone,
            Waiting::Lost(j) => WaitingView::Lost(j@),
            Waiting::Still => WaitingView::Still,
        }
    }
}

/// The connection that a command went to is still there.
pub open spec fn connected(m: MacView, generation: u64) -> bool {
    m.helper is Some && m.helper->0.generation == generation
}

/// What an agent is told of a command whose machine went away.
pub open spec fn lost_data(id: Seq<char>) -> Data {
    Data::Object(
        map![
            "job"@ => Data::Text(id),
            "state"@ => Data::Text("unknown"@),
            "message"@ => Data::Text(
                "The Mac disconnected while this command was running. It may still finish; check later with: cloudroom mac result "@
                    + id,
            )
        ],
    )
}

/// What an agent that waits learns, and what becomes of its command.
pub open spec fn awaited(m: MacView, id: Seq<char>, generation: u64, waited: u64) -> (
    MacView,
    WaitingView,
) {
    if !m.jobs.contains_key(id) {
        (m, WaitingView::Gone)
    } else {
        let job = m.jobs[id];
        match job.result {
            Some(result) => (m, WaitingView::Ended(result.with("job"@, Data::Text(id)))),
            None => if !job.acked && (!connected(m, generation) || waited >= ACK) {
                (MacView { jobs: m.jobs.remove(id), ..m }, WaitingView::Gone)
            } else if !connected(m, generation) {
                (m, WaitingView::Lost(lost_data(id)))
            } else {
                (m, WaitingView::Still)
            },
        }
    }
}

/// The number that follows another. After the largest they begin anew.
pub open spec fn number_after(n: u64) -> u64 {
    if n == u64::MAX {
        0
    } else {
        (n + 1) as u64
    }
}

impl Mac {
    /// No helper, and no commands.
    pub fn new() -> (r: Mac)
        ensures
            r@ == (MacView { jobs: Map::empty(), helper: None, next: 0 }),
    {
        Mac { jobs: Table::new(), helper: None, next: 0 }
    }

    fn number(&mut self) -> (r: u64)
        ensures
            r == old(self)@.next,
            final(self)@ == (MacView {
                next: number_after(old(self)@.next),
                ..old(self)@
            }),
    {
        let number = self.next;
        self.next = if number == u64::MAX {
            0
        } else {
            number + 1
        };
        number
    }

    /// A helper connects, if its machine is paired. It takes the place of any other.
    pub fn connect(&mut self, device: &str, paired: bool) -> (r: Result<u64, Failure>)
        ensures
            match r {
                Err(f) => !paired && f@ == forbidden("This Mac is not paired with the VM"@)
                    && final(self)@ == old(self)@,
                Ok(generation) => paired && generation == old(self)@.next && final(self)@ == (MacView {
                    helper: Some(HelperView { generation, device: device@ }),
                    next: number_after(old(self)@.next),
                    ..old(self)@
                }),
            },
    {
        if !paired {
            return Err(Failure::forbidden("This Mac is not paired with the VM"));
        }
        let generation = self.number();
        self.helper = Some(Helper { generation, device: device.to_owned() });
        Ok(generation)
    }

    /// A connection has ended. One that was replaced is of no concern.
    pub fn disconnect(&mut self, generation: u64)
        ensures
            final(self)@ == (MacView {
                helper: if connected(old(self)@, generation) {
                    None
                } else {
                    old(self)@.helper
                },
                ..old(self)@
            }),
    {
        let same_one = match &self.helper {
            Some(h) => h.generation == generation,
            None => false,
        };
        if same_one {
            self.helper = None;
        }
    }

    fn forget_old(&mut self, now: u64)
        ensures
            final(self)@ == (MacView { jobs: kept_jobs(old(self)@.jobs, now), ..old(self)@ }),
    {
        let ghost all = self.jobs@;
        let ghost keys = in_order(all);
        let mut kept: Table<Job> = Table::new();
        let count = self.jobs.len();
        let mut i: usize = 0;
        while i < count
            invariant
                i <= count,
                self@ == old(self)@,
                all == self.jobs@,
                keys == in_order(all),
                is_order(keys, all),
                count == keys.len(),
                forall|id: Seq<char>| #[trigger]
                    kept@.contains_key(id) <==> (exists|j: int| 0 <= j < i && keys[j] == id)
                        && remembered(all[id], now),
                forall|id: Seq<char>| #[trigger] kept@.contains_key(id) ==> kept@[id] == all[id],
            decreases count - i,
        {
            let ghost before = kept@;
            let job = self.jobs.value_at(i);
            let age = since(now, job.at);
            let limit = if job.result.is_some() {
                KEEP
            } else {
                24 * KEEP
            };
            let ghost id = keys[i as int];
            if age < limit {
                kept.insert(self.jobs.key_at(i), job.duplicate());
            }
            assert forall|k: Seq<char>| #[trigger] kept@.contains_key(k) <==> (exists|j: int|
                0 <= j < i + 1 && keys[j] == k) && remembered(all[k], now) by {
                if before.contains_key(k) {
                    let j = choose|j: int| 0 <= j < i && keys[j] == k;
                    assert(keys[j] == k);
                }
                if exists|j: int| 0 <= j < i + 1 && keys[j] == k {
                    let j = choose|j: int| 0 <= j < i + 1 && keys[j] == k;
                    if j < i {
                        assert(exists|n: int| 0 <= n < i && keys[n] == k);
                    }
                }
                if k == id {
                    assert(keys[i as int] == k);
                }
            }
            i += 1;
        }
        proof {
            assert forall|id: Seq<char>| #[trigger] kept@.contains_key(id) <==> kept_jobs(
                all,
                now,
            ).contains_key(id) by {
                if all.contains_key(id) {
                    let j = choose|j: int| 0 <= j < keys.len() && keys[j] == id;
                    assert(keys[j] == id);
                }
                if exists|j: int| 0 <= j < keys.len() && keys[j] == id {
                    let j = choose|j: int| 0 <= j < keys.len() && keys[j] == id;
                    assert(all.contains_key(keys[j]));
                }
            }
            assert(kept@ =~= kept_jobs(all, now));
        }
        self.jobs = kept;
    }

    /// Sends a command of an agent. Gives its name, the connection that it goes to, and what is
    /// sent.
    pub fn submit(&mut self, run: &Run, process: u32, now: u64) -> (r: Result<
        (String, u64, Json),
        Failure,
    >)
        requires
            old(self)@.next < u64::MAX,
        ensures
            match r {
                Err(f) => final(self)@ == old(self)@ && match run_refused(run@) {
                    Some(why) => f@ == conflicting(why),
                    None => old(self)@.helper is None && f@ == conflicting(unavailable()),
                },
                Ok((id, generation, data)) => {
                    &&& run_refused(run@) is None
                    &&& old(self)@.helper is Some
                    &&& id@ == job_name(process, old(self)@.next)
                    &&& generation == old(self)@.helper->0.generation
                    &&& data@ == job_data(id@, run@)
                    &&& final(self)@ == sent(old(self)@, process, now)
                },
            },
    {
        if let Err(f) = validate(run) {
            return Err(f);
        }
        let (generation, device) = match &self.helper {
            Some(h) => (h.generation, h.device.clone()),
            None => {
                return Err(without_mac());
            },
        };
        let number = self.number();
        let id = concat3(
            decimal_of(process as u64).as_str(),
            "-",
            decimal_of(number).as_str(),
        );
        self.forget_old(now);
        self.jobs.insert(id.as_str(), Job { device, acked: false, result: None, at: now });
        let data = Json::Object(
            object().with_text("id", id.as_str()).with_text(
                "command",
                run.command.as_str(),
            ).with_text("stdin", run.stdin.as_str()).with(
                "cwd",
                Json::opt_text(opt_slice(&run.cwd)),
            ),
        );
        Ok((id, generation, data))
    }

    /// A command could not be sent after all.
    pub fn withdraw(&mut self, id: &str)
        ensures
            final(self)@ == (MacView { jobs: old(self)@.jobs.remove(id@), ..old(self)@ }),
    {
        let ghost was = self.jobs@;
        let _ = self.jobs.remove(id);
        assert(self.jobs@ =~= was.remove(id@));
    }

    /// A helper reports on a command.
    pub fn report(&mut self, id: &str, report: &Report, now: u64) -> (r: Result<(), Failure>)
        ensures
            match r {
                Ok(()) => reported(old(self)@, id@, report@, now) == Ok::<MacView, FailureView>(
                    final(self)@,
                ),
                Err(f) => final(self)@ == old(self)@ && reported(old(self)@, id@, report@, now)
                    == Err::<MacView, FailureView>(f@),
            },
    {
        let mut job = match self.jobs.get(id) {
            Some(job) => job.duplicate(),
            None => {
                return Err(Failure::not_found("Unknown or expired Mac job"));
            },
        };
        if !same(job.device.as_str(), report.device.as_str()) {
            return Err(Failure::not_found("Unknown or expired Mac job"));
        }
        if same(report.state.as_str(), "running") {
            job.acked = true;
        } else if same(report.state.as_str(), "done") && size(report.stdout.as_str()) <= 2 * LIMIT
            && size(report.stderr.as_str()) <= 2 * LIMIT && unhex(report.stdout.as_str()).is_some()
            && unhex(report.stderr.as_str()).is_some() {
            job.acked = true;
            job.at = now;
            job.result = Some(
                Json::Object(
                    object().with_text("state", "done").with(
                        "code",
                        Json::opt_int(report.code),
                    ).with_text("stdout", report.stdout.as_str()).with_text(
                        "stderr",
                        report.stderr.as_str(),
                    ).with("truncated", Json::Bool(report.truncated)),
                ),
            );
        } else {
            return Err(Failure::conflict("Invalid Mac job report"));
        }
        self.jobs.insert(id, job);
        Ok(())
    }

    /// What an agent that waits for its command learns. `waited` is for how long it waits, in
    /// milliseconds.
    pub fn wait(&mut self, id: &str, generation: u64, waited: u64) -> (r: Waiting)
        ensures
            (final(self)@, r@) == awaited(old(self)@, id@, generation, waited),
    {
        let there = match &self.helper {
            Some(h) => h.generation == generation,
            None => false,
        };
        let job = match self.jobs.get(id) {
            Some(job) => job,
            None => {
                return Waiting::Gone;
            },
        };
        if let Some(result) = &job.result {
            let mut result = result.duplicate();
            result.put("job", Json::text(id));
            return Waiting::Ended(result);
        }
        if !job.acked && (!there || waited >= ACK) {
            let _ = self.jobs.remove(id);
            return Waiting::Gone;
        }
        if !there {
            let message = crate::text::concat(
                "The Mac disconnected while this command was running. It may still finish; check later with: cloudroom mac result ",
                id,
            );
            return Waiting::Lost(
                Json::Object(
                    object().with_text("job", id).with_text("state", "unknown").with_text(
                        "message",
                        message.as_str(),
                    ),
                ),
            );
        }
        Waiting::Still
    }

    /// What is known of a command.
    pub fn result(&self, id: &str) -> (r: Result<Json, Failure>)
        ensures
            match r {
                Ok(j) => self@.jobs.contains_key(id@) && j@ == (match self@.jobs[id@].result {
                    Some(result) => result,
                    None => Data::Object(map!["state"@ => Data::Text("running"@)]),
                }).with("job"@, Data::Text(id@)),
                Err(f) => !self@.jobs.contains_key(id@) && f@ == missing(
                    "Unknown or expired Mac job"@,
                ),
            },
    {
        match self.jobs.get(id) {
            None => Err(Failure::not_found("Unknown or expired Mac job")),
            Some(job) => {
                let mut result = match &job.result {
                    Some(result) => result.duplicate(),
                    None => Json::Object(object().with_text("state", "running")),
                };
                result.put("job", Json::text(id));
                Ok(result)
            },
        }
    }
}

/// Only the account of the agents may use the machine of the user.
pub fn local_auth(agent: Option<u32>, peer: Option<u32>) -> (r: Result<(), Failure>)
    ensures
        crate::failure::denial(r) == if agent is Some && peer == agent {
            None
        } else {
            Some(forbidden("Only the VM agent account may use Mac access"@))
        },
{
    match (agent, peer) {
        (Some(a), Some(p)) => if a == p {
            Ok(())
        } else {
            Err(Failure::forbidden("Only the VM agent account may use Mac access"))
        },
        _ => Err(Failure::forbidden("Only the VM agent account may use Mac access")),
    }
}

/// A path on the machine of the user, for its shell. A tilde at the front stands for the home
/// folder; everything else is taken as it is.
pub open spec fn quoted(path: Seq<char>) -> Seq<char> {
    let (prefix, rest) = if path == "~"@ {
        ("\"$HOME\""@, ""@)
    } else {
        match after_prefix(path, "~/"@) {
            Some(rest) => ("\"$HOME\"/"@, rest),
            None => (""@, path),
        }
    };
    if rest.len() == 0 {
        prefix
    } else {
        prefix + "'"@ + replaced(rest, "'"@, "'\\''"@) + "'"@
    }
}

/// A path on the machine of the user, for its shell.
pub fn quote(path: &str) -> (r: String)
    ensures
        r@ == quoted(path@),
{
    proof {
        reveal_strlit("");
        reveal_strlit("'");
        assert(""@.len() == 0);
        assert("'"@.len() == 1);
    }
    let (prefix, rest) = if same(path, "~") {
        ("\"$HOME\"", "".to_owned())
    } else {
        match strip_prefix(path, "~/") {
            Some(rest) => ("\"$HOME\"/", rest),
            None => ("", path.to_owned()),
        }
    };
    let chars = chars_of(rest.as_str());
    if chars.len() == 0 {
        return prefix.to_owned();
    }
    let mark = chars_of("'");
    let by = chars_of("'\\''");
    let inner = replace(chars.as_slice(), mark.as_slice(), by.as_slice());
    let mut out = concat3(prefix, "'", string_of(inner.as_slice()).as_str());
    push_text(&mut out, "'");
    out
}

/// A command that has ended is told as it was reported, however often it is asked for.
pub proof fn results_stay(m: MacView, id: Seq<char>, generation: u64, waited: u64)
    requires
        m.jobs.contains_key(id),
        m.jobs[id].result is Some,
    ensures
        awaited(m, id, generation, waited) == (
            m,
            WaitingView::Ended(m.jobs[id].result->0.with("job"@, Data::Text(id))),
        ),
{
}

/// A command is never reported on for another machine than the one it was sent to.
pub proof fn other_machines_are_refused(m: MacView, id: Seq<char>, report: ReportView, now: u64)
    requires
        m.jobs.contains_key(id),
        m.jobs[id].device != report.device,
    ensures
        reported(m, id, report, now) is Err,
{
}

} // verus!
