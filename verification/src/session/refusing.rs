//! What is said where a request is refused, and what is told where work could not be begun or was lost.
use super::accounts::{account_refused, login_refused, Account};
use super::asking::{can_be_asked, interrupt_waits};
use super::command::{commanded, Context, NextView, OutcomeView};
use super::history::{summary_step, SummaryView};
use super::lifecycle::{continues, launch_failed, launches, relaunch_failed, relaunched, reopened, resume_failure, Saved, Stage};
use super::local::LocalView;
use super::native::{exit_note, exit_words, lost_words};
use super::pick::Pick;
use super::record::record_in;
use super::replay::session_words;
use super::start::{begun, early_reply, saved_reply, session_name, start_refused, StartView};
use super::state::{identity_applied, receipt_applied};
use super::teleport::{prepare_refused, settings_refused, ManifestView, Readiness};
use super::transfer::{activation_refused, piece_for, takeover_refused, upload_refused, Piece, TransferView};
use super::{ErrorView, ReceiptView, RecordView, SessionView};
use crate::fault::{other, FaultKind, FaultView};
use crate::json::{Data, Number};
use crate::runtime::{ExitView, Kind};
use vstd::prelude::*;

verus! {

proof fn refusal_words()
    ensures
        "id"@.len() == 2,
        "fast"@.len() == 4 && "fast"@[0] == 'f',
        "path"@.len() == 4 && "path"@[0] == 'p',
        "kind"@.len() == 4 && "kind"@[0] == 'k',
        "data"@.len() == 4 && "data"@[0] == 'd',
        "idle"@.len() == 4 && "idle"@[0] == 'i',
        "text"@.len() == 4 && "text"@[0] == 't',
        "error"@.len() == 5 && "error"@[1] == 'r' && "error"@[3] == 'o',
        "state"@.len() == 5 && "state"@[1] == 't' && "state"@[3] == 't',
        "start"@.len() == 5 && "start"@[1] == 't' && "start"@[3] == 'r',
        "input"@.len() == 5 && "input"@[1] == 'n' && "input"@[3] == 'u',
        "empty"@.len() == 5 && "empty"@[1] == 'm' && "empty"@[3] == 't',
        "model"@.len() == 5 && "model"@[1] == 'o' && "model"@[3] == 'e',
        "reason"@.len() == 6 && "reason"@[0] == 'r',
        "stderr"@.len() == 6 && "stderr"@[0] == 's',
        "failed"@.len() == 6 && "failed"@[0] == 'f',
        "closed"@.len() == 6 && "closed"@[0] == 'c',
        "legacy"@.len() == 6 && "legacy"@[0] == 'l',
        "native"@.len() == 6 && "native"@[0] == 'n',
        "missing"@.len() == 7 && "missing"@[0] == 'm' && "missing"@[1] == 'i',
        "waiting"@.len() == 7 && "waiting"@[0] == 'w' && "waiting"@[1] == 'a',
        "expired"@.len() == 7 && "expired"@[0] == 'e' && "expired"@[1] == 'x',
        "limited"@.len() == 7 && "limited"@[0] == 'l' && "limited"@[1] == 'i',
        "default"@.len() == 7 && "default"@[0] == 'd' && "default"@[1] == 'e',
        "receipt"@.len() == 7 && "receipt"@[0] == 'r' && "receipt"@[1] == 'e',
        "command"@.len() == 7 && "command"@[0] == 'c' && "command"@[1] == 'o',
        "working"@.len() == 7 && "working"@[0] == 'w' && "working"@[1] == 'o',
        "sleeping"@.len() == 8 && "sleeping"@[2] == 'e',
        "resuming"@.len() == 8 && "resuming"@[2] == 's',
        "sequence"@.len() == 8 && "sequence"@[2] == 'q',
        "provider"@.len() == 8 && "provider"@[2] == 'o',
        "replaced"@.len() == 8 && "replaced"@[2] == 'p',
        "connected"@.len() == 9 && "connected"@[0] == 'c',
        "suspended"@.len() == 9 && "suspended"@[0] == 's',
        "workspace"@.len() == 9 && "workspace"@[0] == 'w',
        "reasoning"@.len() == 9 && "reasoning"@[0] == 'r',
        "request_id"@.len() == 10 && "request_id"@[0] == 'r',
        "session_id"@.len() == 10 && "session_id"@[0] == 's',
        "unavailable"@.len() == 11,
        "process_lost"@.len() == 12 && "process_lost"@[0] == 'p',
        "timestamp_ms"@.len() == 12 && "timestamp_ms"@[0] == 't',
        "capabilities"@.len() == 12 && "capabilities"@[0] == 'c',
        "diagnostic_id"@.len() == 13 && "diagnostic_id"@[0] == 'd',
        "startup_error"@.len() == 13 && "startup_error"@[0] == 's',
        "native_identity"@.len() == 15 && "native_identity"@[0] == 'n',
        "startup_timeout"@.len() == 15 && "startup_timeout"@[0] == 's',
        "launch_reasoning"@.len() == 16,
        "storage_recovered"@.len() == 17,
{
    reveal_strlit("id");
    reveal_strlit("fast");
    reveal_strlit("path");
    reveal_strlit("kind");
    reveal_strlit("data");
    reveal_strlit("idle");
    reveal_strlit("text");
    reveal_strlit("error");
    reveal_strlit("state");
    reveal_strlit("start");
    reveal_strlit("input");
    reveal_strlit("empty");
    reveal_strlit("model");
    reveal_strlit("reason");
    reveal_strlit("stderr");
    reveal_strlit("failed");
    reveal_strlit("closed");
    reveal_strlit("legacy");
    reveal_strlit("native");
    reveal_strlit("missing");
    reveal_strlit("waiting");
    reveal_strlit("expired");
    reveal_strlit("limited");
    reveal_strlit("default");
    reveal_strlit("receipt");
    reveal_strlit("command");
    reveal_strlit("working");
    reveal_strlit("sleeping");
    reveal_strlit("resuming");
    reveal_strlit("sequence");
    reveal_strlit("provider");
    reveal_strlit("replaced");
    reveal_strlit("connected");
    reveal_strlit("suspended");
    reveal_strlit("workspace");
    reveal_strlit("reasoning");
    reveal_strlit("request_id");
    reveal_strlit("session_id");
    reveal_strlit("unavailable");
    reveal_strlit("process_lost");
    reveal_strlit("timestamp_ms");
    reveal_strlit("capabilities");
    reveal_strlit("diagnostic_id");
    reveal_strlit("startup_error");
    reveal_strlit("native_identity");
    reveal_strlit("startup_timeout");
    reveal_strlit("launch_reasoning");
    reveal_strlit("storage_recovered");
    assert("id"@.len() == 2);
    assert("fast"@.len() == 4 && "fast"@[0] == 'f');
    assert("path"@.len() == 4 && "path"@[0] == 'p');
    assert("kind"@.len() == 4 && "kind"@[0] == 'k');
    assert("data"@.len() == 4 && "data"@[0] == 'd');
    assert("idle"@.len() == 4 && "idle"@[0] == 'i');
    assert("text"@.len() == 4 && "text"@[0] == 't');
    assert("error"@.len() == 5 && "error"@[1] == 'r' && "error"@[3] == 'o');
    assert("state"@.len() == 5 && "state"@[1] == 't' && "state"@[3] == 't');
    assert("start"@.len() == 5 && "start"@[1] == 't' && "start"@[3] == 'r');
    assert("input"@.len() == 5 && "input"@[1] == 'n' && "input"@[3] == 'u');
    assert("empty"@.len() == 5 && "empty"@[1] == 'm' && "empty"@[3] == 't');
    assert("model"@.len() == 5 && "model"@[1] == 'o' && "model"@[3] == 'e');
    assert("reason"@.len() == 6 && "reason"@[0] == 'r');
    assert("stderr"@.len() == 6 && "stderr"@[0] == 's');
    assert("failed"@.len() == 6 && "failed"@[0] == 'f');
    assert("closed"@.len() == 6 && "closed"@[0] == 'c');
    assert("legacy"@.len() == 6 && "legacy"@[0] == 'l');
    assert("native"@.len() == 6 && "native"@[0] == 'n');
    assert("missing"@.len() == 7 && "missing"@[0] == 'm' && "missing"@[1] == 'i');
    assert("waiting"@.len() == 7 && "waiting"@[0] == 'w' && "waiting"@[1] == 'a');
    assert("expired"@.len() == 7 && "expired"@[0] == 'e' && "expired"@[1] == 'x');
    assert("limited"@.len() == 7 && "limited"@[0] == 'l' && "limited"@[1] == 'i');
    assert("default"@.len() == 7 && "default"@[0] == 'd' && "default"@[1] == 'e');
    assert("receipt"@.len() == 7 && "receipt"@[0] == 'r' && "receipt"@[1] == 'e');
    assert("command"@.len() == 7 && "command"@[0] == 'c' && "command"@[1] == 'o');
    assert("working"@.len() == 7 && "working"@[0] == 'w' && "working"@[1] == 'o');
    assert("sleeping"@.len() == 8 && "sleeping"@[2] == 'e');
    assert("resuming"@.len() == 8 && "resuming"@[2] == 's');
    assert("sequence"@.len() == 8 && "sequence"@[2] == 'q');
    assert("provider"@.len() == 8 && "provider"@[2] == 'o');
    assert("replaced"@.len() == 8 && "replaced"@[2] == 'p');
    assert("connected"@.len() == 9 && "connected"@[0] == 'c');
    assert("suspended"@.len() == 9 && "suspended"@[0] == 's');
    assert("workspace"@.len() == 9 && "workspace"@[0] == 'w');
    assert("reasoning"@.len() == 9 && "reasoning"@[0] == 'r');
    assert("request_id"@.len() == 10 && "request_id"@[0] == 'r');
    assert("session_id"@.len() == 10 && "session_id"@[0] == 's');
    assert("unavailable"@.len() == 11);
    assert("process_lost"@.len() == 12 && "process_lost"@[0] == 'p');
    assert("timestamp_ms"@.len() == 12 && "timestamp_ms"@[0] == 't');
    assert("capabilities"@.len() == 12 && "capabilities"@[0] == 'c');
    assert("diagnostic_id"@.len() == 13 && "diagnostic_id"@[0] == 'd');
    assert("startup_error"@.len() == 13 && "startup_error"@[0] == 's');
    assert("native_identity"@.len() == 15 && "native_identity"@[0] == 'n');
    assert("startup_timeout"@.len() == 15 && "startup_timeout"@[0] == 's');
    assert("launch_reasoning"@.len() == 16);
    assert("storage_recovered"@.len() == 17);
}
/// A request is refused with these words.
pub open spec fn says(out: OutcomeView, words: Seq<char>) -> bool {
    &&& out.notes.len() == 0
    &&& out.next == NextView::Nothing
    &&& out.reply == Err::<ReceiptView, ErrorView>(ErrorView::Conflict(words))
}

// Requests to a session.

/// A session that rewinds, closes or interrupts says what to wait for; one whose process is gone says so.
pub proof fn busy_sessions_say_what_to_wait_for(
    l: LocalView,
    c: Context,
    id: Seq<char>,
    request: Seq<char>,
    input: Data,
)
    requires
        l.sessions.contains_key(id),
        !l.sessions[id].receipts.contains_key(request),
        l.journal.writable,
    ensures
        ({
            let s = l.sessions[id];
            let out = commanded(l, c, id, request, "prompt"@, input);
            &&& c.stopping ==> says(out, "service is stopping"@)
            &&& !c.stopping && s.rewind_request is Some ==> says(out, "wait for the pending rewind"@)
            &&& !c.stopping && s.rewind_request is None && s.close_request is Some ==> says(
                out,
                "wait for the pending close or interrupt"@,
            )
            &&& !c.stopping && s.rewind_request is None && s.close_request is None && s.state
                == "closed"@ && !interrupt_waits(s) ==> says(
                out,
                "process unavailable; history does not restore execution"@,
            )
            &&& !c.stopping && s.rewind_request is None && s.close_request is None && s.state
                == "idle"@ && !interrupt_waits(s) && c.blocked ==> says(
                out,
                "storage unsafe; new execution is blocked"@,
            )
        }),
        !l.journal.writable || (commanded(
            LocalView { journal: super::outbox::JournalView { writable: false, ..l.journal }, ..l },
            c,
            id,
            request,
            "prompt"@,
            input,
        ).reply matches Err(ErrorView::Storage(_))),
{
    session_words();
}

/// A steering or an interrupt that names another turn says so.
pub proof fn other_turns_are_said(
    l: LocalView,
    c: Context,
    id: Seq<char>,
    request: Seq<char>,
    input: Data,
)
    requires
        can_be_asked(l, c, id, request),
        l.sessions[id].state == "working"@,
        l.sessions[id].current_request is None,
        l.sessions[id].harness == Kind::Codex,
        !l.sessions[id].storage_paused,
        input.field("target_request_id"@) is Text,
    ensures
        says(
            commanded(l, c, id, request, "steer"@, input),
            "steer target is no longer the active request"@,
        ),
        says(
            commanded(l, c, id, request, "interrupt"@, input),
            "interrupt target is no longer the active request"@,
        ),
{
    session_words();
    reveal_strlit("working");
    reveal_strlit("closed");
    reveal_strlit("failed");
    reveal_strlit("process_lost");
    reveal_strlit("sleeping");
    assert("working"@.len() == 7 && "closed"@.len() == 6 && "failed"@.len() == 6
        && "process_lost"@.len() == 12 && "sleeping"@.len() == 8);
}

/// A compaction that cannot begin says why.
pub proof fn compactions_say_what_hinders(
    l: LocalView,
    c: Context,
    id: Seq<char>,
    request: Seq<char>,
    input: Data,
)
    requires
        can_be_asked(l, c, id, request),
        l.sessions[id].state == "idle"@,
        !l.sessions[id].capabilities.field("compact"@).is_false(),
    ensures
        ({
            let s = l.sessions[id];
            let out = commanded(l, c, id, request, "compact"@, input);
            &&& s.compacting ==> says(out, "compaction is already running"@)
            &&& !s.compacting && s.current_request is Some ==> says(
                out,
                "context can only be compacted while the thread is idle"@,
            )
            &&& !s.compacting && s.current_request is None && (!s.ready || s.handle is None) ==> says(
                out,
                "harness is not ready for compaction"@,
            )
        }),
        ({
            let t = SessionView {
                capabilities: Data::Object(map!["compact"@ => Data::Bool(false)]),
                ..l.sessions[id]
            };
            says(
                commanded(
                    LocalView { sessions: l.sessions.insert(id, t), ..l },
                    c,
                    id,
                    request,
                    "compact"@,
                    input,
                ),
                "operation is unsupported by this harness"@,
            )
        }),
{
    session_words();
}

/// A change to a waiting message that cannot be made says why.
pub proof fn changes_say_what_hinders(
    l: LocalView,
    c: Context,
    id: Seq<char>,
    request: Seq<char>,
    input: Data,
    target: Seq<char>,
    revision: u64,
)
    requires
        can_be_asked(l, c, id, request),
        l.sessions[id].state == "idle"@,
        input.field("target_request_id"@) == Data::Text(target),
        target.len() > 0,
    ensures
        ({
            let s = l.sessions[id];
            let out = commanded(l, c, id, request, "edit"@, input);
            let known = s.prompts.contains_key(target);
            &&& !s.queue.contains(target) ==> says(out, "queued message is no longer pending"@)
            &&& s.queue.contains(target) && s.current_request == Some(target) ==> says(
                out,
                "queued message is already being sent"@,
            )
            &&& s.queue.contains(target) && s.current_request != Some(target) && known
                && !s.prompts[target].cancelled && input.field("expected_revision"@) == Data::Number(
                Number::Unsigned(revision),
            ) && s.prompts[target].revision != revision ==> says(
                out,
                "queued message changed since editing began"@,
            )
        }),
{
    session_words();
}

// Accounts.

/// A session waits for its account: one that is not connected is to be connected, one that is used up is said
/// to be, and one that could not be checked is said to be that.
pub proof fn accounts_say_what_they_need(state: &'static str, product: Seq<char>)
    ensures
        account_refused(Kind::Codex, Account::Unneeded, product) is None,
        state@ == "connected"@ ==> account_refused(Kind::Codex, Account::State(state), product) is None
            && account_refused(Kind::Cursor, Account::State(state), product) is None,
        state@ == "missing"@ || state@ == "waiting"@ || state@ == "expired"@ || state@ == "error"@
            ==> account_refused(Kind::Codex, Account::State(state), product) == Some(
            "connect Codex before starting cloud work"@,
        ),
        state@ == "limited"@ ==> account_refused(Kind::Codex, Account::State(state), product) == Some(
            "Codex usage limit reached"@,
        ),
        state@ == "unavailable"@ ==> account_refused(Kind::Codex, Account::State(state), product)
            == Some("Codex account could not be verified"@),
        state@ == "unavailable"@ ==> account_refused(Kind::Cursor, Account::State(state), product)
            == Some("Cursor account could not be verified"@),
        state@ == "missing"@ ==> account_refused(Kind::Cursor, Account::State(state), product) == Some(
            "connect Cursor before starting cloud work"@,
        ),
        account_refused(Kind::Claude, Account::Asked(Ok(true)), product) is None,
        account_refused(Kind::Claude, Account::Asked(Ok(false)), product) == Some(
            "connect "@ + product + " Code before starting cloud work"@,
        ),
{
    refusal_words();
}

/// A login is refused while the service stops or storage is unsafe, before any other reason.
pub proof fn logins_say_what_hinders(l: LocalView, blocked: bool, work: Pick, message: Seq<char>)
    ensures
        login_refused(l, true, blocked, work, message) == Some(
            ErrorView::Conflict("service is stopping"@),
        ),
        login_refused(l, false, true, work, message) == Some(
            ErrorView::Conflict("storage unsafe; new execution is blocked"@),
        ),
        login_refused(l, false, false, work, message) == Some(ErrorView::Conflict(message))
            || login_refused(l, false, false, work, message) is None,
{
}

// Starts.

/// A start that is not new is answered by its own receipt, else refused; a new one is taken where the service
/// can record, run and is set up.
pub proof fn starts_say_what_hinders(
    l: LocalView,
    request: Seq<char>,
    input: Data,
    blocked: bool,
    configured: bool,
    receipt: ReceiptView,
)
    requires
        !l.sessions.contains_key(session_name(request)),
    ensures
        !l.journal.writable ==> (early_reply(l, request, input, blocked, configured) matches Some(
            Err(ErrorView::Storage(_)),
        )),
        l.journal.writable ==> early_reply(l, request, input, true, configured) == Some(
            Err::<ReceiptView, ErrorView>(
                ErrorView::Conflict("storage unsafe; new execution is blocked"@),
            ),
        ),
        l.journal.writable ==> early_reply(l, request, input, false, false) == Some(
            Err::<ReceiptView, ErrorView>(ErrorView::Conflict("agent setup is incomplete"@)),
        ),
        l.journal.writable ==> early_reply(l, request, input, false, true) is None,
        receipt.request_id == request ==> says(begun(l, receipt, true, blocked), "service is stopping"@),
        receipt.request_id == request ==> says(
            begun(l, receipt, false, true),
            "storage unsafe; new execution is blocked"@,
        ),
        receipt.request_id == request ==> begun(l, receipt, false, false).reply == Ok::<
            ReceiptView,
            ErrorView,
        >(receipt) && begun(l, receipt, false, false).next == (NextView::Launch { request }),
        saved_reply(Some(Kind::Pi), Kind::Codex, Some(receipt), input) == Err::<ReceiptView, ErrorView>(
            ErrorView::Conflict("request_id already has different content"@),
        ),
        saved_reply(None, Kind::Codex, None, input) == Err::<ReceiptView, ErrorView>(
            ErrorView::Conflict("saved session has no matching receipt"@),
        ),
{
}

/// A start for a session that is there already, under another request, is refused.
pub proof fn sessions_are_started_once(
    l: LocalView,
    request: Seq<char>,
    input: Data,
    blocked: bool,
    configured: bool,
)
    requires
        l.sessions.contains_key(session_name(request)),
        !l.sessions[session_name(request)].receipts.contains_key(request),
    ensures
        early_reply(l, request, input, blocked, configured) == Some(
            Err::<ReceiptView, ErrorView>(ErrorView::Conflict("session already exists"@)),
        ),
{
}

/// What a start asks for must go together.
pub proof fn odd_starts_say_why(start: StartView, kind: Kind, valid_name: bool)
    ensures
        start.provider is Some && kind != Kind::Pi ==> start_refused(start, kind, true, true) == Some(
            "provider selection requires Pi"@,
        ),
        start.provider is None && start.workspace is Some ==> start_refused(
            start,
            kind,
            false,
            valid_name,
        ) == Some("invalid workspace"@),
        start.provider is None && start.workspace_name is Some && start.workspace is None
            ==> start_refused(start, kind, true, true) == Some("invalid workspace"@),
        start.provider is None && start.workspace_name is None ==> start_refused(
            start,
            kind,
            true,
            valid_name,
        ) is None,
{
}

/// A session starts or goes on only where nothing hinders; what is missing is said.
pub proof fn beginnings_say_what_is_missing(s: SessionView)
    requires
        s.close_request is None,
    ensures
        launches(s, true, true) == Err::<bool, FaultView>(other("service is stopping"@)),
        launches(s, false, true) == Ok::<bool, FaultView>(true),
        launches(s, false, false) == Err::<bool, FaultView>(
            other("The selected harness is no longer configured"@),
        ),
        launches(SessionView { close_request: Some("x"@), ..s }, false, true) == Ok::<bool, FaultView>(
            false,
        ),
        continues(s, true, true) == Ok::<bool, FaultView>(false),
        s.native_id is None ==> continues(s, false, true) == Err::<bool, FaultView>(
            other("missing native identity"@),
        ),
        s.native_id is Some && s.native_path is None ==> continues(s, false, true) == Err::<
            bool,
            FaultView,
        >(other("missing native resume state"@)),
        s.native_id is Some && s.native_path is Some ==> continues(s, false, false) == Err::<
            bool,
            FaultView,
        >(other("harness not configured"@)) && continues(s, false, true) == Ok::<bool, FaultView>(true),
{
}

/// A start that failed is told with its stage and its cause.
pub proof fn failed_starts_say_why(s: SessionView, request: Seq<char>, stage: Stage, cause: Seq<char>)
    requires
        s.queue.len() == 0,
        cause != super::lifecycle::stage_words(stage),
    ensures
        ({
            let last = launch_failed(s, request, stage, cause).last();
            &&& last.kind == "state"@
            &&& last.data.field("state"@) == Data::Text("failed"@)
            &&& last.data.field("reason"@) == Data::Text(
                super::lifecycle::stage_words(stage) + ". Cause: "@ + cause,
            )
        }),
{
    refusal_words();
}

/// A resume that failed is told as lost, with a name for its cause: too slow, empty, missing, or another.
pub proof fn failed_resumes_say_why(s: SessionView, fault: FaultView, saved: Saved)
    requires
        s.close_request is None,
    ensures
        relaunch_failed(s, true, fault, saved).len() == 0,
        ({
            let first = relaunch_failed(s, false, fault, saved)[0];
            &&& first.kind == "state"@
            &&& first.data.field("state"@) == Data::Text("process_lost"@)
            &&& fault.kind == FaultKind::TimedOut ==> first.data.field("startup_error"@) == Data::Text(
                "startup_timeout"@,
            )
            &&& fault.kind != FaultKind::TimedOut ==> first.data.field("startup_error"@) != Data::Text(
                "startup_timeout"@,
            )
        }),
        resume_failure(true, "missing"@).0 == "startup_timeout"@,
        resume_failure(false, "empty"@).0 == "empty_session"@,
        resume_failure(false, "missing"@).0 == "missing_history"@,
        resume_failure(false, "unavailable"@).0 == "resume_failed"@,
{
    refusal_words();
    reveal_strlit("resume_failed");
    reveal_strlit("empty_session");
    reveal_strlit("missing_history");
    reveal_strlit("startup_timeout");
    assert("resume_failed"@.len() == 13 && "empty_session"@.len() == 13 && "missing_history"@.len()
        == 15 && "startup_timeout"@.len() == 15);
    assert("missing_history"@[0] == 'm' && "startup_timeout"@[0] == 's');
}

/// A session that goes on is told by the conversation that it goes on with, and comes to rest; one whose
/// harness has gone again says so.
pub proof fn resumes_are_told(s: SessionView, level: Option<Seq<char>>, identity: Data)
    requires
        s.close_request is None,
        s.reasoning is Some,
    ensures
        s.handle is None ==> relaunched(s, false, level, identity).1 == Some(
            other("resumed harness exited"@),
        ),
        s.handle is Some ==> ({
            let (step, fault) = relaunched(s, false, level, identity);
            &&& fault is None
            &&& step.next == (NextView::Advance { turn_ended: true })
            &&& step.notes[0].kind == "native_identity"@ && step.notes[0].data == identity
            &&& step.notes[1].kind == "state"@ && step.notes[1].data.field("state"@) == Data::Text(
                "idle"@,
            )
        }),
{
    refusal_words();
}

/// A session that is opened again is kept for later where it can go on, and lost else; one that has ended or
/// sleeps stays so.
pub proof fn reopened_sessions_are_kept_or_lost(s: SessionView, repository: Seq<char>)
    requires
        s.receipts == Map::<Seq<char>, ReceiptView>::empty(),
        crate::table::in_order(s.receipts).len() == 0,
        super::query::waiting_for(s) is None,
    ensures
        s.state == "closed"@ || s.state == "sleeping"@ ==> reopened(s, repository).len() == 0,
        s.state == "idle"@ && s.native_id is Some && s.native_path is Some && s.close_request is None
            ==> reopened(s, repository).len() == 1 && reopened(s, repository)[0].data.field("state"@)
            == Data::Text("suspended"@),
        s.state == "idle"@ && s.native_id is None && s.startup_error is None ==> reopened(
            s,
            repository,
        ).len() == 1 && reopened(s, repository)[0].data.field("state"@) == Data::Text(
            "process_lost"@,
        ),
{
    refusal_words();
    session_words();
}

// What was lost.

/// How a harness ended is told: by its code, else by its signal.
pub proof fn ends_are_told_in_words(details: ExitView, reason: Seq<char>, n: i32)
    ensures
        details.code is None && details.signal is None ==> exit_words(details) == "no exit status"@,
        details.code == Some(n) ==> exit_words(details) == "exit code "@
            + crate::text::signed_decimal(n as int),
        details.code is None && details.signal == Some(n) ==> exit_words(details) == "signal "@
            + crate::text::signed_decimal(n as int),
        details.cause is None ==> lost_words(reason, details) == reason + " ("@ + exit_words(details)
            + ")"@,
{
}

/// The note of a lost harness tells its state, why, where more is written, and what it wrote last.
pub proof fn lost_harnesses_are_noted(lost: Seq<char>, diagnostic: Seq<char>, stderr: Seq<char>)
    requires
        stderr.len() > 0,
    ensures
        ({
            let n = exit_note("process_lost"@, lost, diagnostic, stderr);
            &&& n.kind == "state"@
            &&& n.data.field("state"@) == Data::Text("process_lost"@)
            &&& n.data.field("reason"@) == Data::Text(lost)
            &&& n.data.field("diagnostic_id"@) == Data::Text(diagnostic)
            &&& n.data.field("stderr"@) == Data::Text(stderr)
        }),
        exit_note("closed"@, lost, diagnostic, stderr).data.field("stderr"@) is Null,
{
    refusal_words();
}

// What is read back.

/// A record is read back whole, and one that lacks a part is none.
pub proof fn records_are_read_whole(value: Data)
    ensures
        record_in(value) matches Some(r) ==> value.field("session_id"@) == Data::Text(r.session_id)
            && value.field("kind"@) == Data::Text(r.kind) && value.get("data"@) == Some(r.data)
            && value.field("sequence"@).as_u64() == Some(r.sequence),
        !(value.field("kind"@) is Text) ==> record_in(value) is None,
        value.get("data"@) is None ==> record_in(value) is None,
{
}

/// What is summed up of a session: its last number, its first conversation, the receipt that was asked for, and
/// its place.
pub proof fn summaries_keep_what_counts(v: SummaryView, r: RecordView, request: Seq<char>, id: Seq<char>)
    ensures
        summary_step(v, r, Some(request)) matches Ok(w) ==> w.last_sequence == r.sequence,
        r.kind == "native_identity"@ && r.data.field("id"@) == Data::Text(id) ==> (summary_step(
            v,
            r,
            Some(request),
        ) matches Ok(w) && w.native_id == (if v.native_id is None {
            Some(id)
        } else {
            v.native_id
        }) && w.workspace == v.workspace && w.harness == v.harness),
        r.kind == "receipt"@ && r.data.field("request_id"@) == Data::Text(request) ==> (summary_step(
            v,
            r,
            Some(request),
        ) matches Ok(w) ==> w.receipt == Some(r.data)),
        r.kind == "receipt"@ && r.data.field("request_id"@) != Data::Text(request) ==> (summary_step(
            v,
            r,
            Some(request),
        ) matches Ok(w) ==> w.receipt == v.receipt),
{
    refusal_words();
}

/// A conversation that is told of must have a name, and may not change unless it was replaced.
pub proof fn conversations_do_not_change_unsaid(s: SessionView, data: Data, id: Seq<char>, old_id: Seq<char>)
    ensures
        !(data.field("id"@) is Text) ==> identity_applied(s, data).1 == Some(
            other("missing native identity"@),
        ),
        data.field("id"@) == Data::Text(id) && s.native_id == Some(old_id) && id != old_id
            && data.field("replaced"@) != Data::Bool(true) ==> identity_applied(s, data).1 == Some(
            other("native identity changed"@),
        ) && identity_applied(s, data).0 == s,
        data.field("id"@) == Data::Text(id) && (s.native_id is None || data.field("replaced"@)
            == Data::Bool(true)) ==> identity_applied(s, data).1 is None && identity_applied(
            s,
            data,
        ).0.native_id == Some(id),
        super::receipt_in(data) is None ==> receipt_applied(s, data).1 == Some(
            other("invalid receipt"@),
        ) && receipt_applied(s, data).0 == s,
{
}

// Transfers.

/// A transfer that cannot be prepared says why, the service's own troubles first.
pub proof fn transfers_say_what_hinders(m: ManifestView, now: Readiness)
    ensures
        now.stopping || !now.recording ==> prepare_refused(m, now) == Some(
            ErrorView::Storage("transfers cannot be recorded now"@),
        ),
        !now.stopping && now.recording && m.harness == Kind::Cursor ==> prepare_refused(m, now) == Some(
            ErrorView::Conflict("Teleport supports Codex and Pi only"@),
        ),
        !now.stopping && now.recording && m.harness == Kind::Pi && !now.configured ==> prepare_refused(
            m,
            now,
        ) == Some(ErrorView::Conflict("harness is not configured"@)),
        !now.stopping && now.recording && m.harness == Kind::Codex && now.configured && m.provider
            is Some ==> prepare_refused(m, now) == Some(
            ErrorView::Conflict("provider selection requires Pi"@),
        ),
        !now.stopping && now.recording && m.harness == Kind::Pi && now.configured && now.blocked
            ==> prepare_refused(m, now) == Some(
            ErrorView::Conflict("storage unsafe; new execution is blocked"@),
        ),
        !now.stopping && now.recording && m.harness == Kind::Pi && now.configured && !now.blocked
            && now.saved ==> prepare_refused(m, now) == Some(
            ErrorView::Conflict("saved transfer requires recovery"@),
        ),
        !now.stopping && now.recording && m.harness == Kind::Pi && now.configured && !now.blocked
            && !now.saved ==> prepare_refused(m, now) is None,
{
}

/// A tier is the usual one, or the fast one of Codex.
pub proof fn tiers_are_checked(levels: Option<Seq<Seq<char>>>, tier: Seq<char>)
    ensures
        settings_refused(Kind::Codex, levels, None, None) is None,
        settings_refused(Kind::Codex, levels, None, Some("fast"@)) is None,
        settings_refused(Kind::Pi, levels, None, Some("fast"@)) == Some(
            ErrorView::Conflict("invalid service tier"@),
        ),
        settings_refused(Kind::Pi, levels, None, Some("default"@)) is None,
        tier != "default"@ && tier != "fast"@ ==> settings_refused(
            Kind::Codex,
            levels,
            None,
            Some(tier),
        ) == Some(ErrorView::Conflict("invalid service tier"@)),
        levels matches Some(all) ==> (!all.contains(tier) ==> settings_refused(
            Kind::Codex,
            levels,
            Some(tier),
            None,
        ) == Some(ErrorView::Conflict("invalid reasoning effort"@))),
{
    refusal_words();
}

/// A part that is refused says why.
pub proof fn parts_say_what_hinders(
    t: TransferView,
    index: int,
    sha256: Seq<char>,
    size: Option<u64>,
    blocked: bool,
    recording: bool,
    configured: bool,
    offset: u64,
    count: usize,
    length: u64,
    whole: u64,
)
    ensures
        t.cancelled ==> upload_refused(t, index, sha256, size, blocked, recording) == Some(
            ErrorView::Conflict("transfer cancelled"@),
        ) && activation_refused(t, configured) == Some(ErrorView::Conflict("transfer cancelled"@)),
        !t.cancelled && blocked ==> upload_refused(t, index, sha256, size, blocked, recording) == Some(
            ErrorView::Storage("transfers cannot be recorded now"@),
        ),
        !t.cancelled && !blocked && recording && index >= t.manifest.files.len() ==> upload_refused(
            t,
            index,
            sha256,
            size,
            blocked,
            recording,
        ) == Some(ErrorView::NotFound),
        !t.cancelled && !blocked && recording && 0 <= index < t.manifest.files.len()
            && t.arrivals[index].digest is Some && t.arrivals[index].digest != Some(sha256)
            ==> upload_refused(t, index, sha256, size, blocked, recording) == Some(
            ErrorView::Conflict("upload checksum changed"@),
        ),
        offset > length ==> piece_for(offset, count, length, whole) == Err::<Piece, ErrorView>(
            ErrorView::Conflict("invalid upload offset"@),
        ),
        offset < length && offset + count > length && offset + count <= whole ==> piece_for(
            offset,
            count,
            length,
            whole,
        ) == Err::<Piece, ErrorView>(ErrorView::Conflict("overlapping upload"@)),
{
}

/// A conversation that is taken over must be free.
pub proof fn takeovers_say_what_hinders(l: LocalView, t: TransferView, stopping: bool, blocked: bool)
    ensures
        stopping || blocked ==> takeover_refused(l, t, stopping, blocked) == Some(
            ErrorView::Storage("transfers cannot be recorded now"@),
        ),
        takeover_refused(l, t, false, false) == Some(
            ErrorView::Conflict("native conversation already belongs to a cloud session"@),
        ) || takeover_refused(l, t, false, false) is None,
{
}

} // verus!
