use cloudroom::fault::{Fault, FaultKind};
use cloudroom::json::{object, Json};
use cloudroom::runtime::{ChildRequest, Event, ExitDetails, Kind, Model};
use cloudroom::session::catalog::{harness_entry, Overview};
use cloudroom::session::children::{note_ending, reply, Delegation, Ending, Said};
use cloudroom::session::command::{Context, Next};
use cloudroom::session::guard::{delivery_note, Level};
use cloudroom::session::lifecycle::{outcome_state, Saved, Stage};
use cloudroom::session::local::Local;
use cloudroom::session::outbox::Journal;
use cloudroom::session::pick::Pick;
use cloudroom::session::query::Note;
use cloudroom::session::start::{saved_start, Start};
use cloudroom::session::{Attached, Error, Receipt, Record, Session, Workspace};
use cloudroom::wire::read_json;

fn json(text: &str) -> Json {
    read_json(text).unwrap()
}

fn calm() -> Context {
    Context {
        stopping: false,
        blocked: false,
        recoverable: true,
        processes: Some(1),
        product: "Maker".to_owned(),
    }
}

fn empty() -> Local {
    Local::new(Journal::open(&Vec::new(), None).unwrap(), "maker")
}

fn append(local: &mut Local, id: &str, kind: &str, data: Json, native: Option<&str>) {
    let record = local.draft(id, kind, data, native.map(str::to_owned), 1000).unwrap();
    local.journal.begin_write().unwrap();
    assert_eq!(local.journal.end_append(), record.sequence);
    local.apply(&record).unwrap();
}

fn append_all(local: &mut Local, id: &str, notes: Vec<Note>) {
    for note in notes {
        let native = note.native.clone();
        append(local, id, &note.kind, note.data, native.as_deref());
    }
}

fn change(local: &mut Local, id: &str, with: impl FnOnce(&mut Session)) {
    let mut session = local.sessions.remove(id).unwrap();
    with(&mut session);
    local.sessions.insert(id, session);
}

fn start() -> Start {
    Start {
        request: "start-1".to_owned(),
        harness: None,
        model: None,
        reasoning: None,
        workspace: None,
        workspace_name: None,
        provider: None,
        command_guard_enabled: None,
    }
}

fn started() -> (Local, String) {
    let mut local = empty();
    let s = start();
    let kind = local.asked_kind(&s, Kind::Codex);
    assert_eq!(kind, Kind::Codex);
    let input = s.input(kind, true, true, "maker").unwrap();
    let workspace = Workspace { id: "w".to_owned(), path: "/w".to_owned(), parent: None };
    let receipt = s.receipt(input, "m", None, workspace);
    let out = local.start(receipt, false, false);
    assert!(out.reply.is_ok());
    let id = s.session_id();
    append_all(&mut local, &id, out.notes);
    (local, id)
}

fn idle() -> (Local, String) {
    let (mut local, id) = started();
    change(&mut local, &id, |s| s.attach(Attached { serial: 1, pid: 42 }));
    let identity = json("{\"id\":\"native\",\"path\":\"/n.jsonl\",\"model\":\"m\"}");
    let (notes, result) = local.sessions.get(&id).unwrap().launched("start-1", None, identity);
    assert!(result.is_ok());
    append_all(&mut local, &id, notes);
    change(&mut local, &id, |s| s.set_ready());
    (local, id)
}

fn text(t: &str) -> Json {
    Json::Object(object().with_text("text", t))
}

fn states(notes: &[Note]) -> Vec<String> {
    notes
        .iter()
        .map(|n| format!("{} {}", n.kind, n.data.field("state").text_or_empty()))
        .collect()
}

fn prompted() -> (Local, String) {
    let (mut local, id) = idle();
    let out = local.command(calm(), &id, "p-1", "prompt", text("x"));
    append_all(&mut local, &id, out.notes);
    (local, id)
}

fn session<'a>(local: &'a Local, id: &str) -> &'a Session {
    local.sessions.get(id).unwrap()
}

#[test]
fn outcomes_have_words() {
    assert_eq!(outcome_state(Ok(()), "delivered"), "delivered");
    assert_eq!(outcome_state(Err(FaultKind::InvalidInput), "delivered"), "failed");
    assert_eq!(outcome_state(Err(FaultKind::TimedOut), "delivered"), "unknown");
}

#[test]
fn refused_prompts_make_room_for_the_next() {
    let (mut local, id) = prompted();
    let out = local.command(calm(), &id, "p-2", "prompt", text("y"));
    append_all(&mut local, &id, out.notes);
    let step = session(&local, &id).delivered("p-1", Ok(()));
    assert_eq!(states(&step.notes), ["receipt delivered"]);
    assert!(matches!(step.next, Next::Nothing));
    change(&mut local, &id, |s| s.explain("p-1", "too long"));
    let step = session(&local, &id).delivered("p-1", Err(FaultKind::InvalidInput));
    assert_eq!(states(&step.notes), ["receipt failed"]);
    assert!(step.notes[0].data.field_is("error", "too long"));
    assert!(matches!(step.next, Next::Advance { turn_ended: true }));
    append_all(&mut local, &id, step.notes);
    let step = session(&local, &id).advance(false, false, true);
    assert_eq!(states(&step.notes), ["state starting_turn"]);
    match step.next {
        Next::Deliver { request } => assert_eq!(request, "p-2"),
        _ => panic!("the next prompt is delivered"),
    }
    assert!(matches!(session(&local, &id).advance(true, false, true).next, Next::Nothing));
    assert!(session(&local, &id).advance(true, false, true).notes.is_empty());
    let step = session(&local, &id).advance(false, true, true);
    assert_eq!(states(&step.notes), ["state idle"]);
}

#[test]
fn finished_turns_are_recorded_and_lead_to_the_next() {
    let (mut local, id) = prompted();
    let started = Event::Started { request: "p-1".to_owned(), native_turn: Some("n".to_owned()) };
    let recorded = session(&local, &id).record_native(started).unwrap();
    assert_eq!(states(&recorded.step.notes), ["state running"]);
    append_all(&mut local, &id, recorded.step.notes);
    assert_eq!(session(&local, &id).current_turn.as_deref(), Some("n"));
    let stale = Event::Started { request: "old".to_owned(), native_turn: None };
    assert!(session(&local, &id).record_native(stale).unwrap().step.notes.is_empty());
    let ended = Event::Finished {
        request: "p-1".to_owned(),
        status: "completed".to_owned(),
        error: None,
    };
    let recorded = session(&local, &id).record_native(ended).unwrap();
    assert!(recorded.usage);
    assert_eq!(states(&recorded.step.notes), ["checkpoint ", "receipt completed"]);
    assert!(recorded.step.notes[0].data.field_is("id", "n"));
    assert!(matches!(recorded.step.next, Next::Advance { turn_ended: true }));
    append_all(&mut local, &id, recorded.step.notes);
    let step = session(&local, &id).advance(false, false, true);
    append_all(&mut local, &id, step.notes);
    assert_eq!(session(&local, &id).state, "idle");
    assert!(session(&local, &id).current_request.is_none());
}

#[test]
fn other_native_requests_settle_too() {
    let (mut local, id) = idle();
    let out = local.command(calm(), &id, "c-1", "compact", Json::Object(object()));
    assert!(matches!(out.next, Next::Compact));
    append_all(&mut local, &id, out.notes);
    assert!(session(&local, &id).compacting);
    assert!(session(&local, &id).explains_compaction("c-1"));
    let step = session(&local, &id).compacted("c-1", Err(FaultKind::InvalidInput));
    assert_eq!(states(&step.notes), ["receipt failed"]);
    assert!(matches!(step.next, Next::Advance { turn_ended: false }));
    assert!(matches!(session(&local, &id).compacted("c-1", Ok(())).next, Next::Nothing));
    let done = Event::Compacted { status: "completed".to_owned() };
    let recorded = session(&local, &id).record_native(done).unwrap();
    assert_eq!(states(&recorded.step.notes), ["receipt completed"]);
    append_all(&mut local, &id, recorded.step.notes);
    assert!(!session(&local, &id).compacting);
    assert!(!session(&local, &id).explains_compaction("c-1"));
    let (local, id) = prompted();
    assert_eq!(states(&session(&local, &id).steered("p-1", Ok(())).notes), ["receipt completed"]);
}

#[test]
fn conversations_are_taken_back_once() {
    let (mut local, id) = idle();
    let input = json("{\"before\":\"n-1\"}");
    let out = local.command(calm(), &id, "w-1", "rewind", input);
    assert!(matches!(out.next, Next::Rewind));
    append_all(&mut local, &id, out.notes);
    let s = session(&local, &id);
    assert!(s.check_rewind("w-1", false).is_ok());
    assert_eq!(s.check_rewind("w-1", true).unwrap_err().message, "rewind ownership changed");
    assert!(s.check_rewind("w-2", false).is_err());
    assert!(s.rewound("w-1", Ok(())).is_empty());
    assert_eq!(
        states(&s.rewound("w-1", Err(FaultKind::InvalidInput))),
        ["receipt failed", "rewind_failed "]
    );
    assert_eq!(states(&s.rewound("w-1", Err(FaultKind::TimedOut))), ["receipt unknown"]);
    let ready = Event::record("rewind_ready", json("{\"id\":\"u\",\"path\":\"/u\",\"cursor\":{\"offset\":0}}"));
    let recorded = s.record_native(ready).unwrap();
    assert_eq!(recorded.step.notes[0].kind, "rewind");
    assert!(recorded.step.notes[0].data.field_is("request_id", "w-1"));
    append_all(&mut local, &id, recorded.step.notes);
    let s = session(&local, &id);
    assert_eq!((s.native_id.as_deref(), s.native_path.as_deref()), (Some("u"), Some("/u")));
    assert!(s.rewind_request.is_none());
}

#[test]
fn usage_of_another_conversation_is_dropped() {
    let (local, id) = idle();
    let s = session(&local, &id);
    assert!(s.usage_note(&json("{\"sessionId\":\"other\"}")).is_none());
    assert_eq!(s.usage_note(&json("{\"sessionId\":\"native\"}")).unwrap().kind, "usage");
    assert!(s.usage_note(&json("{}")).is_some());
}

#[test]
fn failed_starts_are_explained() {
    let (local, id) = started();
    let notes = session(&local, &id).launch_failed("start-1", Stage::Folder, "no disk");
    assert_eq!(states(&notes), ["receipt failed", "state failed"]);
    assert!(notes[1].data.field_is(
        "reason",
        "Cloud folder could not be opened or created; check its permissions, symlinks, and available disk space. Cause: no disk"
    ));
    let gone = "The selected harness is no longer configured";
    let notes = session(&local, &id).launch_failed("start-1", Stage::Configuration, gone);
    assert!(notes[1].data.field_is("reason", gone));
    let notes = session(&local, &id).launch_failed("start-1", Stage::Initialization, "no");
    assert!(notes[1].data.field_is(
        "reason",
        "Harness initialization failed; inspect native history and protected local harness diagnostics for this session. Cause: no"
    ));
}

#[test]
fn restarts_keep_what_is_certain() {
    let (mut local, id) = prompted();
    let out = local.command(calm(), &id, "p-2", "prompt", text("y"));
    append_all(&mut local, &id, out.notes);
    change(&mut local, &id, |s| {
        s.exited("service stopped owned harness", true, true, &ExitDetails::new(), true, "d");
    });
    let notes = session(&local, &id).reopen("/w");
    append_all(&mut local, &id, notes);
    let s = session(&local, &id);
    assert_eq!(s.state, "suspended");
    assert_eq!(s.receipts.get("p-1").unwrap().state, "unknown_after_restart");
    assert_eq!(s.receipts.get("p-2").unwrap().state, "accepted");
    assert_eq!(s.queue, ["p-2"]);
    assert!(s.can_resume());
    let step = s.bring_back(2000);
    assert_eq!(states(&step.notes), ["state resuming"]);
    assert!(matches!(step.next, Next::Relaunch));
    append_all(&mut local, &id, step.notes);
    let fault = Fault { kind: FaultKind::TimedOut, message: "slow".to_owned() };
    let notes = session(&local, &id).relaunch_failed(false, &fault, Saved::Readable);
    assert_eq!(states(&notes), ["state process_lost"]);
    assert!(notes[0].data.field_is("startup_error", "startup_timeout"));
    let fault = Fault { kind: FaultKind::Other, message: "gone".to_owned() };
    let notes = session(&local, &id).relaunch_failed(false, &fault, Saved::Missing);
    assert_eq!(states(&notes), ["state process_lost", "receipt failed"]);
    assert!(notes[0].data.field_is("startup_error", "missing_history"));
    change(&mut local, &id, |s| s.attach(Attached { serial: 2, pid: 43 }));
    let identity = json("{\"id\":\"native\",\"path\":\"/n.jsonl\"}");
    let (step, result) = session(&local, &id).relaunched(false, None, identity);
    assert!(result.is_ok());
    assert_eq!(states(&step.notes), ["native_identity ", "state idle"]);
    assert!(matches!(step.next, Next::Advance { turn_ended: true }));
}

#[test]
fn idle_conversations_sleep_through_a_restart() {
    let (mut local, id) = idle();
    change(&mut local, &id, |s| {
        s.exited("service stopped owned harness", true, true, &ExitDetails::new(), true, "d");
    });
    let notes = session(&local, &id).reopen("/w");
    append_all(&mut local, &id, notes);
    let step = session(&local, &id).bring_back(1000 + 1_800_000);
    assert_eq!(states(&step.notes), ["state sleeping"]);
    assert!(matches!(step.next, Next::Nothing));
    append_all(&mut local, &id, step.notes);
    let out = local.command(calm(), &id, "p-9", "prompt", text("x"));
    assert!(matches!(out.next, Next::Relaunch));
    assert_eq!(states(&out.notes), ["receipt accepted", "state resuming"]);
}

#[test]
fn lost_histories_end_the_conversation() {
    let (local, id) = idle();
    let notes = session(&local, &id).lose_history("no file");
    assert_eq!(states(&notes), ["native_history_unavailable ", "state process_lost"]);
    assert!(notes[0]
        .data
        .field_is("reason", "native history missing, changed or unreadable: no file"));
    assert_eq!(Saved::found(Ok(0)), Saved::Missing);
    assert_eq!(Saved::found(Ok(1)), Saved::Readable);
    assert_eq!(Saved::found(Err(FaultKind::NotFound)), Saved::Missing);
    assert_eq!(Saved::found(Err(FaultKind::PermissionDenied)), Saved::Unreadable);
}

#[test]
fn children_are_started_with_their_task() {
    let (mut local, id) = prompted();
    change(&mut local, &id, |s| s.harness = Kind::Pi);
    let child = ChildRequest {
        request: "p-1".to_owned(),
        id: "k".to_owned(),
        tool_call_id: "c".to_owned(),
        prompt: "do".to_owned(),
    };
    let entries = match local.start_child(&id, &child, false, false).unwrap() {
        Delegation::Started(entries) => entries,
        _ => panic!("the child is started"),
    };
    for entry in entries {
        append(&mut local, &entry.session, &entry.note.kind, entry.note.data, None);
    }
    assert!(matches!(local.start_child(&id, &child, false, false), Ok(Delegation::Known)));
    let s = session(&local, "cr_child_k");
    assert_eq!(s.parent_session.as_deref(), Some(id.as_str()));
    assert_eq!(s.queue, ["task_k"]);
    assert_eq!(s.child_ending("k"), Ending::Open);
    let mut receipt = s.receipts.get("task_k").unwrap().duplicate();
    receipt.state = "completed".to_owned();
    append(&mut local, "cr_child_k", "receipt", receipt.to_json(), None);
    assert_eq!(session(&local, "cr_child_k").child_ending("k"), Ending::Completed);
    let answer = reply("k", Ending::Completed, &Said::Text("done".to_owned()));
    assert!(answer.field_is("id", "k") && answer.field_is("session_id", "cr_child_k"));
    assert_eq!(note_ending(&child, &answer).kind, "child");
    let other = ChildRequest { request: "old".to_owned(), id: "z".to_owned(), ..child };
    assert_eq!(
        local.start_child(&id, &other, false, false).unwrap_err().message(),
        "child requires the current managed parent turn"
    );
    let late = ChildRequest { request: "p-1".to_owned(), ..other };
    assert!(matches!(local.start_child(&id, &late, true, false), Ok(Delegation::Refused(_))));
}

#[test]
fn sessions_are_listed_and_counted() {
    let (local, id) = prompted();
    let list = local.list_sessions();
    assert_eq!(list.field("total").as_u64(), Some(1));
    assert_eq!(list.field("sessions").items().len(), 1);
    let counts = local.agent_counts();
    assert_eq!((counts.working, counts.waiting, counts.sleeping), (1, 0, 0));
    assert_eq!(local.pick(Pick::Attached), [id.clone()]);
    assert!(local.any(Pick::CodexWork) && !local.any(Pick::CursorWork));
    let models = vec![Model { model: "m".to_owned(), reasoning_levels: vec!["low".to_owned()] }];
    assert!(local.check_prompt_reasoning(&id, Some("low"), &models, None).is_ok());
    assert_eq!(
        local.check_prompt_reasoning(&id, Some("high"), &models, None).unwrap_err().message(),
        "invalid reasoning effort"
    );
    assert!(local.check_prompt_reasoning("x", Some("low"), &models, None).is_err());
    assert!(local.check_prompt_reasoning("x", None, &models, None).is_ok());
    assert!(local.check_prompt_service_tier(&id, Some("fast")).is_ok());
    let entry = harness_entry(Kind::Codex, "m", None, Some(&models), "maker");
    assert!(entry.as_object().is_some());
}

#[test]
fn accounts_are_left_alone_while_they_work() {
    let (local, _) = prompted();
    assert_eq!(
        local.check_codex_login(false, false).unwrap_err().message(),
        "finish active Codex work before signing in"
    );
    assert_eq!(local.check_codex_login(true, false).unwrap_err().message(), "service is stopping");
    assert!(local.check_cursor_account("login", false, false).is_ok());
    assert!(local.check_cursor_account("cancel", true, true).is_ok());
    assert_eq!(
        local.check_cursor_account("login", false, true).unwrap_err().message(),
        "storage unsafe; new execution is blocked"
    );
    assert_eq!(local.match_claude_version("1.2.3", false).unwrap_err().message(), "harness is not configured");
    assert_eq!(local.match_claude_version("x", true).unwrap_err().message(), "invalid version");
    assert!(!local.match_claude_version("1.2.3", true).unwrap());
    let (mut local, id) = idle();
    assert!(local.continue_limited(false, false, 7).is_empty());
    change(&mut local, &id, |s| s.usage_limited = true);
    let entries = local.continue_limited(false, false, 7);
    assert_eq!(entries.len(), 1);
    assert!(entries[0].note.data.field_is("request_id", "continue_7"));
    assert!(local.continue_limited(true, false, 7).is_empty());
}

#[test]
fn warnings_are_given_once() {
    let (mut local, id) = idle();
    assert!(local.warnings(Level::Normal, "low").is_empty());
    let due = local.warnings(Level::Warning, "low");
    assert_eq!((due.len(), due[0].note.kind.as_str()), (1, "storage_warning"));
    for entry in due {
        append(&mut local, &entry.session, &entry.note.kind, entry.note.data, None);
    }
    assert!(local.warnings(Level::Warning, "low").is_empty());
    assert!(session(&local, &id).pause_note("low").is_some());
    assert!(!delivery_note(true).kind.is_empty());
    assert_eq!(local.next_upload(), (1, local.journal.last()));
}

#[test]
fn saved_starts_are_answered_as_before() {
    let receipt = Receipt::accepted("start-1", "start", json("{}"));
    let again = saved_start(None, Kind::Codex, Some(receipt.duplicate()), &json("{}")).unwrap();
    assert_eq!(again.request_id, "start-1");
    let words = "request_id already has different content";
    assert_eq!(
        saved_start(Some(Kind::Pi), Kind::Codex, Some(receipt.duplicate()), &json("{}"))
            .unwrap_err()
            .message(),
        words
    );
    assert_eq!(
        saved_start(None, Kind::Codex, Some(receipt), &json("{\"model\":\"x\"}"))
            .unwrap_err()
            .message(),
        words
    );
    assert_eq!(
        saved_start(None, Kind::Codex, None, &json("{}")).unwrap_err().message(),
        "saved session has no matching receipt"
    );
}

#[test]
fn records_are_shown_with_their_frames() {
    let record = Record {
        sequence: 1,
        session_id: "s".to_owned(),
        kind: "native_event".to_owned(),
        timestamp_ms: None,
        data: json("{\"method\":\"m\"}"),
        native: Some("{\"params\":{\"a\":1}}".to_owned()),
    };
    let shown = record.for_client().unwrap();
    assert!(shown.data.field("value").field("a").as_u64() == Some(1));
}

#[test]
fn requests_that_are_not_known_stop_the_work() {
    let (mut local, id) = prompted();
    change(&mut local, &id, |s| {
        s.receipts.remove("p-1");
    });
    let mut notes = Vec::new();
    let lost = session(&local, &id).finish(&mut notes, "p-1", "failed", None);
    assert!(matches!(lost, Err(Error::NotFound)) && notes.is_empty());
    assert!(session(&local, &id).finish(&mut notes, "start-1", "completed", None).is_ok());
    assert!(notes.is_empty());
    let ended = Event::Finished {
        request: "p-1".to_owned(),
        status: "completed".to_owned(),
        error: None,
    };
    let recorded = session(&local, &id).record_native(ended).unwrap();
    assert!(matches!(recorded.step.next, Next::GiveUp));
    let details = ExitDetails::new();
    change(&mut local, &id, |s| {
        let step = s.exited("harness process exited", false, true, &details, false, "d-1");
        assert!(matches!(step.next, Next::GiveUp));
    });
}

#[test]
fn sessions_are_shown_under_their_harness() {
    let (mut local, id) = idle();
    let shown = |local: &Local| {
        let overview = Overview {
            sampled_at: None,
            resources: Json::Null,
            storage: Json::Null,
            stopping: false,
            blocked: false,
            configured: true,
            commit: "c".to_owned(),
            thresholds: None,
            repository: "/w".to_owned(),
            product: "Maker".to_owned(),
        };
        let board = local.dashboard(&overview);
        board.field("sessions").as_array().unwrap()[0].field("title").text_or_empty().to_owned()
    };
    assert_eq!(shown(&local), "Codex session");
    change(&mut local, &id, |s| s.harness = Kind::Claude);
    assert_eq!(shown(&local), "Maker session");
}

#[test]
fn conversations_are_continued_unless_the_service_stops() {
    let (mut local, id) = idle();
    assert_eq!(session(&local, &id).folder().unwrap(), "/w");
    assert!(session(&local, &id).continues(false, true).unwrap());
    assert!(!session(&local, &id).continues(true, true).unwrap());
    assert!(session(&local, &id).launches(false, true).unwrap());
    assert_eq!(
        session(&local, &id).launches(true, true).unwrap_err().message,
        "service is stopping"
    );
    assert_eq!(
        session(&local, &id).launches(false, false).unwrap_err().message,
        "The selected harness is no longer configured"
    );
    assert_eq!(
        session(&local, &id).continues(false, false).unwrap_err().message,
        "harness not configured"
    );
    let fault = Fault::other("x");
    assert!(session(&local, &id).relaunch_failed(true, &fault, Saved::Readable).is_empty());
    let notes = session(&local, &id).relaunch_failed(false, &fault, Saved::Readable);
    assert_eq!(states(&notes), ["state process_lost"]);
    change(&mut local, &id, |s| {
        s.native_path = None;
        s.workspace = None;
    });
    assert_eq!(
        session(&local, &id).continues(false, true).unwrap_err().message,
        "missing native resume state"
    );
    assert_eq!(session(&local, &id).folder().unwrap_err().message, "session workspace missing");
    change(&mut local, &id, |s| s.native_id = None);
    assert_eq!(
        session(&local, &id).continues(false, true).unwrap_err().message,
        "missing native identity"
    );
}

#[test]
fn targets_are_missing_only_where_they_are_needed() {
    let (mut local, id) = idle();
    let none = || Json::Object(object());
    assert!(local.lacks_target(&calm(), &id, "i-1", "interrupt", &none()));
    assert!(!local.lacks_target(&calm(), &id, "i-1", "prompt", &none()));
    assert!(!local.lacks_target(&calm(), "other", "i-1", "interrupt", &none()));
    change(&mut local, &id, |s| s.storage_paused = true);
    assert!(!local.lacks_target(&calm(), &id, "i-1", "interrupt", &none()));
    let out = local.command(calm(), &id, "i-1", "interrupt", none());
    assert_eq!(
        out.reply.unwrap_err().message(),
        "workload is paused for storage; close it or wait for recovery"
    );
}
