use cloudroom::fault::FaultKind;
use cloudroom::json::{object, Json};
use cloudroom::runtime::{Event, ExitDetails, Kind};
use cloudroom::session::children::child_session;
use cloudroom::session::command::{Context, Next};
use cloudroom::session::lifecycle::{Gate, Saved};
use cloudroom::session::local::Local;
use cloudroom::session::outbox::{parse_record_file, record_file, Journal};
use cloudroom::session::query::Note;
use cloudroom::session::record::page;
use cloudroom::session::sleep::{Watch, IDLE_SLEEP_MS};
use cloudroom::session::start::Start;
use cloudroom::session::{Attached, Error, Receipt, Record, Session, Workspace};
use cloudroom::wire::{read_json, write_json};

fn json(text: &str) -> Json {
    read_json(text).unwrap()
}

fn calm() -> Context {
    Context {
        stopping: false,
        blocked: false,
        recoverable: true,
        processes: Some(1),
        product: "Maker".to_owned(),
    }
}

fn empty() -> Local {
    Local::new(Journal::open(&Vec::new(), None).unwrap(), "maker")
}

fn append(local: &mut Local, id: &str, kind: &str, data: Json, native: Option<&str>) {
    let record = local.draft(id, kind, data, native.map(str::to_owned), 1000).unwrap();
    local.journal.begin_write().unwrap();
    assert_eq!(local.journal.end_append(), record.sequence);
    local.apply(&record).unwrap();
}

fn append_all(local: &mut Local, id: &str, notes: Vec<Note>) {
    for note in notes {
        let native = note.native.clone();
        append(local, id, &note.kind, note.data, native.as_deref());
    }
}

fn change(local: &mut Local, id: &str, with: impl FnOnce(&mut Session)) {
    let mut session = local.sessions.remove(id).unwrap();
    with(&mut session);
    local.sessions.insert(id, session);
}

fn start() -> Start {
    Start {
        request: "start-1".to_owned(),
        harness: None,
        model: None,
        reasoning: None,
        workspace: None,
        workspace_name: None,
        provider: None,
        command_guard_enabled: None,
    }
}

fn started() -> (Local, String) {
    let mut local = empty();
    let s = start();
    let kind = local.asked_kind(&s, Kind::Codex);
    assert_eq!(kind, Kind::Codex);
    let input = s.input(kind, true, true, "maker").unwrap();
    let workspace = Workspace { id: "w".to_owned(), path: "/w".to_owned(), parent: None };
    let receipt = s.receipt(input, "m", None, workspace);
    let out = local.start(receipt, false, false);
    assert!(out.reply.is_ok());
    let id = s.session_id();
    append_all(&mut local, &id, out.notes);
    (local, id)
}

fn idle() -> (Local, String) {
    let (mut local, id) = started();
    change(&mut local, &id, |s| s.attach(Attached { serial: 1, pid: 42 }));
    let identity = json("{\"id\":\"native\",\"path\":\"/n.jsonl\",\"model\":\"m\"}");
    let (notes, result) = local.sessions.get(&id).unwrap().launched("start-1", None, identity);
    assert!(result.is_ok());
    append_all(&mut local, &id, notes);
    change(&mut local, &id, |s| s.set_ready());
    (local, id)
}

fn text(t: &str) -> Json {
    Json::Object(object().with_text("text", t))
}

#[test]
fn records_have_files() {
    assert_eq!(record_file(17), "00000000000000000017.record");
    assert_eq!(parse_record_file("00000000000000000017", "00000000000000000017.record").unwrap(), 17);
    assert_eq!(
        parse_record_file("x", "x.record").unwrap_err().message,
        "invalid journal filename"
    );
    assert_eq!(
        parse_record_file("17", "17.record").unwrap_err().message,
        "noncanonical journal filename"
    );
}

#[test]
fn journals_are_complete_or_refused() {
    let j = Journal::open(&vec![2, 1, 3], Some("2")).unwrap();
    assert_eq!((j.last(), j.saved(), j.pending()), (3, 2, 1));
    let message = |ids: &[u64], saved: Option<&str>| match Journal::open(&ids.to_vec(), saved) {
        Ok(_) => String::new(),
        Err(f) => f.message,
    };
    assert_eq!(message(&[1, 3], None), "journal has missing or duplicate records");
    assert_eq!(message(&[1], Some("x")), "invalid saved cursor");
    assert_eq!(message(&[1], Some("2")), "saved cursor exceeds journal");
    assert_eq!(j.read(4).unwrap_err().message, "record outside journal");
    assert!(j.read(3).is_ok());
    assert_eq!(j.check_acknowledgement(1).unwrap_err().message, "invalid acknowledgement");
    assert!(j.check_acknowledgement(3).is_ok());
}

#[test]
fn a_write_that_fails_stops_all_others() {
    let mut j = Journal::open(&Vec::new(), None).unwrap();
    j.begin_write().unwrap();
    assert!(!j.writable());
    assert_eq!(
        j.begin_write().unwrap_err().message,
        "journal requires recovery after a write failure"
    );
}

#[test]
fn saved_records_read_back() {
    let record = Record {
        sequence: 5,
        session_id: "s".to_owned(),
        kind: "state".to_owned(),
        timestamp_ms: Some(9),
        data: json("{\"a\":[1,{\"b\":null}]}"),
        native: Some("line\n\"x\"".to_owned()),
    };
    let text = record.encode();
    assert_eq!(
        text,
        "{\"data\":{\"a\":[1,{\"b\":null}]},\"kind\":\"state\",\"native\":\"line\\n\\\"x\\\"\",\"sequence\":5,\"session_id\":\"s\",\"timestamp_ms\":9}"
    );
    let back = Record::decode(&text).unwrap();
    assert_eq!(back.encode(), text);
    assert_eq!(back.native.as_deref(), Some("line\n\"x\""));
    assert!(Record::decode("{\"sequence\":1}").is_none());
    assert!(Record::decode("nothing").is_none());
}

#[test]
fn pages_go_on_where_the_last_one_ended() {
    let all: Vec<u64> = (1..=600).collect();
    let first = page(&all, 0);
    assert_eq!((first.len(), first[0]), (256, 1));
    let second = page(&all, *first.last().unwrap());
    assert_eq!(second[0], 257);
    assert!(page(&all, 600).is_empty());
}

#[test]
fn sessions_are_started_once() {
    let (local, id) = started();
    assert_eq!(local.sessions.get(&id).unwrap().state, "pending");
    let s = start();
    let input = s.input(Kind::Codex, true, true, "maker").unwrap();
    match local.early_reply("start-1", &input, false, true) {
        Some(Ok(receipt)) => assert_eq!(receipt.request_id, "start-1"),
        _ => panic!("the start is known"),
    }
    let mut other = start();
    other.model = Some("another".to_owned());
    let input = other.input(Kind::Codex, true, true, "maker").unwrap();
    match local.early_reply("start-1", &input, false, true) {
        Some(Err(e)) => assert_eq!(e.message(), "request_id already has different content"),
        _ => panic!("the start differs"),
    }
}

#[test]
fn prompts_are_delivered_when_nothing_runs() {
    let (mut local, id) = idle();
    assert_eq!(local.sessions.get(&id).unwrap().state, "idle");
    let out = local.command(calm(), &id, "p-1", "prompt", text("hello"));
    match &out.next {
        Next::Deliver { request } => assert_eq!(request, "p-1"),
        _ => panic!("the prompt goes out at once"),
    }
    assert_eq!(out.notes[0].kind, "receipt");
    assert_eq!(out.reply.unwrap().state, "accepted");
    append_all(&mut local, &id, out.notes);
    let s = local.sessions.get(&id).unwrap();
    assert_eq!(s.current_request.as_deref(), Some("p-1"));
    assert!(s.queue.is_empty());
}

#[test]
fn further_prompts_wait_in_order() {
    let (mut local, id) = idle();
    for request in ["p-1", "p-2", "p-3"] {
        let out = local.command(calm(), &id, request, "prompt", text(request));
        assert!(out.reply.is_ok());
        append_all(&mut local, &id, out.notes);
    }
    assert_eq!(local.sessions.get(&id).unwrap().queue, ["p-2", "p-3"]);
    let told = Event::Finished {
        request: "p-1".to_owned(),
        status: "completed".to_owned(),
        error: None,
    };
    let recorded = local.sessions.get(&id).unwrap().record_native(told).unwrap();
    assert!(matches!(recorded.step.next, Next::Advance { turn_ended: true }));
    append_all(&mut local, &id, recorded.step.notes);
    let step = local.sessions.get(&id).unwrap().advance(false, false, true);
    match &step.next {
        Next::Deliver { request } => assert_eq!(request, "p-2"),
        _ => panic!("the next prompt goes out"),
    }
    append_all(&mut local, &id, step.notes);
    let s = local.sessions.get(&id).unwrap();
    assert_eq!(s.queue, ["p-3"]);
    assert_eq!(s.receipts.get("p-1").unwrap().state, "completed");
}

#[test]
fn repeated_requests_get_the_same_receipt() {
    let (mut local, id) = idle();
    let out = local.command(calm(), &id, "p-1", "prompt", text("hello"));
    append_all(&mut local, &id, out.notes);
    let again = local.command(calm(), &id, "p-1", "prompt", text("hello"));
    assert!(again.notes.is_empty());
    assert!(matches!(again.next, Next::Nothing));
    assert_eq!(again.reply.unwrap().request_id, "p-1");
    let other = local.command(calm(), &id, "p-1", "prompt", text("bye"));
    assert!(other.notes.is_empty());
    assert_eq!(other.reply.unwrap_err().message(), "request_id already has different content");
}

#[test]
fn requests_that_are_refused_leave_nothing() {
    let (mut local, id) = idle();
    let message = |local: &Local, c: Context, id: &str, command: &str, input: Json| {
        let out = local.command(c, id, "r", command, input);
        assert!(out.notes.is_empty());
        out.reply.unwrap_err().message()
    };
    assert_eq!(message(&local, calm(), "none", "prompt", text("x")), "session not found");
    let stopping = Context { stopping: true, ..calm() };
    assert_eq!(message(&local, stopping, &id, "prompt", text("x")), "service is stopping");
    let blocked = Context { blocked: true, ..calm() };
    assert_eq!(
        message(&local, blocked, &id, "prompt", text("x")),
        "storage unsafe; new execution is blocked"
    );
    assert_eq!(message(&local, calm(), &id, "odd", text("x")), "unsupported command");
    let target = json("{\"target_request_id\":\"none\"}");
    assert_eq!(
        message(&local, calm(), &id, "cancel", target),
        "queued message is no longer pending"
    );
    change(&mut local, &id, |s| s.harness = Kind::Claude);
    let steer = json("{\"target_request_id\":\"none\",\"text\":\"x\"}");
    assert_eq!(
        message(&local, calm(), &id, "steer", steer),
        "Maker live steering is not supported"
    );
    local.journal.begin_write().unwrap();
    assert!(matches!(
        local.command(calm(), &id, "r", "prompt", text("x")).reply,
        Err(Error::Storage(_))
    ));
}

#[test]
fn queued_prompts_can_be_changed_and_cancelled() {
    let (mut local, id) = idle();
    for request in ["p-1", "p-2"] {
        let out = local.command(calm(), &id, request, "prompt", text(request));
        append_all(&mut local, &id, out.notes);
    }
    let edit = json("{\"target_request_id\":\"p-2\",\"expected_revision\":1,\"text\":\"new\"}");
    let out = local.command(calm(), &id, "e-1", "edit", edit);
    assert!(out.reply.is_ok());
    append_all(&mut local, &id, out.notes);
    let state = local.sessions.get(&id).unwrap().prompts.get("p-2").unwrap();
    assert_eq!(state.revision, 2);
    assert_eq!(state.input.field_text("text"), Some("new"));
    let late = json("{\"target_request_id\":\"p-2\",\"expected_revision\":1,\"text\":\"late\"}");
    assert_eq!(
        local.command(calm(), &id, "e-2", "edit", late).reply.unwrap_err().message(),
        "queued message changed since editing began"
    );
    let cancel = json("{\"target_request_id\":\"p-2\"}");
    let out = local.command(calm(), &id, "c-1", "cancel", cancel);
    append_all(&mut local, &id, out.notes);
    let s = local.sessions.get(&id).unwrap();
    assert!(s.queue.is_empty());
    assert!(s.prompts.get("p-2").unwrap().cancelled);
}

#[test]
fn replaying_the_journal_gives_the_same_sessions() {
    let (mut local, id) = idle();
    let mut records = Vec::new();
    let mut copy = empty();
    for request in ["p-1", "p-2"] {
        let out = local.command(calm(), &id, request, "prompt", text(request));
        for note in out.notes {
            let record = local.draft(&id, &note.kind, note.data, note.native, 5).unwrap();
            local.journal.begin_write().unwrap();
            local.journal.end_append();
            local.apply(&record).unwrap();
            records.push(record.encode());
        }
    }
    let mut first = empty();
    append(&mut first, "x", "state", json("{\"state\":\"idle\"}"), None);
    assert_eq!(first.sessions.get("x").unwrap().state, "idle");
    for text in &records {
        let record = Record::decode(text).unwrap();
        copy.apply(&record).unwrap();
    }
    let (a, b) = (copy.sessions.get(&id).unwrap(), local.sessions.get(&id).unwrap());
    assert_eq!(a.queue, b.queue);
    assert_eq!(a.current_request, b.current_request);
    assert_eq!(a.receipts.len(), 2);
}

#[test]
fn lost_processes_are_replaced_once() {
    let (mut local, id) = idle();
    let out = local.command(calm(), &id, "p-1", "prompt", text("x"));
    append_all(&mut local, &id, out.notes);
    let details = ExitDetails::new();
    let mut step = None;
    change(&mut local, &id, |s| {
        step = Some(s.exited("harness process exited", false, true, &details, false, "d-1"));
    });
    let step = step.unwrap();
    assert!(matches!(step.next, Next::Relaunch));
    append_all(&mut local, &id, step.notes);
    let s = local.sessions.get(&id).unwrap();
    assert!(s.handle.is_none());
    assert_eq!(s.receipts.get("p-1").unwrap().state, "unknown_after_restart");
}

#[test]
fn conversations_are_continued_when_that_is_safe() {
    let (local, id) = idle();
    let s = local.sessions.get(&id).unwrap();
    assert_eq!(s.gate(false, false), Gate::Go);
    assert_eq!(s.gate(true, false), Gate::Suspend);
    assert_eq!(s.gate(false, true), Gate::Wait);
    assert_eq!(s.recovery_check(Saved::Readable).0, "ready");
    assert_eq!(s.recovery_check(Saved::Missing).0, "empty");
    assert_eq!(s.recovery_check(Saved::Unreadable).0, "unavailable");
}

#[test]
fn closing_ends_what_is_queued() {
    let (mut local, id) = idle();
    for request in ["p-1", "p-2"] {
        let out = local.command(calm(), &id, request, "prompt", text(request));
        append_all(&mut local, &id, out.notes);
    }
    let out = local.command(calm(), &id, "c-1", "close", json("{}"));
    assert!(matches!(out.next, Next::Close));
    append_all(&mut local, &id, out.notes);
    let s = local.sessions.get(&id).unwrap();
    assert_eq!(s.state, "closing");
    assert_eq!(s.receipts.get("p-2").unwrap().state, "failed");
    assert!(s.queue.is_empty());
    assert_eq!(
        local.command(calm(), &id, "p-3", "prompt", text("x")).reply.unwrap_err().message(),
        "wait for the pending close or interrupt"
    );
}

#[test]
fn native_history_has_no_gaps() {
    let (mut local, id) = idle();
    append(&mut local, &id, "native_record", json("{\"offset\":0}"), Some("{\"a\":1}\n"));
    assert_eq!(local.sessions.get(&id).unwrap().native_offset, 8);
    let gap = local.draft(&id, "native_record", json("{\"offset\":9}"), Some("x".to_owned()), 1);
    assert!(gap.is_err());
    let next = local.draft(&id, "native_record", json("{\"offset\":8}"), Some("x".to_owned()), 1);
    assert!(next.is_ok());
}

#[test]
fn receipts_and_workspaces_read_back() {
    let mut receipt = Receipt::accepted("r", "prompt", text("x"));
    receipt.error = Some("why".to_owned());
    receipt.workspace =
        Some(Workspace { id: "w".to_owned(), path: "/w".to_owned(), parent: Some("/".to_owned()) });
    let back = Receipt::from_json(&receipt.to_json()).unwrap();
    assert_eq!(write_json(&back.to_json()), write_json(&receipt.to_json()));
    assert!(Receipt::from_json(&json("{\"request_id\":\"r\"}")).is_none());
    let listed = Receipt::from_json(&json("[\"r\",\"prompt\",{},\"queued\",\"m\"]")).unwrap();
    assert_eq!((listed.request_id.as_str(), listed.state.as_str()), ("r", "queued"));
    assert_eq!((listed.model.as_deref(), listed.error), (Some("m"), None));
    assert!(Receipt::from_json(&json("[\"r\",\"prompt\",{}]")).is_none());
    let long = json("[\"r\",\"prompt\",{},\"queued\",null,null,null,null,0]");
    assert!(Receipt::from_json(&long).is_none());
}

#[test]
fn errors_are_put_in_words() {
    assert_eq!(Error::NotFound.message(), "session not found");
    assert_eq!(Error::conflict("no").message(), "no");
    assert_eq!(Error::Storage("disk full".to_owned()).message(), "storage unavailable (disk full)");
}

#[test]
fn what_is_saved_is_told() {
    let (local, _) = started();
    let told = local.saving(true);
    assert_eq!(told.field("externally_saved_through").as_u64(), Some(0));
    assert_eq!(told.field("pending_records").as_u64(), told.field("locally_recorded_through").as_u64());
}

#[test]
fn settled_interrupts_let_the_session_go_on() {
    let (mut local, id) = idle();
    let out = local.command(calm(), &id, "p-1", "prompt", text("x"));
    append_all(&mut local, &id, out.notes);
    let input = Json::Object(object().with_text("target_request_id", "p-1"));
    let out = local.command(calm(), &id, "i-1", "interrupt", input);
    assert!(matches!(out.next, Next::Interrupt { .. }));
    append_all(&mut local, &id, out.notes);
    let s = local.sessions.get(&id).unwrap();
    for (result, state, goes_on) in [
        (Ok(()), "completed", true),
        (Err(FaultKind::InvalidInput), "failed", true),
        (Err(FaultKind::TimedOut), "unknown", false),
    ] {
        let step = s.interrupted("i-1", result);
        assert_eq!(step.notes.len(), 1);
        assert!(step.notes[0].data.field_is("state", state));
        assert_eq!(matches!(step.next, Next::Advance { turn_ended: false }), goes_on);
    }
}

#[test]
fn only_the_held_process_counts() {
    let (local, id) = idle();
    let s = local.sessions.get(&id).unwrap();
    assert!(s.holds(1));
    assert!(!s.holds(2));
    let (local, id) = started();
    assert!(!local.sessions.get(&id).unwrap().holds(1));
}

#[test]
fn waiting_sessions_are_left_for_the_next_start() {
    let (mut local, id) = idle();
    assert!(local.leave_waiting().is_empty());
    let details = ExitDetails::new();
    change(&mut local, &id, |s| {
        s.exited("harness process exited", false, true, &details, false, "d-1");
    });
    append(&mut local, &id, "state", json("{\"state\":\"resuming\"}"), None);
    let left = local.leave_waiting();
    assert_eq!(left.len(), 1);
    assert_eq!(left[0].session, id);
    assert_eq!(left[0].note.kind, "state");
    assert!(left[0].note.data.field_is("state", "suspended"));
}

#[test]
fn idle_harnesses_are_let_go() {
    let (mut local, id) = idle();
    assert_eq!(local.watch(&id, 1000, Some(1)), Watch::Remember);
    change(&mut local, &id, |s| s.awaken(1000, Some(1)));
    assert_eq!(local.watch(&id, 2000, Some(1)), Watch::Leave);
    let late = 1000 + IDLE_SLEEP_MS;
    assert_eq!(local.watch(&id, late - 1, Some(1)), Watch::Leave);
    assert_eq!(local.watch(&id, late, Some(1)), Watch::Release);
    assert_eq!(local.watch(&id, late, Some(2)), Watch::Leave);
    assert_eq!(local.watch("cr_other", late, Some(1)), Watch::Leave);
    let out = local.command(calm(), &id, "p-1", "prompt", text("x"));
    append_all(&mut local, &id, out.notes);
    assert_eq!(local.watch(&id, late * 2, Some(1)), Watch::Leave);
}

#[test]
fn children_have_sessions_of_their_own() {
    assert_eq!(child_session("k1"), "cr_child_k1");
}

#[test]
fn numbers_are_compared_by_value() {
    let (mut local, id) = idle();
    let out = local.command(calm(), &id, "p-1", "prompt", json("{\"text\":\"x\",\"n\":0.0}"));
    append_all(&mut local, &id, out.notes);
    let again = local.command(calm(), &id, "p-1", "prompt", json("{\"text\":\"x\",\"n\":-0.0}"));
    assert_eq!(again.reply.unwrap().request_id, "p-1");
    let other = local.command(calm(), &id, "p-1", "prompt", json("{\"text\":\"x\",\"n\":0}"));
    assert!(other.reply.is_err());
}

#[test]
fn records_are_appended_behind_the_others() {
    let mut j = Journal::open(&vec![1, 2], Some("1")).unwrap();
    j.begin_write().unwrap();
    assert_eq!(j.end_append(), 3);
    assert_eq!((j.last(), j.saved(), j.pending()), (3, 1, 2));
    assert!(j.read(3).is_ok() && j.read(4).is_err());
    assert!(j.writable());
}
