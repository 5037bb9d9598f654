use cloudroom::json::Json;
use cloudroom::runtime::Kind;
use cloudroom::session::local::Local;
use cloudroom::session::outbox::Journal;
use cloudroom::session::query::Note;
use cloudroom::session::teleport::{Entry, Manifest, QueuedPrompt};
use cloudroom::session::transfer::Transfer;
use cloudroom::session::Workspace;
use cloudroom::wire::{read_json, write_json};

const NATIVE: &str = "0123abcd-0123-4123-8123-0123456789ab";

fn json(text: &str) -> Json {
    read_json(text).unwrap()
}

fn entry(path: &str, kind: &str, origin: Option<&str>) -> Entry {
    Entry {
        path: path.to_owned(),
        size: 4,
        sha256: "a".repeat(64),
        kind: kind.to_owned(),
        executable: false,
        symlink: false,
        origin: origin.map(str::to_owned),
    }
}

fn transfer() -> Transfer {
    let manifest = Manifest {
        request_id: "t-1".to_owned(),
        harness: Kind::Codex,
        native_id: NATIVE.to_owned(),
        model: "m".to_owned(),
        provider: None,
        reasoning: Some("high".to_owned()),
        service_tier: None,
        command_guard_enabled: Some(true),
        workspace: "w".to_owned(),
        workspace_name: "w".to_owned(),
        files: vec![
            entry("src/a.rs", "project", Some("/mac/a.rs")),
            entry("rollout.jsonl", "native", None),
            entry("child.jsonl", "context", None),
        ],
        handoff: "go on".to_owned(),
        queued: vec![QueuedPrompt::Text("and then".to_owned())],
    };
    let workspace = Workspace { id: "w".to_owned(), path: "/w".to_owned(), parent: None };
    Transfer::new(manifest, workspace)
}

fn append(local: &mut Local, id: &str, note: Note) {
    let record = local.draft(id, &note.kind, note.data, note.native, 1000).unwrap();
    local.journal.begin_write().unwrap();
    assert_eq!(local.journal.end_append(), record.sequence);
    local.apply(&record).unwrap();
}

fn moved() -> (Local, Transfer, String) {
    let mut local = Local::new(Journal::open(&Vec::new(), None).unwrap(), "maker");
    let mut t = transfer();
    t.place(1, "/stored/rollout.jsonl");
    t.place(2, "/stored/child.jsonl");
    let id = "session_t-1".to_owned();
    let note = t.activate("/w/files.json", "/stored/rollout.jsonl", "maker");
    append(&mut local, &id, note);
    (local, t, id)
}

#[test]
fn transfers_wait_for_the_text_of_the_session() {
    let mut t = transfer();
    assert_eq!(t.check_activation(true).unwrap_err().message(), "session text is still uploading");
    t.place(1, "/stored/rollout.jsonl");
    assert_eq!(t.check_activation(true).unwrap_err().message(), "session text is still uploading");
    t.place(2, "/stored/child.jsonl");
    assert!(t.check_activation(true).is_ok());
    assert_eq!(t.check_activation(false).unwrap_err().message(), "harness is not configured");
    assert_eq!(t.native_index(), Some(1));
    assert!(t.has_extras());
    assert!(!t.all_arrived());
    t.cancelled = true;
    assert_eq!(t.check_activation(true).unwrap_err().message(), "transfer cancelled");
}

#[test]
fn the_index_names_all_but_the_conversation() {
    let t = transfer();
    let places = vec!["/w/src/a.rs".to_owned(), "/n".to_owned(), "/w/c".to_owned()];
    let index = t.index(&places);
    assert_eq!(index.len(), 2);
    assert!(index[0].same(&json(
        "{\"source\":\"/mac/a.rs\",\"kind\":\"project\",\"symlink\":false,\"path\":\"/w/src/a.rs\",\"size_hint\":4}"
    )));
    assert!(index[1].field_is("source", "child.jsonl"));
    assert!(index[1].field_is("path", "/w/c"));
}

#[test]
fn conversations_move_with_all_that_waits() {
    let (local, t, id) = moved();
    let session = local.sessions.get(&id).unwrap();
    assert_eq!(session.native_id.as_deref(), Some(NATIVE));
    assert_eq!(session.native_path.as_deref(), Some("/stored/rollout.jsonl"));
    assert_eq!(session.queue, ["teleport_t-1_0", "teleport_t-1_1"]);
    let first = session.receipts.get("teleport_t-1_0").unwrap();
    let text = first.input.field("text").text_or_empty();
    assert!(text.starts_with("[Teleport handoff]\ngo on\n\nCloud workspace: /w\n"));
    assert!(text.contains("Full file index: /w/files.json. Child context"));
    assert!(first.input.field_is("reasoning", "high"));
    assert!(first.input.field("teleport_handoff").is_true());
    let second = session.receipts.get("teleport_t-1_1").unwrap();
    assert!(second.input.field_is("text", "and then"));
    assert!(!second.input.field("teleport_handoff").is_true());
    assert_eq!(
        local.check_takeover(&t, false, false).unwrap_err().message(),
        "native conversation already belongs to a cloud session"
    );
    assert!(local.check_takeover(&t, true, false).is_err());
    let empty = Local::new(Journal::open(&Vec::new(), None).unwrap(), "maker");
    assert!(empty.check_takeover(&t, false, false).is_ok());
    assert!(empty.check_takeover(&t, false, true).is_err());
}

#[test]
fn the_arrival_of_files_is_told_once() {
    let (mut local, mut t, id) = moved();
    assert!(t.files_ready(None).unwrap().is_none());
    assert!(t.files_ready(local.sessions.get(&id)).unwrap().is_none());
    t.place(0, "/w/src/a.rs");
    assert!(t.files_ready(None).unwrap().is_none());
    let note = t.files_ready(local.sessions.get(&id)).unwrap().unwrap();
    assert_eq!(note.kind, "receipt");
    assert!(write_json(&note.data).contains("teleport_ready_t-1"));
    append(&mut local, &id, note);
    assert_eq!(local.sessions.get(&id).unwrap().queue.len(), 3);
    assert!(t.files_ready(local.sessions.get(&id)).unwrap().is_none());
}

#[test]
fn stopped_transfers_can_be_tried_again() {
    let (mut local, t, id) = moved();
    assert!(t.retry(local.sessions.get(&id).unwrap(), "r").unwrap().is_none());
    let mut session = local.sessions.remove(&id).unwrap();
    session.queue_paused = true;
    let retry = t.retry(&session, "r").unwrap().unwrap();
    assert_eq!(retry.resume.as_deref(), Some("teleport_resume_r"));
    assert_eq!(retry.request, "teleport_retry_r");
    let text = retry.input.field("text").text_or_empty();
    assert!(text.starts_with("[Explicit Teleport retry] "));
    assert!(text.contains("\n\n[Teleport handoff]\ngo on"));
    session.teleport_output = true;
    assert!(t.retry(&session, "r").unwrap().is_none());
}
