use cloudroom::json::{object, Json};
use cloudroom::runtime::{Kind, Model};
use cloudroom::runtime::product::Product;
use cloudroom::session::accounts::{harness_ready, Account};
use cloudroom::session::catalog::{describe, execution_supported};
use cloudroom::session::guard::{
    resume_note, uploading, warning, Duty, Guard, Level, UploadDeed, UploadEvent,
};
use cloudroom::session::history::{check_database, summarize};
use cloudroom::session::prompt::{reasoning, service_tier, text};
use cloudroom::session::record::page;
use cloudroom::session::state::has_ended;
use cloudroom::session::teleport::{valid_id, validate, Entry, Manifest, QueuedPrompt, Readiness};
use cloudroom::session::transfer::{compare_piece, place_piece, Piece, Transfer};
use cloudroom::session::{Record, Session, Workspace};
use cloudroom::wire::{read_json, write_json};
use cloudroom::{features, version};

fn maker() -> Product {
    Product { name: "Maker".to_owned(), word: "maker".to_owned() }
}

fn json(text: &str) -> Json {
    read_json(text).unwrap()
}

fn digest(c: &str) -> String {
    c.repeat(64)
}

fn manifest() -> Manifest {
    Manifest {
        request_id: "t-1".to_owned(),
        harness: Kind::Codex,
        native_id: "0123abcd-0123-4123-8123-0123456789ab".to_owned(),
        model: "m".to_owned(),
        provider: None,
        reasoning: None,
        service_tier: None,
        command_guard_enabled: None,
        workspace: "w".to_owned(),
        workspace_name: "w".to_owned(),
        files: vec![Entry {
            path: "rollout.jsonl".to_owned(),
            size: 4,
            sha256: digest("a"),
            kind: "native".to_owned(),
            executable: false,
            symlink: false,
            origin: None,
        }],
        handoff: "go on".to_owned(),
        queued: Vec::new(),
    }
}

fn transfer() -> Transfer {
    let workspace = Workspace { id: "w".to_owned(), path: "/w".to_owned(), parent: None };
    Transfer::new(manifest(), workspace)
}

#[test]
fn paused_work_goes_on_when_space_is_back() {
    let mut guard = Guard::new(false);
    assert_eq!(guard.duty(Level::Normal, false), Duty::Nothing);
    assert_eq!(guard.duty(Level::Normal, true), Duty::Resume);
    assert_eq!(guard.duty(Level::Warning, true), Duty::Nothing);
    assert_eq!(guard.duty(Level::Blocked, false), Duty::Pause);
    assert!(guard.paused(true, 100));
    assert!(!guard.paused(true, 101));
    assert!(!guard.paused(false, 1_000_000));
    assert!(guard.paused(true, 30_100));
    assert_eq!(guard.duty(Level::Warning, false), Duty::Resume);
    guard.resumed(false);
    assert_eq!(guard.duty(Level::Normal, false), Duty::Resume);
    guard.resumed(true);
    assert_eq!(guard.duty(Level::Normal, false), Duty::Nothing);
    assert!(warning(Level::Blocked, "low").contains("critically low"));
    assert!(warning(Level::Blocked, "measurement_unavailable").contains("could not be measured"));
    assert_eq!(resume_note(Level::Normal).kind, "storage_recovered");
    assert_eq!(resume_note(Level::Warning).kind, "storage_pause");
}

#[test]
fn uploads_have_no_gaps_and_can_be_repeated() {
    assert_eq!(place_piece(0, 2, 0, 4).unwrap(), Piece::Write);
    assert_eq!(place_piece(0, 2, 2, 4).unwrap(), Piece::Compare);
    assert_eq!(place_piece(3, 1, 2, 4).unwrap_err().message(), "invalid upload offset");
    assert_eq!(place_piece(2, 3, 2, 4).unwrap_err().message(), "invalid upload offset");
    assert_eq!(place_piece(1, 2, 2, 4).unwrap_err().message(), "overlapping upload");
    assert_eq!(place_piece(u64::MAX, 2, 2, 4).unwrap_err().message(), "invalid upload offset");
    assert!(compare_piece(b"ab", b"ab").is_ok());
    assert!(compare_piece(b"ab", b"ac").is_err());
}

#[test]
fn files_of_a_transfer_arrive() {
    let mut t = transfer();
    assert!(!t.all_arrived());
    let first = t.upload(0, &digest("a"), None, false, true).unwrap();
    assert!(first.begun);
    assert_eq!(first.size, 4);
    let again = t.upload(0, &digest("a"), None, false, true).unwrap();
    assert!(!again.begun);
    assert_eq!(
        t.upload(0, &digest("b"), None, false, true).unwrap_err().message(),
        "upload checksum changed"
    );
    assert_eq!(
        t.upload(0, &digest("a"), Some(5), false, true).unwrap_err().message(),
        "invalid upload offset"
    );
    assert_eq!(t.upload(7, &digest("a"), None, false, true).unwrap_err().message(), "session not found");
    t.place(0, "/stored");
    assert!(t.all_arrived());
    assert!(t.upload(0, &digest("a"), None, false, true).unwrap().complete);
}

#[test]
fn cancelled_transfers_take_no_files() {
    let mut t = transfer();
    t.cancel(false).unwrap();
    assert_eq!(
        t.upload(0, &digest("a"), None, false, true).unwrap_err().message(),
        "transfer cancelled"
    );
}

#[test]
fn manifests_are_checked() {
    assert!(validate(&manifest()).is_ok());
    let mut odd = manifest();
    odd.request_id = "a b".to_owned();
    assert_eq!(validate(&odd).unwrap_err().message(), "invalid teleport manifest");
    let mut outside = manifest();
    outside.files[0].path = "../x".to_owned();
    assert_eq!(validate(&outside).unwrap_err().message(), "invalid teleport file");
    assert!(valid_id("a-b_1"));
    assert!(!valid_id(""));
}

#[test]
fn accounts_are_needed() {
    assert!(harness_ready(Kind::Claude, Account::Asked(Ok(true)), &maker()).is_ok());
    assert_eq!(
        harness_ready(Kind::Claude, Account::Asked(Ok(false)), &maker()).unwrap_err().message(),
        "connect Maker Code before starting cloud work"
    );
    assert!(harness_ready(Kind::Pi, Account::Unneeded, &maker()).is_ok());
}

#[test]
fn levels_are_those_of_the_model() {
    let list = vec![Model { model: "m".to_owned(), reasoning_levels: vec!["low".to_owned()] }];
    assert!(execution_supported(Kind::Codex, &list, Some("m"), "low").is_ok());
    assert!(execution_supported(Kind::Codex, &list, Some("m"), "high").is_err());
}

#[test]
fn prompts_say_how_they_are_answered() {
    let input = json("{\"text\":\"x\",\"reasoning\":\"low\",\"service_tier\":\"fast\"}");
    assert_eq!(text(&input), "x");
    assert_eq!(reasoning(&input).as_deref(), Some("low"));
    assert_eq!(service_tier(&input).as_deref(), Some("fast"));
    assert_eq!(reasoning(&json("{\"reasoning\":\"\"}")), None);
    assert!(has_ended("completed"));
    assert!(!has_ended("running"));
}

#[test]
fn saved_sessions_are_summed_up() {
    let record = |sequence: u64, kind: &str, data: &str| Record {
        sequence,
        session_id: "s".to_owned(),
        kind: kind.to_owned(),
        timestamp_ms: None,
        data: json(data),
        native: None,
    };
    let records = vec![
        record(1, "native_identity", "{\"id\":\"n\"}"),
        record(2, "workspace", "{\"id\":\"w\",\"path\":\"/w\"}"),
    ];
    let summary = summarize(&records, None, "maker").unwrap();
    assert_eq!(summary.last_sequence, 2);
    assert_eq!(summary.native_id.as_deref(), Some("n"));
    assert_eq!(summary.workspace.as_ref().unwrap().path, "/w");
    assert!(summary.receipt().unwrap().is_none());
    let session = summary.session("s").unwrap();
    assert_eq!(session.state, "saved_history_only");
    assert!(summarize(&Vec::new(), None, "maker").unwrap().session("s").is_none());
    assert!(check_database(false, "anywhere").is_ok());
    assert!(check_database(true, "localhost").is_ok());
    assert_eq!(
        check_database(true, "anywhere").unwrap_err().message,
        "insecure database access is restricted to loopback tests"
    );
}

#[test]
fn what_the_service_can_do() {
    assert_eq!(version(), "0.1.0");
    let all = features();
    assert_eq!(all.len(), 26);
    assert_eq!(all[0], "stop");
    let told = describe("/repo", Vec::new(), true);
    assert_eq!(told.field_text("repository"), Some("/repo"));
    assert!(told.field("previews").is_true());
    assert!(told.field("session_list").is_true());
}

#[test]
fn idle_sessions_are_counted() {
    let mut s = Session::blank("s", "idle", "maker");
    s.last_activity = Some(100);
    assert_eq!(s.idle_ms(150), 50);
    assert_eq!(s.dashboard_state(), "waiting");
    assert!(!s.busy());
    assert!(!s.has_work());
    assert!(page(&Vec::new(), 0).is_empty());
    assert_eq!(write_json(&Json::Object(object())), "{}");
}

#[test]
fn repeated_transfers_are_known() {
    let t = transfer();
    assert!(t.check_repeated(&manifest()).is_ok());
    let words = "request_id already has different content";
    let mut other = manifest();
    other.handoff = "stop".to_owned();
    assert_eq!(t.check_repeated(&other).unwrap_err().message(), words);
    let mut other = manifest();
    other.files[0].executable = true;
    assert_eq!(t.check_repeated(&other).unwrap_err().message(), words);
    let mut other = manifest();
    other.queued.push(QueuedPrompt::Text("x".to_owned()));
    assert_eq!(t.check_repeated(&other).unwrap_err().message(), words);
    let mut other = manifest();
    other.files.pop();
    assert_eq!(t.check_repeated(&other).unwrap_err().message(), words);
}

#[test]
fn transfers_are_prepared_when_that_is_safe() {
    let calm = Readiness {
        stopping: false,
        recording: true,
        configured: true,
        blocked: false,
        saved: false,
    };
    let message = |m: &Manifest, now: Readiness| match m.check_prepare(now) {
        Ok(()) => String::new(),
        Err(e) => e.message(),
    };
    assert_eq!(message(&manifest(), calm), "");
    assert!(message(&manifest(), Readiness { stopping: true, ..calm }).contains("storage unavailable"));
    assert!(message(&manifest(), Readiness { recording: false, ..calm }).contains("storage unavailable"));
    assert_eq!(message(&manifest(), Readiness { configured: false, ..calm }), "harness is not configured");
    assert_eq!(
        message(&manifest(), Readiness { blocked: true, ..calm }),
        "storage unsafe; new execution is blocked"
    );
    assert_eq!(
        message(&manifest(), Readiness { saved: true, ..calm }),
        "saved transfer requires recovery"
    );
    let mut odd = manifest();
    odd.provider = Some("p".to_owned());
    assert_eq!(message(&odd, calm), "provider selection requires Pi");
    odd.harness = Kind::Cursor;
    assert_eq!(message(&odd, calm), "Teleport supports Codex and Pi only");
    let models = vec![Model { model: "m".to_owned(), reasoning_levels: vec!["low".to_owned()] }];
    assert!(manifest().check_execution(Some(&models)).is_ok());
    let mut level = manifest();
    level.reasoning = Some("high".to_owned());
    assert_eq!(
        level.check_execution(Some(&models)).unwrap_err().message(),
        "invalid reasoning effort"
    );
    level.model = "z".to_owned();
    assert_eq!(level.check_execution(Some(&models)).unwrap_err().message(), "invalid model");
}

#[test]
fn only_what_is_saved_is_acknowledged() {
    let deed = |event| uploading(event);
    assert!(matches!(
        deed(UploadEvent::Read { count: None }),
        UploadDeed::Stop { told: false, operation: "read_pending" }
    ));
    assert!(matches!(deed(UploadEvent::Read { count: Some(0) }), UploadDeed::Rest { told: false }));
    assert!(matches!(deed(UploadEvent::Read { count: Some(3) }), UploadDeed::Send));
    assert!(matches!(deed(UploadEvent::Sent { saved: false }), UploadDeed::Rest { told: true }));
    assert!(matches!(deed(UploadEvent::Sent { saved: true }), UploadDeed::Acknowledge));
    assert!(matches!(
        deed(UploadEvent::Acknowledged { noted: true }),
        UploadDeed::Rest { told: true }
    ));
    assert!(matches!(
        deed(UploadEvent::Acknowledged { noted: false }),
        UploadDeed::Stop { told: true, operation: "acknowledge" }
    ));
}
