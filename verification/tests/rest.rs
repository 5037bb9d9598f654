use cloudroom::fault::{Fault, FaultKind};
use cloudroom::json::{object, Json};
use cloudroom::mac::{Mac, Run};
use cloudroom::preview::Setup;
use cloudroom::runtime::claude_auth::{probe, Credentials, Reason};
use cloudroom::runtime::cursor_models::model_params;
use cloudroom::runtime::is_pi_reasoning_level;
use cloudroom::runtime::linux::holds_line;
use cloudroom::session::local::Local;
use cloudroom::session::outbox::Journal;
use cloudroom::session::Record;
use cloudroom::wire::{read_json, write_json};

fn json(text: &str) -> Json {
    read_json(text).unwrap()
}

#[test]
fn acknowledged_records_are_not_pending() {
    let mut journal = Journal::open(&vec![1, 2, 3], Some("1")).unwrap();
    assert_eq!((journal.last(), journal.saved(), journal.pending()), (3, 1, 2));
    assert_eq!(journal.check_acknowledgement(0).unwrap_err().message, "invalid acknowledgement");
    assert_eq!(journal.check_acknowledgement(4).unwrap_err().message, "invalid acknowledgement");
    journal.check_acknowledgement(3).unwrap();
    journal.begin_write().unwrap();
    assert!(!journal.writable());
    journal.end_acknowledge(3);
    assert!(journal.writable());
    assert_eq!((journal.last(), journal.saved(), journal.pending()), (3, 3, 0));
}

#[test]
fn records_are_replayed_after_a_restart() {
    let text = "{\"sequence\":1,\"session_id\":\"s\",\"kind\":\"receipt\",\"timestamp_ms\":5,\"data\":{\"request_id\":\"r\",\"command\":\"start\",\"input\":{\"harness\":\"codex\"},\"state\":\"accepted\",\"model\":\"m\"}}";
    let record = Record::decode(text).unwrap();
    let again = Record::decode(&record.encode()).unwrap();
    assert!(again.to_json().same(&record.to_json()));
    let mut local = Local::new(Journal::open(&vec![1], None).unwrap(), "maker");
    local.restore(&vec![record]).unwrap();
    assert!(local.sessions.contains("s"));
    assert!(local.sessions.get("s").unwrap().receipts.contains("r"));
}

#[test]
fn the_account_is_judged_by_what_its_check_found() {
    let found = |result: Result<bool, Fault>| {
        let p = probe(&result);
        (p.credentials, p.reason)
    };
    let failed = |kind: FaultKind| Err(Fault { kind, message: "x".to_owned() });
    assert_eq!(found(Ok(true)), (Credentials::Present, Reason::CredentialsPresent));
    assert_eq!(found(Ok(false)), (Credentials::Missing, Reason::CredentialsMissing));
    assert_eq!(found(failed(FaultKind::TimedOut)), (Credentials::CheckFailed, Reason::CheckTimeout));
    assert_eq!(found(failed(FaultKind::Other)), (Credentials::CheckFailed, Reason::CheckFailed));
}

#[test]
fn lines_are_found_whole() {
    assert!(holds_line("populated 1\nfrozen 0\n", "frozen 0"));
    assert!(!holds_line("populated 1\nfrozen 01\n", "frozen 0"));
}

#[test]
fn variants_are_asked_for_by_name() {
    assert_eq!(
        write_json(&model_params("s", "gpt-5")),
        "{\"configId\":\"model\",\"sessionId\":\"s\",\"value\":\"gpt-5\"}"
    );
    for level in ["none", "minimal", "low", "medium", "high", "xhigh"] {
        assert!(is_pi_reasoning_level(level));
    }
    assert!(!is_pi_reasoning_level("max"));
}

#[test]
fn the_address_of_the_machine_is_a_real_one() {
    let mut setup = Setup {
        socket: "/run/s".to_owned(),
        host: None,
        port: 22,
        host_key_file: "/k".to_owned(),
        agent_uid: 7,
    };
    assert_eq!(setup.set_host("0.0.0.0", true, false).unwrap_err().message, "Invalid SSH host");
    assert_eq!(setup.set_host("224.0.0.1", false, true).unwrap_err().message, "Invalid SSH host");
    assert!(setup.host.is_none());
    setup.set_host("10.0.0.1", false, false).unwrap();
    assert_eq!(setup.host.as_deref(), Some("10.0.0.1"));
}

#[test]
fn withdrawn_jobs_are_unknown() {
    let mut mac = Mac::new();
    mac.connect("m1", true).unwrap();
    let run = Run { command: "ls".to_owned(), stdin: String::new(), cwd: None };
    let (id, _, _) = mac.submit(&run, 7, 0).unwrap();
    assert!(mac.result(&id).is_ok());
    mac.withdraw(&id);
    assert_eq!(mac.result(&id).unwrap_err().message, "Unknown or expired Mac job");
}

#[test]
fn fields_of_both_are_merged() {
    let mut fields = object().with_text("a", "1").with_text("b", "1");
    fields.merge(&object().with_text("b", "2").with_text("c", "2"));
    assert_eq!(write_json(&Json::Object(fields)), "{\"a\":\"1\",\"b\":\"2\",\"c\":\"2\"}");
    let object = json("{\"z\":1,\"a\":2}");
    let sorted = object.as_object().unwrap().sorted();
    assert_eq!((sorted.key_at(0), sorted.key_at(1)), ("a", "z"));
}
