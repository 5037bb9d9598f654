use cloudroom::mac::cli::{
    finished, parse, pull_command, push_command, read_response, run_body, Ask,
};
use cloudroom::mac::{hex, local_auth, quote, ran, unhex, validate, Kept, Mac, Report, Run, Waiting};
use cloudroom::wire::{read_json, write_json};

fn run(command: &str, stdin: &str) -> Run {
    Run { command: command.to_owned(), stdin: stdin.to_owned(), cwd: None }
}

fn report(device: &str, state: &str) -> Report {
    Report {
        device: device.to_owned(),
        state: state.to_owned(),
        code: Some(0),
        stdout: "6f6b".to_owned(),
        stderr: String::new(),
        truncated: false,
    }
}

fn owned(texts: &[&str]) -> Vec<String> {
    texts.iter().map(|t| t.to_string()).collect()
}

#[test]
fn digits_stand_for_bytes() {
    assert_eq!(hex(&[0, 15, 255]), "000fff");
    assert_eq!(unhex("000FfF"), Some(vec![0, 15, 255]));
    assert_eq!(unhex("+f"), Some(vec![15]));
    assert_eq!(unhex("f"), None);
    assert_eq!(unhex("zz"), None);
    assert_eq!(unhex("é"), None);
    let all: Vec<u8> = (0..=255).collect();
    assert_eq!(unhex(&hex(&all)), Some(all));
}

#[test]
fn commands_are_checked() {
    assert_eq!(validate(&run("ls", "6869")).unwrap(), b"hi");
    let message = |r: &Run| validate(r).unwrap_err().message;
    assert_eq!(message(&run("  ", "")), "command must contain 1-65536 bytes");
    assert_eq!(message(&run("a\0", "")), "command must contain 1-65536 bytes");
    assert_eq!(message(&run("ls", "abc")), "stdin must be hex");
    let mut odd = run("ls", "");
    odd.cwd = Some(String::new());
    assert_eq!(message(&odd), "invalid folder");
}

#[test]
fn jobs_go_to_the_connected_machine() {
    let mut mac = Mac::new();
    assert_eq!(mac.submit(&run("ls", ""), 7, 0).unwrap_err().status, 409);
    assert_eq!(mac.connect("m1", false).unwrap_err().status, 403);
    let generation = mac.connect("m1", true).unwrap();
    let (id, held, job) = mac.submit(&run("ls", ""), 7, 0).unwrap();
    assert_eq!(held, generation);
    assert_eq!(job.field_text("id"), Some(id.as_str()));
    assert!(id.starts_with("7-"));
    assert!(matches!(mac.wait(&id, generation, 0), Waiting::Still));
    assert_eq!(mac.report(&id, &report("m2", "done"), 5).unwrap_err().status, 404);
    assert_eq!(mac.report(&id, &report("m1", "odd"), 5).unwrap_err().message, "Invalid Mac job report");
    mac.report(&id, &report("m1", "running"), 5).unwrap();
    assert_eq!(mac.result(&id).unwrap().field_text("state"), Some("running"));
    mac.report(&id, &report("m1", "done"), 6).unwrap();
    match mac.wait(&id, generation, 1) {
        Waiting::Ended(result) => {
            assert_eq!(result.field_text("stdout"), Some("6f6b"));
            assert_eq!(result.field_text("job"), Some(id.as_str()));
        }
        _ => panic!("the job has ended"),
    }
    mac.disconnect(generation);
    assert_eq!(mac.result(&id).unwrap().field_text("state"), Some("done"));
    assert_eq!(mac.result("other").unwrap_err().message, "Unknown or expired Mac job");
}

#[test]
fn jobs_of_a_lost_machine() {
    let mut mac = Mac::new();
    let generation = mac.connect("m1", true).unwrap();
    let (first, _, _) = mac.submit(&run("ls", ""), 7, 0).unwrap();
    let (second, _, _) = mac.submit(&run("ls", ""), 7, 0).unwrap();
    assert_ne!(first, second);
    mac.report(&second, &report("m1", "running"), 0).unwrap();
    mac.disconnect(generation);
    assert!(matches!(mac.wait(&first, generation, 0), Waiting::Gone));
    match mac.wait(&second, generation, 0) {
        Waiting::Lost(told) => assert_eq!(told.field_text("state"), Some("unknown")),
        _ => panic!("the machine is gone"),
    }
    assert!(mac.result(&first).is_err());
}

#[test]
fn only_agents_use_the_machine() {
    assert!(local_auth(Some(1), Some(1)).is_ok());
    assert_eq!(local_auth(Some(1), Some(2)).unwrap_err().status, 403);
    assert_eq!(local_auth(None, Some(2)).unwrap_err().status, 403);
}

#[test]
fn output_is_kept_up_to_a_limit() {
    let mut out = Kept::new();
    out.add_bytes(b"hi");
    let shown = ran(Some(3), &out, &Kept::new());
    assert_eq!(
        write_json(&shown),
        "{\"code\":3,\"stderr\":\"\",\"stdout\":\"6869\",\"truncated\":false}"
    );
    let mut full = Kept::new();
    full.add_bytes(&vec![0u8; 16 * 1024 * 1024 + 1]);
    assert!(full.truncated);
    assert_eq!(full.bytes.len(), 16 * 1024 * 1024);
    assert!(ran(None, &full, &out).field("truncated").is_true());
}

#[test]
fn paths_are_quoted_for_a_shell() {
    assert_eq!(quote("a b"), "'a b'");
    assert_eq!(quote("it's"), "'it'\\''s'");
    assert_eq!(quote("~"), "\"$HOME\"");
    assert!(quote("~/a b").starts_with("\"$HOME\"/"));
}

#[test]
fn machine_commands_are_read() {
    assert!(matches!(parse(&owned(&["status"])).1, Ask::Status));
    match parse(&owned(&["result", "7-1"])).1 {
        Ask::Result { job } => assert_eq!(job, "7-1"),
        _ => panic!("a result is asked for"),
    }
    assert!(matches!(parse(&owned(&[])).1, Ask::Usage { .. }));
    let body = run_body("ls", b"hi", None);
    assert_eq!(body.field_text("stdin"), Some("6869"));
    assert!(pull_command("/a").contains("'/a'"));
    assert!(push_command("/a").contains("'/a'"));
}

#[test]
fn answers_about_jobs_are_read() {
    let done = read_json("{\"state\":\"done\",\"code\":2,\"stdout\":\"6869\",\"stderr\":\"\",\"truncated\":true}").unwrap();
    let f = finished(&done).unwrap();
    assert_eq!((f.code, f.stdout, f.truncated), (Some(2), b"hi".to_vec(), true));
    assert!(read_response(b"HTTP/1.1 200 OK\r\n\r\n{\"a\":1}").unwrap().field("a").as_u64() == Some(1));
    assert_eq!(read_response(b"nothing").unwrap_err().message, "invalid Mac access response");
    assert_eq!(
        read_response(b"\r\n\r\nx").unwrap_err().message,
        "expected value at line 1 column 1"
    );
}
