use cloudroom::api::{
    accepted, authorized, check_level, check_reached, check_start, check_upload, closes_connection,
    code, cursor, error_answer, key, method_name, plain, ready, rewind, steer, stream_cursor,
    targeted, upload_failed, workspace, Folder, Prompt, UploadFault, Uploading,
};
use cloudroom::json::{object, Json};
use cloudroom::session::{Error, Receipt};
use cloudroom::wire::{read_json, write_json};

fn words(r: Result<(), Error>) -> String {
    match r {
        Ok(()) => String::new(),
        Err(e) => e.message(),
    }
}

fn prompt(text: &str) -> Prompt {
    Prompt {
        request_id: "r-1".to_owned(),
        text: text.to_owned(),
        content: None,
        attachments: None,
        reasoning: None,
        service_tier: None,
    }
}

#[test]
fn tokens_are_compared_whole() {
    assert!(authorized(Some("Bearer secret"), "secret"));
    assert!(!authorized(Some("Bearer secret "), "secret"));
    assert!(!authorized(Some("secret"), "secret"));
    assert!(!authorized(None, "secret"));
    assert_eq!(method_name("GET"), "GET");
    assert_eq!(method_name("DELETE"), "other");
    assert!(closes_connection(true, Some("application/json")));
    assert!(closes_connection(true, None));
    assert!(!closes_connection(true, Some("text/event-stream")));
    assert!(!closes_connection(false, None));
}

#[test]
fn names_of_requests() {
    assert!(key("a-Z_9").is_ok());
    assert!(key(&"a".repeat(64)).is_ok());
    for bad in ["", "a b", "é", &"a".repeat(65)] {
        assert_eq!(
            words(key(bad)),
            "request_id must be 1-64 ASCII letters, digits, underscores or hyphens"
        );
    }
}

#[test]
fn places_in_the_history() {
    assert!(cursor(i64::MAX as u64).is_ok());
    assert_eq!(words(cursor(i64::MAX as u64 + 1)), "invalid replay cursor");
    assert_eq!(stream_cursor(None, 7).unwrap(), 7);
    assert_eq!(stream_cursor(Some(Some("12")), 7).unwrap(), 12);
    assert_eq!(stream_cursor(Some(None), 7).unwrap_err().message(), "invalid Last-Event-ID");
    assert_eq!(stream_cursor(Some(Some("x")), 7).unwrap_err().message(), "invalid Last-Event-ID");
    assert_eq!(
        stream_cursor(Some(Some("18446744073709551615")), 7).unwrap_err().message(),
        "invalid replay cursor"
    );
    assert!(check_reached(4, 4).is_ok());
    assert_eq!(words(check_reached(5, 4)), "cursor exceeds session history");
}

#[test]
fn starts_are_checked_in_order() {
    assert!(check_start("a", Some("p"), Some("m"), Some("high")).is_ok());
    assert_eq!(words(check_start("a", Some("p/q"), Some(""), None)), "invalid provider");
    assert_eq!(words(check_start("a", Some(""), None, None)), "invalid provider");
    assert_eq!(words(check_start("a", None, Some("m\n"), None)), "invalid model");
    assert_eq!(words(check_start("a", None, Some(&"m".repeat(257)), None)), "invalid model");
    assert_eq!(words(check_start("a", None, None, Some("High"))), "invalid reasoning effort");
    assert!(words(check_start("", Some(""), None, None)).starts_with("request_id"));
}

#[test]
fn prompts_have_text_or_files() {
    let mut p = prompt("hello");
    p.reasoning = Some("low".to_owned());
    assert_eq!(
        write_json(&p.prompt().unwrap()),
        "{\"reasoning\":\"low\",\"text\":\"hello\"}"
    );
    let mut empty = prompt("  ");
    assert_eq!(
        empty.prompt_input().unwrap_err().message(),
        "prompt must contain 1-32768 bytes of text"
    );
    empty.attachments = read_json("[]");
    assert!(empty.prompt_input().is_err());
    empty.attachments = read_json("[{\"path\":\"/x\"}]");
    assert_eq!(
        write_json(&empty.prompt_input().unwrap()),
        "{\"attachments\":[{\"path\":\"/x\"}],\"text\":\"  \"}"
    );
    assert!(prompt(&"a".repeat(32768)).prompt().is_ok());
    assert!(prompt(&"a".repeat(32769)).prompt().is_err());
    assert_eq!(
        write_json(&prompt("new").edit("r-0", 3).unwrap()),
        "{\"expected_revision\":3,\"target_request_id\":\"r-0\",\"text\":\"new\"}"
    );
    assert!(prompt("new").edit("", 3).is_err());
}

#[test]
fn known_requests_are_not_looked_at_again() {
    assert!(check_level(true, Some("Odd Level")).is_ok());
    assert_eq!(words(check_level(false, Some("Odd Level"))), "invalid reasoning effort");
    assert!(check_level(false, Some("high")).is_ok());
}

#[test]
fn other_requests() {
    assert_eq!(write_json(&plain("a").unwrap()), "{}");
    assert_eq!(write_json(&targeted("a", "b").unwrap()), "{\"target_request_id\":\"b\"}");
    assert!(targeted("a", "b/c").is_err());
    assert_eq!(
        write_json(&steer("a", "b", "more").unwrap()),
        "{\"target_request_id\":\"b\",\"text\":\"more\"}"
    );
    assert!(steer("a", "b", " ").is_err());
    assert_eq!(
        write_json(&rewind("a", Some("t1"), None, Some(&prompt("again"))).unwrap()),
        "{\"before\":\"t1\",\"replacement\":{\"input\":{\"text\":\"again\"},\"request_id\":\"r-1\"}}"
    );
    assert_eq!(write_json(&rewind("a", None, None, None).unwrap()), "{}");
    assert!(rewind("a", None, None, Some(&prompt(""))).is_err());
}

fn uploading() -> Uploading {
    Uploading { placed: true, mapped: true, recording: true, stopping: false, blocked: false }
}

#[test]
fn files_are_refused_before_they_are_read() {
    let input = object().with_text("name", "a.png").with_text("kind", "image");
    let known = Receipt::accepted("up", "attach", Json::Object(input));
    assert!(check_upload("up", Some(&known), "a.png", "image", uploading()).is_ok());
    assert_eq!(
        words(check_upload("up", Some(&known), "b.png", "image", uploading())),
        "request_id already has different content"
    );
    let unplaced = Uploading { placed: false, ..uploading() };
    assert_eq!(words(check_upload("up", None, "a", "file", unplaced)), "invalid workspace");
    let unmapped = Uploading { mapped: false, ..uploading() };
    assert_eq!(words(check_upload("up", None, "a", "file", unmapped)), "workspace mapping unavailable");
    let deaf = Uploading { recording: false, ..uploading() };
    assert!(matches!(check_upload("up", None, "a", "file", deaf), Err(Error::Storage(_))));
    let full = Uploading { blocked: true, ..uploading() };
    assert_eq!(words(check_upload("up", None, "a", "file", full)), "storage unsafe; uploads are blocked");
    let large = |kind: &str| upload_failed(UploadFault::TooLarge, kind).message();
    assert_eq!(large("image"), "image exceeds the 10 MiB limit");
    assert_eq!(large("file"), "file exceeds the 25 MiB limit");
    assert_eq!(upload_failed(UploadFault::Denied, "file").message(), "Cloud folder permission denied");
    assert_eq!(upload_failed(UploadFault::Other, "file").message(), "attachment upload failed");
}

#[test]
fn errors_have_codes() {
    for (text, expected) in [
        ("invalid model", "invalid_model"),
        ("provider selection requires Pi", "invalid_provider"),
        ("invalid reasoning effort", "invalid_reasoning_effort"),
        ("invalid service tier", "invalid_service_tier"),
        ("Cloud folder permission denied", "attachment_permission_denied"),
        ("attachment upload failed", "invalid_attachment"),
        ("file exceeds the 25 MiB limit", "attachment_too_large"),
        ("session already exists", "request_conflict"),
        ("agent setup is incomplete", "harness_not_configured"),
        ("workspace mapping unavailable", "invalid_workspace"),
        ("storage unsafe; new execution is blocked", "storage_blocked"),
        ("service is stopping", "service_stopping"),
        ("model catalog unavailable", "model_catalog_unavailable"),
        ("anything else", "request_rejected"),
    ] {
        assert_eq!(code(text), expected);
    }
}

#[test]
fn answers_to_requests() {
    let missing = error_answer(&Error::NotFound);
    assert_eq!(missing.status, 404);
    assert_eq!(
        write_json(&missing.body),
        "{\"code\":\"request_rejected\",\"error\":\"session not found\"}"
    );
    assert_eq!(error_answer(&Error::conflict("invalid model")).status, 409);
    let broken = error_answer(&Error::Storage("disk".to_owned()));
    assert_eq!(broken.status, 503);
    assert_eq!(
        broken.body.field_text("error"),
        Some("storage unavailable; retry with the same request_id")
    );
    let taken = accepted("s", &Receipt::accepted("r", "stop", Json::Object(object())), Json::Null);
    assert_eq!(taken.status, 202);
    assert_eq!(
        write_json(&taken.body),
        "{\"receipt\":{\"command\":\"stop\",\"input\":{},\"request_id\":\"r\",\"state\":\"accepted\"},\"saving\":null,\"session_id\":\"s\"}"
    );
    assert_eq!(ready(true).status, 200);
    assert_eq!(ready(false).status, 503);
    assert_eq!(workspace(Folder::Missing).status, 404);
    assert_eq!(workspace(Folder::Unreadable).status, 409);
    assert_eq!(workspace(Folder::Found(Json::Null)).status, 200);
}
