use cloudroom::json::Json;
use cloudroom::runtime::cursor::{
    check_initialized, check_metadata, compose, read_metadata, initialize_params, offers_model, opening,
    option_value, prompt, snapshot_record, Flavor, Protocol,
};
use cloudroom::runtime::{Event, Progress};
use cloudroom::wire::{read_json, write_json};

const CHAT: &str = "11111111-2222-3333-4444-555555555555";

fn json(text: &str) -> Json {
    read_json(text).unwrap()
}

fn is(value: &Json, text: &str) -> bool {
    value.same(&json(text))
}

fn told(events: &[Event]) -> Vec<String> {
    events
        .iter()
        .map(|event| match event {
            Event::Record { kind, data, native } => {
                format!("{kind} {} {}", write_json(data), native.as_deref().unwrap_or("-"))
            }
            Event::Started { request, .. } => format!("started {request}"),
            Event::Finished { request, status, .. } => format!("finished {request} {status}"),
            _ => "other".to_owned(),
        })
        .collect()
}

fn receive(p: &mut Protocol, state: &mut Progress, text: &str) -> Vec<String> {
    told(&p.receive(&json(text), "raw".to_owned(), state).unwrap())
}

fn place() -> String {
    format!("/home/chats/{}/{CHAT}/meta.json", "0123456789abcdef".repeat(2))
}

fn opened() -> (Protocol, Progress) {
    let mut p = Protocol::new(Flavor::Cursor, "/home", None);
    let mut state = Progress::new();
    p.encode(1, "session/new", json("{}"), None);
    let answer = format!("{{\"id\":1,\"result\":{{\"sessionId\":\"{CHAT}\",\"path\":\"{}\"}}}}", place());
    let events = receive(&mut p, &mut state, &answer);
    assert_eq!(events, [format!("native_identity {{\"id\":\"{CHAT}\",\"path\":\"{}\"}} raw", place())]);
    assert_eq!(state.native.as_deref(), Some(CHAT));
    (p, state)
}

fn update(inner: &str) -> String {
    format!("{{\"method\":\"session/update\",\"params\":{{\"sessionId\":\"{CHAT}\",\"update\":{inner}}}}}")
}

#[test]
fn the_agent_is_introduced() {
    let params = initialize_params();
    assert!(params.field("clientInfo").field_is("name", "cloudroom"));
    assert_eq!(params.field("protocolVersion").as_u64(), Some(1));
    let good = json("{\"protocolVersion\":1,\"agentCapabilities\":{\"loadSession\":true}}");
    assert!(check_initialized(Flavor::Cursor, &good).is_ok());
    assert_eq!(
        check_initialized(Flavor::Cursor, &json("{}")).unwrap_err().message,
        "Cursor ACP session loading is unavailable"
    );
    let (method, params) = opening("/w", None);
    assert_eq!(method, "session/new");
    assert!(is(&params, "{\"cwd\":\"/w\",\"mcpServers\":[]}"));
    let (method, params) = opening("/w", Some("s"));
    assert_eq!(method, "session/load");
    assert!(params.field_is("sessionId", "s"));
}

#[test]
fn options_and_prompts_are_read() {
    let state = json("{\"configOptions\":[{\"id\":\"mode\",\"currentValue\":\"a\"},{\"id\":\"model\",\"currentValue\":\"m\"}]}");
    assert_eq!(option_value(&state, "model"), Some("m"));
    assert_eq!(option_value(&state, "other"), None);
    let session = json("{\"configOptions\":[{\"id\":\"model\",\"options\":[{\"value\":\"m\"}]}]}");
    assert!(offers_model(&session, "m") && !offers_model(&session, "z"));
    let text = compose(&json("{\"text\":\"x\",\"attachments\":[{\"path\":\"/f\"},{}]}"));
    assert!(text.ends_with("x\n[Attached file: /f]"));
    assert!(is(
        &prompt("s", "x"),
        "{\"sessionId\":\"s\",\"prompt\":[{\"type\":\"text\",\"text\":\"x\"}]}"
    ));
    assert!(check_metadata(&json("{\"schemaVersion\":1,\"cwd\":\"/w\"}")).is_ok());
    assert!(check_metadata(&json("{\"schemaVersion\":2,\"cwd\":\"/w\"}")).is_err());
}

#[test]
fn snapshots_become_records() {
    let line = "{\"record\":\"text\",\"snapshot\":\"s\",\"index\":0,\"complete\":true}";
    assert_eq!(
        told(&[snapshot_record(line).unwrap()]),
        ["native_record {\"complete\":true,\"harness\":\"cursor\",\"index\":0,\"snapshot\":\"s\"} text\n"]
    );
    assert_eq!(snapshot_record("{}").unwrap_err().message, "Invalid Cursor snapshot");
    assert_eq!(snapshot_record("x").unwrap_err().message, "expected value at line 1 column 1");
    assert!(read_metadata(b"{\"schemaVersion\":1,\"cwd\":\"/w\"}").is_ok());
    assert_eq!(
        read_metadata(b"{\"schemaVersion\":1}").unwrap_err().message,
        "Unsupported Cursor native metadata"
    );
    assert!(read_metadata(b"\xff").is_err());
}

#[test]
fn turns_of_the_agent_end_after_their_history() {
    let (mut p, mut state) = opened();
    state.ask("r");
    let sent = p.encode(2, "session/prompt", json("{\"a\":1}"), Some("r"));
    assert!(is(&sent, "{\"jsonrpc\":\"2.0\",\"id\":2,\"method\":\"session/prompt\",\"params\":{\"a\":1}}"));
    let chunk = update("{\"sessionUpdate\":\"agent_message_chunk\",\"content\":{\"text\":\"ab\"}}");
    assert_eq!(
        receive(&mut p, &mut state, &chunk),
        [
            "started r",
            "item_started {\"harness\":\"cursor\",\"item_id\":\"cursor:0:agentMessage\",\"item_type\":\"agentMessage\",\"request_id\":\"r\"} raw",
            "text_delta {\"delta\":\"ab\",\"harness\":\"cursor\",\"item_id\":\"cursor:0:agentMessage\",\"request_id\":\"r\"} -"
        ]
    );
    assert_eq!(receive(&mut p, &mut state, &chunk).len(), 1);
    let tool = update("{\"sessionUpdate\":\"tool_call\",\"toolCallId\":\"t\",\"status\":\"in_progress\",\"title\":\"Run\"}");
    let events = receive(&mut p, &mut state, &tool);
    assert_eq!(
        events[0],
        "item_completed {\"harness\":\"cursor\",\"item_id\":\"cursor:0:agentMessage\",\"item_type\":\"agentMessage\",\"request_id\":\"r\",\"text\":\"abab\"} raw"
    );
    assert!(events[1].starts_with("item_started "));
    let done = update("{\"sessionUpdate\":\"tool_call_update\",\"toolCallId\":\"t\",\"status\":\"completed\"}");
    let events = receive(&mut p, &mut state, &done);
    assert!(events[0].starts_with("item_completed ") && events[0].contains("\"title\":\"Run\""));
    assert!(p.dirty);
    assert_eq!(
        receive(&mut p, &mut state, "{\"id\":2,\"result\":{\"stopReason\":\"end_turn\"}}"),
        ["native_event {\"harness\":\"cursor\",\"request_id\":\"r\"} raw"]
    );
    assert!(state.finished && p.capture_pending(false));
    assert!(p.conclude(false).is_none());
    let root = format!("/home/chats/{}", "0123456789abcdef".repeat(2));
    assert_eq!(p.begin_saving(false), Some((root, CHAT.to_owned())));
    assert!(p.conclude(true).is_none());
    let ended = p.conclude(false).unwrap();
    assert_eq!(told(&[ended]), ["finished r completed"]);
    assert!(!p.capture_pending(false));
}

#[test]
fn permissions_are_given_while_a_turn_runs() {
    let (mut p, mut state) = opened();
    let asked = format!(
        "{{\"id\":9,\"method\":\"session/request_permission\",\"params\":{{\"sessionId\":\"{CHAT}\",\"options\":[{{\"kind\":\"reject\",\"optionId\":\"n\"}},{{\"kind\":\"allow_once\",\"optionId\":\"y\"}}]}}}}"
    );
    receive(&mut p, &mut state, &asked);
    assert!(is(
        &p.respond()[0],
        "{\"jsonrpc\":\"2.0\",\"id\":9,\"result\":{\"outcome\":{\"outcome\":\"selected\",\"optionId\":\"y\"}}}"
    ));
    state.ask("r");
    p.encode(2, "session/prompt", json("{}"), Some("r"));
    p.encode(3, "session/cancel", json("{}"), None);
    receive(&mut p, &mut state, &asked);
    assert!(is(
        &p.respond()[0],
        "{\"jsonrpc\":\"2.0\",\"id\":9,\"result\":{\"outcome\":{\"outcome\":\"cancelled\"}}}"
    ));
    receive(&mut p, &mut state, "{\"id\":4,\"method\":\"fs/read\"}");
    assert_eq!(p.respond()[0].field("error").field("code").as_i64(), Some(-32601));
    receive(&mut p, &mut state, "{\"id\":5,\"method\":\"cursor/task\"}");
    assert!(is(&p.respond()[0], "{\"jsonrpc\":\"2.0\",\"id\":5,\"result\":{}}"));
}

#[test]
fn steering_begins_the_turn_anew() {
    let (mut p, mut state) = opened();
    assert_eq!(
        p.validate("session/cancel").unwrap_err().message,
        "Cursor turn has ended or an interrupt is already pending"
    );
    state.ask("r");
    p.encode(2, "session/prompt", json("{}"), Some("r"));
    assert!(p.validate("cloudroom/steer").is_ok());
    let sent = p.encode(3, "cloudroom/steer", json("{\"sessionId\":\"s\",\"prompt\":[]}"), None);
    assert!(is(&sent, "{\"jsonrpc\":\"2.0\",\"method\":\"session/cancel\",\"params\":{\"sessionId\":\"s\"}}"));
    assert!(p.validate("cloudroom/steer").is_err());
    let stopped = "{\"id\":2,\"result\":{\"stopReason\":\"cancelled\"}}";
    receive(&mut p, &mut state, stopped);
    assert!(is(
        &p.respond()[0],
        "{\"jsonrpc\":\"2.0\",\"id\":3,\"method\":\"session/prompt\",\"params\":{\"sessionId\":\"s\",\"prompt\":[]}}"
    ));
    assert_eq!(p.response(&json(stopped)).unwrap().0, 3);
    assert!(!state.finished);
    p.encode(4, "session/cancel", json("{}"), None);
    let stopped = "{\"id\":3,\"result\":{\"stopReason\":\"cancelled\"}}";
    receive(&mut p, &mut state, stopped);
    assert_eq!(p.response(&json(stopped)).unwrap().0, 4);
    assert!(state.finished);
}

#[test]
fn refusals_and_other_sessions_are_told() {
    let (mut p, mut state) = opened();
    let (id, result) = p.response(&json("{\"id\":7,\"error\":{\"code\":-1,\"message\":\"no\"}}")).unwrap();
    assert_eq!(id, 7);
    assert_eq!(result.unwrap_err().message, "Cursor rejected the operation (code -1): no");
    state.ask("r");
    p.encode(2, "session/prompt", json("{}"), Some("r"));
    let other = "{\"method\":\"session/update\",\"params\":{\"sessionId\":\"x\",\"update\":{}}}";
    assert_eq!(
        p.receive(&json(other), "raw".to_owned(), &mut state).unwrap_err().message,
        "Cursor event belongs to a different session"
    );
    assert!(p.close().is_some() && !p.closed());
    receive(&mut p, &mut state, "{\"id\":2,\"error\":{}}");
    assert!(p.closed());
}
