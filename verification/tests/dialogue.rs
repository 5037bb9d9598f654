use cloudroom::json::Json;
use cloudroom::runtime::claude::{
    arguments, check_effort, check_id, check_initialized, check_interrupted, check_prompt,
    choose_transcript, fork_source, initialize_params, model_catalog, prompt_settings,
    read_account, session_id, start_settings, validate,
};
use cloudroom::runtime::product::Product;
use cloudroom::runtime::claude_protocol::{usage, Protocol};
use cloudroom::runtime::{Event, Progress};
use cloudroom::wire::{read_json, write_json};

const NATIVE: &str = "11111111-2222-3333-4444-555555555555";
const SPACE: &str = "aaaaaaaa-bbbb-cccc-dddd-eeeeeeeeeeee";

fn json(text: &str) -> Json {
    read_json(text).unwrap()
}

fn is(value: &Json, text: &str) -> bool {
    value.same(&json(text))
}

fn told(events: &[Event]) -> Vec<String> {
    events
        .iter()
        .map(|event| match event {
            Event::Record { kind, data, native } => {
                format!("{kind} {} {}", write_json(data), native.as_deref().unwrap_or("-"))
            }
            Event::Started { request, .. } => format!("started {request}"),
            Event::Finished { request, status, .. } => format!("finished {request} {status}"),
            Event::Compacted { status } => format!("compacted {status}"),
            Event::ChildRequest(child) => {
                format!("child {} {} {}", child.request, child.id, child.prompt)
            }
            Event::Authentication { accepted } => format!("accepted {accepted}"),
            _ => "other".to_owned(),
        })
        .collect()
}

fn receive(p: &mut Protocol, state: &mut Progress, text: &str) -> Vec<String> {
    told(&p.receive(&json(text), "raw".to_owned(), state).unwrap())
}

fn refused(p: &mut Protocol, state: &mut Progress, text: &str) -> String {
    p.receive(&json(text), "raw".to_owned(), state).unwrap_err().message
}

fn product() -> Product {
    Product { name: "Agent".to_owned(), word: "agent".to_owned() }
}

fn at_work() -> (Protocol, Progress, String) {
    let mut p = Protocol::new(NATIVE, SPACE, &product());
    let mut state = Progress::new();
    state.ask("r");
    let sent = p.encode(10, "prompt", json("{\"content\":\"hi\"}"), Some("r"));
    let wire = format!("{}{:012x}", &SPACE[..24], 10);
    assert!(sent.field_is("uuid", &wire) && sent.field_is("session_id", NATIVE));
    assert!(sent.field("message").field_is("content", "hi"));
    assert!(sent.field("shouldQuery").is_true() && sent.field("isSynthetic").is_false());
    receive(
        &mut p,
        &mut state,
        &format!("{{\"type\":\"command_lifecycle\",\"command_uuid\":\"{wire}\",\"state\":\"started\"}}"),
    );
    (p, state, wire)
}

#[test]
fn the_program_is_called_with_its_session() {
    assert_eq!(session_id(Some("s"), None, "n"), "s");
    assert_eq!(session_id(Some("s"), Some("m"), "n"), "n");
    assert_eq!(session_id(None, None, "n"), "n");
    let fresh = arguments("model", None, "n", None);
    assert_eq!(fresh[fresh.len() - 2..], ["--session-id", "n"]);
    let forked = arguments("model", Some("s"), "n", Some("m"));
    assert_eq!(
        forked[forked.len() - 7..],
        ["--resume", "s", "--fork-session", "--session-id", "n", "--resume-session-at", "m"]
    );
    assert!(fresh.windows(2).any(|w| w == ["--model", "model"]));
}

#[test]
fn answers_of_the_program_are_checked() {
    assert!(read_account(b"{\"loggedIn\":true}", Some(0), &product()).unwrap());
    assert!(!read_account(b"{\"loggedIn\":false}", Some(1), &product()).unwrap());
    assert!(read_account(b"{\"loggedIn\":true}", Some(1), &product()).is_err());
    assert_eq!(
        read_account(b"nothing", Some(0), &product()).unwrap_err().message,
        "expected ident at line 1 column 2"
    );
    assert_eq!(
        read_account(b"{}", Some(0), &product()).unwrap_err().message,
        "invalid Agent account response"
    );
    assert!(read_account(b"\"\xff\"", Some(0), &product()).is_err());
    assert!(read_account(&vec![b' '; 65537], Some(0), &product()).is_err());
    assert!(is(
        &initialize_params(),
        "{\"hooks\":{\"SubagentStart\":[{\"hookCallbackIds\":[\"cloudroom-native-child\"]}]},\"sdkMcpServers\":[\"cloudroom\"]}"
    ));
    assert!(check_initialized(&json("{\"hooks_applied\":true}"), &product()).is_ok());
    assert!(check_initialized(&json("{}"), &product()).is_err());
    let info = json(
        "{\"models\":[{\"value\":\"a\",\"resolvedModel\":\"b\",\"supportsEffort\":true,\"supportedEffortLevels\":[\"low\"]},{\"value\":\"c\"},{\"value\":\"a\"}]}",
    );
    let models = model_catalog(&info, &product()).unwrap();
    let shown: Vec<(&str, Vec<String>)> =
        models.iter().map(|m| (m.model.as_str(), m.reasoning_levels.clone())).collect();
    assert_eq!(
        shown,
        [
            ("a", vec!["low".to_owned()]),
            ("b", vec!["low".to_owned()]),
            ("c", vec!["none".to_owned()])
        ]
    );
    assert!(model_catalog(&json("{}"), &product()).is_err());
    assert!(check_effort(&info, "b", "low", &product()).is_ok());
    assert!(check_effort(&info, "c", "low", &product()).is_err());
    assert!(start_settings("none").is_none());
    assert!(start_settings("low").unwrap().field("settings").field_is("effortLevel", "low"));
    assert_eq!(
        check_prompt(" /fast on", &product()).unwrap_err().message,
        "Agent Fast mode is disabled"
    );
    assert!(check_prompt("fast", &product()).is_ok());
    assert!(check_id(NATIVE, &product()).is_ok());
    assert_eq!(
        check_id("short", &product()).unwrap_err().message,
        "invalid Agent session identity"
    );
}

#[test]
fn levels_of_a_prompt_are_set() {
    let settings = |input: &str, session: Option<&str>| prompt_settings(&json(input), session);
    assert!(is(
        &settings("{\"reasoning\":\"low\"}", Some("high")),
        "{\"settings\":{\"fastMode\":false,\"effortLevel\":\"low\"}}"
    ));
    assert!(is(
        &settings("{}", Some("high")),
        "{\"settings\":{\"fastMode\":false,\"effortLevel\":\"high\"}}"
    ));
    assert!(is(
        &settings("{\"reasoning\":\"none\"}", Some("high")),
        "{\"settings\":{\"fastMode\":false,\"effortLevel\":null}}"
    ));
    assert!(check_interrupted(&json("{\"still_queued\":[]}"), &product()).is_ok());
    assert!(check_interrupted(&json("{\"still_queued\":[1]}"), &product()).is_err());
    assert!(check_interrupted(&json("{}"), &product()).is_err());
}

#[test]
fn one_transcript_belongs_to_a_session() {
    assert_eq!(choose_transcript(&vec!["/a".to_owned()], &product()).unwrap(), "/a");
    assert!(choose_transcript(&Vec::new(), &product()).is_err());
    assert!(choose_transcript(&vec!["/a".to_owned(), "/b".to_owned()], &product()).is_err());
    let lines = vec![
        format!("{{\"type\":\"user\",\"sessionId\":\"{NATIVE}\",\"uuid\":\"u\"}}\n"),
        format!("{{\"type\":\"user\",\"sessionId\":\"{NATIVE}\",\"uuid\":\"v\",\"parentUuid\":\"u\"}}\n"),
    ];
    assert!(validate(&lines, NATIVE, &product()).is_ok());
    assert!(validate(&lines, SPACE, &product()).is_err());
    assert_eq!(fork_source(&lines, "v", &product()).unwrap(), "u");
    assert!(fork_source(&lines, "u", &product()).unwrap_err().message.ends_with("checkpoint has no saved parent"));
    assert!(fork_source(&lines, "x", &product()).unwrap_err().message.ends_with("rewind checkpoint not found"));
    let cut = vec!["{}".to_owned()];
    assert!(validate(&cut, NATIVE, &product()).unwrap_err().message.ends_with("transcript"));
}

#[test]
fn turns_of_the_dialogue_are_followed() {
    let (mut p, mut state, wire) = at_work();
    assert!(state.started);
    let init = "{\"type\":\"system\",\"subtype\":\"init\",\"capabilities\":[\"msg_lifecycle_v1\",\"interrupt_cancel_queued_v1\"],\"permissionMode\":\"bypassPermissions\",\"model\":\"m\"}";
    receive(&mut p, &mut state, init);
    assert_eq!((state.native.as_deref(), state.model.as_deref()), (Some(NATIVE), Some("m")));
    let start = "{\"type\":\"stream_event\",\"event\":{\"type\":\"message_start\",\"message\":{\"id\":\"msg\"}}}";
    receive(&mut p, &mut state, start);
    let block = "{\"type\":\"stream_event\",\"event\":{\"type\":\"content_block_start\",\"index\":0,\"content_block\":{\"type\":\"text\"}}}";
    assert_eq!(
        receive(&mut p, &mut state, block),
        ["item_started {\"harness\":\"agent-code\",\"input\":null,\"item_id\":\"msg:0\",\"item_type\":\"text\",\"request_id\":\"r\",\"text\":\"\",\"tool_name\":null,\"type\":\"stream_event\"} raw"]
    );
    let delta = "{\"type\":\"stream_event\",\"event\":{\"type\":\"content_block_delta\",\"index\":0,\"delta\":{\"type\":\"text_delta\",\"text\":\"ab\"}}}";
    assert_eq!(
        receive(&mut p, &mut state, delta),
        ["text_delta {\"delta\":\"ab\",\"harness\":\"agent-code\",\"item_id\":\"msg:0\",\"item_type\":\"text\",\"request_id\":\"r\",\"type\":\"stream_event\"} raw"]
    );
    receive(&mut p, &mut state, delta);
    let stop = "{\"type\":\"stream_event\",\"event\":{\"type\":\"content_block_stop\",\"index\":0}}";
    let events = receive(&mut p, &mut state, stop);
    assert!(events[0].starts_with("item_completed ") && events[0].contains("\"text\":\"abab\""));
    // What was streamed is not told twice.
    let said = "{\"type\":\"assistant\",\"message\":{\"id\":\"msg\",\"content\":[{\"type\":\"text\",\"text\":\"abab\"}]}}";
    assert_eq!(receive(&mut p, &mut state, said).len(), 1);
    assert_eq!(state.last_text, "abab");
    let tool = "{\"type\":\"assistant\",\"message\":{\"id\":\"other\",\"content\":[{\"type\":\"tool_use\",\"id\":\"t1\",\"name\":\"Bash\",\"input\":{}}]}}";
    assert_eq!(
        receive(&mut p, &mut state, tool)[1],
        "item_started {\"harness\":\"agent-code\",\"input\":{},\"item_id\":\"t1\",\"item_type\":\"tool_use\",\"request_id\":\"r\",\"text\":null,\"tool_name\":\"Bash\"} -"
    );
    let result = "{\"type\":\"user\",\"message\":{\"content\":[{\"type\":\"tool_result\",\"tool_use_id\":\"t1\",\"content\":\"ok\"}]}}";
    assert_eq!(
        receive(&mut p, &mut state, result)[1],
        "item_completed {\"harness\":\"agent-code\",\"is_error\":null,\"item_id\":\"t1\",\"item_type\":\"tool_use\",\"request_id\":\"r\",\"result\":\"ok\",\"tool_name\":\"Bash\"} -"
    );
    let done = format!(
        "{{\"type\":\"result\",\"subtype\":\"success\",\"is_error\":false,\"user_message_uuid\":\"{wire}\",\"usage\":{{\"input_tokens\":2,\"output_tokens\":3}}}}"
    );
    let events = receive(&mut p, &mut state, &done);
    assert_eq!(events[1..], ["accepted true", "finished r completed"]);
    assert!(p.active.is_none());
}

#[test]
fn other_sessions_and_subagents_are_refused() {
    let (mut p, mut state, _) = at_work();
    assert!(refused(&mut p, &mut state, "{\"type\":\"x\",\"parent_tool_use_id\":\"t\"}")
        .ends_with("subagent emitted output"));
    assert!(refused(&mut p, &mut state, "{\"type\":\"x\",\"session_id\":\"other\"}")
        .ends_with("Agent session identity changed"));
    assert!(refused(&mut p, &mut state, "{\"type\":\"system\",\"subtype\":\"init\"}")
        .ends_with("Agent CLI lacks required capabilities"));
    assert!(refused(&mut p, &mut state, "{\"type\":\"system\",\"subtype\":\"init\",\"capabilities\":[]}")
        .ends_with("lacks request lifecycle or queue cancellation support"));
}

#[test]
fn dialogs_are_denied_and_hooks_stop() {
    let (mut p, mut state, _) = at_work();
    let events = receive(
        &mut p,
        &mut state,
        "{\"type\":\"control_request\",\"request_id\":\"c\",\"request\":{\"subtype\":\"can_use_tool\"}}",
    );
    assert_eq!(
        events,
        ["interaction_cancelled {\"harness\":\"agent-code\",\"reason\":\"native interaction unsupported\"} -"]
    );
    let frames = p.respond();
    assert_eq!(frames.len(), 1);
    assert!(frames[0].field("response").field("response").field_is("behavior", "deny"));
    receive(
        &mut p,
        &mut state,
        "{\"type\":\"control_request\",\"request_id\":\"h\",\"request\":{\"subtype\":\"hook_callback\"}}",
    );
    assert!(p.respond()[0].field("response").field("response").field("continue").is_false());
}

#[test]
fn delegated_work_is_asked_for_once() {
    let (mut p, mut state, _) = at_work();
    let call = "{\"type\":\"control_request\",\"request_id\":\"w-1\",\"request\":{\"subtype\":\"mcp_message\",\"server_name\":\"cloudroom\",\"message\":{\"id\":5,\"method\":\"tools/call\",\"params\":{\"name\":\"delegate\",\"arguments\":{\"prompt\":\"do\"}}}}}";
    assert_eq!(receive(&mut p, &mut state, call), ["child r w-1 do"]);
    assert!(receive(&mut p, &mut state, call).is_empty());
    let answer = p.encode(20, "child_result", json("{\"id\":\"w-1\",\"text\":\"done\"}"), None);
    let response = answer.field("response");
    assert!(response.field_is("request_id", "w-1"));
    let result = response.field("response").field("mcp_response").field("result");
    assert!(result.field("isError").is_false());
    receive(
        &mut p,
        &mut state,
        "{\"type\":\"control_response\",\"response\":{\"request_id\":\"w-1\",\"subtype\":\"success\"}}",
    );
    assert_eq!(p.response().unwrap().0, 20);
    let list = "{\"type\":\"control_request\",\"request_id\":\"w-2\",\"request\":{\"subtype\":\"mcp_message\",\"server_name\":\"cloudroom\",\"message\":{\"id\":6,\"method\":\"tools/list\"}}}";
    assert!(receive(&mut p, &mut state, list).is_empty());
    assert!(write_json(&p.respond()[0]).contains("\"name\":\"delegate\""));
    assert!(refused(
        &mut p,
        &mut state,
        "{\"type\":\"control_request\",\"request_id\":\"w_3\",\"request\":{\"subtype\":\"mcp_message\",\"server_name\":\"cloudroom\"}}"
    )
    .ends_with("control identity"));
}

#[test]
fn replies_come_from_the_queue() {
    let (mut p, mut state, wire) = at_work();
    let queued = |state: &str| {
        format!("{{\"type\":\"command_lifecycle\",\"command_uuid\":\"{wire}\",\"state\":\"{state}\"}}")
    };
    receive(&mut p, &mut state, &queued("queued"));
    let (id, result) = p.response().unwrap();
    assert_eq!(id, 10);
    assert!(result.is_ok());
    receive(&mut p, &mut state, &queued("rejected"));
    assert!(p.response().unwrap().1.is_err());
    receive(&mut p, &mut state, "{\"type\":\"x\"}");
    assert!(p.response().is_none());
    let control = p.encode(11, "interrupt", json("{\"cancel_queued\":true}"), None);
    assert!(is(
        &control,
        "{\"type\":\"control_request\",\"request_id\":\"11\",\"request\":{\"cancel_queued\":true,\"subtype\":\"interrupt\"}}"
    ));
    let done = format!("{{\"type\":\"result\",\"is_error\":true,\"user_message_uuids\":[\"{wire}\"]}}");
    assert!(receive(&mut p, &mut state, &done).contains(&"finished r interrupted".to_owned()));
    assert!(!p.clean_exit(Some(1)));
    assert!(p.closed(&json(
        "{\"type\":\"control_response\",\"response\":{\"request_id\":\"close\",\"subtype\":\"success\"}}"
    )));
    assert!(p.clean_exit(Some(1)) && p.clean_exit(Some(0)) && !p.clean_exit(None));
}

#[test]
fn compactions_of_the_dialogue_need_a_boundary() {
    let mut p = Protocol::new(NATIVE, SPACE, &product());
    let mut state = Progress::new();
    for (id, boundary, status) in [(1u64, true, "completed"), (2, false, "failed")] {
        p.encode(id, "compact", json("{\"text\":\"/compact\"}"), None);
        if boundary {
            receive(&mut p, &mut state, "{\"type\":\"system\",\"subtype\":\"compact_boundary\"}");
        }
        let wire = format!("{}{:012x}", &SPACE[..24], id);
        let done = format!("{{\"type\":\"result\",\"is_error\":false,\"user_message_uuid\":\"{wire}\"}}");
        assert!(receive(&mut p, &mut state, &done).contains(&format!("compacted {status}")));
    }
}

#[test]
fn usage_is_summed_over_models() {
    let value = json(
        "{\"modelUsage\":{\"a\":{\"inputTokens\":1,\"outputTokens\":2,\"contextWindow\":100},\"b\":{\"inputTokens\":10,\"cacheReadInputTokens\":4,\"cacheCreationInputTokens\":5}},\"usage\":{\"input_tokens\":3,\"cache_read_input_tokens\":4,\"output_tokens\":6}}",
    );
    assert!(is(
        &usage(&value),
        "{\"contextUsage\":{\"tokens\":7,\"contextWindow\":100},\"tokens\":{\"input\":11,\"output\":2,\"cacheRead\":4,\"cacheWrite\":5,\"total\":22},\"lastUsage\":{\"input\":3,\"output\":6,\"cacheRead\":4,\"cacheWrite\":null,\"totalTokens\":13},\"estimated_cost_usd\":null}"
    ));
}
