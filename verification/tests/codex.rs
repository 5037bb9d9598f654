use cloudroom::fault::FaultKind;
use cloudroom::json::Json;
use cloudroom::runtime::codex::{
    check_hooks, check_opened, check_terminated, check_turn, for_client, fork, initialize_params,
    interrupt_params, notice_params, opening, prompt_items, read_fork, read_page, response,
    steer_params, turn, Protocol,
};
use cloudroom::runtime::{Event, Progress};
use cloudroom::wire::{read_json, write_json};

fn json(text: &str) -> Json {
    read_json(text).unwrap()
}

fn is(value: &Json, text: &str) -> bool {
    value.same(&json(text))
}

fn told(events: &[Event]) -> Vec<String> {
    events
        .iter()
        .map(|event| match event {
            Event::Record { kind, data, native } => {
                format!("{kind} {} {}", write_json(data), native.as_deref().unwrap_or("-"))
            }
            Event::Started { request, native_turn } => {
                format!("started {request} {}", native_turn.as_deref().unwrap_or("-"))
            }
            Event::Finished { request, status, error } => {
                format!("finished {request} {status} {}", error.as_deref().unwrap_or("-"))
            }
            Event::Compacted { status } => format!("compacted {status}"),
            _ => "other".to_owned(),
        })
        .collect()
}

fn receive(p: &mut Protocol, state: &mut Progress, text: &str) -> Vec<String> {
    told(&p.receive(&json(text), "raw".to_owned(), state, Vec::new()).unwrap())
}

const QUIET: &str = "\"delta\":null,\"item_id\":null";
const REST: &str = "\"output\":null,\"request_id\":null,\"status\":null,\"text\":null,\"tool_name\":null,\"usage\":null";

fn frame(kind: &str, method: &str) -> String {
    format!("{kind} {{{QUIET},\"method\":\"{method}\",{REST}}} raw")
}

#[test]
fn codex_is_introduced() {
    let params = initialize_params();
    assert!(params.field("clientInfo").field_is("name", "cloudroom"));
    assert!(params.field("capabilities").field("experimentalApi").is_true());
}

#[test]
fn codex_models_come_in_pages() {
    let mut models = Vec::new();
    let page = json(
        "{\"data\":[{\"model\":\"m\",\"supportedReasoningEfforts\":[{\"reasoningEffort\":\"low\"},{\"reasoningEffort\":\"high\"}]}],\"nextCursor\":\"c\"}",
    );
    let next = read_page(&mut models, &Json::Null, &page).unwrap().unwrap();
    assert!(is(&next, "\"c\""));
    assert_eq!(models[0].model, "m");
    assert_eq!(models[0].reasoning_levels, ["low", "high"]);
    let message = |cursor: &str, page: &str| {
        read_page(&mut Vec::new(), &json(cursor), &json(page)).unwrap_err().message
    };
    assert_eq!(message("\"c\"", "{\"data\":[],\"nextCursor\":\"c\"}"), "invalid model cursor");
    assert_eq!(message("null", "{\"data\":[],\"nextCursor\":1}"), "invalid model cursor");
    assert_eq!(message("null", "{}"), "missing model catalog");
    assert_eq!(message("null", "{\"data\":[{}]}"), "missing model name");
    assert_eq!(message("null", "{\"data\":[{\"model\":\"m\"}]}"), "missing reasoning levels");
    assert_eq!(
        message("null", "{\"data\":[{\"model\":\"m\",\"supportedReasoningEfforts\":[{}]}]}"),
        "invalid reasoning level"
    );
    let end = read_page(&mut models, &next, &json("{\"data\":[]}")).unwrap();
    assert!(end.is_none());
}

#[test]
fn codex_conversations_are_opened() {
    let (method, params) = opening("/w", "m", Some("high"), None);
    assert_eq!(method, "thread/start");
    assert!(is(
        &params,
        "{\"cwd\":\"/w\",\"model\":\"m\",\"approvalPolicy\":\"never\",\"sandbox\":\"danger-full-access\",\"ephemeral\":false,\"config\":{\"model_reasoning_effort\":\"high\"}}"
    ));
    let (method, params) = opening("/w", "m", None, Some(("t", "/p")));
    assert_eq!(method, "thread/resume");
    assert!(params.field_is("threadId", "t") && params.field_is("path", "/p"));
    assert!(params.field("excludeTurns").is_true());
    let opened = json("{\"model\":\"m\",\"thread\":{\"id\":\"t\"}}");
    assert_eq!(check_opened(&opened, "m", Some("t")).unwrap(), "t");
    assert_eq!(
        check_opened(&opened, "n", None).unwrap_err().message,
        "harness selected a different model"
    );
    assert_eq!(
        check_opened(&opened, "m", Some("u")).unwrap_err().message,
        "harness resumed a different session"
    );
    assert_eq!(
        check_opened(&json("{\"model\":\"m\"}"), "m", None).unwrap_err().message,
        "missing native identity"
    );
    assert!(check_hooks(&json("{}")).is_ok());
    assert!(check_hooks(&json("{\"config\":{\"features\":{\"hooks\":false}}}")).is_err());
}

#[test]
fn codex_prompts_hold_text_images_and_files() {
    let items = |text: &str| write_json(&Json::Array(prompt_items(&json(text))));
    assert_eq!(items("{\"text\":\"hi\"}"), "[{\"text\":\"hi\",\"text_elements\":[],\"type\":\"text\"}]");
    assert_eq!(
        items("{\"text\":\"hi\",\"content\":[{\"type\":\"image\",\"url\":\"/i\"},{\"type\":\"file\",\"path\":\"/f\"},{\"type\":\"odd\"}],\"attachments\":[{\"kind\":\"image\",\"path\":\"/j\"},{\"path\":\"/g\"},{}]}"),
        "[{\"path\":\"/i\",\"type\":\"localImage\"},{\"text\":\"[Attached file: /f]\",\"text_elements\":[],\"type\":\"text\"},{\"path\":\"/j\",\"type\":\"localImage\"},{\"text\":\"[Attached file: /g]\",\"text_elements\":[],\"type\":\"text\"}]"
    );
    let params = turn("t", "r", None, &json("{\"text\":\"x\",\"reasoning\":\"low\",\"service_tier\":\"fast\"}"));
    assert!(params.field_is("threadId", "t") && params.field_is("clientUserMessageId", "r"));
    assert!(params.field_is("effort", "low") && params.field_is("serviceTierForTurn", "fast"));
    let params = turn("t", "r", Some("high"), &json("{\"reasoning\":\"low\",\"service_tier\":\"other\"}"));
    assert!(params.field_is("effort", "high") && params.field_is("serviceTierForTurn", "default"));
}

#[test]
fn codex_turns_are_steered_and_interrupted() {
    let turn = Some("n".to_owned());
    assert!(is(
        &steer_params("t", &turn, "x").unwrap(),
        "{\"threadId\":\"t\",\"expectedTurnId\":\"n\",\"input\":[{\"type\":\"text\",\"text\":\"x\",\"text_elements\":[]}]}"
    ));
    assert!(is(&interrupt_params("t", &turn).unwrap(), "{\"threadId\":\"t\",\"turnId\":\"n\"}"));
    let fault = interrupt_params("t", &None).unwrap_err();
    assert_eq!((fault.kind, fault.message.as_str()), (FaultKind::InvalidInput, "turn has not started"));
    assert!(steer_params("t", &None, "x").is_err());
    assert!(is(
        &notice_params("t", "x"),
        "{\"threadId\":\"t\",\"items\":[{\"type\":\"message\",\"role\":\"developer\",\"content\":[{\"type\":\"input_text\",\"text\":\"x\"}]}]}"
    ));
    assert!(is(
        &fork("t", &json("{\"last_turn_id\":\"a\",\"before\":\"b\"}")),
        "{\"threadId\":\"t\",\"lastTurnId\":\"a\",\"beforeTurnId\":\"b\"}"
    ));
    assert!(is(&fork("t", &json("{\"beforeTurnId\":\"b\"}")), "{\"threadId\":\"t\",\"beforeTurnId\":\"b\"}"));
}

#[test]
fn codex_answers_are_read() {
    assert!(check_turn(&json("{\"turn\":{\"id\":\"n\"}}")).is_ok());
    assert_eq!(
        check_turn(&json("{}")).unwrap_err().message,
        "missing native turn identity; outcome uncertain"
    );
    assert!(check_terminated(&json("{\"terminated\":false}")).is_ok());
    assert_eq!(
        check_terminated(&json("{\"terminated\":1}")).unwrap_err().message,
        "invalid tool termination response"
    );
    assert!(is(
        &read_fork(&json("{\"thread\":{\"id\":\"u\",\"path\":\"/u\"}}")).unwrap(),
        "{\"id\":\"u\",\"path\":\"/u\",\"cursor\":{\"offset\":0}}"
    ));
    assert_eq!(read_fork(&json("{}")).unwrap_err().message, "missing forked thread identity");
    assert!(response(&json("{\"method\":\"m\",\"id\":1}")).is_none());
    let (id, result) = response(&json("{\"id\":3,\"result\":{\"a\":1}}")).unwrap();
    assert_eq!(id, 3);
    assert!(is(&result.unwrap(), "{\"a\":1}"));
    let (_, result) = response(&json("{\"id\":3,\"error\":{}}")).unwrap();
    let fault = result.unwrap_err();
    assert_eq!(fault.kind, FaultKind::InvalidInput);
    assert_eq!(fault.message, "harness rejected command; see native history");
    let mut data = json("{\"method\":\"m\"}");
    for_client(&mut data, Some("{\"params\":{\"a\":1}}")).unwrap();
    assert!(is(&data, "{\"method\":\"m\",\"value\":{\"a\":1}}"));
}

#[test]
fn codex_turns_are_followed() {
    let mut p = Protocol::new(None);
    let mut state = Progress::new();
    assert!(is(&p.encode(1, "initialized", Json::Null, None), "{\"method\":\"initialized\"}"));
    assert!(is(
        &p.encode(2, "thread/start", json("{\"cwd\":\"/w\"}"), None),
        "{\"id\":2,\"method\":\"thread/start\",\"params\":{\"cwd\":\"/w\"}}"
    ));
    let events =
        receive(&mut p, &mut state, "{\"id\":2,\"result\":{\"thread\":{\"id\":\"t\",\"path\":\"/h\"}}}");
    assert_eq!(
        events,
        [
            frame("native_event", "response"),
            "native_identity {\"id\":\"t\",\"path\":\"/h\"} -".to_owned()
        ]
    );
    assert_eq!(state.native.as_deref(), Some("t"));
    assert_eq!(p.path.as_deref(), Some("/h"));
    state.ask("r");
    p.encode(3, "turn/start", json("{}"), Some("r"));
    let events = receive(
        &mut p,
        &mut state,
        "{\"method\":\"turn/started\",\"params\":{\"threadId\":\"t\",\"turn\":{\"id\":\"n\"}}}",
    );
    assert_eq!(events[1], "started r n");
    let events = receive(
        &mut p,
        &mut state,
        "{\"method\":\"item/agentMessage/delta\",\"params\":{\"threadId\":\"t\",\"itemId\":\"i\",\"delta\":\"d\"}}",
    );
    assert_eq!(
        events,
        [format!("text_delta {{\"delta\":\"d\",\"item_id\":\"i\",\"method\":\"item/agentMessage/delta\",{REST}}} raw")]
    );
    receive(
        &mut p,
        &mut state,
        "{\"method\":\"item/started\",\"params\":{\"threadId\":\"t\",\"turnId\":\"n\",\"item\":{\"type\":\"commandExecution\",\"processId\":\"9\"}}}",
    );
    assert_eq!(state.processes, ["9"]);
    // What another thread does is kept, and no more.
    let other = receive(
        &mut p,
        &mut state,
        "{\"method\":\"turn/completed\",\"params\":{\"threadId\":\"z\",\"turn\":{\"id\":\"n\"}}}",
    );
    assert_eq!(other, [frame("native_event", "turn/completed")]);
    let events = receive(
        &mut p,
        &mut state,
        "{\"method\":\"turn/completed\",\"params\":{\"threadId\":\"t\",\"turn\":{\"id\":\"n\",\"status\":\"completed\"}}}",
    );
    assert_eq!(events[1], "finished r completed -");
    assert!(state.finished);
}

#[test]
fn refused_codex_turns_do_not_run() {
    let mut p = Protocol::new(None);
    let mut state = Progress::new();
    state.ask("r");
    p.encode(7, "turn/start", json("{}"), Some("r"));
    receive(&mut p, &mut state, "{\"id\":7,\"error\":{}}");
    assert!(state.finished);
}

#[test]
fn codex_compactions_end_once() {
    let mut p = Protocol::new(Some(("t", "/h", 5)));
    let mut state = Progress::new();
    p.encode(4, "thread/compact/start", json("{}"), None);
    receive(
        &mut p,
        &mut state,
        "{\"method\":\"turn/started\",\"params\":{\"threadId\":\"t\",\"turn\":{\"id\":\"c\"}}}",
    );
    let done = "{\"method\":\"turn/completed\",\"params\":{\"threadId\":\"t\",\"turn\":{\"id\":\"c\",\"status\":\"failed\"}}}";
    assert!(receive(&mut p, &mut state, done).contains(&"compacted failed".to_owned()));
    assert!(!receive(&mut p, &mut state, done).contains(&"compacted failed".to_owned()));
    p.encode(5, "thread/compact/start", json("{}"), None);
    let compacted = "{\"method\":\"thread/compacted\",\"params\":{\"threadId\":\"t\"}}";
    assert_eq!(receive(&mut p, &mut state, compacted)[1], "compacted completed");
    p.encode(6, "thread/compact/start", json("{}"), None);
    receive(&mut p, &mut state, "{\"id\":6,\"error\":{}}");
    assert_eq!(receive(&mut p, &mut state, compacted).len(), 1);
}

#[test]
fn codex_conversations_are_taken_back() {
    let mut p = Protocol::new(Some(("t", "/h", 5)));
    let mut state = Progress::new();
    assert_eq!(p.tail.read_offset, 5);
    p.encode(8, "thread/fork", json("{}"), None);
    let answer = "{\"id\":8,\"result\":{\"thread\":{\"id\":\"u\",\"path\":\"/u\"}}}";
    assert!(p.forks(&json(answer)));
    let drained = vec![Event::record("native_record", json("{\"offset\":5}"))];
    let events = p.receive(&json(answer), "raw".to_owned(), &mut state, drained).unwrap();
    assert_eq!(
        told(&events),
        [
            frame("native_event", "response"),
            "native_record {\"offset\":5} -".to_owned(),
            "rewind_ready {\"cursor\":{\"offset\":0},\"id\":\"u\",\"path\":\"/u\"} -".to_owned()
        ]
    );
    assert_eq!(state.native.as_deref(), Some("u"));
    assert!(state.finished);
    assert_eq!((p.path.as_deref(), p.tail.read_offset), (Some("/u"), 0));
    p.encode(9, "thread/fork", json("{}"), None);
    let fault =
        p.receive(&json("{\"id\":9,\"result\":{}}"), "raw".to_owned(), &mut state, Vec::new());
    assert_eq!(fault.unwrap_err().message, "missing fork identity");
}
