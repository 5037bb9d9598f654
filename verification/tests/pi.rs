use cloudroom::fault::{Fault, FaultKind};
use cloudroom::json::Json;
use cloudroom::runtime::pi::{
    baseline, check_applied, check_extension, check_started, check_supported, check_workspace,
    child_message, fork, notice_message, prompt_text, response, room_for_images, Capture, Protocol,
};
use cloudroom::runtime::process::MAX_LINE;
use cloudroom::runtime::{Event, Progress};
use cloudroom::wire::{read_json, write_json};

fn json(text: &str) -> Json {
    read_json(text).unwrap()
}

fn is(value: &Json, text: &str) -> bool {
    value.same(&json(text))
}

fn told(events: &[Event]) -> Vec<String> {
    events
        .iter()
        .map(|event| match event {
            Event::Record { kind, data, native } => {
                format!("{kind} {} {}", write_json(data), native.as_deref().unwrap_or("-"))
            }
            Event::Started { request, native_turn } => {
                format!("started {request} {}", native_turn.as_deref().unwrap_or("-"))
            }
            Event::Finished { request, status, error } => {
                format!("finished {request} {status} {}", error.as_deref().unwrap_or("-"))
            }
            Event::Compacted { status } => format!("compacted {status}"),
            Event::ChildRequest(child) => format!(
                "child {} {} {} {}",
                child.request, child.id, child.tool_call_id, child.prompt
            ),
            _ => "other".to_owned(),
        })
        .collect()
}

fn receive(p: &mut Protocol, state: &mut Progress, text: &str) -> Vec<String> {
    told(&p.receive(&json(text), "raw".to_owned(), state, Ok(Vec::new())).unwrap())
}

fn refused(p: &mut Protocol, state: &mut Progress, text: &str) -> String {
    p.receive(&json(text), "raw".to_owned(), state, Ok(Vec::new())).unwrap_err().message
}

#[test]
fn pi_levels_are_applied() {
    assert!(check_supported(&json("{\"levels\":[\"low\",\"high\"]}"), "high").is_ok());
    let fault = check_supported(&json("{\"levels\":[\"low\"]}"), "high").unwrap_err();
    assert_eq!(fault.kind, FaultKind::InvalidInput);
    assert_eq!(fault.message, "Pi model does not support the selected thinking level");
    assert!(check_applied(&json("{\"thinkingLevel\":\"low\"}"), "low").is_ok());
    assert_eq!(
        check_applied(&json("{}"), "low").unwrap_err().message,
        "Pi did not apply the selected thinking level"
    );
    assert_eq!(baseline(&json("{\"thinkingLevel\":\"off\"}")).as_deref(), Some("none"));
    assert_eq!(baseline(&json("{\"thinkingLevel\":\"high\"}")).as_deref(), Some("high"));
    assert_eq!(baseline(&json("{\"thinkingLevel\":\"odd\"}")), None);
    assert_eq!(baseline(&json("{}")), None);
}

#[test]
fn pi_starts_as_it_was_asked_to() {
    let state = |streaming: &str| {
        json(&format!(
            "{{\"sessionId\":\"s\",\"sessionFile\":\"/f\",\"model\":{{\"id\":\"m\",\"provider\":\"p\"}},\"isStreaming\":{streaming},\"isCompacting\":false}}"
        ))
    };
    let good = state("false");
    assert_eq!(check_started(&good, "/f", "m", Some("p"), None).unwrap(), "s");
    assert_eq!(check_started(&good, "/f", "m", Some("p"), Some("s")).unwrap(), "s");
    let words = "Pi startup state does not match configured session/model";
    assert_eq!(check_started(&good, "/g", "m", Some("p"), None).unwrap_err().message, words);
    assert_eq!(check_started(&good, "/f", "n", Some("p"), None).unwrap_err().message, words);
    assert_eq!(check_started(&good, "/f", "m", None, None).unwrap_err().message, words);
    assert_eq!(
        check_started(&state("true"), "/f", "m", Some("p"), None).unwrap_err().message,
        words
    );
    assert_eq!(
        check_started(&good, "/f", "m", Some("p"), Some("t")).unwrap_err().message,
        "Pi resumed a different session"
    );
    assert_eq!(
        check_started(&json("{}"), "/f", "m", Some("p"), None).unwrap_err().message,
        "missing Pi session ID"
    );
    let commands = json(
        "{\"commands\":[{\"name\":\"cloudroom_context\",\"description\":\"Cloudroom context-only notice (v1)\",\"source\":\"extension\",\"sourceInfo\":{\"path\":\"/e\"}}]}",
    );
    assert!(check_extension(&commands, Some("/e")).is_ok());
    assert_eq!(
        check_extension(&commands, Some("/x")).unwrap_err().message,
        "Pi context extension unavailable or conflicting"
    );
    assert!(check_workspace(Some("/w"), "/w").is_ok());
    assert_eq!(
        check_workspace(None, "/w").unwrap_err().message,
        "Pi session belongs to a different workspace"
    );
}

#[test]
fn pi_prompts_are_lines() {
    assert_eq!(
        prompt_text(&json("{\"text\":\"x\",\"attachments\":[{\"kind\":\"image\",\"path\":\"/i\"},{\"kind\":\"file\",\"path\":\"/f\"},{}]}")),
        "x\n[Attached file: /f]"
    );
    let envelope = "{\"id\":\"18446744073709551615\",\"images\":[],\"message\":\"ab\",\"type\":\"prompt\"}\n";
    assert_eq!(room_for_images("ab"), MAX_LINE - envelope.len());
    assert_eq!(notice_message("a \"b\""), "/cloudroom_context {\"text\":\"a \\\"b\\\"\"}");
    assert!(child_message(&json("{\"id\":\"k\"}")).ends_with("{\"id\":\"k\"}"));
    assert!(is(&fork(&json("{\"entry_id\":\"e\"}")), "{\"entryId\":\"e\"}"));
    assert!(is(&fork(&json("{\"before\":\"b\",\"entryId\":\"e\"}")), "{\"entryId\":\"b\"}"));
    assert!(is(&fork(&json("{}")), "{}"));
}

#[test]
fn pi_answers_are_read() {
    assert!(response(&json("{\"type\":\"event\",\"id\":\"1\"}")).is_none());
    assert!(response(&json("{\"type\":\"response\",\"id\":\"x\"}")).is_none());
    let (id, result) =
        response(&json("{\"type\":\"response\",\"id\":\"4\",\"success\":true,\"data\":{\"a\":1}}")).unwrap();
    assert_eq!(id, 4);
    assert!(is(&result.unwrap(), "{\"a\":1}"));
    let (_, result) = response(&json(
        "{\"type\":\"response\",\"id\":\"4\",\"command\":\"prompt\",\"error\":\"no\"}",
    ))
    .unwrap();
    assert_eq!(result.unwrap_err().message, "Pi rejected the prompt command: no");
    let (_, result) = response(&json("{\"type\":\"response\",\"id\":\"4\"}")).unwrap();
    let fault = result.unwrap_err();
    assert_eq!(fault.message, "Pi rejected the unknown command: no error message returned");
    assert_eq!(fault.kind, FaultKind::InvalidInput);
}

#[test]
fn pi_turns_are_followed() {
    let mut p = Protocol::new("/f", None, Json::Null);
    let mut state = Progress::new();
    let events = receive(
        &mut p,
        &mut state,
        "{\"type\":\"response\",\"id\":\"1\",\"command\":\"get_state\",\"success\":true,\"data\":{\"sessionId\":\"s\",\"sessionFile\":\"/f\"}}",
    );
    assert_eq!(events[1], "native_identity {\"id\":\"s\",\"path\":\"/f\"} -");
    assert_eq!(state.native.as_deref(), Some("s"));
    assert_eq!(
        refused(
            &mut p,
            &mut state,
            "{\"type\":\"response\",\"command\":\"get_state\",\"success\":true,\"data\":{\"sessionId\":\"t\",\"sessionFile\":\"/f\"}}"
        ),
        "Pi identity changed"
    );
    state.ask("r");
    let sent = p.encode(7, "prompt", json("{\"message\":\"x\"}"), Some("r"));
    assert!(is(&sent, "{\"id\":\"7\",\"type\":\"prompt\",\"message\":\"x\"}"));
    receive(&mut p, &mut state, "{\"type\":\"response\",\"id\":\"7\",\"command\":\"prompt\",\"success\":true}");
    assert!(p.accepted);
    let events = receive(&mut p, &mut state, "{\"type\":\"agent_start\"}");
    assert_eq!(events[1], "started r -");
    let events = receive(
        &mut p,
        &mut state,
        "{\"type\":\"message_update\",\"assistantMessageEvent\":{\"type\":\"text_delta\",\"delta\":\"d\"}}",
    );
    assert_eq!(
        events,
        ["text_delta {\"delta\":\"d\",\"harness\":\"pi\",\"item_id\":null,\"message\":null,\"output\":null,\"request_id\":\"r\",\"result\":null,\"tool_name\":null,\"type\":\"message_update\",\"usage\":null} raw"]
    );
    let events = receive(
        &mut p,
        &mut state,
        "{\"type\":\"message_end\",\"message\":{\"role\":\"assistant\",\"stopReason\":\"error\",\"errorMessage\":\"Usage Limit reached\",\"usage\":{\"n\":1}}}",
    );
    assert_eq!(events[1], "usage_limited {\"harness\":\"pi\"} -");
    assert_eq!(state.status, "failed");
    assert!(is(&state.last_usage, "{\"n\":1}"));
    let asked = p.respond(&json("{\"type\":\"agent_settled\"}"));
    assert_eq!(asked.len(), 2);
    assert!(is(&asked[0], "{\"type\":\"get_fork_messages\",\"id\":\"checkpoint-7\"}"));
    assert!(is(&asked[1], "{\"type\":\"get_state\",\"id\":\"settled-7\"}"));
    let events = receive(
        &mut p,
        &mut state,
        "{\"type\":\"response\",\"id\":\"checkpoint-7\",\"command\":\"get_fork_messages\",\"success\":true,\"data\":{\"messages\":[{\"entryId\":\"e\"},{\"entryId\":\"f\"}]}}",
    );
    assert_eq!(events[1], "checkpoint {\"id\":\"e\",\"kind\":\"entry\",\"request_id\":\"r\"} -");
    let settled = "{\"type\":\"response\",\"id\":\"settled-7\",\"command\":\"get_state\",\"success\":true,\"data\":{\"sessionId\":\"s\",\"sessionFile\":\"/f\",\"isStreaming\":false,\"isCompacting\":false,\"pendingMessageCount\":0}}";
    assert_eq!(receive(&mut p, &mut state, settled)[1], "finished r failed -");
    assert_eq!(receive(&mut p, &mut state, settled).len(), 1);
}

#[test]
fn refused_pi_prompts_do_not_run() {
    let mut p = Protocol::new("/f", None, Json::Null);
    let mut state = Progress::new();
    state.ask("r");
    p.encode(7, "prompt", json("{}"), Some("r"));
    receive(&mut p, &mut state, "{\"type\":\"response\",\"id\":\"7\",\"success\":false}");
    assert!(state.finished);
}

#[test]
fn pi_dialogs_are_cancelled() {
    let mut p = Protocol::new("/f", None, Json::Null);
    let mut state = Progress::new();
    let dialog = "{\"type\":\"extension_ui_request\",\"method\":\"confirm\",\"id\":\"d\"}";
    assert_eq!(
        receive(&mut p, &mut state, dialog)[1],
        "interaction_cancelled {\"harness\":\"pi\",\"id\":\"d\",\"reason\":\"interactive dialogs are unsupported; not approved\"} -"
    );
    let answers = p.respond(&json(dialog));
    assert_eq!(answers.len(), 1);
    assert!(is(&answers[0], "{\"type\":\"extension_ui_response\",\"id\":\"d\",\"cancelled\":true}"));
    assert!(p.respond(&json("{\"type\":\"extension_ui_request\",\"method\":\"notify\"}")).is_empty());
}

#[test]
fn pi_children_need_a_running_turn() {
    let mut p = Protocol::new("/f", None, Json::Null);
    let mut state = Progress::new();
    let asked = "{\"type\":\"cloudroom_child_request\",\"id\":\"k-1\",\"prompt\":\"do\",\"tool_call_id\":\"c\"}";
    assert_eq!(refused(&mut p, &mut state, asked), "child requires an active parent");
    state.ask("r");
    assert_eq!(receive(&mut p, &mut state, asked), ["child r k-1 c do"]);
    for wrong in [
        "{\"type\":\"cloudroom_child_request\",\"id\":\"k_1\",\"prompt\":\"do\",\"tool_call_id\":\"c\"}",
        "{\"type\":\"cloudroom_child_request\",\"id\":\"k\",\"prompt\":\" \",\"tool_call_id\":\"c\"}",
        "{\"type\":\"cloudroom_child_request\",\"id\":\"k\",\"prompt\":\"do\"}",
    ] {
        assert_eq!(refused(&mut p, &mut state, wrong), "invalid child request");
    }
}

#[test]
fn pi_compactions_end_once() {
    let mut p = Protocol::new("/f", None, Json::Null);
    let mut state = Progress::new();
    p.encode(3, "compact", json("{}"), None);
    let done = "{\"type\":\"response\",\"id\":\"3\",\"command\":\"compact\",\"success\":true}";
    assert_eq!(receive(&mut p, &mut state, done)[1], "compacted completed");
    assert_eq!(receive(&mut p, &mut state, done).len(), 1);
}

#[test]
fn pi_conversations_are_taken_back() {
    let mut p = Protocol::new("/f", Some("s"), Json::Null);
    let mut state = Progress::new();
    p.encode(5, "fork", json("{}"), None);
    let answer = "{\"type\":\"response\",\"command\":\"get_state\",\"success\":true,\"data\":{\"sessionId\":\"t\",\"sessionFile\":\"/g\"}}";
    assert_eq!(p.forks(&json(answer)), Some(("t".to_owned(), "/g".to_owned())));
    let events = receive(&mut p, &mut state, answer);
    assert_eq!(events[1], "rewind_ready {\"cursor\":null,\"id\":\"t\",\"path\":\"/g\"} -");
    assert_eq!((p.path.as_str(), p.expected.as_deref()), ("/g", Some("t")));
    assert!(state.finished && !p.forking);
    p.encode(6, "fork", json("{}"), None);
    assert_eq!(refused(&mut p, &mut state, answer), "Pi did not replace the session");
    assert_eq!(
        refused(&mut p, &mut state, "{\"type\":\"extension_error\"}"),
        "Pi extension failed while preparing the fork"
    );
    receive(&mut p, &mut state, "{\"type\":\"response\",\"command\":\"fork\",\"success\":false}");
    assert!(!p.forking);
}

#[test]
fn pi_is_closed_when_all_has_stopped() {
    let mut p = Protocol::new("/f", None, Json::Null);
    let frames = p.close();
    assert_eq!(frames.len(), 3);
    assert!(p.interrupting);
    for (i, frame) in frames.iter().enumerate() {
        let id = frame.field("id").text_or_empty();
        let answer = json(&format!("{{\"type\":\"response\",\"success\":true,\"id\":\"{id}\"}}"));
        assert_eq!(p.closed(&answer), i == 2);
    }
}

#[test]
fn pi_histories_are_read_on() {
    let mut capture = Capture::new(Json::Null);
    let missing = || Err(Fault { kind: FaultKind::NotFound, message: "gone".to_owned() });
    assert!(!capture.is_there(missing()).unwrap());
    assert!(!capture.is_there(Ok((true, 0))).unwrap());
    assert!(capture.is_there(Ok((true, 9))).unwrap());
    assert_eq!(
        capture.is_there(Ok((false, 9))).unwrap_err().message,
        "Pi history must be a regular file"
    );
    assert_eq!(capture.anchor_place(), None);
    let lines = vec![
        "{\"type\":\"session\",\"id\":\"s\"}\n".to_owned(),
        "{\"id\":\"e\"}\n".to_owned(),
        "{\"id\":\"half".to_owned(),
    ];
    let events = capture.read("s", &lines).unwrap();
    assert_eq!(
        told(&events),
        [
            "native_record {\"cursor\":{\"entry\":\"session:s\"},\"harness\":\"pi\"} {\"type\":\"session\",\"id\":\"s\"}\n",
            "native_record {\"cursor\":{\"entry\":\"e\"},\"harness\":\"pi\"} {\"id\":\"e\"}\n"
        ]
    );
    assert_eq!(capture.offset as usize, lines[0].len() + lines[1].len());
    assert_eq!(capture.anchor_place(), Some(lines[0].len() as u64));
    assert!(is(&capture.cursor, "{\"entry\":\"e\",\"line\":\"{\\\"id\\\":\\\"e\\\"}\\n\"}"));
    assert_eq!(capture.is_there(Ok((true, 0))).unwrap_err().message, "Pi history disappeared");
    assert_eq!(capture.is_there(missing()).unwrap_err().message, "gone");
    // A history that was rewritten is read anew, up to the last entry that is known.
    capture.rewritten();
    assert_eq!(capture.offset, 0);
    let again = vec![lines[0].clone(), lines[1].clone(), "{\"id\":\"g\"}\n".to_owned()];
    let events = capture.read("s", &again).unwrap();
    assert_eq!(
        told(&events),
        ["native_record {\"cursor\":{\"entry\":\"g\"},\"harness\":\"pi\"} {\"id\":\"g\"}\n"]
    );
    capture.rewritten();
    assert_eq!(
        capture.read("s", &vec![lines[0].clone()]).unwrap_err().message,
        "Pi history cursor no longer exists"
    );
    let mut capture = Capture::new(json("{\"entry\":\"e\",\"line\":\"other\"}"));
    assert_eq!(capture.read("s", &lines).unwrap_err().message, "Pi captured entry changed");
}
