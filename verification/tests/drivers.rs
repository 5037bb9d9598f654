use cloudroom::fault::{Fault, FaultKind};
use cloudroom::json::Json;
use cloudroom::runtime::product::Product;
use cloudroom::runtime::auth::{self, Check, CodexAuth};
use cloudroom::runtime::claude_skills::{expand, Skill};
use cloudroom::runtime::cursor_print::{
    capitalize, cli_failure, created, finish, refuse, tail, texts_of_blocks, translate, Action,
    Driver, Hearing,
};
use cloudroom::runtime::process::{read_outcome, Reading};
use cloudroom::runtime::{Event, Progress};
use cloudroom::wire::{read_json, write_json};

const CHAT: &str = "11111111-2222-3333-4444-555555555555";

fn maker() -> Product {
    Product { name: "Maker".to_owned(), word: "maker".to_owned() }
}

fn json(text: &str) -> Json {
    read_json(text).unwrap()
}

fn is(value: &Json, text: &str) -> bool {
    value.same(&json(text))
}

#[test]
fn repeated_segments_are_told_once() {
    let said = json("{\"type\":\"assistant\",\"message\":{\"content\":[{\"type\":\"text\",\"text\":\"he\"},{\"type\":\"image\",\"text\":\"x\"},{\"type\":\"text\",\"text\":\"y\"}]}}");
    let (segment, news) = translate(Some("s"), &said, String::new());
    assert_eq!(segment, "hey");
    assert!(is(
        &news.unwrap(),
        "{\"jsonrpc\":\"2.0\",\"method\":\"session/update\",\"params\":{\"sessionId\":\"s\",\"update\":{\"content\":{\"text\":\"hey\",\"type\":\"text\"},\"sessionUpdate\":\"agent_message_chunk\"}}}"
    ));
    let (segment, news) = translate(Some("s"), &said, segment);
    assert_eq!(segment, "hey");
    assert!(news.is_none());
    let more = json("{\"type\":\"assistant\",\"message\":{\"content\":[{\"type\":\"text\",\"text\":\" you\"}]}}");
    let (segment, news) = translate(Some("s"), &more, segment);
    assert_eq!(segment, "hey you");
    assert!(news.is_some());
    let (segment, news) = translate(None, &json("{\"type\":\"thinking\",\"text\":\"\"}"), segment);
    assert_eq!(segment, "");
    assert!(news.is_none());
    let (_, news) = translate(None, &json("{\"type\":\"thinking\",\"text\":\"hm\"}"), String::new());
    assert!(is(
        &news.unwrap(),
        "{\"jsonrpc\":\"2.0\",\"method\":\"session/update\",\"params\":{\"sessionId\":null,\"update\":{\"content\":{\"text\":\"hm\",\"type\":\"text\"},\"sessionUpdate\":\"agent_thought_chunk\"}}}"
    ));
}

#[test]
fn tools_of_a_turn_are_told() {
    let begun = json("{\"type\":\"tool_call\",\"subtype\":\"started\",\"call_id\":\"a\\nb\",\"tool_call\":{\"readToolCall\":{\"args\":{\"path\":\"/f\"}}}}");
    let (_, news) = translate(Some("s"), &begun, "so far".to_owned());
    assert!(is(
        news.unwrap().field("params").field("update"),
        "{\"sessionUpdate\":\"tool_call\",\"toolCallId\":\"a/b\",\"title\":\"Read\",\"kind\":\"read\",\"status\":\"in_progress\",\"rawInput\":{\"path\":\"/f\"}}"
    ));
    let named = json("{\"type\":\"tool_call\",\"subtype\":\"started\",\"tool_call\":{\"toolCallId\":\"t\",\"mcpToolCall\":{\"args\":{\"toolName\":\"search\"}}}}");
    let (_, news) = translate(Some("s"), &named, String::new());
    let news = news.unwrap();
    let update = news.field("params").field("update");
    assert!(update.field_is("title", "search"));
    assert!(update.field_is("toolCallId", "t"));
    let ended = json("{\"type\":\"tool_call\",\"subtype\":\"completed\",\"call_id\":\"a\",\"tool_call\":{\"readToolCall\":{\"result\":{\"success\":{}}}}}");
    let (_, news) = translate(Some("s"), &ended, String::new());
    assert!(is(
        news.unwrap().field("params").field("update"),
        "{\"sessionUpdate\":\"tool_call_update\",\"toolCallId\":\"a\",\"status\":\"completed\",\"rawOutput\":{\"success\":{}}}"
    ));
    let failed = json("{\"type\":\"tool_call\",\"subtype\":\"completed\",\"tool_call\":{}}");
    let (_, news) = translate(Some("s"), &failed, String::new());
    assert!(is(
        news.unwrap().field("params").field("update"),
        "{\"sessionUpdate\":\"tool_call_update\",\"toolCallId\":\"None\",\"status\":\"failed\",\"rawOutput\":{}}"
    ));
}

#[test]
fn turns_are_answered_by_their_outcome() {
    let id = json("7");
    let end = |cancelled: bool, outcome: &str, stderr: &str| {
        write_json(&finish(&id, cancelled, &json(outcome), 3, stderr))
    };
    assert_eq!(end(true, "null", ""), "{\"id\":7,\"jsonrpc\":\"2.0\",\"result\":{\"stopReason\":\"cancelled\"}}");
    assert_eq!(
        end(false, "{\"type\":\"result\"}", ""),
        "{\"id\":7,\"jsonrpc\":\"2.0\",\"result\":{\"stopReason\":\"end_turn\"}}"
    );
    assert_eq!(
        end(false, "{\"is_error\":true,\"result\":\"no\"}", "x"),
        "{\"error\":{\"code\":-32603,\"message\":\"Cursor turn failed: no\"},\"id\":7,\"jsonrpc\":\"2.0\"}"
    );
    assert!(end(false, "null", " lost \n").contains("Cursor turn failed: lost"));
    assert!(end(false, "null", " \n").contains("Cursor turn failed: exit code 3"));
    assert_eq!(
        write_json(&refuse(&id, "no")),
        "{\"error\":{\"code\":-32602,\"message\":\"no\"},\"id\":7,\"jsonrpc\":\"2.0\"}"
    );
    assert_eq!(capitalize("édit"), "Édit");
    assert_eq!(capitalize(""), "");
    assert_eq!(tail("abcdef", 2), "ef");
    assert_eq!(tail("ab", 5), "ab");
    assert_eq!(texts_of_blocks(json("[{\"type\":\"text\",\"text\":\"a\"},{\"type\":\"text\"}]").items()), "a");
}

#[test]
fn chats_are_opened_and_prompted() {
    let id = json("1");
    assert!(matches!(created(&id, &format!("made\n{CHAT}\n"), "/w"), Action::Open { .. }));
    match created(&id, "none", "/w") {
        Action::Reply(frame) => assert!(frame.field("error").field_is("message", "invalid Cursor chat ID")),
        _ => panic!("a chat without an identity is refused"),
    }
    let mut driver = Driver::new();
    let asked = json(&format!("{{\"id\":1,\"method\":\"session/load\",\"params\":{{\"sessionId\":\"{CHAT}\",\"cwd\":\"/w\"}}}}"));
    assert!(matches!(driver.handle(&asked), Action::Open { .. }));
    let frame = driver.opened(&id, CHAT, "/w", "auto - Auto\nbad\n two - Two\ngpt-5 - GPT 5", "/home/u");
    assert!(frame.field("result").field_is(
        "path",
        &format!("/home/u/.cursor/chats/1cce3e60ac2d51100ef178d6509a4972/{CHAT}/meta.json")
    ));
    assert!(is(
        frame.field("result").field("models"),
        "{\"availableModels\":[{\"modelId\":\"auto\",\"name\":\"Auto\"},{\"modelId\":\"gpt-5\",\"name\":\"GPT 5\"}]}"
    ));
    let set = json("{\"id\":2,\"method\":\"session/set_config_option\",\"params\":{\"configId\":\"model\",\"value\":\"gpt-5\"}}");
    assert!(matches!(driver.handle(&set), Action::Reply(_)));
    let prompt = json(&format!("{{\"id\":3,\"method\":\"session/prompt\",\"params\":{{\"sessionId\":\"{CHAT}\",\"prompt\":[{{\"type\":\"text\",\"text\":\"go\"}}]}}}}"));
    match driver.handle(&prompt) {
        Action::Start { session, cwd, model, text } => {
            assert_eq!((session.as_str(), cwd.as_str(), text.as_str()), (CHAT, "/w", "go"));
            assert_eq!(model.as_deref(), Some("gpt-5"));
        }
        _ => panic!("the turn starts"),
    }
    driver.running = true;
    assert!(matches!(driver.handle(&prompt), Action::Reply(_)));
    assert!(matches!(driver.handle(&json("{\"method\":\"session/cancel\"}")), Action::Cancel));
    driver.running = false;
    assert!(matches!(driver.handle(&json("{\"method\":\"session/cancel\"}")), Action::Nothing));
    match driver.handle(&json("{\"id\":4,\"method\":\"other\"}")) {
        Action::Reply(frame) => assert!(frame.field("error").field_is("message", "Unsupported operation: other")),
        _ => panic!("other operations are refused"),
    }
}

#[test]
fn accounts_of_codex_are_read() {
    let state = |text: &str| auth::read_account(&json(text)).unwrap().unwrap().state;
    assert_eq!(state("{\"account\":null,\"requiresOpenaiAuth\":false}"), "connected");
    assert_eq!(state("{\"account\":null,\"requiresOpenaiAuth\":true}"), "missing");
    assert_eq!(state("{\"account\":{\"type\":\"apiKey\"}}"), "connected");
    assert!(auth::read_account(&json("{\"account\":{\"type\":\"chatgpt\"}}")).unwrap().is_none());
    assert_eq!(auth::read_account(&json("{}")).unwrap_err().message, "Invalid account response");
    let account = json("{\"type\":\"chatgpt\",\"email\":\"a@b\",\"planType\":\"pro\"}");
    let free = auth::read_limits(&account, &json("{\"rateLimits\":{\"primary\":{\"usedPercent\":99.9}}}")).unwrap();
    assert_eq!(free.state, "connected");
    assert_eq!(free.email.as_deref(), Some("a@b"));
    assert_eq!(free.plan.as_deref(), Some("pro"));
    assert!(free.message.is_none());
    for used in ["100", "100.0", "250.5"] {
        let text = format!("{{\"rateLimits\":{{\"secondary\":{{\"usedPercent\":{used}}}}}}}");
        assert_eq!(auth::read_limits(&account, &json(&text)).unwrap().state, "limited");
    }
    assert_eq!(auth::read_limits(&account, &json("{}")).unwrap_err().message, "Missing live account limits");
}

#[test]
fn answers_on_the_account_are_told_apart() {
    let (id, answer) = auth::response(&json("{\"id\":4,\"result\":{\"a\":1}}")).unwrap();
    assert_eq!(id, 4);
    assert!(is(&answer.unwrap(), "{\"a\":1}"));
    assert!(auth::response(&json("{\"id\":4,\"method\":\"m\"}")).is_none());
    assert!(auth::response(&json("{\"id\":\"4\"}")).is_none());
    let failed = |text: &str| {
        let frame = format!("{{\"id\":1,\"error\":{{\"message\":\"{text}\"}}}}");
        auth::failure(&auth::response(&json(&frame)).unwrap().1.unwrap_err()).state
    };
    assert_eq!(failed("status 401"), "missing");
    assert_eq!(failed("Refresh Token expired"), "missing");
    assert_eq!(failed("timed out"), "unavailable");
    match auth::receive(&json("{\"method\":\"account/login/completed\",\"params\":{\"loginId\":\"n\",\"success\":true}}")) {
        Some(Event::Record { kind, data, native }) => {
            assert_eq!(kind, "login_completed");
            assert!(is(&data, "{\"id\":\"n\",\"success\":true}"));
            assert!(native.is_none());
        }
        _ => panic!("the end of a login is told"),
    }
    assert!(auth::receive(&json("{\"method\":\"other\"}")).is_none());
}

#[test]
fn logins_of_codex_are_followed_to_their_end() {
    let mut a = CodexAuth::new();
    let nothing = Json::Null;
    assert_eq!(a.inspect(0, false, &nothing, false), Check::Account);
    a.settle(Check::Account, Err(Fault::other("x")), 0);
    assert_eq!(a.status.state, "unavailable");
    assert_eq!(a.inspect(15_000, false, &nothing, false), Check::Keep);
    assert_eq!(a.inspect(15_000, true, &nothing, false), Check::Account);
    assert_eq!(a.inspect(15_001, false, &nothing, false), Check::Account);
    let account = json("{\"type\":\"chatgpt\"}");
    let limits = json("{\"rateLimits\":{}}");
    a.begin(
        "r",
        Ok(auth::Started { native_id: "n".to_owned(), url: "u".to_owned(), code: "c".to_owned() }),
        20_000,
    );
    assert_eq!(a.inspect(20_001, true, &nothing, false), Check::Keep);
    assert_eq!(a.inspect(20_001, false, &nothing, true), Check::Expired);
    assert_eq!(a.inspect(20_001, false, &json("{\"id\":\"n\",\"success\":false}"), false), Check::Failed);
    assert_eq!(a.inspect(20_001, false, &json("{\"id\":\"m\",\"success\":true}"), false), Check::Keep);
    let check = a.inspect(20_001, false, &json("{\"id\":\"n\",\"success\":true}"), false);
    assert_eq!(check, Check::Login);
    a.settle(check, auth::read_limits(&account, &limits), 20_001);
    assert_eq!(a.status.state, "connected");
    assert!(a.login.is_none());
    assert!(a.take_switched());
    assert!(!a.take_switched());
}

fn skill(name: &str, found: Result<(String, String), Fault>) -> Skill {
    Skill { name: name.to_owned(), origin: "user".to_owned(), found }
}

const MENTION: &str = "{\"text\":\"use /s now\",\"content\":[{\"type\":\"text\",\"text\":\"use /s now\",\"mentions\":[{\"start\":4,\"end\":6,\"resource\":{\"kind\":\"command\",\"source\":\"skill\",\"name\":\"s\",\"origin\":\"user\"}}]}]}";

#[test]
fn chosen_skills_are_put_before_the_request() {
    let known = vec![skill("s", Ok(("/skills/s".to_owned(), "Do it.".to_owned())))];
    assert_eq!(
        expand(&json(MENTION), &known, &maker()).unwrap(),
        "The user explicitly selected these skills. Their instructions are already loaded below; do not invoke them again with the Skill tool. Resolve relative paths from each skill's base directory.\n\nSkill: /s\nBase directory: /skills/s\n\nDo it.\n\nUser request:\nuse s now"
    );
    assert_eq!(expand(&json("{\"text\":\"plain\"}"), &Vec::new(), &maker()).unwrap(), "plain");
    assert_eq!(
        expand(&json("{\"text\":\"plain\",\"content\":[{\"type\":\"text\",\"text\":\"other\"}]}"), &Vec::new(), &maker()).unwrap(),
        "plain"
    );
}

#[test]
fn wrong_mentions_of_skills_are_refused() {
    let known = vec![skill("s", Ok(("/skills/s".to_owned(), "Do it.".to_owned())))];
    let message = |text: &str| expand(&json(text), &known, &maker()).unwrap_err().message;
    assert_eq!(
        message(&MENTION.replace("\"start\":4", "\"start\":3")),
        "Invalid selected skill tag; remove it and select the skill again"
    );
    assert_eq!(message(&MENTION.replace("\"start\":4,", "")), "Invalid selected skill range");
    assert_eq!(message(&MENTION.replace("\"name\":\"s\",", "")), "Invalid selected skill name");
    assert_eq!(message(&MENTION.replace(",\"origin\":\"user\"", "")), "Invalid selected skill origin");
    assert_eq!(
        message(&MENTION.replacen("use /s now", "use /s", 1)),
        "Selected skill content does not match the prompt text"
    );
    let lost = vec![skill("s", Err(Fault { kind: FaultKind::NotFound, message: "gone".to_owned() }))];
    assert_eq!(expand(&json(MENTION), &lost, &maker()).unwrap_err().message, "Cannot load /s: gone");
}

#[test]
fn calls_need_the_turn_they_are_about() {
    let mut p = Progress::new();
    assert!(p.allow(None, None, Ok(())).is_ok());
    assert!(p.allow(None, Some("r"), Ok(())).is_ok());
    assert_eq!(p.request.as_deref(), Some("r"));
    assert!(p.check_interrupt("r").is_ok());
    assert!(p.check_steer("r").is_ok());
    assert_eq!(p.check_interrupt("q").unwrap_err().message, "interrupt target is no longer active");
    assert_eq!(p.check_steer("q").unwrap_err().message, "steer target is no longer active");
    assert!(p.allow(Some("r"), None, Ok(())).is_ok());
    assert!(p.allow(Some("q"), None, Ok(())).is_err());
    assert_eq!(p.allow(None, None, Err(Fault::other("no"))).unwrap_err().message, "no");
    assert_eq!(p.allow(None, Some("s"), Ok(())).unwrap_err().message, "harness is busy");
    p.finished = true;
    assert!(p.check_interrupt("r").is_err());
    assert!(p.check_steer("r").is_err());
    assert!(p.allow(None, Some("s"), Ok(())).is_ok());
}

#[test]
fn the_end_of_the_output_is_told_from_a_loss() {
    assert_eq!(read_outcome(Some(3), false), Reading::Line);
    assert_eq!(read_outcome(Some(3), true), Reading::Line);
    assert_eq!(read_outcome(Some(0), true), Reading::Ended);
    assert_eq!(read_outcome(Some(0), false), Reading::Lost);
    assert_eq!(read_outcome(None, true), Reading::Lost);
}

#[test]
fn failed_commands_of_cursor_are_explained() {
    assert_eq!(cli_failure("out", " no login \n"), "no login");
    assert_eq!(cli_failure(" out ", ""), "out");
    assert_eq!(cli_failure("", "\n"), "Cursor CLI failed");
    assert_eq!(cli_failure("out", " "), "Cursor CLI failed");
    let long = "a".repeat(10) + &"b".repeat(300);
    assert_eq!(cli_failure("", &long), "b".repeat(300));
}

#[test]
fn only_objects_are_events_of_a_turn() {
    let mut turn = Hearing::new();
    assert!(turn.outcome.is_null());
    let news = turn
        .hear(
            Some("s"),
            b"{\"type\":\"assistant\",\"message\":{\"content\":[{\"type\":\"text\",\"text\":\"he\"}]}}",
        )
        .unwrap();
    assert!(news.field("params").field_is("sessionId", "s"));
    assert_eq!(turn.segment, "he");
    for line in [&b"{"[..], b"[1]", b"\"result\"", b"", b"\xff"] {
        assert!(turn.hear(Some("s"), line).is_none());
        assert_eq!(turn.segment, "he");
        assert!(turn.outcome.is_null());
    }
    assert!(turn.hear(None, b"{\"type\":\"result\",\"is_error\":false}").is_none());
    assert!(is(&turn.outcome, "{\"type\":\"result\",\"is_error\":false}"));
    assert_eq!(turn.segment, "");
    turn.hear(None, b"{\"type\":\"result\",\"result\":\"x\"}");
    assert!(turn.outcome.field_is("result", "x"));
}

#[test]
fn only_objects_are_messages_to_the_driver() {
    let mut driver = Driver::new();
    for line in ["", "{", "[]", "1"] {
        assert!(driver.take(line).is_none());
    }
    let (request, action) = driver.take("{\"id\":7,\"method\":\"initialize\"}").unwrap();
    assert_eq!(write_json(&request), "7");
    assert!(matches!(action, Action::Reply(frame) if frame.field("id").as_u64() == Some(7)));
    let (request, action) = driver.take("{\"method\":\"session/cancel\"}").unwrap();
    assert!(request.is_null());
    assert!(matches!(action, Action::Nothing));
}
