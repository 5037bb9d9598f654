use cloudroom::fault::Fault;
use cloudroom::json::Json;
use cloudroom::runtime::auth::CodexAuth;
use cloudroom::runtime::capture::Tail;
use cloudroom::runtime::claude_login::{read_url, token_file};
use cloudroom::runtime::claude_skills::{
    body, byte_offset, check_candidates, check_name, instructions, roots, Folder,
};
use cloudroom::runtime::claude_version::{ensure, installed, installed_error, valid, Update};
use cloudroom::runtime::codex::respond;
use cloudroom::runtime::command_guard::{codex_command, guarded_command};
use cloudroom::runtime::cursor::{chat_root, valid_fx_id, valid_id};
use cloudroom::runtime::cursor_auth::valid_key;
use cloudroom::runtime::cursor_models::{check_selected, models, parse, resolve, select_model};
use cloudroom::runtime::cursor_print::{descendants, is_truthy, Action, Driver};
use cloudroom::runtime::product::{home, is_told_home, label, Product};
use cloudroom::runtime::files::{image_paths, place_image};
use cloudroom::runtime::fx;
use cloudroom::runtime::linux::{check_identity, is_empty, is_frozen, presence, Presence};
use cloudroom::runtime::pi::{read_header, thinking};
use cloudroom::runtime::pi_auth::{entry, import, set_key};
use cloudroom::runtime::process::conclude;
use cloudroom::runtime::{capabilities, Event, ExitDetails, Kind, Progress};
use cloudroom::wire::{read_json, write_json};

fn json(text: &str) -> Json {
    read_json(text).unwrap()
}

fn maker() -> Product {
    Product { name: "Maker".to_owned(), word: "maker".to_owned() }
}

fn owned(texts: &[&str]) -> Vec<String> {
    texts.iter().map(|t| t.to_string()).collect()
}

#[test]
fn harnesses_have_names() {
    for kind in [Kind::Codex, Kind::Pi, Kind::Claude, Kind::Cursor, Kind::Fx] {
        assert_eq!(Kind::named(kind.name("maker"), "maker"), Some(kind));
    }
    assert_eq!(Kind::named("other", "maker"), None);
    assert_eq!((Kind::Claude.name("maker"), Kind::Cursor.name("maker")), ("maker", "cursor"));
    assert_eq!(Kind::in_json(&json("\"pi\""), "maker"), Some(Kind::Pi));
    assert_eq!(Kind::in_json(&json("1"), "maker"), None);
    assert!(capabilities(Kind::Codex).as_object().is_some());
}

#[test]
fn turns_start_and_end_once() {
    let mut p = Progress::new();
    assert!(p.started().is_none());
    p.ask("r");
    match p.started() {
        Some(Event::Started { request, .. }) => assert_eq!(request, "r"),
        _ => panic!("the turn has started"),
    }
    assert!(p.started().is_none());
    assert!(p.finished("completed", None).is_some());
    assert!(p.finished("failed", None).is_none());
}

#[test]
fn the_end_of_a_process_keeps_its_last_words() {
    let mut details = ExitDetails::new();
    details.capture(b"first ");
    details.capture(b"last");
    assert_eq!(details.stderr(), b"first last");
    assert_eq!(details.stderr_bytes, 10);
}

#[test]
fn versions_of_programs() {
    assert!(valid("2.0.14"));
    assert!(!valid("2.0"));
    assert!(!valid("2.0.1234567"));
    assert!(!valid("2.0.x"));
    assert!(!valid("2..1"));
    assert_eq!(installed("2.0.14 (code)\n", &maker()).unwrap(), "2.0.14");
    assert!(installed("none", &maker()).is_err());
    let now = || -> Result<String, Fault> { Ok("1.0.0".to_owned()) };
    assert!(matches!(ensure(now(), "1.0.0", false, true), Update::Current(_)));
    assert!(matches!(ensure(now(), "2.0.0", false, true), Update::Waiting(_)));
    assert!(matches!(ensure(now(), "2.0.0", true, false), Update::Underway(_)));
    assert!(matches!(ensure(now(), "2.0.0", false, false), Update::Begin(_)));
    let failed = Err(Fault::other("gone"));
    assert!(matches!(ensure(failed, "2.0.0", false, false), Update::Failed(_)));
    assert_eq!(
        write_json(&ensure(now(), "2.0.0", false, true).to_json("2.0.0", Some("before"))),
        "{\"error\":\"before\",\"installed\":\"1.0.0\",\"state\":\"waiting\",\"target\":\"2.0.0\"}"
    );
    assert_eq!(installed_error("1.0.0", Ok(Some(0)), now(), &maker()), None);
    assert_eq!(
        installed_error("2.0.0", Ok(Some(3)), now(), &maker()).unwrap(),
        "maker install 2.0.0 failed (exit Some(3))"
    );
}

#[test]
fn variants_of_models_are_families() {
    let ids = parse("gpt-5-low - GPT\n  gpt-5-high-fast - GPT\nauto - Auto\nodd id - x\n - none\nx\n");
    assert_eq!(ids, ["gpt-5-low", "gpt-5-high-fast", "auto"]);
    let list = models(&ids);
    assert_eq!(list.len(), 2);
    assert_eq!((list[0].model.as_str(), &list[0].reasoning_levels), ("default", &owned(&["medium"])));
    assert_eq!(list[1].model, "gpt-5");
    assert_eq!(list[1].reasoning_levels, ["low", "high"]);
    assert_eq!(resolve(&ids, "gpt-5", Some("high")).unwrap(), "gpt-5-high-fast");
    assert_eq!(resolve(&ids, "gpt-5", None).unwrap(), "gpt-5-low");
    assert_eq!(resolve(&ids, "gpt-5", Some("max")), None);
    assert_eq!(resolve(&ids, "other", None), None);
}

#[test]
fn thinking_variants_come_before_others() {
    let ids = owned(&["m-low", "m-medium", "m-thinking", "cursor-small-high"]);
    assert_eq!(resolve(&ids, "m", Some("none")).unwrap(), "m-medium");
    assert_eq!(resolve(&ids, "m", Some("medium")).unwrap(), "m-thinking");
    assert_eq!(resolve(&ids, "small", Some("high")).unwrap(), "cursor-small-high");
}

#[test]
fn sessions_are_set_to_a_variant() {
    let session = json("{\"models\":{\"availableModels\":[{\"modelId\":\"auto\"},{\"modelId\":\"m-high\"},{}]}}");
    assert_eq!(select_model(&session, "auto", None).unwrap(), "auto");
    assert_eq!(select_model(&session, "m", Some("high")).unwrap(), "m-high");
    assert_eq!(
        select_model(&session, "m", Some("low")).unwrap_err().message,
        "Cursor offers no low variant of m for this account"
    );
    assert_eq!(
        select_model(&json("{}"), "m", None).unwrap_err().message,
        "Cursor model catalog unavailable"
    );
    let confirmed = json("{\"configOptions\":[{\"id\":\"model\",\"currentValue\":\"m-high\"}]}");
    assert!(check_selected(&confirmed, "m-high").is_ok());
    assert!(check_selected(&confirmed, "m-low").is_err());
}

#[test]
fn identities_of_chats() {
    assert!(valid_id("0123abcd-0123-0123-0123-0123456789ab"));
    assert!(!valid_id("0123ABCD-0123-0123-0123-0123456789ab"));
    assert!(valid_fx_id("1700000000000-12-0123456789abcdef"));
    assert!(!valid_fx_id("1700000000000-12-0123456789ABCDEF"));
    assert!(chat_root("/home", "bad", "/home/chats/x").is_err());
    let chat = "0123abcd-0123-0123-0123-0123456789ab";
    let key = "0123456789abcdef".repeat(2);
    let file = format!("chats/{key}/{chat}/meta.json");
    assert_eq!(chat_root("/home", chat, &format!("/home/{file}")).unwrap(), format!("/home/chats/{key}"));
    assert_eq!(chat_root("/home/", chat, &format!("/home//./{file}")).unwrap(), format!("/home/chats/{key}"));
    assert!(chat_root("/home", chat, &format!("/other/{file}")).is_err());
    assert!(chat_root("/home", chat, &format!("/home/../{file}")).is_err());
    assert!(chat_root("/home", chat, &format!("/home/{file}/x")).is_err());
    assert!(valid_key("key_123"));
    assert!(!valid_key("key 123"));
}

#[test]
fn fx_takes_models_it_offers() {
    let session = json("{\"configOptions\":[{\"id\":\"model\",\"options\":[{\"value\":\"m\"}]}]}");
    assert!(fx::start("s", &session, "default").unwrap().is_none());
    assert_eq!(
        write_json(&fx::start("s", &session, "m").unwrap().unwrap()),
        "{\"configId\":\"model\",\"sessionId\":\"s\",\"value\":\"m\"}"
    );
    assert_eq!(
        fx::start("s", &session, "n").unwrap_err().message,
        "fx model n is unavailable for this account"
    );
    assert_eq!(fx::check_model(&session, "m").unwrap_err().message, "fx did not confirm model m");
    let id = "1700000000000-12-0123456789abcdef";
    let path = format!("/fx/sessions/{id}/session.json");
    assert!(fx::check_path("/fx", id, &path).is_ok());
    assert!(fx::check_path("/fx/", id, &format!("/fx//sessions/{id}/./session.json")).is_ok());
    assert!(fx::check_path("/fx", id, "/fx/sessions/x/session.json").is_err());
    assert!(fx::check_metadata(&json("{\"id\":\"a\"}"), "a").is_ok());
    assert!(fx::check_metadata(&json("{\"id\":\"a\"}"), "b").is_err());
    assert!(fx::read_metadata(b"{\"id\":\"a\"}", "a").is_ok());
    assert_eq!(
        fx::read_metadata(b"{\"id\":\"a\"}", "b").unwrap_err().message,
        "Unsupported fx native metadata"
    );
    assert_eq!(
        fx::read_metadata(b"", "a").unwrap_err().message,
        "EOF while parsing a value at line 1 column 0"
    );
    assert!(fx::check_home(false).is_err());
    assert_eq!(fx::environment(), ["FX_PERMISSION_MODE=full-access", "FX_AUTO_UPGRADE=0"]);
}

#[test]
fn logins_of_providers_are_checked() {
    assert!(entry(&json("{\"type\":\"api_key\",\"key\":\"k\",\"x\":1}")).is_some());
    assert!(entry(&json("{\"type\":\"api_key\",\"key\":\"!cmd\"}")).is_none());
    assert!(entry(&json("{\"type\":\"api_key\",\"key\":\"\"}")).is_none());
    assert!(entry(&json("{\"type\":\"api_key\",\"key\":\"k\",\"env\":{\"A-B\":\"v\"}}")).is_none());
    assert!(entry(&json("{\"type\":\"oauth\",\"access\":\"a\",\"refresh\":\"r\",\"expires\":1.5}")).is_some());
    assert!(entry(&json("{\"type\":\"oauth\",\"access\":\"a\",\"refresh\":\"r\"}")).is_none());
    let all = import(&json("{\"a.b\":{\"type\":\"api_key\",\"key\":\"k\"},\"bad name\":{\"type\":\"api_key\",\"key\":\"k\"},\"c\":{}}")).unwrap();
    assert_eq!(all.len(), 1);
    assert!(all.contains("a.b"));
    assert_eq!(import(&json("[]")).unwrap_err().message, "invalid Pi logins");
    assert_eq!(write_json(&set_key("p", "k").unwrap()), "{\"key\":\"k\",\"type\":\"api_key\"}");
    assert_eq!(set_key("p", "!k").unwrap_err().message, "invalid Pi provider key");
    assert_eq!(set_key("p q", "k").unwrap_err().message, "invalid Pi provider key");
}

#[test]
fn skills_are_found_and_read() {
    assert_eq!(byte_offset("a😀b", 3).unwrap(), 5);
    assert_eq!(byte_offset("a😀b", 4).unwrap(), 6);
    assert_eq!(byte_offset("a😀b", 2).unwrap_err().message, "Invalid selected skill range");
    assert_eq!(body("---\nname: x\n---\nDo it.\n", "x", &maker()).unwrap(), "Do it.\n");
    assert_eq!(body("\u{feff}Plain\r\ntext", "x", &maker()).unwrap(), "Plain\ntext");
    assert!(body("---\nmodel: y\n---\nDo it.\n", "x", &maker()).is_err());
    assert!(body("Use $ARGUMENTS", "x", &maker()).is_err());
    assert_eq!(body(" \n", "x", &maker()).unwrap_err().message, "Skill /x is empty");
    assert_eq!(
        body("---\nmodel: y\n---\nDo it.\n", "x", &maker()).unwrap_err().message,
        "Skill /x uses native Maker settings. Use its native invocation instead of a Cloudroom skill tag."
    );
    assert_eq!(instructions(7, "Do it.\n", "x", &maker()).unwrap(), "Do it.\n");
    assert_eq!(
        instructions(16_777_217, "Do it.\n", "x", &maker()).unwrap_err().message,
        "Skill exceeds the Maker input limit"
    );
    assert!(check_name("a-b_C").is_ok());
    assert!(check_name("a:b").is_err());
    assert!(check_candidates("a", 1).is_ok());
    assert_eq!(
        check_candidates("a", 0).unwrap_err().message,
        "Skill /a is missing on this machine. Check its installation and select it again."
    );
    assert!(check_candidates("a", 2).unwrap_err().message.contains("ambiguous"));
}

#[test]
fn skills_of_a_project_end_at_its_root() {
    let folder = |path: &str, repository: bool| Folder { path: path.to_owned(), repository };
    let inside = vec![folder("/a/b", false), folder("/a", true), folder("/", false)];
    assert_eq!(roots("/home", "project", &maker(), &inside).unwrap(), ["/a/b/.maker/skills", "/a/.maker/skills"]);
    let outside = vec![folder("/a/b", false), folder("/a", false), folder("/", false)];
    assert_eq!(roots("/home", "project", &maker(), &outside).unwrap(), ["/a/b/.maker/skills"]);
    assert_eq!(roots("/home", "user", &maker(), &outside).unwrap(), ["/home/skills"]);
    assert!(roots("/home", "other", &maker(), &outside).is_err());
}

#[test]
fn sign_in_pages_are_known() {
    for page in [
        "https://maker.ai/oauth/authorize?x",
        "https://maker.com/cai/oauth/authorize?x",
        "https://platform.maker.com/oauth/authorize?x",
    ] {
        let other = Product { name: "Other".to_owned(), word: "other".to_owned() };
        let info = json(&format!("{{\"manualUrl\":\"{page}\"}}"));
        assert_eq!(read_url(&info, &maker()).unwrap(), page);
        assert!(read_url(&info, &other).is_err());
    }
    assert!(read_url(&json("{\"manualUrl\":\"https://maker.ai/other\"}"), &maker()).is_err());
    assert_eq!(
        read_url(&json("{}"), &maker()).unwrap_err().message,
        "Unexpected Maker sign-in URL"
    );
    assert_eq!(token_file("t", Some("plan")), "t\nplan\n");
    assert_eq!(token_file("t", None), "t\n\n");
}

#[test]
fn guarded_commands_end_in_the_harness() {
    let args = guarded_command("src", "/h", "node", "/bin/x", Some("maker"));
    assert_eq!(args[2..], ["cloudroom-command-guard", "src", "/h/cloudroom-command-guard", "node", "maker", "--settings", "/bin/x"]);
    let codex = codex_command("src", "/h", "node", "/bin/x");
    assert_eq!(codex[7..], ["-c", "/bin/x", "app-server", "--listen", "stdio://"]);
}

#[test]
fn history_is_read_line_by_line() {
    let mut tail = Tail::new(3);
    let events = tail.feed(b"{\"a\":1}\n{\"b\"").unwrap();
    assert_eq!(events.len(), 1);
    match &events[0] {
        Event::Record { kind, data, native } => {
            assert_eq!(kind, "native_record");
            assert_eq!(data.field("offset").as_u64(), Some(3));
            assert_eq!(native.as_deref(), Some("{\"a\":1}\n"));
        }
        _ => panic!("a record"),
    }
    assert_eq!((tail.committed_offset, tail.read_offset), (11, 15));
    let rest = tail.feed(b":2}\n").unwrap();
    match &rest[0] {
        Event::Record { data, native, .. } => {
            assert_eq!(data.field("offset").as_u64(), Some(11));
            assert_eq!(native.as_deref(), Some("{\"b\":2}\n"));
        }
        _ => panic!("a record"),
    }
    assert!(tail.truncated(18));
    assert!(!tail.truncated(19));
    assert!(tail.feed(b"\xff\n").is_err());
}

#[test]
fn workloads_are_seen() {
    assert!(is_frozen("populated 1\nfrozen 1\n", true));
    assert!(!is_frozen("populated 1\nfrozen 0\n", true));
    assert!(is_empty("populated 0\n"));
    assert!(!is_empty("populated 1\n"));
    assert!(check_identity(1000, 1000).is_ok());
    assert_eq!(check_identity(0, 1000).unwrap_err().message, "agent identity must be unprivileged");
    assert_eq!(presence(Some(1), "", false), Presence::Gone);
    assert_eq!(descendants("1 0\n2 1\n3 2\n4 9\n", 1), [2, 3]);
}

#[test]
fn pictures_go_with_prompts() {
    let input = json("{\"attachments\":[{\"kind\":\"image\",\"path\":\"/a.png\"},{\"kind\":\"file\",\"path\":\"/b\"}]}");
    assert_eq!(image_paths(&input), ["/a.png"]);
    let (image, rest) = place_image("/a.png", b"foobar", 1000).unwrap();
    assert!(write_json(&image).contains("Zm9vYmFy"));
    assert!(rest < 1000);
    assert!(place_image("/a.png", b"foobar", 4).is_err());
}

#[test]
fn sessions_of_pi_have_a_header() {
    assert_eq!(read_header("{\"type\":\"session\",\"id\":\"s\",\"version\":3}", Some("s")).unwrap(), "s");
    assert!(read_header("{\"type\":\"session\",\"id\":\"s\",\"version\":3}", Some("t")).is_err());
    assert!(read_header("{}", None).is_err());
    assert_eq!(thinking("high"), "high");
}

#[test]
fn the_driver_runs_one_turn_at_a_time() {
    let mut driver = Driver::new();
    let asked = driver.handle(&json("{\"id\":1,\"method\":\"session/prompt\",\"params\":{\"sessionId\":\"s\",\"prompt\":[{\"type\":\"text\",\"text\":\"x\"}]}}"));
    assert!(matches!(asked, Action::Reply(_)));
    assert!(is_truthy(&json("[]")) == is_truthy(&json("{}")));
    assert!(!is_truthy(&json("0")));
}

#[test]
fn logins_are_one_at_a_time() {
    let auth = CodexAuth::new();
    assert!(auth.may_login());
    assert!(auth.may_import());
}

#[test]
fn ends_of_processes_are_told() {
    let (reason, expected) = conclude("service stopped owned harness", true, true, true, false);
    assert!(expected);
    assert!(!reason.is_empty());
    let (_, unexpected) = conclude("harness process exited", true, true, false, false);
    assert!(!unexpected);
    assert!(respond(&json("{\"id\":1,\"method\":\"unknown\"}")).is_some());
    assert!(respond(&json("{\"method\":\"note\"}")).is_none());
}

#[test]
fn products_are_called_by_their_words() {
    assert_eq!(label("maker"), "maker-code");
    assert_eq!(home("/home/agent", "maker"), "/home/agent/.maker");
    assert!(!is_told_home("/home/agent/.maker/", "/home/agent", "maker"));
    assert!(is_told_home("/srv/maker", "/home/agent", "maker"));
}

#[test]
fn levels_are_served_as_they_are_listed() {
    let ids = owned(&["gpt-5-low", "gpt-5-high-fast", "auto", "m-low", "m-medium", "m-thinking"]);
    for family in models(&ids) {
        if family.model != "default" {
            for level in ["none", "low", "medium", "high", "max"] {
                let listed = family.reasoning_levels.iter().any(|l| l == level);
                assert_eq!(resolve(&ids, &family.model, Some(level)).is_some(), listed);
            }
        }
    }
    assert_eq!(resolve(&ids, "m", None), resolve(&ids, "m", Some("medium")));
    assert_eq!(resolve(&ids, "gpt-5", None), resolve(&ids, "gpt-5", Some("low")));
}
