use cloudroom::fault::FaultKind;
use cloudroom::json::Json;
use cloudroom::runtime::auth::{self, AccountCall};
use cloudroom::runtime::claude::bootstrap_params;
use cloudroom::runtime::claude_login::callback_params;
use cloudroom::runtime::cursor::{check_home, check_snapshot, SNAPSHOT_ERROR};
use cloudroom::runtime::cursor_auth;
use cloudroom::runtime::cursor_models::read_list;
use cloudroom::runtime::files::{check_opened, locate, open_request, read_opener, relative};
use cloudroom::runtime::helper::configured;
use cloudroom::runtime::pi_auth::{
    import_request, key_request, providers_request, read_providers, read_result, request,
};
use cloudroom::runtime::{codex, pi};
use cloudroom::session::teleport::{check_id, not_placed};
use cloudroom::session::Error;
use cloudroom::table::Table;
use cloudroom::wire::{read_json, write_json};

fn json(text: &str) -> Json {
    read_json(text).unwrap()
}

#[test]
fn imported_logins_never_replace_others() {
    let asked = import_request(
        Some("/pi"),
        &json("{\"a\":{\"type\":\"api_key\",\"key\":\"k\"},\"b c\":{\"type\":\"api_key\",\"key\":\"k\"}}"),
    )
    .unwrap();
    assert_eq!(
        write_json(&asked),
        "{\"credentials\":{\"a\":{\"key\":\"k\",\"type\":\"api_key\"}},\"op\":\"pi_auth\",\"replace\":false,\"tree\":{\"filename\":\"auth.json\",\"kind\":\"auth\",\"root\":\"/pi\"}}"
    );
    assert_eq!(import_request(None, &json("[]")).unwrap_err().message, "invalid Pi logins");
    assert_eq!(import_request(None, &json("{}")).unwrap_err().message, "Pi is not configured");
    let listed = providers_request(Some("/pi")).unwrap();
    assert!(listed.field("replace").is_false());
    assert_eq!(write_json(listed.field("credentials")), "{}");
    let mut one = Table::new();
    one.insert("p", Json::text("x"));
    let whole = request("/h", &one, true);
    assert_eq!(write_json(whole.field("credentials")), "{\"p\":\"x\"}");
    assert!(whole.field("replace").is_true());
    assert_eq!(configured(None, "gone").unwrap_err().message, "gone");
}

#[test]
fn keys_replace_the_login_of_their_provider() {
    let asked = key_request(Some("/pi"), "p", "k").unwrap();
    assert!(asked.field("replace").is_true());
    assert_eq!(
        write_json(asked.field("credentials")),
        "{\"p\":{\"key\":\"k\",\"type\":\"api_key\"}}"
    );
    let refused = key_request(None, "p q", "k").unwrap_err();
    assert_eq!(refused.kind, FaultKind::InvalidInput);
    assert_eq!(refused.message, "invalid Pi provider key");
    assert_eq!(key_request(None, "p", "k").unwrap_err().message, "Pi is not configured");
}

#[test]
fn the_helper_tells_which_logins_there_are() {
    let told = b"{\"ok\":true,\"providers\":[\"a\",\"b\"],\"added\":[\"b\"],\"x\":1}";
    assert_eq!(
        write_json(&read_result(true, told).unwrap()),
        "{\"added\":[\"b\"],\"providers\":[\"a\",\"b\"]}"
    );
    assert_eq!(write_json(&read_providers(true, told).unwrap()), "{\"providers\":[\"a\",\"b\"]}");
    let failed = |success, bytes: &[u8]| read_result(success, bytes).unwrap_err().message;
    assert_eq!(
        failed(true, b"{\"ok\":false,\"error\":\"locked\"}"),
        "Pi login file update failed (locked)"
    );
    assert_eq!(failed(false, told), "Pi login file update failed (no helper result)");
    assert_eq!(failed(true, b"{"), "Pi login file update failed (no helper result)");
    assert_eq!(failed(true, b"{\"ok\":1}"), "Pi login file update failed (no helper result)");
    assert_eq!(
        read_providers(true, b"").unwrap_err().message,
        "Pi login file update failed (no helper result)"
    );
}

#[test]
fn saved_logins_are_put_in_place_by_the_helper() {
    assert_eq!(
        write_json(&auth::import_request("/c", &json("{\"t\":1}"))),
        "{\"credentials\":{\"t\":1},\"op\":\"import_auth\",\"tree\":{\"create\":true,\"filename\":\"auth.json\",\"kind\":\"auth\",\"root\":\"/c\"}}"
    );
    auth::read_import(true, b"{\"ok\":true}").unwrap();
    let failed = |success, bytes: &[u8]| auth::read_import(success, bytes).unwrap_err().message;
    assert_eq!(failed(false, b"{\"ok\":true}"), "Codex login import failed");
    assert_eq!(failed(false, b"{"), "Codex login import failed");
    assert_eq!(failed(true, b"{\"ok\":false}"), "Codex login import failed");
    assert_eq!(failed(true, b"{"), "EOF while parsing an object at line 1 column 1");
}

#[test]
fn keys_of_cursor_are_saved_by_the_helper() {
    assert_eq!(
        write_json(&cursor_auth::key_request("/c", "k")),
        "{\"key\":\"k\",\"op\":\"cursor_key\",\"tree\":{\"create\":true,\"filename\":\"cloudroom-api-key\",\"root\":\"/c\"}}"
    );
    cursor_auth::read_saved(true, b"{\"ok\":true}").unwrap();
    let failed = |success, bytes: &[u8]| cursor_auth::read_saved(success, bytes).unwrap_err().message;
    assert_eq!(failed(false, b"{\"ok\":true}"), "Cursor key was not saved");
    assert_eq!(failed(true, b"[]"), "Cursor key was not saved");
    assert_eq!(failed(true, b""), "EOF while parsing a value at line 1 column 0");
}

#[test]
fn files_outside_their_root_are_refused() {
    assert_eq!(relative("/r", "/r/a/b.png").unwrap(), "a/b.png");
    assert_eq!(relative("/", "/a").unwrap(), "a");
    assert_eq!(relative("/r", "/r").unwrap(), "");
    for path in ["/r2/a", "/", "/a/r/b", "r/a"] {
        let refused = relative("/r", path).unwrap_err();
        assert_eq!(refused.kind, FaultKind::PermissionDenied);
        assert_eq!(refused.message, "file is outside its allowed directory");
    }
}

#[test]
fn files_are_looked_for_below_their_root() {
    let found = |root, path| locate(root, path).unwrap();
    assert_eq!(found("/r", "a/b.png"), ("/r/a".to_owned(), "b.png".to_owned()));
    assert_eq!(found("/r", "/x/y/"), ("/x".to_owned(), "y".to_owned()));
    assert_eq!(found("/r", "/x"), ("/".to_owned(), "x".to_owned()));
    assert_eq!(found("/r", "../x"), ("/r/..".to_owned(), "x".to_owned()));
    assert_eq!(locate("/r", "/").unwrap_err().message, "file has no parent");
    assert_eq!(locate("/r", "a/..").unwrap_err().message, "file has no name");
}

#[test]
fn the_opener_is_asked_and_heard() {
    assert_eq!(
        write_json(&open_request("/r", "a/b", true)),
        "{\"directory\":true,\"op\":\"open\",\"path\":\"a/b\",\"tree\":{\"root\":\"/r\"}}"
    );
    assert_eq!(read_opener(b"{\"errno\":2}").unwrap(), 2);
    assert_eq!(read_opener(b"{\"errno\":-7}").unwrap(), -7);
    assert_eq!(read_opener(b"{}").unwrap_err().message, "agent file path is invalid");
    assert_eq!(
        read_opener(b"").unwrap_err().message,
        "agent file opener returned no file"
    );
    check_opened(true, true, false).unwrap();
    check_opened(false, false, true).unwrap();
    assert_eq!(check_opened(true, false, true).unwrap_err().message, "unexpected file type");
    assert_eq!(check_opened(false, true, false).unwrap_err().message, "unexpected file type");
    assert!(check_opened(false, false, false).is_err());
}

#[test]
fn cursor_lists_its_models() {
    let listed = read_list(true, b"Models\ngpt-5 - GPT 5\n").unwrap();
    assert_eq!(listed.len(), 1);
    assert_eq!(listed[0].model, "gpt-5");
    for (success, bytes) in [(false, &b"gpt-5 - GPT 5\n"[..]), (true, &b"\xff\n"[..])] {
        assert_eq!(read_list(success, bytes).unwrap_err().message, "Cursor model list unavailable");
    }
}

#[test]
fn snapshots_of_cursor_can_fail() {
    check_snapshot(true, b"noise").unwrap();
    assert_eq!(
        check_snapshot(false, b"no disk").unwrap_err().message,
        "Cursor native snapshot failed: no disk"
    );
    assert_eq!(
        check_snapshot(false, b"\xff").unwrap_err().message,
        "Cursor native snapshot failed: "
    );
    let long = vec![b'x'; SNAPSHOT_ERROR + 5];
    let message = check_snapshot(false, &long).unwrap_err().message;
    assert_eq!(message.len(), "Cursor native snapshot failed: ".len() + SNAPSHOT_ERROR);
    check_home("/home/a/.cursor", "/home/a/.cursor/").unwrap();
    assert_eq!(
        check_home("/home/b/.cursor", "/home/a/.cursor").unwrap_err().message,
        "Cursor home must belong to the configured agent account"
    );
}

#[test]
fn calls_carry_their_parameters() {
    let (method, params) = AccountCall::Read.frame();
    assert_eq!((method, write_json(&params).as_str()), ("account/read", "{\"refreshToken\":false}"));
    let (method, params) = AccountCall::Limits.frame();
    assert_eq!((method, write_json(&params).as_str()), ("account/rateLimits/read", "{}"));
    let (method, params) = AccountCall::Login.frame();
    assert_eq!(method, "account/login/start");
    assert_eq!(write_json(&params), "{\"type\":\"chatgptDeviceCode\"}");
    assert_eq!(write_json(&auth::cancel_params("n")), "{\"loginId\":\"n\"}");
    assert_eq!(
        write_json(&callback_params(Some("c"), None)),
        "{\"authorizationCode\":\"c\",\"state\":null}"
    );
    assert!(bootstrap_params().field_is(
        "text",
        "Cloudroom session initialized. No user task has been submitted yet."
    ));
    assert_eq!(
        write_json(&codex::page_params(&Json::text("next"))),
        "{\"cursor\":\"next\",\"includeHidden\":true}"
    );
    assert_eq!(
        write_json(&codex::settings_params("/w")),
        "{\"cwd\":\"/w\",\"includeLayers\":false}"
    );
    assert_eq!(
        write_json(&codex::terminate_params("t", "p")),
        "{\"processId\":\"p\",\"threadId\":\"t\"}"
    );
    assert_eq!(write_json(&pi::prompt_params("x", Vec::new())), "{\"message\":\"x\"}");
    assert_eq!(
        write_json(&pi::prompt_params("x", vec![Json::text("i")])),
        "{\"images\":[\"i\"],\"message\":\"x\"}"
    );
    assert_eq!(
        write_json(&pi::steer_params("x")),
        "{\"message\":\"x\",\"streamingBehavior\":\"steer\"}"
    );
    assert_eq!(
        write_json(&pi::usage(json("{\"a\":1}"), json("{\"b\":2}"))),
        "{\"a\":1,\"lastUsage\":{\"b\":2}}"
    );
    pi::check_forked(&json("{\"cancelled\":false}")).unwrap();
    let refused = pi::check_forked(&json("{\"cancelled\":true}")).unwrap_err();
    assert_eq!(refused.kind, FaultKind::InvalidInput);
    assert_eq!(refused.message, "Pi cancelled the rewind");
}

#[test]
fn transfers_have_names_and_places() {
    check_id("a-b_1").unwrap();
    assert!(matches!(check_id("a/b"), Err(Error::Conflict(why)) if why == "invalid transfer ID"));
    assert!(matches!(not_placed(true), Error::Storage(_)));
    assert!(
        matches!(not_placed(false), Error::Conflict(why) if why == "teleport file validation failed")
    );
}
