use cloudroom::fault::{Fault, FaultKind};
use cloudroom::json::Json;
use cloudroom::runtime::auth::{self, CodexAuth, Status};
use cloudroom::runtime::claude_login::{ClaudeLogin, KeyStep, Saving, Step};
use cloudroom::runtime::cursor_auth::{
    account_status, check_saved_key, key_status, login_ended, login_failed, read_output,
    read_status, CursorAuth,
};
use cloudroom::runtime::product::Product;
use cloudroom::wire::read_json;

fn json(text: &str) -> Json {
    read_json(text).unwrap()
}

fn maker() -> Product {
    Product { name: "Maker".to_owned(), word: "maker".to_owned() }
}

fn fault(kind: FaultKind) -> Fault {
    Fault { kind, message: "x".to_owned() }
}

#[test]
fn saved_codex_logins_must_be_complete() {
    let tokens = "\"tokens\":{\"id_token\":\"a\",\"access_token\":\"b\",\"refresh_token\":\"c\",\"account_id\":\"d\",\"extra\":1}";
    let kept = auth::credentials(&json(&format!("{{\"auth_mode\":\"chatgpt\",{tokens},\"last_refresh\":\"t\"}}")));
    let kept = kept.unwrap();
    assert!(kept.field("tokens").field_is("access_token", "b"));
    assert!(kept.field("tokens").get("extra").is_none());
    assert!(kept.field_is("last_refresh", "t"));
    assert!(auth::credentials(&json(&format!("{{\"auth_mode\":\"apikey\",{tokens}}}"))).is_none());
    assert!(auth::credentials(&json(&format!("{{\"OPENAI_API_KEY\":\"k\",{tokens}}}"))).is_none());
    assert!(auth::credentials(&json("{\"tokens\":{\"id_token\":\"a\"}}")).is_none());
    assert_eq!(CodexAuth::not_imported(false).state, "error");
    assert_eq!(CodexAuth::not_imported(true).state, "unavailable");
}

#[test]
fn codex_logins_are_begun_and_cancelled() {
    let mut a = CodexAuth::new();
    assert!(a.may_login() && a.may_import());
    let good = json("{\"loginId\":\"n\",\"verificationUrl\":\"https://auth.openai.com/codex/device\",\"userCode\":\"AB-12\"}");
    let started = auth::read_login(&good).unwrap();
    a.begin("r", Ok(started), 100);
    assert_eq!(a.status.state, "waiting");
    assert_eq!(a.status.login_id.as_deref(), Some("r"));
    assert_eq!(a.status.user_code.as_deref(), Some("AB-12"));
    assert!(!a.may_login() && !a.may_import());
    assert!(a.cancel("other").is_none());
    assert_eq!(a.cancel("r").as_deref(), Some("n"));
    assert!(a.login.is_none());
    let message = |text: &str| auth::read_login(&json(text)).unwrap_err().message;
    assert_eq!(message("{}"), "Missing login ID");
    assert_eq!(message("{\"loginId\":\"n\",\"verificationUrl\":\"https://x\"}"), "Unexpected login URL");
    assert_eq!(
        message("{\"loginId\":\"n\",\"verificationUrl\":\"https://auth.openai.com/codex/device\",\"userCode\":\"a b\"}"),
        "Invalid login code"
    );
    a.begin("r", Err(fault(FaultKind::Other)), 100);
    assert_eq!(a.status.state, "error");
    assert!(!a.take_switched());
}

#[test]
fn keys_are_tried_before_the_token_goes() {
    assert_eq!(KeyStep::Write.after(true, false), KeyStep::Try);
    assert_eq!(KeyStep::Write.after(false, false), KeyStep::End(Saving::Unwritten));
    assert_eq!(KeyStep::Try.after(false, false), KeyStep::RemoveKey);
    assert_eq!(KeyStep::Try.after(false, true), KeyStep::Restore);
    assert_eq!(KeyStep::Restore.after(true, true), KeyStep::End(Saving::Rejected));
    assert_eq!(KeyStep::Restore.after(false, true), KeyStep::End(Saving::Unrestored));
    assert_eq!(KeyStep::RemoveKey.after(true, false), KeyStep::End(Saving::Rejected));
    assert_eq!(KeyStep::RemoveKey.after(false, false), KeyStep::End(Saving::Unrestored));
    assert_eq!(KeyStep::Try.after(true, false), KeyStep::RemoveToken);
    assert_eq!(KeyStep::RemoveToken.after(true, false), KeyStep::End(Saving::Saved));
    assert_eq!(KeyStep::RemoveToken.after(false, false), KeyStep::End(Saving::Kept));
    let words = |saving: Saving| saving.refused_key(&maker()).and_then(|s| s.message);
    let said = |text: &str| Some(text.to_owned());
    assert_eq!(words(Saving::Saved), None);
    assert_eq!(words(Saving::Missing), said("Paste an Anthropic API key."));
    assert_eq!(words(Saving::Unwritten), said("Could not save the API key."));
    assert_eq!(
        words(Saving::Rejected),
        said("Anthropic did not accept this API key. Check the key and its credits.")
    );
    assert_eq!(words(Saving::Kept), said("Could not remove the old Maker token."));
    assert!(Saving::Saved.refused_token(&maker()).is_none());
    assert_eq!(Saving::Missing.refused_token(&maker()).unwrap().state, "error");
}

#[test]
fn one_login_of_the_dialogue_runs_at_a_time() {
    let mut a = ClaudeLogin::new();
    assert_eq!(a.action("start", "i"), Step::Start);
    assert_eq!(a.action("token", "i"), Step::Token);
    assert_eq!(a.action("key", "i"), Step::Key);
    assert_eq!(a.action("cancel", "i"), Step::Current);
    a.begin("i", Ok("https://x".to_owned()), 5, &maker());
    assert_eq!(a.status.state, "waiting");
    assert_eq!(a.action("start", "j"), Step::Current);
    assert_eq!(a.action("cancel", "i"), Step::Cancel);
    assert_eq!(a.action("complete", "i"), Step::Complete);
    let refused = a.completed(&Err(fault(FaultKind::InvalidInput)), &maker());
    assert_eq!(
        refused.message.as_deref(),
        Some("Maker could not accept that code. Check it or restart sign-in.")
    );
    assert!(a.completed(&Err(fault(FaultKind::TimedOut)), &maker()).message.is_none());
    let check = a.inspect(6, Some(true));
    a.settle(check, Some(true), 6, &maker());
    assert_eq!((a.status.state, a.login.is_none()), ("connected", true));
    let check = a.inspect(7, None);
    a.settle(check, Some(false), 7, &maker());
    assert_eq!(a.status.state, "connected");
    a.forget();
    let check = a.inspect(8, None);
    a.settle(check, Some(false), 8, &maker());
    assert_eq!(a.status.state, "missing");
    assert_eq!(a.status.message.as_deref(), Some("Connect your Maker subscription on this VM."));
    a.begin("k", Ok("https://x".to_owned()), 10, &maker());
    let check = a.inspect(10 + 600_000, None);
    a.settle(check, None, 10 + 600_000, &maker());
    assert_eq!(a.status.state, "expired");
}

#[test]
fn the_account_of_cursor_is_followed() {
    assert_eq!(key_status(true).state, "connected");
    assert_eq!(key_status(false).state, "error");
    let shown = account_status(true, &json("{\"isAuthenticated\":true,\"userInfo\":{\"email\":\"e\"}}"));
    assert_eq!((shown.state, shown.email.as_deref()), ("connected", Some("e")));
    assert_eq!(account_status(false, &json("{\"isAuthenticated\":true}")).state, "missing");
    assert_eq!(read_status(b"{\"isAuthenticated\":true}", true, false).state, "connected");
    assert_eq!(read_status(b"{\"isAuthenticated\":true}", false, false).state, "missing");
    assert_eq!(read_status(b"no", true, false).state, "unavailable");
    assert_eq!(read_status(b"no", true, true).state, "connected");
    assert_eq!(read_status(b"no", false, true).state, "error");
    assert_eq!(read_status(&vec![b' '; 65_537], true, true).state, "unavailable");
    let mut a = CursorAuth::new();
    assert!(a.may_login() && a.wants_check(0));
    a.settle(Status::new("missing", None), 100);
    assert!(!a.wants_check(15_100) && a.wants_check(15_101));
    a.begin("i");
    assert_eq!(a.status.login_id.as_deref(), Some("i"));
    assert!(!a.wants_check(1_000_000) && !a.may_login());
    assert_eq!(
        a.refuse_key("key-123456789").unwrap().message.as_deref(),
        if cloudroom::runtime::cursor_auth::valid_key("key-123456789") {
            Some("Finish or cancel browser sign-in first.")
        } else {
            Some("Enter a valid Cursor user API key.")
        }
    );
    assert!(!a.cancel("j") && a.cancel("i"));
    assert_eq!(a.status.state, "missing");
    a.begin("k");
    a.see_login(login_ended(true), true);
    assert_eq!((a.status.state, a.login.is_none()), ("connected", true));
    assert_eq!(login_ended(false).state, "expired");
    assert_eq!(login_failed().state, "error");
    assert_eq!(check_saved_key(" ").unwrap_err().message, "Saved Cursor API key is invalid");
}

#[test]
fn keys_of_cursor_are_kept_once_they_work() {
    let mut a = CursorAuth::new();
    let shown = a.set_key(Status::new("error", Some("no")), Ok(()), 5);
    assert_eq!((shown.message.as_deref(), a.status.state), (Some("no"), "missing"));
    let shown = a.set_key(Status::new("connected", None), Err(Fault::other("x")), 5);
    assert_eq!((shown.state, a.status.state), ("error", "missing"));
    let shown = a.set_key(Status::new("connected", None), Ok(()), 5);
    assert_eq!((shown.state, a.status.state, a.checked), ("connected", "connected", Some(5)));
}

#[test]
fn the_link_of_cursor_is_found_in_its_output() {
    let mut tail = String::new();
    assert_eq!(read_output(&mut tail, "open https://cursor.com/loginDeep"), None);
    assert_eq!(
        read_output(&mut tail, "Control?a=1 now").as_deref(),
        Some("https://cursor.com/loginDeepControl?a=1")
    );
    let mut tail = String::new();
    assert_eq!(read_output(&mut tail, "https://cursor.com/loginDeepControl?<a> x"), None);
}
