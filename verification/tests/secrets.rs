use cloudroom::secrets::dotenv::{assignment, check_file, closes, comment, encode, reconcile};
use cloudroom::secrets::{
    check, check_values, closed_note, local_auth, parent_of, parse, read_values, request_id, valid_name,
    valid_text, Answer, Pending, Request, Secrets,
};
use cloudroom::table::Table;
use cloudroom::wire::{read_json, write_json};

fn owned(texts: &[&str]) -> Vec<String> {
    texts.iter().map(|t| t.to_string()).collect()
}

fn table(pairs: &[(&str, &str)]) -> Table<String> {
    let mut t = Table::new();
    for (key, value) in pairs {
        t.insert(key, value.to_string());
    }
    t
}

fn request(names: &[&str]) -> Request {
    Request {
        names: owned(names),
        descriptions: Table::new(),
        purpose: None,
        path: ".env".to_owned(),
    }
}

#[test]
fn names_of_variables() {
    assert!(valid_name("API_KEY"));
    assert!(valid_name("_a1"));
    assert!(!valid_name("1KEY"));
    assert!(!valid_name("A-B"));
    assert!(!valid_name(""));
    assert!(valid_name(&"a".repeat(128)));
    assert!(!valid_name(&"a".repeat(129)));
    assert!(valid_text("for the tests"));
    assert!(!valid_text(" \n"));
    assert!(!valid_text("a\0b"));
    assert!(!valid_text(&"a".repeat(4097)));
}

#[test]
fn requests_are_checked() {
    assert!(check(&request(&["A", "B"])).is_ok());
    assert_eq!(check(&request(&[])), Err("Request 1-50 unique variable names"));
    assert_eq!(check(&request(&["A", "A"])), Err("Request 1-50 unique variable names"));
    assert_eq!(
        check(&request(&["A", "1"])),
        Err("Variable names must start with a letter or underscore and contain only letters, digits, and underscores")
    );
    let mut odd = request(&["A"]);
    odd.descriptions = table(&[("B", "of another")]);
    assert_eq!(
        check(&odd),
        Err("Invalid path, purpose, or description for the requested variables")
    );
}

#[test]
fn assignments_are_read() {
    let a = assignment("  export  KEY = 'v' # note").unwrap();
    assert_eq!(a.prefix, "  export  KEY = ");
    assert_eq!(a.name, "KEY");
    assert_eq!(a.value, "'v' # note");
    let b = assignment("exported=1").unwrap();
    assert_eq!(b.name, "exported");
    assert!(assignment("# KEY=1").is_none());
    assert!(assignment("1KEY=1").is_none());
    assert!(assignment("KEY").is_none());
    assert!(assignment("KEY-X=1").is_none());
}

#[test]
fn quotes_are_closed_or_not() {
    assert!(closes("'a\\'", '\''));
    assert!(!closes("\"a\\\"", '"'));
    assert!(closes("\"a\\\\\"", '"'));
    assert!(!closes("'a", '\''));
}

#[test]
fn values_are_written_so_that_they_read_back() {
    assert_eq!(encode("a b#c").unwrap(), "'a b#c'");
    assert_eq!(encode("it's").unwrap(), "\"it's\"");
    assert_eq!(encode("it's \"x\"").unwrap(), "it's \"x\"");
    assert_eq!(
        encode(" it's \"x\"").unwrap_err().message,
        "A secret value cannot be represented safely in a single dotenv assignment"
    );
    assert!(encode("it's \"#x\"").is_err());
}

#[test]
fn comments_are_told_from_values() {
    assert_eq!(comment("'a # b'  # note"), "  # note");
    assert_eq!(comment("a#b"), "");
    assert_eq!(comment("\"a\\\" # b\" # c"), " # c");
    assert_eq!(comment("plain"), "");
}

#[test]
fn files_are_changed_and_the_rest_is_kept() {
    let content = "# top\r\nexport A = old # why\r\nOTHER=x\r\nB='same'\r\n";
    let names = owned(&["A", "B", "C"]);
    let values = table(&[("A", "new"), ("B", "same"), ("C", "it's")]);
    let done = reconcile(content, &names, &values).unwrap();
    assert_eq!(
        done.content,
        "# top\r\nexport A = 'new' # why\r\nOTHER=x\r\nB='same'\r\nC=\"it's\"\r\n"
    );
    assert_eq!((done.added, done.updated, done.unchanged), (1, 1, 1));
    let a = assignment("export A = 'new' # why").unwrap();
    assert_eq!((a.prefix.as_str(), a.name.as_str()), ("export A = ", "A"));
    assert_eq!(a.value, "'new' # why");
}

#[test]
fn new_files_end_with_a_line() {
    let done = reconcile("", &owned(&["A"]), &table(&[("A", "1")])).unwrap();
    assert_eq!(done.content, "A='1'\n");
    let kept = reconcile("A='1'", &owned(&["A"]), &table(&[("A", "1")])).unwrap();
    assert_eq!(kept.content, "A='1'");
    assert_eq!((kept.added, kept.updated, kept.unchanged), (0, 0, 1));
}

#[test]
fn files_that_cannot_be_changed_safely_are_refused() {
    let names = owned(&["A"]);
    assert_eq!(
        check_file("A=1\nA=2\n", &names).unwrap_err().message,
        "Dotenv file contains duplicate assignments for A"
    );
    assert_eq!(
        check_file("B=\"open\nstill\"\n", &names).unwrap_err().message,
        "Dotenv files with multiline quoted values cannot be reconciled safely"
    );
    assert!(check_file("B=1\nB=2\nA=1\n", &names).is_ok());
    let refused = reconcile("A=1\nA=2\n", &names, &table(&[("A", "x")]));
    assert!(refused.is_err());
}

#[test]
fn secrets_are_answered_once() {
    let mut all = Secrets { pending: Table::new() };
    all.pending.insert(
        "secret-1-1",
        Pending { session: "s1".to_owned(), names: owned(&["A", "B"]) },
    );
    let full = Answer { values: Some(table(&[("A", "1"), ("B", "2")])) };
    let unknown = all.answer("s2", "secret-1-1", &full).unwrap_err();
    assert_eq!((unknown.status, unknown.message.as_str()), (404, "Unknown or expired secret request"));
    for values in [
        table(&[("A", "1")]),
        table(&[("A", "1"), ("C", "2")]),
        table(&[("A", "1"), ("B", "")]),
        table(&[("A", "1"), ("B", "two\nlines")]),
        table(&[("A", "1"), ("B", "2"), ("C", "3")]),
    ] {
        let e = all.answer("s1", "secret-1-1", &Answer { values: Some(values) }).unwrap_err();
        assert_eq!(e.status, 409);
        assert_eq!(e.message, "Answer every requested variable with one non-empty line");
    }
    assert!(all.answer("s1", "secret-1-1", &full).is_ok());
    assert_eq!(all.answer("s1", "secret-1-1", &full).unwrap_err().status, 404);
}

#[test]
fn requests_can_be_cancelled() {
    let mut all = Secrets { pending: Table::new() };
    all.pending.insert("x", Pending { session: "s".to_owned(), names: owned(&["A"]) });
    assert!(all.answer("s", "x", &Answer { values: None }).is_ok());
    assert!(all.pending.is_empty());
}

#[test]
fn only_agents_ask_for_secrets() {
    assert!(local_auth(Some(5), Some(5)).is_ok());
    assert_eq!(local_auth(Some(5), Some(6)).unwrap_err().status, 403);
    assert!(local_auth(None, None).is_err());
    assert_eq!(parent_of("12 (a ) b) S 7 1 1"), 7);
    assert_eq!(parent_of("12 (a"), 0);
    assert_eq!(request_id(17, 2), "secret-17-2");
}

#[test]
fn records_of_requests_hold_no_values() {
    let mut r = request(&["A", "B"]);
    r.descriptions = table(&[("B", "the second")]);
    r.purpose = Some("to test".to_owned());
    assert_eq!(
        write_json(&r.opened_note("id").data),
        "{\"fields\":[{\"description\":null,\"name\":\"A\"},{\"description\":\"the second\",\"name\":\"B\"}],\"id\":\"id\",\"path\":\".env\",\"purpose\":\"to test\",\"state\":\"open\"}"
    );
    assert_eq!(write_json(&closed_note("id").data), "{\"id\":\"id\",\"state\":\"closed\"}");
}

#[test]
fn command_lines_are_read() {
    let r = parse(&owned(&["A", "--write-env", " .env ", "B", "--describe", "A", "first", "--purpose", "why"]))
        .unwrap();
    assert_eq!(r.names, owned(&["A", "B"]));
    assert_eq!(r.path, ".env");
    assert_eq!(r.purpose.as_deref(), Some("why"));
    assert_eq!(r.descriptions.get("A").map(String::as_str), Some("first"));
    let usage = "\nUsage: cloudroom secret request NAME... --write-env PATH [--purpose TEXT] [--describe NAME TEXT]...";
    let message = |args: &[&str]| parse(&owned(args)).unwrap_err().message;
    assert_eq!(message(&["A"]), format!("--write-env is required{usage}"));
    assert_eq!(message(&["A", "--write-env"]), format!("--write-env needs a value{usage}"));
    assert_eq!(message(&["A", "--write-env", "--x"]), format!("--write-env needs a value{usage}"));
    assert_eq!(message(&["--odd"]), format!("Unknown option --odd{usage}"));
    assert_eq!(
        message(&["A", "--describe", "A", "x", "--describe", "A", "y"]),
        format!("Duplicate --describe for A{usage}")
    );
    assert_eq!(message(&["--write-env", "x"]), format!("Request 1-50 unique variable names{usage}"));
}

#[test]
fn answers_change_a_file_once() {
    let names = owned(&["A", "B"]);
    let values = table(&[("A", "it's # new"), ("B", "2")]);
    for content in ["", "A=old # why\nC=x\n", "# top\r\nB='1'\r\n", "C=x"] {
        let once = reconcile(content, &names, &values).unwrap();
        let twice = reconcile(&once.content, &names, &values).unwrap();
        assert_eq!(twice.content, once.content);
        assert_eq!((twice.added, twice.updated, twice.unchanged), (0, 0, 2));
    }
}

#[test]
fn answers_hold_what_was_asked_for() {
    let names = owned(&["A", "B"]);
    assert!(check_values(&names, &table(&[("A", "1"), ("B", "2")])).is_ok());
    assert_eq!(
        check_values(&names, &table(&[("A", "1")])).unwrap_err().message,
        "Secret response did not contain exactly the requested variables"
    );
    assert!(check_values(&names, &table(&[("A", "1"), ("C", "2")])).is_err());
    assert!(check_values(&names, &table(&[("A", "1"), ("B", "2"), ("C", "3")])).is_err());
}

#[test]
fn answers_hold_one_text_for_each_name() {
    let names = owned(&["A", "B"]);
    let read = |text: &str| read_values(&names, &read_json(text).unwrap());
    let values = read("{\"values\":{\"B\":\"2\",\"A\":\"1\"},\"x\":0}").unwrap();
    assert_eq!(values.len(), 2);
    assert_eq!(values.get("A").map(String::as_str), Some("1"));
    assert_eq!(values.get("B").map(String::as_str), Some("2"));
    let failed = |text: &str| read(text).unwrap_err().message;
    let exactly = "Secret response did not contain exactly the requested variables";
    assert_eq!(failed("{\"values\":{\"A\":\"1\"}}"), exactly);
    assert_eq!(failed("{\"values\":{\"A\":\"1\",\"C\":\"1\"}}"), exactly);
    assert_eq!(
        failed("{\"values\":{\"A\":1,\"B\":\"2\"}}"),
        "invalid type: integer `1`, expected a string"
    );
    assert_eq!(failed("{}"), "invalid type: null, expected a map");
}
