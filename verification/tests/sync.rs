use cloudroom::json::{object, Json};
use cloudroom::sync::{
    check_reply, existing_roots, read_reply, received, tree, CheckIn, Homes, Op, Operation, Repository,
    Settings, Sync, BODY_LIMIT,
};
use cloudroom::table::Table;
use cloudroom::wire::{read_json, write_json};

fn homes() -> Homes {
    Homes {
        account: "/home/agent".to_owned(),
        word: "maker".to_owned(),
        codex: Some("/codex".to_owned()),
        pi: None,
    }
}

fn sync(device: Option<&str>) -> Sync {
    Sync {
        settings: Settings {
            revision: 3,
            device: device.map(str::to_owned),
            initialized_roots: Vec::new(),
        },
        scans: Table::new(),
        reports: Table::new(),
    }
}

fn check_in(device: &str) -> CheckIn {
    CheckIn { device: device.to_owned(), repositories: Vec::new(), states: Table::new() }
}

fn operation(device: &str) -> Operation {
    Operation {
        device: device.to_owned(),
        path: Some("a".to_owned()),
        expected: None,
        incoming: Some("tag".to_owned()),
        size: Some(4),
        kind: Some("file".to_owned()),
        executable: None,
    }
}

fn states(pairs: &[(&str, &str)]) -> Table<String> {
    let mut t = Table::new();
    for (key, value) in pairs {
        t.insert(key, value.to_string());
    }
    t
}

#[test]
fn places_are_a_fixed_set() {
    let skills = tree("skills-codex", &homes()).unwrap();
    assert_eq!((skills.root.as_str(), skills.kind.as_str()), ("/codex/skills", "skills"));
    let pi = tree("settings-pi", &homes()).unwrap();
    assert_eq!(pi.root, "/home/agent/.pi/agent");
    assert_eq!(pi.filename.as_deref(), Some("settings.json"));
    assert_eq!(tree("skills-shared", &homes()).unwrap().root, "/home/agent/.agents/skills");
    let maker = tree("settings-maker", &homes()).unwrap();
    assert_eq!((maker.root.as_str(), maker.kind.as_str()), ("/home/agent/.maker", "maker"));
    assert_eq!(maker.filename.as_deref(), Some("settings.json"));
    assert_eq!(tree("skills-maker", &homes()).unwrap().root, "/home/agent/.maker/skills");
    assert_eq!(tree("skills-", &homes()).unwrap_err().status, 410);
    assert_eq!(tree("auth-codex", &homes()).unwrap_err().status, 410);
    let older = existing_roots("maker");
    assert_eq!(older.len(), 8);
    assert!(older.contains(&"skills-maker".to_owned()) && older.contains(&"settings-maker".to_owned()));
}

#[test]
fn one_machine_is_paired_at_a_time() {
    let mut s = sync(None);
    assert_eq!(s.pair(&check_in("mac"), false, true).unwrap_err().status, 503);
    assert_eq!(s.pair(&check_in("mac"), true, false).unwrap_err().status, 503);
    let next = s.pair(&check_in("mac"), true, true).unwrap().unwrap();
    assert_eq!((next.revision, next.device.as_deref()), (4, Some("mac")));
    s.settings = next;
    assert!(s.pair(&check_in("mac"), true, true).unwrap().is_none());
    let other = s.pair(&check_in("other"), true, true).unwrap_err();
    assert_eq!((other.status, other.message.as_str()), (409, "sync conflict; originals preserved"));
    let mut old = check_in("mac");
    old.repositories.push("r".to_owned());
    let gone = s.pair(&old, true, true).unwrap_err();
    assert_eq!(gone.status, 410);
    assert_eq!(gone.message, "sync unavailable; check setup, paths, and storage");
    let refused = s.request("skills-pi", &operation("other"), Op::Read, true, &homes());
    assert_eq!(refused.unwrap_err().status, 409);
}

#[test]
fn all_places_together() {
    let mut s = sync(Some("mac"));
    assert_eq!(s.state(100), "offline");
    s.tell(&states(&[("skills-pi", "synced"), ("settings-pi", "synced")]), &homes(), 100).unwrap();
    assert_eq!(s.state(130), "synced");
    assert_eq!(s.state(131), "offline");
    s.tell(&states(&[("skills-pi", "synced"), ("settings-pi", "syncing")]), &homes(), 140).unwrap();
    assert_eq!(s.state(140), "syncing");
    s.tell(&states(&[("skills-pi", "conflict"), ("settings-pi", "syncing")]), &homes(), 140).unwrap();
    assert_eq!(s.state(140), "conflict");
    let odd = s.tell(&states(&[("skills-pi", "odd")]), &homes(), 150).unwrap_err();
    assert_eq!(odd.status, 409);
    let unknown = s.tell(&states(&[("nothing", "synced")]), &homes(), 150).unwrap_err();
    assert_eq!(unknown.status, 410);
    assert_eq!(s.state(140), "conflict");
    s.tell(&states(&[]), &homes(), 150).unwrap();
    assert_eq!(s.state(140), "conflict");
}

#[test]
fn what_is_told_of_what_is_kept_alike() {
    let s = sync(None);
    let repositories = vec![Repository { id: "w".to_owned(), name: None }];
    assert_eq!(
        write_json(&s.show(&repositories, 0)),
        "{\"accounts\":[],\"autoSync\":true,\"repositories\":[{\"id\":\"w\",\"name\":null,\"sync\":false,\"workspaceMode\":\"shared\"}],\"repositorySync\":false,\"revision\":\"3\",\"syncState\":\"offline\",\"worktreesSupported\":false}"
    );
}

#[test]
fn places_are_made_only_once() {
    let mut s = sync(Some("mac"));
    let (first, make) = s.request("skills-pi", &operation("mac"), Op::Scan, true, &homes()).unwrap();
    assert!(make);
    assert_eq!(
        write_json(&first),
        "{\"cache\":{},\"expected\":null,\"op\":\"scan\",\"path\":\"a\",\"tree\":{\"create\":true,\"filename\":null,\"kind\":\"skills\",\"root\":\"/home/agent/.pi/agent/skills\"}}"
    );
    s.settings = s.settled("skills-pi", make).unwrap();
    assert_eq!(s.settings.revision, 4);
    s.scanned("skills-pi", &read_json("{\"ok\":true,\"files\":{\"a\":1}}").unwrap());
    let (again, make) = s.request("skills-pi", &operation("mac"), Op::Scan, true, &homes()).unwrap();
    assert!(!make);
    assert!(again.field("tree").field("create").is_false());
    assert_eq!(write_json(again.field("cache")), "{\"a\":1}");
    assert!(s.settled("skills-pi", false).is_none());
}

#[test]
fn writes_say_what_is_written() {
    let s = sync(Some("mac"));
    let (request, make) =
        s.request("skills-pi", &operation("mac"), Op::Apply, true, &homes()).unwrap();
    assert!(!make);
    assert_eq!(
        write_json(request.field("entry")),
        "{\"executable\":false,\"kind\":\"file\",\"size\":4,\"tag\":\"tag\"}"
    );
    let busy = s.request("skills-pi", &operation("mac"), Op::Apply, false, &homes());
    assert_eq!(busy.unwrap_err().status, 503);
    let none = s.request("none", &operation("mac"), Op::Apply, true, &homes());
    assert_eq!(none.unwrap_err().status, 410);
}

#[test]
fn answers_of_the_worker() {
    let reply = |text: &str| check_reply(&read_json(text).unwrap());
    assert!(reply("{\"ok\":true}").is_ok());
    assert_eq!(reply("{\"ok\":1,\"error\":\"conflict\"}").unwrap_err().status, 409);
    assert_eq!(reply("{\"error\":\"other\"}").unwrap_err().status, 503);
    assert_eq!(check_reply(&Json::Object(object())).unwrap_err().status, 503);
    assert_eq!(received(BODY_LIMIT - 1, 1).unwrap(), BODY_LIMIT);
    assert_eq!(received(BODY_LIMIT, 1).unwrap_err().status, 413);
    assert_eq!(received(u64::MAX, 1).unwrap_err().status, 413);
}

#[test]
fn answers_of_the_worker_are_read() {
    assert!(read_reply("{\"ok\":true,\"files\":{}}\n").unwrap().get("files").is_some());
    assert_eq!(read_reply("{\"error\":\"conflict\"}").unwrap_err().status, 409);
    assert_eq!(read_reply("{\"error\":\"other\"}").unwrap_err().status, 503);
    assert_eq!(read_reply("").unwrap_err().status, 503);
}

#[test]
fn places_are_noted_once() {
    let roots = ["b", "a", "b"].map(str::to_owned).to_vec();
    let mut s = sync(Some("mac"));
    s.settings = Settings::new(7, Some("mac".to_owned()), &roots);
    assert_eq!(s.settings.initialized_roots, ["b", "a"]);
    assert_eq!(s.settled("c", true).unwrap().initialized_roots, ["b", "a", "c"]);
    assert_eq!(s.settled("a", true).unwrap().initialized_roots, ["b", "a"]);
    assert!(s.settled("c", false).is_none());
}
