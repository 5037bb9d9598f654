use cloudroom::preview::account::{authorized_keys, disconnects, find_account};
use cloudroom::preview::cli::{asks_again, parse, read_answer, Ask, TRIES};
use cloudroom::preview::listener::agent_listener;
use cloudroom::preview::{
    check_protection, local_auth, port_allowed, valid_device, valid_key, Device, Report, Reports,
    Saved,
};

const KEY: &str = "ssh-ed25519 AAAAC3NzaC1lZDI1NTE5AAAAIAAAAAAAAAAAAAAAAAAAAAAAAAAAAAAAAAAAAAAAAAAA";
const DEVICE: &str = "0123456789abcdef0123456789abcdef";
const HEAD: &str = "  sl  local_address rem_address   st tx_queue rx_queue tr tm->when retrnsmt   uid  timeout inode\n";

fn line(address: &str, port: u16, uid: u32) -> String {
    format!("   0: {address}:{port:04X} 00000000:0000 0A 00000000:00000000 00:00000000 00000000 {uid} 0 1\n")
}

fn owned(texts: &[&str]) -> Vec<String> {
    texts.iter().map(|t| t.to_string()).collect()
}

#[test]
fn only_the_forwarded_loopback_listener_proves_ownership() {
    let uid = 1000;
    let port = 40001;
    let mut tcp = HEAD.to_owned() + &line("0200007F", port, uid);
    assert!(!agent_listener(&tcp, HEAD, port, uid).unwrap());
    tcp += &line("0100007F", port, uid);
    assert!(agent_listener(&tcp, HEAD, port, uid).unwrap());
    assert!(!agent_listener(&tcp, HEAD, port, uid + 1).unwrap());
    let wildcard = 40002;
    tcp += &line("00000000", wildcard, uid);
    assert!(agent_listener(&tcp, HEAD, wildcard, uid).unwrap());
}

#[test]
fn exact_listeners_come_before_others() {
    let tcp = HEAD.to_owned() + &line("00000000", 5000, 7) + &line("0100007F", 5000, 8);
    assert!(agent_listener(&tcp, HEAD, 5000, 8).unwrap());
    assert!(!agent_listener(&tcp, HEAD, 5000, 7).unwrap());
    let six = HEAD.to_owned() + &line("00000000000000000000000000000000", 5001, 7);
    assert!(agent_listener(HEAD, &six, 5001, 7).unwrap());
    let mixed = HEAD.to_owned() + &line("0100007F", 5002, 7) + &line("0100007F", 5002, 8);
    assert!(!agent_listener(&mixed, HEAD, 5002, 7).unwrap());
    let odd = tcp.replace(" 8 0 1", " x 0 1");
    assert!(agent_listener(&odd, HEAD, 5000, 7).is_err());
}

#[test]
fn previews_are_registered_and_closed() {
    let mut saved = Saved::new();
    assert!(saved.register(3000, "g1"));
    assert!(saved.register(2000, "g2"));
    saved.register(3000, "g3");
    let ports: Vec<u16> = saved.previews.iter().map(|p| p.port).collect();
    assert_eq!(ports, [2000, 3000]);
    saved.close(2000);
    assert_eq!(saved.previews.len(), 1);
    assert_eq!(saved.previews[0].port, 3000);
}

#[test]
fn devices_are_paired() {
    assert!(valid_key(KEY));
    assert!(!valid_key("ssh-rsa AAAA"));
    assert!(!valid_key(&format!("{KEY} comment\nmore")));
    assert!(valid_device(DEVICE));
    assert!(!valid_device(""));
    let mut saved = Saved::new();
    let device = Device { device: DEVICE.to_owned(), public_key: KEY.to_owned() };
    assert!(saved.pair(&device, Some("vm.example")).is_ok());
    assert!(saved.paired(DEVICE));
    assert!(!saved.paired("mac-2"));
    let odd = Device { device: DEVICE.to_owned(), public_key: "x".to_owned() };
    assert!(saved.pair(&odd, Some("vm.example")).is_err());
    saved.register(3000, "g");
    let keys = authorized_keys(&saved, &vec![true]);
    assert_eq!(
        keys,
        [format!("restrict,port-forwarding,command=\"/bin/false\",permitopen=\"127.0.0.1:3000\" {KEY}")]
    );
    assert!(authorized_keys(&saved, &vec![false]).is_empty());
    saved.revoke(DEVICE);
    assert!(!saved.paired(DEVICE));
}

#[test]
fn ports_that_may_be_shown() {
    assert!(port_allowed(3000, 9840, 22, true).is_ok());
    assert!(port_allowed(9840, 9840, 22, true).is_err());
    assert!(port_allowed(1023, 9840, 22, true).is_err());
    assert!(port_allowed(3000, 9840, 22, false).is_err());
    assert!(local_auth(5, Some(5)).is_ok());
    assert_eq!(local_auth(5, None).unwrap_err().status, 403);
    assert!(check_protection(false, 0o600, 0, Some(5)).is_ok());
    assert!(check_protection(true, 0o600, 0, Some(5)).is_err());
    assert!(check_protection(false, 0o622, 0, Some(5)).is_err());
}

#[test]
fn old_reports_are_not_shown() {
    let mut saved = Saved::new();
    saved.register(3000, "g");
    let device = Device { device: DEVICE.to_owned(), public_key: KEY.to_owned() };
    saved.pair(&device, Some("vm.example")).unwrap();
    let mut reports = Reports::new();
    let report = Report {
        device: DEVICE.to_owned(),
        generation: "g".to_owned(),
        port: 3000,
        local_port: Some(4000),
        error: None,
    };
    reports.report(&saved, report, 0).unwrap();
    let fresh = reports.show(&saved, 3000, 1).unwrap();
    assert_eq!(fresh.field_text("state"), Some("ready"));
    let old = reports.show(&saved, 3000, 10_000_000).unwrap();
    assert_ne!(old.field_text("state"), Some("ready"));
    assert_eq!(reports.show(&saved, 3001, 1).unwrap_err().status, 404);
}

#[test]
fn preview_commands_are_read() {
    assert!(matches!(parse(&owned(&[])).unwrap().1, Ask::Help));
    assert!(matches!(parse(&owned(&["3000"])).unwrap().1, Ask::Open { port: 3000 }));
    assert!(matches!(parse(&owned(&["close", "3000"])).unwrap().1, Ask::Close { port: 3000 }));
    assert!(matches!(parse(&owned(&["status"])).unwrap().1, Ask::Status { only: None }));
    assert!(parse(&owned(&["status", "x"])).is_err());
    let (socket, _) = parse(&owned(&["--socket", "/s", "3000"])).unwrap();
    assert_eq!(socket.as_deref(), Some("/s"));
    assert_eq!(parse(&owned(&["--socket"])).unwrap_err().message, "--socket requires a path");
}

#[test]
fn accounts_are_found() {
    let accounts = "root:x:0:0::/root:/bin/sh\ncloudroom-preview:x:990:990::/:/usr/sbin/nologin\nagent:x:1000:1000::/home:/bin/sh\n";
    assert_eq!(find_account(accounts, 1000, 0).unwrap(), 990);
    assert!(find_account("root:x:0:0::/root:/bin/sh\n", 1000, 0).is_err());
    assert!(!disconnects("Name:\tbash\nUid:\t5\t5\t5\t5\n", "bash", 990));
}

#[test]
fn previews_are_asked_for_again_while_they_are_pending() {
    let pending = read_answer(true, b"{\"state\":\"pending\"}").unwrap();
    assert!(asks_again(0, &pending) && asks_again(TRIES - 1, &pending));
    assert!(!asks_again(TRIES, &pending));
    assert!(!asks_again(0, &read_answer(true, b"{\"state\":\"ready\"}").unwrap()));
    assert_eq!(read_answer(true, b"{\"error\":\"no\"}").unwrap_err().message, "no");
    assert_eq!(
        read_answer(true, b"{").unwrap_err().message,
        "EOF while parsing an object at line 1 column 1"
    );
    assert!(read_answer(true, b"{\"a\":\"\xff\"}").is_err());
    assert!(read_answer(false, b"{}").unwrap_err().message.starts_with("Preview service unavailable"));
}
