use cloudroom::config::{access, listen_address, required, Config};
use cloudroom::runtime::Kind;
use cloudroom::table::Table;

const TOKEN: &str = "0123456789abcdef0123456789abcdef";

fn table(pairs: &[(&str, &str)]) -> Table<String> {
    let mut t = Table::new();
    for (key, value) in pairs {
        t.insert(key, value.to_string());
    }
    t
}

fn usual() -> Table<String> {
    table(&[
        ("CLOUDROOM_ACCOUNT_HOME", "/home/agent"),
        ("CLOUDROOM_STATE_DIR", "/state"),
        ("CLOUDROOM_DATABASE_URL", "postgres://db"),
        ("CLOUDROOM_STORE", "store"),
        ("CLOUDROOM_MODEL", "m"),
        ("CLOUDROOM_CODEX_BINARY", "/bin/codex"),
        ("CLOUDROOM_CODEX_HOME", "/home/agent/.codex"),
    ])
}

#[test]
fn tokens_are_long_and_visible() {
    let message = |token: &str| {
        access(&table(&[("CLOUDROOM_TOKEN", token)]), Some(true)).unwrap_err().message
    };
    assert_eq!(message(""), "CLOUDROOM_TOKEN is required");
    assert_eq!(message("short"), "CLOUDROOM_TOKEN must contain at least 32 visible ASCII characters");
    assert_eq!(
        message(&" ".repeat(32)),
        "CLOUDROOM_TOKEN must contain at least 32 visible ASCII characters"
    );
    assert_eq!(message(TOKEN), "CLOUDROOM_STORAGE_POLICY is required");
}

#[test]
fn strangers_come_in_only_where_storage_is_protected() {
    let open = table(&[("CLOUDROOM_TOKEN", TOKEN), ("CLOUDROOM_UNPROTECTED_TEST_MODE", "1")]);
    assert!(access(&open, Some(true)).unwrap().policy.is_none());
    assert_eq!(
        access(&open, Some(false)).unwrap_err().message,
        "public binding requires protected deployment behind HTTPS"
    );
    let safe = table(&[("CLOUDROOM_TOKEN", TOKEN), ("CLOUDROOM_STORAGE_POLICY", "/p")]);
    assert_eq!(access(&safe, Some(false)).unwrap().policy.as_deref(), Some("/p"));
    assert_eq!(access(&safe, None).unwrap_err().message, "invalid CLOUDROOM_LISTEN");
    assert_eq!(listen_address(&safe), "127.0.0.1:9840");
}

#[test]
fn settings_are_read() {
    let c = Config::from_env(&usual()).unwrap();
    assert_eq!(c.default_harness, Kind::Codex);
    assert_eq!(c.repository, "/home/agent");
    assert_eq!(c.max_harnesses, 2);
    assert!(!c.allow_insecure_database);
    let codex = c.codex.unwrap();
    assert_eq!((codex.model.as_str(), codex.provider), ("m", None));
    assert!(c.pi.is_none());
}

#[test]
fn a_harness_can_have_its_own_model() {
    let mut env = usual();
    env.insert("CLOUDROOM_PI_BINARY", "/bin/pi".to_owned());
    env.insert("CLOUDROOM_PI_HOME", "/home/agent/.pi".to_owned());
    assert_eq!(Config::from_env(&env).unwrap_err().message, "CLOUDROOM_PI_PROVIDER is required");
    env.insert("CLOUDROOM_PI_PROVIDER", "p".to_owned());
    env.insert("CLOUDROOM_PI_MODEL", "own".to_owned());
    env.insert("CLOUDROOM_HARNESS", "pi".to_owned());
    let c = Config::from_env(&env).unwrap();
    assert_eq!(c.default_harness, Kind::Pi);
    let pi = c.pi.unwrap();
    assert_eq!((pi.model.as_str(), pi.provider.as_deref()), ("own", Some("p")));
}

#[test]
fn settings_that_are_missing_are_named() {
    let message = |name: &str, value: &str| {
        let mut env = usual();
        env.insert(name, value.to_owned());
        Config::from_env(&env).unwrap_err().message
    };
    assert_eq!(message("CLOUDROOM_HARNESS", "odd"), "unsupported CLOUDROOM_HARNESS");
    assert_eq!(message("CLOUDROOM_STORE", ""), "CLOUDROOM_STORE is required");
    assert_eq!(message("CLOUDROOM_MAX_HARNESSES", "0"), "CLOUDROOM_MAX_HARNESSES must be positive");
    assert_eq!(message("CLOUDROOM_MAX_HARNESSES", "x"), "CLOUDROOM_MAX_HARNESSES must be positive");
    assert_eq!(message("CLOUDROOM_CODEX_BINARY", ""), "CLOUDROOM_CODEX_BINARY is required");
    assert_eq!(message("CLOUDROOM_CODEX_HOME", ""), "CLOUDROOM_CODEX_HOME is required");
    assert_eq!(required(&usual(), "X").unwrap_err().message, "X is required");
}
