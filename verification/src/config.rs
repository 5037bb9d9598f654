//! The settings of the service, from the variables that it is started with.
use crate::fault::{other, Fault, FaultView};
use crate::runtime::Kind;
use crate::table::Table;
use crate::text::{
    all_in, all_text_in, byte_len, chars_of, concat3, number, opt, parse_number, same, size, Class,
};
use vstd::prelude::*;

verus! {

/// How a harness is run.
#[derive(Debug)]
pub struct HarnessConfig {
    pub binary: String,
    pub home: String,
    pub model: String,
    pub provider: Option<String>,
}

/// The mathematical value of how a harness is run.
pub struct HarnessView {
    pub binary: Seq<char>,
    pub home: Seq<char>,
    pub model: Seq<char>,
    pub provider: Option<Seq<char>>,
}

impl View for HarnessConfig {
    type V = HarnessView;

    open spec fn view(&self) -> HarnessView {
        HarnessView {
            binary: self.binary@,
            home: self.home@,
            model: self.model@,
            provider: opt(self.provider),
        }
    }
}

/// The view of how a harness is run, where it is.
pub open spec fn opt_harness(h: Option<HarnessConfig>) -> Option<HarnessView> {
    match h {
        Some(h) => Some(h@),
        None => None,
    }
}

/// The variables that the service is started with.
pub type Variables = Map<Seq<char>, Seq<char>>;

/// A variable that says something.
pub open spec fn given(env: Variables, name: Seq<char>) -> Option<Seq<char>> {
    if env.contains_key(name) && env[name].len() > 0 {
        Some(env[name])
    } else {
        None
    }
}

/// A variable that has to say something.
pub open spec fn needed(env: Variables, name: Seq<char>) -> Result<Seq<char>, FaultView> {
    match given(env, name) {
        Some(value) => Ok(value),
        None => Err(other(name + " is required"@)),
    }
}

/// The value of a variable, or another.
pub open spec fn value_or(env: Variables, name: Seq<char>, fallback: Seq<char>) -> Seq<char> {
    if env.contains_key(name) {
        env[name]
    } else {
        fallback
    }
}

/// Whether a variable says so.
pub open spec fn says(env: Variables, name: Seq<char>, value: Seq<char>) -> bool {
    env.contains_key(name) && env[name] == value
}

fn find(env: &Table<String>, name: &str) -> (r: Option<String>)
    ensures
        opt(r) == given(env@, name@),
{
    match env.get(name) {
        Some(value) => if chars_of(value.as_str()).len() > 0 {
            Some(value.clone())
        } else {
            None
        },
        None => None,
    }
}

/// The view of a text that may be missing.
pub open spec fn text_result(r: Result<String, Fault>) -> Result<Seq<char>, FaultView> {
    match r {
        Ok(text) => Ok(text@),
        Err(f) => Err(f@),
    }
}

/// A variable that has to say something.
pub fn required(env: &Table<String>, name: &str) -> (r: Result<String, Fault>)
    ensures
        text_result(r) == needed(env@, name@),
{
    match find(env, name) {
        Some(value) => Ok(value),
        None => {
            let text = crate::text::concat(name, " is required");
            Err(Fault::other(text.as_str()))
        },
    }
}

fn says_so(env: &Table<String>, name: &str, value: &str) -> (r: bool)
    ensures
        r == says(env@, name@, value@),
{
    match env.get(name) {
        Some(v) => same(v.as_str(), value),
        None => false,
    }
}

// Who may come in, and where.

/// A token that is long enough and can be sent in a header.
pub open spec fn strong(token: Seq<char>) -> bool {
    byte_len(token) >= 32 && all_in(token, Class::Graphic, ""@)
}

/// How the service is reached: its token, and the file of the storage policy where there is one.
#[derive(Debug)]
pub struct Access {
    pub token: String,
    pub policy: Option<String>,
}

/// The mathematical value of how the service is reached.
pub struct AccessView {
    pub token: Seq<char>,
    pub policy: Option<Seq<char>>,
}

impl View for Access {
    type V = AccessView;

    open spec fn view(&self) -> AccessView {
        AccessView { token: self.token@, policy: opt(self.policy) }
    }
}

/// How the service is reached. `loopback` is of the address to listen on, nothing where that is no
/// address. Without protected storage only this machine may come in.
pub open spec fn reached(env: Variables, loopback: Option<bool>) -> Result<AccessView, FaultView> {
    match needed(env, "CLOUDROOM_TOKEN"@) {
        Err(f) => Err(f),
        Ok(token) => if !strong(token) {
            Err(other("CLOUDROOM_TOKEN must contain at least 32 visible ASCII characters"@))
        } else if loopback is None {
            Err(other("invalid CLOUDROOM_LISTEN"@))
        } else if says(env, "CLOUDROOM_UNPROTECTED_TEST_MODE"@, "1"@) {
            if loopback == Some(true) {
                Ok(AccessView { token, policy: None })
            } else {
                Err(other("public binding requires protected deployment behind HTTPS"@))
            }
        } else {
            match needed(env, "CLOUDROOM_STORAGE_POLICY"@) {
                Err(f) => Err(f),
                Ok(policy) => Ok(AccessView { token, policy: Some(policy) }),
            }
        },
    }
}

/// The view of how the service is reached.
pub open spec fn access_result(r: Result<Access, Fault>) -> Result<AccessView, FaultView> {
    match r {
        Ok(a) => Ok(a@),
        Err(f) => Err(f@),
    }
}

/// The address to listen on.
pub fn listen_address(env: &Table<String>) -> (r: String)
    ensures
        r@ == value_or(env@, "CLOUDROOM_LISTEN"@, "127.0.0.1:9840"@),
{
    match env.get("CLOUDROOM_LISTEN") {
        Some(address) => address.clone(),
        None => "127.0.0.1:9840".to_owned(),
    }
}

/// How the service is reached.
pub fn access(env: &Table<String>, loopback: Option<bool>) -> (r: Result<Access, Fault>)
    ensures
        access_result(r) == reached(env@, loopback),
{
    let token = match required(env, "CLOUDROOM_TOKEN") {
        Ok(token) => token,
        Err(f) => {
            return Err(f);
        },
    };
    if size(token.as_str()) < 32 || !all_text_in(token.as_str(), Class::Graphic, "") {
        return Err(
            Fault::other("CLOUDROOM_TOKEN must contain at least 32 visible ASCII characters"),
        );
    }
    let local = match loopback {
        Some(local) => local,
        None => {
            return Err(Fault::other("invalid CLOUDROOM_LISTEN"));
        },
    };
    if says_so(env, "CLOUDROOM_UNPROTECTED_TEST_MODE", "1") {
        if !local {
            return Err(
                Fault::other("public binding requires protected deployment behind HTTPS"),
            );
        }
        return Ok(Access { token, policy: None });
    }
    match required(env, "CLOUDROOM_STORAGE_POLICY") {
        Ok(policy) => Ok(Access { token, policy: Some(policy) }),
        Err(f) => Err(f),
    }
}

/// The service is reached from elsewhere only where its storage is protected.
pub proof fn strangers_need_protection(env: Variables)
    ensures
        match reached(env, Some(false)) {
            Ok(a) => a.policy is Some,
            Err(_) => true,
        },
{
}

// What is run.

/// The harness that new sessions get.
pub open spec fn usual_harness(env: Variables) -> Option<Kind> {
    let name = value_or(env, "CLOUDROOM_HARNESS"@, "codex"@);
    if name == "codex"@ {
        Some(Kind::Codex)
    } else if name == "pi"@ {
        Some(Kind::Pi)
    } else {
        None
    }
}

/// How a harness is run, where it is. `prefix` is its name in the variables.
pub open spec fn profile(env: Variables, prefix: Seq<char>, with_provider: bool) -> Result<
    Option<HarnessView>,
    FaultView,
> {
    let binary = "CLOUDROOM_"@ + prefix + "_BINARY"@;
    let own = given(env, "CLOUDROOM_"@ + prefix + "_MODEL"@);
    let model = match own {
        Some(model) => Ok(model),
        None => needed(env, "CLOUDROOM_MODEL"@),
    };
    let provider = if with_provider {
        match needed(env, "CLOUDROOM_PI_PROVIDER"@) {
            Ok(p) => Ok(Some(p)),
            Err(f) => Err(f),
        }
    } else {
        Ok(None)
    };
    if !env.contains_key(binary) {
        Ok(None)
    } else {
        match (model, provider, needed(env, binary), needed(env, "CLOUDROOM_"@ + prefix + "_HOME"@)) {
            (Err(f), _, _, _) => Err(f),
            (_, Err(f), _, _) => Err(f),
            (_, _, Err(f), _) => Err(f),
            (_, _, _, Err(f)) => Err(f),
            (Ok(model), Ok(provider), Ok(binary), Ok(home)) => Ok(
                Some(HarnessView { binary, home, model, provider }),
            ),
        }
    }
}

/// The view of how a harness is run, where it is.
pub open spec fn profile_result(r: Result<Option<HarnessConfig>, Fault>) -> Result<
    Option<HarnessView>,
    FaultView,
> {
    match r {
        Ok(h) => Ok(opt_harness(h)),
        Err(f) => Err(f@),
    }
}

fn read_profile(env: &Table<String>, prefix: &str, with_provider: bool) -> (r: Result<
    Option<HarnessConfig>,
    Fault,
>)
    ensures
        profile_result(r) == profile(env@, prefix@, with_provider),
{
    let name = concat3("CLOUDROOM_", prefix, "_BINARY");
    if !env.contains(name.as_str()) {
        return Ok(None);
    }
    let model = match find(env, concat3("CLOUDROOM_", prefix, "_MODEL").as_str()) {
        Some(model) => model,
        None => match required(env, "CLOUDROOM_MODEL") {
            Ok(model) => model,
            Err(f) => {
                return Err(f);
            },
        },
    };
    let provider = if with_provider {
        match required(env, "CLOUDROOM_PI_PROVIDER") {
            Ok(p) => Some(p),
            Err(f) => {
                return Err(f);
            },
        }
    } else {
        None
    };
    let binary = match required(env, name.as_str()) {
        Ok(binary) => binary,
        Err(f) => {
            return Err(f);
        },
    };
    match required(env, concat3("CLOUDROOM_", prefix, "_HOME").as_str()) {
        Ok(home) => Ok(Some(HarnessConfig { binary, home, model, provider })),
        Err(f) => Err(f),
    }
}

/// What the service runs, and where it keeps things.
#[derive(Debug)]
pub struct Config {
    pub default_harness: Kind,
    pub codex: Option<HarnessConfig>,
    pub pi: Option<HarnessConfig>,
    pub account_home: String,
    pub state_dir: String,
    pub repository: String,
    pub database_url: String,
    pub store: String,
    pub allow_insecure_database: bool,
    pub max_harnesses: usize,
}

/// The mathematical value of what the service runs.
pub struct ConfigView {
    pub default_harness: Kind,
    pub codex: Option<HarnessView>,
    pub pi: Option<HarnessView>,
    pub account_home: Seq<char>,
    pub state_dir: Seq<char>,
    pub repository: Seq<char>,
    pub database_url: Seq<char>,
    pub store: Seq<char>,
    pub allow_insecure_database: bool,
    pub max_harnesses: nat,
}

impl View for Config {
    type V = ConfigView;

    open spec fn view(&self) -> ConfigView {
        ConfigView {
            default_harness: self.default_harness,
            codex: opt_harness(self.codex),
            pi: opt_harness(self.pi),
            account_home: self.account_home@,
            state_dir: self.state_dir@,
            repository: self.repository@,
            database_url: self.database_url@,
            store: self.store@,
            allow_insecure_database: self.allow_insecure_database,
            max_harnesses: self.max_harnesses as nat,
        }
    }
}

/// The number of harnesses that may run.
pub open spec fn harness_limit(env: Variables) -> Option<nat> {
    match number(value_or(env, "CLOUDROOM_MAX_HARNESSES"@, "2"@), usize::MAX as nat) {
        Some(n) => if n > 0 {
            Some(n)
        } else {
            None
        },
        None => None,
    }
}

/// Where the service keeps things, given what it runs.
pub open spec fn kept(
    env: Variables,
    usual: Kind,
    account_home: Seq<char>,
    codex: Option<HarnessView>,
    pi: Option<HarnessView>,
) -> Result<ConfigView, FaultView> {
    match (
        needed(env, "CLOUDROOM_STATE_DIR"@),
        needed(env, "CLOUDROOM_DATABASE_URL"@),
        needed(env, "CLOUDROOM_STORE"@),
        harness_limit(env),
    ) {
        (Err(f), _, _, _) => Err(f),
        (_, Err(f), _, _) => Err(f),
        (_, _, Err(f), _) => Err(f),
        (_, _, _, None) => Err(other("CLOUDROOM_MAX_HARNESSES must be positive"@)),
        (Ok(state_dir), Ok(database_url), Ok(store), Some(max_harnesses)) => Ok(
            ConfigView {
                default_harness: usual,
                codex,
                pi,
                account_home,
                state_dir,
                repository: value_or(env, "CLOUDROOM_REPOSITORY"@, account_home),
                database_url,
                store,
                allow_insecure_database: says(env, "CLOUDROOM_ALLOW_INSECURE_DATABASE"@, "1"@),
                max_harnesses,
            },
        ),
    }
}

/// What the service runs, and where it keeps things.
pub open spec fn configured(env: Variables) -> Result<ConfigView, FaultView> {
    match usual_harness(env) {
        None => Err(other("unsupported CLOUDROOM_HARNESS"@)),
        Some(usual) => match needed(env, "CLOUDROOM_ACCOUNT_HOME"@) {
            Err(f) => Err(f),
            Ok(home) => match profile(env, "CODEX"@, false) {
                Err(f) => Err(f),
                Ok(codex) => match profile(env, "PI"@, true) {
                    Err(f) => Err(f),
                    Ok(pi) => kept(env, usual, home, codex, pi),
                },
            },
        },
    }
}

/// The view of what the service runs.
pub open spec fn config_result(r: Result<Config, Fault>) -> Result<ConfigView, FaultView> {
    match r {
        Ok(c) => Ok(c@),
        Err(f) => Err(f@),
    }
}

fn read_limit(env: &Table<String>) -> (r: Option<usize>)
    ensures
        match r {
            Some(n) => harness_limit(env@) == Some(n as nat),
            None => harness_limit(env@) is None,
        },
{
    let text = match env.get("CLOUDROOM_MAX_HARNESSES") {
        Some(text) => text.clone(),
        None => "2".to_owned(),
    };
    let chars = chars_of(text.as_str());
    match parse_number(chars.as_slice(), usize::MAX as u64) {
        Some(n) => if n > 0 {
            Some(n as usize)
        } else {
            None
        },
        None => None,
    }
}

impl Config {
    /// What the service runs, and where it keeps things.
    pub fn from_env(env: &Table<String>) -> (r: Result<Config, Fault>)
        ensures
            config_result(r) == configured(env@),
    {
        let default_harness = match env.get("CLOUDROOM_HARNESS") {
            None => Kind::Codex,
            Some(name) => if same(name.as_str(), "codex") {
                Kind::Codex
            } else if same(name.as_str(), "pi") {
                Kind::Pi
            } else {
                return Err(Fault::other("unsupported CLOUDROOM_HARNESS"));
            },
        };
        let account_home = match required(env, "CLOUDROOM_ACCOUNT_HOME") {
            Ok(home) => home,
            Err(f) => {
                return Err(f);
            },
        };
        let codex = match read_profile(env, "CODEX", false) {
            Ok(h) => h,
            Err(f) => {
                return Err(f);
            },
        };
        let pi = match read_profile(env, "PI", true) {
            Ok(h) => h,
            Err(f) => {
                return Err(f);
            },
        };
        let state_dir = match required(env, "CLOUDROOM_STATE_DIR") {
            Ok(v) => v,
            Err(f) => {
                return Err(f);
            },
        };
        let repository = match env.get("CLOUDROOM_REPOSITORY") {
            Some(v) => v.clone(),
            None => account_home.clone(),
        };
        let database_url = match required(env, "CLOUDROOM_DATABASE_URL") {
            Ok(v) => v,
            Err(f) => {
                return Err(f);
            },
        };
        let store = match required(env, "CLOUDROOM_STORE") {
            Ok(v) => v,
            Err(f) => {
                return Err(f);
            },
        };
        let allow_insecure_database = says_so(env, "CLOUDROOM_ALLOW_INSECURE_DATABASE", "1");
        match read_limit(env) {
            Some(max_harnesses) => Ok(
                Config {
                    default_harness,
                    codex,
                    pi,
                    account_home,
                    state_dir,
                    repository,
                    database_url,
                    store,
                    allow_insecure_database,
                    max_harnesses,
                },
            ),
            None => Err(Fault::other("CLOUDROOM_MAX_HARNESSES must be positive")),
        }
    }
}

/// At least one harness may run.
pub proof fn some_harness_may_run(env: Variables)
    ensures
        match configured(env) {
            Ok(c) => c.max_harnesses > 0,
            Err(_) => true,
        },
{
}

} // verus!
