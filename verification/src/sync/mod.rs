//! Skills and settings that the user's own machine and this one keep alike. One machine is paired;
//! what it may read and write is a fixed set of places.
use crate::failure::{Failure, FailureView};
use crate::json::{no_json, object, opt_text, opt_uint, push_json, values, Data, Json};
use crate::runtime::auth::{passed, since};
use crate::runtime::files::{below, under};
use crate::runtime::product;
use crate::runtime::product::{settings_place, skills_folder, skills_of, skills_place};
use crate::table::{in_order, is_order, Table};
use crate::text::{
    concat, copy_all, decimal, decimal_of, includes, opt, opt_copy,
    opt_slice, push_string, same, views,
};
use crate::wire::{denoted, read_json};
use vstd::prelude::*;

verus! {

/// The bytes of one file.
pub const BODY_LIMIT: u64 = 4294967296;

/// What a failure says.
pub open spec fn failed(status: u16) -> FailureView {
    FailureView {
        status,
        message: if status == 409 {
            "sync conflict; originals preserved"@
        } else {
            "sync unavailable; check setup, paths, and storage"@
        },
    }
}

/// A failure with what it says.
pub fn fail(status: u16) -> (r: Failure)
    ensures
        r@ == failed(status),
{
    let message = if status == 409 {
        "sync conflict; originals preserved"
    } else {
        "sync unavailable; check setup, paths, and storage"
    };
    Failure { status, message: message.to_owned() }
}

/// The pairing, and the places that have been made on this machine.
#[derive(Debug)]
pub struct Settings {
    pub revision: u64,
    pub device: Option<String>,
    pub initialized_roots: Vec<String>,
}

/// The mathematical value of the settings.
pub struct SettingsView {
    pub revision: u64,
    pub device: Option<Seq<char>>,
    pub initialized_roots: Seq<Seq<char>>,
}

impl View for Settings {
    type V = SettingsView;

    open spec fn view(&self) -> SettingsView {
        SettingsView {
            revision: self.revision,
            device: opt(self.device),
            initialized_roots: views(self.initialized_roots@),
        }
    }
}

impl SettingsView {
    /// No place is noted twice.
    pub open spec fn sound(self) -> bool {
        self.initialized_roots.no_duplicates()
    }
}

/// The places with one more, noted once.
pub open spec fn rooted(roots: Seq<Seq<char>>, id: Seq<char>) -> Seq<Seq<char>> {
    if roots.contains(id) {
        roots
    } else {
        roots.push(id)
    }
}

/// The places of a list, each noted once, where it first stands.
pub open spec fn distinct(roots: Seq<Seq<char>>) -> Seq<Seq<char>>
    decreases roots.len(),
{
    if roots.len() == 0 {
        roots
    } else {
        rooted(distinct(roots.drop_last()), roots.last())
    }
}

/// A place that is noted once is noted, and nothing else changes.
pub proof fn noting_keeps_places(roots: Seq<Seq<char>>, id: Seq<char>)
    requires
        roots.no_duplicates(),
    ensures
        rooted(roots, id).no_duplicates(),
        forall|x: Seq<char>| #[trigger]
            rooted(roots, id).contains(x) <==> roots.contains(x) || x == id,
{
    if !roots.contains(id) {
        let next = roots.push(id);
        assert(next[roots.len() as int] == id);
        assert forall|x: Seq<char>| #[trigger] next.contains(x) <==> roots.contains(x) || x == id by {
            if roots.contains(x) {
                let i = choose|i: int| 0 <= i < roots.len() && roots[i] == x;
                assert(next[i] == x);
            }
        }
        assert forall|i: int, j: int| 0 <= i < next.len() && 0 <= j < next.len() && i
            != j implies next[i] != next[j] by {
            if i < roots.len() {
                assert(roots.contains(roots[i]));
            }
            if j < roots.len() {
                assert(roots.contains(roots[j]));
            }
        }
    }
}

/// A list of places and the places that are noted of it are the same, but that each is noted once.
pub proof fn places_are_noted_once(roots: Seq<Seq<char>>)
    ensures
        distinct(roots).no_duplicates(),
        forall|x: Seq<char>| #[trigger] distinct(roots).contains(x) <==> roots.contains(x),
    decreases roots.len(),
{
    if roots.len() > 0 {
        let before = roots.drop_last();
        places_are_noted_once(before);
        noting_keeps_places(distinct(before), roots.last());
        assert forall|x: Seq<char>| #[trigger] distinct(roots).contains(x) <==> roots.contains(
            x,
        ) by {
            if roots.contains(x) {
                let i = choose|i: int| 0 <= i < roots.len() && roots[i] == x;
                if i < before.len() {
                    assert(before[i] == x);
                }
            }
            if before.contains(x) {
                let i = choose|i: int| 0 <= i < before.len() && before[i] == x;
                assert(roots[i] == x);
            }
            assert(roots[roots.len() - 1] == roots.last());
        }
    }
}

impl Settings {
    /// Settings that were saved.
    pub fn new(revision: u64, device: Option<String>, roots: &Vec<String>) -> (r: Settings)
        ensures
            r@ == (SettingsView {
                revision,
                device: opt(device),
                initialized_roots: distinct(views(roots@)),
            }),
            r@.sound(),
    {
        let ghost all = views(roots@);
        let mut initialized_roots: Vec<String> = Vec::new();
        let mut i: usize = 0;
        assert(views(initialized_roots@) =~= distinct(all.take(0)));
        while i < roots.len()
            invariant
                i <= roots.len(),
                all == views(roots@),
                views(initialized_roots@) == distinct(all.take(i as int)),
            decreases roots.len() - i,
        {
            assert(all.take(i + 1).drop_last() =~= all.take(i as int));
            assert(all.take(i + 1).last() == roots@[i as int]@);
            if !includes(&initialized_roots, roots[i].as_str()) {
                push_string(&mut initialized_roots, roots[i].as_str());
            }
            i += 1;
        }
        assert(all.take(i as int) =~= all);
        proof {
            places_are_noted_once(all);
        }
        Settings { revision, device, initialized_roots }
    }
}

/// The view of settings that may be new.
pub open spec fn opt_settings(s: Option<Settings>) -> Option<SettingsView> {
    match s {
        Some(s) => Some(s@),
        None => None,
    }
}

/// The places of pairings that did not yet note which places were made. None of them is made again.
pub open spec fn older_roots(word: Seq<char>) -> Seq<Seq<char>> {
    seq![
        "skills-shared"@,
        "skills-codex"@,
        "skills-pi"@,
        skills_place(word),
        "settings-codex"@,
        "settings-pi"@,
        settings_place(word),
        "auth-codex"@
    ]
}

/// The places of pairings that did not yet note which places were made.
pub fn existing_roots(word: &str) -> (r: Vec<String>)
    ensures
        views(r@) == older_roots(word@),
{
    let mut out: Vec<String> = Vec::new();
    push_string(&mut out, "skills-shared");
    push_string(&mut out, "skills-codex");
    push_string(&mut out, "skills-pi");
    push_string(&mut out, concat("skills-", word).as_str());
    push_string(&mut out, "settings-codex");
    push_string(&mut out, "settings-pi");
    push_string(&mut out, concat("settings-", word).as_str());
    push_string(&mut out, "auth-codex");
    assert(views(out@) =~= older_roots(word@));
    out
}

/// The next number of the settings.
pub open spec fn next_revision(n: u64) -> u64 {
    if n == u64::MAX {
        n
    } else {
        (n + 1) as u64
    }
}

fn bump(n: u64) -> (r: u64)
    ensures
        r == next_revision(n),
{
    if n == u64::MAX {
        n
    } else {
        n + 1
    }
}

// The places.

/// The homes that places are found in. `word` is the one that names the product whose home has no
/// setting of its own.
#[derive(Debug)]
pub struct Homes {
    pub account: String,
    pub word: String,
    pub codex: Option<String>,
    pub pi: Option<String>,
}

/// The mathematical value of the homes.
pub struct HomesView {
    pub account: Seq<char>,
    pub word: Seq<char>,
    pub codex: Option<Seq<char>>,
    pub pi: Option<Seq<char>>,
}

impl View for Homes {
    type V = HomesView;

    open spec fn view(&self) -> HomesView {
        HomesView { account: self.account@, word: self.word@, codex: opt(self.codex), pi: opt(self.pi) }
    }
}

/// The home of a harness: its own, or the usual one.
pub open spec fn home_of(own: Option<Seq<char>>, account: Seq<char>, usual: Seq<char>) -> Seq<char> {
    match own {
        Some(home) => home,
        None => below(account, usual),
    }
}

fn find_home(own: &Option<String>, account: &str, usual: &str) -> (r: String)
    ensures
        r@ == home_of(opt(*own), account@, usual@),
{
    match own {
        Some(home) => home.clone(),
        None => under(account, usual),
    }
}

/// A place: where it is, what is kept there, and the one file of it where it is only one.
pub struct PlaceView {
    pub root: Seq<char>,
    pub kind: Seq<char>,
    pub filename: Option<Seq<char>>,
}

/// The place of a name. There are no others.
pub open spec fn place(id: Seq<char>, h: HomesView) -> Option<PlaceView> {
    let codex = home_of(h.codex, h.account, ".codex"@);
    let pi = home_of(h.pi, h.account, ".pi/agent"@);
    let skills = |root: Seq<char>| Some(PlaceView { root, kind: "skills"@, filename: None });
    let file = |root: Seq<char>, kind: Seq<char>, name: Seq<char>|
        Some(PlaceView { root, kind, filename: Some(name) });
    if id == "skills-shared"@ {
        skills(below(h.account, ".agents/skills"@))
    } else if id == "skills-codex"@ {
        skills(below(codex, "skills"@))
    } else if id == "skills-pi"@ {
        skills(below(pi, "skills"@))
    } else if id == skills_place(h.word) {
        skills(below(h.account, skills_of(h.word)))
    } else if id == "skills-cursor"@ {
        skills(below(h.account, ".cursor/skills"@))
    } else if id == "rules-cursor"@ {
        skills(below(h.account, ".cursor/rules"@))
    } else if id == "settings-cursor"@ {
        file(below(h.account, ".cursor"@), "cursor"@, "cli-config.json"@)
    } else if id == "settings-codex"@ {
        file(codex, "codex"@, "config.toml"@)
    } else if id == "settings-pi"@ {
        file(pi, "pi"@, "settings.json"@)
    } else if id == settings_place(h.word) {
        file(product::home_of(h.account, h.word), h.word, "settings.json"@)
    } else {
        None
    }
}

/// A place.
#[derive(Debug)]
pub struct Place {
    pub root: String,
    pub kind: String,
    pub filename: Option<String>,
}

impl View for Place {
    type V = PlaceView;

    open spec fn view(&self) -> PlaceView {
        PlaceView { root: self.root@, kind: self.kind@, filename: opt(self.filename) }
    }
}

fn skills(root: String) -> (r: Place)
    ensures
        r@ == (PlaceView { root: root@, kind: "skills"@, filename: None }),
{
    Place { root, kind: "skills".to_owned(), filename: None }
}

fn one_file(root: String, kind: &str, name: &str) -> (r: Place)
    ensures
        r@ == (PlaceView { root: root@, kind: kind@, filename: Some(name@) }),
{
    Place { root, kind: kind.to_owned(), filename: Some(name.to_owned()) }
}

/// The place of a name.
pub fn tree(id: &str, h: &Homes) -> (r: Result<Place, Failure>)
    ensures
        match r {
            Ok(p) => place(id@, h@) == Some(p@),
            Err(f) => place(id@, h@) is None && f@ == failed(410),
        },
{
    let account = h.account.as_str();
    let codex = find_home(&h.codex, account, ".codex");
    let pi = find_home(&h.pi, account, ".pi/agent");
    if same(id, "skills-shared") {
        Ok(skills(under(account, ".agents/skills")))
    } else if same(id, "skills-codex") {
        Ok(skills(under(codex.as_str(), "skills")))
    } else if same(id, "skills-pi") {
        Ok(skills(under(pi.as_str(), "skills")))
    } else if same(id, concat("skills-", h.word.as_str()).as_str()) {
        Ok(skills(under(account, skills_folder(h.word.as_str()).as_str())))
    } else if same(id, "skills-cursor") {
        Ok(skills(under(account, ".cursor/skills")))
    } else if same(id, "rules-cursor") {
        Ok(skills(under(account, ".cursor/rules")))
    } else if same(id, "settings-cursor") {
        Ok(one_file(under(account, ".cursor"), "cursor", "cli-config.json"))
    } else if same(id, "settings-codex") {
        Ok(one_file(codex, "codex", "config.toml"))
    } else if same(id, "settings-pi") {
        Ok(one_file(pi, "pi", "settings.json"))
    } else if same(id, concat("settings-", h.word.as_str()).as_str()) {
        Ok(one_file(product::home(account, h.word.as_str()), h.word.as_str(), "settings.json"))
    } else {
        Err(fail(410))
    }
}

// What the paired machine tells.

/// What the paired machine told of a place, and when (in seconds).
#[derive(Debug)]
pub struct Told {
    pub at: u64,
    pub state: String,
}

/// The mathematical value of what was told of a place.
pub struct ToldView {
    pub at: u64,
    pub state: Seq<char>,
}

impl View for Told {
    type V = ToldView;

    open spec fn view(&self) -> ToldView {
        ToldView { at: self.at, state: self.state@ }
    }
}

/// What was told of some place is too old.
pub open spec fn some_stale(told: Map<Seq<char>, ToldView>, now: u64) -> bool {
    exists|id: Seq<char>| #[trigger] told.contains_key(id) && passed(now, told[id].at) > 30
}

/// Some place is in a state.
pub open spec fn some_is(told: Map<Seq<char>, ToldView>, state: Seq<char>) -> bool {
    exists|id: Seq<char>| #[trigger] told.contains_key(id) && told[id].state == state
}

/// Some place is not in a state.
pub open spec fn some_not(told: Map<Seq<char>, ToldView>, state: Seq<char>) -> bool {
    exists|id: Seq<char>| #[trigger] told.contains_key(id) && told[id].state != state
}

/// How all places together stand.
pub open spec fn overall(told: Map<Seq<char>, ToldView>, now: u64) -> Seq<char> {
    if in_order(told).len() == 0 || some_stale(told, now) {
        "offline"@
    } else if some_is(told, "conflict"@) {
        "conflict"@
    } else if some_not(told, "synced"@) {
        "syncing"@
    } else {
        "synced"@
    }
}

/// What the paired machine checks in with.
#[derive(Debug)]
pub struct CheckIn {
    pub device: String,
    pub repositories: Vec<String>,
    pub states: Table<String>,
}

/// The mathematical value of what the paired machine checks in with.
pub struct CheckInView {
    pub device: Seq<char>,
    pub repositories: Seq<Seq<char>>,
    pub states: Map<Seq<char>, Seq<char>>,
}

impl View for CheckIn {
    type V = CheckInView;

    open spec fn view(&self) -> CheckInView {
        CheckInView {
            device: self.device@,
            repositories: views(self.repositories@),
            states: self.states@,
        }
    }
}

/// A folder of the user.
#[derive(Debug)]
pub struct Repository {
    pub id: String,
    pub name: Option<String>,
}

/// What is told of a folder. Folders are not kept alike.
pub open spec fn repository_data(r: Repository) -> Data {
    Data::Object(
        map![
            "id"@ => Data::Text(r.id@),
            "name"@ => opt_text(opt(r.name)),
            "sync"@ => Data::Bool(false),
            "workspaceMode"@ => Data::Text("shared"@)
        ],
    )
}

/// What is kept alike, and how that stands.
#[derive(Debug)]
pub struct Sync {
    pub settings: Settings,
    /// What the last readings of places found.
    pub scans: Table<Json>,
    pub reports: Table<Told>,
}

/// The mathematical value of what is kept alike.
pub struct SyncView {
    pub settings: SettingsView,
    pub scans: Map<Seq<char>, Data>,
    pub reports: Map<Seq<char>, ToldView>,
}

impl View for Sync {
    type V = SyncView;

    open spec fn view(&self) -> SyncView {
        SyncView { settings: self.settings@, scans: self.scans@, reports: self.reports@ }
    }
}

/// The settings that a check-in leads to, where it changes them. `valid` says whether the machine's
/// name can be one, `available` whether the service records and goes on.
pub open spec fn pairing(s: SettingsView, input: CheckInView, valid: bool, available: bool) -> Result<
    Option<SettingsView>,
    FailureView,
> {
    if !valid || !available {
        Err(failed(503))
    } else if s.device is Some && s.device != Some(input.device) {
        Err(failed(409))
    } else if input.repositories.len() > 0 {
        Err(failed(410))
    } else if s.device is None {
        Ok(
            Some(
                SettingsView {
                    revision: next_revision(s.revision),
                    device: Some(input.device),
                    ..s
                },
            ),
        )
    } else {
        Ok(None)
    }
}

/// A state that a machine may tell.
pub open spec fn known_state(state: Seq<char>) -> bool {
    state == "synced"@ || state == "syncing"@ || state == "conflict"@ || state == "offline"@
}

/// Why what a machine tells is refused: the first place, in order, that is none or has no known state.
pub open spec fn told_refused(
    keys: Seq<Seq<char>>,
    states: Map<Seq<char>, Seq<char>>,
    h: HomesView,
) -> Option<FailureView>
    decreases keys.len(),
{
    if keys.len() == 0 {
        None
    } else {
        match told_refused(keys.drop_last(), states, h) {
            Some(f) => Some(f),
            None => if place(keys.last(), h) is None {
                Some(failed(410))
            } else if !known_state(states[keys.last()]) {
                Some(failed(409))
            } else {
                None
            },
        }
    }
}

/// What a machine tells, as it is kept.
pub open spec fn told_at(states: Map<Seq<char>, Seq<char>>, now: u64) -> Map<Seq<char>, ToldView> {
    Map::new(|id: Seq<char>| states.contains_key(id), |id: Seq<char>| ToldView { at: now, state: states[id] })
}

/// What is known after a machine has told how things stand. Where it tells nothing, nothing changes.
pub open spec fn told_after(
    before: Map<Seq<char>, ToldView>,
    states: Map<Seq<char>, Seq<char>>,
    now: u64,
) -> Map<Seq<char>, ToldView> {
    if in_order(states).len() == 0 {
        before
    } else {
        told_at(states, now)
    }
}

proof fn told_fails(
    keys: Seq<Seq<char>>,
    states: Map<Seq<char>, Seq<char>>,
    h: HomesView,
    n: int,
)
    requires
        0 <= n <= keys.len(),
        told_refused(keys.take(n), states, h) is Some,
    ensures
        told_refused(keys, states, h) == told_refused(keys.take(n), states, h),
    decreases keys.len() - n,
{
    if n == keys.len() {
        assert(keys.take(n) =~= keys);
    } else {
        assert(keys.take(n + 1).drop_last() =~= keys.take(n));
        told_fails(keys, states, h, n + 1);
    }
}

impl Sync {
    /// How all places together stand.
    pub fn state(&self, now: u64) -> (r: &'static str)
        ensures
            r@ == overall(self@.reports, now),
    {
        let ghost told = self.reports@;
        let ghost keys = in_order(told);
        let count = self.reports.len();
        let mut stale = false;
        let mut conflict = false;
        let mut unsettled = false;
        let mut i: usize = 0;
        while i < count
            invariant
                i <= count,
                told == self.reports@,
                keys == in_order(told),
                is_order(keys, told),
                count == keys.len(),
                stale == (exists|j: int|
                    0 <= j < i && passed(now, told[#[trigger] keys[j]].at) > 30),
                conflict == (exists|j: int|
                    0 <= j < i && told[#[trigger] keys[j]].state == "conflict"@),
                unsettled == (exists|j: int|
                    0 <= j < i && told[#[trigger] keys[j]].state != "synced"@),
            decreases count - i,
        {
            let one = self.reports.value_at(i);
            assert(one@ == told[keys[i as int]]);
            let ghost k = keys[i as int];
            if since(now, one.at) > 30 {
                stale = true;
            }
            if same(one.state.as_str(), "conflict") {
                conflict = true;
            }
            if !same(one.state.as_str(), "synced") {
                unsettled = true;
            }
            i += 1;
        }
        proof {
            if stale {
                let j = choose|j: int| 0 <= j < i && passed(now, told[#[trigger] keys[j]].at) > 30;
                assert(told.contains_key(keys[j]));
            }
            if conflict {
                let j = choose|j: int|
                    0 <= j < i && told[#[trigger] keys[j]].state == "conflict"@;
                assert(told.contains_key(keys[j]));
            }
            if unsettled {
                let j = choose|j: int| 0 <= j < i && told[#[trigger] keys[j]].state != "synced"@;
                assert(told.contains_key(keys[j]));
            }
            assert forall|id: Seq<char>| #[trigger] told.contains_key(id) implies exists|j: int|
                0 <= j < keys.len() && #[trigger] keys[j] == id by {
                assert(keys.contains(id));
            }
            if some_stale(told, now) {
                let id = choose|id: Seq<char>| #[trigger]
                    told.contains_key(id) && passed(now, told[id].at) > 30;
                let j = choose|j: int| 0 <= j < keys.len() && #[trigger] keys[j] == id;
                assert(passed(now, told[keys[j]].at) > 30);
            }
            if some_is(told, "conflict"@) {
                let id = choose|id: Seq<char>| #[trigger]
                    told.contains_key(id) && told[id].state == "conflict"@;
                let j = choose|j: int| 0 <= j < keys.len() && #[trigger] keys[j] == id;
                assert(told[keys[j]].state == "conflict"@);
            }
            if some_not(told, "synced"@) {
                let id = choose|id: Seq<char>| #[trigger]
                    told.contains_key(id) && told[id].state != "synced"@;
                let j = choose|j: int| 0 <= j < keys.len() && #[trigger] keys[j] == id;
                assert(told[keys[j]].state != "synced"@);
            }
        }
        if count == 0 || stale {
            "offline"
        } else if conflict {
            "conflict"
        } else if unsettled {
            "syncing"
        } else {
            "synced"
        }
    }

    /// What is told of what is kept alike.
    pub fn show(&self, repositories: &Vec<Repository>, now: u64) -> (r: Json)
        ensures
            r@ == Data::Object(
                map![
                    "revision"@ => Data::Text(decimal(self@.settings.revision as nat)),
                    "autoSync"@ => Data::Bool(true),
                    "repositorySync"@ => Data::Bool(false),
                    "syncState"@ => Data::Text(overall(self@.reports, now)),
                    "repositories"@ => Data::Array(
                        Seq::new(repositories@.len(), |i: int| repository_data(repositories@[i])),
                    ),
                    "accounts"@ => Data::Array(Seq::empty()),
                    "worktreesSupported"@ => Data::Bool(false)
                ],
            ),
    {
        let ghost all = Seq::new(repositories@.len(), |i: int| repository_data(repositories@[i]));
        let mut shown = no_json();
        let mut i: usize = 0;
        assert(values(shown@) =~= all.take(0));
        while i < repositories.len()
            invariant
                i <= repositories@.len(),
                all == Seq::new(repositories@.len(), |i: int| repository_data(repositories@[i])),
                values(shown@) == all.take(i as int),
            decreases repositories@.len() - i,
        {
            let one = &repositories[i];
            let item = Json::Object(
                object().with_text("id", one.id.as_str()).with(
                    "name",
                    Json::opt_text(opt_slice(&one.name)),
                ).with("sync", Json::Bool(false)).with_text("workspaceMode", "shared"),
            );
            assert(item@ == all[i as int]);
            push_json(&mut shown, item);
            assert(all.take(i + 1) =~= all.take(i as int).push(all[i as int]));
            i += 1;
        }
        assert(all.take(i as int) =~= all);
        let none = no_json();
        assert(values(none@) =~= Seq::<Data>::empty());
        Json::Object(
            object().with_text("revision", decimal_of(self.settings.revision).as_str()).with(
                "autoSync",
                Json::Bool(true),
            ).with("repositorySync", Json::Bool(false)).with_text("syncState", self.state(now)).with(
                "repositories",
                Json::Array(shown),
            ).with("accounts", Json::Array(none)).with("worktreesSupported", Json::Bool(false)),
        )
    }

    /// The settings that a check-in leads to, where it changes them. They are saved before they count.
    pub fn pair(&self, input: &CheckIn, valid: bool, available: bool) -> (r: Result<
        Option<Settings>,
        Failure,
    >)
        ensures
            match r {
                Ok(next) => pairing(self@.settings, input@, valid, available) == Ok::<
                    Option<SettingsView>,
                    FailureView,
                >(opt_settings(next)),
                Err(f) => pairing(self@.settings, input@, valid, available) == Err::<
                    Option<SettingsView>,
                    FailureView,
                >(f@),
            },
    {
        if !valid || !available {
            return Err(fail(503));
        }
        if let Some(device) = &self.settings.device {
            if !same(device.as_str(), input.device.as_str()) {
                return Err(fail(409));
            }
        }
        assert(views(input.repositories@).len() == input.repositories@.len());
        if input.repositories.len() > 0 {
            return Err(fail(410));
        }
        if self.settings.device.is_some() {
            return Ok(None);
        }
        Ok(
            Some(
                Settings {
                    revision: bump(self.settings.revision),
                    device: Some(input.device.clone()),
                    initialized_roots: copy_all(&self.settings.initialized_roots),
                },
            ),
        )
    }

    /// Takes in how things stand on the paired machine.
    pub fn tell(&mut self, states: &Table<String>, h: &Homes, now: u64) -> (r: Result<(), Failure>)
        ensures
            match told_refused(in_order(states@), states@, h@) {
                Some(f) => r is Err && r->Err_0@ == f && final(self)@ == old(self)@,
                None => r is Ok && final(self)@ == (SyncView {
                    reports: told_after(old(self)@.reports, states@, now),
                    ..old(self)@
                }),
            },
    {
        let ghost all = states@;
        let ghost keys = in_order(all);
        let count = states.len();
        let mut next: Table<Told> = Table::new();
        let mut i: usize = 0;
        assert(keys.take(0) =~= Seq::empty());
        while i < count
            invariant
                i <= count,
                all == states@,
                keys == in_order(all),
                is_order(keys, all),
                count == keys.len(),
                self@ == old(self)@,
                told_refused(keys.take(i as int), all, h@) is None,
                forall|id: Seq<char>| #[trigger]
                    next@.contains_key(id) <==> exists|j: int| 0 <= j < i && keys[j] == id,
                forall|id: Seq<char>| #[trigger]
                    next@.contains_key(id) ==> next@[id] == (ToldView { at: now, state: all[id] }),
            decreases count - i,
        {
            assert(keys.take(i + 1).drop_last() =~= keys.take(i as int));
            assert(keys.take(i + 1).last() == keys[i as int]);
            let id = states.key_at(i);
            let state = states.value_at(i);
            if let Err(f) = tree(id, h) {
                proof {
                    told_fails(keys, all, h@, i + 1);
                }
                return Err(f);
            }
            let word = state.as_str();
            if !same(word, "synced") && !same(word, "syncing") && !same(word, "conflict") && !same(
                word,
                "offline",
            ) {
                proof {
                    told_fails(keys, all, h@, i + 1);
                }
                return Err(fail(409));
            }
            let ghost was = next@;
            next.insert(id, Told { at: now, state: state.clone() });
            assert forall|k: Seq<char>| #[trigger] next@.contains_key(k) <==> exists|j: int|
                0 <= j < i + 1 && keys[j] == k by {
                if next@.contains_key(k) {
                    if k == keys[i as int] {
                        assert(keys[i as int] == k);
                    } else {
                        assert(was.contains_key(k));
                        let j = choose|j: int| 0 <= j < i && keys[j] == k;
                        assert(keys[j] == k);
                    }
                }
                if exists|j: int| 0 <= j < i + 1 && keys[j] == k {
                    let j = choose|j: int| 0 <= j < i + 1 && keys[j] == k;
                    if j < i {
                        assert(was.contains_key(k));
                    }
                }
            }
            i += 1;
        }
        assert(keys.take(i as int) =~= keys);
        if count > 0 {
            proof {
                let target = told_at(all, now);
                assert forall|k: Seq<char>| #[trigger] next@.contains_key(k) <==> target.contains_key(k) by {
                    if next@.contains_key(k) {
                        let j = choose|j: int| 0 <= j < i && keys[j] == k;
                        assert(all.contains_key(keys[j]));
                    }
                    if all.contains_key(k) {
                        assert(keys.contains(k));
                        let j = choose|j: int| 0 <= j < keys.len() && keys[j] == k;
                        assert(keys[j] == k);
                    }
                }
                assert(next@ =~= target);
            }
            self.reports = next;
        }
        Ok(())
    }
}

// What the paired machine asks for.

/// What is asked of a place.
#[derive(Debug)]
pub struct Operation {
    pub device: String,
    pub path: Option<String>,
    pub expected: Option<String>,
    pub incoming: Option<String>,
    pub size: Option<u64>,
    pub kind: Option<String>,
    pub executable: Option<bool>,
}

/// The mathematical value of what is asked.
pub struct OperationView {
    pub device: Seq<char>,
    pub path: Option<Seq<char>>,
    pub expected: Option<Seq<char>>,
    pub incoming: Option<Seq<char>>,
    pub size: Option<u64>,
    pub kind: Option<Seq<char>>,
    pub executable: Option<bool>,
}

impl View for Operation {
    type V = OperationView;

    open spec fn view(&self) -> OperationView {
        OperationView {
            device: self.device@,
            path: opt(self.path),
            expected: opt(self.expected),
            incoming: opt(self.incoming),
            size: self.size,
            kind: opt(self.kind),
            executable: self.executable,
        }
    }
}

/// What is done with a place.
#[derive(Clone, Copy, PartialEq, Eq, Structural, Debug)]
pub enum Op {
    Scan,
    Read,
    Apply,
}

/// The word for what is done with a place.
pub open spec fn op_name(op: Op) -> Seq<char> {
    match op {
        Op::Scan => "scan"@,
        Op::Read => "read"@,
        Op::Apply => "apply"@,
    }
}

/// The place is made where it is missing: only the first time that it is read.
pub open spec fn makes(s: SettingsView, id: Seq<char>, op: Op) -> bool {
    op == Op::Scan && !s.initialized_roots.contains(id)
}

/// Why what is asked is refused.
pub open spec fn operation_refused(
    s: SettingsView,
    input: OperationView,
    available: bool,
    known: bool,
) -> Option<FailureView> {
    if s.device != Some(input.device) {
        Some(failed(409))
    } else if !available {
        Some(failed(503))
    } else if !known {
        Some(failed(410))
    } else {
        None
    }
}

/// What the worker is told to write.
pub open spec fn entry_data(input: OperationView) -> Data {
    Data::Object(
        map![
            "kind"@ => opt_text(input.kind),
            "executable"@ => Data::Bool(input.executable == Some(true)),
            "tag"@ => opt_text(input.incoming),
            "size"@ => opt_uint(input.size)
        ],
    )
}

/// What the worker is asked.
pub open spec fn request_data(s: SyncView, p: PlaceView, id: Seq<char>, input: OperationView, op: Op) -> Data {
    let base = map![
        "tree"@ => Data::Object(
            map![
                "root"@ => Data::Text(p.root),
                "kind"@ => Data::Text(p.kind),
                "filename"@ => opt_text(p.filename),
                "create"@ => Data::Bool(makes(s.settings, id, op))
            ],
        ),
        "op"@ => Data::Text(op_name(op)),
        "path"@ => opt_text(input.path),
        "expected"@ => opt_text(input.expected)
    ];
    Data::Object(
        if op == Op::Scan {
            base.insert(
                "cache"@,
                if s.scans.contains_key(id) {
                    s.scans[id]
                } else {
                    Data::Object(Map::empty())
                },
            )
        } else if op == Op::Apply && input.kind is Some {
            base.insert("entry"@, entry_data(input))
        } else {
            base
        },
    )
}

impl Sync {
    /// What the worker is asked, and whether it may make the place.
    pub fn request(
        &self,
        id: &str,
        input: &Operation,
        op: Op,
        available: bool,
        h: &Homes,
    ) -> (r: Result<(Json, bool), Failure>)
        ensures
            match operation_refused(
                self@.settings,
                input@,
                available,
                place(id@, h@) is Some,
            ) {
                Some(f) => r is Err && r->Err_0@ == f,
                None => r is Ok && r->Ok_0.0@ == request_data(
                    self@,
                    place(id@, h@)->0,
                    id@,
                    input@,
                    op,
                ) && r->Ok_0.1 == makes(self@.settings, id@, op),
            },
    {
        let paired = match &self.settings.device {
            Some(device) => same(device.as_str(), input.device.as_str()),
            None => false,
        };
        if !paired {
            return Err(fail(409));
        }
        if !available {
            return Err(fail(503));
        }
        let p = match tree(id, h) {
            Ok(p) => p,
            Err(f) => {
                return Err(f);
            },
        };
        let make = op == Op::Scan && !includes(&self.settings.initialized_roots, id);
        let place = Json::Object(
            object().with_text("root", p.root.as_str()).with_text("kind", p.kind.as_str()).with(
                "filename",
                Json::opt_text(opt_slice(&p.filename)),
            ).with("create", Json::Bool(make)),
        );
        let word = match op {
            Op::Scan => "scan",
            Op::Read => "read",
            Op::Apply => "apply",
        };
        let mut fields = object().with("tree", place).with_text("op", word).with(
            "path",
            Json::opt_text(opt_slice(&input.path)),
        ).with("expected", Json::opt_text(opt_slice(&input.expected)));
        if op == Op::Scan {
            let cache = match self.scans.get(id) {
                Some(files) => files.duplicate(),
                None => Json::Object(object()),
            };
            fields.set("cache", cache);
        }
        if op == Op::Apply && input.kind.is_some() {
            let executable = match input.executable {
                Some(e) => e,
                None => false,
            };
            let entry = Json::Object(
                object().with("kind", Json::opt_text(opt_slice(&input.kind))).with(
                    "executable",
                    Json::Bool(executable),
                ).with("tag", Json::opt_text(opt_slice(&input.incoming))).with(
                    "size",
                    Json::opt_uint(input.size),
                ),
            );
            fields.set("entry", entry);
        }
        Ok((Json::Object(fields), make))
    }

    /// The settings once a place has been read for the first time. They are saved before they count.
    pub fn settled(&self, id: &str, made: bool) -> (r: Option<Settings>)
        requires
            self@.settings.sound(),
        ensures
            r matches Some(next) ==> next@.sound(),
            opt_settings(r) == if made {
                Some(
                    SettingsView {
                        revision: next_revision(self@.settings.revision),
                        initialized_roots: rooted(self@.settings.initialized_roots, id@),
                        ..self@.settings
                    },
                )
            } else {
                None
            },
    {
        if !made {
            return None;
        }
        let mut roots = copy_all(&self.settings.initialized_roots);
        if !includes(&roots, id) {
            push_string(&mut roots, id);
        }
        proof {
            noting_keeps_places(self@.settings.initialized_roots, id@);
        }
        Some(
            Settings {
                revision: bump(self.settings.revision),
                device: opt_copy(&self.settings.device),
                initialized_roots: roots,
            },
        )
    }

    /// Keeps what a reading of a place found.
    pub fn scanned(&mut self, id: &str, reply: &Json)
        ensures
            final(self)@ == (SyncView {
                scans: old(self)@.scans.insert(id@, reply@.field("files"@)),
                ..old(self)@
            }),
    {
        self.scans.insert(id, reply.field("files").duplicate());
    }
}

/// Why an answer of the worker is none of success.
pub open spec fn reply_refused(reply: Data) -> Option<FailureView> {
    if reply.field("ok"@).is_true() {
        None
    } else if reply.field("error"@).is_text("conflict"@) {
        Some(failed(409))
    } else {
        Some(failed(503))
    }
}

/// What the worker answered: whether it was done, or why not.
pub fn check_reply(reply: &Json) -> (r: Result<(), Failure>)
    ensures
        crate::failure::denial(r) == reply_refused(reply@),
{
    if reply.field("ok").is_true() {
        Ok(())
    } else if reply.field_is("error", "conflict") {
        Err(fail(409))
    } else {
        Err(fail(503))
    }
}

/// The answer in a line of the worker, where it tells of success. A line that is no JSON is a failure.
pub fn read_reply(line: &str) -> (r: Result<Json, Failure>)
    ensures
        match denoted(line@) {
            None => r is Err && r->Err_0@ == failed(503),
            Some(reply) => match reply_refused(reply) {
                None => r is Ok && r->Ok_0@ == reply,
                Some(f) => r is Err && r->Err_0@ == f,
            },
        },
{
    match read_json(line) {
        None => Err(fail(503)),
        Some(reply) => match check_reply(&reply) {
            Ok(()) => Ok(reply),
            Err(failure) => Err(failure),
        },
    }
}

/// The bytes received after one more piece, up to the limit.
pub fn received(before: u64, more: usize) -> (r: Result<u64, Failure>)
    ensures
        match r {
            Ok(n) => n == before + more && n <= BODY_LIMIT,
            Err(f) => before + more > BODY_LIMIT && f@ == failed(413),
        },
{
    match before.checked_add(more as u64) {
        Some(n) => if n > BODY_LIMIT {
            Err(fail(413))
        } else {
            Ok(n)
        },
        None => Err(fail(413)),
    }
}

/// Once a machine is paired, no other is: it cannot check in, and is handed nothing.
pub proof fn one_machine_is_paired(
    s: SettingsView,
    input: CheckInView,
    other: OperationView,
    available: bool,
    known: bool,
)
    requires
        s.device is Some,
        s.device != Some(input.device),
        s.device != Some(other.device),
    ensures
        pairing(s, input, true, true) == Err::<Option<SettingsView>, FailureView>(failed(409)),
        operation_refused(s, other, available, known) == Some(failed(409)),
{
}

/// A check-in of the paired machine changes no settings.
pub proof fn pairing_is_kept(s: SettingsView, input: CheckInView, valid: bool, available: bool)
    requires
        s.device is Some,
    ensures
        match pairing(s, input, valid, available) {
            Ok(next) => next is None,
            Err(_) => true,
        },
{
}

/// A place is made at most once: once it has been read it is never made again, so a folder that was
/// taken away is not taken for an empty one.
pub proof fn places_are_made_once(s: SettingsView, id: Seq<char>, op: Op)
    ensures
        !makes(
            SettingsView { initialized_roots: rooted(s.initialized_roots, id), ..s },
            id,
            op,
        ),
{
    let roots = s.initialized_roots.push(id);
    assert(roots[roots.len() - 1] == id);
    assert(roots.contains(id));
}

/// Everything is alike only where every place was told to be so a moment ago.
pub proof fn alike_means_all(told: Map<Seq<char>, ToldView>, now: u64, id: Seq<char>)
    requires
        overall(told, now) == "synced"@,
        told.contains_key(id),
    ensures
        told[id].state == "synced"@,
        passed(now, told[id].at) <= 30,
{
    reveal_strlit("synced");
    reveal_strlit("offline");
    reveal_strlit("conflict");
    reveal_strlit("syncing");
    assert("synced"@.len() == 6 && "offline"@.len() == 7 && "conflict"@.len() == 8
        && "syncing"@.len() == 7);
}

} // verus!
