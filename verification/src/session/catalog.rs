//! Read-only views: the list of sessions, the dashboard, what the harnesses can do.
use super::accounts::verdict;
use super::local::{Local, LocalView};
use super::query::dashboard_word;
use super::teleport::{find_model, model_named};
use super::{workspace_json, Error, ErrorView, Session, SessionView, WorkspaceView};
use crate::json::{
    no_json, object, opt_text, opt_uint, push_json, uint, values, Data, Json,
};
use crate::runtime::codex::model_views;
use crate::runtime::files::{file_name, last_name};
use crate::runtime::{
    abilities, capabilities, is_pi_reasoning_level, kind_name, pi_reasoning_level, Kind, Model,
    ModelView,
};
use crate::table::{in_order, is_order};
use crate::text::{concat, includes, opt_slice, opt_str, owned, same, same_opt, split, views};
use vstd::prelude::*;

verus! {

// The newest sessions.

/// The place of a session among others, the newest first.
pub open spec fn spot(
    sessions: Map<Seq<char>, SessionView>,
    list: Seq<Seq<char>>,
    id: Seq<char>,
) -> int
    decreases list.len(),
{
    if list.len() == 0 {
        0
    } else if sessions[list[0]].last_sequence < sessions[id].last_sequence {
        0
    } else {
        1 + spot(sessions, list.skip(1), id)
    }
}

/// Sessions, the newest first.
pub open spec fn newest_first(sessions: Map<Seq<char>, SessionView>, keys: Seq<Seq<char>>) -> Seq<
    Seq<char>,
>
    decreases keys.len(),
{
    if keys.len() == 0 {
        Seq::empty()
    } else {
        let before = newest_first(sessions, keys.drop_last());
        before.insert(spot(sessions, before, keys.last()), keys.last())
    }
}

proof fn spot_is_right(
    sessions: Map<Seq<char>, SessionView>,
    list: Seq<Seq<char>>,
    id: Seq<char>,
)
    ensures
        0 <= spot(sessions, list, id) <= list.len(),
        forall|i: int|
            0 <= i < spot(sessions, list, id) ==> sessions[#[trigger] list[i]].last_sequence
                >= sessions[id].last_sequence,
        spot(sessions, list, id) < list.len() ==> sessions[list[spot(
            sessions,
            list,
            id,
        )]].last_sequence < sessions[id].last_sequence,
    decreases list.len(),
{
    if list.len() > 0 && sessions[list[0]].last_sequence >= sessions[id].last_sequence {
        let rest = list.skip(1);
        spot_is_right(sessions, rest, id);
        let k = spot(sessions, rest, id);
        assert forall|i: int| 0 <= i < 1 + k implies sessions[#[trigger] list[i]].last_sequence
            >= sessions[id].last_sequence by {
            if i > 0 {
                assert(rest[i - 1] == list[i]);
            }
        }
        if k < rest.len() {
            assert(rest[k] == list[k + 1]);
        }
    }
}

/// The newest sessions come first, and every session comes once for each time it is named.
pub proof fn newest_come_first(sessions: Map<Seq<char>, SessionView>, keys: Seq<Seq<char>>)
    ensures
        newest_first(sessions, keys).len() == keys.len(),
        forall|i: int, j: int|
            0 <= i < j < keys.len() ==> sessions[#[trigger] newest_first(
                sessions,
                keys,
            )[i]].last_sequence >= sessions[#[trigger] newest_first(
                sessions,
                keys,
            )[j]].last_sequence,
        newest_first(sessions, keys).to_multiset() == keys.to_multiset(),
    decreases keys.len(),
{
    broadcast use vstd::seq_lib::group_to_multiset_ensures;

    if keys.len() > 0 {
        let rest = keys.drop_last();
        let id = keys.last();
        let before = newest_first(sessions, rest);
        newest_come_first(sessions, rest);
        spot_is_right(sessions, before, id);
        let k = spot(sessions, before, id);
        let list = newest_first(sessions, keys);
        assert(list == before.insert(k, id));
        assert forall|i: int, j: int| 0 <= i < j < keys.len() implies sessions[#[trigger] list[i]].last_sequence
            >= sessions[#[trigger] list[j]].last_sequence by {
            let before_i = if i < k {
                i
            } else {
                i - 1
            };
            let before_j = if j < k {
                j
            } else {
                j - 1
            };
            if i < k {
                assert(list[i] == before[i]);
                if j > k {
                    assert(list[j] == before[j - 1]);
                } else if j < k {
                    assert(list[j] == before[j]);
                }
            } else if i == k {
                assert(list[j] == before[j - 1]);
                assert(k < before.len());
                if k < j - 1 {
                    assert(sessions[before[k]].last_sequence >= sessions[before[j
                        - 1]].last_sequence);
                }
            } else {
                assert(list[i] == before[i - 1]);
                assert(list[j] == before[j - 1]);
            }
        }
        assert(keys =~= rest.push(id));
        assert(before.insert(k, id).to_multiset() =~= before.to_multiset().insert(id)) by {
            vstd::seq_lib::to_multiset_insert(before, k, id);
        }
        assert(rest.push(id).to_multiset() =~= rest.to_multiset().insert(id));
    }
}

/// So many sessions are listed.
pub const LISTED: usize = 1000;

/// The sessions that are listed.
pub open spec fn listed(sessions: Map<Seq<char>, SessionView>) -> Seq<Seq<char>> {
    let all = newest_first(sessions, in_order(sessions));
    if all.len() > LISTED {
        all.take(LISTED as int)
    } else {
        all
    }
}

/// The names of sessions at positions of the table.
spec fn named(order: Seq<usize>, keys: Seq<Seq<char>>) -> Seq<Seq<char>> {
    Seq::new(order.len(), |i: int| keys[order[i] as int])
}

spec fn positions(order: Seq<usize>, count: int) -> bool {
    forall|i: int| 0 <= i < order.len() ==> (#[trigger] order[i]) < count
}

impl Session {
    fn sequence(&self) -> (r: u64)
        ensures
            r == self@.last_sequence,
    {
        proof {
            reveal(Session::snapshot);
        }
        self.last_sequence
    }
}

impl Local {
    fn newest(&self) -> (r: Vec<usize>)
        ensures
            positions(r@, in_order(self@.sessions).len() as int),
            named(r@, in_order(self@.sessions)) == newest_first(
                self@.sessions,
                in_order(self@.sessions),
            ),
            is_order(in_order(self@.sessions), self@.sessions),
    {
        let count = self.sessions.len();
        let ghost keys = in_order(self.sessions@);
        let ghost all = self.sessions@;
        let mut order: Vec<usize> = Vec::new();
        let mut i: usize = 0;
        assert(keys.take(0) =~= Seq::empty());
        assert(named(order@, keys) =~= Seq::<Seq<char>>::empty());
        while i < count
            invariant
                i <= count,
                all == self.sessions@,
                keys == in_order(all),
                is_order(keys, all),
                count == keys.len(),
                positions(order@, count as int),
                order@.len() == i,
                named(order@, keys) == newest_first(all, keys.take(i as int)),
            decreases count - i,
        {
            assert(keys.take(i + 1).drop_last() =~= keys.take(i as int));
            assert(keys.take(i + 1).last() == keys[i as int]);
            let sequence = self.sessions.value_at(i).sequence();
            let ghost list = named(order@, keys);
            let ghost id = keys[i as int];
            let mut k: usize = 0;
            assert(list.skip(0) =~= list);
            while k < order.len() && self.sessions.value_at(order[k]).sequence() >= sequence
                invariant
                    i < count,
                    all == self.sessions@,
                    keys == in_order(all),
                    is_order(keys, all),
                    count == keys.len(),
                    positions(order@, count as int),
                    order@.len() == i,
                    list == named(order@, keys),
                    id == keys[i as int],
                    sequence == all[id].last_sequence,
                    k <= order@.len(),
                    spot(all, list, id) == k + spot(all, list.skip(k as int), id),
                decreases order@.len() - k,
            {
                assert(list.skip(k as int)[0] == keys[order@[k as int] as int]);
                assert(list.skip(k as int).skip(1) =~= list.skip(k + 1));
                k += 1;
            }
            proof {
                if k < list.len() {
                    assert(list.skip(k as int)[0] == keys[order@[k as int] as int]);
                }
                assert(spot(all, list, id) == k);
            }
            let ghost was = order@;
            order.insert(k, i);
            assert(named(order@, keys) =~= list.insert(k as int, id));
            assert(positions(order@, count as int));
            i += 1;
        }
        assert(keys.take(i as int) =~= keys);
        order
    }
}

// The list.

/// An optional workspace as JSON.
pub open spec fn opt_workspace_json(w: Option<WorkspaceView>) -> Data {
    match w {
        Some(w) => workspace_json(w),
        None => Data::Null,
    }
}

/// What is listed of a session: neither prompts nor receipts.
pub open spec fn list_entry(s: SessionView) -> Data {
    Data::Object(
        map![
            "session_id"@ => Data::Text(s.session_id),
            "harness"@ => Data::Text(kind_name(s.harness, s.word)),
            "model"@ => opt_text(s.model),
            "provider"@ => opt_text(s.provider),
            "state"@ => Data::Text(s.state),
            "workspace"@ => opt_workspace_json(s.workspace),
            "parent_session"@ => opt_text(s.parent_session),
            "current_request"@ => opt_text(s.current_request),
            "queued"@ => uint(s.queue.len() as u64),
            "last_sequence"@ => uint(s.last_sequence),
            "last_activity_ms"@ => opt_uint(s.last_activity)
        ],
    )
}

/// The harness as a title has it.
pub open spec fn kind_title(kind: Kind, product: Seq<char>) -> Seq<char> {
    match kind {
        Kind::Codex => "Codex session"@,
        Kind::Pi => "Pi session"@,
        Kind::Claude => product + " session"@,
        Kind::Cursor => "Cursor session"@,
        Kind::Fx => "Fx session"@,
    }
}

/// What the dashboard shows of a session: a safe summary.
pub open spec fn dashboard_entry(
    s: SessionView,
    repository: Seq<char>,
    product: Seq<char>,
) -> Data {
    let state = dashboard_word(s);
    Data::Object(
        map![
            "id"@ => Data::Text(s.session_id),
            "title"@ => Data::Text(kind_title(s.harness, product)),
            "repository"@ => opt_text(
                last_name(
                    split(
                        match s.workspace {
                            Some(w) => w.path,
                            None => repository,
                        },
                        '/',
                    ),
                ),
            ),
            "harness"@ => Data::Text(kind_name(s.harness, s.word)),
            "model"@ => opt_text(s.model),
            "state"@ => Data::Text(state),
            "activity"@ => Data::Text(
                if state == "waiting"@ {
                    "waiting"@
                } else {
                    "unknown"@
                },
            ),
            "lastActivity"@ => opt_uint(s.last_activity)
        ],
    )
}

impl Session {
    fn list_entry(&self) -> (r: Json)
        ensures
            r@ == list_entry(self@),
    {
        proof {
            reveal(Session::snapshot);
        }
        assert(self@.queue.len() == self.queue@.len());
        let workspace = match &self.workspace {
            Some(w) => w.to_json(),
            None => Json::Null,
        };
        Json::Object(
            object().with_text("session_id", self.session_id.as_str()).with_text(
                "harness",
                self.harness.name(self.word.as_str()),
            ).with("model", Json::opt_text(opt_slice(&self.model))).with(
                "provider",
                Json::opt_text(opt_slice(&self.provider)),
            ).with_text("state", self.state.as_str()).with("workspace", workspace).with(
                "parent_session",
                Json::opt_text(opt_slice(&self.parent_session)),
            ).with("current_request", Json::opt_text(opt_slice(&self.current_request))).with(
                "queued",
                Json::uint(self.queue.len() as u64),
            ).with("last_sequence", Json::uint(self.last_sequence)).with(
                "last_activity_ms",
                Json::opt_uint(self.last_activity),
            ),
        )
    }

    fn dashboard_entry(&self, repository: &str, product: &str) -> (r: Json)
        ensures
            r@ == dashboard_entry(self@, repository@, product@),
    {
        let state = self.dashboard_state();
        proof {
            reveal(Session::snapshot);
        }
        let path = match &self.workspace {
            Some(w) => w.path.as_str(),
            None => repository,
        };
        let other = concat(product, " session");
        let title = match self.harness {
            Kind::Codex => "Codex session",
            Kind::Pi => "Pi session",
            Kind::Claude => other.as_str(),
            Kind::Cursor => "Cursor session",
            Kind::Fx => "Fx session",
        };
        let name = file_name(path);
        Json::Object(
            object().with_text("id", self.session_id.as_str()).with_text("title", title).with(
                "repository",
                Json::opt_text(opt_slice(&name)),
            ).with_text("harness", self.harness.name(self.word.as_str())).with(
                "model",
                Json::opt_text(opt_slice(&self.model)),
            ).with_text("state", state).with_text(
                "activity",
                if same(state, "waiting") {
                    "waiting"
                } else {
                    "unknown"
                },
            ).with("lastActivity", Json::opt_uint(self.last_activity)),
        )
    }
}

/// What is shown of each session that is listed.
pub open spec fn entries_shown(
    sessions: Map<Seq<char>, SessionView>,
    repository: Option<Seq<char>>,
    product: Seq<char>,
) -> Seq<Data> {
    Seq::new(
        listed(sessions).len(),
        |i: int|
            match repository {
                Some(r) => dashboard_entry(sessions[listed(sessions)[i]], r, product),
                None => list_entry(sessions[listed(sessions)[i]]),
            },
    )
}

impl Local {
    fn show_entries(&self, repository: Option<&str>, product: &str) -> (r: Vec<Json>)
        ensures
            values(r@) == entries_shown(self@.sessions, opt_str(repository), product@),
    {
        let order = self.newest();
        let ghost keys = in_order(self.sessions@);
        let ghost all = entries_shown(self@.sessions, opt_str(repository), product@);
        let ghost ids = listed(self@.sessions);
        let length = if order.len() > LISTED {
            LISTED
        } else {
            order.len()
        };
        assert(named(order@, keys).len() == order@.len());
        let mut out = no_json();
        let mut i: usize = 0;
        assert(values(out@) =~= all.take(0));
        while i < length
            invariant
                i <= length <= order@.len(),
                keys == in_order(self.sessions@),
                positions(order@, keys.len() as int),
                ids == listed(self@.sessions),
                length == ids.len(),
                named(order@, keys) == newest_first(self@.sessions, keys),
                all == entries_shown(self@.sessions, opt_str(repository), product@),
                values(out@) == all.take(i as int),
            decreases length - i,
        {
            let s = self.sessions.value_at(order[i]);
            assert(ids[i as int] == named(order@, keys)[i as int]);
            let entry = match repository {
                Some(r) => s.dashboard_entry(r, product),
                None => s.list_entry(),
            };
            assert(entry@ == all[i as int]);
            push_json(&mut out, entry);
            assert(all.take(i + 1) =~= all.take(i as int).push(all[i as int]));
            i += 1;
        }
        assert(all.take(i as int) =~= all);
        out
    }

    /// The latest sessions, the newest activity first.
    pub fn list_sessions(&self) -> (r: Json)
        ensures
            r@ == Data::Object(
                map![
                    "total"@ => uint(in_order(self@.sessions).len() as u64),
                    "sessions"@ => Data::Array(entries_shown(self@.sessions, None, ""@))
                ],
            ),
    {
        let total = self.sessions.len() as u64;
        Json::Object(
            object().with("total", Json::uint(total)).with(
                "sessions",
                Json::Array(self.show_entries(None, "")),
            ),
        )
    }
}

// The counts.

/// How many sessions look like this on the dashboard, among those of some names.
pub open spec fn looking(
    sessions: Map<Seq<char>, SessionView>,
    keys: Seq<Seq<char>>,
    word: Seq<char>,
) -> nat
    decreases keys.len(),
{
    if keys.len() == 0 {
        0
    } else {
        looking(sessions, keys.drop_last(), word) + if dashboard_word(sessions[keys.last()])
            == word {
            1nat
        } else {
            0nat
        }
    }
}

/// How many sessions are at what.
#[derive(Clone, Copy, PartialEq, Eq, Structural, Debug)]
pub struct AgentCounts {
    pub working: usize,
    pub queued: usize,
    pub waiting: usize,
    pub sleeping: usize,
    pub failed: usize,
}

/// How many sessions are at what, as it is shown.
pub open spec fn counts_data(sessions: Map<Seq<char>, SessionView>) -> Data {
    let keys = in_order(sessions);
    Data::Object(
        map![
            "working"@ => uint(looking(sessions, keys, "working"@) as u64),
            "queued"@ => uint(looking(sessions, keys, "queued"@) as u64),
            "waiting"@ => uint(looking(sessions, keys, "waiting"@) as u64),
            "sleeping"@ => uint(looking(sessions, keys, "sleeping"@) as u64),
            "failed"@ => uint(looking(sessions, keys, "failed"@) as u64)
        ],
    )
}

impl Local {
    fn count(&self, word: &str) -> (r: usize)
        ensures
            r == looking(self@.sessions, in_order(self@.sessions), word@),
    {
        let count = self.sessions.len();
        let ghost keys = in_order(self.sessions@);
        let mut found: usize = 0;
        let mut i: usize = 0;
        assert(keys.take(0) =~= Seq::empty());
        while i < count
            invariant
                i <= count,
                keys == in_order(self.sessions@),
                count == keys.len(),
                found <= i,
                found == looking(self.sessions@, keys.take(i as int), word@),
            decreases count - i,
        {
            assert(keys.take(i + 1).drop_last() =~= keys.take(i as int));
            assert(keys.take(i + 1).last() == keys[i as int]);
            if same(self.sessions.value_at(i).dashboard_state(), word) {
                found += 1;
            }
            i += 1;
        }
        assert(keys.take(i as int) =~= keys);
        found
    }

    /// How many sessions are at what.
    pub fn agent_counts(&self) -> (r: AgentCounts)
        ensures
            ({
                let all = self@.sessions;
                let keys = in_order(all);
                &&& r.working == looking(all, keys, "working"@)
                &&& r.queued == looking(all, keys, "queued"@)
                &&& r.waiting == looking(all, keys, "waiting"@)
                &&& r.sleeping == looking(all, keys, "sleeping"@)
                &&& r.failed == looking(all, keys, "failed"@)
            }),
    {
        AgentCounts {
            working: self.count("working"),
            queued: self.count("queued"),
            waiting: self.count("waiting"),
            sleeping: self.count("sleeping"),
            failed: self.count("failed"),
        }
    }
}

// The dashboard.

/// What the dashboard shows beside the sessions.
pub struct Overview {
    pub sampled_at: Option<u64>,
    pub resources: Json,
    pub storage: Json,
    pub stopping: bool,
    pub blocked: bool,
    pub configured: bool,
    pub commit: String,
    /// From which space on a warning is given, and from which on work is paused.
    pub thresholds: Option<(u64, u64)>,
    pub repository: String,
    /// The name of the product that has one.
    pub product: String,
}

/// The members of the dashboard that come from the resources of the machine.
pub open spec fn resource_data(resources: Data) -> Data {
    Data::Object(
        map![
            "cpu"@ => resources.field("cpu"@),
            "memory"@ => resources.field("memory"@),
            "disk"@ => resources.field("disk"@)
        ],
    )
}

/// The members of the dashboard that count bytes.
pub open spec fn byte_data(resources: Data) -> Data {
    Data::Object(
        map![
            "memoryUsedBytes"@ => resources.field("memoryUsedBytes"@),
            "memoryTotalBytes"@ => resources.field("memoryTotalBytes"@),
            "diskAvailableBytes"@ => resources.field("diskAvailableBytes"@),
            "diskTotalBytes"@ => resources.field("diskTotalBytes"@)
        ],
    )
}

/// The limits of the space.
pub open spec fn threshold_data(thresholds: Option<(u64, u64)>) -> Data {
    match thresholds {
        Some((warning, pause)) => Data::Object(
            map!["warningBytes"@ => uint(warning), "pauseBytes"@ => uint(pause)],
        ),
        None => Data::Null,
    }
}

/// The dashboard.
pub open spec fn dashboard_data(l: LocalView, o: Overview) -> Data {
    Data::Object(
        map![
            "version"@ => uint(1),
            "sampledAt"@ => opt_uint(o.sampled_at),
            "runtime"@ => Data::Object(map![
                "ready"@ => Data::Bool(!o.stopping && !o.blocked && l.journal.writable),
                "version"@ => Data::Text(crate::version_text()),
                "commit"@ => Data::Text(o.commit@),
                "configured"@ => Data::Bool(o.configured)
            ]),
            "appConnectivity"@ => Data::Text("unknown"@),
            "resources"@ => resource_data(o.resources@),
            "resourceBytes"@ => byte_data(o.resources@),
            "storage"@ => o.storage@,
            "diskThresholds"@ => threshold_data(o.thresholds),
            "onboarding"@ => Data::Object(map![
                "localConnected"@ => Data::Null,
                "offlineTaskVerified"@ => Data::Null
            ]),
            "capabilities"@ => Data::Object(map![
                "settings"@ => Data::Bool(true),
                "updates"@ => Data::Bool(false)
            ]),
            "sessionCount"@ => uint(in_order(l.sessions).len() as u64),
            "agents"@ => counts_data(l.sessions),
            "sessions"@ => Data::Array(entries_shown(l.sessions, Some(o.repository@), o.product@))
        ],
    )
}

impl Local {
    /// How many sessions are at what, as it is shown.
    pub fn counts_json(&self) -> (r: Json)
        ensures
            r@ == counts_data(self@.sessions),
    {
        let counts = self.agent_counts();
        Json::Object(
            object().with("working", Json::uint(counts.working as u64)).with(
                "queued",
                Json::uint(counts.queued as u64),
            ).with("waiting", Json::uint(counts.waiting as u64)).with(
                "sleeping",
                Json::uint(counts.sleeping as u64),
            ).with("failed", Json::uint(counts.failed as u64)),
        )
    }

    /// The dashboard.
    pub fn dashboard(&self, o: &Overview) -> (r: Json)
        ensures
            r@ == dashboard_data(self@, *o),
    {
        let ready = !o.stopping && !o.blocked && self.journal.writable();
        let runtime = Json::Object(
            object().with("ready", Json::Bool(ready)).with_text(
                "version",
                crate::version(),
            ).with_text("commit", o.commit.as_str()).with("configured", Json::Bool(o.configured)),
        );
        let from = &o.resources;
        let resources = Json::Object(
            object().with("cpu", from.field("cpu").duplicate()).with(
                "memory",
                from.field("memory").duplicate(),
            ).with("disk", from.field("disk").duplicate()),
        );
        let bytes = Json::Object(
            object().with("memoryUsedBytes", from.field("memoryUsedBytes").duplicate()).with(
                "memoryTotalBytes",
                from.field("memoryTotalBytes").duplicate(),
            ).with("diskAvailableBytes", from.field("diskAvailableBytes").duplicate()).with(
                "diskTotalBytes",
                from.field("diskTotalBytes").duplicate(),
            ),
        );
        let thresholds = match o.thresholds {
            Some((warning, pause)) => Json::Object(
                object().with("warningBytes", Json::uint(warning)).with(
                    "pauseBytes",
                    Json::uint(pause),
                ),
            ),
            None => Json::Null,
        };
        let onboarding = Json::Object(
            object().with("localConnected", Json::Null).with("offlineTaskVerified", Json::Null),
        );
        let abilities = Json::Object(
            object().with("settings", Json::Bool(true)).with("updates", Json::Bool(false)),
        );
        let total = self.sessions.len() as u64;
        Json::Object(
            object().with("version", Json::uint(1)).with(
                "sampledAt",
                Json::opt_uint(o.sampled_at),
            ).with("runtime", runtime).with_text("appConnectivity", "unknown").with(
                "resources",
                resources,
            ).with("resourceBytes", bytes).with("storage", o.storage.duplicate()).with(
                "diskThresholds",
                thresholds,
            ).with("onboarding", onboarding).with("capabilities", abilities).with(
                "sessionCount",
                Json::uint(total),
            ).with("agents", self.counts_json()).with(
                "sessions",
                Json::Array(self.show_entries(Some(o.repository.as_str()), o.product.as_str())),
            ),
        )
    }
}

// What a prompt may ask for.

/// Whether a level of reasoning is offered. `models` are those of the harness, where it has a
/// catalog.
pub open spec fn level_refused(
    kind: Kind,
    models: Seq<ModelView>,
    model: Option<Seq<char>>,
    level: Seq<char>,
) -> Option<Seq<char>> {
    if kind == Kind::Pi || kind == Kind::Fx {
        if pi_reasoning_level(level) {
            None
        } else {
            Some("invalid reasoning effort"@)
        }
    } else {
        match model {
            None => Some("invalid model"@),
            Some(name) => match model_named(models, name) {
                None => Some("invalid model"@),
                Some(m) => if m.reasoning_levels.contains(level) {
                    None
                } else {
                    Some("invalid reasoning effort"@)
                },
            },
        }
    }
}

/// A refusal as an error.
pub open spec fn conflict(message: Option<Seq<char>>) -> Option<ErrorView> {
    match message {
        Some(m) => Some(ErrorView::Conflict(m)),
        None => None,
    }
}

/// Whether a level of reasoning is offered.
pub fn execution_supported(kind: Kind, models: &Vec<Model>, model: Option<&str>, level: &str) -> (r:
    Result<(), Error>)
    ensures
        verdict(r) == conflict(
            level_refused(kind, model_views(models@), opt_str(model), level@),
        ),
{
    if kind == Kind::Pi || kind == Kind::Fx {
        return if is_pi_reasoning_level(level) {
            Ok(())
        } else {
            Err(Error::conflict("invalid reasoning effort"))
        };
    }
    match model {
        None => Err(Error::conflict("invalid model")),
        Some(name) => match find_model(models, name) {
            None => Err(Error::conflict("invalid model")),
            Some(m) => if includes(&m.reasoning_levels, level) {
                Ok(())
            } else {
                Err(Error::conflict("invalid reasoning effort"))
            },
        },
    }
}

/// Why a level of reasoning is refused for a prompt. One that is left out stays as it was.
pub open spec fn prompt_level_refused(
    l: LocalView,
    id: Seq<char>,
    level: Option<Seq<char>>,
    models: Seq<ModelView>,
    configured: Option<Seq<char>>,
) -> Option<ErrorView> {
    match level {
        None => None,
        Some(level) => if !l.sessions.contains_key(id) {
            Some(ErrorView::NotFound)
        } else {
            let s = l.sessions[id];
            let model = match s.model {
                Some(m) => Some(m),
                None => configured,
            };
            if (s.harness == Kind::Cursor || s.harness == Kind::Fx) && s.reasoning != Some(level) {
                Some(ErrorView::Conflict("invalid reasoning effort"@))
            } else {
                conflict(level_refused(s.harness, models, model, level))
            }
        },
    }
}

/// Why a tier of service is refused for a prompt.
pub open spec fn tier_refused(l: LocalView, id: Seq<char>, tier: Option<Seq<char>>) -> Option<
    ErrorView,
> {
    match tier {
        None => None,
        Some(tier) => if tier != "default"@ && tier != "fast"@ {
            Some(ErrorView::Conflict("invalid service tier"@))
        } else if !l.sessions.contains_key(id) {
            Some(ErrorView::NotFound)
        } else if l.sessions[id].harness != Kind::Codex && tier == "fast"@ {
            Some(ErrorView::Conflict("invalid service tier"@))
        } else {
            None
        },
    }
}

impl Local {
    /// Whether a level of reasoning may be asked for in a prompt. It is held against the model that
    /// the session was started with; `configured` is the model of the harness.
    pub fn check_prompt_reasoning(
        &self,
        id: &str,
        level: Option<&str>,
        models: &Vec<Model>,
        configured: Option<&str>,
    ) -> (r: Result<(), Error>)
        ensures
            verdict(r) == prompt_level_refused(
                self@,
                id@,
                opt_str(level),
                model_views(models@),
                opt_str(configured),
            ),
    {
        let level = match level {
            Some(level) => level,
            None => {
                return Ok(());
            },
        };
        let s = match self.sessions.get(id) {
            Some(s) => s,
            None => {
                return Err(Error::NotFound);
            },
        };
        proof {
            reveal(Session::snapshot);
        }
        if (s.harness == Kind::Cursor || s.harness == Kind::Fx) && !same_opt(
            opt_slice(&s.reasoning),
            Some(level),
        ) {
            return Err(Error::conflict("invalid reasoning effort"));
        }
        let model = match &s.model {
            Some(m) => Some(m.as_str()),
            None => configured,
        };
        execution_supported(s.harness, models, model, level)
    }

    /// Whether a tier of service may be asked for in a prompt.
    pub fn check_prompt_service_tier(&self, id: &str, tier: Option<&str>) -> (r: Result<(), Error>)
        ensures
            verdict(r) == tier_refused(self@, id@, opt_str(tier)),
    {
        let tier = match tier {
            Some(tier) => tier,
            None => {
                return Ok(());
            },
        };
        if !same(tier, "default") && !same(tier, "fast") {
            return Err(Error::conflict("invalid service tier"));
        }
        let s = match self.sessions.get(id) {
            Some(s) => s,
            None => {
                return Err(Error::NotFound);
            },
        };
        proof {
            reveal(Session::snapshot);
        }
        if s.harness != Kind::Codex && same(tier, "fast") {
            return Err(Error::conflict("invalid service tier"));
        }
        Ok(())
    }
}

// What the harnesses can do.

/// A model as JSON.
pub open spec fn model_data(m: ModelView) -> Data {
    Data::Object(
        map![
            "model"@ => Data::Text(m.model),
            "reasoning_levels"@ => Data::Array(
                m.reasoning_levels.map_values(|level: Seq<char>| Data::Text(level)),
            )
        ],
    )
}

/// A catalog as JSON, where there is one.
pub open spec fn models_data(models: Option<Seq<ModelView>>) -> Data {
    match models {
        Some(all) => Data::Array(all.map_values(|m: ModelView| model_data(m))),
        None => Data::Null,
    }
}

/// The levels of Pi as JSON.
pub open spec fn pi_levels() -> Data {
    Data::Array(
        seq![
            Data::Text("none"@),
            Data::Text("minimal"@),
            Data::Text("low"@),
            Data::Text("medium"@),
            Data::Text("high"@),
            Data::Text("xhigh"@),
        ],
    )
}

/// What can be attached.
pub open spec fn attachable(images: bool) -> Data {
    Data::Object(map!["images"@ => Data::Bool(images), "files"@ => Data::Bool(true)])
}

/// What a harness can do, as clients are told.
pub open spec fn harness_data(
    kind: Kind,
    model: Seq<char>,
    provider: Option<Seq<char>>,
    models: Option<Seq<ModelView>>,
    word: Seq<char>,
) -> Data {
    let base = map![
        "id"@ => Data::Text(kind_name(kind, word)),
        "model"@ => Data::Text(model),
        "provider"@ => opt_text(provider)
    ];
    match kind {
        Kind::Codex | Kind::Claude => Data::Object(
            base.insert("models"@, models_data(models)).insert(
                "steer"@,
                Data::Bool(kind == Kind::Codex),
            ).insert("compact"@, Data::Bool(true)).insert(
                "service_tier"@,
                Data::Bool(kind == Kind::Codex),
            ).insert("skill_mentions"@, Data::Bool(kind == Kind::Claude)).insert(
                "rewind"@,
                Data::Bool(true),
            ).insert("attachments"@, attachable(true)).insert(
                "subagents"@,
                Data::Bool(true),
            ).insert("usage"@, Data::Bool(true)),
        ),
        Kind::Cursor | Kind::Fx => {
            let able = base.union_prefer_right(abilities(kind)->Object_0).insert(
                "reasoning_levels"@,
                pi_levels(),
            ).insert("attachments"@, attachable(false)).insert(
                "provider_selection"@,
                Data::Bool(false),
            );
            Data::Object(
                if kind == Kind::Cursor {
                    able.insert("models"@, models_data(models))
                } else {
                    able
                },
            )
        },
        Kind::Pi => Data::Object(
            base.insert("reasoning_levels"@, pi_levels()).insert(
                "provider_selection"@,
                Data::Bool(true),
            ).insert("steer"@, Data::Bool(true)).insert("compact"@, Data::Bool(true)).insert(
                "service_tier"@,
                Data::Bool(false),
            ).insert("rewind"@, Data::Bool(true)).insert("attachments"@, attachable(true)).insert(
                "subagents"@,
                Data::Bool(true),
            ).insert("usage"@, Data::Bool(true)),
        ),
    }
}

fn write_texts(texts: &Vec<String>) -> (r: Json)
    ensures
        r@ == Data::Array(views(texts@).map_values(|t: Seq<char>| Data::Text(t))),
{
    let ghost all = views(texts@).map_values(|t: Seq<char>| Data::Text(t));
    let mut out = no_json();
    let mut i: usize = 0;
    assert(values(out@) =~= all.take(0));
    while i < texts.len()
        invariant
            i <= texts.len(),
            all == views(texts@).map_values(|t: Seq<char>| Data::Text(t)),
            values(out@) == all.take(i as int),
        decreases texts.len() - i,
    {
        assert(all[i as int] == Data::Text(texts@[i as int]@));
        push_json(&mut out, Json::text(texts[i].as_str()));
        assert(all.take(i + 1) =~= all.take(i as int).push(all[i as int]));
        i += 1;
    }
    assert(all.take(i as int) =~= all);
    Json::Array(out)
}

fn write_models(models: Option<&Vec<Model>>) -> (r: Json)
    ensures
        r@ == models_data(super::teleport::opt_models(models)),
{
    let models = match models {
        Some(models) => models,
        None => {
            return Json::Null;
        },
    };
    let ghost all = model_views(models@).map_values(|m: ModelView| model_data(m));
    let mut out = no_json();
    let mut i: usize = 0;
    assert(values(out@) =~= all.take(0));
    while i < models.len()
        invariant
            i <= models.len(),
            all == model_views(models@).map_values(|m: ModelView| model_data(m)),
            values(out@) == all.take(i as int),
        decreases models.len() - i,
    {
        assert(model_views(models@)[i as int] == models@[i as int]@);
        let model = Json::Object(
            object().with_text("model", models[i].model.as_str()).with(
                "reasoning_levels",
                write_texts(&models[i].reasoning_levels),
            ),
        );
        assert(model@ == all[i as int]);
        push_json(&mut out, model);
        assert(all.take(i + 1) =~= all.take(i as int).push(all[i as int]));
        i += 1;
    }
    assert(all.take(i as int) =~= all);
    Json::Array(out)
}

fn write_pi_levels() -> (r: Json)
    ensures
        r@ == pi_levels(),
{
    let names: [&str; 6] = ["none", "minimal", "low", "medium", "high", "xhigh"];
    let list = owned(&names);
    assert(views(list@) =~= seq!["none"@, "minimal"@, "low"@, "medium"@, "high"@, "xhigh"@]);
    let r = write_texts(&list);
    assert(views(list@).map_values(|t: Seq<char>| Data::Text(t)) =~= seq![
        Data::Text("none"@),
        Data::Text("minimal"@),
        Data::Text("low"@),
        Data::Text("medium"@),
        Data::Text("high"@),
        Data::Text("xhigh"@),
    ]);
    r
}

fn write_attachable(images: bool) -> (r: Json)
    ensures
        r@ == attachable(images),
{
    Json::Object(
        object().with("images", Json::Bool(images)).with("files", Json::Bool(true)),
    )
}

/// What a harness can do, as clients are told. `models` is its catalog, where it is known.
pub fn harness_entry(
    kind: Kind,
    model: &str,
    provider: Option<&str>,
    models: Option<&Vec<Model>>,
    word: &str,
) -> (r: Json)
    ensures
        r@ == harness_data(
            kind,
            model@,
            opt_str(provider),
            super::teleport::opt_models(models),
            word@,
        ),
{
    let mut base = object().with_text("id", kind.name(word)).with_text("model", model).with(
        "provider",
        Json::opt_text(provider),
    );
    match kind {
        Kind::Codex | Kind::Claude => Json::Object(
            base.with("models", write_models(models)).with(
                "steer",
                Json::Bool(kind == Kind::Codex),
            ).with("compact", Json::Bool(true)).with(
                "service_tier",
                Json::Bool(kind == Kind::Codex),
            ).with("skill_mentions", Json::Bool(kind == Kind::Claude)).with(
                "rewind",
                Json::Bool(true),
            ).with("attachments", write_attachable(true)).with(
                "subagents",
                Json::Bool(true),
            ).with("usage", Json::Bool(true)),
        ),
        Kind::Cursor | Kind::Fx => {
            let able = capabilities(kind);
            if let Json::Object(fields) = &able {
                base.merge(fields);
            }
            let fields = base.with("reasoning_levels", write_pi_levels()).with(
                "attachments",
                write_attachable(false),
            ).with("provider_selection", Json::Bool(false));
            Json::Object(
                if kind == Kind::Cursor {
                    fields.with("models", write_models(models))
                } else {
                    fields
                },
            )
        },
        Kind::Pi => Json::Object(
            base.with("reasoning_levels", write_pi_levels()).with(
                "provider_selection",
                Json::Bool(true),
            ).with("steer", Json::Bool(true)).with("compact", Json::Bool(true)).with(
                "service_tier",
                Json::Bool(false),
            ).with("rewind", Json::Bool(true)).with("attachments", write_attachable(true)).with(
                "subagents",
                Json::Bool(true),
            ).with("usage", Json::Bool(true)),
        ),
    }
}

/// The features that are always there.
pub open spec fn with_features(value: Data, features: Seq<Seq<char>>) -> Data
    decreases features.len(),
{
    if features.len() == 0 {
        value
    } else {
        with_features(value, features.drop_last()).with(features.last(), Data::Bool(true))
    }
}

/// What the service can do, as clients are told.
pub fn describe(repository: &str, harnesses: Vec<Json>, previews: bool) -> (r: Json)
    ensures
        r@ == with_features(
            Data::Object(
                map![
                    "version"@ => uint(1),
                    "repository"@ => Data::Text(repository@),
                    "harnesses"@ => Data::Array(values(harnesses@)),
                    "previews"@ => Data::Bool(previews),
                    "mac_access"@ => Data::Bool(previews)
                ],
            ),
            crate::feature_names(),
        ),
{
    let mut fields = object().with("version", Json::uint(1)).with_text(
        "repository",
        repository,
    ).with("harnesses", Json::Array(harnesses)).with("previews", Json::Bool(previews)).with(
        "mac_access",
        Json::Bool(previews),
    );
    let ghost base = Data::Object(fields@);
    let features = crate::features();
    let ghost all = views(features@);
    let mut i: usize = 0;
    assert(all.take(0) =~= Seq::empty());
    while i < features.len()
        invariant
            i <= features.len(),
            all == views(features@),
            Data::Object(fields@) == with_features(base, all.take(i as int)),
        decreases features.len() - i,
    {
        assert(all.take(i + 1).drop_last() =~= all.take(i as int));
        assert(all.take(i + 1).last() == features@[i as int]@);
        fields = fields.with(features[i].as_str(), Json::Bool(true));
        i += 1;
    }
    assert(all.take(i as int) =~= all);
    Json::Object(fields)
}

} // verus!
