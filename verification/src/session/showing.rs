//! What holds of what the dashboard shows, of what harnesses are said to be able to, and of what becomes of
//! children and of sessions that were moved.
use super::catalog::{
    attachable, dashboard_data, dashboard_entry, harness_data, model_data, pi_levels,
    threshold_data, Overview,
};
use super::children::{child_input, child_name, child_reply, ended_note, Ending, SaidView};
use super::local::{teleport_applied, LocalView};
use super::{RecordView, SessionView};
use crate::json::{Data, Number};
use crate::preview::account::{key_line, uid_in};
use crate::preview::listener::{line_priority, priority_of};
use crate::runtime::{ChildView, Kind, ModelView};
use crate::text::split;
use vstd::prelude::*;

verus! {

proof fn showing_words()
    ensures
        "id"@.len() == 2,
        "cpu"@.len() == 3 && "cpu"@[0] == 'c',
        "low"@.len() == 3 && "low"@[0] == 'l',
        "disk"@.len() == 4 && "disk"@[0] == 'd',
        "none"@.len() == 4 && "none"@[0] == 'n',
        "high"@.len() == 4 && "high"@[0] == 'h',
        "ready"@.len() == 5 && "ready"@[0] == 'r' && "ready"@[2] == 'a',
        "title"@.len() == 5 && "title"@[0] == 't' && "title"@[2] == 't',
        "model"@.len() == 5 && "model"@[0] == 'm' && "model"@[2] == 'd',
        "state"@.len() == 5 && "state"@[0] == 's' && "state"@[2] == 'a',
        "steer"@.len() == 5 && "steer"@[0] == 's' && "steer"@[2] == 'e',
        "usage"@.len() == 5 && "usage"@[0] == 'u' && "usage"@[2] == 'a',
        "files"@.len() == 5 && "files"@[0] == 'f' && "files"@[2] == 'l',
        "error"@.len() == 5 && "error"@[0] == 'e' && "error"@[2] == 'r',
        "child"@.len() == 5 && "child"@[0] == 'c' && "child"@[2] == 'i',
        "xhigh"@.len() == 5 && "xhigh"@[0] == 'x' && "xhigh"@[2] == 'i',
        "commit"@.len() == 6 && "commit"@[2] == 'm' && "commit"@[1] == 'o',
        "agents"@.len() == 6 && "agents"@[2] == 'e' && "agents"@[1] == 'g',
        "models"@.len() == 6 && "models"@[2] == 'd' && "models"@[1] == 'o',
        "rewind"@.len() == 6 && "rewind"@[2] == 'w' && "rewind"@[1] == 'e',
        "memory"@.len() == 6 && "memory"@[2] == 'm' && "memory"@[1] == 'e',
        "images"@.len() == 6 && "images"@[2] == 'a' && "images"@[1] == 'm',
        "prompt"@.len() == 6 && "prompt"@[2] == 'o' && "prompt"@[1] == 'r',
        "result"@.len() == 6 && "result"@[2] == 's' && "result"@[1] == 'e',
        "failed"@.len() == 6 && "failed"@[2] == 'i' && "failed"@[1] == 'a',
        "medium"@.len() == 6 && "medium"@[2] == 'd' && "medium"@[1] == 'e',
        "version"@.len() == 7 && "version"@[5] == 'o',
        "runtime"@.len() == 7 && "runtime"@[5] == 'm',
        "unknown"@.len() == 7 && "unknown"@[5] == 'w',
        "storage"@.len() == 7 && "storage"@[5] == 'g',
        "updates"@.len() == 7 && "updates"@[5] == 'e',
        "harness"@.len() == 7 && "harness"@[5] == 's',
        "waiting"@.len() == 7 && "waiting"@[5] == 'n',
        "compact"@.len() == 7 && "compact"@[5] == 'c',
        "minimal"@.len() == 7 && "minimal"@[5] == 'a',
        "settings"@.len() == 8 && "settings"@[3] == 't',
        "sessions"@.len() == 8 && "sessions"@[3] == 's',
        "activity"@.len() == 8 && "activity"@[3] == 'i',
        "provider"@.len() == 8 && "provider"@[3] == 'v',
        "sampledAt"@.len() == 9 && "sampledAt"@[6] == 'd',
        "resources"@.len() == 9 && "resources"@[6] == 'c',
        "subagents"@.len() == 9 && "subagents"@[6] == 'n',
        "reasoning"@.len() == 9 && "reasoning"@[6] == 'i',
        "completed"@.len() == 9 && "completed"@[6] == 't',
        "configured"@.len() == 10 && "configured"@[2] == 'n',
        "onboarding"@.len() == 10 && "onboarding"@[2] == 'b',
        "repository"@.len() == 10 && "repository"@[2] == 'p',
        "pauseBytes"@.len() == 10 && "pauseBytes"@[2] == 'u',
        "session_id"@.len() == 10 && "session_id"@[2] == 's',
        "request_id"@.len() == 10 && "request_id"@[2] == 'q',
        "attachments"@.len() == 11,
        "capabilities"@.len() == 12 && "capabilities"@[3] == 'a',
        "sessionCount"@.len() == 12 && "sessionCount"@[3] == 's',
        "lastActivity"@.len() == 12 && "lastActivity"@[3] == 't',
        "service_tier"@.len() == 12 && "service_tier"@[3] == 'v',
        "warningBytes"@.len() == 12 && "warningBytes"@[3] == 'n',
        "tool_call_id"@.len() == 12 && "tool_call_id"@[3] == 'l',
        "resourceBytes"@.len() == 13,
        "diskThresholds"@.len() == 14 && "diskThresholds"@[9] == 'h',
        "localConnected"@.len() == 14 && "localConnected"@[9] == 'e',
        "skill_mentions"@.len() == 14 && "skill_mentions"@[9] == 't',
        "diskTotalBytes"@.len() == 14 && "diskTotalBytes"@[9] == 'B',
        "parent_session"@.len() == 14 && "parent_session"@[9] == 's',
        "parent_request"@.len() == 14 && "parent_request"@[9] == 'q',
        "appConnectivity"@.len() == 15 && "appConnectivity"@[0] == 'a',
        "memoryUsedBytes"@.len() == 15 && "memoryUsedBytes"@[0] == 'm',
        "reasoning_levels"@.len() == 16 && "reasoning_levels"@[0] == 'r',
        "memoryTotalBytes"@.len() == 16 && "memoryTotalBytes"@[0] == 'm',
        "provider_selection"@.len() == 18 && "provider_selection"@[0] == 'p',
        "diskAvailableBytes"@.len() == 18 && "diskAvailableBytes"@[0] == 'd',
        "offlineTaskVerified"@.len() == 19,
        "command_guard_enabled"@.len() == 21,
{
    reveal_strlit("id");
    reveal_strlit("cpu");
    reveal_strlit("low");
    reveal_strlit("disk");
    reveal_strlit("none");
    reveal_strlit("high");
    reveal_strlit("ready");
    reveal_strlit("title");
    reveal_strlit("model");
    reveal_strlit("state");
    reveal_strlit("steer");
    reveal_strlit("usage");
    reveal_strlit("files");
    reveal_strlit("error");
    reveal_strlit("child");
    reveal_strlit("xhigh");
    reveal_strlit("commit");
    reveal_strlit("agents");
    reveal_strlit("models");
    reveal_strlit("rewind");
    reveal_strlit("memory");
    reveal_strlit("images");
    reveal_strlit("prompt");
    reveal_strlit("result");
    reveal_strlit("failed");
    reveal_strlit("medium");
    reveal_strlit("version");
    reveal_strlit("runtime");
    reveal_strlit("unknown");
    reveal_strlit("storage");
    reveal_strlit("updates");
    reveal_strlit("harness");
    reveal_strlit("waiting");
    reveal_strlit("compact");
    reveal_strlit("minimal");
    reveal_strlit("settings");
    reveal_strlit("sessions");
    reveal_strlit("activity");
    reveal_strlit("provider");
    reveal_strlit("sampledAt");
    reveal_strlit("resources");
    reveal_strlit("subagents");
    reveal_strlit("reasoning");
    reveal_strlit("completed");
    reveal_strlit("configured");
    reveal_strlit("onboarding");
    reveal_strlit("repository");
    reveal_strlit("pauseBytes");
    reveal_strlit("session_id");
    reveal_strlit("request_id");
    reveal_strlit("attachments");
    reveal_strlit("capabilities");
    reveal_strlit("sessionCount");
    reveal_strlit("lastActivity");
    reveal_strlit("service_tier");
    reveal_strlit("warningBytes");
    reveal_strlit("tool_call_id");
    reveal_strlit("resourceBytes");
    reveal_strlit("diskThresholds");
    reveal_strlit("localConnected");
    reveal_strlit("skill_mentions");
    reveal_strlit("diskTotalBytes");
    reveal_strlit("parent_session");
    reveal_strlit("parent_request");
    reveal_strlit("appConnectivity");
    reveal_strlit("memoryUsedBytes");
    reveal_strlit("reasoning_levels");
    reveal_strlit("memoryTotalBytes");
    reveal_strlit("provider_selection");
    reveal_strlit("diskAvailableBytes");
    reveal_strlit("offlineTaskVerified");
    reveal_strlit("command_guard_enabled");
    assert("id"@.len() == 2);
    assert("cpu"@.len() == 3 && "cpu"@[0] == 'c');
    assert("low"@.len() == 3 && "low"@[0] == 'l');
    assert("disk"@.len() == 4 && "disk"@[0] == 'd');
    assert("none"@.len() == 4 && "none"@[0] == 'n');
    assert("high"@.len() == 4 && "high"@[0] == 'h');
    assert("ready"@.len() == 5 && "ready"@[0] == 'r' && "ready"@[2] == 'a');
    assert("title"@.len() == 5 && "title"@[0] == 't' && "title"@[2] == 't');
    assert("model"@.len() == 5 && "model"@[0] == 'm' && "model"@[2] == 'd');
    assert("state"@.len() == 5 && "state"@[0] == 's' && "state"@[2] == 'a');
    assert("steer"@.len() == 5 && "steer"@[0] == 's' && "steer"@[2] == 'e');
    assert("usage"@.len() == 5 && "usage"@[0] == 'u' && "usage"@[2] == 'a');
    assert("files"@.len() == 5 && "files"@[0] == 'f' && "files"@[2] == 'l');
    assert("error"@.len() == 5 && "error"@[0] == 'e' && "error"@[2] == 'r');
    assert("child"@.len() == 5 && "child"@[0] == 'c' && "child"@[2] == 'i');
    assert("xhigh"@.len() == 5 && "xhigh"@[0] == 'x' && "xhigh"@[2] == 'i');
    assert("commit"@.len() == 6 && "commit"@[2] == 'm' && "commit"@[1] == 'o');
    assert("agents"@.len() == 6 && "agents"@[2] == 'e' && "agents"@[1] == 'g');
    assert("models"@.len() == 6 && "models"@[2] == 'd' && "models"@[1] == 'o');
    assert("rewind"@.len() == 6 && "rewind"@[2] == 'w' && "rewind"@[1] == 'e');
    assert("memory"@.len() == 6 && "memory"@[2] == 'm' && "memory"@[1] == 'e');
    assert("images"@.len() == 6 && "images"@[2] == 'a' && "images"@[1] == 'm');
    assert("prompt"@.len() == 6 && "prompt"@[2] == 'o' && "prompt"@[1] == 'r');
    assert("result"@.len() == 6 && "result"@[2] == 's' && "result"@[1] == 'e');
    assert("failed"@.len() == 6 && "failed"@[2] == 'i' && "failed"@[1] == 'a');
    assert("medium"@.len() == 6 && "medium"@[2] == 'd' && "medium"@[1] == 'e');
    assert("version"@.len() == 7 && "version"@[5] == 'o');
    assert("runtime"@.len() == 7 && "runtime"@[5] == 'm');
    assert("unknown"@.len() == 7 && "unknown"@[5] == 'w');
    assert("storage"@.len() == 7 && "storage"@[5] == 'g');
    assert("updates"@.len() == 7 && "updates"@[5] == 'e');
    assert("harness"@.len() == 7 && "harness"@[5] == 's');
    assert("waiting"@.len() == 7 && "waiting"@[5] == 'n');
    assert("compact"@.len() == 7 && "compact"@[5] == 'c');
    assert("minimal"@.len() == 7 && "minimal"@[5] == 'a');
    assert("settings"@.len() == 8 && "settings"@[3] == 't');
    assert("sessions"@.len() == 8 && "sessions"@[3] == 's');
    assert("activity"@.len() == 8 && "activity"@[3] == 'i');
    assert("provider"@.len() == 8 && "provider"@[3] == 'v');
    assert("sampledAt"@.len() == 9 && "sampledAt"@[6] == 'd');
    assert("resources"@.len() == 9 && "resources"@[6] == 'c');
    assert("subagents"@.len() == 9 && "subagents"@[6] == 'n');
    assert("reasoning"@.len() == 9 && "reasoning"@[6] == 'i');
    assert("completed"@.len() == 9 && "completed"@[6] == 't');
    assert("configured"@.len() == 10 && "configured"@[2] == 'n');
    assert("onboarding"@.len() == 10 && "onboarding"@[2] == 'b');
    assert("repository"@.len() == 10 && "repository"@[2] == 'p');
    assert("pauseBytes"@.len() == 10 && "pauseBytes"@[2] == 'u');
    assert("session_id"@.len() == 10 && "session_id"@[2] == 's');
    assert("request_id"@.len() == 10 && "request_id"@[2] == 'q');
    assert("attachments"@.len() == 11);
    assert("capabilities"@.len() == 12 && "capabilities"@[3] == 'a');
    assert("sessionCount"@.len() == 12 && "sessionCount"@[3] == 's');
    assert("lastActivity"@.len() == 12 && "lastActivity"@[3] == 't');
    assert("service_tier"@.len() == 12 && "service_tier"@[3] == 'v');
    assert("warningBytes"@.len() == 12 && "warningBytes"@[3] == 'n');
    assert("tool_call_id"@.len() == 12 && "tool_call_id"@[3] == 'l');
    assert("resourceBytes"@.len() == 13);
    assert("diskThresholds"@.len() == 14 && "diskThresholds"@[9] == 'h');
    assert("localConnected"@.len() == 14 && "localConnected"@[9] == 'e');
    assert("skill_mentions"@.len() == 14 && "skill_mentions"@[9] == 't');
    assert("diskTotalBytes"@.len() == 14 && "diskTotalBytes"@[9] == 'B');
    assert("parent_session"@.len() == 14 && "parent_session"@[9] == 's');
    assert("parent_request"@.len() == 14 && "parent_request"@[9] == 'q');
    assert("appConnectivity"@.len() == 15 && "appConnectivity"@[0] == 'a');
    assert("memoryUsedBytes"@.len() == 15 && "memoryUsedBytes"@[0] == 'm');
    assert("reasoning_levels"@.len() == 16 && "reasoning_levels"@[0] == 'r');
    assert("memoryTotalBytes"@.len() == 16 && "memoryTotalBytes"@[0] == 'm');
    assert("provider_selection"@.len() == 18 && "provider_selection"@[0] == 'p');
    assert("diskAvailableBytes"@.len() == 18 && "diskAvailableBytes"@[0] == 'd');
    assert("offlineTaskVerified"@.len() == 19);
    assert("command_guard_enabled"@.len() == 21);
}
// The dashboard.

/// The dashboard shows whether new work can run, of which version, what the machine has, and each session.
pub proof fn dashboards_show_the_service(l: LocalView, o: Overview)
    ensures
        ({
            let d = dashboard_data(l, o);
            &&& d.field("version"@) == Data::Number(Number::Unsigned(1))
            &&& d.field("runtime"@).field("ready"@) == Data::Bool(
                !o.stopping && !o.blocked && l.journal.writable,
            )
            &&& d.field("runtime"@).field("version"@) == Data::Text("0.1.0"@)
            &&& d.field("runtime"@).field("commit"@) == Data::Text(o.commit@)
            &&& d.field("runtime"@).field("configured"@) == Data::Bool(o.configured)
            &&& d.field("appConnectivity"@) == Data::Text("unknown"@)
            &&& d.field("storage"@) == o.storage@
            &&& d.field("capabilities"@).field("settings"@) == Data::Bool(true)
            &&& d.field("capabilities"@).field("updates"@) == Data::Bool(false)
            &&& d.field("resources"@).field("cpu"@) == o.resources@.field("cpu"@)
            &&& d.field("resources"@).field("memory"@) == o.resources@.field("memory"@)
            &&& d.field("resources"@).field("disk"@) == o.resources@.field("disk"@)
            &&& d.field("resourceBytes"@).field("memoryUsedBytes"@) == o.resources@.field(
                "memoryUsedBytes"@,
            )
            &&& d.field("resourceBytes"@).field("memoryTotalBytes"@) == o.resources@.field(
                "memoryTotalBytes"@,
            )
            &&& d.field("resourceBytes"@).field("diskAvailableBytes"@) == o.resources@.field(
                "diskAvailableBytes"@,
            )
            &&& d.field("resourceBytes"@).field("diskTotalBytes"@) == o.resources@.field(
                "diskTotalBytes"@,
            )
        }),
{
    showing_words();
}

/// The limits of the disk are shown as they are set.
pub proof fn limits_are_shown(warning: u64, pause: u64)
    ensures
        threshold_data(Some((warning, pause))).field("warningBytes"@) == Data::Number(
            Number::Unsigned(warning),
        ),
        threshold_data(Some((warning, pause))).field("pauseBytes"@) == Data::Number(
            Number::Unsigned(pause),
        ),
        threshold_data(None) is Null,
{
    showing_words();
}

/// A session is shown by its name, its model and its state, and as waiting where it waits.
pub proof fn sessions_are_shown_with_their_state(s: SessionView, repository: Seq<char>, product: Seq<char>)
    ensures
        ({
            let d = dashboard_entry(s, repository, product);
            &&& d.field("id"@) == Data::Text(s.session_id)
            &&& s.model is Some ==> d.field("model"@) == Data::Text(s.model->0)
            &&& s.model is None ==> d.field("model"@) is Null
            &&& s.last_activity is Some ==> d.field("lastActivity"@) == Data::Number(
                Number::Unsigned(s.last_activity->0),
            )
            &&& d.field("state"@) == Data::Text("waiting"@) ==> d.field("activity"@) == Data::Text(
                "waiting"@,
            )
            &&& d.field("state"@) != Data::Text("waiting"@) ==> d.field("activity"@) == Data::Text(
                "unknown"@,
            )
            &&& s.harness == Kind::Codex ==> d.field("harness"@) == Data::Text("codex"@)
            &&& s.harness == Kind::Pi ==> d.field("harness"@) == Data::Text("pi"@)
        }),
{
    showing_words();
}

// What harnesses are said to be able to.

/// Codex and Pi can be steered while they work, and only Codex has a fast tier; a provider is chosen for Pi
/// alone; both can compact, rewind and have children.
pub proof fn harnesses_say_what_they_can(
    model: Seq<char>,
    provider: Option<Seq<char>>,
    models: Option<Seq<ModelView>>,
    word: Seq<char>,
)
    ensures
        ({
            let d = harness_data(Kind::Codex, model, provider, models, word);
            &&& d.field("id"@) == Data::Text("codex"@)
            &&& d.field("model"@) == Data::Text(model)
            &&& d.field("steer"@) == Data::Bool(true)
            &&& d.field("service_tier"@) == Data::Bool(true)
            &&& d.field("skill_mentions"@) == Data::Bool(false)
            &&& d.field("compact"@) == Data::Bool(true)
            &&& d.field("rewind"@) == Data::Bool(true)
            &&& d.field("subagents"@) == Data::Bool(true)
            &&& d.field("usage"@) == Data::Bool(true)
            &&& d.field("attachments"@) == attachable(true)
        }),
        ({
            let d = harness_data(Kind::Pi, model, provider, models, word);
            &&& d.field("id"@) == Data::Text("pi"@)
            &&& d.field("model"@) == Data::Text(model)
            &&& d.field("steer"@) == Data::Bool(true)
            &&& d.field("service_tier"@) == Data::Bool(false)
            &&& d.field("provider_selection"@) == Data::Bool(true)
            &&& d.field("compact"@) == Data::Bool(true)
            &&& d.field("rewind"@) == Data::Bool(true)
            &&& d.field("subagents"@) == Data::Bool(true)
            &&& d.field("usage"@) == Data::Bool(true)
            &&& provider is Some ==> d.field("provider"@) == Data::Text(provider->0)
        }),
        ({
            let d = harness_data(Kind::Claude, model, provider, models, word);
            &&& d.field("steer"@) == Data::Bool(false)
            &&& d.field("service_tier"@) == Data::Bool(false)
            &&& d.field("skill_mentions"@) == Data::Bool(true)
            &&& d.field("rewind"@) == Data::Bool(true)
        }),
{
    showing_words();
}

/// The levels of Pi are told from the lowest to the highest.
pub proof fn levels_are_told_in_order()
    ensures
        pi_levels() matches Data::Array(levels) && levels.len() == 6 && levels[0] == Data::Text("none"@)
            && levels[1] == Data::Text("minimal"@) && levels[2] == Data::Text("low"@) && levels[3]
            == Data::Text("medium"@) && levels[4] == Data::Text("high"@) && levels[5] == Data::Text(
            "xhigh"@,
        ),
{
}

/// A model is told with its levels, in order.
pub proof fn models_are_told(m: ModelView, i: int)
    requires
        0 <= i < m.reasoning_levels.len(),
    ensures
        model_data(m).field("model"@) == Data::Text(m.model),
        model_data(m).field("reasoning_levels"@) matches Data::Array(levels) && levels.len()
            == m.reasoning_levels.len() && levels[i] == Data::Text(m.reasoning_levels[i]),
{
    showing_words();
}

// Children.

/// A child is started with what its parent gave it, and knows who asked.
pub proof fn children_know_who_asked(parent: Seq<char>, s: SessionView, child: ChildView)
    ensures
        ({
            let d = child_input(parent, s, child);
            &&& d.field("parent_session"@) == Data::Text(parent)
            &&& d.field("parent_request"@) == Data::Text(child.request)
            &&& d.field("tool_call_id"@) == Data::Text(child.tool_call_id)
            &&& d.field("prompt"@) == Data::Text(child.prompt)
            &&& s.harness == Kind::Codex ==> d.field("harness"@) == Data::Text("codex"@)
            &&& s.harness == Kind::Pi ==> d.field("harness"@) == Data::Text("pi"@)
        }),
{
    showing_words();
}

/// A child that completed gives its words; every other end is an error. The parent's record says which.
pub proof fn children_give_their_words_or_an_error(key: Seq<char>, text: Seq<char>, child: ChildView, said: SaidView)
    requires
        text.len() <= 32768,
    ensures
        ({
            let done = child_reply(key, Ending::Completed, SaidView::Text(text));
            &&& done.field("id"@) == Data::Text(key)
            &&& done.field("session_id"@) == Data::Text(child_name(key))
            &&& done.field("result"@) == Data::Text(text)
            &&& done.get("error"@) is None
            &&& ended_note(child, done).data.field("state"@) == Data::Text("completed"@)
            &&& ended_note(child, done).data.field("result"@) == done
        }),
        ({
            let lost = child_reply(key, Ending::Unavailable, said);
            &&& lost.field("error"@) == Data::Text("Child runtime is unavailable"@)
            &&& lost.get("result"@) is None
            &&& ended_note(child, lost).kind == "child"@
            &&& ended_note(child, lost).data.field("state"@) == Data::Text("failed"@)
            &&& ended_note(child, lost).data.field("id"@) == Data::Text(child_name(child.id))
            &&& ended_note(child, lost).data.field("request_id"@) == Data::Text(child.request)
            &&& ended_note(child, lost).data.field("tool_call_id"@) == Data::Text(child.tool_call_id)
        }),
        child_reply(key, Ending::Completed, SaidView::Silent).field("error"@) == Data::Text(
            "Child completed; result is available in its saved history"@,
        ),
        child_reply(key, Ending::Completed, SaidView::Gone).field("error"@) == Data::Text(
            "Child completed; runtime is no longer attached"@,
        ),
{
    showing_words();
}

// Sessions that were moved.

/// A session that was moved here has the conversation that was brought, and needs all that belongs to it.
pub proof fn moved_sessions_have_their_conversation(l: LocalView, r: RecordView, id: Seq<char>, path: Seq<char>)
    ensures
        !(r.data.field("prompts"@) is Array) ==> teleport_applied(l, r).1 is Some && teleport_applied(
            l,
            r,
        ).0 == l,
        r.data.field("native_id"@) is Null ==> teleport_applied(l, r).1 is Some,
        r.data.field("native_path"@) is Null ==> teleport_applied(l, r).1 is Some,
        teleport_applied(l, r).1 is None && r.data.field("native_id"@) == Data::Text(id) && r.data.field(
            "native_path"@,
        ) == Data::Text(path) ==> teleport_applied(l, r).0.sessions.contains_key(r.session_id)
            && teleport_applied(l, r).0.sessions[r.session_id].native_id == Some(id)
            && teleport_applied(l, r).0.sessions[r.session_id].native_path == Some(path),
{
}

// The tables of the machine.

/// An address counts where it is the machine's own, in either form, or any.
pub proof fn addresses_have_their_place(address: Seq<char>)
    ensures
        priority_of("0100007F"@) == Some(0int),
        priority_of("0000000000000000FFFF00000100007F"@) == Some(0int),
        priority_of("00000000"@) == Some(1int),
        priority_of("00000000000000000000000000000000"@) == Some(2int),
        address != "0100007F"@ && address != "0000000000000000FFFF00000100007F"@ && address
            != "00000000"@ && address != "00000000000000000000000000000000"@ ==> priority_of(address)
            is None,
{
    reveal_strlit("0100007F");
    reveal_strlit("00000000");
    reveal_strlit("0000000000000000FFFF00000100007F");
    reveal_strlit("00000000000000000000000000000000");
    assert("0100007F"@[1] == '1' && "00000000"@[1] == '0');
    assert("0000000000000000FFFF00000100007F"@[16] == 'F');
    assert("00000000000000000000000000000000"@[16] == '0');
    assert("0100007F"@.len() == 8 && "00000000"@.len() == 8);
    assert("0000000000000000FFFF00000100007F"@.len() == 32 && "00000000000000000000000000000000"@.len()
        == 32);
}

/// Only a line of a listener counts.
pub proof fn only_listeners_count(fields: Seq<Seq<char>>, port: u16)
    ensures
        fields.len() <= 7 ==> line_priority(fields, port) is None,
        fields.len() > 7 && fields[3] != "0A"@ ==> line_priority(fields, port) is None,
{
}

/// A key that is let in can run nothing and reach only what it is given.
pub proof fn keys_are_let_in_for_ports_alone(options: Seq<Seq<char>>, key: Seq<char>)
    ensures
        key_line(options, key).len() >= key.len(),
        key_line(options, key).skip(key_line(options, key).len() - key.len()) == key,
{
    let whole = key_line(options, key);
    assert(whole.skip(whole.len() - key.len()) =~= key);
}

/// The account of previews is the one of that name, with the number that stands third.
pub proof fn accounts_are_found_by_name(line: Seq<char>)
    ensures
        uid_in(line) is Some ==> split(line, ':')[0] == "cloudroom-preview"@ && crate::text::number(
            split(line, ':')[2],
            u32::MAX as nat,
        ) == uid_in(line),
{
}

} // verus!
