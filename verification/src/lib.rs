//! The rules of a cloud room: sessions in which coding agents work, the records that sessions are
//! made of, and what is said to the agents and understood of them.
//!
//! The crate decides; it does no input or output. Programs around it append the records it asks
//! for, run the agents, and hand back what happened.
use text::{owned, strs, views};
use vstd::prelude::*;

pub mod api;
pub mod config;
pub mod failure;
pub mod fault;
pub mod hex;
pub mod json;
pub mod mac;
pub mod observability;
pub mod preview;
pub mod runtime;
pub mod secrets;
pub mod service_laws;
pub mod session;
pub mod sync;
pub mod table;
pub mod text;
pub mod upkeep_laws;
pub mod wire;

verus! {

/// The version, as agents and clients are told it.
pub open spec fn version_text() -> Seq<char> {
    "0.1.0"@
}

/// The version, as agents and clients are told it.
pub fn version() -> (r: &'static str)
    ensures
        r@ == version_text(),
{
    "0.1.0"
}

/// The features that are always reported.
pub open spec fn feature_names() -> Seq<Seq<char>> {
    seq![
        "stop"@,
        "resume"@,
        "launch_settings"@,
        "prompt_reasoning"@,
        "workspaces"@,
        "sync"@,
        "mcp_sync"@,
        "direct_workspaces"@,
        "root_workspace"@,
        "teleport"@,
        "command_guard"@,
        "codex_auth"@,
        "codex_auth_import"@,
        "cursor_auth"@,
        "claude_auth"@,
        "pi_auth_import"@,
        "structured_prompt"@,
        "queue_edit"@,
        "queue_cancel"@,
        "steer"@,
        "rewind"@,
        "attachments"@,
        "compact"@,
        "usage"@,
        "subagents"@,
        "session_list"@,
    ]
}

/// The features that are always reported.
pub fn features() -> (r: Vec<String>)
    ensures
        views(r@) == feature_names(),
{
    let names: [&str; 26] = [
        "stop",
        "resume",
        "launch_settings",
        "prompt_reasoning",
        "workspaces",
        "sync",
        "mcp_sync",
        "direct_workspaces",
        "root_workspace",
        "teleport",
        "command_guard",
        "codex_auth",
        "codex_auth_import",
        "cursor_auth",
        "claude_auth",
        "pi_auth_import",
        "structured_prompt",
        "queue_edit",
        "queue_cancel",
        "steer",
        "rewind",
        "attachments",
        "compact",
        "usage",
        "subagents",
        "session_list",
    ];
    let list = owned(&names);
    assert(strs(names@) =~= feature_names());
    list
}

} // verus!
