//! Child sessions: work that a turn hands to a session of its own.
use super::command::retried;
use super::local::{Local, LocalView};
use super::pick::{entries, Entry, EntryView};
use super::prompt::{latest, latest_input, reasoning, some_text};
use super::query::{guarded, note, receipt_note, Note, NoteView};
use super::{copy_workspace, Error, ErrorView, Receipt, ReceiptView, Session, SessionView};
use crate::json::{object, opt_text, Data, Json};
use crate::runtime::{kind_name, ChildRequest, ChildView, Kind};
use crate::text::{
    chars_of, concat, first_text, opt, opt_copy, opt_slice, same, same_opt, string_of,
};
use vstd::prelude::*;
use vstd::slice::slice_subrange;

verus! {

/// The name of the session of a child.
pub open spec fn child_name(key: Seq<char>) -> Seq<char> {
    "cr_child_"@ + key
}

/// The name of the session of a child.
pub fn child_session(key: &str) -> (r: String)
    ensures
        r@ == child_name(key@),
{
    concat("cr_child_", key)
}

/// The request that starts a child.
pub open spec fn child_start(key: Seq<char>) -> Seq<char> {
    "child_"@ + key
}

/// The level of reasoning of a child: that of the message of its parent, or that of the session.
pub open spec fn child_reasoning(s: SessionView, request: Seq<char>) -> Option<Seq<char>> {
    match latest_input(s.prompts, s.receipts, request) {
        Some(input) => first_text(some_text(input.field("reasoning"@)), s.reasoning),
        None => s.reasoning,
    }
}

/// What a child is started with.
pub open spec fn child_input(parent: Seq<char>, s: SessionView, child: ChildView) -> Data {
    let input = Data::Object(
        map![
            "harness"@ => Data::Text(kind_name(s.harness, s.word)),
            "parent_session"@ => Data::Text(parent),
            "parent_request"@ => Data::Text(child.request),
            "tool_call_id"@ => Data::Text(child.tool_call_id),
            "prompt"@ => Data::Text(child.prompt),
            "reasoning"@ => opt_text(child_reasoning(s, child.request))
        ],
    );
    if guarded(s) {
        input
    } else {
        input.with("command_guard_enabled"@, Data::Bool(false))
    }
}

/// The receipt of a child: it works with the model and in the folder of its parent.
pub open spec fn child_receipt(parent: Seq<char>, s: SessionView, child: ChildView) -> ReceiptView {
    ReceiptView {
        request_id: child_start(child.id),
        command: "start"@,
        input: child_input(parent, s, child),
        state: "accepted"@,
        model: s.model,
        provider: s.provider,
        workspace: s.workspace,
        error: None,
    }
}

/// The record that a child was started.
pub open spec fn child_started(child: ChildView) -> NoteView {
    note(
        "child"@,
        Data::Object(
            map![
                "id"@ => Data::Text(child_name(child.id)),
                "request_id"@ => Data::Text(child.request),
                "tool_call_id"@ => Data::Text(child.tool_call_id),
                "state"@ => Data::Text("started"@)
            ],
        ),
    )
}

/// What the request for a child leads to.
#[derive(Debug)]
pub enum Delegation {
    /// The harness is told at once that there will be no child.
    Refused(Json),
    /// Records are made, and the child is started. Its outcome is waited for.
    Started(Vec<Entry>),
    /// The child was started before. Its outcome is waited for.
    Known,
}

/// The mathematical value of what the request for a child leads to.
pub enum DelegationView {
    Refused(Data),
    Started(Seq<EntryView>),
    Known,
}

impl View for Delegation {
    type V = DelegationView;

    open spec fn view(&self) -> DelegationView {
        match self {
            Delegation::Refused(reply) => DelegationView::Refused(reply@),
            Delegation::Started(list) => DelegationView::Started(entries(list@)),
            Delegation::Known => DelegationView::Known,
        }
    }
}

/// The turn may hand out work: the harness is one whose children are managed here, and the turn is
/// the current one.
pub open spec fn may_delegate(s: SessionView, request: Seq<char>) -> bool {
    (s.harness == Kind::Pi || s.harness == Kind::Claude) && s.current_request == Some(request)
}

/// What the request for a child leads to. The task of the child is part of its start, so that no
/// crash leaves a child without one.
pub open spec fn delegated(
    l: LocalView,
    parent: Seq<char>,
    child: ChildView,
    stopping: bool,
    blocked: bool,
) -> Result<DelegationView, ErrorView> {
    let s = l.sessions[parent];
    let id = child_name(child.id);
    if !l.sessions.contains_key(parent) {
        Err(ErrorView::NotFound)
    } else if !may_delegate(s, child.request) {
        Err(ErrorView::Conflict("child requires the current managed parent turn"@))
    } else if blocked || stopping {
        Ok(
            DelegationView::Refused(
                Data::Object(
                    map![
                        "id"@ => Data::Text(child.id),
                        "error"@ => Data::Text(
                            "Cloudroom cannot start a child while storage or shutdown blocks execution"@,
                        )
                    ],
                ),
            ),
        )
    } else if l.sessions.contains_key(id) {
        match retried(
            l.sessions[id],
            child_start(child.id),
            "start"@,
            child_input(parent, s, child),
        ) {
            None => Err(ErrorView::Conflict("child identity conflict"@)),
            Some(Err(e)) => Err(e),
            Some(Ok(_)) => Ok(DelegationView::Known),
        }
    } else {
        Ok(
            DelegationView::Started(
                seq![
                    EntryView {
                        session: id,
                        note: receipt_note(child_receipt(parent, s, child)),
                    },
                    EntryView { session: parent, note: child_started(child) },
                ],
            ),
        )
    }
}

/// The view of what the request for a child leads to.
pub open spec fn delegation_view(r: Result<Delegation, Error>) -> Result<DelegationView, ErrorView> {
    match r {
        Ok(d) => Ok(d@),
        Err(e) => Err(e@),
    }
}

impl Session {
    fn may_delegate(&self, request: &str) -> (r: bool)
        ensures
            r == may_delegate(self@, request@),
    {
        proof {
            reveal(Session::snapshot);
        }
        (self.harness == Kind::Pi || self.harness == Kind::Claude) && same_opt(
            opt_slice(&self.current_request),
            Some(request),
        )
    }

    fn child_reasoning(&self, request: &str) -> (r: Option<String>)
        ensures
            opt(r) == child_reasoning(self@, request@),
    {
        proof {
            reveal(Session::snapshot);
        }
        match latest(&self.prompts, &self.receipts, request) {
            Some(input) => match reasoning(input) {
                Some(level) => Some(level),
                None => opt_copy(&self.reasoning),
            },
            None => opt_copy(&self.reasoning),
        }
    }

    fn child_receipt(&self, parent: &str, child: &ChildRequest) -> (r: Receipt)
        ensures
            r@ == child_receipt(parent@, self@, child@),
    {
        let level = self.child_reasoning(child.request.as_str());
        let guard = self.command_guard_enabled();
        proof {
            reveal(Session::snapshot);
        }
        let fields = object().with_text("harness", self.harness.name(self.word.as_str())).with_text(
            "parent_session",
            parent,
        ).with_text("parent_request", child.request.as_str()).with_text(
            "tool_call_id",
            child.tool_call_id.as_str(),
        ).with_text("prompt", child.prompt.as_str()).with(
            "reasoning",
            Json::opt_text(opt_slice(&level)),
        );
        let input = Json::Object(
            if guard {
                fields
            } else {
                fields.with("command_guard_enabled", Json::Bool(false))
            },
        );
        Receipt {
            request_id: concat("child_", child.id.as_str()),
            command: "start".to_owned(),
            input,
            state: "accepted".to_owned(),
            model: opt_copy(&self.model),
            provider: opt_copy(&self.provider),
            workspace: copy_workspace(&self.workspace),
            error: None,
        }
    }
}

impl Local {
    /// Decides on the request of a turn for a child.
    pub fn start_child(&self, parent: &str, child: &ChildRequest, stopping: bool, blocked: bool) -> (r:
        Result<Delegation, Error>)
        ensures
            delegation_view(r) == delegated(self@, parent@, child@, stopping, blocked),
    {
        let s = match self.sessions.get(parent) {
            Some(s) => s,
            None => {
                return Err(Error::NotFound);
            },
        };
        if !s.may_delegate(child.request.as_str()) {
            return Err(Error::conflict("child requires the current managed parent turn"));
        }
        if blocked || stopping {
            return Ok(
                Delegation::Refused(
                    Json::Object(
                        object().with_text("id", child.id.as_str()).with_text(
                            "error",
                            "Cloudroom cannot start a child while storage or shutdown blocks execution",
                        ),
                    ),
                ),
            );
        }
        let id = child_session(child.id.as_str());
        let receipt = s.child_receipt(parent, child);
        if let Some(existing) = self.sessions.get(id.as_str()) {
            return match existing.retry(receipt.request_id.as_str(), "start", &receipt.input) {
                None => Err(Error::conflict("child identity conflict")),
                Some(Err(e)) => Err(e),
                Some(Ok(_)) => Ok(Delegation::Known),
            };
        }
        let started = Json::Object(
            object().with_text("id", id.as_str()).with_text(
                "request_id",
                child.request.as_str(),
            ).with_text("tool_call_id", child.tool_call_id.as_str()).with_text("state", "started"),
        );
        let mut list: Vec<Entry> = Vec::new();
        list.push(Entry { session: id, note: Note::receipt(&receipt) });
        list.push(Entry { session: parent.to_owned(), note: Note::new("child", started) });
        assert(entries(list@) =~= seq![
            EntryView {
                session: child_name(child@.id),
                note: receipt_note(child_receipt(parent@, s@, child@)),
            },
            EntryView { session: parent@, note: child_started(child@) },
        ]);
        Ok(Delegation::Started(list))
    }
}

// The outcome of a child.

/// How a child has ended, if it has.
#[derive(Clone, Copy, PartialEq, Eq, Structural, Debug)]
pub enum Ending {
    /// It still works.
    Open,
    Completed,
    /// Its task failed, or it is not known how it ended.
    Failed,
    /// Its harness is gone.
    Unavailable,
}

/// The task that a child was started with.
pub open spec fn child_task(key: Seq<char>) -> Seq<char> {
    "task_"@ + key
}

/// How a child has ended, if it has.
pub open spec fn child_ending(s: SessionView, key: Seq<char>) -> Ending {
    let task = child_task(key);
    let lost = s.state == "failed"@ || s.state == "closed"@ || s.state == "process_lost"@;
    let rest = if lost {
        Ending::Unavailable
    } else {
        Ending::Open
    };
    if !s.receipts.contains_key(task) {
        rest
    } else {
        let state = s.receipts[task].state;
        if state == "completed"@ {
            Ending::Completed
        } else if state == "failed"@ || state == "interrupted"@ || state == "unknown"@ || state
            == "unknown_after_restart"@ {
            Ending::Failed
        } else {
            rest
        }
    }
}

impl Session {
    /// How the child has ended, if it has.
    pub fn child_ending(&self, key: &str) -> (r: Ending)
        ensures
            r == child_ending(self@, key@),
    {
        proof {
            reveal(Session::snapshot);
        }
        if let Some(receipt) = self.receipts.get(concat("task_", key).as_str()) {
            let state = receipt.state.as_str();
            if same(state, "completed") {
                return Ending::Completed;
            }
            if same(state, "failed") || same(state, "interrupted") || same(state, "unknown") || same(
                state,
                "unknown_after_restart",
            ) {
                return Ending::Failed;
            }
        }
        let state = self.state.as_str();
        if same(state, "failed") || same(state, "closed") || same(state, "process_lost") {
            Ending::Unavailable
        } else {
            Ending::Open
        }
    }
}

/// What a child said last.
pub enum Said {
    Text(String),
    /// The harness did not say.
    Silent,
    /// No harness is attached.
    Gone,
}

/// The mathematical value of what a child said last.
pub enum SaidView {
    Text(Seq<char>),
    Silent,
    Gone,
}

impl View for Said {
    type V = SaidView;

    open spec fn view(&self) -> SaidView {
        match self {
            Said::Text(t) => SaidView::Text(t@),
            Said::Silent => SaidView::Silent,
            Said::Gone => SaidView::Gone,
        }
    }
}

/// The beginning of a text.
pub open spec fn first_chars(text: Seq<char>, count: int) -> Seq<char> {
    if text.len() > count {
        text.take(count)
    } else {
        text
    }
}

/// What the parent is told of its child.
pub open spec fn child_reply(key: Seq<char>, ending: Ending, said: SaidView) -> Data {
    let base = Data::Object(
        map!["id"@ => Data::Text(key), "session_id"@ => Data::Text(child_name(key))],
    );
    match ending {
        Ending::Completed => match said {
            SaidView::Text(t) => base.with("result"@, Data::Text(first_chars(t, 32768))),
            SaidView::Silent => base.with(
                "error"@,
                Data::Text("Child completed; result is available in its saved history"@),
            ),
            SaidView::Gone => base.with(
                "error"@,
                Data::Text("Child completed; runtime is no longer attached"@),
            ),
        },
        Ending::Unavailable => base.with("error"@, Data::Text("Child runtime is unavailable"@)),
        _ => base.with(
            "error"@,
            Data::Text("Child task failed or its outcome is uncertain"@),
        ),
    }
}

/// What the parent is told of a child that has ended.
pub fn reply(key: &str, ending: Ending, said: &Said) -> (r: Json)
    requires
        ending != Ending::Open,
    ensures
        r@ == child_reply(key@, ending, said@),
{
    let id = child_session(key);
    let base = object().with_text("id", key).with_text("session_id", id.as_str());
    Json::Object(
        match ending {
            Ending::Completed => match said {
                Said::Text(text) => {
                    let chars = chars_of(text.as_str());
                    let end = if chars.len() > 32768 {
                        32768
                    } else {
                        chars.len()
                    };
                    let part = string_of(slice_subrange(chars.as_slice(), 0, end));
                    assert(part@ =~= first_chars(text@, 32768));
                    base.with_text("result", part.as_str())
                },
                Said::Silent => base.with_text(
                    "error",
                    "Child completed; result is available in its saved history",
                ),
                Said::Gone => base.with_text(
                    "error",
                    "Child completed; runtime is no longer attached",
                ),
            },
            Ending::Unavailable => base.with_text("error", "Child runtime is unavailable"),
            _ => base.with_text("error", "Child task failed or its outcome is uncertain"),
        },
    )
}

/// The record of how a child has ended.
pub open spec fn ended_note(child: ChildView, reply: Data) -> NoteView {
    note(
        "child"@,
        Data::Object(
            map![
                "id"@ => Data::Text(child_name(child.id)),
                "request_id"@ => Data::Text(child.request),
                "tool_call_id"@ => Data::Text(child.tool_call_id),
                "state"@ => Data::Text(
                    if reply.get("error"@) is Some {
                        "failed"@
                    } else {
                        "completed"@
                    },
                ),
                "result"@ => reply
            ],
        ),
    )
}

/// The record of how a child has ended.
pub fn note_ending(child: &ChildRequest, reply: &Json) -> (r: Note)
    ensures
        r@ == ended_note(child@, reply@),
{
    let state = if reply.get("error").is_some() {
        "failed"
    } else {
        "completed"
    };
    let id = child_session(child.id.as_str());
    Note::new(
        "child",
        Json::Object(
            object().with_text("id", id.as_str()).with_text(
                "request_id",
                child.request.as_str(),
            ).with_text("tool_call_id", child.tool_call_id.as_str()).with_text("state", state).with(
                "result",
                reply.duplicate(),
            ),
        ),
    )
}

/// A child is started once: the request for it can come again, and nothing is recorded anew.
pub proof fn children_start_once(
    l: LocalView,
    parent: Seq<char>,
    child: ChildView,
    stopping: bool,
    blocked: bool,
)
    requires
        l.sessions.contains_key(child_name(child.id)),
    ensures
        !(delegated(l, parent, child, stopping, blocked) matches Ok(DelegationView::Started(_))),
{
}

/// A child works in the folder of its parent, with the model of its parent.
pub proof fn children_work_beside_their_parent(
    l: LocalView,
    parent: Seq<char>,
    child: ChildView,
    list: Seq<EntryView>,
)
    requires
        delegated(l, parent, child, false, false) == Ok::<DelegationView, ErrorView>(
            DelegationView::Started(list),
        ),
    ensures
        ({
            let r = child_receipt(parent, l.sessions[parent], child);
            list[0].session == child_name(child.id) && list[0].note == receipt_note(r)
                && r.workspace == l.sessions[parent].workspace && r.model
                == l.sessions[parent].model
        }),
{
}

} // verus!
