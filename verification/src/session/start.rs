//! The start of a session.
use super::command::{one_note, retried, turned_down, unwritable, Next, NextView, Outcome, OutcomeView};
use super::local::{Local, LocalView};
use super::query::{notes, receipt_note, Note, NoteView};
use super::{Error, ErrorView, Receipt, ReceiptView, Session, Workspace, WorkspaceView};
use crate::json::{alike, object, Data, Json};
use crate::runtime::{kind_name, Kind};
use crate::text::{concat, opt, opt_str, same};
use vstd::prelude::*;

verus! {

/// A request for a session.
#[derive(Debug)]
pub struct Start {
    pub request: String,
    pub harness: Option<Kind>,
    pub model: Option<String>,
    pub reasoning: Option<String>,
    pub workspace: Option<String>,
    pub workspace_name: Option<String>,
    pub provider: Option<String>,
    pub command_guard_enabled: Option<bool>,
}

/// The mathematical value of a request for a session.
pub struct StartView {
    pub request: Seq<char>,
    pub harness: Option<Kind>,
    pub model: Option<Seq<char>>,
    pub reasoning: Option<Seq<char>>,
    pub workspace: Option<Seq<char>>,
    pub workspace_name: Option<Seq<char>>,
    pub provider: Option<Seq<char>>,
    pub command_guard_enabled: Option<bool>,
}

impl View for Start {
    type V = StartView;

    open spec fn view(&self) -> StartView {
        StartView {
            request: self.request@,
            harness: self.harness,
            model: opt(self.model),
            reasoning: opt(self.reasoning),
            workspace: opt(self.workspace),
            workspace_name: opt(self.workspace_name),
            provider: opt(self.provider),
            command_guard_enabled: self.command_guard_enabled,
        }
    }
}

/// The name of a session is made of that of the request for it.
pub open spec fn session_name(request: Seq<char>) -> Seq<char> {
    "cr_"@ + request
}

/// The harness of a session: the one that is asked for, that of the session, or the usual one.
pub open spec fn asked_kind(l: LocalView, start: StartView, usual: Kind) -> Kind {
    match start.harness {
        Some(kind) => kind,
        None => if l.sessions.contains_key(session_name(start.request)) {
            l.sessions[session_name(start.request)].harness
        } else {
            usual
        },
    }
}

/// An optional member of what is asked for.
pub open spec fn asking(value: Data, key: Seq<char>, text: Option<Seq<char>>) -> Data {
    match text {
        Some(t) => value.with(key, Data::Text(t)),
        None => value,
    }
}

/// What is asked for, as it is recorded. Codex and the command guard are what is usual, and are
/// left out.
pub open spec fn start_input(start: StartView, kind: Kind, word: Seq<char>) -> Data {
    let base = if kind == Kind::Codex {
        Data::Object(Map::empty())
    } else {
        Data::Object(map!["harness"@ => Data::Text(kind_name(kind, word))])
    };
    let guarded = if start.command_guard_enabled == Some(false) {
        base.with("command_guard_enabled"@, Data::Bool(false))
    } else {
        base
    };
    asking(
        asking(
            asking(
                asking(
                    asking(guarded, "model"@, start.model),
                    "provider"@,
                    start.provider,
                ),
                "reasoning"@,
                start.reasoning,
            ),
            "workspace"@,
            start.workspace,
        ),
        "workspace_name"@,
        start.workspace_name,
    )
}

/// Why what is asked for cannot be.
pub open spec fn start_refused(
    start: StartView,
    kind: Kind,
    valid_workspace: bool,
    valid_name: bool,
) -> Option<Seq<char>> {
    if start.provider is Some && kind != Kind::Pi {
        Some("provider selection requires Pi"@)
    } else if start.workspace is Some && !valid_workspace {
        Some("invalid workspace"@)
    } else if start.workspace_name is Some && (start.workspace is None || !valid_name) {
        Some("invalid workspace"@)
    } else {
        None
    }
}

/// The answer to a request for a session that exists.
pub open spec fn known_start(l: LocalView, request: Seq<char>, input: Data) -> Option<
    Result<ReceiptView, ErrorView>,
> {
    let id = session_name(request);
    if !l.sessions.contains_key(id) {
        None
    } else {
        match retried(l.sessions[id], request, "start"@, input) {
            Some(reply) => Some(reply),
            None => Some(Err(ErrorView::Conflict("session already exists"@))),
        }
    }
}

/// The answer to a request for a session, before anything else is looked at.
pub open spec fn early_reply(
    l: LocalView,
    request: Seq<char>,
    input: Data,
    blocked: bool,
    configured: bool,
) -> Option<Result<ReceiptView, ErrorView>> {
    match known_start(l, request, input) {
        Some(reply) => Some(reply),
        None => if !l.journal.writable {
            Some(Err(ErrorView::Storage(unwritable())))
        } else if blocked {
            Some(Err(ErrorView::Conflict("storage unsafe; new execution is blocked"@)))
        } else if !configured {
            Some(Err(ErrorView::Conflict("agent setup is incomplete"@)))
        } else {
            None
        },
    }
}

/// The answer to a request for a session that only the saved history knows: it is not made again.
pub open spec fn saved_reply(
    harness: Option<Kind>,
    saved: Kind,
    receipt: Option<ReceiptView>,
    input: Data,
) -> Result<ReceiptView, ErrorView> {
    if harness is Some && harness != Some(saved) {
        Err(ErrorView::Conflict("request_id already has different content"@))
    } else {
        match receipt {
            None => Err(ErrorView::Conflict("saved session has no matching receipt"@)),
            Some(r) => if !alike(r.input, input) {
                Err(ErrorView::Conflict("request_id already has different content"@))
            } else {
                Ok(r)
            },
        }
    }
}

/// The receipt of a session that starts.
pub open spec fn start_receipt(
    start: StartView,
    input: Data,
    model: Seq<char>,
    provider: Option<Seq<char>>,
    workspace: WorkspaceView,
) -> ReceiptView {
    ReceiptView {
        request_id: start.request,
        command: "start"@,
        input,
        state: "accepted"@,
        model: Some(
            match start.model {
                Some(m) => m,
                None => model,
            },
        ),
        provider: match start.provider {
            Some(p) => Some(p),
            None => provider,
        },
        workspace: Some(workspace),
        error: None,
    }
}

/// What a session that starts leads to. It may have come into being, or the service may be
/// stopping, while its harness was looked at.
pub open spec fn begun(l: LocalView, receipt: ReceiptView, stopping: bool, blocked: bool) -> OutcomeView {
    match known_start(l, receipt.request_id, receipt.input) {
        Some(reply) => OutcomeView { notes: Seq::empty(), next: NextView::Nothing, reply },
        None => if stopping {
            turned_down(ErrorView::Conflict("service is stopping"@))
        } else if blocked {
            turned_down(ErrorView::Conflict("storage unsafe; new execution is blocked"@))
        } else {
            OutcomeView {
                notes: seq![receipt_note(receipt)],
                next: NextView::Launch { request: receipt.request_id },
                reply: Ok(receipt),
            }
        },
    }
}

/// The view of a reply.
pub open spec fn reply_view(r: Result<Receipt, Error>) -> Result<ReceiptView, ErrorView> {
    match r {
        Ok(receipt) => Ok(receipt@),
        Err(e) => Err(e@),
    }
}

/// The view of an optional reply.
pub open spec fn opt_reply(r: Option<Result<Receipt, Error>>) -> Option<
    Result<ReceiptView, ErrorView>,
> {
    match r {
        Some(reply) => Some(reply_view(reply)),
        None => None,
    }
}

fn ask(value: &mut Json, key: &str, text: &Option<String>)
    requires
        old(value)@.takes_fields(),
    ensures
        final(value)@ == asking(old(value)@, key@, opt(*text)),
        final(value)@.takes_fields(),
{
    if let Some(t) = text {
        value.set(key, Json::text(t.as_str()));
    }
}

impl Start {
    /// The name of the session.
    pub fn session_id(&self) -> (r: String)
        ensures
            r@ == session_name(self@.request),
    {
        concat("cr_", self.request.as_str())
    }

    /// What is asked for, as it is recorded, or why it cannot be. Whether the workspace and its
    /// name are well formed is for the workspaces to say.
    pub fn input(
        &self,
        kind: Kind,
        valid_workspace: bool,
        valid_name: bool,
        word: &str,
    ) -> (r: Result<Json, Error>)
        ensures
            match r {
                Ok(input) => start_refused(self@, kind, valid_workspace, valid_name) is None
                    && input@ == start_input(self@, kind, word@),
                Err(e) => match start_refused(self@, kind, valid_workspace, valid_name) {
                    Some(why) => e@ == ErrorView::Conflict(why),
                    None => false,
                },
            },
    {
        if self.provider.is_some() && kind != Kind::Pi {
            return Err(Error::conflict("provider selection requires Pi"));
        }
        if self.workspace.is_some() && !valid_workspace {
            return Err(Error::conflict("invalid workspace"));
        }
        if self.workspace_name.is_some() && (self.workspace.is_none() || !valid_name) {
            return Err(Error::conflict("invalid workspace"));
        }
        let mut input = if kind == Kind::Codex {
            Json::Object(object())
        } else {
            Json::Object(object().with_text("harness", kind.name(word)))
        };
        if let Some(enabled) = self.command_guard_enabled {
            if !enabled {
                input.set("command_guard_enabled", Json::Bool(false));
            }
        }
        ask(&mut input, "model", &self.model);
        ask(&mut input, "provider", &self.provider);
        ask(&mut input, "reasoning", &self.reasoning);
        ask(&mut input, "workspace", &self.workspace);
        ask(&mut input, "workspace_name", &self.workspace_name);
        Ok(input)
    }

    /// The receipt of the session. `model` and `provider` are what the harness is configured with.
    pub fn receipt(&self, input: Json, model: &str, provider: Option<&str>, workspace: Workspace) -> (r:
        Receipt)
        ensures
            r@ == start_receipt(self@, input@, model@, opt_str(provider), workspace@),
    {
        let model = match &self.model {
            Some(m) => m.clone(),
            None => model.to_owned(),
        };
        let provider = match &self.provider {
            Some(p) => Some(p.clone()),
            None => crate::text::opt_owned(provider),
        };
        Receipt {
            request_id: self.request.clone(),
            command: "start".to_owned(),
            input,
            state: "accepted".to_owned(),
            model: Some(model),
            provider,
            workspace: Some(workspace),
            error: None,
        }
    }
}

/// The answer to a request for a session that only the saved history knows.
pub fn saved_start(
    harness: Option<Kind>,
    saved: Kind,
    receipt: Option<Receipt>,
    input: &Json,
) -> (r: Result<Receipt, Error>)
    ensures
        reply_view(r) == saved_reply(harness, saved, super::opt_receipt(receipt), input@),
{
    if let Some(kind) = harness {
        if kind != saved {
            return Err(Error::conflict("request_id already has different content"));
        }
    }
    match receipt {
        None => Err(Error::conflict("saved session has no matching receipt")),
        Some(r) => if !r.input.same(input) {
            Err(Error::conflict("request_id already has different content"))
        } else {
            Ok(r)
        },
    }
}

impl Local {
    /// The harness of a session that is asked for.
    pub fn asked_kind(&self, start: &Start, usual: Kind) -> (r: Kind)
        ensures
            r == asked_kind(self@, start@, usual),
    {
        if let Some(kind) = start.harness {
            return kind;
        }
        match self.sessions.get(start.session_id().as_str()) {
            Some(s) => {
                proof {
                    reveal(Session::snapshot);
                }
                s.harness
            },
            None => usual,
        }
    }

    fn known_start(&self, request: &str, input: &Json) -> (r: Option<Result<Receipt, Error>>)
        ensures
            opt_reply(r) == known_start(self@, request@, input@),
    {
        let id = concat("cr_", request);
        match self.sessions.get(id.as_str()) {
            None => None,
            Some(s) => match s.retry(request, "start", input) {
                Some(reply) => Some(reply),
                None => Some(Err(Error::conflict("session already exists"))),
            },
        }
    }

    /// The answer to a request for a session, before anything else is looked at.
    pub fn early_reply(&self, request: &str, input: &Json, blocked: bool, configured: bool) -> (r:
        Option<Result<Receipt, Error>>)
        ensures
            opt_reply(r) == early_reply(self@, request@, input@, blocked, configured),
    {
        if let Some(reply) = self.known_start(request, input) {
            return Some(reply);
        }
        if !self.journal.writable() {
            return Some(Err(Error::Storage("session journal is not writable".to_owned())));
        }
        if blocked {
            return Some(Err(Error::conflict("storage unsafe; new execution is blocked")));
        }
        if !configured {
            return Some(Err(Error::conflict("agent setup is incomplete")));
        }
        None
    }

    /// Starts a session.
    pub fn start(&self, receipt: Receipt, stopping: bool, blocked: bool) -> (r: Outcome)
        ensures
            r@ == begun(self@, receipt@, stopping, blocked),
    {
        let none: Vec<Note> = Vec::new();
        assert(notes(none@) =~= Seq::<NoteView>::empty());
        if let Some(reply) = self.known_start(receipt.request_id.as_str(), &receipt.input) {
            return Outcome { notes: none, next: Next::Nothing, reply };
        }
        if stopping {
            return Outcome {
                notes: none,
                next: Next::Nothing,
                reply: Err(Error::conflict("service is stopping")),
            };
        }
        if blocked {
            return Outcome {
                notes: none,
                next: Next::Nothing,
                reply: Err(Error::conflict("storage unsafe; new execution is blocked")),
            };
        }
        let request = receipt.request_id.clone();
        Outcome {
            notes: one_note(Note::receipt(&receipt)),
            next: Next::Launch { request },
            reply: Ok(receipt),
        }
    }
}

/// A session is started once: a request that comes again gets the receipt it got, and records
/// nothing.
pub proof fn sessions_start_once(
    l: LocalView,
    receipt: ReceiptView,
    stopping: bool,
    blocked: bool,
)
    requires
        l.sessions.contains_key(session_name(receipt.request_id)),
    ensures
        begun(l, receipt, stopping, blocked).notes.len() == 0,
        begun(l, receipt, stopping, blocked).next is Nothing,
        ({
            let known = l.sessions[session_name(receipt.request_id)].receipts;
            known.contains_key(receipt.request_id) && known[receipt.request_id].command == "start"@
                && alike(
                known[receipt.request_id].input,
                receipt.input,
            ) ==> begun(
                l,
                receipt,
                stopping,
                blocked,
            ).reply == Ok::<ReceiptView, ErrorView>(known[receipt.request_id])
        }),
{
}

} // verus!
