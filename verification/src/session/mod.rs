//! Sessions: one conversation with one harness each, rebuilt from durable records.
use crate::json::{object, Data, Fields, Json};
use crate::runtime::Kind;
use crate::table::Table;
use crate::text::{concat3, opt, opt_copy, opt_str, views};
use vstd::prelude::*;

pub mod accounts;
pub mod asking;
pub mod catalog;
pub mod children;
pub mod command;
pub mod guard;
pub mod history;
pub mod keeping;
pub mod laws;
pub mod lifecycle;
pub mod local;
pub mod moving;
pub mod native;
pub mod outbox;
pub mod outcome;
pub mod pick;
pub mod promises;
pub mod prompt;
pub mod query;
pub mod recalling;
pub mod record;
pub mod refusing;
pub mod replay;
pub mod running;
pub mod showing;
pub mod sleep;
pub mod start;
pub mod state;
pub mod teleport;
pub mod transfer;

verus! {

/// One durable record of a session.
#[derive(Debug)]
pub struct Record {
    pub sequence: u64,
    pub session_id: String,
    pub kind: String,
    pub timestamp_ms: Option<u64>,
    pub data: Json,
    pub native: Option<String>,
}

/// The mathematical value of a record.
pub struct RecordView {
    pub sequence: u64,
    pub session_id: Seq<char>,
    pub kind: Seq<char>,
    pub timestamp_ms: Option<u64>,
    pub data: Data,
    pub native: Option<Seq<char>>,
}

impl View for Record {
    type V = RecordView;

    open spec fn view(&self) -> RecordView {
        RecordView {
            sequence: self.sequence,
            session_id: self.session_id@,
            kind: self.kind@,
            timestamp_ms: self.timestamp_ms,
            data: self.data@,
            native: opt(self.native),
        }
    }
}

/// The folder that a session works in.
#[derive(Debug)]
pub struct Workspace {
    pub id: String,
    pub path: String,
    pub parent: Option<String>,
}

/// The mathematical value of a workspace.
pub struct WorkspaceView {
    pub id: Seq<char>,
    pub path: Seq<char>,
    pub parent: Option<Seq<char>>,
}

impl View for Workspace {
    type V = WorkspaceView;

    open spec fn view(&self) -> WorkspaceView {
        WorkspaceView { id: self.id@, path: self.path@, parent: opt(self.parent) }
    }
}

/// The view of an optional workspace.
pub open spec fn opt_workspace(w: Option<Workspace>) -> Option<WorkspaceView> {
    match w {
        Some(w) => Some(w@),
        None => None,
    }
}

/// A request, and how far it has come.
#[derive(Debug)]
pub struct Receipt {
    pub request_id: String,
    pub command: String,
    pub input: Json,
    pub state: String,
    pub model: Option<String>,
    pub provider: Option<String>,
    pub workspace: Option<Workspace>,
    pub error: Option<String>,
}

/// The mathematical value of a receipt.
pub struct ReceiptView {
    pub request_id: Seq<char>,
    pub command: Seq<char>,
    pub input: Data,
    pub state: Seq<char>,
    pub model: Option<Seq<char>>,
    pub provider: Option<Seq<char>>,
    pub workspace: Option<WorkspaceView>,
    pub error: Option<Seq<char>>,
}

impl View for Receipt {
    type V = ReceiptView;

    open spec fn view(&self) -> ReceiptView {
        ReceiptView {
            request_id: self.request_id@,
            command: self.command@,
            input: self.input@,
            state: self.state@,
            model: opt(self.model),
            provider: opt(self.provider),
            workspace: opt_workspace(self.workspace),
            error: opt(self.error),
        }
    }
}

/// A receipt as it is accepted: nothing but the request.
pub open spec fn accepted(request_id: Seq<char>, command: Seq<char>, input: Data) -> ReceiptView {
    ReceiptView {
        request_id,
        command,
        input,
        state: "accepted"@,
        model: None,
        provider: None,
        workspace: None,
        error: None,
    }
}

// The saved form of receipts and workspaces.

/// An optional member: left out where there is none.
pub open spec fn with_opt_text(value: Data, key: Seq<char>, text: Option<Seq<char>>) -> Data {
    match text {
        Some(t) => value.with(key, Data::Text(t)),
        None => value,
    }
}

/// A workspace as JSON.
pub open spec fn workspace_json(w: WorkspaceView) -> Data {
    with_opt_text(
        Data::Object(map!["id"@ => Data::Text(w.id), "path"@ => Data::Text(w.path)]),
        "parent"@,
        w.parent,
    )
}

/// A receipt as JSON.
pub open spec fn receipt_json(r: ReceiptView) -> Data {
    let base = Data::Object(
        map![
            "request_id"@ => Data::Text(r.request_id),
            "command"@ => Data::Text(r.command),
            "input"@ => r.input,
            "state"@ => Data::Text(r.state)
        ],
    );
    let chosen = with_opt_text(with_opt_text(base, "model"@, r.model), "provider"@, r.provider);
    let placed = match r.workspace {
        Some(w) => chosen.with("workspace"@, workspace_json(w)),
        None => chosen,
    };
    with_opt_text(placed, "error"@, r.error)
}

/// An optional string member: absent or null, a string, or neither.
pub open spec fn opt_text_in(value: Option<Data>) -> Option<Option<Seq<char>>> {
    match value {
        None => Some(None),
        Some(Data::Null) => Some(None),
        Some(Data::Text(t)) => Some(Some(t)),
        _ => None,
    }
}

/// The workspace that a JSON value holds.
pub open spec fn workspace_in(value: Data) -> Option<WorkspaceView> {
    match (
        value.field("id"@).as_text(),
        value.field("path"@).as_text(),
        opt_text_in(value.get("parent"@)),
    ) {
        (Some(id), Some(path), Some(parent)) => Some(WorkspaceView { id, path, parent }),
        _ => None,
    }
}

/// The optional workspace that a member holds.
pub open spec fn opt_workspace_in(value: Option<Data>) -> Option<Option<WorkspaceView>> {
    match value {
        None => Some(None),
        Some(Data::Null) => Some(None),
        Some(v) => match workspace_in(v) {
            Some(w) => Some(Some(w)),
            None => None,
        },
    }
}

/// A part of what a JSON value holds: the member of an object, or the item of an array.
pub open spec fn part_of(value: Data, i: int, key: Seq<char>) -> Option<Data> {
    match value {
        Data::Array(items) => if 0 <= i < items.len() {
            Some(items[i])
        } else {
            None
        },
        _ => value.get(key),
    }
}

/// A part that is a text.
pub open spec fn text_part(value: Data, i: int, key: Seq<char>) -> Option<Seq<char>> {
    match part_of(value, i, key) {
        Some(part) => part.as_text(),
        None => None,
    }
}

/// The receipt that a JSON value holds: an object with its members, or an array with them in order,
/// of which the last ones may be left out.
pub open spec fn receipt_in(value: Data) -> Option<ReceiptView> {
    match (
        text_part(value, 0, "request_id"@),
        text_part(value, 1, "command"@),
        part_of(value, 2, "input"@),
        text_part(value, 3, "state"@),
    ) {
        (Some(request_id), Some(command), Some(input), Some(state)) => match (
            opt_text_in(part_of(value, 4, "model"@)),
            opt_text_in(part_of(value, 5, "provider"@)),
            opt_workspace_in(part_of(value, 6, "workspace"@)),
            opt_text_in(part_of(value, 7, "error"@)),
        ) {
            (Some(model), Some(provider), Some(workspace), Some(error)) => if value.items().len()
                > 8 {
                None
            } else {
                Some(
                    ReceiptView {
                        request_id,
                        command,
                        input,
                        state,
                        model,
                        provider,
                        workspace,
                        error,
                    },
                )
            },
            _ => None,
        },
        _ => None,
    }
}

/// The members of a workspace have different keys.
proof fn workspace_keys()
    ensures
        "id"@ != "path"@,
        "id"@ != "parent"@,
        "path"@ != "parent"@,
{
    reveal_strlit("id");
    reveal_strlit("path");
    reveal_strlit("parent");
    assert("id"@.len() == 2 && "path"@.len() == 4 && "parent"@.len() == 6);
}

/// A workspace is read back as it was saved.
pub proof fn workspace_reads_back(w: WorkspaceView)
    ensures
        workspace_in(workspace_json(w)) == Some(w),
{
    workspace_keys();
}

/// A receipt is read back as it was saved.
pub proof fn receipt_reads_back(r: ReceiptView)
    ensures
        receipt_in(receipt_json(r)) == Some(r),
{
    reveal_strlit("request_id");
    reveal_strlit("command");
    reveal_strlit("input");
    reveal_strlit("state");
    reveal_strlit("model");
    reveal_strlit("provider");
    reveal_strlit("workspace");
    reveal_strlit("error");
    assert("request_id"@.len() == 10 && "command"@.len() == 7 && "input"@.len() == 5
        && "state"@.len() == 5 && "model"@.len() == 5 && "provider"@.len() == 8
        && "workspace"@.len() == 9 && "error"@.len() == 5);
    assert("input"@[0] == 'i' && "state"@[0] == 's' && "model"@[0] == 'm' && "error"@[0] == 'e');
    match r.workspace {
        Some(w) => workspace_reads_back(w),
        None => {},
    }
}

fn put_opt(fields: Fields, key: &str, text: &Option<String>) -> (r: Fields)
    ensures
        Data::Object(r@) == with_opt_text(Data::Object(fields@), key@, opt(*text)),
{
    match text {
        Some(t) => fields.with_text(key, t.as_str()),
        None => fields,
    }
}

fn read_opt(value: Option<&Json>) -> (r: Option<Option<String>>)
    ensures
        match r {
            Some(t) => opt_text_in(opt_json(value)) == Some(opt(t)),
            None => opt_text_in(opt_json(value)) is None,
        },
{
    match value {
        None => Some(None),
        Some(Json::Null) => Some(None),
        Some(Json::Text(t)) => Some(Some(t.clone())),
        _ => None,
    }
}

/// The view of an optional JSON value.
pub open spec fn opt_json(value: Option<&Json>) -> Option<Data> {
    match value {
        Some(j) => Some(j@),
        None => None,
    }
}

/// The view of an optional owned JSON value.
pub open spec fn opt_data(value: Option<Json>) -> Option<Data> {
    match value {
        Some(j) => Some(j@),
        None => None,
    }
}

impl Workspace {
    /// The workspace as JSON.
    pub fn to_json(&self) -> (r: Json)
        ensures
            r@ == workspace_json(self@),
    {
        let fields = object().with_text("id", self.id.as_str()).with_text(
            "path",
            self.path.as_str(),
        );
        Json::Object(put_opt(fields, "parent", &self.parent))
    }

    /// The workspace that a JSON value holds.
    pub fn from_json(value: &Json) -> (r: Option<Workspace>)
        ensures
            opt_workspace(r) == workspace_in(value@),
    {
        match (
            value.field_text("id"),
            value.field_text("path"),
            read_opt(value.get("parent")),
        ) {
            (Some(id), Some(path), Some(parent)) => Some(
                Workspace { id: id.to_owned(), path: path.to_owned(), parent },
            ),
            _ => None,
        }
    }

    /// A copy.
    pub fn duplicate(&self) -> (r: Workspace)
        ensures
            r@ == self@,
    {
        Workspace {
            id: self.id.clone(),
            path: self.path.clone(),
            parent: opt_copy(&self.parent),
        }
    }
}

/// A copy of an optional workspace.
pub fn copy_workspace(w: &Option<Workspace>) -> (r: Option<Workspace>)
    ensures
        opt_workspace(r) == opt_workspace(*w),
{
    match w {
        Some(w) => Some(w.duplicate()),
        None => None,
    }
}

fn read_part<'a>(value: &'a Json, i: usize, key: &str) -> (r: Option<&'a Json>)
    ensures
        crate::runtime::codex::opt_json_ref(r) == part_of(value@, i as int, key@),
{
    match value.as_array() {
        Some(items) => if i < items.len() {
            Some(&items[i])
        } else {
            None
        },
        None => value.get(key),
    }
}

fn read_text_part<'a>(value: &'a Json, i: usize, key: &str) -> (r: Option<&'a str>)
    ensures
        opt_str(r) == text_part(value@, i as int, key@),
{
    match read_part(value, i, key) {
        Some(part) => part.as_text(),
        None => None,
    }
}

impl Receipt {
    /// A receipt as it is accepted.
    pub fn accepted(request_id: &str, command: &str, input: Json) -> (r: Receipt)
        ensures
            r@ == accepted(request_id@, command@, input@),
    {
        Receipt {
            request_id: request_id.to_owned(),
            command: command.to_owned(),
            input,
            state: "accepted".to_owned(),
            model: None,
            provider: None,
            workspace: None,
            error: None,
        }
    }

    /// The receipt as JSON.
    pub fn to_json(&self) -> (r: Json)
        ensures
            r@ == receipt_json(self@),
    {
        let base = object().with_text("request_id", self.request_id.as_str()).with_text(
            "command",
            self.command.as_str(),
        ).with("input", self.input.duplicate()).with_text("state", self.state.as_str());
        let chosen = put_opt(put_opt(base, "model", &self.model), "provider", &self.provider);
        let placed = match &self.workspace {
            Some(w) => chosen.with("workspace", w.to_json()),
            None => chosen,
        };
        Json::Object(put_opt(placed, "error", &self.error))
    }

    /// The receipt that a JSON value holds.
    pub fn from_json(value: &Json) -> (r: Option<Receipt>)
        ensures
            opt_receipt(r) == receipt_in(value@),
    {
        if let Some(items) = value.as_array() {
            if items.len() > 8 {
                return None;
            }
        }
        let request_id = read_text_part(value, 0, "request_id");
        let command = read_text_part(value, 1, "command");
        let input = read_part(value, 2, "input");
        let state = read_text_part(value, 3, "state");
        let model = read_opt(read_part(value, 4, "model"));
        let provider = read_opt(read_part(value, 5, "provider"));
        let workspace: Option<Option<Workspace>> = match read_part(value, 6, "workspace") {
            None => Some(None),
            Some(Json::Null) => Some(None),
            Some(v) => match Workspace::from_json(v) {
                Some(w) => Some(Some(w)),
                None => None,
            },
        };
        let error = read_opt(read_part(value, 7, "error"));
        match (request_id, command, input, state) {
            (Some(request_id), Some(command), Some(input), Some(state)) => match (
                model,
                provider,
                workspace,
                error,
            ) {
                (Some(model), Some(provider), Some(workspace), Some(error)) => Some(
                    Receipt {
                        request_id: request_id.to_owned(),
                        command: command.to_owned(),
                        input: input.duplicate(),
                        state: state.to_owned(),
                        model,
                        provider,
                        workspace,
                        error,
                    },
                ),
                _ => None,
            },
            _ => None,
        }
    }

    /// A copy.
    pub fn duplicate(&self) -> (r: Receipt)
        ensures
            r@ == self@,
    {
        Receipt {
            request_id: self.request_id.clone(),
            command: self.command.clone(),
            input: self.input.duplicate(),
            state: self.state.clone(),
            model: opt_copy(&self.model),
            provider: opt_copy(&self.provider),
            workspace: copy_workspace(&self.workspace),
            error: opt_copy(&self.error),
        }
    }
}

/// The view of an optional receipt.
pub open spec fn opt_receipt(r: Option<Receipt>) -> Option<ReceiptView> {
    match r {
        Some(r) => Some(r@),
        None => None,
    }
}

/// Why a request was turned down.
#[derive(Debug)]
pub enum Error {
    NotFound,
    Conflict(String),
    /// Carries the underlying cause so API clients can see why storage failed.
    Storage(String),
}

/// The mathematical value of an error.
pub enum ErrorView {
    NotFound,
    Conflict(Seq<char>),
    Storage(Seq<char>),
}

impl View for Error {
    type V = ErrorView;

    open spec fn view(&self) -> ErrorView {
        match self {
            Error::NotFound => ErrorView::NotFound,
            Error::Conflict(message) => ErrorView::Conflict(message@),
            Error::Storage(detail) => ErrorView::Storage(detail@),
        }
    }
}

/// The words for an error.
pub open spec fn error_message(e: ErrorView) -> Seq<char> {
    match e {
        ErrorView::NotFound => "session not found"@,
        ErrorView::Conflict(message) => message,
        ErrorView::Storage(detail) => "storage unavailable ("@ + detail + ")"@,
    }
}

impl Error {
    /// A request that does not fit what there is.
    pub fn conflict(message: &str) -> (r: Error)
        ensures
            r@ == ErrorView::Conflict(message@),
    {
        Error::Conflict(message.to_owned())
    }

    /// Human-readable cause for API bodies that report failures as data.
    pub fn message(&self) -> (r: String)
        ensures
            r@ == error_message(self@),
    {
        match self {
            Error::NotFound => "session not found".to_owned(),
            Error::Conflict(message) => message.clone(),
            Error::Storage(detail) => concat3("storage unavailable (", detail.as_str(), ")"),
        }
    }
}

/// A harness process that a session holds.
#[derive(Clone, Copy, PartialEq, Eq, Structural, Debug)]
pub struct Attached {
    /// Tells this process from every other that the service has started.
    pub serial: u64,
    pub pid: u32,
}

/// The running harness and its workload size when it became ready.
#[derive(Clone, Copy, PartialEq, Eq, Structural, Debug)]
pub struct Awake {
    pub pid: u32,
    pub since_ms: u64,
    pub processes: Option<usize>,
}

/// A session: what its records say of it, and the process that it holds now.
pub struct Session {
    pub session_id: String,
    pub teleport_output: bool,
    pub harness: Kind,
    /// The word of the product after which one of the harnesses is named.
    pub word: String,
    pub capabilities: Json,
    pub native_cursor: Json,
    pub provider: Option<String>,
    pub native_id: Option<String>,
    pub native_path: Option<String>,
    pub native_offset: u64,
    pub state: String,
    pub current_request: Option<String>,
    pub current_turn: Option<String>,
    pub startup_error: Option<String>,
    /// The detailed reason recorded with `startup_error`, shown to users verbatim.
    pub startup_reason: Option<String>,
    pub has_dispatched: bool,
    pub last_sequence: u64,
    pub receipts: Table<Receipt>,
    /// Ordered prompts accepted while busy, delivered one turn at a time.
    pub queue: Vec<String>,
    pub prompts: Table<prompt::PromptState>,
    pub storage_paused: bool,
    pub queue_paused: bool,
    pub compacting: bool,
    pub compact_request: Option<String>,
    pub checkpoint: Option<Json>,
    pub rewind_request: Option<String>,
    pub parent_session: Option<String>,
    pub reasoning: Option<String>,
    pub workspace: Option<Workspace>,
    pub last_activity: Option<u64>,
    pub last_prompt_state: Option<String>,
    pub model: Option<String>,
    pub storage_warned: bool,
    pub handle: Option<Attached>,
    pub ready: bool,
    pub recovery_attempted: bool,
    pub close_request: Option<String>,
    /// Last harness pid, so a later instance can reconcile ownership before resuming.
    pub harness_pid: Option<u32>,
    /// The latest turn stopped on a subscription usage limit.
    pub usage_limited: bool,
    pub awake: Option<Awake>,
    /// The harness was asked to exit so this idle session can sleep.
    pub releasing: bool,
}

/// The mathematical value of a session.
pub struct SessionView {
    pub session_id: Seq<char>,
    pub teleport_output: bool,
    pub harness: Kind,
    pub word: Seq<char>,
    pub capabilities: Data,
    pub native_cursor: Data,
    pub provider: Option<Seq<char>>,
    pub native_id: Option<Seq<char>>,
    pub native_path: Option<Seq<char>>,
    pub native_offset: u64,
    pub state: Seq<char>,
    pub current_request: Option<Seq<char>>,
    pub current_turn: Option<Seq<char>>,
    pub startup_error: Option<Seq<char>>,
    pub startup_reason: Option<Seq<char>>,
    pub has_dispatched: bool,
    pub last_sequence: u64,
    pub receipts: Map<Seq<char>, ReceiptView>,
    pub queue: Seq<Seq<char>>,
    pub prompts: Map<Seq<char>, prompt::PromptView>,
    pub storage_paused: bool,
    pub queue_paused: bool,
    pub compacting: bool,
    pub compact_request: Option<Seq<char>>,
    pub checkpoint: Option<Data>,
    pub rewind_request: Option<Seq<char>>,
    pub parent_session: Option<Seq<char>>,
    pub reasoning: Option<Seq<char>>,
    pub workspace: Option<WorkspaceView>,
    pub last_activity: Option<u64>,
    pub last_prompt_state: Option<Seq<char>>,
    pub model: Option<Seq<char>>,
    pub storage_warned: bool,
    pub handle: Option<Attached>,
    pub ready: bool,
    pub recovery_attempted: bool,
    pub close_request: Option<Seq<char>>,
    pub harness_pid: Option<u32>,
    pub usage_limited: bool,
    pub awake: Option<Awake>,
    pub releasing: bool,
}

impl View for Session {
    type V = SessionView;

    open spec fn view(&self) -> SessionView {
        self.snapshot()
    }
}

impl Session {
    /// The mathematical value, field by field.
    #[verifier::opaque]
    pub open spec fn snapshot(self) -> SessionView {
        SessionView {
            session_id: self.session_id@,
            teleport_output: self.teleport_output,
            harness: self.harness,
            word: self.word@,
            capabilities: self.capabilities@,
            native_cursor: self.native_cursor@,
            provider: opt(self.provider),
            native_id: opt(self.native_id),
            native_path: opt(self.native_path),
            native_offset: self.native_offset,
            state: self.state@,
            current_request: opt(self.current_request),
            current_turn: opt(self.current_turn),
            startup_error: opt(self.startup_error),
            startup_reason: opt(self.startup_reason),
            has_dispatched: self.has_dispatched,
            last_sequence: self.last_sequence,
            receipts: self.receipts@,
            queue: views(self.queue@),
            prompts: self.prompts@,
            storage_paused: self.storage_paused,
            queue_paused: self.queue_paused,
            compacting: self.compacting,
            compact_request: opt(self.compact_request),
            checkpoint: opt_data(self.checkpoint),
            rewind_request: opt(self.rewind_request),
            parent_session: opt(self.parent_session),
            reasoning: opt(self.reasoning),
            workspace: opt_workspace(self.workspace),
            last_activity: self.last_activity,
            last_prompt_state: opt(self.last_prompt_state),
            model: opt(self.model),
            storage_warned: self.storage_warned,
            handle: self.handle,
            ready: self.ready,
            recovery_attempted: self.recovery_attempted,
            close_request: opt(self.close_request),
            harness_pid: self.harness_pid,
            usage_limited: self.usage_limited,
            awake: self.awake,
            releasing: self.releasing,
        }
    }
}

/// A session of which nothing is recorded, in a given state.
pub open spec fn blank_session(id: Seq<char>, state: Seq<char>, word: Seq<char>) -> SessionView {
    SessionView {
        session_id: id,
        teleport_output: false,
        harness: Kind::Codex,
        word,
        capabilities: Data::Null,
        native_cursor: Data::Null,
        provider: None,
        native_id: None,
        native_path: None,
        native_offset: 0,
        state,
        current_request: None,
        current_turn: None,
        startup_error: None,
        startup_reason: None,
        has_dispatched: false,
        last_sequence: 0,
        receipts: Map::empty(),
        queue: Seq::empty(),
        prompts: Map::empty(),
        storage_paused: false,
        queue_paused: false,
        compacting: false,
        compact_request: None,
        checkpoint: None,
        rewind_request: None,
        parent_session: None,
        reasoning: None,
        workspace: None,
        last_activity: None,
        last_prompt_state: None,
        model: None,
        storage_warned: false,
        handle: None,
        ready: false,
        recovery_attempted: false,
        close_request: None,
        harness_pid: None,
        usage_limited: false,
        awake: None,
        releasing: false,
    }
}

impl Session {
    /// A session of which nothing is recorded, in a given state.
    pub fn blank(id: &str, state: &str, word: &str) -> (r: Session)
        ensures
            r@ == blank_session(id@, state@, word@),
    {
        let s = Session {
            session_id: id.to_owned(),
            teleport_output: false,
            harness: Kind::Codex,
            word: word.to_owned(),
            capabilities: Json::Null,
            native_cursor: Json::Null,
            provider: None,
            native_id: None,
            native_path: None,
            native_offset: 0,
            state: state.to_owned(),
            current_request: None,
            current_turn: None,
            startup_error: None,
            startup_reason: None,
            has_dispatched: false,
            last_sequence: 0,
            receipts: Table::new(),
            queue: Vec::new(),
            prompts: Table::new(),
            storage_paused: false,
            queue_paused: false,
            compacting: false,
            compact_request: None,
            checkpoint: None,
            rewind_request: None,
            parent_session: None,
            reasoning: None,
            workspace: None,
            last_activity: None,
            last_prompt_state: None,
            model: None,
            storage_warned: false,
            handle: None,
            ready: false,
            recovery_attempted: false,
            close_request: None,
            harness_pid: None,
            usage_limited: false,
            awake: None,
            releasing: false,
        };
        proof {
            reveal(Session::snapshot);
            assert(views(s.queue@) =~= Seq::<Seq<char>>::empty());
        }
        s
    }
}

} // verus!
