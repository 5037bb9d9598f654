//! The line protocol of claude_code: what is written to it, and what its lines mean.
use super::process::MAX_LINE;
use super::{
    append_events, events, json_result, maybe, no_events, one_event, push_event, push_maybe,
    record_event, ChildRequest, ChildView, Event, EventView, Progress, ProgressView,
};
use super::{begun, over};
use crate::fault::{other, refused, Fault, FaultView};
use crate::hex::{hex_number, hex_of, pad, padded};
use crate::json::{
    copy_json, no_json, object, opt_text, opt_uint, push_json, texts_among, texts_of, uint, values,
    Data, Json,
};
use crate::table::{in_order, Table};
use crate::text::{
    all_in, all_text_in, blank, byte_len, chars_of, concat, concat3, decimal, decimal_of, includes,
    is_blank, join, joined, number, opt, opt_slice, opt_str, parse_u64, push_string, same,
    same_opt, size, string_of, views, Class,
};
use crate::wire::{denoted, read_json, write_json, written};
use super::product::{label, label_of, Product};
use vstd::prelude::*;
use vstd::slice::slice_subrange;

verus! {

/// A message to the harness that it has not settled yet.
#[derive(Debug)]
pub struct UserCall {
    pub id: u64,
    pub kind: String,
}

/// The mathematical value of a message that is not settled.
pub struct UserCallView {
    pub id: u64,
    pub kind: Seq<char>,
}

impl View for UserCall {
    type V = UserCallView;

    open spec fn view(&self) -> UserCallView {
        UserCallView { id: self.id, kind: self.kind@ }
    }
}

/// The turn that runs: its message, and the request it answers.
#[derive(Debug)]
pub struct Active {
    pub wire: String,
    pub request: String,
}

/// The mathematical value of the turn that runs.
pub struct ActiveView {
    pub wire: Seq<char>,
    pub request: Seq<char>,
}

impl View for Active {
    type V = ActiveView;

    open spec fn view(&self) -> ActiveView {
        ActiveView { wire: self.wire@, request: self.request@ }
    }
}

/// The view of an optional turn.
pub open spec fn opt_active(active: Option<Active>) -> Option<ActiveView> {
    match active {
        Some(a) => Some(a@),
        None => None,
    }
}

/// An answer of the harness to a call.
#[derive(Debug)]
pub struct Reply {
    pub id: u64,
    pub value: Json,
    pub failed: bool,
}

/// The mathematical value of an answer.
pub struct ReplyView {
    pub id: u64,
    pub value: Data,
    pub failed: bool,
}

impl View for Reply {
    type V = ReplyView;

    open spec fn view(&self) -> ReplyView {
        ReplyView { id: self.id, value: self.value@, failed: self.failed }
    }
}

/// The view of an optional answer.
pub open spec fn opt_reply(reply: Option<Reply>) -> Option<ReplyView> {
    match reply {
        Some(r) => Some(r@),
        None => None,
    }
}

/// The state of the conversation with the harness.
#[derive(Debug)]
pub struct Protocol {
    pub native: String,
    pub namespace: String,
    /// The name of the product.
    pub name: String,
    /// The name of the harness in its records.
    pub label: String,
    pub active: Option<Active>,
    pub users: Table<UserCall>,
    /// Child sessions that the harness waits for, with the identities of its calls.
    pub children: Table<Json>,
    pub reply: Option<Reply>,
    pub frames: Vec<Json>,
    pub interrupting: bool,
    pub compacted: bool,
    pub bootstrapped: bool,
    pub close_confirmed: bool,
    pub last_failed: bool,
    pub message_id: String,
    pub blocks: Table<Json>,
    pub streamed: Vec<String>,
    pub tools: Table<String>,
}

/// The mathematical value of the state of the conversation.
pub struct ProtocolView {
    pub native: Seq<char>,
    pub namespace: Seq<char>,
    pub name: Seq<char>,
    pub label: Seq<char>,
    pub active: Option<ActiveView>,
    pub users: Map<Seq<char>, UserCallView>,
    pub children: Map<Seq<char>, Data>,
    pub reply: Option<ReplyView>,
    pub frames: Seq<Data>,
    pub interrupting: bool,
    pub compacted: bool,
    pub bootstrapped: bool,
    pub close_confirmed: bool,
    pub last_failed: bool,
    pub message_id: Seq<char>,
    pub blocks: Map<Seq<char>, Data>,
    pub streamed: Seq<Seq<char>>,
    pub tools: Map<Seq<char>, Seq<char>>,
}

impl View for Protocol {
    type V = ProtocolView;

    open spec fn view(&self) -> ProtocolView {
        ProtocolView {
            native: self.native@,
            namespace: self.namespace@,
            name: self.name@,
            label: self.label@,
            active: opt_active(self.active),
            users: self.users@,
            children: self.children@,
            reply: opt_reply(self.reply),
            frames: values(self.frames@),
            interrupting: self.interrupting,
            compacted: self.compacted,
            bootstrapped: self.bootstrapped,
            close_confirmed: self.close_confirmed,
            last_failed: self.last_failed,
            message_id: self.message_id@,
            blocks: self.blocks@,
            streamed: views(self.streamed@),
            tools: self.tools@,
        }
    }
}

/// A conversation in which nothing was said.
pub open spec fn opened(
    native: Seq<char>,
    namespace: Seq<char>,
    name: Seq<char>,
    word: Seq<char>,
) -> ProtocolView {
    ProtocolView {
        native,
        namespace,
        name,
        label: label_of(word),
        active: None,
        users: Map::empty(),
        children: Map::empty(),
        reply: None,
        frames: Seq::empty(),
        interrupting: false,
        compacted: false,
        bootstrapped: false,
        close_confirmed: false,
        last_failed: false,
        message_id: Seq::empty(),
        blocks: Map::empty(),
        streamed: Seq::empty(),
        tools: Map::empty(),
    }
}

impl Protocol {
    /// A conversation in which nothing was said, with the identity of the session and a namespace
    /// for the identities of messages.
    pub fn new(native: &str, namespace: &str, product: &Product) -> (r: Protocol)
        ensures
            r@ == opened(native@, namespace@, product.name@, product.word@),
    {
        let streamed: Vec<String> = Vec::new();
        assert(views(streamed@) =~= Seq::<Seq<char>>::empty());
        Protocol {
            native: native.to_owned(),
            namespace: namespace.to_owned(),
            name: product.name.clone(),
            label: label(product.word.as_str()),
            active: None,
            users: Table::new(),
            children: Table::new(),
            reply: None,
            frames: no_json(),
            interrupting: false,
            compacted: false,
            bootstrapped: false,
            close_confirmed: false,
            last_failed: false,
            message_id: String::new(),
            blocks: Table::new(),
            streamed,
            tools: Table::new(),
        }
    }
}

// What is written to the harness.

/// The answer to a control request.
pub open spec fn control_reply(id: Seq<char>, response: Data) -> Data {
    Data::Object(
        map![
            "type"@ => Data::Text("control_response"@),
            "response"@ => Data::Object(
                map![
                    "subtype"@ => Data::Text("success"@),
                    "request_id"@ => Data::Text(id),
                    "response"@ => response
                ],
            )
        ],
    )
}

fn reply_control(id: &str, response: Json) -> (r: Json)
    ensures
        r@ == control_reply(id@, response@),
{
    Json::Object(
        object().with_text("type", "control_response").with(
            "response",
            Json::Object(
                object().with_text("subtype", "success").with_text("request_id", id).with(
                    "response",
                    response,
                ),
            ),
        ),
    )
}

/// A message of the user to the harness.
pub open spec fn user_frame(wire: Seq<char>, native: Seq<char>, content: Data, silent: bool) -> Data {
    Data::Object(
        map![
            "type"@ => Data::Text("user"@),
            "uuid"@ => Data::Text(wire),
            "session_id"@ => Data::Text(native),
            "parent_tool_use_id"@ => Data::Null,
            "message"@ => Data::Object(
                map!["role"@ => Data::Text("user"@), "content"@ => content],
            ),
            "isSynthetic"@ => Data::Bool(silent),
            "shouldQuery"@ => Data::Bool(!silent)
        ],
    )
}

fn frame_user(wire: &str, native: &str, content: Json, silent: bool) -> (r: Json)
    ensures
        r@ == user_frame(wire@, native@, content@, silent),
{
    Json::Object(
        object().with_text("type", "user").with_text("uuid", wire).with_text(
            "session_id",
            native,
        ).with("parent_tool_use_id", Json::Null).with(
            "message",
            Json::Object(object().with_text("role", "user").with("content", content)),
        ).with("isSynthetic", Json::Bool(silent)).with("shouldQuery", Json::Bool(!silent)),
    )
}

/// The frame of a prompt fits into a line.
pub open spec fn frame_fits(native: Seq<char>, namespace: Seq<char>, content: Data) -> bool {
    byte_len(written(user_frame(namespace, native, content, false))) + 1 <= MAX_LINE
}

/// Methods that are sent as messages.
pub open spec fn is_message(method: Seq<char>) -> bool {
    ||| method == "prompt"@
    ||| method == "bootstrap"@
    ||| method == "notice"@
    ||| method == "compact"@
}

/// Messages that the model is not asked about.
pub open spec fn is_silent(method: Seq<char>) -> bool {
    method == "notice"@ || method == "bootstrap"@
}

/// The identity of a message: the namespace, with the number of the call in it.
pub open spec fn message_wire(namespace: Seq<char>, id: u64) -> Seq<char> {
    namespace.take(24) + padded(hex_number(id as nat), 12)
}

/// What a message says.
pub open spec fn message_content(params: Data) -> Data {
    match params.get("content"@) {
        Some(content) => content,
        None => params.field("text"@),
    }
}

/// The state after a message, which may begin a turn.
pub open spec fn messaged(
    p: ProtocolView,
    id: u64,
    method: Seq<char>,
    request: Option<Seq<char>>,
) -> ProtocolView {
    let wire = message_wire(p.namespace, id);
    let sent = ProtocolView { users: p.users.insert(wire, UserCallView { id, kind: method }), ..p };
    let begun = match request {
        Some(request) => ProtocolView {
            active: Some(ActiveView { wire, request }),
            interrupting: false,
            blocks: Map::empty(),
            streamed: Seq::empty(),
            tools: Map::empty(),
            ..sent
        },
        None => sent,
    };
    if method == "compact"@ {
        ProtocolView { compacted: false, ..begun }
    } else {
        begun
    }
}

/// The result of a child session, as the harness gets it.
pub open spec fn child_answer(params: Data, rpc: Data) -> Data {
    Data::Object(
        map![
            "mcp_response"@ => Data::Object(
                map![
                    "jsonrpc"@ => Data::Text("2.0"@),
                    "id"@ => rpc,
                    "result"@ => Data::Object(
                        map![
                            "isError"@ => Data::Bool(params.get("error"@) is Some),
                            "content"@ => Data::Array(
                                seq![
                                    Data::Object(
                                        map![
                                            "type"@ => Data::Text("text"@),
                                            "text"@ => Data::Text(written(params))
                                        ],
                                    ),
                                ],
                            )
                        ],
                    )
                ],
            )
        ],
    )
}

/// The child session that a result is of, if the harness waits for it.
pub open spec fn waiting_child(p: ProtocolView, params: Data) -> Option<Seq<char>> {
    match params.field("id"@).as_text() {
        Some(wire) => if p.children.contains_key(wire) {
            Some(wire)
        } else {
            None
        },
        None => None,
    }
}

/// The state after a call, and the frame that is written.
pub open spec fn encoded(
    p: ProtocolView,
    id: u64,
    method: Seq<char>,
    params: Data,
    request: Option<Seq<char>>,
) -> (ProtocolView, Data) {
    if is_message(method) {
        (
            messaged(p, id, method, request),
            user_frame(
                message_wire(p.namespace, id),
                p.native,
                message_content(params),
                is_silent(method),
            ),
        )
    } else {
        let q = ProtocolView { interrupting: p.interrupting || method == "interrupt"@, ..p };
        if method == "child_result"@ && waiting_child(q, params) is Some {
            let wire = waiting_child(q, params)->0;
            (
                ProtocolView {
                    children: q.children.remove(wire),
                    users: q.users.insert(wire, UserCallView { id, kind: "child_result"@ }),
                    ..q
                },
                control_reply(wire, child_answer(params, q.children[wire])),
            )
        } else {
            (
                q,
                Data::Object(
                    map![
                        "type"@ => Data::Text("control_request"@),
                        "request_id"@ => Data::Text(decimal(id as nat)),
                        "request"@ => params.with("subtype"@, Data::Text(method))
                    ],
                ),
            )
        }
    }
}

fn answer_child(params: &Json, rpc: Json) -> (r: Json)
    ensures
        r@ == child_answer(params@, rpc@),
{
    let text = write_json(params);
    let content = Json::one(
        Json::Object(object().with_text("type", "text").with_text("text", text.as_str())),
    );
    let result = object().with("isError", Json::Bool(params.get("error").is_some())).with(
        "content",
        content,
    );
    Json::Object(
        object().with(
            "mcp_response",
            Json::Object(
                object().with_text("jsonrpc", "2.0").with("id", rpc).with(
                    "result",
                    Json::Object(result),
                ),
            ),
        ),
    )
}

impl Protocol {
    /// Refuses a prompt whose frame is too long for a line.
    pub fn validate(&self, method: &str, params: &Json) -> (r: Result<(), Fault>)
        ensures
            match r {
                Ok(()) => method@ == "prompt"@ ==> frame_fits(
                    self@.native,
                    self@.namespace,
                    params@.field("content"@),
                ),
                Err(f) => method@ == "prompt"@ && !frame_fits(
                    self@.native,
                    self@.namespace,
                    params@.field("content"@),
                ) && f@ == refused(self@.name + " prompt exceeds the native frame limit"@),
            },
    {
        if same(method, "prompt") {
            let frame = frame_user(
                self.namespace.as_str(),
                self.native.as_str(),
                params.field("content").duplicate(),
                false,
            );
            let text = write_json(&frame);
            if size(text.as_str()) >= MAX_LINE {
                return Err(
                    Fault::refused(
                        concat(
                            self.name.as_str(),
                            " prompt exceeds the native frame limit",
                        ).as_str(),
                    ),
                );
            }
        }
        Ok(())
    }

    fn message(&mut self, id: u64, method: &str, wire: &str, request: Option<&str>)
        requires
            wire@ == message_wire(old(self)@.namespace, id),
        ensures
            final(self)@ == messaged(old(self)@, id, method@, opt_str(request)),
    {
        self.users.insert(wire, UserCall { id, kind: method.to_owned() });
        if let Some(request) = request {
            self.active = Some(Active { wire: wire.to_owned(), request: request.to_owned() });
            self.interrupting = false;
            self.blocks = Table::new();
            self.streamed = Vec::new();
            assert(views(self.streamed@) =~= Seq::<Seq<char>>::empty());
            self.tools = Table::new();
        }
        if same(method, "compact") {
            self.compacted = false;
        }
    }

    /// The frame of a call.
    pub fn encode(&mut self, id: u64, method: &str, params: Json, request: Option<&str>) -> (r: Json)
        requires
            old(self)@.namespace.len() >= 24,
            params@.takes_fields(),
        ensures
            (final(self)@, r@) == encoded(old(self)@, id, method@, params@, opt_str(request)),
    {
        if same(method, "prompt") || same(method, "bootstrap") || same(method, "notice") || same(
            method,
            "compact",
        ) {
            let chars = chars_of(self.namespace.as_str());
            let prefix = string_of(slice_subrange(chars.as_slice(), 0, 24));
            let number = pad(hex_of(id).as_str(), 12);
            let wire = concat(prefix.as_str(), number.as_str());
            assert(wire@ =~= message_wire(self@.namespace, id));
            let content = match params.get("content") {
                Some(content) => content.duplicate(),
                None => params.field("text").duplicate(),
            };
            self.message(id, method, wire.as_str(), request);
            let silent = same(method, "notice") || same(method, "bootstrap");
            return frame_user(wire.as_str(), self.native.as_str(), content, silent);
        }
        if same(method, "interrupt") {
            self.interrupting = true;
        }
        if same(method, "child_result") {
            if let Some(wire) = params.field_text("id") {
                if let Some(rpc) = self.children.remove(wire) {
                    self.users.insert(wire, UserCall { id, kind: "child_result".to_owned() });
                    return reply_control(wire, answer_child(&params, rpc));
                }
            }
        }
        let mut body = params;
        body.put("subtype", Json::text(method));
        Json::Object(
            object().with_text("type", "control_request").with_text(
                "request_id",
                decimal_of(id).as_str(),
            ).with("request", body),
        )
    }
}

// Calls of the harness.

/// What the tools say of themselves.
pub open spec fn tool_list() -> Data {
    Data::Object(
        map![
            "tools"@ => Data::Array(
                seq![
                    Data::Object(
                        map![
                            "name"@ => Data::Text("delegate"@),
                            "description"@ => Data::Text(
                                "Run a separately managed Cloudroom child agent in this workspace. Returns its result and session ID. The child has independent history and controls."@,
                            ),
                            "inputSchema"@ => Data::Object(
                                map![
                                    "type"@ => Data::Text("object"@),
                                    "properties"@ => Data::Object(
                                        map![
                                            "prompt"@ => Data::Object(
                                                map![
                                                    "type"@ => Data::Text("string"@),
                                                    "minLength"@ => uint(1),
                                                    "maxLength"@ => uint(32768)
                                                ],
                                            )
                                        ],
                                    ),
                                    "required"@ => Data::Array(seq![Data::Text("prompt"@)]),
                                    "additionalProperties"@ => Data::Bool(false)
                                ],
                            )
                        ],
                    ),
                ],
            )
        ],
    )
}

fn list_tools() -> (r: Json)
    ensures
        r@ == tool_list(),
{
    let prompt = object().with_text("type", "string").with("minLength", Json::uint(1)).with(
        "maxLength",
        Json::uint(32768),
    );
    let schema = object().with_text("type", "object").with(
        "properties",
        Json::Object(object().with("prompt", Json::Object(prompt))),
    ).with("required", Json::one(Json::text("prompt"))).with(
        "additionalProperties",
        Json::Bool(false),
    );
    let tool = object().with_text("name", "delegate").with_text(
        "description",
        "Run a separately managed Cloudroom child agent in this workspace. Returns its result and session ID. The child has independent history and controls.",
    ).with("inputSchema", Json::Object(schema));
    Json::Object(object().with("tools", Json::one(Json::Object(tool))))
}

/// What the server of the tools says of itself.
pub open spec fn server_info() -> Data {
    Data::Object(
        map![
            "protocolVersion"@ => Data::Text("2024-11-05"@),
            "capabilities"@ => Data::Object(map!["tools"@ => Data::Object(Map::empty())]),
            "serverInfo"@ => Data::Object(
                map![
                    "name"@ => Data::Text("cloudroom"@),
                    "version"@ => Data::Text(crate::version_text())
                ],
            )
        ],
    )
}

fn tell_server() -> (r: Json)
    ensures
        r@ == server_info(),
{
    Json::Object(
        object().with_text("protocolVersion", "2024-11-05").with(
            "capabilities",
            Json::Object(object().with("tools", Json::Object(object()))),
        ).with(
            "serverInfo",
            Json::Object(
                object().with_text("name", "cloudroom").with_text("version", crate::version()),
            ),
        ),
    )
}

/// A failed call of a tool.
pub open spec fn tool_error(text: Seq<char>) -> Data {
    Data::Object(
        map![
            "isError"@ => Data::Bool(true),
            "content"@ => Data::Array(
                seq![
                    Data::Object(
                        map!["type"@ => Data::Text("text"@), "text"@ => Data::Text(text)],
                    ),
                ],
            )
        ],
    )
}

fn fail_tool(text: &str) -> (r: Json)
    ensures
        r@ == tool_error(text@),
{
    Json::Object(
        object().with("isError", Json::Bool(true)).with(
            "content",
            Json::one(Json::Object(object().with_text("type", "text").with_text("text", text))),
        ),
    )
}

/// An identity that a control request may have.
pub open spec fn control_identity(wire: Seq<char>) -> bool {
    byte_len(wire) <= 48 && wire.len() > 0 && all_in(wire, Class::Alnum, "-"@)
}

/// The prompt of a delegation, if it is one that may be delegated.
pub open spec fn delegated_prompt(message: Data) -> Option<Seq<char>> {
    match message.field("params"@).field("arguments"@).field("prompt"@).as_text() {
        Some(prompt) => if !blank(prompt) && byte_len(prompt) <= 32768 {
            Some(prompt)
        } else {
            None
        },
        None => None,
    }
}

/// The request that a delegation is part of: the turn must still run.
pub open spec fn delegating(p: ProtocolView, s: ProgressView) -> Option<Seq<char>> {
    match p.active {
        Some(active) => if s.request == Some(active.request) && !s.finished {
            Some(active.request)
        } else {
            None
        },
        None => None,
    }
}

/// A call of a tool that is answered at once.
pub open spec fn tool_result(message: Data) -> Data {
    match message.field("method"@).as_text() {
        Some(method) => if method == "initialize"@ {
            server_info()
        } else if method == "notifications/initialized"@ {
            Data::Object(Map::empty())
        } else if method == "tools/list"@ {
            tool_list()
        } else if is_delegation(message) {
            tool_error(
                "Delegation requires an active parent and a non-empty prompt of at most 32768 bytes."@,
            )
        } else {
            tool_error("Unsupported Cloudroom tool operation"@)
        },
        None => tool_error("Unsupported Cloudroom tool operation"@),
    }
}

/// The harness asks for a child session.
pub open spec fn is_delegation(message: Data) -> bool {
    message.field("method"@).is_text("tools/call"@) && message.field("params"@).field(
        "name"@,
    ).is_text("delegate"@)
}

/// The answer to a call of a tool. A notification is answered by nothing in particular.
pub open spec fn tool_response(message: Data) -> Data {
    Data::Object(
        map![
            "mcp_response"@ => match message.get("id"@) {
                Some(id) => Data::Object(
                    map![
                        "jsonrpc"@ => Data::Text("2.0"@),
                        "id"@ => id,
                        "result"@ => tool_result(message)
                    ],
                ),
                None => Data::Object(Map::empty()),
            }
        ],
    )
}

/// The state after a call of a tool, and what is told of it.
pub open spec fn tool_called(p: ProtocolView, s: ProgressView, value: Data) -> (
    ProtocolView,
    Result<Seq<EventView>, FaultView>,
) {
    let message = value.field("request"@).field("message"@);
    match value.field("request_id"@).as_text() {
        None => (p, Err(other("missing "@ + p.name + " control identity"@))),
        Some(wire) => if !control_identity(wire) {
            (p, Err(other("invalid "@ + p.name + " control identity"@)))
        } else if is_delegation(message) && delegated_prompt(message) is Some && delegating(
            p,
            s,
        ) is Some {
            if p.children.contains_key(wire) {
                (p, Ok(Seq::empty()))
            } else {
                (
                    ProtocolView {
                        children: p.children.insert(wire, message.field("id"@)),
                        ..p
                    },
                    Ok(
                        seq![
                            EventView::ChildRequest(
                                ChildView {
                                    request: delegating(p, s)->0,
                                    id: wire,
                                    tool_call_id: wire,
                                    prompt: delegated_prompt(message)->0,
                                },
                            ),
                        ],
                    ),
                )
            }
        } else {
            (
                ProtocolView {
                    frames: p.frames.push(control_reply(wire, tool_response(message))),
                    ..p
                },
                Ok(Seq::empty()),
            )
        },
    }
}

fn result_of_tool(message: &Json) -> (r: Json)
    ensures
        r@ == tool_result(message@),
{
    match message.field_text("method") {
        Some(method) => if same(method, "initialize") {
            tell_server()
        } else if same(method, "notifications/initialized") {
            Json::Object(object())
        } else if same(method, "tools/list") {
            list_tools()
        } else if same(method, "tools/call") && message.field("params").field_is(
            "name",
            "delegate",
        ) {
            fail_tool(
                "Delegation requires an active parent and a non-empty prompt of at most 32768 bytes.",
            )
        } else {
            fail_tool("Unsupported Cloudroom tool operation")
        },
        None => fail_tool("Unsupported Cloudroom tool operation"),
    }
}

fn respond_tool(message: &Json) -> (r: Json)
    ensures
        r@ == tool_response(message@),
{
    let response = match message.get("id") {
        Some(id) => Json::Object(
            object().with_text("jsonrpc", "2.0").with("id", id.duplicate()).with(
                "result",
                result_of_tool(message),
            ),
        ),
        None => Json::Object(object()),
    };
    Json::Object(object().with("mcp_response", response))
}

fn prompt_of(message: &Json) -> (r: Option<String>)
    ensures
        opt(r) == delegated_prompt(message@),
{
    match message.field("params").field("arguments").field_text("prompt") {
        Some(prompt) => if !is_blank(prompt) && size(prompt) <= 32768 {
            Some(prompt.to_owned())
        } else {
            None
        },
        None => None,
    }
}

/// The result of reading a line, as a mathematical value.
pub open spec fn events_result(r: Result<Vec<Event>, Fault>) -> Result<
    Seq<EventView>,
    FaultView,
> {
    match r {
        Ok(list) => Ok(events(list@)),
        Err(f) => Err(f@),
    }
}

impl Protocol {
    fn delegating(&self, state: &Progress) -> (r: Option<String>)
        ensures
            opt(r) == delegating(self@, state@),
    {
        match &self.active {
            Some(active) => if same_opt(opt_slice(&state.request), Some(active.request.as_str()))
                && !state.finished {
                Some(active.request.clone())
            } else {
                None
            },
            None => None,
        }
    }

    /// A call of one of the library's tools.
    pub fn mcp(&mut self, value: &Json, state: &Progress) -> (r: Result<Vec<Event>, Fault>)
        ensures
            (final(self)@, events_result(r)) == tool_called(old(self)@, state@, value@),
    {
        let wire = match value.field_text("request_id") {
            Some(wire) => wire,
            None => {
                return Err(
                    Fault::other(
                        concat3("missing ", self.name.as_str(), " control identity").as_str(),
                    ),
                );
            },
        };
        proof {
            if wire@.len() == 0 {
                assert(wire@ =~= Seq::empty());
            }
        }
        if size(wire) > 48 || chars_of(wire).len() == 0 || !all_text_in(wire, Class::Alnum, "-") {
            return Err(
                Fault::other(concat3("invalid ", self.name.as_str(), " control identity").as_str()),
            );
        }
        let message = value.field("request").field("message");
        if message.field_is("method", "tools/call") && message.field("params").field_is(
            "name",
            "delegate",
        ) {
            if let Some(prompt) = prompt_of(message) {
                if let Some(request) = self.delegating(state) {
                    if self.children.contains(wire) {
                        return Ok(no_events());
                    }
                    self.children.insert(wire, message.field("id").duplicate());
                    return Ok(
                        one_event(
                            Event::ChildRequest(
                                ChildRequest {
                                    request,
                                    id: wire.to_owned(),
                                    tool_call_id: wire.to_owned(),
                                    prompt,
                                },
                            ),
                        ),
                    );
                }
            }
        }
        push_json(&mut self.frames, reply_control(wire, respond_tool(message)));
        Ok(no_events())
    }
}

// Lines of the harness.

/// The state after a control request, and what is told of it.
pub open spec fn control_asked(p: ProtocolView, s: ProgressView, value: Data) -> (
    ProtocolView,
    Result<Seq<EventView>, FaultView>,
) {
    let request = value.field("request"@);
    if request.field("subtype"@).is_text("mcp_message"@) && request.field("server_name"@).is_text(
        "cloudroom"@,
    ) {
        tool_called(p, s, value)
    } else {
        match value.field("request_id"@).as_text() {
            None => (p, Err(other("missing "@ + p.name + " control identity"@))),
            Some(id) => (
                ProtocolView {
                    frames: p.frames.push(
                        control_reply(
                            id,
                            if request.field("subtype"@).is_text("hook_callback"@) {
                                Data::Object(
                                    map![
                                        "continue"@ => Data::Bool(false),
                                        "stopReason"@ => Data::Text(
                                            "Native "@ + p.name
                                                + " subagents are disabled. Use mcp__cloudroom__delegate for a managed child session."@,
                                        )
                                    ],
                                )
                            } else {
                                Data::Object(
                                    map![
                                        "behavior"@ => Data::Text("deny"@),
                                        "message"@ => Data::Text(
                                            "Interactive requests are unsupported. Ask the user in ordinary chat."@,
                                        )
                                    ],
                                )
                            },
                        ),
                    ),
                    ..p
                },
                Ok(
                    seq![
                        record_event(
                            "interaction_cancelled"@,
                            Data::Object(
                                map![
                                    "harness"@ => Data::Text(p.label),
                                    "reason"@ => Data::Text("native interaction unsupported"@)
                                ],
                            ),
                        ),
                    ],
                ),
            ),
        }
    }
}

/// The call that an answer is to: by its number, or by the message it settles.
pub open spec fn answered_call(p: ProtocolView, wire: Seq<char>) -> (ProtocolView, Option<u64>) {
    match number(wire, u64::MAX as nat) {
        Some(n) => (p, Some(n as u64)),
        None => if p.users.contains_key(wire) {
            (ProtocolView { users: p.users.remove(wire), ..p }, Some(p.users[wire].id))
        } else {
            (p, None)
        },
    }
}

/// The state after an answer to a control request.
pub open spec fn control_answered(p: ProtocolView, response: Data) -> ProtocolView {
    match response.field("request_id"@).as_text() {
        None => p,
        Some(wire) => {
            let (q, id) = answered_call(p, wire);
            match id {
                None => q,
                Some(id) => ProtocolView {
                    reply: Some(
                        ReplyView {
                            id,
                            value: response.field("response"@),
                            failed: !response.field("subtype"@).is_text("success"@),
                        },
                    ),
                    ..q
                },
            }
        },
    }
}

/// Why the first line of a session is refused: the harness must have the capabilities and the
/// permissions that the session was started for.
pub open spec fn init_refused(value: Data, product: Seq<char>) -> Option<Seq<char>> {
    match value.field("capabilities"@).as_array() {
        None => Some(product + " CLI lacks required capabilities"@),
        Some(caps) => if !caps.contains(Data::Text("msg_lifecycle_v1"@)) || !caps.contains(
            Data::Text("interrupt_cancel_queued_v1"@),
        ) {
            Some(product + " CLI lacks request lifecycle or queue cancellation support"@)
        } else if !value.field("permissionMode"@).is_text("bypassPermissions"@) || value.field(
            "fast_mode_state"@,
        ).is_text("on"@) {
            Some(
                product + " launch permissions or Fast mode differ from the requested configuration"@,
            )
        } else {
            None
        },
    }
}

/// Why a line is refused.
pub open spec fn line_refused(p: ProtocolView, kind: Seq<char>, value: Data) -> Option<Seq<char>> {
    if value.field("parent_tool_use_id"@) is Text {
        Some("unmanaged "@ + p.name + " subagent emitted output"@)
    } else if value.field("session_id"@) is Text && !value.field("session_id"@).is_text(p.native) {
        Some(p.name + " session identity changed"@)
    } else if is_init(kind, value) {
        init_refused(value, p.name)
    } else {
        None
    }
}

/// The first line of a session.
pub open spec fn is_init(kind: Seq<char>, value: Data) -> bool {
    kind == "system"@ && value.field("subtype"@).is_text("init"@)
}

/// The progress after the first line of a session.
pub open spec fn introduced(p: ProtocolView, s: ProgressView, kind: Seq<char>, value: Data) -> ProgressView {
    if is_init(kind, value) {
        ProgressView { native: Some(p.native), model: value.field("model"@).as_text(), ..s }
    } else {
        s
    }
}

/// The message that a line tells the lifecycle of, if it is not settled.
pub open spec fn lifecycle_call(p: ProtocolView, kind: Seq<char>, value: Data) -> Option<Seq<char>> {
    match value.field("command_uuid"@).as_text() {
        Some(wire) => if kind == "command_lifecycle"@ && p.users.contains_key(wire) {
            Some(wire)
        } else {
            None
        },
        None => None,
    }
}

/// The answer to a message, where its lifecycle gives one.
pub open spec fn lifecycle_reply(p: ProtocolView, kind: Seq<char>, value: Data) -> ProtocolView {
    match lifecycle_call(p, kind, value) {
        None => p,
        Some(wire) => {
            let state = value.field("state"@);
            if p.users[wire].kind != "bootstrap"@ && (state.is_text("queued"@) || state.is_text(
                "rejected"@,
            ) || state.is_text("cancelled"@)) {
                ProtocolView {
                    reply: Some(
                        ReplyView {
                            id: p.users[wire].id,
                            value: Data::Null,
                            failed: !state.is_text("queued"@),
                        },
                    ),
                    ..p
                }
            } else {
                p
            }
        },
    }
}

/// The line tells that the turn begins.
pub open spec fn turn_begins(p: ProtocolView, kind: Seq<char>, value: Data) -> bool {
    match lifecycle_call(p, kind, value) {
        None => false,
        Some(wire) => value.field("state"@).is_text("started"@) && match p.active {
            Some(active) => active.wire == wire,
            None => false,
        },
    }
}

/// The progress and what is told when a turn may begin.
pub open spec fn turn_begun(p: ProtocolView, s: ProgressView, kind: Seq<char>, value: Data) -> (
    ProgressView,
    Seq<EventView>,
) {
    if turn_begins(p, kind, value) {
        let (t, started) = begun(s);
        (
            t,
            maybe(started).push(
                record_event(
                    "checkpoint"@,
                    Data::Object(
                        map![
                            "kind"@ => Data::Text("message"@),
                            "id"@ => value.field("command_uuid"@),
                            "request_id"@ => opt_text(t.request)
                        ],
                    ),
                ),
            ),
        )
    } else {
        (s, Seq::empty())
    }
}

/// The request of the turn that runs.
pub open spec fn active_request(p: ProtocolView) -> Option<Seq<char>> {
    match p.active {
        Some(active) => Some(active.request),
        None => None,
    }
}

/// A line as it is recorded, before anything is known of it.
pub open spec fn line_data(p: ProtocolView, kind: Seq<char>) -> Data {
    Data::Object(
        map![
            "harness"@ => Data::Text(p.label),
            "type"@ => Data::Text(kind),
            "request_id"@ => opt_text(active_request(p))
        ],
    )
}

/// The identity of a block of content: its own, or its place in the message.
pub open spec fn block_id(block: Data, message: Seq<char>, index: nat) -> Seq<char> {
    match block.field("id"@).as_text() {
        Some(id) => id,
        None => message + ":"@ + decimal(index),
    }
}

/// The tools with one more block of content: tools are known by their names.
pub open spec fn tool_named(
    tools: Map<Seq<char>, Seq<char>>,
    id: Seq<char>,
    block: Data,
) -> Map<Seq<char>, Seq<char>> {
    match block.field("name"@).as_text() {
        Some(name) => tools.insert(id, name),
        None => tools,
    }
}

/// The text that a change adds to a block.
pub open spec fn delta_text(delta: Data) -> Seq<char> {
    match delta.get("text"@) {
        Some(t) => t.text_or_empty(),
        None => match delta.get("thinking"@) {
            Some(t) => t.text_or_empty(),
            None => match delta.get("partial_json"@) {
                Some(t) => t.text_or_empty(),
                None => Seq::empty(),
            },
        },
    }
}

/// What a line of the stream comes to: the state, the record, and the kind of the record.
pub struct Streamed {
    pub state: ProtocolView,
    pub data: Data,
    pub kind: Seq<char>,
}

/// A block of content begins.
pub open spec fn block_started(p: ProtocolView, event: Data, data: Data, index: u64) -> Streamed {
    let block = event.field("content_block"@);
    let id = block_id(block, p.message_id, index as nat);
    let told = data.with("item_id"@, Data::Text(id)).with("item_type"@, block.field("type"@)).with(
        "tool_name"@,
        block.field("name"@),
    ).with("input"@, block.field("input"@)).with("text"@, Data::Text(Seq::empty()));
    Streamed {
        state: ProtocolView {
            tools: tool_named(p.tools, id, block),
            blocks: p.blocks.insert(decimal(index as nat), told),
            ..p
        },
        data: told,
        kind: if block.field("type"@).is_text("tool_use"@) {
            "native_event"@
        } else {
            "item_started"@
        },
    }
}

/// A block of content grows. A block must not grow beyond the limit of a line.
pub open spec fn block_grown(p: ProtocolView, event: Data, data: Data, index: u64) -> Option<
    Streamed,
> {
    let key = decimal(index as nat);
    let delta = event.field("delta"@);
    let kind = if delta.field("type"@).is_text("text_delta"@) {
        "text_delta"@
    } else if delta.field("type"@).is_text("thinking_delta"@) {
        "thinking_delta"@
    } else {
        "native_event"@
    };
    if p.blocks.contains_key(key) {
        let block = p.blocks[key];
        let text = delta_text(delta);
        let before = block.field("text"@).text_or_empty();
        if byte_len(before) + byte_len(text) > MAX_LINE {
            None
        } else {
            Some(
                Streamed {
                    state: ProtocolView {
                        blocks: p.blocks.insert(
                            key,
                            block.with("text"@, Data::Text(before + text)),
                        ),
                        ..p
                    },
                    data: data.with("item_id"@, block.field("item_id"@)).with(
                        "item_type"@,
                        block.field("item_type"@),
                    ).with("delta"@, Data::Text(text)),
                    kind,
                },
            )
        }
    } else {
        Some(Streamed { state: p, data, kind })
    }
}

/// A block of content ends. The input of a tool is then complete.
pub open spec fn block_stopped(p: ProtocolView, data: Data, index: u64) -> Streamed {
    let key = decimal(index as nat);
    if p.blocks.contains_key(key) {
        let block = p.blocks[key];
        let state = ProtocolView { blocks: p.blocks.remove(key), ..p };
        if block.field("item_type"@).is_text("tool_use"@) {
            Streamed {
                state,
                data: match denoted(block.field("text"@).text_or_empty()) {
                    Some(input) => block.with("input"@, input),
                    None => block,
                },
                kind: "item_started"@,
            }
        } else {
            Streamed { state, data: block, kind: "item_completed"@ }
        }
    } else {
        Streamed { state: p, data, kind: "native_event"@ }
    }
}

/// What a line comes to as part of the stream.
pub open spec fn streamed(p: ProtocolView, kind: Seq<char>, value: Data, data: Data) -> Option<
    Streamed,
> {
    let event = value.field("event"@);
    let index = match event.field("index"@).as_u64() {
        Some(n) => n,
        None => 0,
    };
    let step = event.field("type"@);
    if kind != "stream_event"@ {
        Some(Streamed { state: p, data, kind: "native_event"@ })
    } else if step.is_text("message_start"@) {
        let id = event.field("message"@).field("id"@).text_or_empty();
        Some(
            Streamed {
                state: ProtocolView {
                    blocks: Map::empty(),
                    message_id: id,
                    streamed: p.streamed.push(id),
                    ..p
                },
                data,
                kind: "native_event"@,
            },
        )
    } else if step.is_text("content_block_start"@) {
        Some(block_started(p, event, data, index))
    } else if step.is_text("content_block_delta"@) {
        block_grown(p, event, data, index)
    } else if step.is_text("content_block_stop"@) {
        Some(block_stopped(p, data, index))
    } else {
        Some(Streamed { state: p, data, kind: "native_event"@ })
    }
}

/// The texts of blocks of content.
pub open spec fn block_texts(content: Seq<Data>) -> Seq<Seq<char>>
    decreases content.len(),
{
    if content.len() == 0 {
        Seq::empty()
    } else {
        match content.last().field("text"@) {
            Data::Text(t) => block_texts(content.drop_last()).push(t),
            _ => block_texts(content.drop_last()),
        }
    }
}

/// A block of a whole message, as it is recorded.
pub open spec fn block_data(
    label: Seq<char>,
    block: Data,
    id: Seq<char>,
    request: Option<Seq<char>>,
) -> Data {
    Data::Object(
        map![
            "harness"@ => Data::Text(label),
            "request_id"@ => opt_text(request),
            "item_id"@ => Data::Text(id),
            "item_type"@ => block.field("type"@),
            "text"@ => match block.get("text"@) {
                Some(t) => t,
                None => block.field("thinking"@),
            },
            "tool_name"@ => block.field("name"@),
            "input"@ => block.field("input"@)
        ],
    )
}

/// The tools, and what is told, of the blocks of a message that was not streamed.
pub open spec fn whole_message(
    label: Seq<char>,
    tools: Map<Seq<char>, Seq<char>>,
    content: Seq<Data>,
    message: Seq<char>,
    request: Option<Seq<char>>,
) -> (Map<Seq<char>, Seq<char>>, Seq<EventView>)
    decreases content.len(),
{
    if content.len() == 0 {
        (tools, Seq::empty())
    } else {
        let (known, told) = whole_message(label, tools, content.drop_last(), message, request);
        let block = content.last();
        let id = block_id(block, message, (content.len() - 1) as nat);
        let part = block_data(label, block, id, request);
        let started = told.push(record_event("item_started"@, part));
        (
            tool_named(known, id, block),
            if block.field("type"@).is_text("tool_use"@) {
                started
            } else {
                started.push(record_event("item_completed"@, part))
            },
        )
    }
}

/// A text or, where it is empty, the one before.
pub open spec fn said(s: ProgressView, text: Seq<char>) -> ProgressView {
    if text.len() > 0 {
        ProgressView { last_text: text, ..s }
    } else {
        s
    }
}

/// The state, the progress and what is told after a message of the assistant.
pub open spec fn assistant_spoke(
    p: ProtocolView,
    s: ProgressView,
    kind: Seq<char>,
    value: Data,
) -> (ProtocolView, ProgressView, Seq<EventView>) {
    let message = value.field("message"@);
    match message.field("content"@).as_array() {
        Some(content) => if kind != "assistant"@ {
            (p, s, Seq::empty())
        } else {
            let t = said(s, joined(block_texts(content), "\n"@));
            if p.streamed.contains(message.field("id"@).text_or_empty()) {
                (p, t, Seq::empty())
            } else {
                let name = match message.field("id"@).as_text() {
                    Some(id) => id,
                    None => "message"@,
                };
                let (tools, told) = whole_message(
                    p.label,
                    p.tools,
                    content,
                    name,
                    active_request(p),
                );
                (ProtocolView { tools, ..p }, t, told)
            }
        },
        None => (p, s, Seq::empty()),
    }
}

/// The result of a tool, as it is recorded.
pub open spec fn tool_ended(
    label: Seq<char>,
    tools: Map<Seq<char>, Seq<char>>,
    block: Data,
    request: Option<Seq<char>>,
) -> EventView {
    let id = block.field("tool_use_id"@).text_or_empty();
    record_event(
        "item_completed"@,
        Data::Object(
            map![
                "harness"@ => Data::Text(label),
                "request_id"@ => opt_text(request),
                "item_id"@ => Data::Text(id),
                "item_type"@ => Data::Text("tool_use"@),
                "tool_name"@ => if tools.contains_key(id) {
                    Data::Text(tools[id])
                } else {
                    Data::Null
                },
                "result"@ => block.field("content"@),
                "is_error"@ => block.field("is_error"@)
            ],
        ),
    )
}

/// What is told of the results of tools in a message.
pub open spec fn tools_ended(
    label: Seq<char>,
    tools: Map<Seq<char>, Seq<char>>,
    content: Seq<Data>,
    request: Option<Seq<char>>,
) -> Seq<EventView>
    decreases content.len(),
{
    if content.len() == 0 {
        Seq::empty()
    } else {
        let before = tools_ended(label, tools, content.drop_last(), request);
        if content.last().field("type"@).is_text("tool_result"@) {
            before.push(tool_ended(label, tools, content.last(), request))
        } else {
            before
        }
    }
}

/// The messages that a result settles.
pub open spec fn settled_ids(value: Data) -> Seq<Seq<char>> {
    let ids = texts_of(value.field("user_message_uuids"@).items());
    match value.field("user_message_uuid"@).as_text() {
        Some(id) => ids.push(id),
        None => ids,
    }
}

/// The state, and what is told, once messages are settled: the first message opens the session, and
/// a compaction has an outcome.
pub open spec fn settled(p: ProtocolView, ids: Seq<Seq<char>>, failed: bool) -> (
    ProtocolView,
    Seq<EventView>,
)
    decreases ids.len(),
{
    if ids.len() == 0 {
        (p, Seq::empty())
    } else {
        let (q, told) = settled(p, ids.drop_last(), failed);
        let id = ids.last();
        if q.users.contains_key(id) {
            let call = q.users[id];
            let known = ProtocolView { users: q.users.remove(id), ..q };
            if call.kind == "bootstrap"@ {
                (
                    ProtocolView {
                        bootstrapped: !failed,
                        reply: Some(ReplyView { id: call.id, value: Data::Null, failed }),
                        ..known
                    },
                    told,
                )
            } else if call.kind == "compact"@ {
                (
                    known,
                    told.push(
                        EventView::Compacted {
                            status: if q.compacted && !failed {
                                "completed"@
                            } else {
                                "failed"@
                            },
                        },
                    ),
                )
            } else {
                (known, told)
            }
        } else {
            (q, told)
        }
    }
}

/// How the turn ended.
pub open spec fn turn_status(p: ProtocolView, value: Data) -> Seq<char> {
    if p.interrupting {
        "interrupted"@
    } else if value.field("is_error"@).is_false() && value.field("subtype"@).is_text("success"@) {
        "completed"@
    } else {
        "failed"@
    }
}

/// The account was accepted: local commands can succeed without it, so the model must have
/// answered.
pub open spec fn account_accepted(p: ProtocolView, value: Data) -> bool {
    turn_status(p, value) == "completed"@ && match value.field("usage"@).field(
        "output_tokens"@,
    ).as_u64() {
        Some(n) => n > 0,
        None => false,
    }
}

/// The result of a line that ends a turn.
pub struct Resulted {
    pub state: ProtocolView,
    pub progress: ProgressView,
    pub data: Data,
    pub told: Seq<EventView>,
}

/// The state, the progress, the record and what is told after a result.
pub open spec fn resulted(
    p: ProtocolView,
    s: ProgressView,
    kind: Seq<char>,
    value: Data,
    data: Data,
) -> Resulted {
    if kind != "result"@ {
        Resulted { state: p, progress: s, data, told: Seq::empty() }
    } else {
        let failed = value.field("is_error"@).is_true();
        let ids = settled_ids(value);
        let (q, told) = settled(ProtocolView { last_failed: failed, ..p }, ids, failed);
        match q.active {
            Some(active) => if ids.contains(active.wire) {
                let t = ProgressView { last_usage: usage_data(value), ..s };
                let (u, ended) = over(t, turn_status(q, value), None);
                let known = if account_accepted(q, value) {
                    told.push(EventView::Authentication { accepted: true })
                } else {
                    told
                };
                Resulted {
                    state: ProtocolView { active: None, children: Map::empty(), ..q },
                    progress: u,
                    data: data.with("usage"@, usage_data(value)),
                    told: known + maybe(ended),
                }
            } else {
                Resulted { state: q, progress: s, data, told }
            },
            None => Resulted { state: q, progress: s, data, told },
        }
    }
}

/// The account was refused.
pub open spec fn account_refused(kind: Seq<char>, value: Data) -> bool {
    kind == "assistant"@ && value.field("error"@).is_text("authentication_failed"@)
        && !value.field("isReplay"@).is_true()
}

/// The state, the progress and what is told after a line of the stream of messages.
pub open spec fn line_heard(
    p: ProtocolView,
    s: ProgressView,
    kind: Seq<char>,
    value: Data,
    raw: Seq<char>,
) -> (ProtocolView, ProgressView, Result<Seq<EventView>, FaultView>) {
    match line_refused(p, kind, value) {
        Some(why) => (p, s, Err(other(why))),
        None => {
            let (t, begins) = turn_begun(p, introduced(p, s, kind, value), kind, value);
            let q = lifecycle_reply(p, kind, value);
            let r = if kind == "system"@ && value.field("subtype"@).is_text("compact_boundary"@) {
                ProtocolView { compacted: true, ..q }
            } else {
                q
            };
            match streamed(r, kind, value, line_data(r, kind)) {
                None => (
                    r,
                    t,
                    Err(other(p.name + " content block exceeds the native frame limit"@)),
                ),
                Some(step) => {
                    let refusal = if account_refused(kind, value) {
                        begins.push(EventView::Authentication { accepted: false })
                    } else {
                        begins
                    };
                    let (x, u, spoken) = assistant_spoke(step.state, t, kind, value);
                    let used = if kind == "user"@ {
                        tools_ended(
                            x.label,
                            x.tools,
                            value.field("message"@).field("content"@).items(),
                            active_request(x),
                        )
                    } else {
                        Seq::empty()
                    };
                    let end = resulted(x, u, kind, value, step.data);
                    let first = EventView::Record {
                        kind: step.kind,
                        data: end.data,
                        native: Some(raw),
                    };
                    (
                        end.state,
                        end.progress,
                        Ok(seq![first] + (refusal + spoken + used + end.told)),
                    )
                },
            }
        },
    }
}

/// The state, the progress and what is told after a line of the harness.
pub open spec fn received(p: ProtocolView, s: ProgressView, value: Data, raw: Seq<char>) -> (
    ProtocolView,
    ProgressView,
    Result<Seq<EventView>, FaultView>,
) {
    let q = ProtocolView { reply: None, frames: Seq::empty(), ..p };
    let kind = value.field("type"@).text_or_empty();
    if kind == "control_request"@ {
        let (r, told) = control_asked(q, s, value);
        (r, s, told)
    } else if kind == "control_response"@ {
        (control_answered(q, value.field("response"@)), s, Ok(Seq::empty()))
    } else {
        line_heard(q, s, kind, value, raw)
    }
}

// What turns cost.

/// A count, as large as a number can hold.
pub open spec fn capped(n: nat) -> u64 {
    if n > u64::MAX {
        u64::MAX
    } else {
        n as u64
    }
}

/// A count of a value, where it has one.
pub open spec fn counted(value: Data, key: Seq<char>) -> nat {
    match value.field(key).as_u64() {
        Some(n) => n as nat,
        None => 0,
    }
}

/// The sum of a count of all models.
pub open spec fn model_total(models: Map<Seq<char>, Data>, keys: Seq<Seq<char>>, key: Seq<char>) -> nat
    decreases keys.len(),
{
    if keys.len() == 0 {
        0
    } else {
        model_total(models, keys.drop_last(), key) + counted(models[keys.last()], key)
    }
}

/// The context window of the first model that has one.
pub open spec fn model_window(models: Map<Seq<char>, Data>, keys: Seq<Seq<char>>) -> Option<u64>
    decreases keys.len(),
{
    if keys.len() == 0 {
        None
    } else {
        match model_window(models, keys.drop_last()) {
            Some(n) => Some(n),
            None => models[keys.last()].field("contextWindow"@).as_u64(),
        }
    }
}

/// The models that a result counts.
pub open spec fn models_used(value: Data) -> Map<Seq<char>, Data> {
    match value.field("modelUsage"@) {
        Data::Object(models) => models,
        _ => Map::empty(),
    }
}

/// What a turn cost, as it is recorded.
pub open spec fn usage_data(value: Data) -> Data {
    let models = models_used(value);
    let keys = in_order(models);
    let input = model_total(models, keys, "inputTokens"@);
    let output = model_total(models, keys, "outputTokens"@);
    let read = model_total(models, keys, "cacheReadInputTokens"@);
    let write = model_total(models, keys, "cacheCreationInputTokens"@);
    let last = value.field("usage"@);
    let used = counted(last, "input_tokens"@) + counted(last, "cache_read_input_tokens"@) + counted(
        last,
        "cache_creation_input_tokens"@,
    );
    Data::Object(
        map![
            "contextUsage"@ => Data::Object(
                map![
                    "tokens"@ => uint(capped(used)),
                    "contextWindow"@ => opt_uint(model_window(models, keys))
                ],
            ),
            "tokens"@ => Data::Object(
                map![
                    "input"@ => uint(capped(input)),
                    "output"@ => uint(capped(output)),
                    "cacheRead"@ => uint(capped(read)),
                    "cacheWrite"@ => uint(capped(write)),
                    "total"@ => uint(capped(input + output + read + write))
                ],
            ),
            "lastUsage"@ => Data::Object(
                map![
                    "input"@ => last.field("input_tokens"@),
                    "output"@ => last.field("output_tokens"@),
                    "cacheRead"@ => last.field("cache_read_input_tokens"@),
                    "cacheWrite"@ => last.field("cache_creation_input_tokens"@),
                    "totalTokens"@ => uint(capped(used + counted(last, "output_tokens"@)))
                ],
            ),
            "estimated_cost_usd"@ => value.field("total_cost_usd"@)
        ],
    )
}

/// The sum of two counts.
pub(crate) fn plus(a: u64, b: u64) -> (r: u64)
    ensures
        r == capped((a + b) as nat),
{
    match a.checked_add(b) {
        Some(n) => n,
        None => u64::MAX,
    }
}

fn count_of(value: &Json, key: &str) -> (r: u64)
    ensures
        r as nat == counted(value@, key@),
{
    match value.field(key).as_u64() {
        Some(n) => n,
        None => 0,
    }
}

fn total_of(models: &Table<Json>, key: &str) -> (r: u64)
    ensures
        r == capped(model_total(models@, in_order(models@), key@)),
{
    let count = models.len();
    let ghost keys = in_order(models@);
    let mut sum: u64 = 0;
    let mut i: usize = 0;
    assert(keys.take(0) =~= Seq::empty());
    while i < count
        invariant
            i <= count,
            count == keys.len(),
            keys == in_order(models@),
            sum == capped(model_total(models@, keys.take(i as int), key@)),
        decreases count - i,
    {
        assert(keys.take(i + 1).drop_last() =~= keys.take(i as int));
        sum = plus(sum, count_of(models.value_at(i), key));
        i += 1;
    }
    assert(keys.take(i as int) =~= keys);
    sum
}

fn window_of(models: &Table<Json>) -> (r: Option<u64>)
    ensures
        r == model_window(models@, in_order(models@)),
{
    let count = models.len();
    let ghost keys = in_order(models@);
    let mut window: Option<u64> = None;
    let mut i: usize = 0;
    assert(keys.take(0) =~= Seq::empty());
    while i < count
        invariant
            i <= count,
            count == keys.len(),
            keys == in_order(models@),
            window == model_window(models@, keys.take(i as int)),
        decreases count - i,
    {
        assert(keys.take(i + 1).drop_last() =~= keys.take(i as int));
        if window.is_none() {
            window = models.value_at(i).field("contextWindow").as_u64();
        }
        i += 1;
    }
    assert(keys.take(i as int) =~= keys);
    window
}

/// What a turn cost, as it is recorded.
pub fn usage(value: &Json) -> (r: Json)
    ensures
        r@ == usage_data(value@),
{
    let models: Table<Json> = match value.field("modelUsage").as_object() {
        Some(fields) => fields.sorted(),
        None => Table::new(),
    };
    let input = total_of(&models, "inputTokens");
    let output = total_of(&models, "outputTokens");
    let read = total_of(&models, "cacheReadInputTokens");
    let write = total_of(&models, "cacheCreationInputTokens");
    let last = value.field("usage");
    let used = plus(
        plus(count_of(last, "input_tokens"), count_of(last, "cache_read_input_tokens")),
        count_of(last, "cache_creation_input_tokens"),
    );
    let total = plus(plus(plus(input, output), read), write);
    let context = object().with("tokens", Json::uint(used)).with(
        "contextWindow",
        Json::opt_uint(window_of(&models)),
    );
    let tokens = object().with("input", Json::uint(input)).with("output", Json::uint(output)).with(
        "cacheRead",
        Json::uint(read),
    ).with("cacheWrite", Json::uint(write)).with("total", Json::uint(total));
    let latest = object().with("input", last.field("input_tokens").duplicate()).with(
        "output",
        last.field("output_tokens").duplicate(),
    ).with("cacheRead", last.field("cache_read_input_tokens").duplicate()).with(
        "cacheWrite",
        last.field("cache_creation_input_tokens").duplicate(),
    ).with("totalTokens", Json::uint(plus(used, count_of(last, "output_tokens"))));
    Json::Object(
        object().with("contextUsage", Json::Object(context)).with(
            "tokens",
            Json::Object(tokens),
        ).with("lastUsage", Json::Object(latest)).with(
            "estimated_cost_usd",
            value.field("total_cost_usd").duplicate(),
        ),
    )
}

impl Protocol {
    fn clear(&mut self)
        ensures
            final(self)@ == (ProtocolView { reply: None, frames: Seq::empty(), ..old(self)@ }),
    {
        self.reply = None;
        self.frames = no_json();
    }

    fn control(&mut self, value: &Json, state: &Progress) -> (r: Result<Vec<Event>, Fault>)
        ensures
            (final(self)@, events_result(r)) == control_asked(old(self)@, state@, value@),
    {
        let request = value.field("request");
        if request.field_is("subtype", "mcp_message") && request.field_is(
            "server_name",
            "cloudroom",
        ) {
            return self.mcp(value, state);
        }
        let id = match value.field_text("request_id") {
            Some(id) => id,
            None => {
                return Err(
                    Fault::other(
                        concat3("missing ", self.name.as_str(), " control identity").as_str(),
                    ),
                );
            },
        };
        let response = if request.field_is("subtype", "hook_callback") {
            object().with("continue", Json::Bool(false)).with_text(
                "stopReason",
                concat3(
                    "Native ",
                    self.name.as_str(),
                    " subagents are disabled. Use mcp__cloudroom__delegate for a managed child session.",
                ).as_str(),
            )
        } else {
            object().with_text("behavior", "deny").with_text(
                "message",
                "Interactive requests are unsupported. Ask the user in ordinary chat.",
            )
        };
        push_json(&mut self.frames, reply_control(id, Json::Object(response)));
        Ok(
            one_event(
                Event::record(
                    "interaction_cancelled",
                    Json::Object(
                        object().with_text("harness", self.label.as_str()).with_text(
                            "reason",
                            "native interaction unsupported",
                        ),
                    ),
                ),
            ),
        )
    }

    fn answered(&mut self, response: &Json)
        ensures
            final(self)@ == control_answered(old(self)@, response@),
    {
        if let Some(wire) = response.field_text("request_id") {
            let id: Option<u64> = match parse_u64(wire) {
                Some(n) => Some(n),
                None => match self.users.remove(wire) {
                    Some(call) => Some(call.id),
                    None => None,
                },
            };
            if let Some(id) = id {
                self.reply = Some(
                    Reply {
                        id,
                        value: response.field("response").duplicate(),
                        failed: !response.field_is("subtype", "success"),
                    },
                );
            }
        }
    }
}

/// A string stands among values.
fn lists_text(items: &[Json], text: &str) -> (r: bool)
    ensures
        r == values(items@).contains(Data::Text(text@)),
{
    let mut i: usize = 0;
    while i < items.len()
        invariant
            i <= items.len(),
            forall|j: int| 0 <= j < i ==> (#[trigger] items@[j])@ != Data::Text(text@),
        decreases items.len() - i,
    {
        if items[i].is_text(text) {
            assert(values(items@)[i as int] == Data::Text(text@));
            return true;
        }
        i += 1;
    }
    assert forall|j: int| 0 <= j < values(items@).len() implies values(items@)[j] != Data::Text(
        text@,
    ) by {
        assert(items@[j]@ != Data::Text(text@));
    }
    false
}

fn refuse_init(value: &Json, product: &str) -> (r: Option<String>)
    ensures
        opt(r) == init_refused(value@, product@),
{
    match value.field("capabilities").as_array() {
        None => Some(concat(product, " CLI lacks required capabilities")),
        Some(caps) => if !lists_text(caps.as_slice(), "msg_lifecycle_v1") || !lists_text(
            caps.as_slice(),
            "interrupt_cancel_queued_v1",
        ) {
            Some(concat(product, " CLI lacks request lifecycle or queue cancellation support"))
        } else if !value.field_is("permissionMode", "bypassPermissions") || value.field_is(
            "fast_mode_state",
            "on",
        ) {
            Some(
                concat(
                    product,
                    " launch permissions or Fast mode differ from the requested configuration",
                ),
            )
        } else {
            None
        },
    }
}

/// A step of the stream, as it is computed.
struct Step {
    data: Json,
    kind: &'static str,
}

impl Protocol {
    fn refuse(&self, kind: &str, value: &Json) -> (r: Option<String>)
        ensures
            opt(r) == line_refused(self@, kind@, value@),
    {
        if value.field_text("parent_tool_use_id").is_some() {
            return Some(concat3("unmanaged ", self.name.as_str(), " subagent emitted output"));
        }
        if let Some(id) = value.field_text("session_id") {
            if !same(id, self.native.as_str()) {
                return Some(concat(self.name.as_str(), " session identity changed"));
            }
        }
        if same(kind, "system") && value.field_is("subtype", "init") {
            return refuse_init(value, self.name.as_str());
        }
        None
    }

    fn lifecycle(&self, kind: &str, value: &Json) -> (r: Option<String>)
        ensures
            opt(r) == lifecycle_call(self@, kind@, value@),
    {
        match value.field_text("command_uuid") {
            Some(wire) => if same(kind, "command_lifecycle") && self.users.contains(wire) {
                Some(wire.to_owned())
            } else {
                None
            },
            None => None,
        }
    }

    fn begin(&self, state: &mut Progress, kind: &str, value: &Json) -> (r: Vec<Event>)
        ensures
            (final(state)@, events(r@)) == turn_begun(self@, old(state)@, kind@, value@),
    {
        let mut list = no_events();
        if let Some(wire) = self.lifecycle(kind, value) {
            let current = match &self.active {
                Some(active) => same(active.wire.as_str(), wire.as_str()),
                None => false,
            };
            if value.field_is("state", "started") && current {
                let started = state.started();
                push_maybe(&mut list, started);
                let data = object().with_text("kind", "message").with_text(
                    "id",
                    wire.as_str(),
                ).with("request_id", Json::opt_text(opt_slice(&state.request)));
                push_event(&mut list, Event::record("checkpoint", Json::Object(data)));
                proof {
                    let m = maybe(begun(old(state)@).1);
                    assert(Seq::<EventView>::empty() + m =~= m);
                }
            }
        }
        list
    }

    fn settle_lifecycle(&mut self, kind: &str, value: &Json)
        ensures
            final(self)@ == lifecycle_reply(old(self)@, kind@, value@),
    {
        if let Some(wire) = self.lifecycle(kind, value) {
            if let Some(call) = self.users.get(wire.as_str()) {
                let state = value.field("state");
                if !same(call.kind.as_str(), "bootstrap") && (state.is_text("queued")
                    || state.is_text("rejected") || state.is_text("cancelled")) {
                    self.reply = Some(
                        Reply { id: call.id, value: Json::Null, failed: !state.is_text("queued") },
                    );
                }
            }
        }
    }

    fn line_data(&self, kind: &str) -> (r: Json)
        ensures
            r@ == line_data(self@, kind@),
    {
        let request: Option<&str> = match &self.active {
            Some(active) => Some(active.request.as_str()),
            None => None,
        };
        Json::Object(
            object().with_text("harness", self.label.as_str()).with_text("type", kind).with(
                "request_id",
                Json::opt_text(request),
            ),
        )
    }

    fn start_block(&mut self, event: &Json, data: Json, index: u64) -> (r: Step)
        ensures
            block_started(old(self)@, event@, data@, index) == (Streamed {
                state: final(self)@,
                data: r.data@,
                kind: r.kind@,
            }),
    {
        let block = event.field("content_block");
        let place = decimal_of(index);
        let id = id_of(block, self.message_id.as_str(), place.as_str(), Ghost(index as nat));
        let mut told = data;
        told.put("item_id", Json::text(id.as_str()));
        told.put("item_type", block.field("type").duplicate());
        told.put("tool_name", block.field("name").duplicate());
        told.put("input", block.field("input").duplicate());
        told.put("text", Json::text(""));
        proof {
            reveal_strlit("");
            assert(""@ =~= Seq::empty());
        }
        if let Some(name) = block.field_text("name") {
            self.tools.insert(id.as_str(), name.to_owned());
        }
        self.blocks.insert(place.as_str(), told.duplicate());
        let kind = if block.field_is("type", "tool_use") {
            "native_event"
        } else {
            "item_started"
        };
        Step { data: told, kind }
    }

    fn grow_block(&mut self, event: &Json, data: Json, index: u64) -> (r: Option<Step>)
        ensures
            match r {
                Some(step) => block_grown(old(self)@, event@, data@, index) == Some(
                    Streamed { state: final(self)@, data: step.data@, kind: step.kind@ },
                ),
                None => block_grown(old(self)@, event@, data@, index) is None && final(self)@
                    == old(self)@,
            },
    {
        let delta = event.field("delta");
        let place = decimal_of(index);
        let mut told = data;
        let kind = if delta.field_is("type", "text_delta") {
            "text_delta"
        } else if delta.field_is("type", "thinking_delta") {
            "thinking_delta"
        } else {
            "native_event"
        };
        let grown: Option<Json> = match self.blocks.get(place.as_str()) {
            Some(block) => {
                let text = text_in(delta);
                let before = block.field("text").text_or_empty();
                let more = size(text);
                if more > MAX_LINE || size(before) > MAX_LINE - more {
                    return None;
                }
                told.put("item_id", block.field("item_id").duplicate());
                told.put("item_type", block.field("item_type").duplicate());
                told.put("delta", Json::text(text));
                let mut next = block.duplicate();
                next.put("text", Json::Text(concat(before, text)));
                Some(next)
            },
            None => None,
        };
        if let Some(next) = grown {
            self.blocks.insert(place.as_str(), next);
        }
        Some(Step { data: told, kind })
    }

    fn stop_block(&mut self, data: Json, index: u64) -> (r: Step)
        ensures
            block_stopped(old(self)@, data@, index) == (Streamed {
                state: final(self)@,
                data: r.data@,
                kind: r.kind@,
            }),
    {
        let place = decimal_of(index);
        match self.blocks.remove(place.as_str()) {
            Some(block) => {
                let mut told = block;
                if told.field_is("item_type", "tool_use") {
                    let input = read_json(told.field("text").text_or_empty());
                    if let Some(input) = input {
                        told.put("input", input);
                    }
                    Step { data: told, kind: "item_started" }
                } else {
                    Step { data: told, kind: "item_completed" }
                }
            },
            None => Step { data, kind: "native_event" },
        }
    }

    fn stream(&mut self, kind: &str, value: &Json, data: Json) -> (r: Option<Step>)
        ensures
            match r {
                Some(step) => streamed(old(self)@, kind@, value@, data@) == Some(
                    Streamed { state: final(self)@, data: step.data@, kind: step.kind@ },
                ),
                None => streamed(old(self)@, kind@, value@, data@) is None && final(self)@ == old(
                    self,
                )@,
            },
    {
        if !same(kind, "stream_event") {
            return Some(Step { data, kind: "native_event" });
        }
        let event = value.field("event");
        let index = match event.field("index").as_u64() {
            Some(n) => n,
            None => 0,
        };
        let step = event.field("type");
        if step.is_text("message_start") {
            let id = event.field("message").field("id").text_or_empty();
            self.blocks = Table::new();
            self.message_id = id.to_owned();
            push_string(&mut self.streamed, id);
            Some(Step { data, kind: "native_event" })
        } else if step.is_text("content_block_start") {
            Some(self.start_block(event, data, index))
        } else if step.is_text("content_block_delta") {
            self.grow_block(event, data, index)
        } else if step.is_text("content_block_stop") {
            Some(self.stop_block(data, index))
        } else {
            Some(Step { data, kind: "native_event" })
        }
    }

    fn whole_message(&mut self, content: &[Json], message: &str) -> (r: Vec<Event>)
        ensures
            ({
                let w = whole_message(
                    old(self)@.label,
                    old(self)@.tools,
                    values(content@),
                    message@,
                    active_request(old(self)@),
                );
                final(self)@ == (ProtocolView { tools: w.0, ..old(self)@ }) && events(r@) == w.1
            }),
    {
        let ghost was = self@;
        let ghost all = values(content@);
        let mut list = no_events();
        let mut i: usize = 0;
        assert(all.take(0) =~= Seq::empty());
        while i < content.len()
            invariant
                i <= content.len(),
                all == values(content@),
                self@ == (ProtocolView {
                    tools: whole_message(
                        was.label,
                        was.tools,
                        all.take(i as int),
                        message@,
                        active_request(was),
                    ).0,
                    ..was
                }),
                events(list@) == whole_message(
                    was.label,
                    was.tools,
                    all.take(i as int),
                    message@,
                    active_request(was),
                ).1,
            decreases content.len() - i,
        {
            assert(all.take(i + 1).drop_last() =~= all.take(i as int));
            assert(all.take(i + 1).last() == content@[i as int]@);
            let block: &Json = &content[i];
            let place = decimal_of(i as u64);
            let id = id_of(block, message, place.as_str(), Ghost(i as nat));
            if let Some(name) = block.field_text("name") {
                self.tools.insert(id.as_str(), name.to_owned());
            }
            let request: Option<&str> = match &self.active {
                Some(active) => Some(active.request.as_str()),
                None => None,
            };
            let part = data_of(self.label.as_str(), block, id.as_str(), request);
            push_event(&mut list, Event::record("item_started", part.duplicate()));
            if !block.field_is("type", "tool_use") {
                push_event(&mut list, Event::record("item_completed", part));
            }
            i += 1;
        }
        assert(all.take(i as int) =~= all);
        list
    }

    fn speak(&mut self, state: &mut Progress, kind: &str, value: &Json) -> (r: Vec<Event>)
        ensures
            (final(self)@, final(state)@, events(r@)) == assistant_spoke(
                old(self)@,
                old(state)@,
                kind@,
                value@,
            ),
    {
        let message = value.field("message");
        if !same(kind, "assistant") {
            return no_events();
        }
        match message.field("content").as_array() {
            Some(content) => {
                let parts = texts_in(content.as_slice());
                let text = join(&parts, "\n");
                if chars_of(text.as_str()).len() > 0 {
                    state.last_text = text;
                }
                let id = message.field("id");
                if includes(&self.streamed, id.text_or_empty()) {
                    return no_events();
                }
                let name = match id.as_text() {
                    Some(id) => id,
                    None => "message",
                };
                self.whole_message(content.as_slice(), name)
            },
            None => no_events(),
        }
    }

    fn end_tools(&self, content: &[Json]) -> (r: Vec<Event>)
        ensures
            events(r@) == tools_ended(
                self@.label,
                self@.tools,
                values(content@),
                active_request(self@),
            ),
    {
        let ghost all = values(content@);
        let mut list = no_events();
        let mut i: usize = 0;
        assert(all.take(0) =~= Seq::empty());
        while i < content.len()
            invariant
                i <= content.len(),
                all == values(content@),
                events(list@) == tools_ended(
                    self@.label,
                    self@.tools,
                    all.take(i as int),
                    active_request(self@),
                ),
            decreases content.len() - i,
        {
            assert(all.take(i + 1).drop_last() =~= all.take(i as int));
            assert(all.take(i + 1).last() == content@[i as int]@);
            let block: &Json = &content[i];
            if block.field_is("type", "tool_result") {
                let id = block.field("tool_use_id").text_or_empty();
                let request: Option<&str> = match &self.active {
                    Some(active) => Some(active.request.as_str()),
                    None => None,
                };
                let tool = match self.tools.get(id) {
                    Some(name) => Json::text(name.as_str()),
                    None => Json::Null,
                };
                let data = object().with_text("harness", self.label.as_str()).with(
                    "request_id",
                    Json::opt_text(request),
                ).with_text("item_id", id).with_text("item_type", "tool_use").with(
                    "tool_name",
                    tool,
                ).with("result", block.field("content").duplicate()).with(
                    "is_error",
                    block.field("is_error").duplicate(),
                );
                push_event(&mut list, Event::record("item_completed", Json::Object(data)));
            }
            i += 1;
        }
        assert(all.take(i as int) =~= all);
        list
    }

    fn settle_one(&mut self, list: &mut Vec<Event>, id: &str, failed: bool, Ghost(before): Ghost<
        Seq<Seq<char>>,
    >, Ghost(start): Ghost<ProtocolView>)
        requires
            settled(start, before, failed) == (old(self)@, events(old(list)@)),
        ensures
            settled(start, before.push(id@), failed) == (final(self)@, events(final(list)@)),
    {
        assert(before.push(id@).drop_last() =~= before);
        if let Some(call) = self.users.remove(id) {
            proof {
                reveal_strlit("bootstrap");
                reveal_strlit("compact");
                assert("bootstrap"@.len() == 9 && "compact"@.len() == 7);
            }
            if same(call.kind.as_str(), "bootstrap") {
                self.bootstrapped = !failed;
                self.reply = Some(Reply { id: call.id, value: Json::Null, failed });
            }
            if same(call.kind.as_str(), "compact") {
                let status = if self.compacted && !failed {
                    "completed"
                } else {
                    "failed"
                };
                push_event(list, Event::Compacted { status: status.to_owned() });
            }
        }
    }

    fn settle(&mut self, ids: &Vec<String>, failed: bool) -> (r: Vec<Event>)
        ensures
            (final(self)@, events(r@)) == settled(old(self)@, views(ids@), failed),
    {
        let ghost start = self@;
        let ghost all = views(ids@);
        let mut list = no_events();
        let mut i: usize = 0;
        assert(all.take(0) =~= Seq::empty());
        while i < ids.len()
            invariant
                i <= ids.len(),
                all == views(ids@),
                settled(start, all.take(i as int), failed) == (self@, events(list@)),
            decreases ids.len() - i,
        {
            assert(all.take(i + 1) =~= all.take(i as int).push(ids@[i as int]@));
            self.settle_one(
                &mut list,
                ids[i].as_str(),
                failed,
                Ghost(all.take(i as int)),
                Ghost(start),
            );
            i += 1;
        }
        assert(all.take(i as int) =~= all);
        list
    }

    fn status(&self, value: &Json) -> (r: &'static str)
        ensures
            r@ == turn_status(self@, value@),
    {
        if self.interrupting {
            "interrupted"
        } else if value.field("is_error").is_false() && value.field_is("subtype", "success") {
            "completed"
        } else {
            "failed"
        }
    }

    fn result(&mut self, state: &mut Progress, kind: &str, value: &Json, data: Json) -> (r: (
        Json,
        Vec<Event>,
    ))
        ensures
            resulted(old(self)@, old(state)@, kind@, value@, data@) == (Resulted {
                state: final(self)@,
                progress: final(state)@,
                data: r.0@,
                told: events(r.1@),
            }),
    {
        if !same(kind, "result") {
            return (data, no_events());
        }
        let failed = value.field("is_error").is_true();
        self.last_failed = failed;
        let mut ids = texts_among(value.field("user_message_uuids").items());
        if let Some(id) = value.field_text("user_message_uuid") {
            push_string(&mut ids, id);
        }
        let mut list = self.settle(&ids, failed);
        let current = match &self.active {
            Some(active) => includes(&ids, active.wire.as_str()),
            None => false,
        };
        let mut told = data;
        if current {
            let spent = usage(value);
            told.put("usage", spent.duplicate());
            state.last_usage = spent;
            let status = self.status(value);
            let answered = match value.field("usage").field("output_tokens").as_u64() {
                Some(n) => n > 0,
                None => false,
            };
            if same(status, "completed") && answered {
                push_event(&mut list, Event::Authentication { accepted: true });
            }
            let ended = state.finished(status, None);
            push_maybe(&mut list, ended);
            self.active = None;
            self.children = Table::new();
        }
        (told, list)
    }

    fn hear(&mut self, state: &mut Progress, kind: &str, value: &Json, raw: String) -> (r: Result<
        Vec<Event>,
        Fault,
    >)
        ensures
            (final(self)@, final(state)@, events_result(r)) == line_heard(
                old(self)@,
                old(state)@,
                kind@,
                value@,
                raw@,
            ),
    {
        if let Some(why) = self.refuse(kind, value) {
            return Err(Fault::other(why.as_str()));
        }
        if same(kind, "system") && value.field_is("subtype", "init") {
            state.native = Some(self.native.clone());
            state.model = match value.field_text("model") {
                Some(model) => Some(model.to_owned()),
                None => None,
            };
        }
        let mut rest = self.begin(state, kind, value);
        self.settle_lifecycle(kind, value);
        if same(kind, "system") && value.field_is("subtype", "compact_boundary") {
            self.compacted = true;
        }
        let data = self.line_data(kind);
        let step = match self.stream(kind, value, data) {
            Some(step) => step,
            None => {
                return Err(
                    Fault::other(
                        concat(
                            self.name.as_str(),
                            " content block exceeds the native frame limit",
                        ).as_str(),
                    ),
                );
            },
        };
        if same(kind, "assistant") && value.field_is("error", "authentication_failed")
            && !value.field("isReplay").is_true() {
            push_event(&mut rest, Event::Authentication { accepted: false });
        }
        let ghost refusal = events(rest@);
        let spoken = self.speak(state, kind, value);
        append_events(&mut rest, spoken);
        if same(kind, "user") {
            let used = self.end_tools(value.field("message").field("content").items());
            append_events(&mut rest, used);
        } else {
            assert(events(rest@) + Seq::<EventView>::empty() =~= events(rest@));
        }
        let (told, end) = self.result(state, kind, value, step.data);
        append_events(&mut rest, end);
        let mut list = one_event(
            Event::Record { kind: step.kind.to_owned(), data: told, native: Some(raw) },
        );
        append_events(&mut list, rest);
        Ok(list)
    }

    /// What a line of the harness means.
    pub fn receive(&mut self, value: &Json, raw: String, state: &mut Progress) -> (r: Result<
        Vec<Event>,
        Fault,
    >)
        ensures
            (final(self)@, final(state)@, events_result(r)) == received(
                old(self)@,
                old(state)@,
                value@,
                raw@,
            ),
    {
        self.clear();
        let kind = value.field("type").text_or_empty();
        if same(kind, "control_request") {
            return self.control(value, state);
        }
        if same(kind, "control_response") {
            self.answered(value.field("response"));
            return Ok(no_events());
        }
        self.hear(state, kind, value, raw)
    }

    /// The answer that the last line held.
    pub fn response(&self) -> (r: Option<(u64, Result<Json, Fault>)>)
        ensures
            match r {
                None => self@.reply is None,
                Some((id, result)) => self@.reply is Some && self@.reply->0.id == id
                    && json_result(result) == if self@.reply->0.failed {
                    Err::<Data, FaultView>(
                        refused(self@.name + " rejected the command; see saved history"@),
                    )
                } else {
                    Ok::<Data, FaultView>(self@.reply->0.value)
                },
            },
    {
        match &self.reply {
            None => None,
            Some(reply) => if reply.failed {
                Some(
                    (
                        reply.id,
                        Err(
                            Fault::refused(
                                concat(
                                    self.name.as_str(),
                                    " rejected the command; see saved history",
                                ).as_str(),
                            ),
                        ),
                    ),
                )
            } else {
                Some((reply.id, Ok(reply.value.duplicate())))
            },
        }
    }

    /// The frames that answer the last line.
    pub fn respond(&self) -> (r: Vec<Json>)
        ensures
            values(r@) == self@.frames,
    {
        copy_json(self.frames.as_slice())
    }

    /// The frame that asks the harness to end.
    pub fn close(&self) -> (r: Json)
        ensures
            r@ == close_frame(),
    {
        Json::Object(
            object().with_text("type", "control_request").with_text("request_id", "close").with(
                "request",
                Json::Object(
                    object().with_text("subtype", "interrupt").with(
                        "cancel_queued",
                        Json::Bool(true),
                    ),
                ),
            ),
        )
    }

    /// Whether a line confirms the end.
    pub fn closed(&mut self, value: &Json) -> (r: bool)
        ensures
            r == confirms_close(value@),
            final(self)@ == (ProtocolView { close_confirmed: r, ..old(self)@ }),
    {
        let response = value.field("response");
        self.close_confirmed = value.field_is("type", "control_response") && response.field_is(
            "request_id",
            "close",
        ) && response.field_is("subtype", "success");
        self.close_confirmed
    }

    /// Whether the process ended as it should. claude_code keeps the exit code of the last failed turn
    /// after an acknowledged end.
    pub fn clean_exit(&self, code: Option<i32>) -> (r: bool)
        ensures
            r == (code == Some(0i32) || (self@.close_confirmed && self@.last_failed && code
                == Some(1i32))),
    {
        match code {
            Some(code) => code == 0 || (self.close_confirmed && self.last_failed && code == 1),
            None => false,
        }
    }
}

/// The frame that asks the harness to end.
pub open spec fn close_frame() -> Data {
    Data::Object(
        map![
            "type"@ => Data::Text("control_request"@),
            "request_id"@ => Data::Text("close"@),
            "request"@ => Data::Object(
                map!["subtype"@ => Data::Text("interrupt"@), "cancel_queued"@ => Data::Bool(true)],
            )
        ],
    )
}

/// A line confirms the end.
pub open spec fn confirms_close(value: Data) -> bool {
    value.field("type"@).is_text("control_response"@) && value.field("response"@).field(
        "request_id"@,
    ).is_text("close"@) && value.field("response"@).field("subtype"@).is_text("success"@)
}

fn id_of(block: &Json, message: &str, place: &str, Ghost(index): Ghost<nat>) -> (r: String)
    requires
        place@ == decimal(index),
    ensures
        r@ == block_id(block@, message@, index),
{
    match block.field_text("id") {
        Some(id) => id.to_owned(),
        None => concat3(message, ":", place),
    }
}

fn text_in(delta: &Json) -> (r: &str)
    ensures
        r@ == delta_text(delta@),
{
    match delta.get("text") {
        Some(t) => t.text_or_empty(),
        None => match delta.get("thinking") {
            Some(t) => t.text_or_empty(),
            None => match delta.get("partial_json") {
                Some(t) => t.text_or_empty(),
                None => {
                    proof {
                        reveal_strlit("");
                        assert(""@ =~= Seq::empty());
                    }
                    ""
                },
            },
        },
    }
}

fn texts_in(content: &[Json]) -> (r: Vec<String>)
    ensures
        views(r@) == block_texts(values(content@)),
{
    let ghost all = values(content@);
    let mut out: Vec<String> = Vec::new();
    let mut i: usize = 0;
    assert(all.take(0) =~= Seq::empty());
    assert(views(out@) =~= Seq::empty());
    while i < content.len()
        invariant
            i <= content.len(),
            all == values(content@),
            views(out@) == block_texts(all.take(i as int)),
        decreases content.len() - i,
    {
        assert(all.take(i + 1).drop_last() =~= all.take(i as int));
        assert(all.take(i + 1).last() == content@[i as int]@);
        if let Some(t) = content[i].field_text("text") {
            push_string(&mut out, t);
        }
        i += 1;
    }
    assert(all.take(i as int) =~= all);
    out
}

fn data_of(label: &str, block: &Json, id: &str, request: Option<&str>) -> (r: Json)
    ensures
        r@ == block_data(label@, block@, id@, opt_str(request)),
{
    let text = match block.get("text") {
        Some(t) => t.duplicate(),
        None => block.field("thinking").duplicate(),
    };
    Json::Object(
        object().with_text("harness", label).with(
            "request_id",
            Json::opt_text(request),
        ).with_text("item_id", id).with("item_type", block.field("type").duplicate()).with(
            "text",
            text,
        ).with("tool_name", block.field("name").duplicate()).with(
            "input",
            block.field("input").duplicate(),
        ),
    )
}

// Laws.

/// Messages have different identities, so an answer settles the message it is meant for.
pub proof fn messages_differ(namespace: Seq<char>, a: u64, b: u64)
    requires
        message_wire(namespace, a) == message_wire(namespace, b),
        namespace.len() >= 24,
    ensures
        a == b,
{
    let x = padded(hex_number(a as nat), 12);
    let y = padded(hex_number(b as nat), 12);
    let whole = message_wire(namespace, a);
    assert(whole.subrange(24, whole.len() as int) =~= x);
    assert(whole.subrange(24, whole.len() as int) =~= y);
    crate::hex::padding_keeps_numbers_apart(a as nat, b as nat, 12);
}

/// A child session is asked for once, however often the harness repeats its call.
pub proof fn delegations_are_asked_once(p: ProtocolView, s: ProgressView, value: Data)
    ensures
        match tool_called(p, s, value) {
            (q, Ok(told)) => told.len() > 0 ==> tool_called(q, s, value) == (
                q,
                Ok::<Seq<EventView>, FaultView>(Seq::empty()),
            ),
            _ => true,
        },
{
}

/// A line that ends the turn that runs leaves no turn and no child session to wait for.
pub proof fn ended_turns_are_forgotten(
    p: ProtocolView,
    s: ProgressView,
    value: Data,
    data: Data,
)
    requires
        p.active is Some,
        settled_ids(value).contains(p.active->0.wire),
    ensures
        resulted(p, s, "result"@, value, data).state.active is None,
        resulted(p, s, "result"@, value, data).state.children == Map::<Seq<char>, Data>::empty(),
        resulted(p, s, "result"@, value, data).progress.request is Some ==> resulted(
            p,
            s,
            "result"@,
            value,
            data,
        ).progress.finished,
{
    let failed = value.field("is_error"@).is_true();
    settling_keeps_the_turn(
        ProtocolView { last_failed: failed, ..p },
        settled_ids(value),
        failed,
    );
}

proof fn settling_keeps_the_turn(p: ProtocolView, ids: Seq<Seq<char>>, failed: bool)
    ensures
        settled(p, ids, failed).0.active == p.active,
    decreases ids.len(),
{
    if ids.len() > 0 {
        settling_keeps_the_turn(p, ids.drop_last(), failed);
    }
}

} // verus!
