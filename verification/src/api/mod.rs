//! What the service is asked over the wire, checked and put into the form that sessions take, and what
//! it answers.
use crate::json::{object, uint, Data, Json};
use crate::session::accounts::verdict;
use crate::session::{opt_data, Error, ErrorView, Receipt, ReceiptView};
use crate::text::{
    after_prefix, all_in, all_text_in, begins, blank, byte_len, chars_of, control, has_control,
    is_blank, is_control, is_space, number, opt, opt_str, parse_u64, same, size, some_control,
    space, starts_with, strip_prefix, Class,
};
use vstd::prelude::*;

verus! {

// Who asks.

/// Whether the header of a request carries the token.
pub fn authorized(header: Option<&str>, token: &str) -> (r: bool)
    ensures
        r == match opt_str(header) {
            Some(h) => after_prefix(h, "Bearer "@) == Some(token@),
            None => false,
        },
{
    match header {
        Some(h) => match strip_prefix(h, "Bearer ") {
            Some(supplied) => same(supplied.as_str(), token),
            None => false,
        },
        None => false,
    }
}

/// What the diagnostics call a method.
pub fn method_name(method: &str) -> (r: &'static str)
    ensures
        r@ == if method@ == "GET"@ {
            "GET"@
        } else if method@ == "POST"@ {
            "POST"@
        } else {
            "other"@
        },
{
    if same(method, "GET") {
        "GET"
    } else if same(method, "POST") {
        "POST"
    } else {
        "other"
    }
}

/// Whether a connection is closed after an answer: that of a completed request, not that of a stream.
pub fn closes_connection(older: bool, content_type: Option<&str>) -> (r: bool)
    ensures
        r == (older && match opt_str(content_type) {
            Some(t) => !begins(t, "text/event-stream"@),
            None => true,
        }),
{
    older && match content_type {
        Some(t) => !starts_with(t, "text/event-stream"),
        None => true,
    }
}

// Names and cursors.

/// The name of a request.
pub open spec fn request_name(value: Seq<char>) -> bool {
    value.len() > 0 && byte_len(value) <= 64 && all_in(value, Class::Alnum, "_-"@)
}

/// Why a name of a request is refused.
pub open spec fn key_refused(value: Seq<char>) -> Option<ErrorView> {
    if request_name(value) {
        None
    } else {
        Some(
            ErrorView::Conflict(
                "request_id must be 1-64 ASCII letters, digits, underscores or hyphens"@,
            ),
        )
    }
}

/// Refuses what is no name of a request.
pub fn key(value: &str) -> (r: Result<(), Error>)
    ensures
        verdict(r) == key_refused(value@),
{
    if chars_of(value).len() == 0 || size(value) > 64 || !all_text_in(value, Class::Alnum, "_-") {
        return Err(
            Error::conflict("request_id must be 1-64 ASCII letters, digits, underscores or hyphens"),
        );
    }
    Ok(())
}

/// Why a place in the history is refused.
pub open spec fn cursor_refused(after: u64) -> Option<ErrorView> {
    if after > i64::MAX {
        Some(ErrorView::Conflict("invalid replay cursor"@))
    } else {
        None
    }
}

/// Refuses a place that no history can have.
pub fn cursor(after: u64) -> (r: Result<(), Error>)
    ensures
        verdict(r) == cursor_refused(after),
{
    if after > i64::MAX as u64 {
        return Err(Error::conflict("invalid replay cursor"));
    }
    Ok(())
}

/// Where a stream goes on: after the last record that the client has, or where it asks. A header that is
/// there counts, even if it says nothing.
pub open spec fn stream_start(header: Option<Option<Seq<char>>>, after: u64) -> Result<u64, ErrorView> {
    let start = match header {
        None => Some(after as nat),
        Some(None) => None,
        Some(Some(text)) => number(text, u64::MAX as nat),
    };
    match start {
        None => Err(ErrorView::Conflict("invalid Last-Event-ID"@)),
        Some(n) => match cursor_refused(n as u64) {
            Some(e) => Err(e),
            None => Ok(n as u64),
        },
    }
}

/// The view of a header that may be there and may be text.
pub open spec fn opt_header(header: Option<Option<&str>>) -> Option<Option<Seq<char>>> {
    match header {
        None => None,
        Some(text) => Some(opt_str(text)),
    }
}

/// Where a stream goes on.
pub fn stream_cursor(header: Option<Option<&str>>, after: u64) -> (r: Result<u64, Error>)
    ensures
        match r {
            Ok(n) => stream_start(opt_header(header), after) == Ok::<u64, ErrorView>(n),
            Err(e) => stream_start(opt_header(header), after) == Err::<u64, ErrorView>(e@),
        },
{
    let start = match header {
        None => after,
        Some(None) => {
            return Err(Error::conflict("invalid Last-Event-ID"));
        },
        Some(Some(text)) => match parse_u64(text) {
            Some(n) => n,
            None => {
                return Err(Error::conflict("invalid Last-Event-ID"));
            },
        },
    };
    match cursor(start) {
        Ok(()) => Ok(start),
        Err(e) => Err(e),
    }
}

/// Refuses a stream from beyond the history of its session.
pub fn check_reached(after: u64, last: u64) -> (r: Result<(), Error>)
    ensures
        verdict(r) == if after > last {
            Some(ErrorView::Conflict("cursor exceeds session history"@))
        } else {
            None
        },
{
    if after > last {
        return Err(Error::conflict("cursor exceeds session history"));
    }
    Ok(())
}

// Starting a session.

/// Some character of a name of a provider is none.
pub open spec fn odd_provider(name: Seq<char>) -> bool {
    exists|i: int|
        0 <= i < name.len() && (control(#[trigger] name[i]) || space(name[i]) || name[i] == '/')
}

fn is_odd_provider(name: &str) -> (r: bool)
    ensures
        r == odd_provider(name@),
{
    let chars = chars_of(name);
    let ghost all = name@;
    let mut i: usize = 0;
    while i < chars.len()
        invariant
            i <= chars.len(),
            chars@ == all,
            all == name@,
            forall|j: int|
                0 <= j < i ==> !(control(#[trigger] all[j]) || space(all[j]) || all[j] == '/'),
        decreases chars.len() - i,
    {
        if is_control(chars[i]) || is_space(chars[i]) || chars[i] == '/' {
            assert(odd_provider(name@)) by {
                let c = name@[i as int];
            }
            return true;
        }
        i += 1;
    }
    false
}

/// A level of reasoning.
pub open spec fn level(text: Seq<char>) -> bool {
    text.len() > 0 && byte_len(text) <= 64 && all_in(text, Class::Lower, ""@)
}

fn is_level(text: &str) -> (r: bool)
    ensures
        r == level(text@),
{
    chars_of(text).len() > 0 && size(text) <= 64 && all_text_in(text, Class::Lower, "")
}

/// Why a start is refused before anything else is looked at.
pub open spec fn start_refused(
    request: Seq<char>,
    provider: Option<Seq<char>>,
    model: Option<Seq<char>>,
    reasoning: Option<Seq<char>>,
) -> Option<ErrorView> {
    if key_refused(request) is Some {
        key_refused(request)
    } else if provider is Some && (provider->0.len() == 0 || odd_provider(provider->0)) {
        Some(ErrorView::Conflict("invalid provider"@))
    } else if model is Some && (model->0.len() == 0 || byte_len(model->0) > 256 || some_control(
        model->0,
    )) {
        Some(ErrorView::Conflict("invalid model"@))
    } else if reasoning is Some && !level(reasoning->0) {
        Some(ErrorView::Conflict("invalid reasoning effort"@))
    } else {
        None
    }
}

/// Refuses a start that cannot be one.
pub fn check_start(
    request: &str,
    provider: Option<&str>,
    model: Option<&str>,
    reasoning: Option<&str>,
) -> (r: Result<(), Error>)
    ensures
        verdict(r) == start_refused(
            request@,
            opt_str(provider),
            opt_str(model),
            opt_str(reasoning),
        ),
{
    if let Err(e) = key(request) {
        return Err(e);
    }
    if let Some(p) = provider {
        if chars_of(p).len() == 0 || is_odd_provider(p) {
            return Err(Error::conflict("invalid provider"));
        }
    }
    if let Some(m) = model {
        if chars_of(m).len() == 0 || size(m) > 256 || has_control(m) {
            return Err(Error::conflict("invalid model"));
        }
    }
    if let Some(l) = reasoning {
        if !is_level(l) {
            return Err(Error::conflict("invalid reasoning effort"));
        }
    }
    Ok(())
}

// Prompts.

/// A prompt, as it is asked for.
#[derive(Debug)]
pub struct Prompt {
    pub request_id: String,
    pub text: String,
    pub content: Option<Json>,
    pub attachments: Option<Json>,
    pub reasoning: Option<String>,
    pub service_tier: Option<String>,
}

/// The mathematical value of a prompt.
pub struct PromptView {
    pub request_id: Seq<char>,
    pub text: Seq<char>,
    pub content: Option<Data>,
    pub attachments: Option<Data>,
    pub reasoning: Option<Seq<char>>,
    pub service_tier: Option<Seq<char>>,
}

impl View for Prompt {
    type V = PromptView;

    open spec fn view(&self) -> PromptView {
        PromptView {
            request_id: self.request_id@,
            text: self.text@,
            content: opt_data(self.content),
            attachments: opt_data(self.attachments),
            reasoning: opt(self.reasoning),
            service_tier: opt(self.service_tier),
        }
    }
}

/// The prompt brings files along.
pub open spec fn has_attachments(attachments: Option<Data>) -> bool {
    match attachments {
        Some(a) => a.items().len() > 0,
        None => false,
    }
}

/// Members with one more, where it is there.
pub open spec fn with_member(
    members: Map<Seq<char>, Data>,
    name: Seq<char>,
    value: Option<Data>,
) -> Map<Seq<char>, Data> {
    match value {
        Some(v) => members.insert(name, v),
        None => members,
    }
}

/// A text as a value, where it is there.
pub open spec fn text_member(text: Option<Seq<char>>) -> Option<Data> {
    match text {
        Some(t) => Some(Data::Text(t)),
        None => None,
    }
}

/// The members of a prompt as sessions take it.
pub open spec fn prompt_members(p: PromptView) -> Map<Seq<char>, Data> {
    with_member(
        with_member(
            with_member(
                with_member(map!["text"@ => Data::Text(p.text)], "content"@, p.content),
                "attachments"@,
                p.attachments,
            ),
            "reasoning"@,
            text_member(p.reasoning),
        ),
        "service_tier"@,
        text_member(p.service_tier),
    )
}

/// A prompt has text or files, and no more text than may be.
pub open spec fn prompt_refused(p: PromptView) -> Option<ErrorView> {
    if (blank(p.text) && !has_attachments(p.attachments)) || byte_len(p.text) > 32768 {
        Some(ErrorView::Conflict("prompt must contain 1-32768 bytes of text"@))
    } else {
        None
    }
}

/// What sessions are asked.
pub open spec fn asked(refused: Option<ErrorView>, input: Data) -> Result<Data, ErrorView> {
    match refused {
        Some(e) => Err(e),
        None => Ok(input),
    }
}

/// The view of what sessions are asked.
pub open spec fn input_result(r: Result<Json, Error>) -> Result<Data, ErrorView> {
    match r {
        Ok(v) => Ok(v@),
        Err(e) => Err(e@),
    }
}

impl Prompt {
    fn members(&self) -> (r: crate::json::Fields)
        ensures
            r@ == prompt_members(self@),
    {
        let mut fields = object().with_text("text", self.text.as_str());
        if let Some(content) = &self.content {
            fields.set("content", content.duplicate());
        }
        if let Some(attachments) = &self.attachments {
            fields.set("attachments", attachments.duplicate());
        }
        if let Some(reasoning) = &self.reasoning {
            fields.set("reasoning", Json::text(reasoning.as_str()));
        }
        if let Some(tier) = &self.service_tier {
            fields.set("service_tier", Json::text(tier.as_str()));
        }
        fields
    }

    fn check(&self) -> (r: Result<(), Error>)
        ensures
            verdict(r) == prompt_refused(self@),
    {
        let attached = match &self.attachments {
            Some(a) => a.items().len() > 0,
            None => false,
        };
        if (is_blank(self.text.as_str()) && !attached) || size(self.text.as_str()) > 32768 {
            return Err(Error::conflict("prompt must contain 1-32768 bytes of text"));
        }
        Ok(())
    }

    /// The prompt as sessions take it.
    pub fn prompt_input(&self) -> (r: Result<Json, Error>)
        ensures
            input_result(r) == asked(prompt_refused(self@), Data::Object(prompt_members(self@))),
    {
        match self.check() {
            Err(e) => Err(e),
            Ok(()) => Ok(Json::Object(self.members())),
        }
    }

    /// What a session is asked for a new prompt.
    pub fn prompt(&self) -> (r: Result<Json, Error>)
        ensures
            input_result(r) == match key_refused(self@.request_id) {
                Some(e) => Err(e),
                None => asked(prompt_refused(self@), Data::Object(prompt_members(self@))),
            },
    {
        match key(self.request_id.as_str()) {
            Err(e) => Err(e),
            Ok(()) => self.prompt_input(),
        }
    }

    /// What a session is asked for a change of a prompt that waits.
    pub fn edit(&self, target: &str, revision: u64) -> (r: Result<Json, Error>)
        ensures
            input_result(r) == match (key_refused(self@.request_id), key_refused(target@)) {
                (Some(e), _) => Err(e),
                (_, Some(e)) => Err(e),
                _ => asked(
                    prompt_refused(self@),
                    Data::Object(
                        prompt_members(self@).insert(
                            "target_request_id"@,
                            Data::Text(target@),
                        ).insert("expected_revision"@, uint(revision)),
                    ),
                ),
            },
    {
        if let Err(e) = key(self.request_id.as_str()) {
            return Err(e);
        }
        if let Err(e) = key(target) {
            return Err(e);
        }
        if let Err(e) = self.check() {
            return Err(e);
        }
        let mut fields = self.members();
        fields.set("target_request_id", Json::text(target));
        fields.set("expected_revision", Json::uint(revision));
        Ok(Json::Object(fields))
    }
}

/// Refuses a level that is none. A request that is known is not looked at again, so that a retry does
/// not depend on how things stand now.
pub fn check_level(known: bool, reasoning: Option<&str>) -> (r: Result<(), Error>)
    ensures
        verdict(r) == if !known && reasoning is Some && !level(opt_str(reasoning)->0) {
            Some(ErrorView::Conflict("invalid reasoning effort"@))
        } else {
            None
        },
{
    if !known {
        if let Some(l) = reasoning {
            if !is_level(l) {
                return Err(Error::conflict("invalid reasoning effort"));
            }
        }
    }
    Ok(())
}

/// A request without more to say.
pub fn plain(request: &str) -> (r: Result<Json, Error>)
    ensures
        input_result(r) == asked(key_refused(request@), Data::Object(Map::empty())),
{
    match key(request) {
        Err(e) => Err(e),
        Ok(()) => Ok(Json::Object(object())),
    }
}

/// A request about another one.
pub fn targeted(request: &str, target: &str) -> (r: Result<Json, Error>)
    ensures
        input_result(r) == match key_refused(request@) {
            Some(e) => Err(e),
            None => asked(
                key_refused(target@),
                Data::Object(map!["target_request_id"@ => Data::Text(target@)]),
            ),
        },
{
    if let Err(e) = key(request) {
        return Err(e);
    }
    if let Err(e) = key(target) {
        return Err(e);
    }
    Ok(Json::Object(object().with_text("target_request_id", target)))
}

/// More to consider for the turn that runs.
pub fn steer(request: &str, target: &str, text: &str) -> (r: Result<Json, Error>)
    ensures
        input_result(r) == match (key_refused(request@), key_refused(target@)) {
            (Some(e), _) => Err(e),
            (_, Some(e)) => Err(e),
            _ => if blank(text@) || byte_len(text@) > 32768 {
                Err(ErrorView::Conflict("prompt must contain 1-32768 bytes of text"@))
            } else {
                Ok(
                    Data::Object(
                        map![
                            "target_request_id"@ => Data::Text(target@),
                            "text"@ => Data::Text(text@)
                        ],
                    ),
                )
            },
        },
{
    if let Err(e) = key(request) {
        return Err(e);
    }
    if let Err(e) = key(target) {
        return Err(e);
    }
    if is_blank(text) || size(text) > 32768 {
        return Err(Error::conflict("prompt must contain 1-32768 bytes of text"));
    }
    Ok(Json::Object(object().with_text("target_request_id", target).with_text("text", text)))
}

/// What a session is asked for going back in its conversation.
pub open spec fn rewind_asked(
    request: Seq<char>,
    before: Option<Seq<char>>,
    last_turn: Option<Seq<char>>,
    replacement: Option<PromptView>,
) -> Result<Data, ErrorView> {
    let base = with_member(
        with_member(Map::empty(), "before"@, text_member(before)),
        "last_turn_id"@,
        text_member(last_turn),
    );
    match (key_refused(request), replacement) {
        (Some(e), _) => Err(e),
        (None, None) => Ok(Data::Object(base)),
        (None, Some(p)) => match (key_refused(p.request_id), prompt_refused(p)) {
            (Some(e), _) => Err(e),
            (_, Some(e)) => Err(e),
            _ => Ok(
                Data::Object(
                    base.insert(
                        "replacement"@,
                        Data::Object(
                            map![
                                "request_id"@ => Data::Text(p.request_id),
                                "input"@ => Data::Object(prompt_members(p))
                            ],
                        ),
                    ),
                ),
            ),
        },
    }
}

/// The view of an optional prompt.
pub open spec fn opt_prompt(p: Option<&Prompt>) -> Option<PromptView> {
    match p {
        Some(p) => Some(p@),
        None => None,
    }
}

/// What a session is asked for going back in its conversation.
pub fn rewind(
    request: &str,
    before: Option<&str>,
    last_turn: Option<&str>,
    replacement: Option<&Prompt>,
) -> (r: Result<Json, Error>)
    ensures
        input_result(r) == rewind_asked(
            request@,
            opt_str(before),
            opt_str(last_turn),
            opt_prompt(replacement),
        ),
{
    if let Err(e) = key(request) {
        return Err(e);
    }
    let mut fields = object();
    assert(fields@ =~= Map::empty());
    if let Some(before) = before {
        fields.set("before", Json::text(before));
    }
    if let Some(turn) = last_turn {
        fields.set("last_turn_id", Json::text(turn));
    }
    if let Some(p) = replacement {
        if let Err(e) = key(p.request_id.as_str()) {
            return Err(e);
        }
        let input = match p.prompt_input() {
            Ok(input) => input,
            Err(e) => {
                return Err(e);
            },
        };
        fields.set(
            "replacement",
            Json::Object(
                object().with_text("request_id", p.request_id.as_str()).with("input", input),
            ),
        );
    }
    Ok(Json::Object(fields))
}

// Files that come along.

/// An upload that was made before is the same one only with the same name and kind.
pub open spec fn upload_differs(
    receipt: Option<ReceiptView>,
    name: Seq<char>,
    kind: Seq<char>,
) -> bool {
    match receipt {
        None => false,
        Some(r) => r.command != "attach"@ || !r.input.field("name"@).is_text(name)
            || !r.input.field("kind"@).is_text(kind),
    }
}

/// What the service knows when a file comes.
#[derive(Clone, Copy, PartialEq, Eq, Structural, Debug)]
pub struct Uploading {
    /// The session works in a folder.
    pub placed: bool,
    /// The folder is one of the service's own, or is still known.
    pub mapped: bool,
    pub recording: bool,
    pub stopping: bool,
    pub blocked: bool,
}

/// Why a file is refused before it is read.
pub open spec fn upload_refused(
    request: Seq<char>,
    receipt: Option<ReceiptView>,
    name: Seq<char>,
    kind: Seq<char>,
    u: Uploading,
) -> Option<ErrorView> {
    if key_refused(request) is Some {
        key_refused(request)
    } else if upload_differs(receipt, name, kind) {
        Some(ErrorView::Conflict("request_id already has different content"@))
    } else if !u.placed {
        Some(ErrorView::Conflict("invalid workspace"@))
    } else if !u.mapped {
        Some(ErrorView::Conflict("workspace mapping unavailable"@))
    } else if !u.recording {
        Some(ErrorView::Storage("recording is not available"@))
    } else if u.stopping || u.blocked {
        Some(ErrorView::Conflict("storage unsafe; uploads are blocked"@))
    } else {
        None
    }
}

/// The view of a receipt that may be known.
pub open spec fn opt_known(receipt: Option<&Receipt>) -> Option<ReceiptView> {
    match receipt {
        Some(r) => Some(r@),
        None => None,
    }
}

/// Refuses a file before it is read.
pub fn check_upload(
    request: &str,
    receipt: Option<&Receipt>,
    name: &str,
    kind: &str,
    u: Uploading,
) -> (r: Result<(), Error>)
    ensures
        verdict(r) == upload_refused(request@, opt_known(receipt), name@, kind@, u),
{
    if let Err(e) = key(request) {
        return Err(e);
    }
    if let Some(known) = receipt {
        if !same(known.command.as_str(), "attach") || !known.input.field_is("name", name)
            || !known.input.field_is("kind", kind) {
            return Err(Error::conflict("request_id already has different content"));
        }
    }
    if !u.placed {
        return Err(Error::conflict("invalid workspace"));
    }
    if !u.mapped {
        return Err(Error::conflict("workspace mapping unavailable"));
    }
    if !u.recording {
        return Err(Error::Storage("recording is not available".to_owned()));
    }
    if u.stopping || u.blocked {
        return Err(Error::conflict("storage unsafe; uploads are blocked"));
    }
    Ok(())
}

/// Why a file could not be kept.
#[derive(Clone, Copy, PartialEq, Eq, Structural, Debug)]
pub enum UploadFault {
    Blocked,
    Exists,
    Denied,
    TooLarge,
    Other,
}

/// What is said of a file that could not be kept.
pub fn upload_failed(why: UploadFault, kind: &str) -> (r: Error)
    ensures
        r@ == ErrorView::Conflict(
            match why {
                UploadFault::Blocked => "storage unsafe; uploads are blocked"@,
                UploadFault::Exists => "request_id already has different content"@,
                UploadFault::Denied => "Cloud folder permission denied"@,
                UploadFault::TooLarge => if kind@ == "image"@ {
                    "image exceeds the 10 MiB limit"@
                } else {
                    "file exceeds the 25 MiB limit"@
                },
                UploadFault::Other => "attachment upload failed"@,
            },
        ),
{
    Error::conflict(
        match why {
            UploadFault::Blocked => "storage unsafe; uploads are blocked",
            UploadFault::Exists => "request_id already has different content",
            UploadFault::Denied => "Cloud folder permission denied",
            UploadFault::TooLarge => if same(kind, "image") {
                "image exceeds the 10 MiB limit"
            } else {
                "file exceeds the 25 MiB limit"
            },
            UploadFault::Other => "attachment upload failed",
        },
    )
}

// Answers.

/// The status of an error.
pub open spec fn error_status(e: ErrorView) -> u16 {
    match e {
        ErrorView::NotFound => 404,
        ErrorView::Conflict(_) => 409,
        ErrorView::Storage(_) => 503,
    }
}

/// The words of an error.
pub open spec fn error_words(e: ErrorView) -> Seq<char> {
    match e {
        ErrorView::NotFound => "session not found"@,
        ErrorView::Conflict(message) => message,
        ErrorView::Storage(_) => "storage unavailable; retry with the same request_id"@,
    }
}

/// The code by which clients tell errors apart.
pub open spec fn error_code(words: Seq<char>) -> Seq<char> {
    if words == "invalid model"@ {
        "invalid_model"@
    } else if words == "invalid provider"@ || words == "provider selection requires Pi"@ {
        "invalid_provider"@
    } else if words == "invalid reasoning effort"@ {
        "invalid_reasoning_effort"@
    } else if words == "invalid service tier"@ {
        "invalid_service_tier"@
    } else if words == "Cloud folder permission denied"@ {
        "attachment_permission_denied"@
    } else if words == "attachment upload failed"@ {
        "invalid_attachment"@
    } else if words == "image exceeds the 10 MiB limit"@ || words
        == "file exceeds the 25 MiB limit"@ {
        "attachment_too_large"@
    } else if words == "request_id already has different content"@ || words
        == "session already exists"@ || words == "saved session has no matching receipt"@ {
        "request_conflict"@
    } else if words == "agent setup is incomplete"@ || words == "harness is not configured"@ {
        "harness_not_configured"@
    } else if words == "invalid workspace"@ || words == "workspace mapping unavailable"@ {
        "invalid_workspace"@
    } else if words == "storage unsafe; new execution is blocked"@ {
        "storage_blocked"@
    } else if words == "service is stopping"@ {
        "service_stopping"@
    } else if words == "model catalog unavailable"@ {
        "model_catalog_unavailable"@
    } else {
        "request_rejected"@
    }
}

/// The code by which clients tell errors apart.
pub fn code(words: &str) -> (r: &'static str)
    ensures
        r@ == error_code(words@),
{
    if same(words, "invalid model") {
        "invalid_model"
    } else if same(words, "invalid provider") || same(words, "provider selection requires Pi") {
        "invalid_provider"
    } else if same(words, "invalid reasoning effort") {
        "invalid_reasoning_effort"
    } else if same(words, "invalid service tier") {
        "invalid_service_tier"
    } else if same(words, "Cloud folder permission denied") {
        "attachment_permission_denied"
    } else if same(words, "attachment upload failed") {
        "invalid_attachment"
    } else if same(words, "image exceeds the 10 MiB limit") || same(
        words,
        "file exceeds the 25 MiB limit",
    ) {
        "attachment_too_large"
    } else if same(words, "request_id already has different content") || same(
        words,
        "session already exists",
    ) || same(words, "saved session has no matching receipt") {
        "request_conflict"
    } else if same(words, "agent setup is incomplete") || same(words, "harness is not configured") {
        "harness_not_configured"
    } else if same(words, "invalid workspace") || same(words, "workspace mapping unavailable") {
        "invalid_workspace"
    } else if same(words, "storage unsafe; new execution is blocked") {
        "storage_blocked"
    } else if same(words, "service is stopping") {
        "service_stopping"
    } else if same(words, "model catalog unavailable") {
        "model_catalog_unavailable"
    } else {
        "request_rejected"
    }
}

/// An answer: its status and what is sent.
#[derive(Debug)]
pub struct Answer {
    pub status: u16,
    pub body: Json,
}

/// The mathematical value of an answer.
pub struct AnswerView {
    pub status: u16,
    pub body: Data,
}

impl View for Answer {
    type V = AnswerView;

    open spec fn view(&self) -> AnswerView {
        AnswerView { status: self.status, body: self.body@ }
    }
}

/// The answer to a request that fails.
pub fn error_answer(e: &Error) -> (r: Answer)
    ensures
        r@ == (AnswerView {
            status: error_status(e@),
            body: Data::Object(
                map![
                    "error"@ => Data::Text(error_words(e@)),
                    "code"@ => Data::Text(error_code(error_words(e@)))
                ],
            ),
        }),
{
    let (status, words) = match e {
        Error::NotFound => (404, "session not found"),
        Error::Conflict(message) => (409, message.as_str()),
        Error::Storage(_) => (503, "storage unavailable; retry with the same request_id"),
    };
    Answer {
        status,
        body: Json::Object(object().with_text("error", words).with_text("code", code(words))),
    }
}

/// The answer to a request that is taken.
pub fn accepted(session: &str, receipt: &Receipt, saving: Json) -> (r: Answer)
    ensures
        r@ == (AnswerView {
            status: 202,
            body: Data::Object(
                map![
                    "session_id"@ => Data::Text(session@),
                    "receipt"@ => crate::session::receipt_json(receipt@),
                    "saving"@ => saving@
                ],
            ),
        }),
{
    Answer {
        status: 202,
        body: Json::Object(
            object().with_text("session_id", session).with("receipt", receipt.to_json()).with(
                "saving",
                saving,
            ),
        ),
    }
}

/// Whether the service can be used.
pub fn ready(usable: bool) -> (r: Answer)
    ensures
        r@ == (AnswerView {
            status: if usable {
                200
            } else {
                503
            },
            body: Data::Object(map!["ready"@ => Data::Bool(usable)]),
        }),
{
    let status: u16 = if usable {
        200
    } else {
        503
    };
    Answer { status, body: Json::Object(object().with("ready", Json::Bool(usable))) }
}

/// What was found of a folder.
#[derive(Debug)]
pub enum Folder {
    Found(Json),
    Missing,
    Unreadable,
}

/// What is told of a folder.
pub fn workspace(found: Folder) -> (r: Answer)
    ensures
        r@ == match found {
            Folder::Found(w) => AnswerView { status: 200, body: w@ },
            Folder::Missing => AnswerView {
                status: 404,
                body: Data::Object(map!["error"@ => Data::Text("workspace not found"@)]),
            },
            Folder::Unreadable => AnswerView {
                status: 409,
                body: Data::Object(map!["error"@ => Data::Text("workspace unavailable"@)]),
            },
        },
{
    match found {
        Folder::Found(w) => Answer { status: 200, body: w },
        Folder::Missing => Answer {
            status: 404,
            body: Json::Object(object().with_text("error", "workspace not found")),
        },
        Folder::Unreadable => Answer {
            status: 409,
            body: Json::Object(object().with_text("error", "workspace unavailable")),
        },
    }
}

// What holds of requests.

/// Every name of a request can stand in a path and in a header.
pub proof fn names_are_plain(value: Seq<char>, i: int)
    requires
        request_name(value),
        0 <= i < value.len(),
    ensures
        !control(value[i]),
        !space(value[i]),
        value[i] != '/',
{
    reveal_strlit("_-");
    assert("_-"@.len() == 2 && "_-"@[0] == '_' && "_-"@[1] == '-');
    assert(crate::text::in_class(value[i], Class::Alnum) || "_-"@.contains(value[i]));
}

} // verus!
