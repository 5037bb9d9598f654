//! A driver that speaks the Agent Client Protocol for Cursor's print mode, in which every variant
//! of a model can be used: it runs one command for each prompt.
use super::codex::opt_json;
use super::cursor::{chat_id, valid_id};
use super::cursor_models::{has_space, some_space};
use super::last_of;
use super::md5::{digest, md5_hex};
use crate::hex::hex_bytes;
use crate::json::{
    no_json, object, opt_text, push_json, uint, values, Data, Json, Negative, Number, Numeral,
};
use crate::table::in_order;
use crate::text::{
    after_prefix, blank, byte_len, capitals, chars_of, concat, concat3, deep, ends_with, find_from,
    finishes, found_from, is_blank, lines, lines_of, lower_of, opt, opt_copy, opt_slice, opt_str,
    push_text, replace, replaced, same, same_opt, signed_decimal, signed_decimal_of, smalls,
    stands_at, string_of, trim, trimmed, upper_of,
};
use crate::wire::{bytes_read, denoted, parse_bytes, read_json, write_json, written};
use vstd::prelude::*;
use vstd::slice::slice_subrange;
use vstd::utf8::encode_utf8;

verus! {

// Small things.

/// A value counts as true: it is there, and not zero, false or empty.
pub open spec fn truthy(value: Data) -> bool {
    match value {
        Data::Null => false,
        Data::Bool(b) => b,
        Data::Number(Number::Unsigned(n)) => n != 0,
        Data::Number(Number::Negative(n)) => n != 0,
        Data::Number(Number::Double(bits)) => bits != 0 && bits != 0x8000_0000_0000_0000,
        Data::Text(t) => t.len() > 0,
        Data::Array(items) => items.len() > 0,
        Data::Object(m) => m != Map::<Seq<char>, Data>::empty(),
    }
}

/// Whether a value counts as true.
pub fn is_truthy(value: &Json) -> (r: bool)
    ensures
        r == truthy(value@),
{
    match value {
        Json::Null => false,
        Json::Bool(b) => *b,
        Json::Number(Numeral::Unsigned(n)) => *n != 0,
        Json::Number(Numeral::Negative(n)) => n.value() != 0,
        Json::Number(Numeral::Double(d)) => {
            let bits = d.bits();
            bits != 0 && bits != 0x8000_0000_0000_0000
        },
        Json::Text(t) => chars_of(t.as_str()).len() > 0,
        Json::Array(items) => items.len() > 0,
        Json::Object(fields) => {
            if fields.entries.len() > 0 {
                proof {
                    crate::json::members_has(fields.entries@, 0);
                    assert(fields@.contains_key(fields.entries@[0].0@));
                }
                true
            } else {
                assert(fields@ =~= Map::<Seq<char>, Data>::empty());
                false
            }
        },
    }
}

/// A value that counts as true, or an empty object.
pub open spec fn or_empty(value: Data) -> Data {
    if truthy(value) {
        value
    } else {
        Data::Object(Map::empty())
    }
}

fn or_object(value: &Json) -> (r: Json)
    ensures
        r@ == or_empty(value@),
{
    if is_truthy(value) {
        value.duplicate()
    } else {
        Json::Object(object())
    }
}

/// A value in words: a string as it is, anything else as JSON.
pub open spec fn in_words(value: Data) -> Seq<char> {
    match value {
        Data::Text(t) => t,
        _ => written(value),
    }
}

fn words_for(value: &Json) -> (r: String)
    ensures
        r@ == in_words(value@),
{
    match value.as_text() {
        Some(t) => t.to_owned(),
        None => write_json(value),
    }
}

/// The small forms of characters.
pub open spec fn all_small(text: Seq<char>) -> Seq<char>
    decreases text.len(),
{
    if text.len() == 0 {
        Seq::empty()
    } else {
        all_small(text.drop_last()) + smalls(text.last())
    }
}

/// A text with its first character in capital form and the others in small form.
pub open spec fn capitalized(text: Seq<char>) -> Seq<char> {
    if text.len() == 0 {
        text
    } else {
        capitals(text[0]) + all_small(text.subrange(1, text.len() as int))
    }
}

/// A text with its first character in capital form and the others in small form.
pub fn capitalize(text: &str) -> (r: String)
    ensures
        r@ == capitalized(text@),
{
    let chars = chars_of(text);
    if chars.len() == 0 {
        assert(text@ =~= Seq::empty());
        return String::new();
    }
    let mut out = upper_of(chars[0]);
    let ghost first = out@;
    let ghost rest = text@.subrange(1, text@.len() as int);
    let mut i: usize = 1;
    assert(rest.take(0) =~= Seq::empty());
    assert(first + Seq::<char>::empty() =~= first);
    while i < chars.len()
        invariant
            1 <= i <= chars.len(),
            chars@ == text@,
            rest == text@.subrange(1, text@.len() as int),
            out@ == first + all_small(rest.take(i - 1)),
        decreases chars.len() - i,
    {
        assert(rest.take(i as int).drop_last() =~= rest.take(i - 1));
        assert(rest.take(i as int).last() == chars@[i as int]);
        let ghost was = out@;
        push_text(&mut out, lower_of(chars[i]).as_str());
        assert(out@ =~= first + all_small(rest.take(i as int)));
        i += 1;
    }
    assert(rest.take(i - 1) =~= rest);
    out
}

/// The last characters of a text.
pub fn tail(text: &str, count: usize) -> (r: String)
    ensures
        r@ == last_of(text@, count as int),
{
    let chars = chars_of(text);
    let start = if chars.len() > count {
        chars.len() - count
    } else {
        0
    };
    let end = slice_subrange(chars.as_slice(), start, chars.len());
    assert(end@ =~= last_of(text@, count as int));
    string_of(end)
}

// Frames.

/// An answer.
pub open spec fn result_frame(request: Data, result: Data) -> Data {
    Data::Object(map!["jsonrpc"@ => Data::Text("2.0"@), "id"@ => request, "result"@ => result])
}

/// A refusal.
pub open spec fn error_frame(request: Data, code: i64, message: Seq<char>) -> Data {
    Data::Object(
        map![
            "jsonrpc"@ => Data::Text("2.0"@),
            "id"@ => request,
            "error"@ => Data::Object(
                map![
                    "code"@ => Data::Number(Number::Negative(code)),
                    "message"@ => Data::Text(message)
                ],
            )
        ],
    )
}

/// News of the session.
pub open spec fn update_frame(session: Option<Seq<char>>, kind: Seq<char>, fields: Data) -> Data {
    Data::Object(
        map![
            "jsonrpc"@ => Data::Text("2.0"@),
            "method"@ => Data::Text("session/update"@),
            "params"@ => Data::Object(
                map![
                    "sessionId"@ => opt_text(session),
                    "update"@ => fields.with("sessionUpdate"@, Data::Text(kind))
                ],
            )
        ],
    )
}

fn frame_result(request: &Json, result: Json) -> (r: Json)
    ensures
        r@ == result_frame(request@, result@),
{
    Json::Object(
        object().with_text("jsonrpc", "2.0").with("id", request.duplicate()).with(
            "result",
            result,
        ),
    )
}

fn frame_error(request: &Json, code: i64, message: &str) -> (r: Json)
    requires
        code < 0,
    ensures
        r@ == error_frame(request@, code, message@),
{
    Json::Object(
        object().with_text("jsonrpc", "2.0").with("id", request.duplicate()).with(
            "error",
            Json::Object(
                object().with(
                    "code",
                    Json::Number(Numeral::Negative(Negative::new(code))),
                ).with_text("message", message),
            ),
        ),
    )
}

/// The refusal of a call whose parameters cannot be used.
pub fn refuse(request: &Json, message: &str) -> (r: Json)
    ensures
        r@ == error_frame(request@, (-32602) as i64, message@),
{
    frame_error(request, -32602, message)
}

// Output of a turn.

/// What a line of the output comes to: the part of the message so far, and the news of it.
pub struct SpokenView {
    pub segment: Seq<char>,
    pub news: Option<Data>,
}

/// The texts of blocks, one after the other.
pub open spec fn block_texts(blocks: Seq<Data>) -> Seq<char>
    decreases blocks.len(),
{
    if blocks.len() == 0 {
        Seq::empty()
    } else {
        let before = block_texts(blocks.drop_last());
        match blocks.last().field("text"@).as_text() {
            Some(t) => if blocks.last().field("type"@).is_text("text"@) {
                before + t
            } else {
                before
            },
            None => before,
        }
    }
}

/// The texts of blocks, one after the other.
pub fn texts_of_blocks(blocks: &[Json]) -> (r: String)
    ensures
        r@ == block_texts(values(blocks@)),
{
    let ghost all = values(blocks@);
    let mut out = String::new();
    let mut i: usize = 0;
    assert(all.take(0) =~= Seq::empty());
    while i < blocks.len()
        invariant
            i <= blocks.len(),
            all == values(blocks@),
            out@ == block_texts(all.take(i as int)),
        decreases blocks.len() - i,
    {
        assert(all.take(i + 1).drop_last() =~= all.take(i as int));
        assert(all.take(i + 1).last() == blocks@[i as int]@);
        if blocks[i].field_is("type", "text") {
            if let Some(t) = blocks[i].field_text("text") {
                push_text(&mut out, t);
            }
        }
        i += 1;
    }
    assert(all.take(i as int) =~= all);
    out
}

/// A piece of text in the chat.
pub open spec fn text_content(text: Data) -> Data {
    Data::Object(
        map!["content"@ => Data::Object(map!["type"@ => Data::Text("text"@), "text"@ => text])],
    )
}

/// The first key, in order, that names a call of a tool.
pub open spec fn tool_key(keys: Seq<Seq<char>>) -> Option<Seq<char>>
    decreases keys.len(),
{
    if keys.len() == 0 {
        None
    } else {
        match tool_key(keys.drop_last()) {
            Some(key) => Some(key),
            None => if finishes(keys.last(), "ToolCall"@) {
                Some(keys.last())
            } else {
                None
            },
        }
    }
}

/// The tool that a call names, and the call.
pub open spec fn tool_call(call: Data) -> (Seq<char>, Data) {
    match call {
        Data::Object(m) => match tool_key(in_order(m)) {
            Some(key) => (key, m[key]),
            None => ("toolCall"@, Data::Null),
        },
        _ => ("toolCall"@, Data::Null),
    }
}

/// The first of two values that counts as true.
pub open spec fn first_truthy(a: Data, b: Data) -> Option<Data> {
    if truthy(a) {
        Some(a)
    } else if truthy(b) {
        Some(b)
    } else {
        None
    }
}

/// The identity of a call of a tool, in one line.
pub open spec fn tool_id(event: Data) -> Seq<char> {
    let id = match first_truthy(event.field("call_id"@), event.field("tool_call"@).field("toolCallId"@)) {
        Some(id) => in_words(id),
        None => "None"@,
    };
    replaced(id, "\n"@, "/"@)
}

/// The kind of a tool.
pub open spec fn tool_kind(name: Seq<char>) -> Seq<char> {
    if name.len() >= 8 {
        name.take(name.len() - 8)
    } else {
        Seq::empty()
    }
}

/// What a tool is called.
pub open spec fn tool_title(name: Seq<char>, args: Data) -> Data {
    match first_truthy(args.field("toolName"@), args.field("name"@)) {
        Some(title) => if name == "mcpToolCall"@ {
            title
        } else {
            Data::Text(capitalized(tool_kind(name)))
        },
        None => Data::Text(capitalized(tool_kind(name))),
    }
}

/// The news of a tool.
pub open spec fn tool_news(session: Option<Seq<char>>, event: Data) -> Option<Data> {
    let (name, body) = tool_call(event.field("tool_call"@));
    let args = or_empty(body.field("args"@));
    let result = or_empty(body.field("result"@));
    if event.field("subtype"@).is_text("started"@) {
        Some(
            update_frame(
                session,
                "tool_call"@,
                Data::Object(
                    map![
                        "toolCallId"@ => Data::Text(tool_id(event)),
                        "title"@ => tool_title(name, args),
                        "kind"@ => Data::Text(tool_kind(name)),
                        "status"@ => Data::Text("in_progress"@),
                        "rawInput"@ => args
                    ],
                ),
            ),
        )
    } else if event.field("subtype"@).is_text("completed"@) {
        Some(
            update_frame(
                session,
                "tool_call_update"@,
                Data::Object(
                    map![
                        "toolCallId"@ => Data::Text(tool_id(event)),
                        "status"@ => Data::Text(
                            if result.get("success"@) is Some {
                                "completed"@
                            } else {
                                "failed"@
                            },
                        ),
                        "rawOutput"@ => result
                    ],
                ),
            ),
        )
    } else {
        None
    }
}

/// What a line of the output comes to. The output repeats each finished part of a message in full;
/// that copy is passed over.
pub open spec fn translated(session: Option<Seq<char>>, event: Data, segment: Seq<char>) -> SpokenView {
    let kind = event.field("type"@);
    if kind.is_text("assistant"@) {
        let chunk = block_texts(event.field("message"@).field("content"@).items());
        if chunk.len() == 0 || chunk == segment {
            SpokenView { segment, news: None }
        } else {
            SpokenView {
                segment: segment + chunk,
                news: Some(
                    update_frame(
                        session,
                        "agent_message_chunk"@,
                        text_content(Data::Text(chunk)),
                    ),
                ),
            }
        }
    } else if kind.is_text("thinking"@) && truthy(event.field("text"@)) {
        SpokenView {
            segment: Seq::empty(),
            news: Some(
                update_frame(session, "agent_thought_chunk"@, text_content(event.field("text"@))),
            ),
        }
    } else if kind.is_text("tool_call"@) {
        SpokenView { segment: Seq::empty(), news: tool_news(session, event) }
    } else {
        SpokenView { segment: Seq::empty(), news: None }
    }
}

fn update(session: Option<&str>, kind: &str, fields: Json) -> (r: Json)
    ensures
        r@ == update_frame(opt_str(session), kind@, fields@),
{
    let mut told = fields;
    told.put("sessionUpdate", Json::text(kind));
    Json::Object(
        object().with_text("jsonrpc", "2.0").with_text("method", "session/update").with(
            "params",
            Json::Object(
                object().with("sessionId", Json::opt_text(session)).with("update", told),
            ),
        ),
    )
}

fn content_of(text: Json) -> (r: Json)
    ensures
        r@ == text_content(text@),
{
    Json::Object(
        object().with(
            "content",
            Json::Object(object().with_text("type", "text").with("text", text)),
        ),
    )
}

fn find_tool(call: &Json) -> (r: (String, Json))
    ensures
        (r.0@, r.1@) == tool_call(call@),
{
    let fields = match call.as_object() {
        Some(fields) => fields,
        None => {
            return ("toolCall".to_owned(), Json::Null);
        },
    };
    let sorted = fields.sorted();
    let count = sorted.len();
    let ghost keys = in_order(sorted@);
    let mut i: usize = 0;
    assert(keys.take(0) =~= Seq::empty());
    while i < count
        invariant
            i <= count,
            count == keys.len(),
            keys == in_order(sorted@),
            call@ == Data::Object(sorted@),
            tool_key(keys.take(i as int)) is None,
        decreases count - i,
    {
        assert(keys.take(i + 1).drop_last() =~= keys.take(i as int));
        let key = sorted.key_at(i);
        if ends_with(key, "ToolCall") {
            proof {
                tool_key_stays(keys, i + 1);
            }
            return (key.to_owned(), sorted.value_at(i).duplicate());
        }
        i += 1;
    }
    assert(keys.take(i as int) =~= keys);
    ("toolCall".to_owned(), Json::Null)
}

proof fn tool_key_stays(keys: Seq<Seq<char>>, i: int)
    requires
        0 <= i <= keys.len(),
        tool_key(keys.take(i)) is Some,
    ensures
        tool_key(keys) == tool_key(keys.take(i)),
    decreases keys.len() - i,
{
    if i < keys.len() {
        assert(keys.take(i + 1).drop_last() =~= keys.take(i));
        tool_key_stays(keys, i + 1);
    } else {
        assert(keys.take(i) =~= keys);
    }
}

fn id_of_tool(event: &Json) -> (r: String)
    ensures
        r@ == tool_id(event@),
{
    let a = event.field("call_id");
    let b = event.field("tool_call").field("toolCallId");
    let id = if is_truthy(a) {
        words_for(a)
    } else if is_truthy(b) {
        words_for(b)
    } else {
        "None".to_owned()
    };
    let chars = chars_of(id.as_str());
    let from = chars_of("\n");
    let by = chars_of("/");
    proof {
        reveal_strlit("\n");
        assert("\n"@.len() == 1);
    }
    string_of(replace(chars.as_slice(), from.as_slice(), by.as_slice()).as_slice())
}

fn kind_of_tool(name: &str) -> (r: String)
    ensures
        r@ == tool_kind(name@),
{
    let chars = chars_of(name);
    if chars.len() >= 8 {
        let head = slice_subrange(chars.as_slice(), 0, chars.len() - 8);
        assert(head@ =~= tool_kind(name@));
        string_of(head)
    } else {
        String::new()
    }
}

fn title_of_tool(name: &str, args: &Json) -> (r: Json)
    ensures
        r@ == tool_title(name@, args@),
{
    if same(name, "mcpToolCall") {
        let a = args.field("toolName");
        let b = args.field("name");
        if is_truthy(a) {
            return a.duplicate();
        }
        if is_truthy(b) {
            return b.duplicate();
        }
    }
    Json::Text(capitalize(kind_of_tool(name).as_str()))
}

fn tell_tool(session: Option<&str>, event: &Json) -> (r: Option<Json>)
    ensures
        opt_json(r) == tool_news(opt_str(session), event@),
{
    let (name, body) = find_tool(event.field("tool_call"));
    let id = id_of_tool(event);
    if event.field_is("subtype", "started") {
        let args = or_object(body.field("args"));
        let fields = object().with_text("toolCallId", id.as_str()).with(
            "title",
            title_of_tool(name.as_str(), &args),
        ).with_text("kind", kind_of_tool(name.as_str()).as_str()).with_text(
            "status",
            "in_progress",
        ).with("rawInput", args);
        return Some(update(session, "tool_call", Json::Object(fields)));
    }
    if event.field_is("subtype", "completed") {
        let result = or_object(body.field("result"));
        let status = if result.get("success").is_some() {
            "completed"
        } else {
            "failed"
        };
        let fields = object().with_text("toolCallId", id.as_str()).with_text(
            "status",
            status,
        ).with("rawOutput", result);
        return Some(update(session, "tool_call_update", Json::Object(fields)));
    }
    None
}

/// What a line of the output comes to: the part of the message so far, and the news of it.
pub fn translate(session: Option<&str>, event: &Json, segment: String) -> (r: (String, Option<Json>))
    ensures
        translated(opt_str(session), event@, segment@) == (SpokenView {
            segment: r.0@,
            news: opt_json(r.1),
        }),
{
    let kind = event.field("type");
    if kind.is_text("assistant") {
        let chunk = texts_of_blocks(event.field("message").field("content").items());
        if chars_of(chunk.as_str()).len() == 0 || same(chunk.as_str(), segment.as_str()) {
            return (segment, None);
        }
        let news = update(
            session,
            "agent_message_chunk",
            content_of(Json::text(chunk.as_str())),
        );
        return (concat(segment.as_str(), chunk.as_str()), Some(news));
    }
    if kind.is_text("thinking") && is_truthy(event.field("text")) {
        let news = update(
            session,
            "agent_thought_chunk",
            content_of(event.field("text").duplicate()),
        );
        return (String::new(), Some(news));
    }
    if kind.is_text("tool_call") {
        return (String::new(), tell_tool(session, event));
    }
    (String::new(), None)
}

/// What was heard of a turn: the part of the message so far, and how the turn ended, which is null
/// while nothing was told of it.
#[derive(Debug)]
pub struct Hearing {
    pub segment: String,
    pub outcome: Json,
}

/// The mathematical value of what was heard of a turn.
pub struct HearingView {
    pub segment: Seq<char>,
    pub outcome: Data,
}

impl View for Hearing {
    type V = HearingView;

    open spec fn view(&self) -> HearingView {
        HearingView { segment: self.segment@, outcome: self.outcome@ }
    }
}

/// What a line of the output adds to what was heard, and the news of it. Only objects are events, and
/// a line that is none changes nothing; the last result tells how the turn ended.
pub open spec fn heard(h: HearingView, session: Option<Seq<char>>, line: Seq<u8>) -> (
    HearingView,
    Option<Data>,
) {
    match bytes_read(line) {
        Ok(event) => if event is Object {
            let spoken = translated(session, event, h.segment);
            (
                HearingView {
                    segment: spoken.segment,
                    outcome: if event.field("type"@).is_text("result"@) {
                        event
                    } else {
                        h.outcome
                    },
                },
                spoken.news,
            )
        } else {
            (h, None)
        },
        Err(_) => (h, None),
    }
}

impl Hearing {
    /// Nothing was heard yet.
    pub fn new() -> (r: Hearing)
        ensures
            r@ == (HearingView { segment: Seq::empty(), outcome: Data::Null }),
    {
        let r = Hearing { segment: String::new(), outcome: Json::Null };
        assert(r@.segment =~= Seq::empty());
        r
    }

    /// Takes in a line of the output. Gives the news of it.
    pub fn hear(&mut self, session: Option<&str>, line: &[u8]) -> (r: Option<Json>)
        ensures
            (final(self)@, opt_json(r)) == heard(old(self)@, opt_str(session), line@),
    {
        let event = match parse_bytes(line) {
            Ok(event) => event,
            Err(_) => {
                return None;
            },
        };
        if event.as_object().is_none() {
            return None;
        }
        let (segment, news) = translate(session, &event, self.segment.clone());
        self.segment = segment;
        if event.field_is("type", "result") {
            self.outcome = event;
        }
        news
    }
}

/// One event that cannot be read does not end the turn: it says nothing, and what was heard stays.
pub proof fn unreadable_events_change_nothing(
    h: HearingView,
    session: Option<Seq<char>>,
    line: Seq<u8>,
)
    requires
        bytes_read(line) is Err || !(bytes_read(line)->Ok_0 is Object),
    ensures
        heard(h, session, line) == (h, None::<Data>),
{
}

/// Why a turn failed.
pub open spec fn failure_detail(outcome: Data, code: i32, stderr: Seq<char>) -> Seq<char> {
    if truthy(outcome.field("result"@)) {
        in_words(outcome.field("result"@))
    } else if !blank(stderr) {
        last_of(trimmed(stderr), 500)
    } else {
        "exit code "@ + signed_decimal(code as int)
    }
}

/// The answer to the call that began a turn, once the turn has ended.
pub open spec fn turn_answer(
    request: Data,
    cancelled: bool,
    outcome: Data,
    code: i32,
    stderr: Seq<char>,
) -> Data {
    if cancelled {
        result_frame(request, Data::Object(map!["stopReason"@ => Data::Text("cancelled"@)]))
    } else if !(outcome is Null) && !truthy(outcome.field("is_error"@)) {
        result_frame(request, Data::Object(map!["stopReason"@ => Data::Text("end_turn"@)]))
    } else {
        error_frame(
            request,
            (-32603) as i64,
            "Cursor turn failed: "@ + failure_detail(outcome, code, stderr),
        )
    }
}

/// The answer to the call that began a turn, once the turn has ended.
pub fn finish(request: &Json, cancelled: bool, outcome: &Json, code: i32, stderr: &str) -> (r: Json)
    ensures
        r@ == turn_answer(request@, cancelled, outcome@, code, stderr@),
{
    if cancelled {
        return frame_result(
            request,
            Json::Object(object().with_text("stopReason", "cancelled")),
        );
    }
    if !outcome.is_null() && !is_truthy(outcome.field("is_error")) {
        return frame_result(request, Json::Object(object().with_text("stopReason", "end_turn")));
    }
    let detail = if is_truthy(outcome.field("result")) {
        words_for(outcome.field("result"))
    } else if !is_blank(stderr) {
        let chars = chars_of(stderr);
        tail(string_of(trim(chars.as_slice())).as_str(), 500)
    } else {
        concat("exit code ", signed_decimal_of(code).as_str())
    };
    frame_error(request, -32603, concat("Cursor turn failed: ", detail.as_str()).as_str())
}

// Sessions.

/// The model that a line of the list names.
pub open spec fn model_line(line: Seq<char>) -> Option<Data> {
    match found_from(line, " "@, 0) {
        None => None,
        Some(i) => match after_prefix(line.subrange(i + 1, line.len() as int), "- "@) {
            None => None,
            Some(name) => if i > 0 && !some_space(line.take(i)) && name.len() > 0 {
                Some(
                    Data::Object(
                        map![
                            "modelId"@ => Data::Text(line.take(i)),
                            "name"@ => Data::Text(name)
                        ],
                    ),
                )
            } else {
                None
            },
        },
    }
}

/// The models that the lines of the list name.
pub open spec fn model_lines(all: Seq<Seq<char>>) -> Seq<Data>
    decreases all.len(),
{
    if all.len() == 0 {
        Seq::empty()
    } else {
        match model_line(all.last()) {
            Some(model) => model_lines(all.drop_last()).push(model),
            None => model_lines(all.drop_last()),
        }
    }
}

fn read_model(line: &[char]) -> (r: Option<Json>)
    ensures
        opt_json(r) == model_line(line@),
{
    proof {
        reveal_strlit(" ");
        reveal_strlit("- ");
        assert(" "@.len() == 1 && "- "@.len() == 2);
    }
    let blank_char = chars_of(" ");
    let dash = chars_of("- ");
    let i = match find_from(line, blank_char.as_slice(), 0) {
        Some(i) => i,
        None => {
            return None;
        },
    };
    let rest = slice_subrange(line, i + 1, line.len());
    if !stands_at(rest, dash.as_slice(), 0) {
        return None;
    }
    let name = slice_subrange(rest, 2, rest.len());
    let id = slice_subrange(line, 0, i);
    assert(id@ =~= line@.take(i as int));
    if i > 0 && !has_space(id) && name.len() > 0 {
        Some(
            Json::Object(
                object().with_text("modelId", string_of(id).as_str()).with_text(
                    "name",
                    string_of(name).as_str(),
                ),
            ),
        )
    } else {
        None
    }
}

fn read_models(stdout: &str) -> (r: Vec<Json>)
    ensures
        values(r@) == model_lines(lines(stdout@)),
{
    let chars = chars_of(stdout);
    let all = lines_of(chars.as_slice());
    let ghost whole = lines(stdout@);
    let mut out = no_json();
    let mut i: usize = 0;
    assert(whole.take(0) =~= Seq::empty());
    while i < all.len()
        invariant
            i <= all.len(),
            deep(all@) == whole,
            values(out@) == model_lines(whole.take(i as int)),
        decreases all.len() - i,
    {
        assert(whole.take(i + 1).drop_last() =~= whole.take(i as int));
        assert(whole.take(i + 1).last() == all@[i as int]@);
        if let Some(model) = read_model(all[i].as_slice()) {
            push_json(&mut out, model);
        }
        i += 1;
    }
    assert(whole.take(i as int) =~= whole);
    out
}

/// The file of a chat: under the digest of the working folder.
pub open spec fn chat_file(home: Seq<char>, cwd: Seq<char>, session: Seq<char>) -> Seq<char> {
    home + "/.cursor/chats/"@ + hex_bytes(digest(encode_utf8(cwd))) + "/"@ + session
        + "/meta.json"@
}

/// The driver: its session, and the turn that runs.
#[derive(Debug)]
pub struct Driver {
    pub session: Option<String>,
    pub cwd: Option<String>,
    pub model: Option<String>,
    pub running: bool,
}

/// The mathematical value of the driver.
pub struct DriverView {
    pub session: Option<Seq<char>>,
    pub cwd: Option<Seq<char>>,
    pub model: Option<Seq<char>>,
    pub running: bool,
}

impl View for Driver {
    type V = DriverView;

    open spec fn view(&self) -> DriverView {
        DriverView {
            session: opt(self.session),
            cwd: opt(self.cwd),
            model: opt(self.model),
            running: self.running,
        }
    }
}

/// What the driver does next.
#[derive(Debug)]
pub enum Action {
    Nothing,
    /// The turn that runs is ended.
    Cancel,
    Reply(Json),
    /// A chat is created, and then opened.
    Create { cwd: String },
    /// A chat is opened: the models are listed for it.
    Open { session: String, cwd: String },
    /// A turn is started.
    Start { session: String, cwd: String, model: Option<String>, text: String },
}

/// The mathematical value of what the driver does next.
pub enum ActionView {
    Nothing,
    Cancel,
    Reply(Data),
    Create { cwd: Seq<char> },
    Open { session: Seq<char>, cwd: Seq<char> },
    Start { session: Seq<char>, cwd: Seq<char>, model: Option<Seq<char>>, text: Seq<char> },
}

impl View for Action {
    type V = ActionView;

    open spec fn view(&self) -> ActionView {
        match self {
            Action::Nothing => ActionView::Nothing,
            Action::Cancel => ActionView::Cancel,
            Action::Reply(frame) => ActionView::Reply(frame@),
            Action::Create { cwd } => ActionView::Create { cwd: cwd@ },
            Action::Open { session, cwd } => ActionView::Open { session: session@, cwd: cwd@ },
            Action::Start { session, cwd, model, text } => ActionView::Start {
                session: session@,
                cwd: cwd@,
                model: opt(*model),
                text: text@,
            },
        }
    }
}

/// A refusal of the driver.
pub open spec fn refusal(request: Data, message: Seq<char>) -> ActionView {
    ActionView::Reply(error_frame(request, (-32602) as i64, message))
}

/// A chat is opened, if its identity is one.
pub open spec fn opening(request: Data, session: Seq<char>, cwd: Seq<char>) -> ActionView {
    if chat_id(session) {
        ActionView::Open { session, cwd }
    } else {
        refusal(request, "invalid Cursor chat ID"@)
    }
}

/// The chat that a command has created: the last line it wrote.
pub open spec fn created_session(stdout: Seq<char>) -> Seq<char> {
    let all = lines(trimmed(stdout));
    if all.len() == 0 {
        Seq::empty()
    } else {
        all.last()
    }
}

/// A turn is started, if none runs and the session is the driver's.
pub open spec fn starting(d: DriverView, request: Data, params: Data) -> ActionView {
    if d.running || params.field("sessionId"@).as_text() != d.session {
        refusal(request, "Cursor turn already running or unknown session"@)
    } else {
        match (d.session, d.cwd) {
            (Some(session), Some(cwd)) => ActionView::Start {
                session,
                cwd,
                model: d.model,
                text: block_texts(params.field("prompt"@).items()),
            },
            _ => refusal(request, "Cursor turn has no session"@),
        }
    }
}

/// What the driver does with a message, and its state after it.
pub open spec fn handled(d: DriverView, message: Data) -> (DriverView, ActionView) {
    let method = message.field("method"@);
    let params = message.field("params"@);
    let request = message.field("id"@);
    if method.is_text("session/cancel"@) {
        (
            d,
            if d.running {
                ActionView::Cancel
            } else {
                ActionView::Nothing
            },
        )
    } else if request is Null {
        (d, ActionView::Nothing)
    } else if method.is_text("initialize"@) {
        (
            d,
            ActionView::Reply(
                result_frame(
                    request,
                    Data::Object(
                        map![
                            "protocolVersion"@ => uint(1),
                            "agentCapabilities"@ => Data::Object(
                                map!["loadSession"@ => Data::Bool(true)],
                            )
                        ],
                    ),
                ),
            ),
        )
    } else if method.is_text("session/new"@) {
        (
            d,
            match params.field("cwd"@).as_text() {
                Some(cwd) => ActionView::Create { cwd },
                None => refusal(request, "missing cwd"@),
            },
        )
    } else if method.is_text("session/load"@) {
        (
            d,
            match (params.field("sessionId"@).as_text(), params.field("cwd"@).as_text()) {
                (None, _) => refusal(request, "missing sessionId"@),
                (Some(_), None) => refusal(request, "missing cwd"@),
                (Some(session), Some(cwd)) => opening(request, session, cwd),
            },
        )
    } else if method.is_text("session/set_config_option"@) && params.field("configId"@).is_text(
        "model"@,
    ) {
        match params.field("value"@).as_text() {
            None => (d, refusal(request, "missing value"@)),
            Some(model) => (
                DriverView { model: Some(model), ..d },
                ActionView::Reply(
                    result_frame(
                        request,
                        Data::Object(
                            map![
                                "configOptions"@ => Data::Array(
                                    seq![
                                        Data::Object(
                                            map![
                                                "id"@ => Data::Text("model"@),
                                                "currentValue"@ => params.field("value"@)
                                            ],
                                        ),
                                    ],
                                )
                            ],
                        ),
                    ),
                ),
            ),
        }
    } else if method.is_text("session/prompt"@) {
        (d, starting(d, request, params))
    } else {
        (
            d,
            ActionView::Reply(
                error_frame(
                    request,
                    (-32601) as i64,
                    "Unsupported operation: "@ + in_words(method),
                ),
            ),
        )
    }
}

/// What is said of a command of Cursor that failed: the end of what it wrote about it.
pub open spec fn command_failure(stdout: Seq<char>, stderr: Seq<char>) -> Seq<char> {
    let detail = last_of(
        trimmed(
            if stderr.len() == 0 {
                stdout
            } else {
                stderr
            },
        ),
        300,
    );
    if detail.len() == 0 {
        "Cursor CLI failed"@
    } else {
        detail
    }
}

/// What is said of a command of Cursor that failed.
pub fn cli_failure(stdout: &str, stderr: &str) -> (r: String)
    ensures
        r@ == command_failure(stdout@, stderr@),
{
    let chars = if chars_of(stderr).len() == 0 {
        chars_of(stdout)
    } else {
        chars_of(stderr)
    };
    let detail = tail(string_of(trim(chars.as_slice())).as_str(), 300);
    if chars_of(detail.as_str()).len() == 0 {
        "Cursor CLI failed".to_owned()
    } else {
        detail
    }
}

/// The answer to a call that opened a chat.
pub open spec fn opened_frame(
    request: Data,
    session: Seq<char>,
    cwd: Seq<char>,
    stdout: Seq<char>,
    home: Seq<char>,
) -> Data {
    result_frame(
        request,
        Data::Object(
            map![
                "sessionId"@ => Data::Text(session),
                "path"@ => Data::Text(chat_file(home, cwd, session)),
                "models"@ => Data::Object(
                    map!["availableModels"@ => Data::Array(model_lines(lines(stdout)))],
                )
            ],
        ),
    )
}

fn open_chat(request: &Json, session: &str, cwd: &str) -> (r: Action)
    ensures
        r@ == opening(request@, session@, cwd@),
{
    if valid_id(session) {
        Action::Open { session: session.to_owned(), cwd: cwd.to_owned() }
    } else {
        Action::Reply(refuse(request, "invalid Cursor chat ID"))
    }
}

/// What follows once a chat was created: it is opened.
pub fn created(request: &Json, stdout: &str, cwd: &str) -> (r: Action)
    ensures
        r@ == opening(request@, created_session(stdout@), cwd@),
{
    let chars = chars_of(stdout);
    let all = lines_of(trim(chars.as_slice()));
    let ghost whole = lines(trimmed(stdout@));
    assert(deep(all@) == whole);
    let session = if all.len() == 0 {
        String::new()
    } else {
        string_of(all[all.len() - 1].as_slice())
    };
    open_chat(request, session.as_str(), cwd)
}

impl Driver {
    /// A driver without a session.
    pub fn new() -> (r: Driver)
        ensures
            r@ == (DriverView { session: None, cwd: None, model: None, running: false }),
    {
        Driver { session: None, cwd: None, model: None, running: false }
    }

    fn start(&self, request: &Json, params: &Json) -> (r: Action)
        ensures
            r@ == starting(self@, request@, params@),
    {
        if self.running || !same_opt(params.field_text("sessionId"), opt_slice(&self.session)) {
            return Action::Reply(
                refuse(request, "Cursor turn already running or unknown session"),
            );
        }
        match (&self.session, &self.cwd) {
            (Some(session), Some(cwd)) => Action::Start {
                session: session.clone(),
                cwd: cwd.clone(),
                model: opt_copy(&self.model),
                text: texts_of_blocks(params.field("prompt").items()),
            },
            _ => Action::Reply(refuse(request, "Cursor turn has no session")),
        }
    }

    /// What the driver does with a line of its input, with what the answer is to name. Lines that are no
    /// objects are passed over.
    pub fn take(&mut self, line: &str) -> (r: Option<(Json, Action)>)
        ensures
            match denoted(line@) {
                Some(Data::Object(members)) => r matches Some((request, action)) && request@
                    == Data::Object(members).field("id"@) && (final(self)@, action@) == handled(
                    old(self)@,
                    Data::Object(members),
                ),
                _ => r is None && final(self)@ == old(self)@,
            },
    {
        let message = match read_json(line) {
            Some(message) => message,
            None => {
                return None;
            },
        };
        if message.as_object().is_none() {
            return None;
        }
        let action = self.handle(&message);
        Some((message.field("id").duplicate(), action))
    }

    /// What the driver does with a message.
    pub fn handle(&mut self, message: &Json) -> (r: Action)
        ensures
            (final(self)@, r@) == handled(old(self)@, message@),
    {
        let method = message.field("method");
        let params = message.field("params");
        let request = message.field("id");
        if method.is_text("session/cancel") {
            return if self.running {
                Action::Cancel
            } else {
                Action::Nothing
            };
        }
        if request.is_null() {
            return Action::Nothing;
        }
        if method.is_text("initialize") {
            return Action::Reply(
                frame_result(
                    request,
                    Json::Object(
                        object().with("protocolVersion", Json::uint(1)).with(
                            "agentCapabilities",
                            Json::Object(object().with("loadSession", Json::Bool(true))),
                        ),
                    ),
                ),
            );
        }
        if method.is_text("session/new") {
            return match params.field_text("cwd") {
                Some(cwd) => Action::Create { cwd: cwd.to_owned() },
                None => Action::Reply(refuse(request, "missing cwd")),
            };
        }
        if method.is_text("session/load") {
            return match (params.field_text("sessionId"), params.field_text("cwd")) {
                (None, _) => Action::Reply(refuse(request, "missing sessionId")),
                (Some(_), None) => Action::Reply(refuse(request, "missing cwd")),
                (Some(session), Some(cwd)) => open_chat(request, session, cwd),
            };
        }
        if method.is_text("session/set_config_option") && params.field_is("configId", "model") {
            return match params.field_text("value") {
                None => Action::Reply(refuse(request, "missing value")),
                Some(model) => {
                    self.model = Some(model.to_owned());
                    let option = object().with_text("id", "model").with(
                        "currentValue",
                        params.field("value").duplicate(),
                    );
                    Action::Reply(
                        frame_result(
                            request,
                            Json::Object(
                                object().with("configOptions", Json::one(Json::Object(option))),
                            ),
                        ),
                    )
                },
            };
        }
        if method.is_text("session/prompt") {
            return self.start(request, params);
        }
        Action::Reply(
            frame_error(
                request,
                -32601,
                concat("Unsupported operation: ", words_for(method).as_str()).as_str(),
            ),
        )
    }

    /// A chat was opened: what is answered, given the list of models and the home of the account.
    pub fn opened(&mut self, request: &Json, session: &str, cwd: &str, stdout: &str, home: &str) -> (r:
        Json)
        requires
            byte_len(cwd@) < 0x1000_0000_0000_0000,
        ensures
            final(self)@ == (DriverView {
                session: Some(session@),
                cwd: Some(cwd@),
                ..old(self)@
            }),
            r@ == opened_frame(request@, session@, cwd@, stdout@, home@),
    {
        self.session = Some(session.to_owned());
        self.cwd = Some(cwd.to_owned());
        let folder = md5_hex(cwd.as_bytes());
        let mut path = concat3(home, "/.cursor/chats/", folder.as_str());
        push_text(&mut path, "/");
        push_text(&mut path, session);
        push_text(&mut path, "/meta.json");
        frame_result(
            request,
            Json::Object(
                object().with_text("sessionId", session).with_text("path", path.as_str()).with(
                    "models",
                    Json::Object(
                        object().with("availableModels", Json::Array(read_models(stdout))),
                    ),
                ),
            ),
        )
    }
}

// Processes that a turn leaves behind.

/// An integer in decimal notation, if it is one of 32 bits.
pub open spec fn integer(text: Seq<char>) -> Option<int> {
    if text.len() > 0 && text[0] == '-' {
        let digits = text.subrange(1, text.len() as int);
        if crate::text::all_digits(digits) && crate::text::digits_value(digits) <= 0x8000_0000 {
            Some(-(crate::text::digits_value(digits) as int))
        } else {
            None
        }
    } else {
        match crate::text::number(text, 0x7fff_ffff) {
            Some(n) => Some(n as int),
            None => None,
        }
    }
}

fn read_integer(text: &[char]) -> (r: Option<i32>)
    ensures
        match r {
            Some(n) => integer(text@) == Some(n as int),
            None => integer(text@) is None,
        },
{
    if text.len() > 0 && text[0] == '-' {
        let digits = slice_subrange(text, 1, text.len());
        let ghost d = digits@;
        if digits.len() > 0 && digits[0] == '+' {
            assert(!crate::text::digit(d[0]));
            return None;
        }
        match crate::text::parse_number(digits, 0x8000_0000) {
            Some(n) => {
                let value: i64 = 0 - (n as i64);
                Some(value as i32)
            },
            None => None,
        }
    } else {
        match crate::text::parse_number(text, 0x7fff_ffff) {
            Some(n) => Some(n as i32),
            None => None,
        }
    }
}

/// The integers among words.
pub open spec fn integers(all: Seq<Seq<char>>) -> Seq<int>
    decreases all.len(),
{
    if all.len() == 0 {
        Seq::empty()
    } else {
        match integer(all.last()) {
            Some(n) => integers(all.drop_last()).push(n),
            None => integers(all.drop_last()),
        }
    }
}

/// A process and its parent, in a row of a table of processes.
pub open spec fn row(line: Seq<char>) -> Option<(int, int)> {
    let all = integers(crate::text::words(line));
    if all.len() >= 2 {
        Some((all[0], all[1]))
    } else {
        None
    }
}

/// The processes of a table, with their parents.
pub open spec fn rows(all: Seq<Seq<char>>) -> Seq<(int, int)>
    decreases all.len(),
{
    if all.len() == 0 {
        Seq::empty()
    } else {
        match row(all.last()) {
            Some(pair) => rows(all.drop_last()).push(pair),
            None => rows(all.drop_last()),
        }
    }
}

/// The views of pairs of integers.
pub open spec fn pairs(list: Seq<(i32, i32)>) -> Seq<(int, int)> {
    Seq::new(list.len(), |i: int| (list[i].0 as int, list[i].1 as int))
}

fn read_row(line: &[char]) -> (r: Option<(i32, i32)>)
    ensures
        match r {
            Some((child, parent)) => row(line@) == Some((child as int, parent as int)),
            None => row(line@) is None,
        },
{
    let words = crate::text::words_of(line);
    let ghost all = crate::text::words(line@);
    let mut found: Vec<i32> = Vec::new();
    let mut i: usize = 0;
    assert(all.take(0) =~= Seq::empty());
    while i < words.len()
        invariant
            i <= words.len(),
            deep(words@) == all,
            integers(all.take(i as int)) == Seq::new(found@.len(), |k: int| found@[k] as int),
        decreases words.len() - i,
    {
        assert(all.take(i + 1).drop_last() =~= all.take(i as int));
        assert(all.take(i + 1).last() == words@[i as int]@);
        let ghost was = found@;
        if let Some(n) = read_integer(words[i].as_slice()) {
            found.push(n);
            assert(Seq::new(found@.len(), |k: int| found@[k] as int) =~= Seq::new(
                was.len(),
                |k: int| was[k] as int,
            ).push(n as int));
        }
        i += 1;
    }
    assert(all.take(i as int) =~= all);
    if found.len() >= 2 {
        Some((found[0], found[1]))
    } else {
        None
    }
}

fn read_rows(table: &str) -> (r: Vec<(i32, i32)>)
    ensures
        pairs(r@) == rows(lines(table@)),
{
    let chars = chars_of(table);
    let all = lines_of(chars.as_slice());
    let ghost whole = lines(table@);
    let mut out: Vec<(i32, i32)> = Vec::new();
    let mut i: usize = 0;
    assert(whole.take(0) =~= Seq::empty());
    assert(pairs(out@) =~= Seq::<(int, int)>::empty());
    while i < all.len()
        invariant
            i <= all.len(),
            deep(all@) == whole,
            pairs(out@) == rows(whole.take(i as int)),
        decreases all.len() - i,
    {
        assert(whole.take(i + 1).drop_last() =~= whole.take(i as int));
        assert(whole.take(i + 1).last() == all@[i as int]@);
        let ghost was = pairs(out@);
        if let Some(pair) = read_row(all[i].as_slice()) {
            out.push(pair);
            assert(pairs(out@) =~= was.push((pair.0 as int, pair.1 as int)));
        }
        i += 1;
    }
    assert(whole.take(i as int) =~= whole);
    out
}

/// The process is the given one, or was found.
pub open spec fn reached(found: Seq<i32>, pid: i32, process: int) -> bool {
    process == pid || exists|i: int| 0 <= i < found.len() && (#[trigger] found[i]) == process
}

/// The processes found so far descend from the given one: each is the child of it, or of one found
/// before.
pub open spec fn descend(found: Seq<i32>, table: Seq<(int, int)>, pid: i32) -> bool {
    forall|i: int|
        0 <= i < found.len() ==> exists|k: int|
            0 <= k < table.len() && (#[trigger] table[k]).0 == (#[trigger] found[i]) && reached(
                found.take(i),
                pid,
                table[k].1,
            )
}

fn is_reached(found: &Vec<i32>, pid: i32, process: i32) -> (r: bool)
    ensures
        r == reached(found@, pid, process as int),
{
    if process == pid {
        return true;
    }
    let mut i: usize = 0;
    while i < found.len()
        invariant
            i <= found.len(),
            process != pid,
            forall|j: int| 0 <= j < i ==> (#[trigger] found@[j]) != process,
        decreases found.len() - i,
    {
        if found[i] == process {
            assert(found@[i as int] == process);
            return true;
        }
        i += 1;
    }
    false
}

/// The descendants of a process, from a table of processes and their parents: all of them, each
/// once.
pub fn descendants(table: &str, pid: i32) -> (r: Vec<i32>)
    ensures
        descend(r@, rows(lines(table@)), pid),
        forall|k: int|
            0 <= k < rows(lines(table@)).len() && reached(
                r@,
                pid,
                (#[trigger] rows(lines(table@))[k]).1,
            ) ==> reached(r@, pid, rows(lines(table@))[k].0),
        r@.no_duplicates(),
        !r@.contains(pid),
{
    let mut rest = read_rows(table);
    let ghost all = rows(lines(table@));
    let mut found: Vec<i32> = Vec::new();
    proof {
        assert forall|k: int| 0 <= k < all.len() implies pairs(rest@).contains(#[trigger] all[k])
            || reached(found@, pid, all[k].0) by {
            assert(pairs(rest@)[k] == all[k]);
        }
    }
    loop
        invariant
            all == rows(lines(table@)),
            descend(found@, all, pid),
            found@.no_duplicates(),
            !found@.contains(pid),
            forall|k: int|
                0 <= k < all.len() ==> pairs(rest@).contains(#[trigger] all[k]) || reached(
                    found@,
                    pid,
                    all[k].0,
                ),
            forall|j: int| 0 <= j < rest@.len() ==> all.contains(#[trigger] pairs(rest@)[j]),
        decreases rest.len(),
    {
        let mut i: usize = 0;
        while i < rest.len() && !is_reached(&found, pid, rest[i].1)
            invariant
                i <= rest.len(),
                forall|j: int|
                    0 <= j < i ==> !reached(found@, pid, (#[trigger] pairs(rest@)[j]).1),
            decreases rest.len() - i,
        {
            assert(pairs(rest@)[i as int].1 == rest@[i as int].1);
            i += 1;
        }
        if i == rest.len() {
            proof {
                assert forall|k: int|
                    0 <= k < all.len() && reached(
                        found@,
                        pid,
                        (#[trigger] all[k]).1,
                    ) implies reached(found@, pid, all[k].0) by {
                    if pairs(rest@).contains(all[k]) {
                        let j = choose|j: int|
                            0 <= j < pairs(rest@).len() && pairs(rest@)[j] == all[k];
                        assert(!reached(found@, pid, pairs(rest@)[j].1));
                    }
                }
            }
            return found;
        }
        let ghost was = found@;
        let ghost before = pairs(rest@);
        let pair = rest.remove(i);
        let ghost taken = before[i as int];
        assert(taken == (pair.0 as int, pair.1 as int));
        assert(pairs(rest@) =~= before.remove(i as int));
        let known = is_reached(&found, pid, pair.0);
        if !known {
            found.push(pair.0);
        }
        proof {
            assert(found@.len() == was.len() || found@.last() == pair.0);
            assert forall|x: int| reached(was, pid, x) implies reached(found@, pid, x) by {
                if x != pid {
                    let j = choose|j: int| 0 <= j < was.len() && (#[trigger] was[j]) == x;
                    assert(found@[j] == x);
                }
            }
            assert(reached(found@, pid, pair.0 as int)) by {
                if !known {
                    assert(found@[found@.len() - 1] == pair.0);
                }
            }
            assert(all.contains(taken));
            assert(descend(found@, all, pid)) by {
                assert forall|m: int| 0 <= m < found@.len() implies exists|k: int|
                    0 <= k < all.len() && (#[trigger] all[k]).0 == (#[trigger] found@[m])
                        && reached(found@.take(m), pid, all[k].1) by {
                    if m < was.len() {
                        assert(found@[m] == was[m]);
                        assert(found@.take(m) =~= was.take(m));
                        let k = choose|k: int|
                            0 <= k < all.len() && (#[trigger] all[k]).0 == was[m] && reached(
                                was.take(m),
                                pid,
                                all[k].1,
                            );
                        assert(all[k].0 == found@[m]);
                    } else {
                        assert(found@.take(m) =~= was);
                        let k = choose|k: int| 0 <= k < all.len() && all[k] == taken;
                        assert(all[k].0 == found@[m]);
                    }
                }
            }
            assert forall|k: int| 0 <= k < all.len() implies pairs(rest@).contains(
                #[trigger] all[k],
            ) || reached(found@, pid, all[k].0) by {
                if before.contains(all[k]) {
                    let j = choose|j: int| 0 <= j < before.len() && before[j] == all[k];
                    if j < i {
                        assert(pairs(rest@)[j] == all[k]);
                    } else if j > i {
                        assert(pairs(rest@)[j - 1] == all[k]);
                    }
                }
            }
            assert forall|j: int| 0 <= j < rest@.len() implies all.contains(
                #[trigger] pairs(rest@)[j],
            ) by {
                if j < i {
                    assert(pairs(rest@)[j] == before[j]);
                } else {
                    assert(pairs(rest@)[j] == before[j + 1]);
                }
            }
            assert forall|a: int, b: int|
                0 <= a < found@.len() && 0 <= b < found@.len() && a != b implies found@[a]
                != found@[b] by {
                if !known {
                    if a == was.len() {
                        assert(was[b] == found@[b]);
                    } else if b == was.len() {
                        assert(was[a] == found@[a]);
                    }
                }
            }
        }
    }
}

/// The driver runs one turn at a time.
pub proof fn one_turn_at_a_time(d: DriverView, message: Data)
    requires
        d.running,
    ensures
        !(handled(d, message).1 is Start),
{
}

} // verus!
