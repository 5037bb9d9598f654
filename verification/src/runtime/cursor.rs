//! The Agent Client Protocol, as Cursor and fx speak it.
use super::process::{first_bytes, take_bytes};
use super::claude_protocol::{capped, events_result, plus};
use super::codex::{answer_view, opt_json_ref};
use super::files::{below, components, components_of, same_texts, under};
use super::{
    begun, events, maybe, no_events, opt_event, push_event, push_maybe, record_event, Event,
    EventView, Progress, ProgressView,
};
use crate::fault::{other, refused, Fault, FaultView};
use crate::json::{
    alike, copy_json, no_json, object, opt_text, push_json, uint, values, Data, Json, Negative, Number,
    Numeral,
};
use crate::table::Table;
use crate::text::{
    all_chars_in, all_digits, all_in, chars_of, concat, concat3, decimal, decimal_of,
    deep, digit, is_digit, is_in_class, lower_hex, opt, opt_copy, opt_owned, opt_slice, opt_str,
    push_text, same, same_opt, split, split_chars, string_of, text_strict, views, Class,
};
use crate::wire::{bytes_read, denoted, parse, parse_bytes, text_read, write_json, written};
use vstd::prelude::*;
use vstd::slice::slice_subrange;
use vstd::utf8::{decode_utf8, valid_utf8};

verus! {

/// The harnesses that speak the protocol.
#[derive(Clone, Copy, PartialEq, Eq, Structural, Debug)]
pub enum Flavor {
    Cursor,
    Fx,
}

/// The name of the harness in records.
pub open spec fn harness_of(flavor: Flavor) -> Seq<char> {
    match flavor {
        Flavor::Cursor => "cursor"@,
        Flavor::Fx => "fx"@,
    }
}

/// The name of the harness for people.
pub open spec fn name_of(flavor: Flavor) -> Seq<char> {
    match flavor {
        Flavor::Cursor => "Cursor"@,
        Flavor::Fx => "fx"@,
    }
}

impl Flavor {
    /// The name of the harness in records.
    pub fn harness(self) -> (r: &'static str)
        ensures
            r@ == harness_of(self),
    {
        match self {
            Flavor::Cursor => "cursor",
            Flavor::Fx => "fx",
        }
    }

    /// The name of the harness for people.
    pub fn name(self) -> (r: &'static str)
        ensures
            r@ == name_of(self),
    {
        match self {
            Flavor::Cursor => "Cursor",
            Flavor::Fx => "fx",
        }
    }
}

/// What the agent is asked of every turn.
pub open spec fn plain_chat() -> Seq<char> {
    "Ask the user questions in plain chat. Do not use structured question or plan-approval tools. Never infer the user's answer or approval."@
}

fn chat_plainly() -> (r: &'static str)
    ensures
        r@ == plain_chat(),
{
    "Ask the user questions in plain chat. Do not use structured question or plan-approval tools. Never infer the user's answer or approval."
}

// Identities.

/// A place in an identifier that holds a hyphen.
pub open spec fn hyphen_place(i: int) -> bool {
    i == 8 || i == 13 || i == 18 || i == 23
}

/// The identity of a chat of Cursor: a universally unique identifier in small letters.
pub open spec fn chat_id(id: Seq<char>) -> bool {
    id.len() == 36 && forall|i: int|
        0 <= i < id.len() ==> if hyphen_place(i) {
            (#[trigger] id[i]) == '-'
        } else {
            lower_hex(id[i])
        }
}

/// Whether a text is the identity of a chat of Cursor.
pub fn valid_id(id: &str) -> (r: bool)
    ensures
        r == chat_id(id@),
{
    let chars = chars_of(id);
    if chars.len() != 36 {
        return false;
    }
    let mut i: usize = 0;
    while i < chars.len()
        invariant
            i <= chars.len(),
            chars@ == id@,
            forall|j: int|
                0 <= j < i ==> if hyphen_place(j) {
                    (#[trigger] id@[j]) == '-'
                } else {
                    lower_hex(id@[j])
                },
        decreases chars.len() - i,
    {
        let fits = if i == 8 || i == 13 || i == 18 || i == 23 {
            chars[i] == '-'
        } else {
            is_in_class(chars[i], Class::LowerHex)
        };
        if !fits {
            assert(chars@[i as int] == id@[i as int]);
            return false;
        }
        i += 1;
    }
    true
}

/// A number of at most twenty digits.
pub open spec fn short_number(text: Seq<char>) -> bool {
    all_digits(text) && text.len() <= 20
}

/// The identity of a session of fx: milliseconds, nanoseconds and sixteen digits.
pub open spec fn fx_id(id: Seq<char>) -> bool {
    let parts = split(id, '-');
    parts.len() == 3 && short_number(parts[0]) && short_number(parts[1]) && parts[2].len() == 16
        && all_in(parts[2], Class::LowerHex, Seq::empty())
}

fn is_short_number(text: &[char]) -> (r: bool)
    ensures
        r == short_number(text@),
{
    if text.len() == 0 || text.len() > 20 {
        return false;
    }
    let mut i: usize = 0;
    while i < text.len()
        invariant
            i <= text.len(),
            forall|j: int| 0 <= j < i ==> digit(#[trigger] text@[j]),
        decreases text.len() - i,
    {
        if !is_digit(text[i]) {
            return false;
        }
        i += 1;
    }
    true
}

/// Whether a text is the identity of a session of fx.
pub fn valid_fx_id(id: &str) -> (r: bool)
    ensures
        r == fx_id(id@),
{
    let chars = chars_of(id);
    let parts = split_chars(chars.as_slice(), '-');
    let ghost all = split(id@, '-');
    assert(deep(parts@) == all);
    proof {
        reveal_strlit("");
        assert(""@ =~= Seq::<char>::empty());
    }
    if parts.len() != 3 {
        return false;
    }
    assert(parts@[0]@ == all[0] && parts@[1]@ == all[1] && parts@[2]@ == all[2]);
    is_short_number(parts[0].as_slice()) && is_short_number(parts[1].as_slice()) && parts[2].len()
        == 16 && all_chars_in(parts[2].as_slice(), Class::LowerHex, "")
}

/// The identity fits the harness.
pub open spec fn id_fits(flavor: Flavor, id: Seq<char>) -> bool {
    match flavor {
        Flavor::Cursor => chat_id(id),
        Flavor::Fx => fx_id(id),
    }
}

/// The components of a path are those of the file of a chat below a home: the chats, the digest of the
/// working folder, the chat, and its file.
pub open spec fn is_chat_file(all: Seq<Seq<char>>, home: Seq<Seq<char>>, id: Seq<char>) -> bool {
    let n = home.len() as int;
    &&& all.len() == n + 4
    &&& all.take(n) == home
    &&& all[n] == "chats"@
    &&& all[n + 1].len() == 32
    &&& all_in(all[n + 1], Class::LowerHex, Seq::empty())
    &&& all[n + 2] == id
    &&& all[n + 3] == "meta.json"@
}

/// The directory of a chat: the one of its working folder, under the chats of the home.
pub open spec fn chat_directory(home: Seq<char>, id: Seq<char>, path: Seq<char>) -> Option<
    Seq<char>,
> {
    let all = components(path);
    if chat_id(id) && is_chat_file(all, components(home), id) {
        Some(below(below(home, "chats"@), all[all.len() - 3]))
    } else {
        None
    }
}

/// The directory of a chat. Chats live at chats/<digest of the working folder>/<chat>/meta.json.
pub fn chat_root(home: &str, id: &str, path: &str) -> (r: Result<String, Fault>)
    ensures
        match r {
            Ok(root) => chat_directory(home@, id@, path@) == Some(root@),
            Err(f) => chat_directory(home@, id@, path@) is None && f@ == other(
                "Cursor native path does not match its session"@,
            ),
        },
{
    proof {
        reveal_strlit("");
        assert(""@ =~= Seq::<char>::empty());
    }
    let all = components_of(path);
    let base = components_of(home);
    let ghost parts = components(path@);
    let ghost front = components(home@);
    assert(parts.len() == all.len() && front.len() == base.len());
    if valid_id(id) && all.len() >= 4 && all.len() - 4 == base.len() {
        let n = base.len();
        let mut i: usize = 0;
        while i < n
            invariant
                i <= n,
                n == base.len(),
                all.len() == n + 4,
                parts == views(all@),
                front == views(base@),
                parts == components(path@),
                front == components(home@),
                forall|j: int| 0 <= j < i ==> parts[j] == #[trigger] front[j],
            decreases n - i,
        {
            if !same(all[i].as_str(), base[i].as_str()) {
                assert(parts[i as int] != front[i as int]);
                assert(parts.take(n as int)[i as int] != front[i as int]);
                return Err(Fault::other("Cursor native path does not match its session"));
            }
            assert(parts[i as int] == front[i as int]);
            i += 1;
        }
        assert(parts.take(n as int) =~= front);
        let key = all[n + 1].as_str();
        assert(parts[n as int] == all@[n as int]@ && parts[n + 1] == all@[n + 1]@);
        assert(parts[n + 2] == all@[n + 2]@ && parts[n + 3] == all@[n + 3]@);
        let chars = chars_of(key);
        if same(all[n].as_str(), "chats") && chars.len() == 32 && all_chars_in(
            chars.as_slice(),
            Class::LowerHex,
            "",
        ) && same(all[n + 2].as_str(), id) && same(all[n + 3].as_str(), "meta.json") {
            return Ok(under(under(home, "chats").as_str(), key));
        }
    }
    Err(Fault::other("Cursor native path does not match its session"))
}

// Calls.

/// What the harness is told first.
pub fn initialize_params() -> (r: Json)
    ensures
        r@ == Data::Object(
            map![
                "protocolVersion"@ => uint(1),
                "clientInfo"@ => Data::Object(
                    map![
                        "name"@ => Data::Text("cloudroom"@),
                        "version"@ => Data::Text(crate::version_text())
                    ],
                ),
                "clientCapabilities"@ => Data::Object(
                    map![
                        "fs"@ => Data::Object(
                            map![
                                "readTextFile"@ => Data::Bool(false),
                                "writeTextFile"@ => Data::Bool(false)
                            ],
                        ),
                        "terminal"@ => Data::Bool(false)
                    ],
                )
            ],
        ),
{
    let files = object().with("readTextFile", Json::Bool(false)).with(
        "writeTextFile",
        Json::Bool(false),
    );
    Json::Object(
        object().with("protocolVersion", Json::uint(1)).with(
            "clientInfo",
            Json::Object(
                object().with_text("name", "cloudroom").with_text("version", crate::version()),
            ),
        ).with(
            "clientCapabilities",
            Json::Object(
                object().with("fs", Json::Object(files)).with("terminal", Json::Bool(false)),
            ),
        ),
    )
}

/// The harness can load sessions.
pub open spec fn can_load(init: Data) -> bool {
    init.field("protocolVersion"@) == uint(1) && init.field("agentCapabilities"@).field(
        "loadSession"@,
    ).is_true()
}

/// Refuses a harness that cannot load sessions.
pub fn check_initialized(flavor: Flavor, init: &Json) -> (r: Result<(), Fault>)
    ensures
        match r {
            Ok(()) => can_load(init@),
            Err(f) => !can_load(init@) && f@ == other(
                name_of(flavor) + " ACP session loading is unavailable"@,
            ),
        },
{
    let known = match init.field("protocolVersion").as_u64() {
        Some(n) => n == 1,
        None => false,
    };
    if !known || !init.field("agentCapabilities").field("loadSession").is_true() {
        return Err(
            Fault::other(concat(flavor.name(), " ACP session loading is unavailable").as_str()),
        );
    }
    Ok(())
}

/// A call that opens a session.
pub fn opening(repository: &str, saved: Option<&str>) -> (r: (&'static str, Json))
    ensures
        ({
            let plain = Data::Object(
                map![
                    "cwd"@ => Data::Text(repository@),
                    "mcpServers"@ => Data::Array(Seq::empty())
                ],
            );
            match opt_str(saved) {
                Some(id) => r.0@ == "session/load"@ && r.1@ == plain.with(
                    "sessionId"@,
                    Data::Text(id),
                ),
                None => r.0@ == "session/new"@ && r.1@ == plain,
            }
        }),
{
    let mut params = Json::Object(
        object().with_text("cwd", repository).with("mcpServers", Json::Array(no_json())),
    );
    match saved {
        Some(id) => {
            params.put("sessionId", Json::text(id));
            ("session/load", params)
        },
        None => ("session/new", params),
    }
}

/// The first value with a given string member.
pub open spec fn first_with(items: Seq<Data>, key: Seq<char>, text: Seq<char>) -> Option<Data>
    decreases items.len(),
{
    if items.len() == 0 {
        None
    } else if items[0].field(key).is_text(text) {
        Some(items[0])
    } else {
        first_with(items.subrange(1, items.len() as int), key, text)
    }
}

/// The first value with a given string member.
pub fn find_with<'a>(items: &'a [Json], key: &str, text: &str) -> (r: Option<&'a Json>)
    ensures
        opt_json_ref(r) == first_with(values(items@), key@, text@),
{
    let mut i: usize = 0;
    let ghost all = values(items@);
    assert(all.subrange(0, all.len() as int) =~= all);
    while i < items.len()
        invariant
            i <= items.len(),
            all == values(items@),
            first_with(all, key@, text@) == first_with(
                all.subrange(i as int, all.len() as int),
                key@,
                text@,
            ),
        decreases items.len() - i,
    {
        let ghost rest = all.subrange(i as int, all.len() as int);
        assert(rest[0] == items@[i as int]@);
        assert(rest.subrange(1, rest.len() as int) =~= all.subrange(i + 1, all.len() as int));
        if items[i].field_is(key, text) {
            return Some(&items[i]);
        }
        i += 1;
    }
    None
}

/// The current value of an option of a session.
pub open spec fn option_of(state: Data, name: Seq<char>) -> Option<Seq<char>> {
    match first_with(state.field("configOptions"@).items(), "id"@, name) {
        Some(option) => option.field("currentValue"@).as_text(),
        None => None,
    }
}

/// The current value of an option of a session.
pub fn option_value<'a>(state: &'a Json, name: &str) -> (r: Option<&'a str>)
    ensures
        opt_str(r) == option_of(state@, name@),
{
    match find_with(state.field("configOptions").items(), "id", name) {
        Some(option) => option.field_text("currentValue"),
        None => None,
    }
}

/// fx offers a model to the account.
pub open spec fn model_offered(session: Data, model: Seq<char>) -> bool {
    match first_with(session.field("configOptions"@).items(), "id"@, "model"@) {
        Some(option) => first_with(option.field("options"@).items(), "value"@, model) is Some,
        None => false,
    }
}

/// Whether fx offers a model to the account.
pub fn offers_model(session: &Json, model: &str) -> (r: bool)
    ensures
        r == model_offered(session@, model@),
{
    match find_with(session.field("configOptions").items(), "id", "model") {
        Some(option) => find_with(option.field("options").items(), "value", model).is_some(),
        None => false,
    }
}

/// A text with the files that are attached to it, named for the agent to read.
pub open spec fn with_files(text: Seq<char>, attachments: Seq<Data>) -> Seq<char>
    decreases attachments.len(),
{
    if attachments.len() == 0 {
        text
    } else {
        let before = with_files(text, attachments.drop_last());
        match attachments.last().field("path"@).as_text() {
            Some(path) => before + "\n[Attached file: "@ + path + "]"@,
            None => before,
        }
    }
}

/// What a prompt says.
pub open spec fn prompt_text(input: Data) -> Seq<char> {
    plain_chat() + "\n\n"@ + with_files(
        input.field("text"@).text_or_empty(),
        input.field("attachments"@).items(),
    )
}

/// The parameters of a prompt or of a steering message.
pub open spec fn prompt_params(native: Seq<char>, text: Seq<char>) -> Data {
    Data::Object(
        map![
            "sessionId"@ => Data::Text(native),
            "prompt"@ => Data::Array(
                seq![
                    Data::Object(
                        map!["type"@ => Data::Text("text"@), "text"@ => Data::Text(text)],
                    ),
                ],
            )
        ],
    )
}

/// What a prompt says.
pub fn compose(input: &Json) -> (r: String)
    ensures
        r@ == prompt_text(input@),
{
    let mut text = input.field("text").text_or_empty().to_owned();
    let ghost plain = text@;
    let files = input.field("attachments").items();
    let ghost all = values(files@);
    let mut i: usize = 0;
    assert(all.take(0) =~= Seq::empty());
    while i < files.len()
        invariant
            i <= files.len(),
            all == values(files@),
            text@ == with_files(plain, all.take(i as int)),
        decreases files.len() - i,
    {
        assert(all.take(i + 1).drop_last() =~= all.take(i as int));
        assert(all.take(i + 1).last() == files@[i as int]@);
        if let Some(path) = files[i].field_text("path") {
            push_text(&mut text, "\n[Attached file: ");
            push_text(&mut text, path);
            push_text(&mut text, "]");
        }
        i += 1;
    }
    assert(all.take(i as int) =~= all);
    concat3(chat_plainly(), "\n\n", text.as_str())
}

/// The parameters of a prompt or of a steering message.
pub fn prompt(native: &str, text: &str) -> (r: Json)
    ensures
        r@ == prompt_params(native@, text@),
{
    Json::Object(
        object().with_text("sessionId", native).with(
            "prompt",
            Json::one(Json::Object(object().with_text("type", "text").with_text("text", text))),
        ),
    )
}

/// A record of a snapshot of the history of Cursor.
pub open spec fn snapshot_event(value: Data) -> Option<EventView> {
    match value.field("record"@).as_text() {
        None => None,
        Some(record) => Some(
            EventView::Record {
                kind: "native_record"@,
                data: Data::Object(
                    map![
                        "harness"@ => Data::Text("cursor"@),
                        "snapshot"@ => value.field("snapshot"@),
                        "index"@ => value.field("index"@),
                        "complete"@ => value.field("complete"@)
                    ],
                ),
                native: Some(record + "\n"@),
            },
        ),
    }
}

/// A line of a snapshot of the history of Cursor.
pub fn snapshot_record(line: &str) -> (r: Result<Event, Fault>)
    ensures
        match r {
            Ok(event) => denoted(line@) is Some && snapshot_event(denoted(line@)->0) == Some(
                event@,
            ),
            Err(f) => match text_read(line@) {
                Ok(value) => snapshot_event(value) is None && f@ == other(
                    "Invalid Cursor snapshot"@,
                ),
                Err(g) => f@ == g,
            },
        },
{
    let value = match parse(line) {
        Ok(value) => value,
        Err(fault) => {
            return Err(fault);
        },
    };
    match value.field_text("record") {
        None => Err(Fault::other("Invalid Cursor snapshot")),
        Some(record) => Ok(
            Event::Record {
                kind: "native_record".to_owned(),
                data: Json::Object(
                    object().with_text("harness", "cursor").with(
                        "snapshot",
                        value.field("snapshot").duplicate(),
                    ).with("index", value.field("index").duplicate()).with(
                        "complete",
                        value.field("complete").duplicate(),
                    ),
                ),
                native: Some(concat(record, "\n")),
            },
        ),
    }
}

/// The bytes that are kept of what a snapshot wrote about its failure.
pub const SNAPSHOT_ERROR: usize = 4096;

/// What a snapshot wrote about its failure; nothing where that is no text.
pub open spec fn snapshot_error(stderr: Seq<u8>) -> Seq<char> {
    let kept = if stderr.len() > SNAPSHOT_ERROR {
        stderr.take(SNAPSHOT_ERROR as int)
    } else {
        stderr
    };
    if valid_utf8(kept) {
        decode_utf8(kept)
    } else {
        Seq::empty()
    }
}

/// Whether a snapshot of the history of Cursor is complete: the command that takes it ended well.
pub fn check_snapshot(success: bool, stderr: &[u8]) -> (r: Result<(), Fault>)
    ensures
        match r {
            Ok(_) => success,
            Err(f) => !success && f@ == other(
                "Cursor native snapshot failed: "@ + snapshot_error(stderr@),
            ),
        },
{
    if success {
        return Ok(());
    }
    let kept = if stderr.len() > SNAPSHOT_ERROR {
        slice_subrange(stderr, 0, SNAPSHOT_ERROR)
    } else {
        stderr
    };
    assert(stderr@.len() > SNAPSHOT_ERROR ==> kept@ =~= stderr@.take(SNAPSHOT_ERROR as int));
    let words = match text_strict(kept) {
        Some(text) => text,
        None => String::new(),
    };
    assert(words@ =~= snapshot_error(stderr@));
    Err(Fault::other(concat("Cursor native snapshot failed: ", words.as_str()).as_str()))
}

/// The place of Cursor is the one of the account that agents run under. Both paths are without links.
pub fn check_home(home: &str, expected: &str) -> (r: Result<(), Fault>)
    ensures
        match r {
            Ok(_) => components(home@) == components(expected@),
            Err(f) => components(home@) != components(expected@) && f@ == refused(
                "Cursor home must belong to the configured agent account"@,
            ),
        },
{
    if same_texts(&components_of(home), &components_of(expected)) {
        Ok(())
    } else {
        Err(Fault::refused("Cursor home must belong to the configured agent account"))
    }
}

/// The saved form of a chat is one that is understood.
pub open spec fn understood(value: Data) -> bool {
    value.field("schemaVersion"@) == uint(1) && value.field("cwd"@) is Text
}

/// The saved form of a chat is one that is understood.
pub fn check_metadata(value: &Json) -> (r: Result<(), Fault>)
    ensures
        match r {
            Ok(()) => understood(value@),
            Err(f) => !understood(value@) && f@ == other("Unsupported Cursor native metadata"@),
        },
{
    let known = match value.field("schemaVersion").as_u64() {
        Some(n) => n == 1,
        None => false,
    };
    if !known || value.field_text("cwd").is_none() {
        return Err(Fault::other("Unsupported Cursor native metadata"));
    }
    Ok(())
}

/// The saved form of a chat, read from the bytes of its file, is one that is understood. Of a file
/// only as much is read as a line may hold.
pub fn read_metadata(bytes: &[u8]) -> (r: Result<(), Fault>)
    ensures
        match bytes_read(first_bytes(bytes@)) {
            Ok(value) => r is Ok <==> understood(value),
            Err(f) => r is Err && r->Err_0@ == f,
        },
        bytes_read(first_bytes(bytes@)) is Ok && r is Err ==> r->Err_0@ == other(
            "Unsupported Cursor native metadata"@,
        ),
{
    match parse_bytes(take_bytes(bytes)) {
        Ok(value) => check_metadata(&value),
        Err(fault) => Err(fault),
    }
}

// The state of the conversation.

/// A message that is sent as soon as the turn it takes the place of has ended.
#[derive(Debug)]
pub struct Restart {
    pub id: u64,
    pub params: Json,
}

/// The mathematical value of a message that waits.
pub struct RestartView {
    pub id: u64,
    pub params: Data,
}

impl View for Restart {
    type V = RestartView;

    open spec fn view(&self) -> RestartView {
        RestartView { id: self.id, params: self.params@ }
    }
}

/// An answer that settles another call.
#[derive(Debug)]
pub struct Acknowledgement {
    pub source: Json,
    pub id: u64,
}

/// The mathematical value of an answer that settles another call.
pub struct AcknowledgementView {
    pub source: Data,
    pub id: u64,
}

impl View for Acknowledgement {
    type V = AcknowledgementView;

    open spec fn view(&self) -> AcknowledgementView {
        AcknowledgementView { source: self.source@, id: self.id }
    }
}

/// The end of a turn that is told once its history is saved.
#[derive(Debug)]
pub struct Terminal {
    pub request: String,
    pub status: String,
}

/// The mathematical value of the end of a turn.
pub struct TerminalView {
    pub request: Seq<char>,
    pub status: Seq<char>,
}

impl View for Terminal {
    type V = TerminalView;

    open spec fn view(&self) -> TerminalView {
        TerminalView { request: self.request@, status: self.status@ }
    }
}

/// The state of the conversation with the harness.
#[derive(Debug)]
pub struct Protocol {
    pub flavor: Flavor,
    pub home: String,
    pub expected: Option<String>,
    pub opening: Option<u64>,
    pub prompt: Option<u64>,
    pub cancel: Option<u64>,
    pub restart: Option<Restart>,
    pub acknowledgement: Option<Acknowledgement>,
    pub responses: Vec<Json>,
    pub closing: bool,
    pub tools: Table<Json>,
    /// The directory of the chat whose history is saved, and the chat.
    pub chat: Option<String>,
    pub chat_id: Option<String>,
    /// The history has changed since it was saved.
    pub dirty: bool,
    pub terminal: Option<Terminal>,
    pub message: u64,
    pub text: String,
    pub thinking: String,
}

/// The mathematical value of the state of the conversation.
pub struct ProtocolView {
    pub flavor: Flavor,
    pub home: Seq<char>,
    pub expected: Option<Seq<char>>,
    pub opening: Option<u64>,
    pub prompt: Option<u64>,
    pub cancel: Option<u64>,
    pub restart: Option<RestartView>,
    pub acknowledgement: Option<AcknowledgementView>,
    pub responses: Seq<Data>,
    pub closing: bool,
    pub tools: Map<Seq<char>, Data>,
    pub chat: Option<Seq<char>>,
    pub chat_id: Option<Seq<char>>,
    pub dirty: bool,
    pub terminal: Option<TerminalView>,
    pub message: u64,
    pub text: Seq<char>,
    pub thinking: Seq<char>,
}

/// The view of an optional message that waits.
pub open spec fn opt_restart(x: Option<Restart>) -> Option<RestartView> {
    match x {
        Some(v) => Some(v@),
        None => None,
    }
}

/// The view of an optional answer that settles another call.
pub open spec fn opt_acknowledgement(x: Option<Acknowledgement>) -> Option<AcknowledgementView> {
    match x {
        Some(v) => Some(v@),
        None => None,
    }
}

/// The view of the optional end of a turn.
pub open spec fn opt_terminal(x: Option<Terminal>) -> Option<TerminalView> {
    match x {
        Some(v) => Some(v@),
        None => None,
    }
}

impl View for Protocol {
    type V = ProtocolView;

    open spec fn view(&self) -> ProtocolView {
        ProtocolView {
            flavor: self.flavor,
            home: self.home@,
            expected: opt(self.expected),
            opening: self.opening,
            prompt: self.prompt,
            cancel: self.cancel,
            restart: opt_restart(self.restart),
            acknowledgement: opt_acknowledgement(self.acknowledgement),
            responses: values(self.responses@),
            closing: self.closing,
            tools: self.tools@,
            chat: opt(self.chat),
            chat_id: opt(self.chat_id),
            dirty: self.dirty,
            terminal: opt_terminal(self.terminal),
            message: self.message,
            text: self.text@,
            thinking: self.thinking@,
        }
    }
}

/// A conversation in which nothing was said.
pub open spec fn opened(flavor: Flavor, home: Seq<char>, saved: Option<Seq<char>>) -> ProtocolView {
    ProtocolView {
        flavor,
        home,
        expected: saved,
        opening: None,
        prompt: None,
        cancel: None,
        restart: None,
        acknowledgement: None,
        responses: Seq::empty(),
        closing: false,
        tools: Map::empty(),
        chat: None,
        chat_id: None,
        dirty: false,
        terminal: None,
        message: 0,
        text: Seq::empty(),
        thinking: Seq::empty(),
    }
}

/// A call of the protocol.
pub open spec fn call_frame(id: u64, method: Seq<char>, params: Data) -> Data {
    Data::Object(
        map![
            "jsonrpc"@ => Data::Text("2.0"@),
            "id"@ => uint(id),
            "method"@ => Data::Text(method),
            "params"@ => params
        ],
    )
}

/// A call that is not answered.
pub open spec fn note_frame(method: Seq<char>, params: Data) -> Data {
    Data::Object(
        map![
            "jsonrpc"@ => Data::Text("2.0"@),
            "method"@ => Data::Text(method),
            "params"@ => params
        ],
    )
}

fn frame_call(id: u64, method: &str, params: Json) -> (r: Json)
    ensures
        r@ == call_frame(id, method@, params@),
{
    Json::Object(
        object().with_text("jsonrpc", "2.0").with("id", Json::uint(id)).with_text(
            "method",
            method,
        ).with("params", params),
    )
}

fn frame_note(method: &str, params: Json) -> (r: Json)
    ensures
        r@ == note_frame(method@, params@),
{
    Json::Object(
        object().with_text("jsonrpc", "2.0").with_text("method", method).with("params", params),
    )
}

/// Steering and interrupting need a turn that runs and is not being ended already.
pub open spec fn control_refused(p: ProtocolView, method: Seq<char>) -> bool {
    (method == "cloudroom/steer"@ || method == "session/cancel"@) && (p.prompt is None || p.restart
        is Some || p.cancel is Some)
}

/// The state after a call, and the frame that is written.
pub open spec fn encoded(
    p: ProtocolView,
    id: u64,
    method: Seq<char>,
    params: Data,
    begins: bool,
) -> (ProtocolView, Data) {
    let q = ProtocolView {
        opening: if method == "session/new"@ || method == "session/load"@ {
            Some(id)
        } else {
            p.opening
        },
        prompt: if begins {
            Some(id)
        } else {
            p.prompt
        },
        ..p
    };
    if method == "cloudroom/steer"@ {
        (
            ProtocolView { restart: Some(RestartView { id, params }), ..q },
            note_frame(
                "session/cancel"@,
                Data::Object(map!["sessionId"@ => params.field("sessionId"@)]),
            ),
        )
    } else if method == "session/cancel"@ {
        (ProtocolView { cancel: Some(id), ..q }, note_frame(method, params))
    } else {
        (q, call_frame(id, method, params))
    }
}

// Lines.

/// The line answers the call that opens the session.
pub open spec fn answers_opening(p: ProtocolView, value: Data) -> bool {
    value.get("method"@) is None && value.field("id"@).as_u64() == p.opening && p.opening is Some
        && value.get("error"@) is None
}

/// The identity of the opened session, with its file and its directory: it must be the one that was
/// asked for.
pub open spec fn opened_session(p: ProtocolView, result: Data) -> Result<
    (Seq<char>, Seq<char>, Option<Seq<char>>),
    FaultView,
> {
    match crate::text::first_text(result.field("sessionId"@).as_text(), p.expected) {
        None => Err(other("Missing "@ + name_of(p.flavor) + " session identity"@)),
        Some(id) => if !id_fits(p.flavor, id) || (p.expected is Some && p.expected != Some(id)) {
            Err(other(name_of(p.flavor) + " native identity changed"@))
        } else {
            match p.flavor {
                Flavor::Cursor => match result.field("path"@).as_text() {
                    None => Err(other("Missing Cursor chat location"@)),
                    Some(path) => match chat_directory(p.home, id, path) {
                        None => Err(other("Cursor native path does not match its session"@)),
                        Some(root) => Ok((id, path, Some(root))),
                    },
                },
                Flavor::Fx => Ok((id, p.home + "/sessions/"@ + id + "/session.json"@, None)),
            }
        },
    }
}

/// What one part of a line comes to.
pub struct StepView {
    pub state: ProtocolView,
    pub progress: ProgressView,
    pub told: Result<Seq<EventView>, FaultView>,
}

/// The session is opened.
pub open spec fn session_opened(p: ProtocolView, s: ProgressView, value: Data) -> StepView {
    if answers_opening(p, value) {
        let q = ProtocolView { opening: None, ..p };
        match opened_session(p, value.field("result"@)) {
            Err(f) => StepView { state: q, progress: s, told: Err(f) },
            Ok((id, path, root)) => StepView {
                state: ProtocolView {
                    expected: Some(id),
                    chat: match root {
                        Some(root) => Some(root),
                        None => q.chat,
                    },
                    chat_id: match root {
                        Some(_) => Some(id),
                        None => q.chat_id,
                    },
                    ..q
                },
                progress: ProgressView { native: Some(id), ..s },
                told: Ok(
                    seq![
                        record_event(
                            "native_identity"@,
                            Data::Object(
                                map!["id"@ => Data::Text(id), "path"@ => Data::Text(path)],
                            ),
                        ),
                    ],
                ),
            },
        }
    } else {
        StepView { state: p, progress: s, told: Ok(Seq::empty()) }
    }
}

/// The identity of a part of a message.
pub open spec fn part_id(p: ProtocolView, kind: Seq<char>) -> Seq<char> {
    harness_of(p.flavor) + ":"@ + decimal(p.message as nat) + ":"@ + kind
}

/// The record of a part of a message that is complete, if it says anything.
pub open spec fn part_ended(
    p: ProtocolView,
    s: ProgressView,
    kind: Seq<char>,
    text: Seq<char>,
) -> Seq<EventView> {
    if text.len() == 0 {
        Seq::empty()
    } else {
        seq![
            record_event(
                "item_completed"@,
                Data::Object(
                    map![
                        "harness"@ => Data::Text(harness_of(p.flavor)),
                        "request_id"@ => opt_text(s.request),
                        "item_id"@ => Data::Text(part_id(p, kind)),
                        "item_type"@ => Data::Text(kind),
                        "text"@ => Data::Text(text)
                    ],
                ),
            ),
        ]
    }
}

/// The message is complete.
pub open spec fn message_ended(p: ProtocolView, s: ProgressView) -> (ProtocolView, Seq<EventView>) {
    (
        ProtocolView {
            text: Seq::empty(),
            thinking: Seq::empty(),
            message: capped((p.message + 1) as nat),
            ..p
        },
        part_ended(p, s, "agentMessage"@, p.text) + part_ended(p, s, "reasoning"@, p.thinking),
    )
}

/// A piece of a message.
pub open spec fn chunk_heard(p: ProtocolView, s: ProgressView, update: Data, thinking: bool) -> (
    ProtocolView,
    Seq<EventView>,
) {
    let text = update.field("content"@).field("text"@).text_or_empty();
    let kind = if thinking {
        "reasoning"@
    } else {
        "agentMessage"@
    };
    let before = if thinking {
        p.thinking
    } else {
        p.text
    };
    let first = if before.len() == 0 {
        seq![
            record_event(
                "item_started"@,
                Data::Object(
                    map![
                        "harness"@ => Data::Text(harness_of(p.flavor)),
                        "request_id"@ => opt_text(s.request),
                        "item_id"@ => Data::Text(part_id(p, kind)),
                        "item_type"@ => Data::Text(kind)
                    ],
                ),
            ),
        ]
    } else {
        Seq::empty()
    };
    (
        if thinking {
            ProtocolView { thinking: p.thinking + text, ..p }
        } else {
            ProtocolView { text: p.text + text, ..p }
        },
        first.push(
            record_event(
                if thinking {
                    "thinking_delta"@
                } else {
                    "text_delta"@
                },
                Data::Object(
                    map![
                        "harness"@ => Data::Text(harness_of(p.flavor)),
                        "request_id"@ => opt_text(s.request),
                        "item_id"@ => Data::Text(part_id(p, kind)),
                        "delta"@ => Data::Text(text)
                    ],
                ),
            ),
        ),
    )
}

/// What is known of a tool, with an update taken in.
pub open spec fn tool_merged(tools: Map<Seq<char>, Data>, id: Seq<char>, update: Data) -> Data {
    let before = if tools.contains_key(id) {
        tools[id]
    } else {
        Data::Object(Map::empty())
    };
    match (before, update) {
        (Data::Object(a), Data::Object(b)) => Data::Object(a.union_prefer_right(b)),
        _ => before,
    }
}

/// The use of a tool has ended.
pub open spec fn tool_done(update: Data) -> bool {
    let status = update.field("status"@);
    status.is_text("completed"@) || status.is_text("failed"@) || status.is_text("cancelled"@)
}

/// News of a tool.
pub open spec fn tool_heard(p: ProtocolView, s: ProgressView, update: Data, first: bool) -> (
    ProtocolView,
    Result<Seq<EventView>, FaultView>,
) {
    let (q, ended) = if first {
        message_ended(p, s)
    } else {
        (p, Seq::empty())
    };
    match update.field("toolCallId"@).as_text() {
        None => (q, Err(other("Missing "@ + name_of(p.flavor) + " tool identity"@))),
        Some(id) => {
            let stored = tool_merged(q.tools, id, update);
            (
                ProtocolView {
                    tools: q.tools.insert(id, stored),
                    dirty: q.dirty || tool_done(update),
                    ..q
                },
                Ok(
                    ended.push(
                        record_event(
                            if tool_done(update) {
                                "item_completed"@
                            } else if first {
                                "item_started"@
                            } else {
                                "tool_snapshot"@
                            },
                            Data::Object(
                                map![
                                    "harness"@ => Data::Text(harness_of(q.flavor)),
                                    "request_id"@ => opt_text(s.request),
                                    "item_id"@ => Data::Text(id),
                                    "tool"@ => stored
                                ],
                            ),
                        ),
                    ),
                ),
            )
        },
    }
}

/// The update speaks of the turn.
pub open spec fn is_turn_update(kind: Seq<char>) -> bool {
    ||| kind == "agent_message_chunk"@
    ||| kind == "agent_thought_chunk"@
    ||| kind == "tool_call"@
    ||| kind == "tool_call_update"@
}

/// An update of the session during a turn.
pub open spec fn updated(p: ProtocolView, s: ProgressView, value: Data) -> StepView {
    if !(value.field("method"@).is_text("session/update"@) && p.prompt is Some) {
        StepView { state: p, progress: s, told: Ok(Seq::empty()) }
    } else if value.field("params"@).field("sessionId"@).as_text() != s.native {
        StepView {
            state: p,
            progress: s,
            told: Err(other(name_of(p.flavor) + " event belongs to a different session"@)),
        }
    } else {
        let update = value.field("params"@).field("update"@);
        let kind = update.field("sessionUpdate"@).text_or_empty();
        if !is_turn_update(kind) {
            StepView { state: p, progress: s, told: Ok(Seq::empty()) }
        } else {
            let (t, started) = begun(s);
            if kind == "agent_message_chunk"@ || kind == "agent_thought_chunk"@ {
                let (q, told) = chunk_heard(p, t, update, kind == "agent_thought_chunk"@);
                StepView { state: q, progress: t, told: Ok(maybe(started) + told) }
            } else {
                let (q, told) = tool_heard(p, t, update, kind == "tool_call"@);
                StepView {
                    state: q,
                    progress: t,
                    told: match told {
                        Ok(list) => Ok(maybe(started) + list),
                        Err(f) => Err(f),
                    },
                }
            }
        }
    }
}

/// What a request for permission is answered: it is granted once, unless the turn is being ended or
/// belongs to another session.
pub open spec fn permission_outcome(p: ProtocolView, s: ProgressView, params: Data) -> Data {
    let cancelled = Data::Object(map!["outcome"@ => Data::Text("cancelled"@)]);
    if p.closing || p.cancel is Some || p.restart is Some || params.field("sessionId"@).as_text()
        != s.native {
        cancelled
    } else {
        match first_with(params.field("options"@).items(), "kind"@, "allow_once"@) {
            None => cancelled,
            Some(option) => match option.field("optionId"@).as_text() {
                None => cancelled,
                Some(id) => Data::Object(
                    map!["outcome"@ => Data::Text("selected"@), "optionId"@ => Data::Text(id)],
                ),
            },
        }
    }
}

/// An answer of the protocol.
pub open spec fn result_frame(id: Data, result: Data) -> Data {
    Data::Object(map!["jsonrpc"@ => Data::Text("2.0"@), "id"@ => id, "result"@ => result])
}

/// What the client answers to questions that belong into the chat.
pub open spec fn chat_outcome(outcome: Seq<char>) -> Data {
    Data::Object(
        map![
            "outcome"@ => Data::Object(
                map!["outcome"@ => Data::Text(outcome), "reason"@ => Data::Text(plain_chat())],
            )
        ],
    )
}

/// The answer to a call of the harness other than for permission.
pub open spec fn client_answer(method: Seq<char>, id: Data) -> Data {
    if method == "cursor/ask_question"@ {
        result_frame(id, chat_outcome("skipped"@))
    } else if method == "cursor/create_plan"@ {
        result_frame(id, chat_outcome("rejected"@))
    } else if method == "cursor/task"@ || method == "cursor/update_todos"@ || method
        == "cursor/generate_image"@ {
        result_frame(id, Data::Object(Map::empty()))
    } else {
        Data::Object(
            map![
                "jsonrpc"@ => Data::Text("2.0"@),
                "id"@ => id,
                "error"@ => Data::Object(
                    map![
                        "code"@ => Data::Number(Number::Negative((-32601) as i64)),
                        "message"@ => Data::Text("Client operation is unsupported"@)
                    ],
                )
            ],
        )
    }
}

/// The state once calls of the harness are answered.
pub open spec fn asked_of_client(p: ProtocolView, s: ProgressView, value: Data) -> ProtocolView {
    match value.field("method"@).as_text() {
        None => p,
        Some(method) => if method == "session/request_permission"@ {
            ProtocolView {
                responses: p.responses.push(
                    result_frame(
                        value.field("id"@),
                        Data::Object(
                            map![
                                "outcome"@ => permission_outcome(p, s, value.field("params"@))
                            ],
                        ),
                    ),
                ),
                ..p
            }
        } else if value.get("id"@) is Some {
            ProtocolView {
                responses: p.responses.push(client_answer(method, value.field("id"@))),
                ..p
            }
        } else {
            p
        },
    }
}

/// The line ends the turn.
pub open spec fn ends_turn(p: ProtocolView, value: Data) -> bool {
    value.get("method"@) is None && p.prompt is Some && value.field("id"@).as_u64() == p.prompt
}

/// How the turn ended.
pub open spec fn stop_status(stop: Data) -> Seq<char> {
    if stop.is_text("end_turn"@) {
        "completed"@
    } else if stop.is_text("cancelled"@) {
        "interrupted"@
    } else {
        "failed"@
    }
}

/// The turn has ended: a message that waits takes its place, or its end is told once the history is
/// saved.
pub open spec fn turn_ended(p: ProtocolView, s: ProgressView, value: Data) -> (
    ProtocolView,
    ProgressView,
    Seq<EventView>,
) {
    if !ends_turn(p, value) {
        (p, s, Seq::empty())
    } else {
        let (m, told) = message_ended(p, s);
        let q = ProtocolView { dirty: true, ..m };
        let stop = value.field("result"@).field("stopReason"@);
        if value.get("error"@) is None && (stop.is_text("cancelled"@) || stop.is_text("end_turn"@))
            && q.restart is Some {
            let next = q.restart->0;
            (
                ProtocolView {
                    restart: None,
                    responses: q.responses.push(
                        call_frame(next.id, "session/prompt"@, next.params),
                    ),
                    acknowledgement: Some(
                        AcknowledgementView { source: value.field("id"@), id: next.id },
                    ),
                    prompt: Some(next.id),
                    ..q
                },
                s,
                told,
            )
        } else {
            let settled = match q.cancel {
                Some(id) => ProtocolView {
                    cancel: None,
                    acknowledgement: Some(
                        AcknowledgementView { source: value.field("id"@), id },
                    ),
                    ..q
                },
                None => match q.restart {
                    Some(next) => ProtocolView {
                        restart: None,
                        acknowledgement: Some(
                            AcknowledgementView { source: value.field("id"@), id: next.id },
                        ),
                        ..q
                    },
                    None => q,
                },
            };
            let over = ProtocolView { prompt: None, ..settled };
            match s.request {
                None => (over, s, told),
                Some(request) => {
                    let (t, started) = begun(s);
                    (
                        ProtocolView {
                            terminal: Some(TerminalView { request, status: stop_status(stop) }),
                            ..over
                        },
                        ProgressView { finished: true, ..t },
                        told + maybe(started),
                    )
                },
            }
        }
    }
}

/// What was told, with the line itself in the first record, or in a record of its own.
pub open spec fn with_line(
    told: Seq<EventView>,
    raw: Seq<char>,
    flavor: Flavor,
    request: Option<Seq<char>>,
) -> Seq<EventView> {
    match first_record(told) {
        Some(i) => told.update(
            i,
            EventView::Record {
                kind: told[i]->Record_kind,
                data: told[i]->Record_data,
                native: Some(raw),
            },
        ),
        None => seq![
            EventView::Record {
                kind: "native_event"@,
                data: Data::Object(
                    map![
                        "harness"@ => Data::Text(harness_of(flavor)),
                        "request_id"@ => opt_text(request)
                    ],
                ),
                native: Some(raw),
            },
        ] + told,
    }
}

/// The place of the first record.
pub open spec fn first_record(told: Seq<EventView>) -> Option<int>
    decreases told.len(),
{
    if told.len() == 0 {
        None
    } else {
        match first_record(told.drop_last()) {
            Some(i) => Some(i),
            None => if told.last() is Record {
                Some(told.len() - 1)
            } else {
                None
            },
        }
    }
}

/// The state, the progress and what is told after a line of the harness.
pub open spec fn received(p: ProtocolView, s: ProgressView, value: Data, raw: Seq<char>) -> (
    ProtocolView,
    ProgressView,
    Result<Seq<EventView>, FaultView>,
) {
    let fresh = ProtocolView { responses: Seq::empty(), acknowledgement: None, ..p };
    let a = session_opened(fresh, s, value);
    match a.told {
        Err(f) => (a.state, a.progress, Err(f)),
        Ok(first) => {
            let b = updated(a.state, a.progress, value);
            match b.told {
                Err(f) => (b.state, b.progress, Err(f)),
                Ok(second) => {
                    let (q, t, third) = turn_ended(
                        asked_of_client(b.state, b.progress, value),
                        b.progress,
                        value,
                    );
                    (
                        q,
                        t,
                        Ok(with_line(first + second + third, raw, q.flavor, t.request)),
                    )
                },
            }
        },
    }
}

/// The answer that a line is: the call it settles, and its outcome.
pub open spec fn answer_in(p: ProtocolView, value: Data) -> Option<(u64, Result<Data, FaultView>)> {
    let id = match p.acknowledgement {
        Some(a) => if alike(a.source, value.field("id"@)) {
            Some(a.id)
        } else {
            value.field("id"@).as_u64()
        },
        None => value.field("id"@).as_u64(),
    };
    if value.get("method"@) is Some || id is None {
        None
    } else {
        Some(
            (
                id->0,
                match value.get("error"@) {
                    Some(error) => Err(
                        refused(
                            name_of(p.flavor) + " rejected the operation (code "@ + written(
                                error.field("code"@),
                            ) + "): "@ + match error.field("message"@).as_text() {
                                Some(message) => message,
                                None => "no error message returned"@,
                            },
                        ),
                    ),
                    None => Ok(value.field("result"@)),
                },
            ),
        )
    }
}

fn answer_frame(id: Json, result: Json) -> (r: Json)
    ensures
        r@ == result_frame(id@, result@),
{
    Json::Object(object().with_text("jsonrpc", "2.0").with("id", id).with("result", result))
}

fn outcome_of_chat(outcome: &str) -> (r: Json)
    ensures
        r@ == chat_outcome(outcome@),
{
    Json::Object(
        object().with(
            "outcome",
            Json::Object(
                object().with_text("outcome", outcome).with_text("reason", chat_plainly()),
            ),
        ),
    )
}

fn answer_client(method: &str, id: Json) -> (r: Json)
    ensures
        r@ == client_answer(method@, id@),
{
    if same(method, "cursor/ask_question") {
        answer_frame(id, outcome_of_chat("skipped"))
    } else if same(method, "cursor/create_plan") {
        answer_frame(id, outcome_of_chat("rejected"))
    } else if same(method, "cursor/task") || same(method, "cursor/update_todos") || same(
        method,
        "cursor/generate_image",
    ) {
        answer_frame(id, Json::Object(object()))
    } else {
        Json::Object(
            object().with_text("jsonrpc", "2.0").with("id", id).with(
                "error",
                Json::Object(
                    object().with(
                        "code",
                        Json::Number(Numeral::Negative(Negative::new(-32601))),
                    ).with_text("message", "Client operation is unsupported"),
                ),
            ),
        )
    }
}

fn mark(list: &mut Vec<Event>, raw: String, flavor: Flavor, request: Option<&str>)
    ensures
        events(final(list)@) == with_line(events(old(list)@), raw@, flavor, opt_str(request)),
{
    let ghost was = events(list@);
    let mut i: usize = 0;
    assert(was.take(0) =~= Seq::empty());
    while i < list.len()
        invariant
            i <= list.len(),
            was == events(list@),
            was == events(old(list)@),
            first_record(was.take(i as int)) is None,
        decreases list.len() - i,
    {
        assert(was.take(i + 1).drop_last() =~= was.take(i as int));
        assert(was.take(i + 1).last() == list@[i as int]@);
        let found = match &list[i] {
            Event::Record { .. } => true,
            _ => false,
        };
        if found {
            proof {
                first_record_stays(was, i + 1);
            }
            let event = list.remove(i);
            if let Event::Record { kind, data, native: _ } = event {
                list.insert(i, Event::Record { kind, data, native: Some(raw) });
                assert(events(list@) =~= with_line(was, raw@, flavor, opt_str(request)));
            }
            return;
        }
        i += 1;
    }
    assert(was.take(i as int) =~= was);
    let data = object().with_text("harness", flavor.harness()).with(
        "request_id",
        Json::opt_text(request),
    );
    list.insert(
        0,
        Event::Record {
            kind: "native_event".to_owned(),
            data: Json::Object(data),
            native: Some(raw),
        },
    );
    assert(events(list@) =~= with_line(was, raw@, flavor, opt_str(request)));
}

proof fn first_record_stays(told: Seq<EventView>, i: int)
    requires
        0 <= i <= told.len(),
        first_record(told.take(i)) is Some,
    ensures
        first_record(told) == first_record(told.take(i)),
    decreases told.len() - i,
{
    if i < told.len() {
        assert(told.take(i + 1).drop_last() =~= told.take(i));
        first_record_stays(told, i + 1);
    } else {
        assert(told.take(i) =~= told);
    }
}

impl Protocol {
    /// A conversation in which nothing was said.
    pub fn new(flavor: Flavor, home: &str, saved: Option<&str>) -> (r: Protocol)
        ensures
            r@ == opened(flavor, home@, opt_str(saved)),
    {
        Protocol {
            flavor,
            home: home.to_owned(),
            expected: opt_owned(saved),
            opening: None,
            prompt: None,
            cancel: None,
            restart: None,
            acknowledgement: None,
            responses: no_json(),
            closing: false,
            tools: Table::new(),
            chat: None,
            chat_id: None,
            dirty: false,
            terminal: None,
            message: 0,
            text: String::new(),
            thinking: String::new(),
        }
    }

    /// Refuses to steer or interrupt where no turn runs or one is being ended.
    pub fn validate(&self, method: &str) -> (r: Result<(), Fault>)
        ensures
            match r {
                Ok(()) => !control_refused(self@, method@),
                Err(f) => control_refused(self@, method@) && f@ == refused(
                    name_of(self@.flavor)
                        + " turn has ended or an interrupt is already pending"@,
                ),
            },
    {
        if (same(method, "cloudroom/steer") || same(method, "session/cancel")) && (
        self.prompt.is_none() || self.restart.is_some() || self.cancel.is_some()) {
            return Err(
                Fault::refused(
                    concat(
                        self.flavor.name(),
                        " turn has ended or an interrupt is already pending",
                    ).as_str(),
                ),
            );
        }
        Ok(())
    }

    /// The frame of a call.
    pub fn encode(&mut self, id: u64, method: &str, params: Json, request: Option<&str>) -> (r: Json)
        ensures
            (final(self)@, r@) == encoded(old(self)@, id, method@, params@, request is Some),
    {
        if same(method, "session/new") || same(method, "session/load") {
            self.opening = Some(id);
        }
        if request.is_some() {
            self.prompt = Some(id);
        }
        if same(method, "cloudroom/steer") {
            let session = params.field("sessionId").duplicate();
            self.restart = Some(Restart { id, params });
            return frame_note("session/cancel", Json::Object(object().with("sessionId", session)));
        }
        if same(method, "session/cancel") {
            self.cancel = Some(id);
            return frame_note(method, params);
        }
        frame_call(id, method, params)
    }

    fn find_session(&self, result: &Json) -> (r: Result<(String, String, Option<String>), Fault>)
        ensures
            match r {
                Ok((id, path, root)) => opened_session(self@, result@) == Ok::<
                    (Seq<char>, Seq<char>, Option<Seq<char>>),
                    FaultView,
                >((id@, path@, opt(root))),
                Err(f) => opened_session(self@, result@) == Err::<
                    (Seq<char>, Seq<char>, Option<Seq<char>>),
                    FaultView,
                >(f@),
            },
    {
        let id = match crate::text::or_text(result.field_text("sessionId"), &self.expected) {
            Some(id) => id,
            None => {
                return Err(
                    Fault::other(
                        concat3("Missing ", self.flavor.name(), " session identity").as_str(),
                    ),
                );
            },
        };
        let fits = match self.flavor {
            Flavor::Cursor => valid_id(id.as_str()),
            Flavor::Fx => valid_fx_id(id.as_str()),
        };
        if !fits || (self.expected.is_some() && !same_opt(
            opt_slice(&self.expected),
            Some(id.as_str()),
        )) {
            return Err(
                Fault::other(concat(self.flavor.name(), " native identity changed").as_str()),
            );
        }
        match self.flavor {
            Flavor::Cursor => {
                let path = match result.field_text("path") {
                    Some(path) => path,
                    None => {
                        return Err(Fault::other("Missing Cursor chat location"));
                    },
                };
                match chat_root(self.home.as_str(), id.as_str(), path) {
                    Ok(root) => Ok((id, path.to_owned(), Some(root))),
                    Err(fault) => Err(fault),
                }
            },
            Flavor::Fx => {
                let mut path = concat3(self.home.as_str(), "/sessions/", id.as_str());
                push_text(&mut path, "/session.json");
                Ok((id, path, None))
            },
        }
    }

    fn open(&mut self, state: &mut Progress, value: &Json) -> (r: Result<Vec<Event>, Fault>)
        ensures
            session_opened(old(self)@, old(state)@, value@) == (StepView {
                state: final(self)@,
                progress: final(state)@,
                told: events_result(r),
            }),
    {
        let answers = match (self.opening, value.field("id").as_u64()) {
            (Some(a), Some(b)) => a == b,
            _ => false,
        };
        if !answers || value.get("method").is_some() || value.get("error").is_some() {
            return Ok(no_events());
        }
        let found = self.find_session(value.field("result"));
        self.opening = None;
        let (id, path, root) = match found {
            Ok(found) => found,
            Err(fault) => {
                return Err(fault);
            },
        };
        if let Some(root) = root {
            self.chat = Some(root);
            self.chat_id = Some(id.clone());
        }
        self.expected = Some(id.clone());
        state.native = Some(id.clone());
        let data = object().with_text("id", id.as_str()).with_text("path", path.as_str());
        Ok(super::one_event(Event::record("native_identity", Json::Object(data))))
    }

    fn part_id(&self, kind: &str) -> (r: String)
        ensures
            r@ == part_id(self@, kind@),
    {
        let mut id = concat3(self.flavor.harness(), ":", decimal_of(self.message).as_str());
        push_text(&mut id, ":");
        push_text(&mut id, kind);
        id
    }

    fn end_part(&self, list: &mut Vec<Event>, state: &Progress, kind: &str, text: &str)
        ensures
            events(final(list)@) == events(old(list)@) + part_ended(self@, state@, kind@, text@),
    {
        let ghost was = events(list@);
        if chars_of(text).len() > 0 {
            let data = object().with_text("harness", self.flavor.harness()).with(
                "request_id",
                Json::opt_text(opt_slice(&state.request)),
            ).with_text("item_id", self.part_id(kind).as_str()).with_text(
                "item_type",
                kind,
            ).with_text("text", text);
            push_event(list, Event::record("item_completed", Json::Object(data)));
            assert(events(list@) =~= was + part_ended(self@, state@, kind@, text@));
        } else {
            assert(was + Seq::<EventView>::empty() =~= was);
        }
    }

    fn end_message(&mut self, state: &Progress) -> (r: Vec<Event>)
        ensures
            (final(self)@, events(r@)) == message_ended(old(self)@, state@),
    {
        let mut list = no_events();
        self.end_part(&mut list, state, "agentMessage", self.text.as_str());
        self.end_part(&mut list, state, "reasoning", self.thinking.as_str());
        proof {
            let a = part_ended(self@, state@, "agentMessage"@, self@.text);
            assert(Seq::<EventView>::empty() + a =~= a);
        }
        self.text = String::new();
        self.thinking = String::new();
        self.message = plus(self.message, 1);
        list
    }

    fn hear_chunk(&mut self, state: &Progress, update: &Json, thinking: bool) -> (r: Vec<Event>)
        ensures
            (final(self)@, events(r@)) == chunk_heard(old(self)@, state@, update@, thinking),
    {
        let text = update.field("content").field("text").text_or_empty();
        let kind = if thinking {
            "reasoning"
        } else {
            "agentMessage"
        };
        let item = self.part_id(kind);
        let empty = if thinking {
            chars_of(self.thinking.as_str()).len() == 0
        } else {
            chars_of(self.text.as_str()).len() == 0
        };
        let mut list = no_events();
        if empty {
            let data = object().with_text("harness", self.flavor.harness()).with(
                "request_id",
                Json::opt_text(opt_slice(&state.request)),
            ).with_text("item_id", item.as_str()).with_text("item_type", kind);
            push_event(&mut list, Event::record("item_started", Json::Object(data)));
            assert(events(list@) =~= seq![events(list@)[0]]);
        }
        if thinking {
            push_text(&mut self.thinking, text);
        } else {
            push_text(&mut self.text, text);
        }
        let told = if thinking {
            "thinking_delta"
        } else {
            "text_delta"
        };
        let data = object().with_text("harness", self.flavor.harness()).with(
            "request_id",
            Json::opt_text(opt_slice(&state.request)),
        ).with_text("item_id", item.as_str()).with_text("delta", text);
        push_event(&mut list, Event::record(told, Json::Object(data)));
        list
    }

    fn merge_tool(&self, id: &str, update: &Json) -> (r: Json)
        ensures
            r@ == tool_merged(self@.tools, id@, update@),
    {
        let before = match self.tools.get(id) {
            Some(tool) => tool.duplicate(),
            None => Json::Object(object()),
        };
        match (before, update.as_object()) {
            (Json::Object(fields), Some(more)) => {
                let mut merged = fields;
                merged.merge(more);
                Json::Object(merged)
            },
            (before, _) => before,
        }
    }

    fn hear_tool(&mut self, state: &Progress, update: &Json, first: bool) -> (r: Result<
        Vec<Event>,
        Fault,
    >)
        ensures
            (final(self)@, events_result(r)) == tool_heard(old(self)@, state@, update@, first),
    {
        let mut list = if first {
            self.end_message(state)
        } else {
            no_events()
        };
        let id = match update.field_text("toolCallId") {
            Some(id) => id,
            None => {
                return Err(
                    Fault::other(
                        concat3("Missing ", self.flavor.name(), " tool identity").as_str(),
                    ),
                );
            },
        };
        let stored = self.merge_tool(id, update);
        let done = update.field_is("status", "completed") || update.field_is("status", "failed")
            || update.field_is("status", "cancelled");
        let data = object().with_text("harness", self.flavor.harness()).with(
            "request_id",
            Json::opt_text(opt_slice(&state.request)),
        ).with_text("item_id", id).with("tool", stored.duplicate());
        let kind = if done {
            "item_completed"
        } else if first {
            "item_started"
        } else {
            "tool_snapshot"
        };
        push_event(&mut list, Event::record(kind, Json::Object(data)));
        self.tools.insert(id, stored);
        if done {
            self.dirty = true;
        }
        Ok(list)
    }

    fn update(&mut self, state: &mut Progress, value: &Json) -> (r: Result<Vec<Event>, Fault>)
        ensures
            updated(old(self)@, old(state)@, value@) == (StepView {
                state: final(self)@,
                progress: final(state)@,
                told: events_result(r),
            }),
    {
        if !(value.field_is("method", "session/update") && self.prompt.is_some()) {
            return Ok(no_events());
        }
        let params = value.field("params");
        if !same_opt(params.field_text("sessionId"), opt_slice(&state.native)) {
            return Err(
                Fault::other(
                    concat(self.flavor.name(), " event belongs to a different session").as_str(),
                ),
            );
        }
        let update = params.field("update");
        let kind = update.field("sessionUpdate").text_or_empty();
        let message = same(kind, "agent_message_chunk");
        let thought = same(kind, "agent_thought_chunk");
        let call = same(kind, "tool_call");
        if !(message || thought || call || same(kind, "tool_call_update")) {
            return Ok(no_events());
        }
        let mut list = no_events();
        let started = state.started();
        push_maybe(&mut list, started);
        proof {
            let m = maybe(opt_event(started));
            assert(Seq::<EventView>::empty() + m =~= m);
        }
        if message || thought {
            let told = self.hear_chunk(state, update, thought);
            super::append_events(&mut list, told);
            return Ok(list);
        }
        match self.hear_tool(state, update, call) {
            Ok(told) => {
                super::append_events(&mut list, told);
                Ok(list)
            },
            Err(fault) => Err(fault),
        }
    }

    fn permit(&self, state: &Progress, params: &Json) -> (r: Json)
        ensures
            r@ == permission_outcome(self@, state@, params@),
    {
        if !(self.closing || self.cancel.is_some() || self.restart.is_some() || !same_opt(
            params.field_text("sessionId"),
            opt_slice(&state.native),
        )) {
            if let Some(option) = find_with(
                params.field("options").items(),
                "kind",
                "allow_once",
            ) {
                if let Some(id) = option.field_text("optionId") {
                    return Json::Object(
                        object().with_text("outcome", "selected").with_text("optionId", id),
                    );
                }
            }
        }
        Json::Object(object().with_text("outcome", "cancelled"))
    }

    fn answer(&mut self, state: &Progress, value: &Json)
        ensures
            final(self)@ == asked_of_client(old(self)@, state@, value@),
    {
        if let Some(method) = value.field_text("method") {
            if same(method, "session/request_permission") {
                let outcome = self.permit(state, value.field("params"));
                push_json(
                    &mut self.responses,
                    answer_frame(
                        value.field("id").duplicate(),
                        Json::Object(object().with("outcome", outcome)),
                    ),
                );
            } else if value.get("id").is_some() {
                push_json(
                    &mut self.responses,
                    answer_client(method, value.field("id").duplicate()),
                );
            }
        }
    }

    fn settle(&mut self, source: &Json)
        ensures
            final(self)@ == (match old(self)@.cancel {
                Some(id) => ProtocolView {
                    cancel: None,
                    acknowledgement: Some(AcknowledgementView { source: source@, id }),
                    ..old(self)@
                },
                None => match old(self)@.restart {
                    Some(next) => ProtocolView {
                        restart: None,
                        acknowledgement: Some(
                            AcknowledgementView { source: source@, id: next.id },
                        ),
                        ..old(self)@
                    },
                    None => old(self)@,
                },
            }),
    {
        if let Some(id) = self.cancel {
            self.cancel = None;
            self.acknowledgement = Some(Acknowledgement { source: source.duplicate(), id });
            return;
        }
        let waiting: Option<u64> = match &self.restart {
            Some(next) => Some(next.id),
            None => None,
        };
        if let Some(id) = waiting {
            self.restart = None;
            self.acknowledgement = Some(Acknowledgement { source: source.duplicate(), id });
        }
    }

    fn end_turn(&mut self, state: &mut Progress, value: &Json) -> (r: Vec<Event>)
        ensures
            (final(self)@, final(state)@, events(r@)) == turn_ended(
                old(self)@,
                old(state)@,
                value@,
            ),
    {
        let ends = match (self.prompt, value.field("id").as_u64()) {
            (Some(a), Some(b)) => a == b,
            _ => false,
        };
        if !ends || value.get("method").is_some() {
            return no_events();
        }
        let mut list = self.end_message(state);
        self.dirty = true;
        let stop = value.field("result").field("stopReason");
        if value.get("error").is_none() && (stop.is_text("cancelled") || stop.is_text("end_turn"))
            && self.restart.is_some() {
            let (id, params) = match &self.restart {
                Some(next) => (next.id, next.params.duplicate()),
                None => (0, Json::Null),
            };
            self.restart = None;
            push_json(&mut self.responses, frame_call(id, "session/prompt", params));
            self.acknowledgement = Some(
                Acknowledgement { source: value.field("id").duplicate(), id },
            );
            self.prompt = Some(id);
            return list;
        }
        self.settle(value.field("id"));
        self.prompt = None;
        let status = if stop.is_text("end_turn") {
            "completed"
        } else if stop.is_text("cancelled") {
            "interrupted"
        } else {
            "failed"
        };
        let request = match &state.request {
            Some(request) => request.clone(),
            None => {
                return list;
            },
        };
        let started = state.started();
        push_maybe(&mut list, started);
        state.finished = true;
        self.terminal = Some(Terminal { request, status: status.to_owned() });
        list
    }

    /// What a line of the harness means.
    pub fn receive(&mut self, value: &Json, raw: String, state: &mut Progress) -> (r: Result<
        Vec<Event>,
        Fault,
    >)
        ensures
            (final(self)@, final(state)@, events_result(r)) == received(
                old(self)@,
                old(state)@,
                value@,
                raw@,
            ),
    {
        self.responses = no_json();
        self.acknowledgement = None;
        let mut list = match self.open(state, value) {
            Ok(list) => list,
            Err(fault) => {
                return Err(fault);
            },
        };
        let second = match self.update(state, value) {
            Ok(list) => list,
            Err(fault) => {
                return Err(fault);
            },
        };
        super::append_events(&mut list, second);
        self.answer(state, value);
        let third = self.end_turn(state, value);
        super::append_events(&mut list, third);
        mark(&mut list, raw, self.flavor, opt_slice(&state.request));
        Ok(list)
    }

    /// The answer that a line is.
    pub fn response(&self, value: &Json) -> (r: Option<(u64, Result<Json, Fault>)>)
        ensures
            answer_view(r) == answer_in(self@, value@),
    {
        if value.get("method").is_some() {
            return None;
        }
        let id: Option<u64> = match &self.acknowledgement {
            Some(a) => if a.source.same(value.field("id")) {
                Some(a.id)
            } else {
                value.field("id").as_u64()
            },
            None => value.field("id").as_u64(),
        };
        let id = match id {
            Some(id) => id,
            None => {
                return None;
            },
        };
        match value.get("error") {
            Some(error) => {
                let mut text = concat3(
                    self.flavor.name(),
                    " rejected the operation (code ",
                    write_json(error.field("code")).as_str(),
                );
                push_text(&mut text, "): ");
                let message = match error.field_text("message") {
                    Some(message) => message,
                    None => "no error message returned",
                };
                push_text(&mut text, message);
                Some((id, Err(Fault::refused(text.as_str()))))
            },
            None => Some((id, Ok(value.field("result").duplicate()))),
        }
    }

    /// The frames that answer the last line.
    pub fn respond(&self) -> (r: Vec<Json>)
        ensures
            values(r@) == self@.responses,
    {
        copy_json(self.responses.as_slice())
    }

    /// The history is being saved, or has changed since it was.
    pub fn saving(&self, working: bool) -> (r: bool)
        ensures
            r == saving(self@, working),
    {
        working || (self.dirty && self.chat_id.is_some())
    }

    /// The chat whose history is to be saved now, if any: its directory and its identity.
    pub fn begin_saving(&mut self, working: bool) -> (r: Option<(String, String)>)
        ensures
            match r {
                Some((root, id)) => !working && old(self)@.dirty && old(self)@.chat == Some(root@)
                    && old(self)@.chat_id == Some(id@) && final(self)@ == (ProtocolView {
                    dirty: false,
                    ..old(self)@
                }),
                None => final(self)@ == old(self)@ && (working || !old(self)@.dirty || old(
                    self,
                )@.chat_id is None || old(self)@.chat is None),
            },
    {
        if working || !self.dirty {
            return None;
        }
        match (opt_copy(&self.chat), opt_copy(&self.chat_id)) {
            (Some(root), Some(id)) => {
                self.dirty = false;
                Some((root, id))
            },
            _ => None,
        }
    }

    /// The end of a turn, once its history is saved.
    pub fn conclude(&mut self, working: bool) -> (r: Option<Event>)
        ensures
            (final(self)@, opt_event(r)) == concluded(old(self)@, working),
    {
        if self.saving(working) {
            return None;
        }
        let ended: Option<(String, String)> = match &self.terminal {
            Some(t) => Some((t.request.clone(), t.status.clone())),
            None => None,
        };
        match ended {
            Some((request, status)) => {
                self.terminal = None;
                Some(Event::Finished { request, status, error: None })
            },
            None => None,
        }
    }

    /// Whether there is still something to save or to tell.
    pub fn capture_pending(&self, working: bool) -> (r: bool)
        ensures
            r == (saving(self@, working) || self@.terminal is Some),
    {
        self.saving(working) || self.terminal.is_some()
    }

    /// The frame that asks the harness to end, where a turn runs.
    pub fn close(&mut self) -> (r: Option<Json>)
        ensures
            final(self)@ == (ProtocolView { closing: true, restart: None, ..old(self)@ }),
            super::codex::opt_json(r) == if old(self)@.prompt is Some {
                Some(
                    note_frame(
                        "session/cancel"@,
                        Data::Object(map!["sessionId"@ => opt_text(old(self)@.expected)]),
                    ),
                )
            } else {
                None
            },
    {
        self.closing = true;
        self.restart = None;
        if self.prompt.is_some() {
            Some(
                frame_note(
                    "session/cancel",
                    Json::Object(
                        object().with("sessionId", Json::opt_text(opt_slice(&self.expected))),
                    ),
                ),
            )
        } else {
            None
        }
    }

    /// Whether the harness has ended its turn.
    pub fn closed(&self) -> (r: bool)
        ensures
            r == (self@.closing && self@.prompt is None),
    {
        self.closing && self.prompt.is_none()
    }
}

/// The history is being saved, or has changed since it was.
pub open spec fn saving(p: ProtocolView, working: bool) -> bool {
    working || (p.dirty && p.chat_id is Some)
}

/// The state, and the end of a turn, once its history is saved.
pub open spec fn concluded(p: ProtocolView, working: bool) -> (ProtocolView, Option<EventView>) {
    match p.terminal {
        Some(t) => if saving(p, working) {
            (p, None)
        } else {
            (
                ProtocolView { terminal: None, ..p },
                Some(
                    EventView::Finished { request: t.request, status: t.status, error: None },
                ),
            )
        },
        None => (p, None),
    }
}

/// The end of a turn is not told before the history it belongs to is saved, and it is told once.
pub proof fn turns_end_after_their_history(p: ProtocolView, working: bool)
    ensures
        saving(p, working) ==> concluded(p, working).1 is None,
        concluded(p, working).1 is Some ==> concluded(concluded(p, working).0, working).1 is None,
{
}

/// A record holds the line.
pub open spec fn holds_line(told: Seq<EventView>, raw: Seq<char>) -> bool {
    exists|i: int|
        0 <= i < told.len() && (#[trigger] told[i]) is Record && told[i]->Record_native == Some(raw)
}

/// Every line that is understood is kept in a record.
pub proof fn lines_are_kept(p: ProtocolView, s: ProgressView, value: Data, raw: Seq<char>)
    ensures
        received(p, s, value, raw).2 is Ok ==> holds_line(received(p, s, value, raw).2->Ok_0, raw),
{
    let fresh = ProtocolView { responses: Seq::empty(), acknowledgement: None, ..p };
    let a = session_opened(fresh, s, value);
    if a.told is Ok {
        let b = updated(a.state, a.progress, value);
        if b.told is Ok {
            let end = turn_ended(
                asked_of_client(b.state, b.progress, value),
                b.progress,
                value,
            );
            marking_keeps(a.told->Ok_0 + b.told->Ok_0 + end.2, raw, end.0.flavor, end.1.request);
        }
    }
}

proof fn marking_keeps(
    told: Seq<EventView>,
    raw: Seq<char>,
    flavor: Flavor,
    request: Option<Seq<char>>,
)
    ensures
        holds_line(with_line(told, raw, flavor, request), raw),
{
    first_record_is_one(told);
    let marked = with_line(told, raw, flavor, request);
    match first_record(told) {
        Some(i) => {
            assert(marked[i] is Record && marked[i]->Record_native == Some(raw));
        },
        None => {
            assert(marked[0] is Record && marked[0]->Record_native == Some(raw));
        },
    }
}

proof fn first_record_is_one(told: Seq<EventView>)
    ensures
        match first_record(told) {
            Some(i) => 0 <= i < told.len() && told[i] is Record,
            None => true,
        },
    decreases told.len(),
{
    if told.len() > 0 {
        first_record_is_one(told.drop_last());
    }
}

} // verus!
