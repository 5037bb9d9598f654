//! Harnesses: the agent programs that do the work, and what the library knows of each.
use crate::fault::{other, Fault, FaultView};
use crate::json::{object, uint, Data, Json};
use crate::text::{opt, opt_copy, opt_owned, opt_str, same, size};
use vstd::prelude::*;

pub mod account_laws;
pub mod auth;
pub mod capture;
pub mod choice_laws;
pub mod claude;
pub mod claude_auth;
pub mod claude_login;
pub mod claude_protocol;
pub mod claude_skills;
pub mod claude_version;
pub mod codex;
pub mod codex_laws;
pub mod command_guard;
pub mod cursor;
pub mod cursor_auth;
pub mod cursor_laws;
pub mod cursor_models;
pub mod cursor_print;
pub mod files;
pub mod fx;
pub mod helper;
pub mod life;
pub mod life_laws;
pub mod linux;
pub mod md5;
pub mod pi;
pub mod pi_auth;
pub mod pi_laws;
pub mod process;
pub mod product;
pub mod reading_laws;
pub mod saying_laws;
pub mod stream_laws;
pub mod telling_laws;

verus! {

/// The harnesses.
#[derive(Clone, Copy, PartialEq, Eq, Structural, Debug)]
pub enum Kind {
    Codex,
    Pi,
    Claude,
    Cursor,
    Fx,
}

/// The name of a harness in records and requests. One of them is named by the word of its product.
pub open spec fn kind_name(kind: Kind, word: Seq<char>) -> Seq<char> {
    match kind {
        Kind::Codex => "codex"@,
        Kind::Pi => "pi"@,
        Kind::Claude => word,
        Kind::Cursor => "cursor"@,
        Kind::Fx => "fx"@,
    }
}

/// The harness of a name.
pub open spec fn kind_named(name: Seq<char>, word: Seq<char>) -> Option<Kind> {
    if name == "codex"@ {
        Some(Kind::Codex)
    } else if name == "pi"@ {
        Some(Kind::Pi)
    } else if name == "cursor"@ {
        Some(Kind::Cursor)
    } else if name == "fx"@ {
        Some(Kind::Fx)
    } else if name == word {
        Some(Kind::Claude)
    } else {
        None
    }
}

/// The harness that a JSON value names.
pub open spec fn kind_in(value: Data, word: Seq<char>) -> Option<Kind> {
    match value {
        Data::Text(name) => kind_named(name, word),
        _ => None,
    }
}

/// Each harness is named by its own name, where the word of the product is none of the other names.
pub proof fn kind_names_differ(kind: Kind, word: Seq<char>)
    requires
        word != "codex"@ && word != "pi"@ && word != "cursor"@ && word != "fx"@,
    ensures
        kind_named(kind_name(kind, word), word) == Some(kind),
{
    reveal_strlit("codex");
    reveal_strlit("pi");
    reveal_strlit("cursor");
    reveal_strlit("fx");
    assert("codex"@.len() == 5 && "pi"@.len() == 2 && "cursor"@.len() == 6 && "fx"@.len() == 2);
    assert("pi"@[0] == 'p' && "fx"@[0] == 'f');
}

impl Kind {
    /// The name of the harness in records and requests.
    pub fn name<'a>(self, word: &'a str) -> (r: &'a str)
        ensures
            r@ == kind_name(self, word@),
    {
        match self {
            Kind::Codex => "codex",
            Kind::Pi => "pi",
            Kind::Claude => word,
            Kind::Cursor => "cursor",
            Kind::Fx => "fx",
        }
    }

    /// The harness of a name.
    pub fn named(name: &str, word: &str) -> (r: Option<Kind>)
        ensures
            r == kind_named(name@, word@),
    {
        if same(name, "codex") {
            Some(Kind::Codex)
        } else if same(name, "pi") {
            Some(Kind::Pi)
        } else if same(name, "cursor") {
            Some(Kind::Cursor)
        } else if same(name, "fx") {
            Some(Kind::Fx)
        } else if same(name, word) {
            Some(Kind::Claude)
        } else {
            None
        }
    }

    /// The harness that a JSON value names.
    pub fn in_json(value: &Json, word: &str) -> (r: Option<Kind>)
        ensures
            r == kind_in(value@, word@),
    {
        match value.as_text() {
            Some(name) => Kind::named(name, word),
            None => None,
        }
    }
}

/// A model that a harness offers, with the levels of reasoning that it supports.
#[derive(Debug)]
pub struct Model {
    pub model: String,
    pub reasoning_levels: Vec<String>,
}

/// The mathematical value of a model.
pub struct ModelView {
    pub model: Seq<char>,
    pub reasoning_levels: Seq<Seq<char>>,
}

impl View for Model {
    type V = ModelView;

    open spec fn view(&self) -> ModelView {
        ModelView {
            model: self.model@,
            reasoning_levels: crate::text::views(self.reasoning_levels@),
        }
    }
}

/// The levels of reasoning that Pi knows.
pub open spec fn pi_reasoning_level(level: Seq<char>) -> bool {
    ||| level == "none"@
    ||| level == "minimal"@
    ||| level == "low"@
    ||| level == "medium"@
    ||| level == "high"@
    ||| level == "xhigh"@
}

/// Whether Pi knows a level of reasoning.
pub fn is_pi_reasoning_level(level: &str) -> (r: bool)
    ensures
        r == pi_reasoning_level(level@),
{
    same(level, "none") || same(level, "minimal") || same(level, "low") || same(level, "medium")
        || same(level, "high") || same(level, "xhigh")
}

/// A request of a harness for a child session.
#[derive(Debug)]
pub struct ChildRequest {
    pub request: String,
    pub id: String,
    pub tool_call_id: String,
    pub prompt: String,
}

/// The mathematical value of a request for a child session.
pub struct ChildView {
    pub request: Seq<char>,
    pub id: Seq<char>,
    pub tool_call_id: Seq<char>,
    pub prompt: Seq<char>,
}

impl View for ChildRequest {
    type V = ChildView;

    open spec fn view(&self) -> ChildView {
        ChildView {
            request: self.request@,
            id: self.id@,
            tool_call_id: self.tool_call_id@,
            prompt: self.prompt@,
        }
    }
}

/// How a harness process ended. Stderr is untrusted, local-only diagnostic data.
#[derive(Debug)]
pub struct ExitDetails {
    pub code: Option<i32>,
    pub signal: Option<i32>,
    pub stderr_bytes: u64,
    pub stderr_complete: bool,
    pub stderr: Vec<u8>,
    /// Why the harness was ended, where that is known.
    pub cause: Option<String>,
}

/// The mathematical value of how a harness process ended.
pub struct ExitView {
    pub code: Option<i32>,
    pub signal: Option<i32>,
    pub stderr_bytes: u64,
    pub stderr_complete: bool,
    pub stderr: Seq<u8>,
    pub cause: Option<Seq<char>>,
}

impl View for ExitDetails {
    type V = ExitView;

    open spec fn view(&self) -> ExitView {
        ExitView {
            code: self.code,
            signal: self.signal,
            stderr_bytes: self.stderr_bytes,
            stderr_complete: self.stderr_complete,
            stderr: self.stderr@,
            cause: opt(self.cause),
        }
    }
}

/// The bytes of stderr that are kept: the last ones.
pub const STDERR_BYTES: usize = 16384;

/// The last so many of a sequence.
pub open spec fn last_of<T>(all: Seq<T>, count: int) -> Seq<T> {
    if all.len() > count {
        all.subrange(all.len() - count, all.len() as int)
    } else {
        all
    }
}

impl ExitDetails {
    /// Nothing is known yet.
    pub fn new() -> (r: ExitDetails)
        ensures
            r@ == (ExitView {
                code: None,
                signal: None,
                stderr_bytes: 0,
                stderr_complete: false,
                stderr: Seq::empty(),
                cause: None,
            }),
    {
        ExitDetails {
            code: None,
            signal: None,
            stderr_bytes: 0,
            stderr_complete: false,
            stderr: Vec::new(),
            cause: None,
        }
    }

    /// The end of what the process wrote to stderr.
    pub fn stderr(&self) -> (r: &[u8])
        ensures
            r@ == self@.stderr,
    {
        self.stderr.as_slice()
    }

    /// Takes in more of stderr. All of it is counted, and the end of it is kept.
    pub fn capture(&mut self, bytes: &[u8])
        requires
            old(self)@.stderr.len() <= STDERR_BYTES,
        ensures
            final(self)@ == (ExitView {
                stderr_bytes: if old(self)@.stderr_bytes + bytes@.len() > u64::MAX {
                    u64::MAX
                } else {
                    (old(self)@.stderr_bytes + bytes@.len()) as u64
                },
                stderr: last_of(old(self)@.stderr + bytes@, STDERR_BYTES as int),
                ..old(self)@
            }),
            final(self)@.stderr.len() <= STDERR_BYTES,
    {
        let ghost was = self.stderr@;
        let ghost whole = was + bytes@;
        let count = bytes.len();
        self.stderr_bytes = match self.stderr_bytes.checked_add(count as u64) {
            Some(n) => n,
            None => u64::MAX,
        };
        let mut kept: Vec<u8> = Vec::new();
        let held = self.stderr.len();
        let skip = if count >= STDERR_BYTES {
            held
        } else if held > STDERR_BYTES - count {
            held - (STDERR_BYTES - count)
        } else {
            0
        };
        let drop = if count > STDERR_BYTES {
            count - STDERR_BYTES
        } else {
            0
        };
        let mut i: usize = skip;
        while i < held
            invariant
                skip <= i <= held,
                held == self.stderr@.len(),
                self.stderr@ == was,
                kept@ == was.subrange(skip as int, i as int),
            decreases held - i,
        {
            kept.push(self.stderr[i]);
            i += 1;
            assert(was.subrange(skip as int, i as int) =~= was.subrange(skip as int, i - 1).push(
                was[i - 1],
            ));
        }
        let mut j: usize = drop;
        assert(kept@ =~= was.subrange(skip as int, held as int) + bytes@.subrange(
            drop as int,
            j as int,
        ));
        while j < count
            invariant
                drop <= j <= count,
                count == bytes@.len(),
                held == was.len(),
                skip <= held,
                kept@ == was.subrange(skip as int, held as int) + bytes@.subrange(
                    drop as int,
                    j as int,
                ),
            decreases count - j,
        {
            kept.push(bytes[j]);
            j += 1;
            assert(bytes@.subrange(drop as int, j as int) =~= bytes@.subrange(
                drop as int,
                j - 1,
            ).push(bytes@[j - 1]));
            assert(kept@ =~= was.subrange(skip as int, held as int) + bytes@.subrange(
                drop as int,
                j as int,
            ));
        }
        assert(kept@ =~= last_of(whole, STDERR_BYTES as int));
        self.stderr = kept;
    }
}

/// What a harness tells, once its protocol is understood.
#[derive(Debug)]
pub enum Event {
    /// The account was accepted or refused.
    Authentication { accepted: bool },
    ChildRequest(ChildRequest),
    /// A record to make.
    Record { kind: String, data: Json, native: Option<String> },
    Started { request: String, native_turn: Option<String> },
    Finished { request: String, status: String, error: Option<String> },
    Compacted { status: String },
    Exited { reason: String, expected: bool, cleaned_up: bool, details: ExitDetails },
}

/// The mathematical value of an event.
pub enum EventView {
    Authentication { accepted: bool },
    ChildRequest(ChildView),
    Record { kind: Seq<char>, data: Data, native: Option<Seq<char>> },
    Started { request: Seq<char>, native_turn: Option<Seq<char>> },
    Finished { request: Seq<char>, status: Seq<char>, error: Option<Seq<char>> },
    Compacted { status: Seq<char> },
    Exited { reason: Seq<char>, expected: bool, cleaned_up: bool, details: ExitView },
}

impl View for Event {
    type V = EventView;

    open spec fn view(&self) -> EventView {
        match self {
            Event::Authentication { accepted } => EventView::Authentication {
                accepted: *accepted,
            },
            Event::ChildRequest(child) => EventView::ChildRequest(child@),
            Event::Record { kind, data, native } => EventView::Record {
                kind: kind@,
                data: data@,
                native: opt(*native),
            },
            Event::Started { request, native_turn } => EventView::Started {
                request: request@,
                native_turn: opt(*native_turn),
            },
            Event::Finished { request, status, error } => EventView::Finished {
                request: request@,
                status: status@,
                error: opt(*error),
            },
            Event::Compacted { status } => EventView::Compacted { status: status@ },
            Event::Exited { reason, expected, cleaned_up, details } => EventView::Exited {
                reason: reason@,
                expected: *expected,
                cleaned_up: *cleaned_up,
                details: details@,
            },
        }
    }
}

/// The views of a sequence of events.
pub open spec fn events(list: Seq<Event>) -> Seq<EventView> {
    Seq::new(list.len(), |i: int| list[i]@)
}

/// A record without anything that the harness wrote.
pub open spec fn record_event(kind: Seq<char>, data: Data) -> EventView {
    EventView::Record { kind, data, native: None }
}

impl Event {
    /// A record without anything that the harness wrote.
    pub fn record(kind: &str, data: Json) -> (r: Event)
        ensures
            r@ == record_event(kind@, data@),
    {
        Event::Record { kind: kind.to_owned(), data, native: None }
    }
}

/// Adds an event.
pub fn push_event(list: &mut Vec<Event>, event: Event)
    ensures
        events(final(list)@) == events(old(list)@).push(event@),
{
    list.push(event);
    assert(events(list@) =~= events(old(list)@).push(event@));
}

/// No events.
pub fn no_events() -> (r: Vec<Event>)
    ensures
        events(r@) == Seq::<EventView>::empty(),
{
    let list: Vec<Event> = Vec::new();
    assert(events(list@) =~= Seq::<EventView>::empty());
    list
}

/// One event.
pub fn one_event(event: Event) -> (r: Vec<Event>)
    ensures
        events(r@) == seq![event@],
{
    let mut list: Vec<Event> = Vec::new();
    list.push(event);
    assert(events(list@) =~= seq![event@]);
    list
}

/// Adds events.
pub fn append_events(list: &mut Vec<Event>, more: Vec<Event>)
    ensures
        events(final(list)@) == events(old(list)@) + events(more@),
{
    let mut rest = more;
    list.append(&mut rest);
    assert(events(list@) =~= events(old(list)@) + events(more@));
}

/// An optional event as a sequence.
pub open spec fn maybe(event: Option<EventView>) -> Seq<EventView> {
    match event {
        Some(e) => seq![e],
        None => Seq::empty(),
    }
}

/// The view of an optional event.
pub open spec fn opt_event(event: Option<Event>) -> Option<EventView> {
    match event {
        Some(e) => Some(e@),
        None => None,
    }
}

/// Adds an event if there is one.
pub fn push_maybe(list: &mut Vec<Event>, event: Option<Event>)
    ensures
        events(final(list)@) == events(old(list)@) + maybe(opt_event(event)),
{
    let ghost was = events(list@);
    match event {
        Some(e) => {
            push_event(list, e);
            assert(was.push(e@) =~= was + seq![e@]);
        },
        None => {
            assert(was + Seq::empty() =~= was);
        },
    }
}

/// How far the harness has come with a request.
pub struct Progress {
    pub native: Option<String>,
    pub model: Option<String>,
    pub request: Option<String>,
    pub native_turn: Option<String>,
    pub started: bool,
    pub finished: bool,
    pub status: String,
    pub last_usage: Json,
    pub last_text: String,
    /// Background processes of the harness that have not ended.
    pub processes: Vec<String>,
}

/// The mathematical value of how far the harness has come.
pub struct ProgressView {
    pub native: Option<Seq<char>>,
    pub model: Option<Seq<char>>,
    pub request: Option<Seq<char>>,
    pub native_turn: Option<Seq<char>>,
    pub started: bool,
    pub finished: bool,
    pub status: Seq<char>,
    pub last_usage: Data,
    pub last_text: Seq<char>,
    pub processes: Seq<Seq<char>>,
}

impl View for Progress {
    type V = ProgressView;

    open spec fn view(&self) -> ProgressView {
        ProgressView {
            native: opt(self.native),
            model: opt(self.model),
            request: opt(self.request),
            native_turn: opt(self.native_turn),
            started: self.started,
            finished: self.finished,
            status: self.status@,
            last_usage: self.last_usage@,
            last_text: self.last_text@,
            processes: crate::text::views(self.processes@),
        }
    }
}

/// Nothing has been asked of the harness.
pub open spec fn no_progress() -> ProgressView {
    ProgressView {
        native: None,
        model: None,
        request: None,
        native_turn: None,
        started: false,
        finished: false,
        status: Seq::empty(),
        last_usage: Data::Null,
        last_text: Seq::empty(),
        processes: Seq::empty(),
    }
}

/// A request has just been handed to the harness.
pub open spec fn asked(p: ProgressView, request: Seq<char>) -> ProgressView {
    ProgressView { native: p.native, model: p.model, request: Some(request), ..no_progress() }
}

/// The turn begins: told once, and only of a request that has not ended.
pub open spec fn begun(p: ProgressView) -> (ProgressView, Option<EventView>) {
    if p.request is None || p.started || p.finished {
        (p, None)
    } else {
        (
            ProgressView { started: true, ..p },
            Some(EventView::Started { request: p.request->0, native_turn: p.native_turn }),
        )
    }
}

/// The turn ends: told once.
pub open spec fn over(p: ProgressView, status: Seq<char>, error: Option<Seq<char>>) -> (
    ProgressView,
    Option<EventView>,
) {
    if p.request is None || p.finished {
        (p, None)
    } else {
        (
            ProgressView { finished: true, ..p },
            Some(EventView::Finished { request: p.request->0, status, error }),
        )
    }
}

/// A turn that has ended neither begins nor ends again.
pub proof fn turns_end_once(
    p: ProgressView,
    status: Seq<char>,
    error: Option<Seq<char>>,
    again: Seq<char>,
    cause: Option<Seq<char>>,
)
    ensures
        over(over(p, status, error).0, again, cause).1 is None,
        begun(over(p, status, error).0).1 is None,
        begun(begun(p).0).1 is None,
{
}

impl Progress {
    /// Nothing has been asked of the harness.
    pub fn new() -> (r: Progress)
        ensures
            r@ == no_progress(),
    {
        let p = Progress {
            native: None,
            model: None,
            request: None,
            native_turn: None,
            started: false,
            finished: false,
            status: String::new(),
            last_usage: Json::Null,
            last_text: String::new(),
            processes: Vec::new(),
        };
        assert(p@.processes =~= Seq::<Seq<char>>::empty());
        p
    }

    /// A request is handed to the harness.
    pub fn ask(&mut self, request: &str)
        ensures
            final(self)@ == asked(old(self)@, request@),
    {
        let mut next = Progress::new();
        next.native = opt_copy(&self.native);
        next.model = opt_copy(&self.model);
        next.request = Some(request.to_owned());
        *self = next;
    }

    /// The turn begins.
    pub fn started(&mut self) -> (r: Option<Event>)
        ensures
            (final(self)@, opt_event(r)) == begun(old(self)@),
    {
        let request = match &self.request {
            Some(request) => request.clone(),
            None => {
                return None;
            },
        };
        if self.started || self.finished {
            return None;
        }
        self.started = true;
        Some(Event::Started { request, native_turn: opt_copy(&self.native_turn) })
    }

    /// The turn ends.
    pub fn finished(&mut self, status: &str, error: Option<&str>) -> (r: Option<Event>)
        ensures
            (final(self)@, opt_event(r)) == over(old(self)@, status@, opt_str(error)),
    {
        let request = match &self.request {
            Some(request) => request.clone(),
            None => {
                return None;
            },
        };
        if self.finished {
            return None;
        }
        self.finished = true;
        Some(Event::Finished { request, status: status.to_owned(), error: opt_owned(error) })
    }
}

/// The result of an operation on JSON values, as a mathematical value.
pub open spec fn json_result(r: Result<Json, Fault>) -> Result<Data, FaultView> {
    match r {
        Ok(j) => Ok(j@),
        Err(f) => Err(f@),
    }
}

/// The position after one more native record, for harnesses whose history is a file of lines: the
/// record must begin where the last one ended.
pub open spec fn offset_checkpoint(
    previous: Data,
    data: Data,
    native: Option<Seq<char>>,
) -> Result<Data, FaultView> {
    match data.field("offset"@).as_u64() {
        None => Err(other("missing native offset"@)),
        Some(offset) => {
            let expected = match previous.field("offset"@).as_u64() {
                Some(n) => n,
                None => 0,
            };
            if offset != expected {
                Err(other("native record offset mismatch"@))
            } else {
                match native {
                    None => Err(other("missing native record"@)),
                    Some(line) => {
                        let end = offset + crate::text::byte_len(line);
                        if end > u64::MAX {
                            Err(other("native offset overflow"@))
                        } else {
                            Ok(Data::Object(map!["offset"@ => uint(end as u64)]))
                        }
                    },
                }
            }
        },
    }
}

/// The position after one more native record of Pi: the entry, with its line.
pub open spec fn entry_checkpoint(data: Data, native: Option<Seq<char>>) -> Result<Data, FaultView> {
    let entry = data.field("cursor"@).field("entry"@).text_or_empty();
    if entry.len() == 0 {
        Err(other("missing Pi entry cursor"@))
    } else {
        match native {
            None => Err(other("missing native record"@)),
            Some(line) => Ok(
                Data::Object(map!["entry"@ => Data::Text(entry), "line"@ => Data::Text(line)]),
            ),
        }
    }
}

/// The position after one more native record of Cursor: a record of a snapshot, in order. The
/// first record of a snapshot may come at any time.
pub open spec fn snapshot_checkpoint(
    previous: Data,
    data: Data,
    native: Option<Seq<char>>,
) -> Result<Data, FaultView> {
    match data.field("snapshot"@).as_text() {
        None => Err(other("Missing Cursor snapshot identity"@)),
        Some(snapshot) => match data.field("index"@).as_u64() {
            None => Err(other("Missing Cursor snapshot offset"@)),
            Some(index) => if native is None || index == u64::MAX || (index != 0 && (previous.field(
                "snapshot"@,
            ) != Data::Text(snapshot) || previous.field("index"@).as_u64() != Some(index))) {
                Err(other("Cursor snapshot is incomplete or out of order"@))
            } else {
                Ok(
                    Data::Object(
                        map![
                            "snapshot"@ => Data::Text(snapshot),
                            "index"@ => uint((index + 1) as u64),
                            "complete"@ => Data::Bool(data.field("complete"@).is_true())
                        ],
                    ),
                )
            },
        },
    }
}

/// The position in native history after one more record.
pub open spec fn checkpointed(
    kind: Kind,
    previous: Data,
    data: Data,
    native: Option<Seq<char>>,
) -> Result<Data, FaultView> {
    match kind {
        Kind::Codex => offset_checkpoint(previous, data, native),
        Kind::Claude => offset_checkpoint(previous, data, native),
        Kind::Pi => entry_checkpoint(data, native),
        Kind::Cursor => snapshot_checkpoint(previous, data, native),
        Kind::Fx => snapshot_checkpoint(previous, data, native),
    }
}

fn next_offset(previous: &Json, data: &Json, native: Option<&str>) -> (r: Result<Json, Fault>)
    ensures
        json_result(r) == offset_checkpoint(previous@, data@, opt_str(native)),
{
    let offset = match data.field("offset").as_u64() {
        Some(n) => n,
        None => {
            return Err(Fault::other("missing native offset"));
        },
    };
    let expected = match previous.field("offset").as_u64() {
        Some(n) => n,
        None => 0,
    };
    if offset != expected {
        return Err(Fault::other("native record offset mismatch"));
    }
    let line = match native {
        Some(line) => line,
        None => {
            return Err(Fault::other("missing native record"));
        },
    };
    match offset.checked_add(size(line) as u64) {
        Some(end) => Ok(Json::Object(object().with("offset", Json::uint(end)))),
        None => Err(Fault::other("native offset overflow")),
    }
}

fn next_entry(data: &Json, native: Option<&str>) -> (r: Result<Json, Fault>)
    ensures
        json_result(r) == entry_checkpoint(data@, opt_str(native)),
{
    let entry = data.field("cursor").field("entry").text_or_empty();
    if entry.is_empty() {
        return Err(Fault::other("missing Pi entry cursor"));
    }
    match native {
        Some(line) => Ok(
            Json::Object(object().with_text("entry", entry).with_text("line", line)),
        ),
        None => Err(Fault::other("missing native record")),
    }
}

fn next_snapshot(previous: &Json, data: &Json, native: Option<&str>) -> (r: Result<Json, Fault>)
    ensures
        json_result(r) == snapshot_checkpoint(previous@, data@, opt_str(native)),
{
    let snapshot = match data.field_text("snapshot") {
        Some(t) => t,
        None => {
            return Err(Fault::other("Missing Cursor snapshot identity"));
        },
    };
    let index = match data.field("index").as_u64() {
        Some(n) => n,
        None => {
            return Err(Fault::other("Missing Cursor snapshot offset"));
        },
    };
    let follows = previous.field_is("snapshot", snapshot) && match previous.field("index").as_u64() {
        Some(n) => n == index,
        None => false,
    };
    if native.is_none() || index == u64::MAX || (index != 0 && !follows) {
        return Err(Fault::other("Cursor snapshot is incomplete or out of order"));
    }
    let complete = data.field("complete").is_true();
    Ok(
        Json::Object(
            object().with_text("snapshot", snapshot).with("index", Json::uint(index + 1)).with(
                "complete",
                Json::Bool(complete),
            ),
        ),
    )
}

/// The position in native history after one more record.
pub fn checkpoint(kind: Kind, previous: &Json, data: &Json, native: Option<&str>) -> (r: Result<
    Json,
    Fault,
>)
    ensures
        json_result(r) == checkpointed(kind, previous@, data@, opt_str(native)),
{
    match kind {
        Kind::Codex => next_offset(previous, data, native),
        Kind::Claude => next_offset(previous, data, native),
        Kind::Pi => next_entry(data, native),
        Kind::Cursor => next_snapshot(previous, data, native),
        Kind::Fx => next_snapshot(previous, data, native),
    }
}

/// Records of an older form are shown as those of today. What is saved stays as it is.
pub open spec fn older_form(data: Data) -> bool {
    data.get("method"@) is Some && data.get("value"@) is None && data.get("harness"@) is None
}

/// Shows a record as clients know it.
pub fn for_client(data: &mut Json, native: Option<&str>) -> (r: Result<(), Fault>)
    ensures
        older_form(old(data)@) ==> codex::shown(old(data)@, opt_str(native), final(data)@, r),
        !older_form(old(data)@) ==> r is Ok && final(data)@ == old(data)@,
{
    if data.get("method").is_some() && data.get("value").is_none() && data.get("harness").is_none()
    {
        return codex::for_client(data, native);
    }
    Ok(())
}

/// What a harness can do.
pub open spec fn abilities(kind: Kind) -> Data {
    if kind == Kind::Cursor || kind == Kind::Fx {
        Data::Object(
            map![
                "resume"@ => Data::Bool(true),
                "interrupt"@ => Data::Bool(true),
                "system_notice"@ => Data::Bool(false),
                "interactive_dialogs"@ => Data::Bool(false),
                "steer"@ => Data::Bool(true),
                "compact"@ => Data::Bool(false),
                "rewind"@ => Data::Bool(false),
                "attachments"@ => Data::Bool(true),
                "service_tier"@ => Data::Bool(false),
                "subagents"@ => Data::Bool(false),
                "usage"@ => Data::Bool(false),
                "command_guard"@ => Data::Bool(false)
            ],
        )
    } else {
        Data::Object(
            map![
                "resume"@ => Data::Bool(true),
                "interrupt"@ => Data::Bool(true),
                "system_notice"@ => Data::Bool(true),
                "interactive_dialogs"@ => Data::Bool(false),
                "steer"@ => Data::Bool(kind != Kind::Claude),
                "compact"@ => Data::Bool(true),
                "rewind"@ => Data::Bool(true),
                "attachments"@ => Data::Bool(true),
                "service_tier"@ => Data::Bool(kind == Kind::Codex),
                "subagents"@ => Data::Bool(true),
                "usage"@ => Data::Bool(true)
            ],
        )
    }
}

/// What a harness can do.
pub fn capabilities(kind: Kind) -> (r: Json)
    ensures
        r@ == abilities(kind),
{
    let full = kind != Kind::Cursor && kind != Kind::Fx;
    let fields = object().with("resume", Json::Bool(true)).with(
        "interrupt",
        Json::Bool(true),
    ).with("system_notice", Json::Bool(full)).with("interactive_dialogs", Json::Bool(false)).with(
        "steer",
        Json::Bool(kind != Kind::Claude),
    ).with("compact", Json::Bool(full)).with("rewind", Json::Bool(full)).with(
        "attachments",
        Json::Bool(true),
    ).with("service_tier", Json::Bool(kind == Kind::Codex)).with(
        "subagents",
        Json::Bool(full),
    ).with("usage", Json::Bool(full));
    Json::Object(
        if full {
            fields
        } else {
            fields.with("command_guard", Json::Bool(false))
        },
    )
}

} // verus!
