//! Pi: its RPC mode is spoken to in lines, and its history is a file of entries that Pi may rewrite.
use super::claude_protocol::{capped, events_result, plus};
use super::codex::answer_view;
use super::process::MAX_LINE;
use super::{
    append_events, begun, events, is_pi_reasoning_level, maybe, no_events, no_progress, over,
    pi_reasoning_level, push_event, push_maybe, record_event, ChildRequest, ChildView, Event,
    EventView, Progress, ProgressView,
};
use crate::fault::{other, refused, Fault, FaultKind, FaultView};
use crate::json::{no_json, object, one_json, opt_text, push_json, uint, values, Data, Json};
use crate::text::{
    all_in, all_text_in, begins, blank, byte_len, chars_of, concat, concat3, contains, decimal,
    decimal_of, ends_with, finishes, holds, includes, is_blank, lowered, number, opt, opt_owned,
    opt_slice, opt_str, parse_u64, push_string, push_text, same, same_opt, size, starts_with,
    to_lower, views, Class,
};
use crate::wire::{denoted, parse, text_read, write_json, written};
use vstd::prelude::*;

verus! {

// Calls.

/// The name that Pi has for a level of reasoning.
pub open spec fn thinking_level(reasoning: Seq<char>) -> Seq<char> {
    if reasoning == "none"@ {
        "off"@
    } else {
        reasoning
    }
}

/// The name that Pi has for a level of reasoning.
pub fn thinking(reasoning: &str) -> (r: &str)
    ensures
        r@ == thinking_level(reasoning@),
{
    if same(reasoning, "none") {
        "off"
    } else {
        reasoning
    }
}

/// A string stands among values.
pub open spec fn lists_text(items: Seq<Data>, text: Seq<char>) -> bool {
    items.contains(Data::Text(text))
}

fn has_text(items: &[Json], text: &str) -> (r: bool)
    ensures
        r == lists_text(values(items@), text@),
{
    let mut i: usize = 0;
    while i < items.len()
        invariant
            i <= items.len(),
            forall|j: int| 0 <= j < i ==> (#[trigger] items@[j])@ != Data::Text(text@),
        decreases items.len() - i,
    {
        if items[i].is_text(text) {
            assert(values(items@)[i as int] == Data::Text(text@));
            return true;
        }
        i += 1;
    }
    assert forall|j: int| 0 <= j < values(items@).len() implies values(items@)[j] != Data::Text(
        text@,
    ) by {
        assert(items@[j]@ != Data::Text(text@));
    }
    false
}

/// Refuses a level that the model does not support.
pub fn check_supported(supported: &Json, level: &str) -> (r: Result<(), Fault>)
    ensures
        match r {
            Ok(()) => lists_text(supported@.field("levels"@).items(), level@),
            Err(f) => !lists_text(supported@.field("levels"@).items(), level@) && f@ == refused(
                "Pi model does not support the selected thinking level"@,
            ),
        },
{
    if has_text(supported.field("levels").items(), level) {
        Ok(())
    } else {
        Err(Fault::refused("Pi model does not support the selected thinking level"))
    }
}

/// Refuses a state in which the level was not applied.
pub fn check_applied(state: &Json, level: &str) -> (r: Result<(), Fault>)
    ensures
        match r {
            Ok(()) => state@.field("thinkingLevel"@).is_text(level@),
            Err(f) => !state@.field("thinkingLevel"@).is_text(level@) && f@ == refused(
                "Pi did not apply the selected thinking level"@,
            ),
        },
{
    if state.field_is("thinkingLevel", level) {
        Ok(())
    } else {
        Err(Fault::refused("Pi did not apply the selected thinking level"))
    }
}

/// The level of reasoning that Pi started with, if it is one that is known.
pub open spec fn baseline_level(state: Data) -> Option<Seq<char>> {
    match state.field("thinkingLevel"@).as_text() {
        None => None,
        Some(level) => {
            let stored = if level == "off"@ {
                "none"@
            } else {
                level
            };
            if pi_reasoning_level(stored) {
                Some(stored)
            } else {
                None
            }
        },
    }
}

/// The level of reasoning that Pi started with.
pub fn baseline(state: &Json) -> (r: Option<String>)
    ensures
        opt(r) == baseline_level(state@),
{
    match state.field_text("thinkingLevel") {
        None => None,
        Some(level) => {
            let stored = if same(level, "off") {
                "none"
            } else {
                level
            };
            if is_pi_reasoning_level(stored) {
                Some(stored.to_owned())
            } else {
                None
            }
        },
    }
}

/// The identity of a started session: it must be the one, with the file and the model, that was
/// asked for, and be at rest.
pub open spec fn started_id(
    state: Data,
    path: Seq<char>,
    model: Seq<char>,
    provider: Option<Seq<char>>,
    saved: Option<Seq<char>>,
) -> Result<Seq<char>, FaultView> {
    match state.field("sessionId"@).as_text() {
        None => Err(other("missing Pi session ID"@)),
        Some(id) => if !state.field("sessionFile"@).is_text(path) || !state.field("model"@).field(
            "id"@,
        ).is_text(model) || state.field("model"@).field("provider"@).as_text() != provider
            || !state.field("isStreaming"@).is_false() || !state.field(
            "isCompacting"@,
        ).is_false() {
            Err(other("Pi startup state does not match configured session/model"@))
        } else if saved is Some && saved != Some(id) {
            Err(other("Pi resumed a different session"@))
        } else {
            Ok(id)
        },
    }
}

/// The identity of a started session.
pub fn check_started(
    state: &Json,
    path: &str,
    model: &str,
    provider: Option<&str>,
    saved: Option<&str>,
) -> (r: Result<String, Fault>)
    ensures
        match r {
            Ok(id) => started_id(state@, path@, model@, opt_str(provider), opt_str(saved)) == Ok::<
                Seq<char>,
                FaultView,
            >(id@),
            Err(f) => started_id(state@, path@, model@, opt_str(provider), opt_str(saved))
                == Err::<Seq<char>, FaultView>(f@),
        },
{
    let id = match state.field_text("sessionId") {
        Some(id) => id,
        None => {
            return Err(Fault::other("missing Pi session ID"));
        },
    };
    if !state.field_is("sessionFile", path) || !state.field("model").field_is("id", model)
        || !same_opt(state.field("model").field_text("provider"), provider) || !state.field(
        "isStreaming",
    ).is_false() || !state.field("isCompacting").is_false() {
        return Err(Fault::other("Pi startup state does not match configured session/model"));
    }
    if saved.is_some() && !same_opt(saved, Some(id)) {
        return Err(Fault::other("Pi resumed a different session"));
    }
    Ok(id.to_owned())
}

/// The command of the library's extension.
pub open spec fn context_command(command: Data, path: Option<Seq<char>>) -> bool {
    command.field("name"@).is_text("cloudroom_context"@) && command.field("description"@).is_text(
        "Cloudroom context-only notice (v1)"@,
    ) && command.field("source"@).is_text("extension"@) && command.field("sourceInfo"@).field(
        "path"@,
    ).as_text() == path
}

/// Refuses a harness without the library's extension.
pub fn check_extension(commands: &Json, path: Option<&str>) -> (r: Result<(), Fault>)
    ensures
        ({
            let list = commands@.field("commands"@).items();
            let found = exists|i: int|
                0 <= i < list.len() && context_command(#[trigger] list[i], opt_str(path));
            match r {
                Ok(()) => found,
                Err(f) => !found && f@ == other("Pi context extension unavailable or conflicting"@),
            }
        }),
{
    let list = commands.field("commands").items();
    let mut i: usize = 0;
    while i < list.len()
        invariant
            i <= list.len(),
            values(list@) == commands@.field("commands"@).items(),
            forall|j: int|
                0 <= j < i ==> !context_command(#[trigger] values(list@)[j], opt_str(path)),
        decreases list.len() - i,
    {
        let command: &Json = &list[i];
        assert(values(list@)[i as int] == command@);
        if command.field_is("name", "cloudroom_context") && command.field_is(
            "description",
            "Cloudroom context-only notice (v1)",
        ) && command.field_is("source", "extension") && same_opt(
            command.field("sourceInfo").field_text("path"),
            path,
        ) {
            return Ok(());
        }
        i += 1;
    }
    Err(Fault::other("Pi context extension unavailable or conflicting"))
}

/// A text with the files that are attached to it; images are sent themselves.
pub open spec fn with_files(text: Seq<char>, attachments: Seq<Data>) -> Seq<char>
    decreases attachments.len(),
{
    if attachments.len() == 0 {
        text
    } else {
        let before = with_files(text, attachments.drop_last());
        let last = attachments.last();
        match last.field("path"@).as_text() {
            Some(path) => if last.field("kind"@).is_text("image"@) {
                before
            } else {
                before + "\n[Attached file: "@ + path + "]"@
            },
            None => before,
        }
    }
}

/// What a prompt says.
pub fn prompt_text(input: &Json) -> (r: String)
    ensures
        r@ == with_files(
            input@.field("text"@).text_or_empty(),
            input@.field("attachments"@).items(),
        ),
{
    let mut text = input.field("text").text_or_empty().to_owned();
    let ghost plain = text@;
    let files = input.field("attachments").items();
    let ghost all = values(files@);
    let mut i: usize = 0;
    assert(all.take(0) =~= Seq::empty());
    while i < files.len()
        invariant
            i <= files.len(),
            all == values(files@),
            text@ == with_files(plain, all.take(i as int)),
        decreases files.len() - i,
    {
        assert(all.take(i + 1).drop_last() =~= all.take(i as int));
        assert(all.take(i + 1).last() == files@[i as int]@);
        if !files[i].field_is("kind", "image") {
            if let Some(path) = files[i].field_text("path") {
                push_text(&mut text, "\n[Attached file: ");
                push_text(&mut text, path);
                push_text(&mut text, "]");
            }
        }
        i += 1;
    }
    assert(all.take(i as int) =~= all);
    text
}

/// The bytes that are left for images in the line of a prompt.
pub open spec fn image_room(text: Seq<char>) -> int {
    let used = byte_len(
        written(
            Data::Object(
                map![
                    "id"@ => Data::Text(decimal(u64::MAX as nat)),
                    "type"@ => Data::Text("prompt"@),
                    "message"@ => Data::Text(text),
                    "images"@ => Data::Array(Seq::empty())
                ],
            ),
        ),
    ) + 1;
    if used > MAX_LINE {
        0
    } else {
        MAX_LINE - used
    }
}

/// The bytes that are left for images in the line of a prompt.
pub fn room_for_images(text: &str) -> (r: usize)
    ensures
        r == image_room(text@),
{
    let envelope = Json::Object(
        object().with_text("id", decimal_of(u64::MAX).as_str()).with_text("type", "prompt").with_text(
            "message",
            text,
        ).with("images", Json::Array(no_json())),
    );
    let used = size(write_json(&envelope).as_str());
    if used >= MAX_LINE {
        0
    } else {
        MAX_LINE - used - 1
    }
}

/// A message of the service into the conversation.
pub fn notice_message(text: &str) -> (r: String)
    ensures
        r@ == "/cloudroom_context "@ + written(Data::Object(map!["text"@ => Data::Text(text@)])),
{
    let body = write_json(&Json::Object(object().with_text("text", text)));
    concat("/cloudroom_context ", body.as_str())
}

/// The result of a child session, as the harness gets it.
pub fn child_message(result: &Json) -> (r: String)
    ensures
        r@ == "/cloudroom_child_result "@ + written(result@),
{
    let body = write_json(result);
    concat("/cloudroom_child_result ", body.as_str())
}

/// The parameters of a fork.
pub open spec fn fork_params(input: Data) -> Data {
    match super::codex::first_field(input, seq!["before"@, "entry_id"@, "entryId"@]) {
        Some(id) => Data::Object(map!["entryId"@ => Data::Text(id)]),
        None => Data::Object(Map::empty()),
    }
}

/// The parameters of a fork.
pub fn fork(input: &Json) -> (r: Json)
    ensures
        r@ == fork_params(input@),
{
    proof {
        reveal_with_fuel(super::codex::first_field, 4);
        let keys = seq!["before"@, "entry_id"@, "entryId"@];
        assert(keys.drop_last() =~= seq!["before"@, "entry_id"@]);
        assert(keys.drop_last().drop_last() =~= seq!["before"@]);
        assert(keys.drop_last().drop_last().drop_last() =~= Seq::<Seq<char>>::empty());
    }
    let id: Option<&str> = match input.field_text("before") {
        Some(id) => Some(id),
        None => match input.field_text("entry_id") {
            Some(id) => Some(id),
            None => input.field_text("entryId"),
        },
    };
    match id {
        Some(id) => Json::Object(object().with_text("entryId", id)),
        None => Json::Object(object()),
    }
}

/// Whether a fork was made, or the harness gave it up.
pub fn check_forked(result: &Json) -> (r: Result<(), Fault>)
    ensures
        match r {
            Ok(_) => !result@.field("cancelled"@).is_true(),
            Err(f) => result@.field("cancelled"@).is_true() && f@ == refused(
                "Pi cancelled the rewind"@,
            ),
        },
{
    if result.field("cancelled").is_true() {
        Err(Fault::refused("Pi cancelled the rewind"))
    } else {
        Ok(())
    }
}

/// The parameters of a prompt, with its images if it has some.
pub fn prompt_params(text: &str, images: Vec<Json>) -> (r: Json)
    ensures
        r@ == if images@.len() == 0 {
            Data::Object(map!["message"@ => Data::Text(text@)])
        } else {
            Data::Object(
                map!["message"@ => Data::Text(text@), "images"@ => Data::Array(values(images@))],
            )
        },
{
    let params = object().with_text("message", text);
    if images.len() == 0 {
        Json::Object(params)
    } else {
        Json::Object(params.with("images", Json::Array(images)))
    }
}

/// The parameters of a message to a turn that runs.
pub fn steer_params(text: &str) -> (r: Json)
    ensures
        r@ == Data::Object(
            map!["message"@ => Data::Text(text@), "streamingBehavior"@ => Data::Text("steer"@)],
        ),
{
    Json::Object(object().with_text("message", text).with_text("streamingBehavior", "steer"))
}

/// What a conversation has used, with what its last message used.
pub fn usage(stats: Json, last: Json) -> (r: Json)
    requires
        stats@.takes_fields(),
    ensures
        r@ == stats@.with("lastUsage"@, last@),
{
    let mut stats = stats;
    stats.set("lastUsage", last);
    stats
}

// Histories.

/// The first entry of a history is understood, and is that of the session.
pub open spec fn header_fits(header: Data, id: Option<Seq<char>>) -> bool {
    header.field("type"@).is_text("session"@) && header.field("version"@) == uint(3)
        && header.field("id"@) is Text && (id is Some ==> header.field("id"@).is_text(id->0))
}

/// The identity in the first entry of a history.
pub fn read_header(line: &str, id: Option<&str>) -> (r: Result<String, Fault>)
    ensures
        match r {
            Ok(found) => denoted(line@) is Some && header_fits(denoted(line@)->0, opt_str(id))
                && denoted(line@)->0.field("id"@).is_text(found@),
            Err(f) => match text_read(line@) {
                Ok(header) => !header_fits(header, opt_str(id)) && f@ == other(
                    "invalid Pi session header; refusing implicit migration"@,
                ),
                Err(g) => f@ == g,
            },
        },
{
    let header = match parse(line) {
        Ok(header) => header,
        Err(fault) => {
            return Err(fault);
        },
    };
    let version = match header.field("version").as_u64() {
        Some(n) => n == 3,
        None => false,
    };
    if let Some(found) = header.field_text("id") {
        let fits = match id {
            Some(id) => same(found, id),
            None => true,
        };
        if header.field_is("type", "session") && version && fits {
            return Ok(found.to_owned());
        }
    }
    Err(Fault::other("invalid Pi session header; refusing implicit migration"))
}

/// A conversation belongs to the folder that it was begun in. Both folders are given in full;
/// `found` is missing where the history names none that exists.
pub fn check_workspace(found: Option<&str>, repository: &str) -> (r: Result<(), Fault>)
    ensures
        match r {
            Ok(_) => opt_str(found) == Some(repository@),
            Err(f) => !(opt_str(found) == Some(repository@)) && f@ == other("Pi session belongs to a different workspace"@),
        },
{
    if same_opt(found, Some(repository)) {
        return Ok(());
    }
    Err(Fault::other("Pi session belongs to a different workspace"))
}

/// How far the history of a session was read.
#[derive(Debug)]
pub struct Capture {
    pub cursor: Json,
    pub offset: u64,
    /// The last line that was read.
    pub anchor: String,
    pub initialized: bool,
}

/// The mathematical value of how far a history was read.
pub struct CaptureView {
    pub cursor: Data,
    pub offset: u64,
    pub anchor: Seq<char>,
    pub initialized: bool,
}

impl View for Capture {
    type V = CaptureView;

    open spec fn view(&self) -> CaptureView {
        CaptureView {
            cursor: self.cursor@,
            offset: self.offset,
            anchor: self.anchor@,
            initialized: self.initialized,
        }
    }
}

/// Reading begins at an entry, or at the beginning.
pub open spec fn capture_from(cursor: Data) -> CaptureView {
    CaptureView { cursor, offset: 0, anchor: Seq::empty(), initialized: false }
}

/// A batch of entries that is being read.
pub struct BatchView {
    pub state: CaptureView,
    /// The entry where reading goes on was found.
    pub found: bool,
    pub told: Seq<EventView>,
    pub ended: bool,
    pub fault: Option<FaultView>,
}

/// The key of an entry.
pub open spec fn entry_key(entry: Data, session: Seq<char>) -> Option<Seq<char>> {
    if entry.field("type"@).is_text("session"@) {
        Some("session:"@ + session)
    } else {
        entry.field("id"@).as_text()
    }
}

/// The record of an entry.
pub open spec fn entry_record(key: Seq<char>, raw: Seq<char>) -> EventView {
    EventView::Record {
        kind: "native_record"@,
        data: Data::Object(
            map![
                "harness"@ => Data::Text("pi"@),
                "cursor"@ => Data::Object(map!["entry"@ => Data::Text(key)])
            ],
        ),
        native: Some(raw),
    }
}

/// A batch with one more entry. Entries before the one that was read last are passed over; that one
/// must not have changed.
pub open spec fn batch_entry(b: BatchView, session: Seq<char>, raw: Seq<char>) -> BatchView {
    if b.ended || b.fault is Some {
        b
    } else if byte_len(raw) > MAX_LINE {
        BatchView { fault: Some(other("Pi history record too large"@)), ..b }
    } else if !finishes(raw, "\n"@) {
        BatchView { ended: true, ..b }
    } else {
        let state = CaptureView {
            offset: capped((b.state.offset + byte_len(raw)) as nat),
            ..b.state
        };
        match text_read(raw) {
            Err(f) => BatchView { state, fault: Some(f), ..b },
            Ok(entry) => match entry_key(entry, session) {
                None => BatchView { state, fault: Some(other("Pi entry missing ID"@)), ..b },
                Some(key) => if !b.found {
                    if state.cursor.field("entry"@).is_text(key) {
                        if state.cursor.field("line"@).is_text(raw) {
                            BatchView {
                                state: CaptureView { anchor: raw, ..state },
                                found: true,
                                ..b
                            }
                        } else {
                            BatchView {
                                state,
                                fault: Some(other("Pi captured entry changed"@)),
                                ..b
                            }
                        }
                    } else {
                        BatchView { state, ..b }
                    }
                } else {
                    BatchView {
                        state: CaptureView {
                            anchor: raw,
                            cursor: Data::Object(
                                map!["entry"@ => Data::Text(key), "line"@ => Data::Text(raw)],
                            ),
                            ..state
                        },
                        told: b.told.push(entry_record(key, raw)),
                        ended: b.told.len() + 1 == 128,
                        ..b
                    }
                },
            },
        }
    }
}

/// A batch of entries.
pub open spec fn batch(c: CaptureView, session: Seq<char>, lines: Seq<Seq<char>>) -> BatchView
    decreases lines.len(),
{
    if lines.len() == 0 {
        BatchView {
            state: c,
            found: c.initialized || c.cursor is Null,
            told: Seq::empty(),
            ended: false,
            fault: None,
        }
    } else {
        batch_entry(batch(c, session, lines.drop_last()), session, lines.last())
    }
}

/// How far the history was read after a batch, and what is told of it.
pub open spec fn captured(c: CaptureView, session: Seq<char>, lines: Seq<Seq<char>>) -> (
    CaptureView,
    Result<Seq<EventView>, FaultView>,
) {
    let b = batch(c, session, lines);
    match b.fault {
        Some(f) => (b.state, Err(f)),
        None => if !b.found {
            (b.state, Err(other("Pi history cursor no longer exists"@)))
        } else {
            (CaptureView { initialized: true, ..b.state }, Ok(b.told))
        },
    }
}

/// The last line that was read is checked before more is read: where it begins.
pub open spec fn anchor_at(c: CaptureView) -> Option<u64> {
    if c.initialized && c.anchor.len() > 0 && c.offset >= byte_len(c.anchor) {
        Some((c.offset - byte_len(c.anchor)) as u64)
    } else {
        None
    }
}

impl Capture {
    /// Reading begins at an entry, or at the beginning.
    pub fn new(cursor: Json) -> (r: Capture)
        ensures
            r@ == capture_from(cursor@),
    {
        Capture { cursor, offset: 0, anchor: String::new(), initialized: false }
    }

    /// Whether there is a history to read. `found` says whether its file is a regular one, and how
    /// long it is. A history that was read before must still be there.
    pub fn is_there(&self, found: Result<(bool, u64), Fault>) -> (r: Result<bool, Fault>)
        ensures
            match found {
                Err(f) => if f@.kind == FaultKind::NotFound && self@.cursor is Null {
                    r is Ok && !r->Ok_0
                } else {
                    r is Err && r->Err_0@ == f@
                },
                Ok((regular, length)) => if !regular {
                    r is Err && r->Err_0@ == other("Pi history must be a regular file"@)
                } else if length == 0 && !(self@.cursor is Null) {
                    r is Err && r->Err_0@ == other("Pi history disappeared"@)
                } else {
                    r is Ok && r->Ok_0 == (length > 0)
                },
            },
    {
        match found {
            Err(f) => {
                if f.kind == FaultKind::NotFound && self.cursor.is_null() {
                    return Ok(false);
                }
                Err(f)
            },
            Ok((regular, length)) => {
                if !regular {
                    return Err(Fault::other("Pi history must be a regular file"));
                }
                if length == 0 && !self.cursor.is_null() {
                    return Err(Fault::other("Pi history disappeared"));
                }
                Ok(length > 0)
            },
        }
    }

    /// Where the last line that was read begins, if it is to be checked.
    pub fn anchor_place(&self) -> (r: Option<u64>)
        ensures
            r == anchor_at(self@),
    {
        let n = size(self.anchor.as_str()) as u64;
        if self.initialized && chars_of(self.anchor.as_str()).len() > 0 && self.offset >= n {
            Some(self.offset - n)
        } else {
            None
        }
    }

    /// The last line that was read is not there any more: the history was rewritten, and reading
    /// begins anew.
    pub fn rewritten(&mut self)
        ensures
            final(self)@ == (CaptureView { initialized: false, offset: 0, ..old(self)@ }),
    {
        self.initialized = false;
        self.offset = 0;
    }

    fn take(
        &mut self,
        session: &str,
        raw: &str,
        found: &mut bool,
        list: &mut Vec<Event>,
        ended: &mut bool,
        Ghost(b): Ghost<BatchView>,
    ) -> (r: Option<Fault>)
        requires
            b == (BatchView {
                state: old(self)@,
                found: *old(found),
                told: events(old(list)@),
                ended: *old(ended),
                fault: None,
            }),
            !*old(ended),
            old(list).len() < 128,
        ensures
            batch_entry(b, session@, raw@) == (BatchView {
                state: final(self)@,
                found: *final(found),
                told: events(final(list)@),
                ended: *final(ended),
                fault: match r {
                    Some(f) => Some(f@),
                    None => None,
                },
            }),
            !*final(ended) ==> final(list).len() < 128,
    {
        let n = size(raw);
        if n > MAX_LINE {
            return Some(Fault::other("Pi history record too large"));
        }
        if !ends_with(raw, "\n") {
            *ended = true;
            return None;
        }
        self.offset = plus(self.offset, n as u64);
        let entry = match parse(raw) {
            Ok(entry) => entry,
            Err(fault) => {
                return Some(fault);
            },
        };
        let key: String = if entry.field_is("type", "session") {
            concat("session:", session)
        } else {
            match entry.field_text("id") {
                Some(id) => id.to_owned(),
                None => {
                    return Some(Fault::other("Pi entry missing ID"));
                },
            }
        };
        if !*found {
            if self.cursor.field_is("entry", key.as_str()) {
                if !self.cursor.field_is("line", raw) {
                    return Some(Fault::other("Pi captured entry changed"));
                }
                *found = true;
                self.anchor = raw.to_owned();
            }
            return None;
        }
        self.anchor = raw.to_owned();
        self.cursor = Json::Object(
            object().with_text("entry", key.as_str()).with_text("line", raw),
        );
        let data = object().with_text("harness", "pi").with(
            "cursor",
            Json::Object(object().with_text("entry", key.as_str())),
        );
        push_event(
            list,
            Event::Record {
                kind: "native_record".to_owned(),
                data: Json::Object(data),
                native: Some(raw.to_owned()),
            },
        );
        assert(events(list@).len() == list@.len());
        if list.len() == 128 {
            *ended = true;
        }
        None
    }

    /// Reads the lines that the history holds from here on.
    pub fn read(&mut self, session: &str, lines: &Vec<String>) -> (r: Result<Vec<Event>, Fault>)
        ensures
            (final(self)@, events_result(r)) == captured(old(self)@, session@, views(lines@)),
    {
        let ghost c = self@;
        let ghost all = views(lines@);
        let mut found = self.initialized || self.cursor.is_null();
        let mut list = no_events();
        assert(events(list@).len() == list@.len());
        let mut ended = false;
        let mut i: usize = 0;
        assert(all.take(0) =~= Seq::empty());
        while i < lines.len() && !ended
            invariant
                i <= lines.len(),
                c == old(self)@,
                all == views(lines@),
                !ended ==> list.len() < 128,
                batch(c, session@, all.take(i as int)) == (BatchView {
                    state: self@,
                    found,
                    told: events(list@),
                    ended,
                    fault: None,
                }),
            decreases lines.len() - i,
        {
            assert(all.take(i + 1).drop_last() =~= all.take(i as int));
            assert(all.take(i + 1).last() == lines@[i as int]@);
            let fault = self.take(
                session,
                lines[i].as_str(),
                &mut found,
                &mut list,
                &mut ended,
                Ghost(batch(c, session@, all.take(i as int))),
            );
            i += 1;
            if let Some(fault) = fault {
                proof {
                    batch_stays(c, session@, all, i as int);
                }
                return Err(fault);
            }
        }
        proof {
            if ended {
                batch_stays(c, session@, all, i as int);
            } else {
                assert(all.take(i as int) =~= all);
            }
        }
        if !found {
            return Err(Fault::other("Pi history cursor no longer exists"));
        }
        self.initialized = true;
        Ok(list)
    }
}

proof fn batch_stays(c: CaptureView, session: Seq<char>, lines: Seq<Seq<char>>, i: int)
    requires
        0 <= i <= lines.len(),
        batch(c, session, lines.take(i)).ended || batch(c, session, lines.take(i)).fault is Some,
    ensures
        batch(c, session, lines) == batch(c, session, lines.take(i)),
    decreases lines.len() - i,
{
    if i < lines.len() {
        assert(lines.take(i + 1).drop_last() =~= lines.take(i));
        batch_stays(c, session, lines, i + 1);
    } else {
        assert(lines.take(i) =~= lines);
    }
}

// The state of the conversation.

/// The state of the conversation with the harness.
#[derive(Debug)]
pub struct Protocol {
    pub path: String,
    pub capture: Capture,
    pub expected: Option<String>,
    pub prompt: Option<u64>,
    pub compaction: Option<u64>,
    pub accepted: bool,
    pub interrupting: bool,
    pub forking: bool,
    pub known_users: Vec<String>,
    pub queue_closed: bool,
    pub shell_closed: bool,
    pub agent_closed: bool,
}

/// The mathematical value of the state of the conversation.
pub struct ProtocolView {
    pub path: Seq<char>,
    pub capture: CaptureView,
    pub expected: Option<Seq<char>>,
    pub prompt: Option<u64>,
    pub compaction: Option<u64>,
    pub accepted: bool,
    pub interrupting: bool,
    pub forking: bool,
    pub known_users: Seq<Seq<char>>,
    pub queue_closed: bool,
    pub shell_closed: bool,
    pub agent_closed: bool,
}

impl View for Protocol {
    type V = ProtocolView;

    open spec fn view(&self) -> ProtocolView {
        ProtocolView {
            path: self.path@,
            capture: self.capture@,
            expected: opt(self.expected),
            prompt: self.prompt,
            compaction: self.compaction,
            accepted: self.accepted,
            interrupting: self.interrupting,
            forking: self.forking,
            known_users: views(self.known_users@),
            queue_closed: self.queue_closed,
            shell_closed: self.shell_closed,
            agent_closed: self.agent_closed,
        }
    }
}

/// A conversation in which nothing was said.
pub open spec fn opened(path: Seq<char>, saved: Option<Seq<char>>, cursor: Data) -> ProtocolView {
    ProtocolView {
        path,
        capture: capture_from(cursor),
        expected: saved,
        prompt: None,
        compaction: None,
        accepted: false,
        interrupting: false,
        forking: false,
        known_users: Seq::empty(),
        queue_closed: false,
        shell_closed: false,
        agent_closed: false,
    }
}

/// The state after a call, and the frame that is written.
pub open spec fn encoded(
    p: ProtocolView,
    id: u64,
    method: Seq<char>,
    params: Data,
    begins: bool,
) -> (ProtocolView, Data) {
    (
        ProtocolView {
            prompt: if begins {
                Some(id)
            } else {
                p.prompt
            },
            accepted: p.accepted && !begins,
            interrupting: (p.interrupting && !begins) || method == "abort"@,
            forking: p.forking || method == "fork"@,
            compaction: if method == "compact"@ {
                Some(id)
            } else {
                p.compaction
            },
            ..p
        },
        params.with("id"@, Data::Text(decimal(id as nat))).with("type"@, Data::Text(method)),
    )
}

/// The identity of the question whether a turn is over.
pub open spec fn probe_id(p: ProtocolView) -> Seq<char> {
    "settled-"@ + decimal(
        match p.prompt {
            Some(n) => n as nat,
            None => 0,
        },
    )
}

/// The question whether a turn is over.
pub open spec fn probe_frame(p: ProtocolView) -> Data {
    Data::Object(
        map!["id"@ => Data::Text(probe_id(p)), "type"@ => Data::Text("get_state"@)],
    )
}

// Lines.

/// The number of the call that a line answers.
pub open spec fn call_number(value: Data) -> Option<u64> {
    match value.field("id"@).as_text() {
        Some(id) => match number(id, u64::MAX as nat) {
            Some(n) => Some(n as u64),
            None => None,
        },
        None => None,
    }
}

/// A request for a child session.
pub open spec fn child_asked(s: ProgressView, value: Data) -> Result<Seq<EventView>, FaultView> {
    let invalid = Err(other("invalid child request"@));
    match (value.field("id"@).as_text(), value.field("prompt"@).as_text()) {
        (Some(id), Some(prompt)) => if id.len() == 0 || byte_len(id) > 48 || !all_in(
            id,
            Class::Alnum,
            "-"@,
        ) || blank(prompt) || byte_len(prompt) > 32768 {
            invalid
        } else if s.request is None || s.finished {
            Err(other("child requires an active parent"@))
        } else {
            match value.field("tool_call_id"@).as_text() {
                None => invalid,
                Some(tool_call_id) => Ok(
                    seq![
                        EventView::ChildRequest(
                            ChildView { request: s.request->0, id, tool_call_id, prompt },
                        ),
                    ],
                ),
            }
        },
        _ => invalid,
    }
}

/// The kind of the record of a line.
pub open spec fn record_kind(t: Seq<char>, update: Data) -> Seq<char> {
    if t == "message_update"@ {
        if update.field("type"@).is_text("text_delta"@) {
            "text_delta"@
        } else if update.field("type"@).is_text("thinking_delta"@) {
            "thinking_delta"@
        } else {
            "native_event"@
        }
    } else if t == "tool_execution_start"@ {
        "item_started"@
    } else if t == "tool_execution_update"@ {
        "tool_snapshot"@
    } else if t == "tool_execution_end"@ {
        "item_completed"@
    } else {
        "native_event"@
    }
}

/// A line as it is recorded.
pub open spec fn line_data(s: ProgressView, t: Seq<char>, value: Data) -> Data {
    Data::Object(
        map![
            "harness"@ => Data::Text("pi"@),
            "type"@ => Data::Text(t),
            "request_id"@ => opt_text(s.request),
            "item_id"@ => value.field("toolCallId"@),
            "tool_name"@ => value.field("toolName"@),
            "delta"@ => value.field("assistantMessageEvent"@).field("delta"@),
            "output"@ => value.field("partialResult"@),
            "result"@ => value.field("result"@),
            "message"@ => value.field("message"@),
            "usage"@ => value.field("usage"@)
        ],
    )
}

/// The line answers a compaction.
pub open spec fn compaction_ended(p: ProtocolView, t: Seq<char>, value: Data) -> bool {
    t == "response"@ && p.compaction is Some && call_number(value) == p.compaction
}

/// The state, and what is told, once a compaction has ended.
pub open spec fn compaction_told(p: ProtocolView, t: Seq<char>, value: Data) -> (
    ProtocolView,
    Option<EventView>,
) {
    if compaction_ended(p, t, value) {
        (
            ProtocolView { compaction: None, ..p },
            Some(
                EventView::Compacted {
                    status: if value.field("success"@).is_true() {
                        "completed"@
                    } else {
                        "failed"@
                    },
                },
            ),
        )
    } else {
        (p, None)
    }
}

/// The state once a fork was refused.
pub open spec fn fork_dropped(p: ProtocolView, t: Seq<char>, value: Data) -> ProtocolView {
    if fork_refused(t, value) {
        ProtocolView { forking: false, ..p }
    } else {
        p
    }
}

/// A successful answer to a command.
pub open spec fn answers(t: Seq<char>, value: Data, command: Seq<char>) -> bool {
    t == "response"@ && value.field("command"@).is_text(command) && value.field(
        "success"@,
    ).is_true()
}

/// The messages that are known, with more of them, and the first that was not known before.
pub open spec fn users_known(known: Seq<Seq<char>>, messages: Seq<Data>) -> (
    Seq<Seq<char>>,
    Option<Seq<char>>,
)
    decreases messages.len(),
{
    if messages.len() == 0 {
        (known, None)
    } else {
        let (before, first) = users_known(known, messages.drop_last());
        match messages.last().field("entryId"@).as_text() {
            Some(id) => if before.contains(id) {
                (before, first)
            } else {
                (
                    before.push(id),
                    match first {
                        Some(first) => Some(first),
                        None => Some(id),
                    },
                )
            },
            None => (before, first),
        }
    }
}

/// The state, and what is told, once the messages of the conversation are known: the first new one
/// is where the turn can be taken back to.
pub open spec fn users_told(p: ProtocolView, s: ProgressView, t: Seq<char>, value: Data) -> (
    ProtocolView,
    Result<Seq<EventView>, FaultView>,
) {
    if !answers(t, value, "get_fork_messages"@) {
        (p, Ok(Seq::empty()))
    } else {
        match value.field("data"@).field("messages"@).as_array() {
            None => (p, Err(other("missing fork messages"@))),
            Some(messages) => {
                let (known_users, first) = users_known(p.known_users, messages);
                let asked = match value.field("id"@).as_text() {
                    Some(id) => begins(id, "checkpoint-"@),
                    None => false,
                };
                (
                    ProtocolView { known_users, ..p },
                    Ok(
                        if asked && first is Some && s.request is Some {
                            seq![
                                record_event(
                                    "checkpoint"@,
                                    Data::Object(
                                        map![
                                            "kind"@ => Data::Text("entry"@),
                                            "id"@ => Data::Text(first->0),
                                            "request_id"@ => Data::Text(s.request->0)
                                        ],
                                    ),
                                ),
                            ]
                        } else {
                            Seq::empty()
                        },
                    ),
                )
            },
        }
    }
}

/// A fork was refused.
pub open spec fn fork_refused(t: Seq<char>, value: Data) -> bool {
    t == "response"@ && value.field("command"@).is_text("fork"@) && (!value.field(
        "success"@,
    ).is_true() || value.field("data"@).field("cancelled"@).is_true())
}

/// The session that a fork has made, and its file.
pub open spec fn fork_made(p: ProtocolView, data: Data) -> Result<(Seq<char>, Seq<char>), FaultView> {
    match data.field("sessionId"@).as_text() {
        None => Err(other("missing Pi identity"@)),
        Some(id) => match data.field("sessionFile"@).as_text() {
            None => Err(other("missing fork path"@)),
            Some(path) => if p.expected == Some(id) {
                Err(other("Pi did not replace the session"@))
            } else {
                Ok((id, path))
            },
        },
    }
}

/// The line tells that a fork was made, so that the history before it must be read to its end
/// first.
pub open spec fn forks(p: ProtocolView, value: Data) -> bool {
    let t = value.field("type"@).text_or_empty();
    answers(t, value, "get_state"@) && p.forking && fork_made(p, value.field("data"@)) is Ok
}

/// What one part of a line comes to.
pub struct StepView {
    pub state: ProtocolView,
    pub progress: ProgressView,
    pub told: Result<Seq<EventView>, FaultView>,
}

/// The state of the harness is known.
pub open spec fn state_told(
    p: ProtocolView,
    s: ProgressView,
    data: Data,
    drained: Result<Seq<EventView>, FaultView>,
) -> StepView {
    if p.forking {
        match fork_made(p, data) {
            Err(f) => StepView { state: p, progress: s, told: Err(f) },
            Ok((id, path)) => match drained {
                Err(f) => StepView { state: p, progress: s, told: Err(f) },
                Ok(rest) => StepView {
                    state: ProtocolView {
                        path,
                        capture: capture_from(Data::Null),
                        expected: Some(id),
                        forking: false,
                        prompt: None,
                        accepted: false,
                        ..p
                    },
                    progress: ProgressView { native: Some(id), finished: true, ..no_progress() },
                    told: Ok(
                        rest.push(
                            record_event(
                                "rewind_ready"@,
                                Data::Object(
                                    map![
                                        "id"@ => Data::Text(id),
                                        "path"@ => Data::Text(path),
                                        "cursor"@ => Data::Null
                                    ],
                                ),
                            ),
                        ),
                    ),
                },
            },
        }
    } else {
        match data.field("sessionId"@).as_text() {
            None => StepView { state: p, progress: s, told: Err(other("missing Pi identity"@)) },
            Some(id) => if (p.expected is Some && p.expected != Some(id)) || !data.field(
                "sessionFile"@,
            ).is_text(p.path) {
                StepView { state: p, progress: s, told: Err(other("Pi identity changed"@)) }
            } else if s.native is None {
                StepView {
                    state: ProtocolView { expected: Some(id), ..p },
                    progress: ProgressView { native: Some(id), ..s },
                    told: Ok(
                        seq![
                            record_event(
                                "native_identity"@,
                                Data::Object(
                                    map!["id"@ => Data::Text(id), "path"@ => Data::Text(p.path)],
                                ),
                            ),
                        ],
                    ),
                }
            } else {
                StepView {
                    state: ProtocolView { expected: Some(id), ..p },
                    progress: s,
                    told: Ok(Seq::empty()),
                }
            },
        }
    }
}

/// The turn is over: the harness was asked after the prompt was accepted, and is at rest.
pub open spec fn at_rest(p: ProtocolView, value: Data) -> bool {
    let data = value.field("data"@);
    value.field("id"@).is_text(probe_id(p)) && p.accepted && data.field("isStreaming"@).is_false()
        && data.field("isCompacting"@).is_false() && data.field("pendingMessageCount"@) == uint(0)
}

/// How the turn ended.
pub open spec fn end_status(p: ProtocolView, s: ProgressView) -> Seq<char> {
    if p.interrupting {
        "interrupted"@
    } else if s.status.len() > 0 {
        s.status
    } else if !s.started {
        "completed"@
    } else {
        "unknown"@
    }
}

/// An answer about the state of the harness.
pub open spec fn settled(
    p: ProtocolView,
    s: ProgressView,
    t: Seq<char>,
    value: Data,
    drained: Result<Seq<EventView>, FaultView>,
) -> StepView {
    if !answers(t, value, "get_state"@) {
        StepView { state: p, progress: s, told: Ok(Seq::empty()) }
    } else {
        let step = state_told(p, s, value.field("data"@), drained);
        match step.told {
            Err(_) => step,
            Ok(told) => if at_rest(step.state, value) {
                let (u, ended) = over(
                    step.progress,
                    end_status(step.state, step.progress),
                    None,
                );
                StepView { progress: u, told: Ok(told + maybe(ended)), ..step }
            } else {
                step
            },
        }
    }
}

/// The state and the progress once a prompt was accepted or refused.
pub open spec fn prompt_answered(p: ProtocolView, s: ProgressView, t: Seq<char>, value: Data) -> (
    ProtocolView,
    ProgressView,
) {
    if t == "response"@ && p.prompt is Some && call_number(value) == p.prompt {
        let accepted = value.field("success"@).is_true();
        (
            ProtocolView { accepted, ..p },
            if accepted {
                s
            } else {
                ProgressView { finished: true, ..s }
            },
        )
    } else {
        (p, s)
    }
}

/// The outcome of a message.
pub open spec fn message_status(stop: Data) -> Seq<char> {
    if stop.is_text("aborted"@) {
        "interrupted"@
    } else if stop.is_text("error"@) || stop.is_text("length"@) {
        "failed"@
    } else if stop.is_text("stop"@) || stop.is_text("toolUse"@) {
        "completed"@
    } else {
        "unknown"@
    }
}

/// The account has used up its limit.
pub open spec fn limit_reached(message: Data) -> bool {
    message.field("stopReason"@).is_text("error"@) && match message.field(
        "errorMessage"@,
    ).as_text() {
        Some(text) => holds(lowered(text), "usage limit"@),
        None => false,
    }
}

/// A dialog that the harness would show.
pub open spec fn is_dialog(value: Data) -> bool {
    let method = value.field("method"@);
    method.is_text("select"@) || method.is_text("confirm"@) || method.is_text("input"@)
        || method.is_text("editor"@)
}

/// The progress and what is told after a line of the turn.
pub open spec fn progressed(s: ProgressView, t: Seq<char>, value: Data) -> (
    ProgressView,
    Seq<EventView>,
) {
    let message = value.field("message"@);
    if t == "agent_start"@ {
        let (u, started) = begun(s);
        (u, maybe(started))
    } else if t == "extension_error"@ && !s.started && value.field("event"@).is_text("command"@) {
        (ProgressView { status: "failed"@, ..s }, Seq::empty())
    } else if t == "message_end"@ && message.field("role"@).is_text("assistant"@) {
        (
            ProgressView {
                last_usage: message.field("usage"@),
                status: message_status(message.field("stopReason"@)),
                ..s
            },
            if limit_reached(message) {
                seq![
                    record_event(
                        "usage_limited"@,
                        Data::Object(map!["harness"@ => Data::Text("pi"@)]),
                    ),
                ]
            } else {
                Seq::empty()
            },
        )
    } else if t == "extension_ui_request"@ && is_dialog(value) {
        (
            s,
            seq![
                record_event(
                    "interaction_cancelled"@,
                    Data::Object(
                        map![
                            "harness"@ => Data::Text("pi"@),
                            "id"@ => value.field("id"@),
                            "reason"@ => Data::Text(
                                "interactive dialogs are unsupported; not approved"@,
                            )
                        ],
                    ),
                ),
            ],
        )
    } else {
        (s, Seq::empty())
    }
}

/// The state, the progress and what is told after a line of the harness. `drained` is the rest of
/// the history before a fork.
pub open spec fn received(
    p: ProtocolView,
    s: ProgressView,
    value: Data,
    raw: Seq<char>,
    drained: Result<Seq<EventView>, FaultView>,
) -> (ProtocolView, ProgressView, Result<Seq<EventView>, FaultView>) {
    let t = value.field("type"@).text_or_empty();
    if t == "cloudroom_child_request"@ {
        (p, s, child_asked(s, value))
    } else {
        let first = EventView::Record {
            kind: record_kind(t, value.field("assistantMessageEvent"@)),
            data: line_data(s, t, value),
            native: Some(raw),
        };
        let (q, compacted) = compaction_told(p, t, value);
        if t == "extension_error"@ && q.forking {
            (q, s, Err(other("Pi extension failed while preparing the fork"@)))
        } else {
            let (r, users) = users_told(q, s, t, value);
            match users {
                Err(f) => (r, s, Err(f)),
                Ok(marked) => {
                    let step = settled(fork_dropped(r, t, value), s, t, value, drained);
                    match step.told {
                        Err(f) => (step.state, step.progress, Err(f)),
                        Ok(told) => {
                            let (y, u) = prompt_answered(step.state, step.progress, t, value);
                            let (w, turned) = progressed(u, t, value);
                            (
                                y,
                                w,
                                Ok(seq![first] + maybe(compacted) + marked + told + turned),
                            )
                        },
                    }
                },
            }
        }
    }
}

/// The answer that a line is: the call, and its outcome.
pub open spec fn answer_in(value: Data) -> Option<(u64, Result<Data, FaultView>)> {
    if !value.field("type"@).is_text("response"@) {
        None
    } else {
        match call_number(value) {
            None => None,
            Some(id) => Some(
                (
                    id,
                    if value.field("success"@).is_true() {
                        Ok(value.field("data"@))
                    } else {
                        Err(
                            refused(
                                "Pi rejected the "@ + match value.field("command"@).as_text() {
                                    Some(command) => command,
                                    None => "unknown"@,
                                } + " command: "@ + match value.field("error"@).as_text() {
                                    Some(error) => error,
                                    None => "no error message returned"@,
                                },
                            ),
                        )
                    },
                ),
            ),
        }
    }
}

/// The frames that answer a line: dialogs are cancelled, and once the agent rests it is asked
/// whether the turn is over.
pub open spec fn frames_for(p: ProtocolView, value: Data) -> Seq<Data> {
    let t = value.field("type"@);
    if t.is_text("extension_ui_request"@) && is_dialog(value) {
        seq![
            Data::Object(
                map![
                    "type"@ => Data::Text("extension_ui_response"@),
                    "id"@ => value.field("id"@),
                    "cancelled"@ => Data::Bool(true)
                ],
            ),
        ]
    } else if p.prompt is Some && t.is_text("agent_settled"@) {
        seq![
            Data::Object(
                map![
                    "type"@ => Data::Text("get_fork_messages"@),
                    "id"@ => Data::Text("checkpoint-"@ + decimal(p.prompt->0 as nat))
                ],
            ),
            probe_frame(p),
        ]
    } else if p.prompt is Some && t.is_text("response"@) && value.field("command"@).is_text(
        "prompt"@,
    ) && call_number(value) == p.prompt && value.field("success"@).is_true() {
        seq![probe_frame(p)]
    } else {
        Seq::empty()
    }
}

fn number_of(value: &Json) -> (r: Option<u64>)
    ensures
        r == call_number(value@),
{
    match value.field_text("id") {
        Some(id) => parse_u64(id),
        None => None,
    }
}

fn answers_with(t: &str, value: &Json, command: &str) -> (r: bool)
    ensures
        r == answers(t@, value@, command@),
{
    same(t, "response") && value.field_is("command", command) && value.field("success").is_true()
}

fn ask_child(state: &Progress, value: &Json) -> (r: Result<Vec<Event>, Fault>)
    ensures
        events_result(r) == child_asked(state@, value@),
{
    let (id, prompt) = match (value.field_text("id"), value.field_text("prompt")) {
        (Some(id), Some(prompt)) => (id, prompt),
        _ => {
            return Err(Fault::other("invalid child request"));
        },
    };
    if chars_of(id).len() == 0 || size(id) > 48 || !all_text_in(id, Class::Alnum, "-") || is_blank(
        prompt,
    ) || size(prompt) > 32768 {
        return Err(Fault::other("invalid child request"));
    }
    let request = match &state.request {
        Some(request) => request.clone(),
        None => {
            return Err(Fault::other("child requires an active parent"));
        },
    };
    if state.finished {
        return Err(Fault::other("child requires an active parent"));
    }
    match value.field_text("tool_call_id") {
        None => Err(Fault::other("invalid child request")),
        Some(call) => Ok(
            super::one_event(
                Event::ChildRequest(
                    ChildRequest {
                        request,
                        id: id.to_owned(),
                        tool_call_id: call.to_owned(),
                        prompt: prompt.to_owned(),
                    },
                ),
            ),
        ),
    }
}

fn kind_of(t: &str, update: &Json) -> (r: &'static str)
    ensures
        r@ == record_kind(t@, update@),
{
    if same(t, "message_update") {
        if update.field_is("type", "text_delta") {
            "text_delta"
        } else if update.field_is("type", "thinking_delta") {
            "thinking_delta"
        } else {
            "native_event"
        }
    } else if same(t, "tool_execution_start") {
        "item_started"
    } else if same(t, "tool_execution_update") {
        "tool_snapshot"
    } else if same(t, "tool_execution_end") {
        "item_completed"
    } else {
        "native_event"
    }
}

fn data_of(state: &Progress, t: &str, value: &Json) -> (r: Json)
    ensures
        r@ == line_data(state@, t@, value@),
{
    Json::Object(
        object().with_text("harness", "pi").with_text("type", t).with(
            "request_id",
            Json::opt_text(opt_slice(&state.request)),
        ).with("item_id", value.field("toolCallId").duplicate()).with(
            "tool_name",
            value.field("toolName").duplicate(),
        ).with(
            "delta",
            value.field("assistantMessageEvent").field("delta").duplicate(),
        ).with("output", value.field("partialResult").duplicate()).with(
            "result",
            value.field("result").duplicate(),
        ).with("message", value.field("message").duplicate()).with(
            "usage",
            value.field("usage").duplicate(),
        ),
    )
}

fn dialog(value: &Json) -> (r: bool)
    ensures
        r == is_dialog(value@),
{
    let method = value.field("method");
    method.is_text("select") || method.is_text("confirm") || method.is_text("input")
        || method.is_text("editor")
}

fn advance(state: &mut Progress, t: &str, value: &Json) -> (r: Option<Event>)
    ensures
        (final(state)@, maybe(super::opt_event(r))) == progressed(old(state)@, t@, value@),
{
    let message = value.field("message");
    if same(t, "agent_start") {
        return state.started();
    }
    if same(t, "extension_error") && !state.started && value.field_is("event", "command") {
        state.status = "failed".to_owned();
        return None;
    }
    if same(t, "message_end") && message.field_is("role", "assistant") {
        state.last_usage = message.field("usage").duplicate();
        let stop = message.field("stopReason");
        let status = if stop.is_text("aborted") {
            "interrupted"
        } else if stop.is_text("error") || stop.is_text("length") {
            "failed"
        } else if stop.is_text("stop") || stop.is_text("toolUse") {
            "completed"
        } else {
            "unknown"
        };
        state.status = status.to_owned();
        let limited = stop.is_text("error") && match message.field_text("errorMessage") {
            Some(text) => contains(to_lower(text).as_str(), "usage limit"),
            None => false,
        };
        if limited {
            return Some(
                Event::record("usage_limited", Json::Object(object().with_text("harness", "pi"))),
            );
        }
        return None;
    }
    if same(t, "extension_ui_request") && dialog(value) {
        let data = object().with_text("harness", "pi").with(
            "id",
            value.field("id").duplicate(),
        ).with_text("reason", "interactive dialogs are unsupported; not approved");
        return Some(Event::record("interaction_cancelled", Json::Object(data)));
    }
    None
}

impl Protocol {
    /// A conversation in which nothing was said: a new one, or a saved one.
    pub fn new(path: &str, saved: Option<&str>, cursor: Json) -> (r: Protocol)
        ensures
            r@ == opened(path@, opt_str(saved), cursor@),
    {
        let known: Vec<String> = Vec::new();
        assert(views(known@) =~= Seq::<Seq<char>>::empty());
        Protocol {
            path: path.to_owned(),
            capture: Capture::new(cursor),
            expected: opt_owned(saved),
            prompt: None,
            compaction: None,
            accepted: false,
            interrupting: false,
            forking: false,
            known_users: known,
            queue_closed: false,
            shell_closed: false,
            agent_closed: false,
        }
    }

    /// The frame of a call.
    pub fn encode(&mut self, id: u64, method: &str, params: Json, request: Option<&str>) -> (r: Json)
        requires
            params@.takes_fields(),
        ensures
            (final(self)@, r@) == encoded(old(self)@, id, method@, params@, request is Some),
    {
        if request.is_some() {
            self.prompt = Some(id);
            self.accepted = false;
            self.interrupting = false;
        }
        if same(method, "abort") {
            self.interrupting = true;
        }
        if same(method, "fork") {
            self.forking = true;
        }
        if same(method, "compact") {
            self.compaction = Some(id);
        }
        let mut frame = params;
        frame.put("id", Json::text(decimal_of(id).as_str()));
        frame.put("type", Json::text(method));
        frame
    }

    fn probe_id(&self) -> (r: String)
        ensures
            r@ == probe_id(self@),
    {
        let n = match self.prompt {
            Some(n) => n,
            None => 0,
        };
        concat("settled-", decimal_of(n).as_str())
    }

    fn probe(&self) -> (r: Json)
        ensures
            r@ == probe_frame(self@),
    {
        Json::Object(
            object().with_text("id", self.probe_id().as_str()).with_text("type", "get_state"),
        )
    }

    fn find_fork(&self, data: &Json) -> (r: Result<(String, String), Fault>)
        ensures
            match r {
                Ok((id, path)) => fork_made(self@, data@) == Ok::<
                    (Seq<char>, Seq<char>),
                    FaultView,
                >((id@, path@)),
                Err(f) => fork_made(self@, data@) == Err::<(Seq<char>, Seq<char>), FaultView>(f@),
            },
    {
        let id = match data.field_text("sessionId") {
            Some(id) => id,
            None => {
                return Err(Fault::other("missing Pi identity"));
            },
        };
        let path = match data.field_text("sessionFile") {
            Some(path) => path,
            None => {
                return Err(Fault::other("missing fork path"));
            },
        };
        if same_opt(opt_slice(&self.expected), Some(id)) {
            return Err(Fault::other("Pi did not replace the session"));
        }
        Ok((id.to_owned(), path.to_owned()))
    }

    /// The session and the file that a line tells a fork has made: the new file must then be
    /// checked, and the history before it be read to its end and handed to `receive`.
    pub fn forks(&self, value: &Json) -> (r: Option<(String, String)>)
        ensures
            match r {
                Some((id, path)) => forks(self@, value@) && fork_made(
                    self@,
                    value@.field("data"@),
                ) == Ok::<(Seq<char>, Seq<char>), FaultView>((id@, path@)),
                None => !forks(self@, value@),
            },
    {
        let t = value.field("type").text_or_empty();
        if answers_with(t, value, "get_state") && self.forking {
            match self.find_fork(value.field("data")) {
                Ok(made) => Some(made),
                Err(_) => None,
            }
        } else {
            None
        }
    }

    fn know_users(&mut self, messages: &[Json]) -> (r: Option<String>)
        ensures
            ({
                let (known_users, first) = users_known(
                    old(self)@.known_users,
                    values(messages@),
                );
                final(self)@ == (ProtocolView { known_users, ..old(self)@ }) && opt(r) == first
            }),
    {
        let ghost was = self@;
        let ghost all = values(messages@);
        let mut first: Option<String> = None;
        let mut i: usize = 0;
        assert(all.take(0) =~= Seq::empty());
        while i < messages.len()
            invariant
                i <= messages.len(),
                all == values(messages@),
                was == old(self)@,
                self@ == (ProtocolView {
                    known_users: users_known(was.known_users, all.take(i as int)).0,
                    ..was
                }),
                opt(first) == users_known(was.known_users, all.take(i as int)).1,
            decreases messages.len() - i,
        {
            assert(all.take(i + 1).drop_last() =~= all.take(i as int));
            assert(all.take(i + 1).last() == messages@[i as int]@);
            if let Some(id) = messages[i].field_text("entryId") {
                if !includes(&self.known_users, id) {
                    push_string(&mut self.known_users, id);
                    if first.is_none() {
                        first = Some(id.to_owned());
                    }
                }
            }
            i += 1;
        }
        assert(all.take(i as int) =~= all);
        first
    }

    fn tell_users(&mut self, state: &Progress, t: &str, value: &Json) -> (r: Result<
        Vec<Event>,
        Fault,
    >)
        ensures
            (final(self)@, events_result(r)) == users_told(old(self)@, state@, t@, value@),
    {
        if !answers_with(t, value, "get_fork_messages") {
            return Ok(no_events());
        }
        let messages = match value.field("data").field("messages").as_array() {
            Some(messages) => messages,
            None => {
                return Err(Fault::other("missing fork messages"));
            },
        };
        let first = self.know_users(messages.as_slice());
        let asked = match value.field_text("id") {
            Some(id) => starts_with(id, "checkpoint-"),
            None => false,
        };
        if asked {
            if let Some(id) = first {
                if let Some(request) = &state.request {
                    let data = object().with_text("kind", "entry").with_text(
                        "id",
                        id.as_str(),
                    ).with_text("request_id", request.as_str());
                    return Ok(
                        super::one_event(Event::record("checkpoint", Json::Object(data))),
                    );
                }
            }
        }
        Ok(no_events())
    }

    fn tell_state(
        &mut self,
        state: &mut Progress,
        data: &Json,
        drained: Result<Vec<Event>, Fault>,
    ) -> (r: Result<Vec<Event>, Fault>)
        ensures
            state_told(old(self)@, old(state)@, data@, events_result(drained)) == (StepView {
                state: final(self)@,
                progress: final(state)@,
                told: events_result(r),
            }),
    {
        if self.forking {
            let (id, path) = match self.find_fork(data) {
                Ok(made) => made,
                Err(fault) => {
                    return Err(fault);
                },
            };
            let mut list = match drained {
                Ok(list) => list,
                Err(fault) => {
                    return Err(fault);
                },
            };
            let told = object().with_text("id", id.as_str()).with_text("path", path.as_str()).with(
                "cursor",
                Json::Null,
            );
            push_event(&mut list, Event::record("rewind_ready", Json::Object(told)));
            let mut next = Progress::new();
            next.native = Some(id.clone());
            next.finished = true;
            *state = next;
            self.path = path;
            self.capture = Capture::new(Json::Null);
            self.expected = Some(id);
            self.forking = false;
            self.prompt = None;
            self.accepted = false;
            return Ok(list);
        }
        let id = match data.field_text("sessionId") {
            Some(id) => id,
            None => {
                return Err(Fault::other("missing Pi identity"));
            },
        };
        if (self.expected.is_some() && !same_opt(opt_slice(&self.expected), Some(id)))
            || !data.field_is("sessionFile", self.path.as_str()) {
            return Err(Fault::other("Pi identity changed"));
        }
        self.expected = Some(id.to_owned());
        if state.native.is_none() {
            state.native = Some(id.to_owned());
            let told = object().with_text("id", id).with_text("path", self.path.as_str());
            return Ok(super::one_event(Event::record("native_identity", Json::Object(told))));
        }
        Ok(no_events())
    }

    fn rests(&self, value: &Json) -> (r: bool)
        ensures
            r == at_rest(self@, value@),
    {
        let data = value.field("data");
        let none = match data.field("pendingMessageCount").as_u64() {
            Some(n) => n == 0,
            None => false,
        };
        value.field_is("id", self.probe_id().as_str()) && self.accepted && data.field(
            "isStreaming",
        ).is_false() && data.field("isCompacting").is_false() && none
    }

    fn end_status(&self, state: &Progress) -> (r: String)
        ensures
            r@ == end_status(self@, state@),
    {
        if self.interrupting {
            "interrupted".to_owned()
        } else if chars_of(state.status.as_str()).len() > 0 {
            state.status.clone()
        } else if !state.started {
            "completed".to_owned()
        } else {
            "unknown".to_owned()
        }
    }

    fn settle(
        &mut self,
        state: &mut Progress,
        t: &str,
        value: &Json,
        drained: Result<Vec<Event>, Fault>,
    ) -> (r: Result<Vec<Event>, Fault>)
        ensures
            settled(old(self)@, old(state)@, t@, value@, events_result(drained)) == (StepView {
                state: final(self)@,
                progress: final(state)@,
                told: events_result(r),
            }),
    {
        if !answers_with(t, value, "get_state") {
            return Ok(no_events());
        }
        let mut list = match self.tell_state(state, value.field("data"), drained) {
            Ok(list) => list,
            Err(fault) => {
                return Err(fault);
            },
        };
        if self.rests(value) {
            let status = self.end_status(state);
            let ended = state.finished(status.as_str(), None);
            push_maybe(&mut list, ended);
        }
        Ok(list)
    }

    fn tell_compaction(&mut self, t: &str, value: &Json) -> (r: Option<Event>)
        ensures
            (final(self)@, super::opt_event(r)) == compaction_told(old(self)@, t@, value@),
    {
        let current = match (self.compaction, number_of(value)) {
            (Some(a), Some(b)) => a == b,
            _ => false,
        };
        if !same(t, "response") || !current {
            return None;
        }
        self.compaction = None;
        let status = if value.field("success").is_true() {
            "completed"
        } else {
            "failed"
        };
        Some(Event::Compacted { status: status.to_owned() })
    }

    fn drop_fork(&mut self, t: &str, value: &Json)
        ensures
            final(self)@ == fork_dropped(old(self)@, t@, value@),
    {
        if same(t, "response") && value.field_is("command", "fork") && (!value.field(
            "success",
        ).is_true() || value.field("data").field("cancelled").is_true()) {
            self.forking = false;
        }
    }

    fn answer_prompt(&mut self, state: &mut Progress, t: &str, value: &Json)
        ensures
            (final(self)@, final(state)@) == prompt_answered(
                old(self)@,
                old(state)@,
                t@,
                value@,
            ),
    {
        let current = match (self.prompt, number_of(value)) {
            (Some(a), Some(b)) => a == b,
            _ => false,
        };
        if same(t, "response") && current {
            self.accepted = value.field("success").is_true();
            if !self.accepted {
                state.finished = true;
            }
        }
    }

    /// What a line of the harness means. `drained` is the rest of the history before a fork.
    #[verifier::rlimit(50)]
    pub fn receive(
        &mut self,
        value: &Json,
        raw: String,
        state: &mut Progress,
        drained: Result<Vec<Event>, Fault>,
    ) -> (r: Result<Vec<Event>, Fault>)
        ensures
            (final(self)@, final(state)@, events_result(r)) == received(
                old(self)@,
                old(state)@,
                value@,
                raw@,
                events_result(drained),
            ),
    {
        let t = value.field("type").text_or_empty();
        if same(t, "cloudroom_child_request") {
            return ask_child(state, value);
        }
        let mut list = super::one_event(
            Event::Record {
                kind: kind_of(t, value.field("assistantMessageEvent")).to_owned(),
                data: data_of(state, t, value),
                native: Some(raw),
            },
        );
        let compacted = self.tell_compaction(t, value);
        push_maybe(&mut list, compacted);
        if same(t, "extension_error") && self.forking {
            return Err(Fault::other("Pi extension failed while preparing the fork"));
        }
        let marked = match self.tell_users(state, t, value) {
            Ok(marked) => marked,
            Err(fault) => {
                return Err(fault);
            },
        };
        append_events(&mut list, marked);
        self.drop_fork(t, value);
        let told = match self.settle(state, t, value, drained) {
            Ok(told) => told,
            Err(fault) => {
                return Err(fault);
            },
        };
        append_events(&mut list, told);
        self.answer_prompt(state, t, value);
        let turned = advance(state, t, value);
        push_maybe(&mut list, turned);
        Ok(list)
    }

    /// The frames that answer a line.
    pub fn respond(&self, value: &Json) -> (r: Vec<Json>)
        ensures
            values(r@) == frames_for(self@, value@),
    {
        let t = value.field("type");
        if t.is_text("extension_ui_request") && dialog(value) {
            return one_json(
                Json::Object(
                    object().with_text("type", "extension_ui_response").with(
                        "id",
                        value.field("id").duplicate(),
                    ).with("cancelled", Json::Bool(true)),
                ),
            );
        }
        let current = match (self.prompt, number_of(value)) {
            (Some(a), Some(b)) => a == b,
            _ => false,
        };
        if let Some(n) = self.prompt {
            if t.is_text("agent_settled") {
                let mut list = one_json(
                    Json::Object(
                        object().with_text("type", "get_fork_messages").with_text(
                            "id",
                            concat("checkpoint-", decimal_of(n).as_str()).as_str(),
                        ),
                    ),
                );
                push_json(&mut list, self.probe());
                assert(values(list@) =~= frames_for(self@, value@));
                return list;
            }
            if t.is_text("response") && value.field_is("command", "prompt") && current
                && value.field("success").is_true() {
                return one_json(self.probe());
            }
        }
        no_json()
    }

    /// The frames that ask the harness to end.
    pub fn close(&mut self) -> (r: Vec<Json>)
        ensures
            final(self)@ == (ProtocolView { interrupting: true, ..old(self)@ }),
            values(r@) == seq![
                close_frame("clear_queue"@, "close-queue"@),
                close_frame("abort_bash"@, "close-bash"@),
                close_frame("abort"@, "close-agent"@),
            ],
    {
        self.interrupting = true;
        let mut list = no_json();
        push_json(&mut list, frame_close("clear_queue", "close-queue"));
        push_json(&mut list, frame_close("abort_bash", "close-bash"));
        push_json(&mut list, frame_close("abort", "close-agent"));
        assert(values(list@) =~= seq![
            close_frame("clear_queue"@, "close-queue"@),
            close_frame("abort_bash"@, "close-bash"@),
            close_frame("abort"@, "close-agent"@),
        ]);
        list
    }

    /// Whether the harness has confirmed all that it was asked for its end.
    pub fn closed(&mut self, value: &Json) -> (r: bool)
        ensures
            final(self)@ == confirmed(old(self)@, value@),
            r == (final(self)@.queue_closed && final(self)@.shell_closed && final(self)@.agent_closed),
    {
        if value.field_is("type", "response") && value.field("success").is_true() {
            self.queue_closed = self.queue_closed || value.field_is("id", "close-queue");
            self.shell_closed = self.shell_closed || value.field_is("id", "close-bash");
            self.agent_closed = self.agent_closed || value.field_is("id", "close-agent");
        }
        self.queue_closed && self.shell_closed && self.agent_closed
    }
}

/// A frame that ends a part of the harness.
pub open spec fn close_frame(kind: Seq<char>, id: Seq<char>) -> Data {
    Data::Object(map!["type"@ => Data::Text(kind), "id"@ => Data::Text(id)])
}

fn frame_close(kind: &str, id: &str) -> (r: Json)
    ensures
        r@ == close_frame(kind@, id@),
{
    Json::Object(object().with_text("type", kind).with_text("id", id))
}

/// The state once a part of the end is confirmed.
pub open spec fn confirmed(p: ProtocolView, value: Data) -> ProtocolView {
    if value.field("type"@).is_text("response"@) && value.field("success"@).is_true() {
        let id = value.field("id"@);
        ProtocolView {
            queue_closed: p.queue_closed || id.is_text("close-queue"@),
            shell_closed: p.shell_closed || id.is_text("close-bash"@),
            agent_closed: p.agent_closed || id.is_text("close-agent"@),
            ..p
        }
    } else {
        p
    }
}

/// The answer that a line is.
pub fn response(value: &Json) -> (r: Option<(u64, Result<Json, Fault>)>)
    ensures
        answer_view(r) == answer_in(value@),
{
    if !value.field_is("type", "response") {
        return None;
    }
    let id = match number_of(value) {
        Some(id) => id,
        None => {
            return None;
        },
    };
    if value.field("success").is_true() {
        return Some((id, Ok(value.field("data").duplicate())));
    }
    let command = match value.field_text("command") {
        Some(command) => command,
        None => "unknown",
    };
    let error = match value.field_text("error") {
        Some(error) => error,
        None => "no error message returned",
    };
    let mut text = concat3("Pi rejected the ", command, " command: ");
    push_text(&mut text, error);
    Some((id, Err(Fault::refused(text.as_str()))))
}

// Laws.

/// Entries that were read before are not told again: what a batch tells begins after the entry that
/// was read last.
pub proof fn entries_before_the_cursor_are_silent(
    c: CaptureView,
    session: Seq<char>,
    lines: Seq<Seq<char>>,
)
    requires
        !c.initialized,
        !(c.cursor is Null),
        forall|i: int|
            0 <= i < lines.len() ==> denoted(#[trigger] lines[i]) is Some ==> (entry_key(
                denoted(lines[i])->0,
                session,
            ) is Some ==> !c.cursor.field("entry"@).is_text(
                entry_key(denoted(lines[i])->0, session)->0,
            )),
    ensures
        batch(c, session, lines).told.len() == 0,
        !batch(c, session, lines).found,
        batch(c, session, lines).state.cursor == c.cursor,
    decreases lines.len(),
{
    if lines.len() > 0 {
        let rest = lines.drop_last();
        assert forall|i: int|
            0 <= i < rest.len() && denoted(#[trigger] rest[i]) is Some && entry_key(
                denoted(rest[i])->0,
                session,
            ) is Some implies !c.cursor.field("entry"@).is_text(
            entry_key(denoted(rest[i])->0, session)->0,
        ) by {
            assert(rest[i] == lines[i]);
        }
        entries_before_the_cursor_are_silent(c, session, rest);
        let last = lines[lines.len() - 1];
        assert(last == lines.last());
    }
}

/// The place that a batch ends at is the entry that was told last, with its line.
pub proof fn cursor_is_the_last_entry(c: CaptureView, session: Seq<char>, lines: Seq<Seq<char>>)
    ensures
        ({
            let b = batch(c, session, lines);
            b.told.len() > 0 ==> b.told.last() is Record && b.told.last()->Record_native == Some(
                b.state.anchor,
            ) && b.state.cursor.field("line"@).is_text(b.state.anchor)
        }),
    decreases lines.len(),
{
    if lines.len() > 0 {
        cursor_is_the_last_entry(c, session, lines.drop_last());
        once_found_stays_found(c, session, lines.drop_last());
        reveal_strlit("entry");
        reveal_strlit("line");
        assert("entry"@.len() == 5 && "line"@.len() == 4);
    }
}

proof fn once_found_stays_found(c: CaptureView, session: Seq<char>, lines: Seq<Seq<char>>)
    ensures
        batch(c, session, lines).told.len() > 0 ==> batch(c, session, lines).found,
    decreases lines.len(),
{
    if lines.len() > 0 {
        once_found_stays_found(c, session, lines.drop_last());
    }
}

} // verus!
