//! Codex: its application server is spoken to in JSON-RPC, and its history is a file of lines.
use super::capture::{Tail, TailView};
use super::claude_protocol::events_result;
use super::{
    append_events, begun, events, json_result, maybe, no_progress, over, push_event, push_maybe,
    record_event, Event, EventView, Model, ModelView, Progress, ProgressView,
};
use crate::fault::{other, refused, Fault, FaultView};
use crate::json::{
    no_json, object, opt_text, push_json, uint, values, Data, Json,
};
use crate::text::{
    concat3, includes, opt, opt_copy, opt_owned, opt_slice, opt_str, push_string, same, same_opt,
    views,
};
use crate::wire::{parse, text_read};
use vstd::prelude::*;

verus! {

/// A member of a member.
pub open spec fn at2(value: Data, a: Seq<char>, b: Seq<char>) -> Option<Data> {
    match value.get(a) {
        Some(v) => v.get(b),
        None => None,
    }
}

/// A member of a member of a member.
pub open spec fn at3(value: Data, a: Seq<char>, b: Seq<char>, c: Seq<char>) -> Option<Data> {
    match at2(value, a, b) {
        Some(v) => v.get(c),
        None => None,
    }
}

/// The string that an optional value is.
pub open spec fn text_at(value: Option<Data>) -> Option<Seq<char>> {
    match value {
        Some(v) => v.as_text(),
        None => None,
    }
}

/// The first of two values.
pub open spec fn either(a: Option<Data>, b: Option<Data>) -> Option<Data> {
    match a {
        Some(_) => a,
        None => b,
    }
}

/// The view of an optional reference to a value.
pub open spec fn opt_json_ref(value: Option<&Json>) -> Option<Data> {
    match value {
        Some(v) => Some(v@),
        None => None,
    }
}

/// A member of a member.
pub fn get2<'a>(value: &'a Json, a: &str, b: &str) -> (r: Option<&'a Json>)
    ensures
        opt_json_ref(r) == at2(value@, a@, b@),
{
    match value.get(a) {
        Some(v) => v.get(b),
        None => None,
    }
}

/// A member of a member of a member.
pub fn get3<'a>(value: &'a Json, a: &str, b: &str, c: &str) -> (r: Option<&'a Json>)
    ensures
        opt_json_ref(r) == at3(value@, a@, b@, c@),
{
    match get2(value, a, b) {
        Some(v) => v.get(c),
        None => None,
    }
}

/// The string that an optional value is.
pub fn text_of(value: Option<&Json>) -> (r: Option<&str>)
    ensures
        opt_str(r) == text_at(opt_json_ref(value)),
{
    match value {
        Some(v) => v.as_text(),
        None => None,
    }
}

/// The first of two values.
pub fn either_of<'a>(a: Option<&'a Json>, b: Option<&'a Json>) -> (r: Option<&'a Json>)
    ensures
        opt_json_ref(r) == either(opt_json_ref(a), opt_json_ref(b)),
{
    match a {
        Some(_) => a,
        None => b,
    }
}

// Calls.

/// What the harness is told first.
pub fn initialize_params() -> (r: Json)
    ensures
        r@ == Data::Object(
            map![
                "clientInfo"@ => Data::Object(
                    map![
                        "name"@ => Data::Text("cloudroom"@),
                        "version"@ => Data::Text(crate::version_text())
                    ],
                ),
                "capabilities"@ => Data::Object(map!["experimentalApi"@ => Data::Bool(true)])
            ],
        ),
{
    Json::Object(
        object().with(
            "clientInfo",
            Json::Object(
                object().with_text("name", "cloudroom").with_text("version", crate::version()),
            ),
        ).with(
            "capabilities",
            Json::Object(object().with("experimentalApi", Json::Bool(true))),
        ),
    )
}

/// The levels of reasoning of a model, if all are named.
pub open spec fn levels_in(levels: Seq<Data>) -> Option<Seq<Seq<char>>>
    decreases levels.len(),
{
    if levels.len() == 0 {
        Some(Seq::empty())
    } else {
        match (
            levels_in(levels.drop_last()),
            levels.last().field("reasoningEffort"@).as_text(),
        ) {
            (Some(before), Some(level)) => Some(before.push(level)),
            _ => None,
        }
    }
}

/// A model of the catalog.
pub open spec fn model_in(entry: Data) -> Result<ModelView, FaultView> {
    match entry.field("model"@).as_text() {
        None => Err(other("missing model name"@)),
        Some(model) => match entry.field("supportedReasoningEfforts"@).as_array() {
            None => Err(other("missing reasoning levels"@)),
            Some(levels) => match levels_in(levels) {
                None => Err(other("invalid reasoning level"@)),
                Some(reasoning_levels) => Ok(ModelView { model, reasoning_levels }),
            },
        },
    }
}

/// Models, up to the first that is not understood.
pub open spec fn models_in(before: Seq<ModelView>, entries: Seq<Data>) -> Result<
    Seq<ModelView>,
    FaultView,
>
    decreases entries.len(),
{
    if entries.len() == 0 {
        Ok(before)
    } else {
        match models_in(before, entries.drop_last()) {
            Err(f) => Err(f),
            Ok(list) => match model_in(entries.last()) {
                Err(f) => Err(f),
                Ok(model) => Ok(list.push(model)),
            },
        }
    }
}

/// A page of the catalog: the models so far, and where the next page begins, if there is one. A
/// page that would begin again where it was asked for is refused.
pub open spec fn page_read(before: Seq<ModelView>, cursor: Data, page: Data) -> Result<
    (Seq<ModelView>, Option<Data>),
    FaultView,
> {
    match page.field("data"@).as_array() {
        None => Err(other("missing model catalog"@)),
        Some(entries) => match models_in(before, entries) {
            Err(f) => Err(f),
            Ok(list) => {
                let next = page.field("nextCursor"@);
                if next is Null {
                    Ok((list, None))
                } else if !(next is Text) || next == cursor {
                    Err(other("invalid model cursor"@))
                } else {
                    Ok((list, Some(next)))
                }
            },
        },
    }
}

/// The views of models.
pub open spec fn model_views(models: Seq<Model>) -> Seq<ModelView> {
    Seq::new(models.len(), |i: int| models[i]@)
}

fn read_levels(levels: &[Json]) -> (r: Option<Vec<String>>)
    ensures
        match r {
            Some(list) => levels_in(values(levels@)) == Some(views(list@)),
            None => levels_in(values(levels@)) is None,
        },
{
    let ghost all = values(levels@);
    let mut list: Vec<String> = Vec::new();
    let mut i: usize = 0;
    assert(all.take(0) =~= Seq::empty());
    assert(views(list@) =~= Seq::<Seq<char>>::empty());
    while i < levels.len()
        invariant
            i <= levels.len(),
            all == values(levels@),
            levels_in(all.take(i as int)) == Some(views(list@)),
        decreases levels.len() - i,
    {
        assert(all.take(i + 1).drop_last() =~= all.take(i as int));
        assert(all.take(i + 1).last() == levels@[i as int]@);
        match levels[i].field_text("reasoningEffort") {
            Some(level) => {
                push_string(&mut list, level);
            },
            None => {
                proof {
                    levels_fail(all, i + 1);
                }
                return None;
            },
        }
        i += 1;
    }
    assert(all.take(i as int) =~= all);
    Some(list)
}

proof fn levels_fail(levels: Seq<Data>, i: int)
    requires
        0 <= i <= levels.len(),
        levels_in(levels.take(i)) is None,
    ensures
        levels_in(levels) is None,
    decreases levels.len() - i,
{
    if i < levels.len() {
        assert(levels.take(i + 1).drop_last() =~= levels.take(i));
        levels_fail(levels, i + 1);
    } else {
        assert(levels.take(i) =~= levels);
    }
}

proof fn models_fail(before: Seq<ModelView>, entries: Seq<Data>, i: int)
    requires
        0 <= i <= entries.len(),
        models_in(before, entries.take(i)) is Err,
    ensures
        models_in(before, entries) == models_in(before, entries.take(i)),
    decreases entries.len() - i,
{
    if i < entries.len() {
        assert(entries.take(i + 1).drop_last() =~= entries.take(i));
        models_fail(before, entries, i + 1);
    } else {
        assert(entries.take(i) =~= entries);
    }
}

fn read_model(entry: &Json) -> (r: Result<Model, Fault>)
    ensures
        match r {
            Ok(model) => model_in(entry@) == Ok::<ModelView, FaultView>(model@),
            Err(f) => model_in(entry@) == Err::<ModelView, FaultView>(f@),
        },
{
    let model = match entry.field_text("model") {
        Some(model) => model,
        None => {
            return Err(Fault::other("missing model name"));
        },
    };
    let levels = match entry.field("supportedReasoningEfforts").as_array() {
        Some(levels) => levels,
        None => {
            return Err(Fault::other("missing reasoning levels"));
        },
    };
    match read_levels(levels.as_slice()) {
        Some(reasoning_levels) => Ok(Model { model: model.to_owned(), reasoning_levels }),
        None => Err(Fault::other("invalid reasoning level")),
    }
}

/// Reads a page of the catalog. Adds its models, and gives where the next page begins, if there is
/// one.
pub fn read_page(models: &mut Vec<Model>, cursor: &Json, page: &Json) -> (r: Result<
    Option<Json>,
    Fault,
>)
    ensures
        match r {
            Ok(None) => page_read(model_views(old(models)@), cursor@, page@) == Ok::<
                (Seq<ModelView>, Option<Data>),
                FaultView,
            >((model_views(final(models)@), None)),
            Ok(Some(next)) => page_read(model_views(old(models)@), cursor@, page@) == Ok::<
                (Seq<ModelView>, Option<Data>),
                FaultView,
            >((model_views(final(models)@), Some(next@))),
            Err(f) => page_read(model_views(old(models)@), cursor@, page@) == Err::<
                (Seq<ModelView>, Option<Data>),
                FaultView,
            >(f@),
        },
{
    let ghost before = model_views(models@);
    let entries = match page.field("data").as_array() {
        Some(entries) => entries,
        None => {
            return Err(Fault::other("missing model catalog"));
        },
    };
    let ghost all = values(entries@);
    let mut i: usize = 0;
    assert(all.take(0) =~= Seq::empty());
    while i < entries.len()
        invariant
            i <= entries.len(),
            all == values(entries@),
            page@.field("data"@).as_array() == Some(all),
            before == model_views(old(models)@),
            models_in(before, all.take(i as int)) == Ok::<Seq<ModelView>, FaultView>(
                model_views(models@),
            ),
        decreases entries.len() - i,
    {
        assert(all.take(i + 1).drop_last() =~= all.take(i as int));
        assert(all.take(i + 1).last() == entries@[i as int]@);
        match read_model(&entries[i]) {
            Ok(model) => {
                let ghost was = model_views(models@);
                models.push(model);
                assert(model_views(models@) =~= was.push(model@));
            },
            Err(fault) => {
                proof {
                    models_fail(before, all, i + 1);
                }
                return Err(fault);
            },
        }
        i += 1;
    }
    assert(all.take(i as int) =~= all);
    let next = page.field("nextCursor");
    if next.is_null() {
        return Ok(None);
    }
    if next.as_text().is_none() || next.same(cursor) {
        return Err(Fault::other("invalid model cursor"));
    }
    Ok(Some(next.duplicate()))
}

/// A call that opens a conversation: its method and its parameters.
pub open spec fn open_call(
    repository: Seq<char>,
    model: Seq<char>,
    reasoning: Option<Seq<char>>,
    saved: Option<(Seq<char>, Seq<char>)>,
) -> (Seq<char>, Data) {
    let plain = Data::Object(
        map![
            "cwd"@ => Data::Text(repository),
            "model"@ => Data::Text(model),
            "approvalPolicy"@ => Data::Text("never"@),
            "sandbox"@ => Data::Text("danger-full-access"@),
            "ephemeral"@ => Data::Bool(false)
        ],
    );
    let params = match reasoning {
        Some(level) => plain.with(
            "config"@,
            Data::Object(map!["model_reasoning_effort"@ => Data::Text(level)]),
        ),
        None => plain,
    };
    match saved {
        Some((id, path)) => (
            "thread/resume"@,
            params.with("threadId"@, Data::Text(id)).with("path"@, Data::Text(path)).with(
                "excludeTurns"@,
                Data::Bool(true),
            ),
        ),
        None => ("thread/start"@, params),
    }
}

/// A call that opens a conversation.
pub fn opening(
    repository: &str,
    model: &str,
    reasoning: Option<&str>,
    saved: Option<(&str, &str)>,
) -> (r: (&'static str, Json))
    ensures
        (r.0@, r.1@) == open_call(
            repository@,
            model@,
            opt_str(reasoning),
            match saved {
                Some((id, path)) => Some((id@, path@)),
                None => None,
            },
        ),
{
    let mut params = Json::Object(
        object().with_text("cwd", repository).with_text("model", model).with_text(
            "approvalPolicy",
            "never",
        ).with_text("sandbox", "danger-full-access").with("ephemeral", Json::Bool(false)),
    );
    if let Some(level) = reasoning {
        params.put("config", Json::Object(object().with_text("model_reasoning_effort", level)));
    }
    match saved {
        Some((id, path)) => {
            params.put("threadId", Json::text(id));
            params.put("path", Json::text(path));
            params.put("excludeTurns", Json::Bool(true));
            ("thread/resume", params)
        },
        None => ("thread/start", params),
    }
}

/// The identity of an opened conversation. The harness must use the model, and the conversation,
/// that it was asked for.
pub open spec fn opened_id(result: Data, model: Seq<char>, saved: Option<Seq<char>>) -> Result<
    Seq<char>,
    FaultView,
> {
    if result.field("model"@).as_text() != Some(model) {
        Err(other("harness selected a different model"@))
    } else {
        match text_at(at2(result, "thread"@, "id"@)) {
            None => Err(other("missing native identity"@)),
            Some(id) => if saved is Some && saved != Some(id) {
                Err(other("harness resumed a different session"@))
            } else {
                Ok(id)
            },
        }
    }
}

/// The identity of an opened conversation.
pub fn check_opened(result: &Json, model: &str, saved: Option<&str>) -> (r: Result<String, Fault>)
    ensures
        match r {
            Ok(id) => opened_id(result@, model@, opt_str(saved)) == Ok::<Seq<char>, FaultView>(
                id@,
            ),
            Err(f) => opened_id(result@, model@, opt_str(saved)) == Err::<Seq<char>, FaultView>(
                f@,
            ),
        },
{
    if !same_opt(result.field_text("model"), Some(model)) {
        return Err(Fault::other("harness selected a different model"));
    }
    match text_of(get2(result, "thread", "id")) {
        None => Err(Fault::other("missing native identity")),
        Some(id) => if saved.is_some() && !same_opt(saved, Some(id)) {
            Err(Fault::other("harness resumed a different session"))
        } else {
            Ok(id.to_owned())
        },
    }
}

/// The parameters of a call for a page of the models.
pub fn page_params(cursor: &Json) -> (r: Json)
    ensures
        r@ == Data::Object(map!["includeHidden"@ => Data::Bool(true), "cursor"@ => cursor@]),
{
    Json::Object(
        object().with("includeHidden", Json::Bool(true)).with("cursor", cursor.duplicate()),
    )
}

/// The parameters of a call for the settings that hold in a folder.
pub fn settings_params(repository: &str) -> (r: Json)
    ensures
        r@ == Data::Object(
            map!["cwd"@ => Data::Text(repository@), "includeLayers"@ => Data::Bool(false)],
        ),
{
    Json::Object(
        object().with_text("cwd", repository).with("includeLayers", Json::Bool(false)),
    )
}

/// The parameters of a call that ends a process of a turn.
pub fn terminate_params(native: &str, process: &str) -> (r: Json)
    ensures
        r@ == Data::Object(
            map!["threadId"@ => Data::Text(native@), "processId"@ => Data::Text(process@)],
        ),
{
    Json::Object(object().with_text("threadId", native).with_text("processId", process))
}

/// Hooks must be on where commands are guarded.
pub open spec fn hooks_off(settings: Data) -> bool {
    settings.field("config"@).field("features"@).field("hooks"@).is_false()
}

/// Refuses a harness whose hooks are off.
pub fn check_hooks(settings: &Json) -> (r: Result<(), Fault>)
    ensures
        match r {
            Ok(()) => !hooks_off(settings@),
            Err(f) => hooks_off(settings@) && f@ == other(
                "Codex hooks are disabled; enable them or start with command_guard_enabled: false"@,
            ),
        },
{
    if settings.field("config").field("features").field("hooks").is_false() {
        return Err(
            Fault::other(
                "Codex hooks are disabled; enable them or start with command_guard_enabled: false",
            ),
        );
    }
    Ok(())
}

/// A text of a prompt.
pub open spec fn text_item(text: Seq<char>) -> Data {
    Data::Object(
        map![
            "type"@ => Data::Text("text"@),
            "text"@ => Data::Text(text),
            "text_elements"@ => Data::Array(Seq::empty())
        ],
    )
}

/// An image of a prompt.
pub open spec fn image_item(path: Seq<char>) -> Data {
    Data::Object(map!["type"@ => Data::Text("localImage"@), "path"@ => Data::Text(path)])
}

/// A file of a prompt: only named, for the agent to read.
pub open spec fn file_item(path: Seq<char>) -> Data {
    text_item("[Attached file: "@ + path + "]"@)
}

/// A part of a prompt, if it is understood.
pub open spec fn part_item(part: Data) -> Option<Data> {
    let kind = part.field("type"@);
    if kind.is_text("text"@) {
        Some(text_item(part.field("text"@).text_or_empty()))
    } else if kind.is_text("image"@) || kind.is_text("localImage"@) {
        match part.field("path"@).as_text() {
            Some(path) => Some(image_item(path)),
            None => match part.field("url"@).as_text() {
                Some(path) => Some(image_item(path)),
                None => None,
            },
        }
    } else if kind.is_text("localFile"@) || kind.is_text("file"@) {
        match part.field("path"@).as_text() {
            Some(path) => Some(file_item(path)),
            None => None,
        }
    } else {
        None
    }
}

/// An attachment of a prompt, if it has a path.
pub open spec fn attachment_item(attachment: Data) -> Option<Data> {
    match attachment.field("path"@).as_text() {
        None => None,
        Some(path) => if attachment.field("kind"@).is_text("image"@) {
            Some(image_item(path))
        } else {
            Some(file_item(path))
        },
    }
}

/// The parts that are understood.
pub open spec fn part_items(parts: Seq<Data>) -> Seq<Data>
    decreases parts.len(),
{
    if parts.len() == 0 {
        Seq::empty()
    } else {
        match part_item(parts.last()) {
            Some(item) => part_items(parts.drop_last()).push(item),
            None => part_items(parts.drop_last()),
        }
    }
}

/// The attachments that have paths, after other items.
pub open spec fn attachment_items(before: Seq<Data>, attachments: Seq<Data>) -> Seq<Data>
    decreases attachments.len(),
{
    if attachments.len() == 0 {
        before
    } else {
        let list = attachment_items(before, attachments.drop_last());
        match attachment_item(attachments.last()) {
            Some(item) => list.push(item),
            None => list,
        }
    }
}

/// What a prompt says. A prompt without parts is its text.
pub open spec fn prompt_data(input: Data) -> Seq<Data> {
    let parts = part_items(input.field("content"@).items());
    let items = if parts.len() == 0 {
        seq![text_item(input.field("text"@).text_or_empty())]
    } else {
        parts
    };
    attachment_items(items, input.field("attachments"@).items())
}

fn item_text(text: &str) -> (r: Json)
    ensures
        r@ == text_item(text@),
{
    Json::Object(
        object().with_text("type", "text").with_text("text", text).with(
            "text_elements",
            Json::Array(no_json()),
        ),
    )
}

fn item_image(path: &str) -> (r: Json)
    ensures
        r@ == image_item(path@),
{
    Json::Object(object().with_text("type", "localImage").with_text("path", path))
}

fn item_file(path: &str) -> (r: Json)
    ensures
        r@ == file_item(path@),
{
    item_text(concat3("[Attached file: ", path, "]").as_str())
}

fn item_part(part: &Json) -> (r: Option<Json>)
    ensures
        match r {
            Some(item) => part_item(part@) == Some(item@),
            None => part_item(part@) is None,
        },
{
    let kind = part.field("type");
    if kind.is_text("text") {
        Some(item_text(part.field("text").text_or_empty()))
    } else if kind.is_text("image") || kind.is_text("localImage") {
        match part.field_text("path") {
            Some(path) => Some(item_image(path)),
            None => match part.field_text("url") {
                Some(path) => Some(item_image(path)),
                None => None,
            },
        }
    } else if kind.is_text("localFile") || kind.is_text("file") {
        match part.field_text("path") {
            Some(path) => Some(item_file(path)),
            None => None,
        }
    } else {
        None
    }
}

/// What a prompt says.
pub fn prompt_items(input: &Json) -> (r: Vec<Json>)
    ensures
        values(r@) == prompt_data(input@),
{
    let mut items = no_json();
    let parts = input.field("content").items();
    let ghost all = values(parts@);
    let mut i: usize = 0;
    assert(all.take(0) =~= Seq::empty());
    while i < parts.len()
        invariant
            i <= parts.len(),
            all == values(parts@),
            values(items@) == part_items(all.take(i as int)),
        decreases parts.len() - i,
    {
        assert(all.take(i + 1).drop_last() =~= all.take(i as int));
        assert(all.take(i + 1).last() == parts@[i as int]@);
        if let Some(item) = item_part(&parts[i]) {
            push_json(&mut items, item);
        }
        i += 1;
    }
    assert(all.take(i as int) =~= all);
    if items.len() == 0 {
        push_json(&mut items, item_text(input.field("text").text_or_empty()));
        assert(values(items@) =~= seq![text_item(input@.field("text"@).text_or_empty())]);
    }
    let ghost before = values(items@);
    let attachments = input.field("attachments").items();
    let ghost more = values(attachments@);
    let mut j: usize = 0;
    assert(more.take(0) =~= Seq::empty());
    while j < attachments.len()
        invariant
            j <= attachments.len(),
            more == values(attachments@),
            values(items@) == attachment_items(before, more.take(j as int)),
        decreases attachments.len() - j,
    {
        assert(more.take(j + 1).drop_last() =~= more.take(j as int));
        assert(more.take(j + 1).last() == attachments@[j as int]@);
        let attachment: &Json = &attachments[j];
        if let Some(path) = attachment.field_text("path") {
            if attachment.field_is("kind", "image") {
                push_json(&mut items, item_image(path));
            } else {
                push_json(&mut items, item_file(path));
            }
        }
        j += 1;
    }
    assert(more.take(j as int) =~= more);
    items
}

/// The parameters of a turn.
pub open spec fn turn_params(
    native: Seq<char>,
    request: Seq<char>,
    reasoning: Option<Seq<char>>,
    input: Data,
) -> Data {
    let plain = Data::Object(
        map![
            "threadId"@ => Data::Text(native),
            "clientUserMessageId"@ => Data::Text(request),
            "input"@ => Data::Array(prompt_data(input)),
            "serviceTierForTurn"@ => Data::Text(
                if input.field("service_tier"@).is_text("fast"@) {
                    "fast"@
                } else {
                    "default"@
                },
            )
        ],
    );
    match crate::text::first_text(reasoning, input.field("reasoning"@).as_text()) {
        Some(level) => plain.with("effort"@, Data::Text(level)),
        None => plain,
    }
}

/// The parameters of a turn.
pub fn turn(native: &str, request: &str, reasoning: Option<&str>, input: &Json) -> (r: Json)
    ensures
        r@ == turn_params(native@, request@, opt_str(reasoning), input@),
{
    let tier = if input.field_is("service_tier", "fast") {
        "fast"
    } else {
        "default"
    };
    let mut params = Json::Object(
        object().with_text("threadId", native).with_text("clientUserMessageId", request).with(
            "input",
            Json::Array(prompt_items(input)),
        ).with_text("serviceTierForTurn", tier),
    );
    let level: Option<&str> = match reasoning {
        Some(level) => Some(level),
        None => input.field_text("reasoning"),
    };
    if let Some(level) = level {
        params.put("effort", Json::text(level));
    }
    params
}

/// The first string among members.
pub open spec fn first_field(value: Data, keys: Seq<Seq<char>>) -> Option<Seq<char>>
    decreases keys.len(),
{
    if keys.len() == 0 {
        None
    } else {
        match first_field(value, keys.drop_last()) {
            Some(text) => Some(text),
            None => value.field(keys.last()).as_text(),
        }
    }
}

fn first_of_fields<'a>(value: &'a Json, keys: &[&str]) -> (r: Option<&'a str>)
    ensures
        opt_str(r) == first_field(value@, crate::text::strs(keys@)),
{
    let ghost all = crate::text::strs(keys@);
    let mut i: usize = 0;
    let mut found: Option<&str> = None;
    assert(all.take(0) =~= Seq::empty());
    while i < keys.len()
        invariant
            i <= keys.len(),
            all == crate::text::strs(keys@),
            opt_str(found) == first_field(value@, all.take(i as int)),
        decreases keys.len() - i,
    {
        assert(all.take(i + 1).drop_last() =~= all.take(i as int));
        assert(all.take(i + 1).last() == keys@[i as int]@);
        if found.is_none() {
            found = value.field_text(keys[i]);
        }
        i += 1;
    }
    assert(all.take(i as int) =~= all);
    found
}

/// The parameters of a fork.
pub open spec fn fork_params(native: Seq<char>, input: Data) -> Data {
    let plain = Data::Object(map!["threadId"@ => Data::Text(native)]);
    let last = match first_field(input, seq!["last_turn_id"@, "lastTurnId"@]) {
        Some(id) => plain.with("lastTurnId"@, Data::Text(id)),
        None => plain,
    };
    match first_field(input, seq!["before"@, "before_turn_id"@, "beforeTurnId"@]) {
        Some(id) => last.with("beforeTurnId"@, Data::Text(id)),
        None => last,
    }
}

/// The parameters of a fork.
pub fn fork(native: &str, input: &Json) -> (r: Json)
    ensures
        r@ == fork_params(native@, input@),
{
    let mut params = Json::Object(object().with_text("threadId", native));
    let last: [&str; 2] = ["last_turn_id", "lastTurnId"];
    let before: [&str; 3] = ["before", "before_turn_id", "beforeTurnId"];
    assert(crate::text::strs(last@) =~= seq!["last_turn_id"@, "lastTurnId"@]);
    assert(crate::text::strs(before@) =~= seq!["before"@, "before_turn_id"@, "beforeTurnId"@]);
    if let Some(id) = first_of_fields(input, &last) {
        params.put("lastTurnId", Json::text(id));
    }
    if let Some(id) = first_of_fields(input, &before) {
        params.put("beforeTurnId", Json::text(id));
    }
    params
}

/// A message of the service into the conversation.
pub fn notice_params(native: &str, text: &str) -> (r: Json)
    ensures
        r@ == Data::Object(
            map![
                "threadId"@ => Data::Text(native@),
                "items"@ => Data::Array(
                    seq![
                        Data::Object(
                            map![
                                "type"@ => Data::Text("message"@),
                                "role"@ => Data::Text("developer"@),
                                "content"@ => Data::Array(
                                    seq![
                                        Data::Object(
                                            map![
                                                "type"@ => Data::Text("input_text"@),
                                                "text"@ => Data::Text(text@)
                                            ],
                                        ),
                                    ],
                                )
                            ],
                        ),
                    ],
                )
            ],
        ),
{
    let part = Json::Object(object().with_text("type", "input_text").with_text("text", text));
    let item = Json::Object(
        object().with_text("type", "message").with_text("role", "developer").with(
            "content",
            Json::one(part),
        ),
    );
    Json::Object(object().with_text("threadId", native).with("items", Json::one(item)))
}

/// The parameters of a call that steers a turn. The turn must have begun.
pub fn steer_params(native: &str, turn: &Option<String>, text: &str) -> (r: Result<Json, Fault>)
    ensures
        json_result(r) == match opt(*turn) {
            None => Err::<Data, FaultView>(refused("turn has not started"@)),
            Some(turn) => Ok::<Data, FaultView>(
                Data::Object(
                    map![
                        "threadId"@ => Data::Text(native@),
                        "expectedTurnId"@ => Data::Text(turn),
                        "input"@ => Data::Array(seq![text_item(text@)])
                    ],
                ),
            ),
        },
{
    match turn {
        None => Err(Fault::refused("turn has not started")),
        Some(turn) => Ok(
            Json::Object(
                object().with_text("threadId", native).with_text(
                    "expectedTurnId",
                    turn.as_str(),
                ).with("input", Json::one(item_text(text))),
            ),
        ),
    }
}

/// A turn that was begun has a name.
pub fn check_turn(result: &Json) -> (r: Result<(), Fault>)
    ensures
        match r {
            Ok(_) => result@.field("turn"@).field("id"@) is Text,
            Err(f) => !(result@.field("turn"@).field("id"@) is Text) && f@ == other("missing native turn identity; outcome uncertain"@),
        },
{
    match result.field("turn").field_text("id") {
        Some(_) => Ok(()),
        None => Err(Fault::other("missing native turn identity; outcome uncertain")),
    }
}

/// Whether a tool that ran in the background was ended is told.
pub fn check_terminated(result: &Json) -> (r: Result<(), Fault>)
    ensures
        match r {
            Ok(_) => result@.field("terminated"@) is Bool,
            Err(f) => !(result@.field("terminated"@) is Bool) && f@ == other("invalid tool termination response"@),
        },
{
    if result.field("terminated").is_true() || result.field("terminated").is_false() {
        return Ok(());
    }
    Err(Fault::other("invalid tool termination response"))
}

/// The conversation that continues where another was taken back to.
pub open spec fn forked(result: Data) -> Result<Data, FaultView> {
    if result.field("thread"@).field("id"@) is Text {
        Ok(
            Data::Object(
                map![
                    "id"@ => result.field("thread"@).field("id"@),
                    "path"@ => result.field("thread"@).field("path"@),
                    "cursor"@ => Data::Object(map!["offset"@ => uint(0)])
                ],
            ),
        )
    } else {
        Err(other("missing forked thread identity"@))
    }
}

/// The conversation that continues where another was taken back to. It must have a name.
pub fn read_fork(result: &Json) -> (r: Result<Json, Fault>)
    ensures
        json_result(r) == forked(result@),
{
    let thread = result.field("thread");
    match thread.field_text("id") {
        Some(id) => Ok(
            Json::Object(
                object().with_text("id", id).with("path", thread.field("path").duplicate()).with(
                    "cursor",
                    Json::Object(object().with("offset", Json::uint(0))),
                ),
            ),
        ),
        None => Err(Fault::other("missing forked thread identity")),
    }
}

/// The parameters of a call that interrupts a turn. The turn must have begun.
pub fn interrupt_params(native: &str, turn: &Option<String>) -> (r: Result<Json, Fault>)
    ensures
        json_result(r) == match opt(*turn) {
            None => Err::<Data, FaultView>(refused("turn has not started"@)),
            Some(turn) => Ok::<Data, FaultView>(
                Data::Object(
                    map!["threadId"@ => Data::Text(native@), "turnId"@ => Data::Text(turn)],
                ),
            ),
        },
{
    match turn {
        None => Err(Fault::refused("turn has not started")),
        Some(turn) => Ok(
            Json::Object(
                object().with_text("threadId", native).with_text("turnId", turn.as_str()),
            ),
        ),
    }
}

// Lines.

/// A compaction that runs: the call that began it, and its turn once that is known.
#[derive(Debug)]
pub struct Compaction {
    pub id: u64,
    pub turn: Option<String>,
}

/// The mathematical value of a compaction.
pub struct CompactionView {
    pub id: u64,
    pub turn: Option<Seq<char>>,
}

impl View for Compaction {
    type V = CompactionView;

    open spec fn view(&self) -> CompactionView {
        CompactionView { id: self.id, turn: opt(self.turn) }
    }
}

/// The view of an optional compaction.
pub open spec fn opt_compaction(c: Option<Compaction>) -> Option<CompactionView> {
    match c {
        Some(c) => Some(c@),
        None => None,
    }
}

/// The state of the conversation with the harness.
#[derive(Debug)]
pub struct Protocol {
    pub path: Option<String>,
    pub tail: Tail,
    pub root: Option<String>,
    pub prompt_id: Option<u64>,
    pub forking: Option<u64>,
    pub compaction: Option<Compaction>,
}

/// The mathematical value of the state of the conversation.
pub struct ProtocolView {
    pub path: Option<Seq<char>>,
    pub tail: TailView,
    pub root: Option<Seq<char>>,
    pub prompt_id: Option<u64>,
    pub forking: Option<u64>,
    pub compaction: Option<CompactionView>,
}

impl View for Protocol {
    type V = ProtocolView;

    open spec fn view(&self) -> ProtocolView {
        ProtocolView {
            path: opt(self.path),
            tail: self.tail@,
            root: opt(self.root),
            prompt_id: self.prompt_id,
            forking: self.forking,
            compaction: opt_compaction(self.compaction),
        }
    }
}

/// A tail that begins at an offset.
pub open spec fn tail_from(offset: u64) -> TailView {
    TailView {
        read_offset: offset,
        committed_offset: offset,
        partial: Seq::empty(),
        more: false,
    }
}

/// The state after a call, and the frame that is written.
pub open spec fn encoded(
    p: ProtocolView,
    id: u64,
    method: Seq<char>,
    params: Data,
    begins: bool,
) -> (ProtocolView, Data) {
    (
        ProtocolView {
            prompt_id: if begins {
                Some(id)
            } else {
                p.prompt_id
            },
            forking: if method == "thread/fork"@ {
                Some(id)
            } else {
                p.forking
            },
            compaction: if method == "thread/compact/start"@ {
                Some(CompactionView { id, turn: None })
            } else {
                p.compaction
            },
            ..p
        },
        if method == "initialized"@ {
            Data::Object(map!["method"@ => Data::Text(method)])
        } else {
            Data::Object(
                map!["id"@ => uint(id), "method"@ => Data::Text(method), "params"@ => params],
            )
        },
    )
}

/// The conversation that a line speaks of.
pub open spec fn identity_in(value: Data) -> Option<Data> {
    either(at2(value, "params"@, "thread"@), at2(value, "result"@, "thread"@))
}

/// The state once a line has named the conversation and its file.
pub open spec fn identified(p: ProtocolView, value: Data) -> ProtocolView {
    ProtocolView {
        path: if p.path is None {
            text_at(
                either(
                    at3(value, "params"@, "thread"@, "path"@),
                    at3(value, "result"@, "thread"@, "path"@),
                ),
            )
        } else {
            p.path
        },
        root: if p.root is None {
            match identity_in(value) {
                Some(identity) => identity.field("id"@).as_text(),
                None => None,
            }
        } else {
            p.root
        },
        ..p
    }
}

/// The conversation that a line belongs to.
pub open spec fn thread_of(params: Data) -> Option<Seq<char>> {
    crate::text::first_text(
        params.field("threadId"@).as_text(),
        text_at(at2(params, "thread"@, "id"@)),
    )
}

/// The line belongs to the conversation itself, not to one that it started.
pub open spec fn is_root(p: ProtocolView, params: Data) -> bool {
    thread_of(params) is None || thread_of(params) == p.root
}

/// What a line is.
pub open spec fn method_of(value: Data) -> Seq<char> {
    match value.field("method"@).as_text() {
        Some(method) => method,
        None => "response"@,
    }
}

/// The kind of the record of a line.
pub open spec fn record_kind(method: Seq<char>) -> Seq<char> {
    if method == "item/agentMessage/delta"@ {
        "text_delta"@
    } else if method == "item/commandExecution/outputDelta"@ {
        "tool_delta"@
    } else if method == "item/started"@ {
        "item_started"@
    } else if method == "item/completed"@ {
        "item_completed"@
    } else {
        "native_event"@
    }
}

/// What a turn cost, where a line tells it.
pub open spec fn usage_in(params: Data) -> Data {
    match either(
        either(at2(params, "turn"@, "usage"@), at2(params, "turn"@, "tokenUsage"@)),
        params.get("usage"@),
    ) {
        Some(usage) => usage,
        None => Data::Null,
    }
}

/// A line as it is recorded.
pub open spec fn line_data(method: Seq<char>, params: Data) -> Data {
    let item = params.field("item"@);
    Data::Object(
        map![
            "method"@ => Data::Text(method),
            "item_id"@ => opt_text(
                crate::text::first_text(
                    params.field("itemId"@).as_text(),
                    text_at(at2(params, "item"@, "id"@)),
                ),
            ),
            "request_id"@ => item.field("clientId"@),
            "delta"@ => params.field("delta"@),
            "text"@ => item.field("text"@),
            "tool_name"@ => item.field("command"@),
            "output"@ => item.field("aggregatedOutput"@),
            "status"@ => item.field("status"@),
            "usage"@ => usage_in(params)
        ],
    )
}

/// The outcome of a compaction, where a line tells it, and the turn that is known then.
pub open spec fn compaction_step(c: CompactionView, method: Seq<char>, params: Data) -> (
    CompactionView,
    Option<Seq<char>>,
) {
    let native = text_at(at2(params, "turn"@, "id"@));
    let turn = if method == "turn/started"@ && c.turn is None {
        native
    } else {
        c.turn
    };
    (
        CompactionView { turn, ..c },
        if method == "turn/completed"@ && turn is Some && native == turn {
            Some(
                match params.field("turn"@).field("status"@).as_text() {
                    Some(status) => status,
                    None => "unknown"@,
                },
            )
        } else if method == "thread/compacted"@ && turn is None {
            Some("completed"@)
        } else {
            None
        },
    )
}

/// The state, and what is told, after a line during a compaction.
pub open spec fn compacting(p: ProtocolView, value: Data) -> (ProtocolView, Seq<EventView>) {
    let params = value.field("params"@);
    match p.compaction {
        None => (p, Seq::empty()),
        Some(c) => if value.field("id"@).as_u64() == Some(c.id) && value.get("error"@) is Some {
            (ProtocolView { compaction: None, ..p }, Seq::empty())
        } else if thread_of(params) == p.root && thread_of(params) is Some {
            let (next, status) = compaction_step(c, method_of(value), params);
            match status {
                Some(status) => (
                    ProtocolView { compaction: None, ..p },
                    seq![EventView::Compacted { status }],
                ),
                None => (ProtocolView { compaction: Some(next), ..p }, Seq::empty()),
            }
        } else {
            (p, Seq::empty())
        },
    }
}

/// The line answers a fork.
pub open spec fn answers_fork(p: ProtocolView, value: Data) -> bool {
    p.forking is Some && value.field("id"@).as_u64() == p.forking
}

/// The conversation that a fork has made, and its file.
pub open spec fn fork_made(value: Data) -> Result<(Seq<char>, Seq<char>), FaultView> {
    match identity_in(value) {
        None => Err(other("missing fork identity"@)),
        Some(identity) => match identity.field("id"@).as_text() {
            None => Err(other("missing fork ID"@)),
            Some(id) => match identity.field("path"@).as_text() {
                None => Err(other("missing fork path"@)),
                Some(path) => Ok((id, path)),
            },
        },
    }
}

/// The line tells that a fork was made, so that the history before it must be read to its end
/// first.
pub open spec fn forks(p: ProtocolView, value: Data) -> bool {
    answers_fork(p, value) && value.get("error"@) is None && fork_made(value) is Ok
}

/// The record of a fork.
pub open spec fn rewind_ready(id: Seq<char>, path: Seq<char>) -> EventView {
    record_event(
        "rewind_ready"@,
        Data::Object(
            map![
                "id"@ => Data::Text(id),
                "path"@ => Data::Text(path),
                "cursor"@ => Data::Object(map!["offset"@ => uint(0)])
            ],
        ),
    )
}

/// What a line told of the identity of the conversation.
pub struct Settled {
    pub state: ProtocolView,
    pub progress: ProgressView,
    pub told: Result<Seq<EventView>, FaultView>,
}

/// The state, the progress and what is told once a line has answered a fork or named the
/// conversation. `drained` is the rest of the history before a fork.
pub open spec fn placed(
    p: ProtocolView,
    s: ProgressView,
    value: Data,
    drained: Seq<EventView>,
) -> Settled {
    if answers_fork(p, value) {
        let q = ProtocolView { forking: None, ..p };
        if value.get("error"@) is Some {
            Settled { state: q, progress: s, told: Ok(Seq::empty()) }
        } else {
            match fork_made(value) {
                Err(f) => Settled { state: q, progress: s, told: Err(f) },
                Ok((id, path)) => Settled {
                    state: ProtocolView {
                        root: Some(id),
                        path: Some(path),
                        tail: tail_from(0),
                        ..q
                    },
                    progress: ProgressView { native: Some(id), finished: true, ..no_progress() },
                    told: Ok(drained.push(rewind_ready(id, path))),
                },
            }
        }
    } else {
        match (identity_in(value), p.root) {
            (Some(identity), Some(id)) => if identity.field("id"@).as_text() == Some(id) {
                Settled {
                    state: p,
                    progress: ProgressView { native: Some(id), ..s },
                    told: Ok(
                        seq![
                            record_event(
                                "native_identity"@,
                                Data::Object(
                                    map![
                                        "id"@ => Data::Text(id),
                                        "path"@ => opt_text(identity.field("path"@).as_text())
                                    ],
                                ),
                            ),
                        ],
                    ),
                }
            } else {
                Settled { state: p, progress: s, told: Ok(Seq::empty()) }
            },
            _ => Settled { state: p, progress: s, told: Ok(Seq::empty()) },
        }
    }
}

/// A process that has not ended, noted once.
pub open spec fn noted(processes: Seq<Seq<char>>, process: Seq<char>) -> Seq<Seq<char>> {
    if processes.contains(process) {
        processes
    } else {
        processes.push(process)
    }
}

/// The progress and what is told after a line of the conversation itself.
pub open spec fn progressed(s: ProgressView, method: Seq<char>, params: Data) -> (
    ProgressView,
    Seq<EventView>,
) {
    let turn = text_at(at2(params, "turn"@, "id"@));
    let item = params.field("item"@);
    if method == "turn/started"@ {
        match turn {
            Some(id) => {
                let (t, started) = begun(ProgressView { native_turn: Some(id), ..s });
                (t, maybe(started))
            },
            None => (s, Seq::empty()),
        }
    } else if method == "item/started"@ {
        match item.field("processId"@).as_text() {
            Some(process) => if item.field("type"@).is_text("commandExecution"@) && params.field(
                "turnId"@,
            ).as_text() == s.native_turn {
                (ProgressView { processes: noted(s.processes, process), ..s }, Seq::empty())
            } else {
                (s, Seq::empty())
            },
            None => (s, Seq::empty()),
        }
    } else if method == "turn/completed"@ && turn == s.native_turn && s.native_turn is Some {
        let (t, ended) = over(
            s,
            match params.field("turn"@).field("status"@).as_text() {
                Some(status) => status,
                None => "unknown"@,
            },
            None,
        );
        (t, maybe(ended))
    } else {
        (s, Seq::empty())
    }
}

/// The progress once a prompt was refused.
pub open spec fn prompt_refused(p: ProtocolView, s: ProgressView, value: Data) -> ProgressView {
    if value.field("id"@).as_u64() == p.prompt_id && value.get("error"@) is Some {
        ProgressView { finished: true, ..s }
    } else {
        s
    }
}

/// The state, the progress and what is told after a line of the harness.
pub open spec fn received(
    p: ProtocolView,
    s: ProgressView,
    value: Data,
    raw: Seq<char>,
    drained: Seq<EventView>,
) -> (ProtocolView, ProgressView, Result<Seq<EventView>, FaultView>) {
    let q = identified(p, value);
    let params = value.field("params"@);
    let method = method_of(value);
    let root = is_root(q, params);
    let first = EventView::Record {
        kind: if root {
            record_kind(method)
        } else {
            "native_event"@
        },
        data: line_data(method, params),
        native: Some(raw),
    };
    let (r, compacted) = compacting(q, value);
    let place = placed(r, s, value, drained);
    match place.told {
        Err(f) => (place.state, s, Err(f)),
        Ok(told) => {
            let t = prompt_refused(place.state, place.progress, value);
            let (u, turned) = if root {
                progressed(t, method, params)
            } else {
                (t, Seq::empty())
            };
            (place.state, u, Ok(seq![first] + compacted + told + turned))
        },
    }
}

/// The answer that a line is: the call, and its outcome.
pub open spec fn answer_in(value: Data) -> Option<(u64, Result<Data, FaultView>)> {
    if value.get("method"@) is Some {
        None
    } else {
        match value.field("id"@).as_u64() {
            None => None,
            Some(id) => Some(
                (
                    id,
                    if value.get("error"@) is Some {
                        Err(refused("harness rejected command; see native history"@))
                    } else {
                        Ok(value.field("result"@))
                    },
                ),
            ),
        }
    }
}

/// The view of an answer.
pub open spec fn answer_view(r: Option<(u64, Result<Json, Fault>)>) -> Option<
    (u64, Result<Data, FaultView>),
> {
    match r {
        Some((id, result)) => Some((id, json_result(result))),
        None => None,
    }
}

/// The answer that a line is.
pub fn response(value: &Json) -> (r: Option<(u64, Result<Json, Fault>)>)
    ensures
        answer_view(r) == answer_in(value@),
{
    if value.get("method").is_some() {
        return None;
    }
    match value.field("id").as_u64() {
        None => None,
        Some(id) => Some(
            (
                id,
                if value.get("error").is_some() {
                    Err(Fault::refused("harness rejected command; see native history"))
                } else {
                    Ok(value.field("result").duplicate())
                },
            ),
        ),
    }
}

/// The frame that refuses a call of the harness.
pub open spec fn refusal(id: Data) -> Data {
    Data::Object(
        map![
            "id"@ => id,
            "error"@ => Data::Object(
                map![
                    "code"@ => Data::Number(crate::json::Number::Negative((-32601) as i64)),
                    "message"@ => Data::Text("interaction unsupported by this core slice"@)
                ],
            )
        ],
    )
}

/// The frames that answer a line: calls of the harness are refused.
pub fn respond(value: &Json) -> (r: Option<Json>)
    ensures
        opt_json(r) == if value@.get("method"@) is Some && value@.get("id"@) is Some {
            Some(refusal(value@.field("id"@)))
        } else {
            None
        },
{
    if value.get("method").is_some() && value.get("id").is_some() {
        Some(
            Json::Object(
                object().with("id", value.field("id").duplicate()).with(
                    "error",
                    Json::Object(
                        object().with(
                            "code",
                            Json::Number(
                                crate::json::Numeral::Negative(crate::json::Negative::new(-32601)),
                            ),
                        ).with_text("message", "interaction unsupported by this core slice"),
                    ),
                ),
            ),
        )
    } else {
        None
    }
}

/// The view of an optional value.
pub open spec fn opt_json(value: Option<Json>) -> Option<Data> {
    match value {
        Some(v) => Some(v@),
        None => None,
    }
}

fn data_of_line(method: &str, params: &Json) -> (r: Json)
    ensures
        r@ == line_data(method@, params@),
{
    let item = params.field("item");
    let id: Option<&str> = match params.field_text("itemId") {
        Some(id) => Some(id),
        None => text_of(get2(params, "item", "id")),
    };
    let spent = either_of(
        either_of(get2(params, "turn", "usage"), get2(params, "turn", "tokenUsage")),
        params.get("usage"),
    );
    let usage = match spent {
        Some(usage) => usage.duplicate(),
        None => Json::Null,
    };
    Json::Object(
        object().with_text("method", method).with("item_id", Json::opt_text(id)).with(
            "request_id",
            item.field("clientId").duplicate(),
        ).with("delta", params.field("delta").duplicate()).with(
            "text",
            item.field("text").duplicate(),
        ).with("tool_name", item.field("command").duplicate()).with(
            "output",
            item.field("aggregatedOutput").duplicate(),
        ).with("status", item.field("status").duplicate()).with("usage", usage),
    )
}

fn kind_of_record(method: &str) -> (r: &'static str)
    ensures
        r@ == record_kind(method@),
{
    if same(method, "item/agentMessage/delta") {
        "text_delta"
    } else if same(method, "item/commandExecution/outputDelta") {
        "tool_delta"
    } else if same(method, "item/started") {
        "item_started"
    } else if same(method, "item/completed") {
        "item_completed"
    } else {
        "native_event"
    }
}

fn find_identity(value: &Json) -> (r: Option<&Json>)
    ensures
        opt_json_ref(r) == identity_in(value@),
{
    either_of(get2(value, "params", "thread"), get2(value, "result", "thread"))
}

fn find_thread(params: &Json) -> (r: Option<&str>)
    ensures
        opt_str(r) == thread_of(params@),
{
    match params.field_text("threadId") {
        Some(id) => Some(id),
        None => text_of(get2(params, "thread", "id")),
    }
}

fn find_fork(value: &Json) -> (r: Result<(String, String), Fault>)
    ensures
        match r {
            Ok((id, path)) => fork_made(value@) == Ok::<(Seq<char>, Seq<char>), FaultView>(
                (id@, path@),
            ),
            Err(f) => fork_made(value@) == Err::<(Seq<char>, Seq<char>), FaultView>(f@),
        },
{
    match find_identity(value) {
        None => Err(Fault::other("missing fork identity")),
        Some(identity) => match identity.field_text("id") {
            None => Err(Fault::other("missing fork ID")),
            Some(id) => match identity.field_text("path") {
                None => Err(Fault::other("missing fork path")),
                Some(path) => Ok((id.to_owned(), path.to_owned())),
            },
        },
    }
}

fn advance(state: &mut Progress, method: &str, params: &Json) -> (r: Option<Event>)
    ensures
        (final(state)@, maybe(super::opt_event(r))) == progressed(old(state)@, method@, params@),
{
    let turn = text_of(get2(params, "turn", "id"));
    if same(method, "turn/started") {
        return match turn {
            Some(id) => {
                state.native_turn = Some(id.to_owned());
                state.started()
            },
            None => None,
        };
    }
    if same(method, "item/started") {
        let item = params.field("item");
        if let Some(process) = item.field_text("processId") {
            if item.field_is("type", "commandExecution") && same_opt(
                params.field_text("turnId"),
                opt_slice(&state.native_turn),
            ) {
                if !includes(&state.processes, process) {
                    push_string(&mut state.processes, process);
                }
            }
        }
        return None;
    }
    if same(method, "turn/completed") && state.native_turn.is_some() && same_opt(
        turn,
        opt_slice(&state.native_turn),
    ) {
        let status = match params.field("turn").field_text("status") {
            Some(status) => status,
            None => "unknown",
        };
        return state.finished(status, None);
    }
    None
}

impl Protocol {
    /// A conversation: a new one, or a saved one with its file and the place that was reached in
    /// it.
    pub fn new(saved: Option<(&str, &str, u64)>) -> (r: Protocol)
        ensures
            r@ == match saved {
                Some((id, path, offset)) => ProtocolView {
                    path: Some(path@),
                    tail: tail_from(offset),
                    root: Some(id@),
                    prompt_id: None,
                    forking: None,
                    compaction: None,
                },
                None => ProtocolView {
                    path: None,
                    tail: tail_from(0),
                    root: None,
                    prompt_id: None,
                    forking: None,
                    compaction: None,
                },
            },
    {
        match saved {
            Some((id, path, offset)) => Protocol {
                path: Some(path.to_owned()),
                tail: Tail::new(offset),
                root: Some(id.to_owned()),
                prompt_id: None,
                forking: None,
                compaction: None,
            },
            None => Protocol {
                path: None,
                tail: Tail::new(0),
                root: None,
                prompt_id: None,
                forking: None,
                compaction: None,
            },
        }
    }

    /// The frame of a call.
    pub fn encode(&mut self, id: u64, method: &str, params: Json, request: Option<&str>) -> (r: Json)
        ensures
            (final(self)@, r@) == encoded(old(self)@, id, method@, params@, request is Some),
    {
        if request.is_some() {
            self.prompt_id = Some(id);
        }
        if same(method, "thread/fork") {
            self.forking = Some(id);
        }
        if same(method, "thread/compact/start") {
            self.compaction = Some(Compaction { id, turn: None });
        }
        if same(method, "initialized") {
            Json::Object(object().with_text("method", method))
        } else {
            Json::Object(
                object().with("id", Json::uint(id)).with_text("method", method).with(
                    "params",
                    params,
                ),
            )
        }
    }

    /// Whether a line tells that a fork was made: the history before it must then be read to its
    /// end, and handed to `receive`.
    pub fn forks(&self, value: &Json) -> (r: bool)
        ensures
            r == forks(self@, value@),
    {
        self.answers_fork(value) && value.get("error").is_none() && find_fork(value).is_ok()
    }

    fn answers_fork(&self, value: &Json) -> (r: bool)
        ensures
            r == answers_fork(self@, value@),
    {
        match (self.forking, value.field("id").as_u64()) {
            (Some(a), Some(b)) => a == b,
            _ => false,
        }
    }

    fn identify(&mut self, value: &Json)
        ensures
            final(self)@ == identified(old(self)@, value@),
    {
        if self.path.is_none() {
            let path = text_of(
                either_of(
                    get3(value, "params", "thread", "path"),
                    get3(value, "result", "thread", "path"),
                ),
            );
            self.path = opt_owned(path);
        }
        if self.root.is_none() {
            self.root = match find_identity(value) {
                Some(identity) => opt_owned(identity.field_text("id")),
                None => None,
            };
        }
    }

    fn compact(&mut self, value: &Json, method: &str) -> (r: Option<Event>)
        requires
            method@ == method_of(value@),
        ensures
            (final(self)@, maybe(super::opt_event(r))) == compacting(old(self)@, value@),
    {
        let params = value.field("params");
        let thread = find_thread(params);
        let current = thread.is_some() && same_opt(thread, opt_slice(&self.root));
        let (id, known) = match &self.compaction {
            Some(c) => (c.id, opt_copy(&c.turn)),
            None => {
                return None;
            },
        };
        let answered = match value.field("id").as_u64() {
            Some(n) => n == id,
            None => false,
        };
        if answered && value.get("error").is_some() {
            self.compaction = None;
            return None;
        }
        if !current {
            return None;
        }
        let native = text_of(get2(params, "turn", "id"));
        let turn: Option<String> = if same(method, "turn/started") && known.is_none() {
            opt_owned(native)
        } else {
            known
        };
        let status: Option<&str> = if same(method, "turn/completed") && turn.is_some() && same_opt(
            native,
            opt_slice(&turn),
        ) {
            match params.field("turn").field_text("status") {
                Some(status) => Some(status),
                None => Some("unknown"),
            }
        } else if same(method, "thread/compacted") && turn.is_none() {
            Some("completed")
        } else {
            None
        };
        match status {
            Some(status) => {
                self.compaction = None;
                Some(Event::Compacted { status: status.to_owned() })
            },
            None => {
                self.compaction = Some(Compaction { id, turn });
                None
            },
        }
    }

    fn place(&mut self, state: &mut Progress, value: &Json, drained: Vec<Event>) -> (r: Result<
        Vec<Event>,
        Fault,
    >)
        ensures
            placed(old(self)@, old(state)@, value@, events(drained@)) == (Settled {
                state: final(self)@,
                progress: final(state)@,
                told: events_result(r),
            }),
    {
        if self.answers_fork(value) {
            self.forking = None;
            if value.get("error").is_some() {
                return Ok(super::no_events());
            }
            let (id, path) = match find_fork(value) {
                Ok(made) => made,
                Err(fault) => {
                    return Err(fault);
                },
            };
            let mut list = drained;
            let data = object().with_text("id", id.as_str()).with_text("path", path.as_str()).with(
                "cursor",
                Json::Object(object().with("offset", Json::uint(0))),
            );
            push_event(&mut list, Event::record("rewind_ready", Json::Object(data)));
            let mut next = Progress::new();
            next.native = Some(id.clone());
            next.finished = true;
            *state = next;
            self.root = Some(id);
            self.path = Some(path);
            self.tail = Tail::new(0);
            return Ok(list);
        }
        if let Some(identity) = find_identity(value) {
            if let Some(id) = &self.root {
                if same_opt(identity.field_text("id"), Some(id.as_str())) {
                    state.native = Some(id.clone());
                    let data = object().with_text("id", id.as_str()).with(
                        "path",
                        Json::opt_text(identity.field_text("path")),
                    );
                    return Ok(
                        super::one_event(Event::record("native_identity", Json::Object(data))),
                    );
                }
            }
        }
        Ok(super::no_events())
    }

    /// What a line of the harness means. `drained` is the rest of the history before a fork.
    pub fn receive(
        &mut self,
        value: &Json,
        raw: String,
        state: &mut Progress,
        drained: Vec<Event>,
    ) -> (r: Result<Vec<Event>, Fault>)
        ensures
            (final(self)@, final(state)@, events_result(r)) == received(
                old(self)@,
                old(state)@,
                value@,
                raw@,
                events(drained@),
            ),
    {
        self.identify(value);
        let params = value.field("params");
        let method = match value.field_text("method") {
            Some(method) => method,
            None => "response",
        };
        let thread = find_thread(params);
        let root = thread.is_none() || same_opt(thread, opt_slice(&self.root));
        let kind = if root {
            kind_of_record(method)
        } else {
            "native_event"
        };
        let mut list = super::one_event(
            Event::Record {
                kind: kind.to_owned(),
                data: data_of_line(method, params),
                native: Some(raw),
            },
        );
        let compacted = self.compact(value, method);
        push_maybe(&mut list, compacted);
        let told = match self.place(state, value, drained) {
            Ok(told) => told,
            Err(fault) => {
                return Err(fault);
            },
        };
        append_events(&mut list, told);
        let refused_prompt = match (value.field("id").as_u64(), self.prompt_id) {
            (Some(a), Some(b)) => a == b,
            (None, None) => true,
            _ => false,
        };
        if refused_prompt && value.get("error").is_some() {
            state.finished = true;
        }
        if root {
            let turned = advance(state, method, params);
            push_maybe(&mut list, turned);
        } else {
            assert(events(list@) + Seq::<EventView>::empty() =~= events(list@));
        }
        Ok(list)
    }
}

/// A record becomes `after` as clients read it: with what its line says. A line that cannot be read
/// is refused, in the words of who read it.
pub open spec fn shown(
    before: Data,
    native: Option<Seq<char>>,
    after: Data,
    r: Result<(), Fault>,
) -> bool {
    match text_read(
        match native {
            Some(raw) => raw,
            None => "null"@,
        },
    ) {
        Ok(frame) => r is Ok && after == before.with("value"@, frame.field("params"@)),
        Err(f) => r is Err && r->Err_0@ == f && after == before,
    }
}

/// A line in the form that clients read, where its record does not hold what the line says.
pub fn for_client(data: &mut Json, native: Option<&str>) -> (r: Result<(), Fault>)
    ensures
        shown(old(data)@, opt_str(native), final(data)@, r),
{
    let raw = match native {
        Some(raw) => raw,
        None => "null",
    };
    match parse(raw) {
        Ok(frame) => {
            data.put("value", frame.field("params").duplicate());
            Ok(())
        },
        Err(fault) => Err(fault),
    }
}

/// A fork begins a history of its own, from its first byte, and leaves no turn of the one before.
pub proof fn forks_begin_anew(
    p: ProtocolView,
    s: ProgressView,
    value: Data,
    raw: Seq<char>,
    drained: Seq<EventView>,
)
    requires
        forks(identified(p, value), value),
        !(value.field("method"@) is Text),
        p.prompt_id != p.forking,
    ensures
        received(p, s, value, raw, drained).0.tail == tail_from(0),
        received(p, s, value, raw, drained).0.root == Some(fork_made(value)->Ok_0.0),
        received(p, s, value, raw, drained).1.request is None,
        received(p, s, value, raw, drained).2 is Ok,
{
    reveal_strlit("response");
    reveal_strlit("turn/started");
    reveal_strlit("item/started");
    reveal_strlit("turn/completed");
    assert("response"@.len() == 8 && "turn/started"@.len() == 12 && "item/started"@.len() == 12
        && "turn/completed"@.len() == 14);
}

} // verus!
