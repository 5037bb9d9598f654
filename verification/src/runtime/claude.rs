//! claude_code: how it is started, and what is asked of it.
use super::codex::model_views;
use super::process::MAX_LINE;
use super::product::Product;
use super::{json_result, Model, ModelView};
use crate::fault::{other, refused, Fault, FaultView};
use crate::json::{
    no_json, object, push_json, texts_among, texts_of, values, Data, Json,
};
use crate::text::{
    all_in, all_text_in, byte_len, chars_of, concat, concat3, copy_all, deep, ends_with, finishes,
    opt_str, owned, push_strings, same, size, string_of, strs, views,
    words, words_of, Class,
};
use crate::wire::{bytes_read, parse, parse_bytes, text_read};
use vstd::prelude::*;

verus! {

// How it is started.

/// What claude_code is told about where it runs.
pub open spec fn instructions() -> Seq<char> {
    "Cloudroom owns this cloud session. Ask clarifying questions in ordinary chat, not interactive tools. Delegate work with mcp__cloudroom__delegate; each child has its own Cloudroom session and saved history. Do not use native subagents, workflows, or agent teams. Messages are queued; live steering and Fast mode are unavailable. Rewinding changes conversation history only, never files."@
}

/// The arguments that every run has.
pub open spec fn common_arguments(model: Seq<char>) -> Seq<Seq<char>> {
    seq![
        "-p"@,
        "--input-format"@,
        "stream-json"@,
        "--output-format"@,
        "stream-json"@,
        "--verbose"@,
        "--include-partial-messages"@,
        "--replay-user-messages"@,
        "--dangerously-skip-permissions"@,
        "--permission-prompts"@,
        "none"@,
        "--no-chrome"@,
        "--model"@,
        model,
        "--append-system-prompt"@,
        instructions(),
        "--disallowedTools"@,
        "AskUserQuestion,EnterPlanMode,ExitPlanMode,Agent,Task,Workflow,SendMessage"@,
        "--mcp-config"@,
        "{\"mcpServers\":{\"cloudroom\":{\"type\":\"sdk\",\"name\":\"cloudroom\"}}}"@
    ]
}

/// The arguments that name the session: a saved one is continued, or continued as a new one from
/// before a point; otherwise a new one begins.
pub open spec fn session_arguments(
    saved: Option<Seq<char>>,
    id: Seq<char>,
    fork: Option<Seq<char>>,
) -> Seq<Seq<char>> {
    match saved {
        None => seq!["--session-id"@, id],
        Some(s) => match fork {
            None => seq!["--resume"@, s],
            Some(before) => seq![
                "--resume"@,
                s,
                "--fork-session"@,
                "--session-id"@,
                id,
                "--resume-session-at"@,
                before
            ],
        },
    }
}

/// The session that a run works in: the saved one, unless it is continued as a new one.
pub fn session_id(saved: Option<&str>, fork: Option<&str>, fresh: &str) -> (r: String)
    ensures
        r@ == match opt_str(saved) {
            Some(s) => if fork is None {
                s
            } else {
                fresh@
            },
            None => fresh@,
        },
{
    match saved {
        Some(s) => if fork.is_none() {
            s.to_owned()
        } else {
            fresh.to_owned()
        },
        None => fresh.to_owned(),
    }
}

/// The arguments of a run.
pub fn arguments(model: &str, saved: Option<&str>, id: &str, fork: Option<&str>) -> (r: Vec<String>)
    ensures
        views(r@) == common_arguments(model@) + session_arguments(
            opt_str(saved),
            id@,
            opt_str(fork),
        ),
{
    let common: [&str; 20] = [
        "-p",
        "--input-format",
        "stream-json",
        "--output-format",
        "stream-json",
        "--verbose",
        "--include-partial-messages",
        "--replay-user-messages",
        "--dangerously-skip-permissions",
        "--permission-prompts",
        "none",
        "--no-chrome",
        "--model",
        model,
        "--append-system-prompt",
        "Cloudroom owns this cloud session. Ask clarifying questions in ordinary chat, not interactive tools. Delegate work with mcp__cloudroom__delegate; each child has its own Cloudroom session and saved history. Do not use native subagents, workflows, or agent teams. Messages are queued; live steering and Fast mode are unavailable. Rewinding changes conversation history only, never files.",
        "--disallowedTools",
        "AskUserQuestion,EnterPlanMode,ExitPlanMode,Agent,Task,Workflow,SendMessage",
        "--mcp-config",
        "{\"mcpServers\":{\"cloudroom\":{\"type\":\"sdk\",\"name\":\"cloudroom\"}}}",
    ];
    let mut out = owned(&common);
    assert(strs(common@) =~= common_arguments(model@));
    match saved {
        None => {
            let more: [&str; 2] = ["--session-id", id];
            push_strings(&mut out, &more);
            assert(strs(more@) =~= session_arguments(None, id@, opt_str(fork)));
        },
        Some(s) => match fork {
            None => {
                let more: [&str; 2] = ["--resume", s];
                push_strings(&mut out, &more);
                assert(strs(more@) =~= session_arguments(Some(s@), id@, None));
            },
            Some(before) => {
                let more: [&str; 7] = [
                    "--resume",
                    s,
                    "--fork-session",
                    "--session-id",
                    id,
                    "--resume-session-at",
                    before,
                ];
                push_strings(&mut out, &more);
                assert(strs(more@) =~= session_arguments(Some(s@), id@, Some(before@)));
            },
        },
    }
    out
}

// The account.

/// What claude_code's answer about its account means.
pub open spec fn account_answer(
    bytes: Seq<u8>,
    code: Option<i32>,
    product: Seq<char>,
) -> Result<bool, FaultView> {
    if bytes.len() > 65536 {
        Err(other(product + " account response too large"@))
    } else {
        match bytes_read(bytes) {
            Err(f) => Err(f),
            Ok(value) => if code == Some(0i32) && value.field("loggedIn"@).is_true() {
                Ok(true)
            } else if code == Some(1i32) && value.field("loggedIn"@).is_false() {
                Ok(false)
            } else {
                Err(other("invalid "@ + product + " account response"@))
            },
        }
    }
}

/// The view of an answer about the account.
pub open spec fn bool_result(r: Result<bool, Fault>) -> Result<bool, FaultView> {
    match r {
        Ok(b) => Ok(b),
        Err(f) => Err(f@),
    }
}

/// What claude_code's answer about its account means.
pub fn read_account(bytes: &[u8], code: Option<i32>, product: &Product) -> (r: Result<bool, Fault>)
    ensures
        bool_result(r) == account_answer(bytes@, code, product.name@),
{
    if bytes.len() > 65536 {
        return Err(
            Fault::other(concat(product.name.as_str(), " account response too large").as_str()),
        );
    }
    let value = match parse_bytes(bytes) {
        Ok(value) => value,
        Err(fault) => {
            return Err(fault);
        },
    };
    if let Some(code) = code {
        if code == 0 && value.field("loggedIn").is_true() {
            return Ok(true);
        }
        if code == 1 && value.field("loggedIn").is_false() {
            return Ok(false);
        }
    }
    Err(Fault::other(concat3("invalid ", product.name.as_str(), " account response").as_str()))
}

// The beginning of a session.

/// What claude_code is told first: its delegation is managed here.
pub fn initialize_params() -> (r: Json)
    ensures
        r@ == Data::Object(
            map![
                "hooks"@ => Data::Object(map![
                    "SubagentStart"@ => Data::Array(seq![Data::Object(map![
                        "hookCallbackIds"@ => Data::Array(seq![
                            Data::Text("cloudroom-native-child"@),
                        ]),
                    ])]),
                ]),
                "sdkMcpServers"@ => Data::Array(seq![Data::Text("cloudroom"@)])
            ],
        ),
{
    let hook = Json::Object(
        object().with("hookCallbackIds", Json::one(Json::text("cloudroom-native-child"))),
    );
    Json::Object(
        object().with(
            "hooks",
            Json::Object(object().with("SubagentStart", Json::one(hook))),
        ).with("sdkMcpServers", Json::one(Json::text("cloudroom"))),
    )
}

/// What opens a conversation, so that it is saved before the first task.
pub fn bootstrap_params() -> (r: Json)
    ensures
        r@ == Data::Object(
            map![
                "text"@ => Data::Text(
                    "Cloudroom session initialized. No user task has been submitted yet."@,
                )
            ],
        ),
{
    Json::Object(
        object().with_text(
            "text",
            "Cloudroom session initialized. No user task has been submitted yet.",
        ),
    )
}

/// claude_code manages its delegation as it was told.
pub fn check_initialized(info: &Json, product: &Product) -> (r: Result<(), Fault>)
    ensures
        r is Ok <==> info@.field("hooks_applied"@).is_true(),
        r matches Err(f) ==> f@ == other(
            product.name@ + " did not register the managed-delegation hook"@,
        ),
{
    if info.field("hooks_applied").is_true() {
        Ok(())
    } else {
        Err(
            Fault::other(
                concat(
                    product.name.as_str(),
                    " did not register the managed-delegation hook",
                ).as_str(),
            ),
        )
    }
}

/// The levels that an entry of the catalog supports.
pub open spec fn entry_levels(entry: Data) -> Seq<Seq<char>> {
    let levels = texts_of(entry.field("supportedEffortLevels"@).items());
    if !entry.field("supportsEffort"@).is_true() && levels.len() == 0 {
        seq!["none"@]
    } else {
        levels
    }
}

/// A model is known by its name.
pub open spec fn lists_model(models: Seq<ModelView>, name: Seq<char>) -> bool {
    exists|i: int| 0 <= i < models.len() && (#[trigger] models[i]).model == name
}

/// The models with one more, unless it is known.
pub open spec fn with_model(
    models: Seq<ModelView>,
    name: Option<Seq<char>>,
    levels: Seq<Seq<char>>,
) -> Seq<ModelView> {
    match name {
        None => models,
        Some(n) => if lists_model(models, n) {
            models
        } else {
            models.push(ModelView { model: n, reasoning_levels: levels })
        },
    }
}

/// The models of a catalog: each entry under its name and under the name that it stands for.
pub open spec fn catalog_models(entries: Seq<Data>) -> Seq<ModelView>
    decreases entries.len(),
{
    if entries.len() == 0 {
        Seq::empty()
    } else {
        let entry = entries.last();
        let levels = entry_levels(entry);
        with_model(
            with_model(
                catalog_models(entries.drop_last()),
                entry.field("value"@).as_text(),
                levels,
            ),
            entry.field("resolvedModel"@).as_text(),
            levels,
        )
    }
}

fn has_model(models: &Vec<Model>, name: &str) -> (r: bool)
    ensures
        r == lists_model(model_views(models@), name@),
{
    let ghost all = model_views(models@);
    let mut i: usize = 0;
    while i < models.len()
        invariant
            i <= models.len(),
            all == model_views(models@),
            forall|j: int| 0 <= j < i ==> (#[trigger] all[j]).model != name@,
        decreases models.len() - i,
    {
        assert(all[i as int] == models@[i as int]@);
        if same(models[i].model.as_str(), name) {
            return true;
        }
        i += 1;
    }
    false
}

fn add_model(models: &mut Vec<Model>, name: Option<&str>, levels: &Vec<String>)
    ensures
        model_views(final(models)@) == with_model(
            model_views(old(models)@),
            opt_str(name),
            views(levels@),
        ),
{
    if let Some(name) = name {
        if !has_model(models, name) {
            models.push(Model { model: name.to_owned(), reasoning_levels: copy_all(levels) });
            assert(model_views(models@) =~= model_views(old(models)@).push(
                ModelView { model: name@, reasoning_levels: views(levels@) },
            ));
        }
    }
}

/// The models of a catalog.
pub fn model_catalog(value: &Json, product: &Product) -> (r: Result<Vec<Model>, Fault>)
    ensures
        match r {
            Ok(models) => value@.field("models"@) is Array && model_views(models@)
                == catalog_models(value@.field("models"@).items()),
            Err(f) => !(value@.field("models"@) is Array) && f@ == other(
                "missing "@ + product.name@ + " model catalog"@,
            ),
        },
{
    let entries: &Vec<Json> = match value.field("models").as_array() {
        Some(entries) => entries,
        None => {
            return Err(
                Fault::other(concat3("missing ", product.name.as_str(), " model catalog").as_str()),
            );
        },
    };
    let ghost all = values(entries@);
    let mut models: Vec<Model> = Vec::new();
    let mut i: usize = 0;
    assert(all.take(0) =~= Seq::empty());
    assert(model_views(models@) =~= Seq::empty());
    while i < entries.len()
        invariant
            i <= entries.len(),
            all == values(entries@),
            model_views(models@) == catalog_models(all.take(i as int)),
        decreases entries.len() - i,
    {
        assert(all.take(i + 1).drop_last() =~= all.take(i as int));
        assert(all.take(i + 1).last() == entries@[i as int]@);
        let entry = &entries[i];
        let mut levels = texts_among(entry.field("supportedEffortLevels").items());
        if !entry.field("supportsEffort").is_true() && levels.len() == 0 {
            levels = owned(&["none"]);
            assert(views(levels@) =~= seq!["none"@]);
        }
        assert(views(levels@) == entry_levels(entry@));
        add_model(&mut models, entry.field_text("value"), &levels);
        add_model(&mut models, entry.field_text("resolvedModel"), &levels);
        i += 1;
    }
    assert(all.take(i as int) =~= all);
    Ok(models)
}

/// Some model of that name supports the level.
pub open spec fn supports(models: Seq<ModelView>, model: Seq<char>, level: Seq<char>) -> bool {
    exists|i: int|
        0 <= i < models.len() && (#[trigger] models[i]).model == model
            && models[i].reasoning_levels.contains(level)
}

/// The model supports the level that the session asks for.
pub fn check_effort(
    info: &Json,
    model: &str,
    level: &str,
    product: &Product,
) -> (r: Result<(), Fault>)
    ensures
        match r {
            Ok(()) => info@.field("models"@) is Array && supports(
                catalog_models(info@.field("models"@).items()),
                model@,
                level@,
            ),
            Err(f) => if info@.field("models"@) is Array {
                !supports(catalog_models(info@.field("models"@).items()), model@, level@) && f@
                    == refused(product.name@ + " model does not support the selected effort"@)
            } else {
                f@ == other("missing "@ + product.name@ + " model catalog"@)
            },
        },
{
    let models = match model_catalog(info, product) {
        Ok(models) => models,
        Err(fault) => {
            return Err(fault);
        },
    };
    let ghost all = model_views(models@);
    let mut i: usize = 0;
    while i < models.len()
        invariant
            i <= models.len(),
            all == model_views(models@),
            all == catalog_models(info@.field("models"@).items()),
            info@.field("models"@) is Array,
            forall|j: int|
                0 <= j < i ==> !((#[trigger] all[j]).model == model@
                    && all[j].reasoning_levels.contains(level@)),
        decreases models.len() - i,
    {
        assert(all[i as int] == models@[i as int]@);
        if same(models[i].model.as_str(), model) && crate::text::includes(
            &models[i].reasoning_levels,
            level,
        ) {
            return Ok(());
        }
        i += 1;
    }
    Err(
        Fault::refused(
            concat(product.name.as_str(), " model does not support the selected effort").as_str(),
        ),
    )
}

/// The settings that a session begins with. The level `none` needs none.
pub fn start_settings(level: &str) -> (r: Option<Json>)
    ensures
        match r {
            None => level@ == "none"@,
            Some(params) => level@ != "none"@ && params@ == Data::Object(
                map![
                    "settings"@ => Data::Object(map![
                        "effortLevel"@ => Data::Text(level@),
                        "fastMode"@ => Data::Bool(false)
                    ]),
                ],
            ),
        },
{
    if same(level, "none") {
        return None;
    }
    Some(
        Json::Object(
            object().with(
                "settings",
                Json::Object(
                    object().with_text("effortLevel", level).with("fastMode", Json::Bool(false)),
                ),
            ),
        ),
    )
}

// Prompts.

/// The first word of a prompt asks for the fast mode, which is not offered.
pub open spec fn asks_fast(text: Seq<char>) -> bool {
    words(text).len() > 0 && words(text)[0] == "/fast"@
}

/// A prompt that asks for the fast mode is refused.
pub fn check_prompt(text: &str, product: &Product) -> (r: Result<(), Fault>)
    ensures
        r is Ok <==> !asks_fast(text@),
        r matches Err(f) ==> f@ == refused(product.name@ + " Fast mode is disabled"@),
{
    let chars = chars_of(text);
    let all = words_of(chars.as_slice());
    let ghost every = words(text@);
    assert(deep(all@) == every);
    if all.len() > 0 {
        assert(all@[0]@ == every[0]);
        if same(string_of(all[0].as_slice()).as_str(), "/fast") {
            return Err(
                Fault::refused(concat(product.name.as_str(), " Fast mode is disabled").as_str()),
            );
        }
    }
    Ok(())
}

/// The level of a prompt: its own, or that of the session; `none` is no level.
pub open spec fn prompt_level(input: Data, session: Option<Seq<char>>) -> Data {
    let level = match input.field("reasoning"@).as_text() {
        Some(l) => Some(l),
        None => session,
    };
    match level {
        Some(l) => if l == "none"@ {
            Data::Null
        } else {
            Data::Text(l)
        },
        None => Data::Null,
    }
}

/// The settings of a prompt.
pub fn prompt_settings(input: &Json, session: Option<&str>) -> (r: Json)
    ensures
        r@ == Data::Object(
            map![
                "settings"@ => Data::Object(map![
                    "fastMode"@ => Data::Bool(false),
                    "effortLevel"@ => prompt_level(input@, opt_str(session))
                ]),
            ],
        ),
{
    let level = match input.field_text("reasoning") {
        Some(level) => Some(level),
        None => session,
    };
    let effort = match level {
        Some(level) => if same(level, "none") {
            Json::Null
        } else {
            Json::text(level)
        },
        None => Json::Null,
    };
    Json::Object(
        object().with(
            "settings",
            Json::Object(
                object().with("fastMode", Json::Bool(false)).with("effortLevel", effort),
            ),
        ),
    )
}

/// A piece of text.
pub open spec fn text_block(text: Seq<char>) -> Data {
    Data::Object(map!["type"@ => Data::Text("text"@), "text"@ => Data::Text(text)])
}

/// The kinds of pictures that claude_code takes.
pub open spec fn is_picture(mime: Seq<char>) -> bool {
    mime == "image/png"@ || mime == "image/jpeg"@ || mime == "image/gif"@ || mime == "image/webp"@
}

/// A picture that claude_code takes.
pub open spec fn takes_image(image: Data) -> bool {
    match image.field("mimeType"@).as_text() {
        Some(mime) => is_picture(mime),
        None => false,
    }
}

/// A picture.
pub open spec fn image_block(image: Data) -> Data {
    Data::Object(
        map![
            "type"@ => Data::Text("image"@),
            "source"@ => Data::Object(map![
                "type"@ => Data::Text("base64"@),
                "media_type"@ => image.field("mimeType"@),
                "data"@ => image.field("data"@)
            ])
        ],
    )
}

/// What a prompt says of an attached file. Pictures are shown instead.
pub open spec fn file_note(attachment: Data) -> Option<Seq<char>> {
    if attachment.field("kind"@).is_text("image"@) {
        None
    } else {
        match attachment.field("path"@).as_text() {
            Some(path) => Some(
                "[Attached file: "@ + path + "] Use the Read tool to inspect it."@,
            ),
            None => None,
        }
    }
}

/// What a prompt says of the attached files.
pub open spec fn file_blocks(attachments: Seq<Data>) -> Seq<Data>
    decreases attachments.len(),
{
    if attachments.len() == 0 {
        Seq::empty()
    } else {
        match file_note(attachments.last()) {
            Some(note) => file_blocks(attachments.drop_last()).push(text_block(note)),
            None => file_blocks(attachments.drop_last()),
        }
    }
}

/// The content of a prompt: its text, its pictures and its other files.
pub open spec fn prompt_content(text: Seq<char>, images: Seq<Data>, input: Data) -> Seq<Data> {
    (if text.len() > 0 {
        seq![text_block(text)]
    } else {
        Seq::empty()
    }) + images.map_values(|image: Data| image_block(image)) + file_blocks(
        input.field("attachments"@).items(),
    )
}

/// Why a prompt is refused.
pub open spec fn content_refused(
    text: Seq<char>,
    images: Seq<Data>,
    input: Data,
    product: Seq<char>,
) -> Option<Seq<char>> {
    if exists|i: int| 0 <= i < images.len() && !takes_image(#[trigger] images[i]) {
        Some(product + " requires PNG, JPEG, GIF or WebP images"@)
    } else if prompt_content(text, images, input).len() == 0 {
        Some(product + " prompt is empty"@)
    } else {
        None
    }
}

fn write_image(image: &Json) -> (r: Option<Json>)
    ensures
        match r {
            Some(block) => takes_image(image@) && block@ == image_block(image@),
            None => !takes_image(image@),
        },
{
    let taken = match image.field_text("mimeType") {
        Some(mime) => same(mime, "image/png") || same(mime, "image/jpeg") || same(mime, "image/gif")
            || same(mime, "image/webp"),
        None => false,
    };
    if !taken {
        return None;
    }
    Some(
        Json::Object(
            object().with_text("type", "image").with(
                "source",
                Json::Object(
                    object().with_text("type", "base64").with(
                        "media_type",
                        image.field("mimeType").duplicate(),
                    ).with("data", image.field("data").duplicate()),
                ),
            ),
        ),
    )
}

fn write_files(attachments: &[Json]) -> (r: Vec<Json>)
    ensures
        values(r@) == file_blocks(values(attachments@)),
{
    let ghost all = values(attachments@);
    let mut out = no_json();
    let mut i: usize = 0;
    assert(all.take(0) =~= Seq::empty());
    while i < attachments.len()
        invariant
            i <= attachments.len(),
            all == values(attachments@),
            values(out@) == file_blocks(all.take(i as int)),
        decreases attachments.len() - i,
    {
        assert(all.take(i + 1).drop_last() =~= all.take(i as int));
        assert(all.take(i + 1).last() == attachments@[i as int]@);
        let attachment = &attachments[i];
        if !attachment.field_is("kind", "image") {
            if let Some(path) = attachment.field_text("path") {
                let note = concat3("[Attached file: ", path, "] Use the Read tool to inspect it.");
                push_json(
                    &mut out,
                    Json::Object(
                        object().with_text("type", "text").with_text("text", note.as_str()),
                    ),
                );
            }
        }
        i += 1;
    }
    assert(all.take(i as int) =~= all);
    out
}

fn append_json(list: &mut Vec<Json>, more: &Vec<Json>)
    ensures
        values(final(list)@) == values(old(list)@) + values(more@),
{
    let ghost was = values(list@);
    let ghost all = values(more@);
    let mut i: usize = 0;
    assert(values(list@) =~= was + all.take(0));
    while i < more.len()
        invariant
            i <= more.len(),
            values(more@) == all,
            values(list@) == was + all.take(i as int),
        decreases more.len() - i,
    {
        push_json(list, more[i].duplicate());
        assert(all[i as int] == more@[i as int]@);
        assert(values(list@) =~= was + all.take(i + 1));
        i += 1;
    }
    assert(all.take(i as int) =~= all);
}

/// The content of a prompt, or why it is refused.
pub fn content(
    text: &str,
    images: &Vec<Json>,
    input: &Json,
    product: &Product,
) -> (r: Result<Json, Fault>)
    ensures
        match r {
            Ok(params) => content_refused(
                text@,
                values(images@),
                input@,
                product.name@,
            ) is None && params@
                == Data::Object(
                map!["content"@ => Data::Array(prompt_content(text@, values(images@), input@))],
            ),
            Err(f) => match content_refused(text@, values(images@), input@, product.name@) {
                Some(why) => f@ == refused(why),
                None => false,
            },
        },
{
    let ghost all = values(images@);
    let ghost shown = all.map_values(|image: Data| image_block(image));
    let ghost head = if text@.len() > 0 {
        seq![text_block(text@)]
    } else {
        Seq::<Data>::empty()
    };
    let mut out = no_json();
    if chars_of(text).len() > 0 {
        push_json(
            &mut out,
            Json::Object(object().with_text("type", "text").with_text("text", text)),
        );
        assert(values(out@) =~= head);
    } else {
        assert(text@.len() == 0);
        assert(values(out@) =~= head);
    }
    let mut i: usize = 0;
    assert(values(out@) =~= head + shown.take(0));
    while i < images.len()
        invariant
            i <= images.len(),
            all == values(images@),
            shown == all.map_values(|image: Data| image_block(image)),
            values(out@) == head + shown.take(i as int),
            forall|j: int| 0 <= j < i ==> takes_image(#[trigger] all[j]),
        decreases images.len() - i,
    {
        assert(all[i as int] == images@[i as int]@);
        match write_image(&images[i]) {
            Some(block) => {
                push_json(&mut out, block);
                assert(values(out@) =~= head + shown.take(i + 1));
            },
            None => {
                return Err(
                    Fault::refused(
                        concat(
                            product.name.as_str(),
                            " requires PNG, JPEG, GIF or WebP images",
                        ).as_str(),
                    ),
                );
            },
        }
        i += 1;
    }
    assert(shown.take(i as int) =~= shown);
    let files = write_files(input.field("attachments").items());
    append_json(&mut out, &files);
    assert(values(out@) =~= prompt_content(text@, all, input@));
    if out.len() == 0 {
        return Err(Fault::refused(concat(product.name.as_str(), " prompt is empty").as_str()));
    }
    Ok(Json::Object(object().with("content", Json::Array(out))))
}

/// claude_code has dropped what was queued.
pub fn check_interrupted(response: &Json, product: &Product) -> (r: Result<(), Fault>)
    ensures
        r is Ok <==> response@.field("still_queued"@).as_array() == Some(Seq::<Data>::empty()),
        r matches Err(f) ==> f@ == other(
            product.name@ + " did not confirm cancellation of its native queue"@,
        ),
{
    if let Some(list) = response.field("still_queued").as_array() {
        if list.len() == 0 {
            assert(values(list@) =~= Seq::<Data>::empty());
            return Ok(());
        }
        assert(values(list@).len() == list@.len());
    }
    Err(
        Fault::other(
            concat(
                product.name.as_str(),
                " did not confirm cancellation of its native queue",
            ).as_str(),
        ),
    )
}

// The transcript.

/// What names a session of claude_code.
pub open spec fn native_id(id: Seq<char>) -> bool {
    byte_len(id) == 36 && all_in(id, Class::Hex, "-"@)
}

/// Refuses what does not name a session.
pub fn check_id(id: &str, product: &Product) -> (r: Result<(), Fault>)
    ensures
        r is Ok <==> native_id(id@),
        r matches Err(f) ==> f@ == other("invalid "@ + product.name@ + " session identity"@),
{
    if size(id) == 36 && all_text_in(id, Class::Hex, "-") {
        Ok(())
    } else {
        Err(Fault::other(concat3("invalid ", product.name.as_str(), " session identity").as_str()))
    }
}

/// One transcript of a session is found among the projects; more are ambiguous.
pub fn choose_transcript(found: &Vec<String>, product: &Product) -> (r: Result<String, Fault>)
    ensures
        match r {
            Ok(path) => found@.len() == 1 && path@ == found@[0]@,
            Err(f) => if found@.len() == 0 {
                f@ == (FaultView {
                    kind: crate::fault::FaultKind::NotFound,
                    message: product.name@ + " transcript is missing"@,
                })
            } else {
                found@.len() > 1 && f@ == other(
                    "ambiguous "@ + product.name@ + " session identity"@,
                )
            },
        },
{
    if found.len() == 0 {
        return Err(
            Fault {
                kind: crate::fault::FaultKind::NotFound,
                message: concat(product.name.as_str(), " transcript is missing"),
            },
        );
    }
    if found.len() > 1 {
        return Err(
            Fault::other(
                concat3("ambiguous ", product.name.as_str(), " session identity").as_str(),
            ),
        );
    }
    Ok(found[0].as_str().to_owned())
}

/// A line of a transcript.
pub open spec fn transcript_line(raw: Seq<char>, product: Seq<char>) -> Result<Data, FaultView> {
    if byte_len(raw) > MAX_LINE || !finishes(raw, "\n"@) {
        Err(other("invalid "@ + product + " transcript"@))
    } else {
        text_read(raw)
    }
}

/// Whether the first line of the user, from a place on, belongs to the session.
pub open spec fn belongs_from(
    lines: Seq<Seq<char>>,
    id: Seq<char>,
    i: int,
    product: Seq<char>,
) -> Result<(), FaultView>
    decreases lines.len() - i,
{
    if i < 0 || i >= lines.len() {
        Err(other(product + " transcript identity is missing"@))
    } else {
        match transcript_line(lines[i], product) {
            Err(f) => Err(f),
            Ok(value) => if value.field("sessionId"@).is_text(id) && value.field(
                "type"@,
            ).is_text("user"@) {
                Ok(())
            } else {
                belongs_from(lines, id, i + 1, product)
            },
        }
    }
}

fn read_line(raw: &str, product: &Product) -> (r: Result<Json, Fault>)
    ensures
        json_result(r) == transcript_line(raw@, product.name@),
{
    if size(raw) > MAX_LINE || !ends_with(raw, "\n") {
        return Err(
            Fault::other(concat3("invalid ", product.name.as_str(), " transcript").as_str()),
        );
    }
    parse(raw)
}

/// The transcript belongs to the session.
pub fn validate(lines: &Vec<String>, id: &str, product: &Product) -> (r: Result<(), Fault>)
    ensures
        match r {
            Ok(()) => belongs_from(views(lines@), id@, 0, product.name@) is Ok,
            Err(f) => belongs_from(
                views(lines@),
                id@,
                0,
                product.name@,
            ) == Err::<(), FaultView>(f@),
        },
{
    let ghost all = views(lines@);
    let mut i: usize = 0;
    while i < lines.len()
        invariant
            i <= lines.len(),
            all == views(lines@),
            belongs_from(all, id@, 0, product.name@) == belongs_from(
                all,
                id@,
                i as int,
                product.name@,
            ),
        decreases lines.len() - i,
    {
        assert(all[i as int] == lines@[i as int]@);
        match read_line(lines[i].as_str(), product) {
            Err(fault) => {
                return Err(fault);
            },
            Ok(value) => {
                if value.field_is("sessionId", id) && value.field_is("type", "user") {
                    return Ok(());
                }
            },
        }
        i += 1;
    }
    Err(Fault::other(concat(product.name.as_str(), " transcript identity is missing").as_str()))
}

/// The line is the checkpoint of a message of the user.
pub open spec fn is_checkpoint(value: Data, before: Seq<char>) -> bool {
    value.field("uuid"@).is_text(before) && value.field("type"@).is_text("user"@) && !value.field(
        "isMeta"@,
    ).is_true()
}

/// What stands before a checkpoint, searched from a place on.
pub open spec fn parent_from(
    lines: Seq<Seq<char>>,
    before: Seq<char>,
    i: int,
    product: Seq<char>,
) -> Result<
    Seq<char>,
    FaultView,
>
    decreases lines.len() - i,
{
    if i < 0 || i >= lines.len() {
        Err(refused(product + " rewind checkpoint not found"@))
    } else {
        match transcript_line(lines[i], product) {
            Err(f) => Err(f),
            Ok(value) => if is_checkpoint(value, before) {
                match value.field("parentUuid"@).as_text() {
                    Some(parent) => Ok(parent),
                    None => Err(refused(product + " checkpoint has no saved parent"@)),
                }
            } else {
                parent_from(lines, before, i + 1, product)
            },
        }
    }
}

/// What stands before a checkpoint of the user: a new session continues from there.
pub fn fork_source(
    lines: &Vec<String>,
    before: &str,
    product: &Product,
) -> (r: Result<String, Fault>)
    ensures
        match r {
            Ok(parent) => parent_from(
                views(lines@),
                before@,
                0,
                product.name@,
            ) == Ok::<Seq<char>, FaultView>(
                parent@,
            ),
            Err(f) => parent_from(
                views(lines@),
                before@,
                0,
                product.name@,
            ) == Err::<Seq<char>, FaultView>(f@),
        },
{
    let ghost all = views(lines@);
    let mut i: usize = 0;
    while i < lines.len()
        invariant
            i <= lines.len(),
            all == views(lines@),
            parent_from(
                all,
                before@,
                0,
                product.name@,
            ) == parent_from(all, before@, i as int, product.name@),
        decreases lines.len() - i,
    {
        assert(all[i as int] == lines@[i as int]@);
        match read_line(lines[i].as_str(), product) {
            Err(fault) => {
                return Err(fault);
            },
            Ok(value) => {
                if value.field_is("uuid", before) && value.field_is("type", "user") && !value.field(
                    "isMeta",
                ).is_true() {
                    return match value.field_text("parentUuid") {
                        Some(parent) => Ok(parent.to_owned()),
                        None => Err(
                            Fault::refused(
                                concat(
                                    product.name.as_str(),
                                    " checkpoint has no saved parent",
                                ).as_str(),
                            ),
                        ),
                    };
                }
            },
        }
        i += 1;
    }
    Err(Fault::refused(concat(product.name.as_str(), " rewind checkpoint not found").as_str()))
}

} // verus!
