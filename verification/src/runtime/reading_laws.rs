//! What holds of what is read from harnesses, from files and from the tables of the machine.
use super::claude::{asks_fast, belongs_from, common_arguments, session_arguments};
use super::claude_version::{is_version, reported_version};
use super::codex::{forked, hooks_off, levels_in, model_in, models_in, page_read};
use super::cursor::{can_load, understood};
use super::cursor_auth::{complete_part, kept_output, sign_in_place, sign_in_word};
use super::cursor_models::{all_listed, families_listed, listed};
use super::cursor_print::{command_failure, created_session};
use super::files::{attached_images, located, part_images};
use super::helper::not_made;
use super::pi::{anchor_at, context_command, header_fits, image_room, CaptureView};
use super::{claude_protocol, pi, ModelView};
use crate::fault::{other, FaultView};
use crate::hex::uuid_text;
use crate::json::{Data, Number};
use crate::wire::bytes_read;
use crate::mac::cli::{answer_from, code_in, stream_in};
use crate::mac::{number_after, unhexed, up_to_limit};
use crate::observability::system::{counters, sum, times_in};
use crate::preview::account::{is_dedicated, is_monitor, numbers_in};
use crate::preview::listener::{line_read, table_read, Owners};
use crate::preview::{key_in, report_name};
use crate::secrets::parent_in;
use crate::text::{byte_len, decimal, lines, number, space, split, trimmed, words};
use vstd::prelude::*;

verus! {

proof fn reading_words()
    ensures
        "/"@.len() == 1 && "/"@[0] == '/',
        "."@.len() == 1 && "."@[0] == '.',
        "id"@.len() == 2 && "id"@[0] == 'i',
        "ok"@.len() == 2 && "ok"@[0] == 'o',
        ".."@.len() == 2 && ".."@[0] == '.',
        "cwd"@.len() == 3 && "cwd"@[0] == 'c',
        "url"@.len() == 3 && "url"@[0] == 'u',
        "path"@.len() == 4 && "path"@[0] == 'p',
        "type"@.len() == 4 && "type"@[0] == 't',
        "name"@.len() == 4 && "name"@[0] == 'n',
        "user"@.len() == 4 && "user"@[0] == 'u',
        "data"@.len() == 4 && "data"@[0] == 'd',
        "kind"@.len() == 4 && "kind"@[0] == 'k',
        "code"@.len() == 4 && "code"@[0] == 'c',
        "abort"@.len() == 5 && "abort"@[0] == 'a',
        "close"@.len() == 5 && "close"@[0] == 'c',
        "model"@.len() == 5 && "model"@[0] == 'm',
        "image"@.len() == 5 && "image"@[0] == 'i',
        "error"@.len() == 5 && "error"@[0] == 'e',
        "/fast"@.len() == 5 && "/fast"@[0] == '/',
        "cursor"@.len() == 6 && "cursor"@[1] == 'u',
        "offset"@.len() == 6 && "offset"@[1] == 'f',
        "thread"@.len() == 6 && "thread"@[1] == 'h',
        "source"@.len() == 6 && "source"@[1] == 'o',
        "stdout"@.len() == 6 && "stdout"@[1] == 't',
        "session"@.len() == 7 && "session"@[2] == 's',
        "version"@.len() == 7 && "version"@[2] == 'r',
        "request"@.len() == 7 && "request"@[2] == 'q',
        "subtype"@.len() == 7 && "subtype"@[2] == 'b',
        "extension"@.len() == 9 && "extension"@[0] == 'e',
        "interrupt"@.len() == 9 && "interrupt"@[0] == 'i',
        "sessionId"@.len() == 9 && "sessionId"@[0] == 's',
        "sourceInfo"@.len() == 10 && "sourceInfo"@[0] == 's',
        "abort_bash"@.len() == 10 && "abort_bash"@[0] == 'a',
        "close-bash"@.len() == 10 && "close-bash"@[0] == 'c',
        "request_id"@.len() == 10 && "request_id"@[0] == 'r',
        "nextCursor"@.len() == 10 && "nextCursor"@[0] == 'n',
        "localImage"@.len() == 10 && "localImage"@[0] == 'l',
        "description"@.len() == 11 && "description"@[2] == 's' && "description"@[6] == 'p',
        "clear_queue"@.len() == 11 && "clear_queue"@[2] == 'e' && "clear_queue"@[6] == 'q',
        "close-queue"@.len() == 11 && "close-queue"@[2] == 'o' && "close-queue"@[6] == 'q',
        "close-agent"@.len() == 11 && "close-agent"@[2] == 'o' && "close-agent"@[6] == 'a',
        "loadSession"@.len() == 11 && "loadSession"@[2] == 'a' && "loadSession"@[6] == 's',
        "cancel_queued"@.len() == 13 && "cancel_queued"@[0] == 'c',
        "schemaVersion"@.len() == 13 && "schemaVersion"@[0] == 's',
        "control_request"@.len() == 15 && "control_request"@[0] == 'c',
        "reasoningEffort"@.len() == 15 && "reasoningEffort"@[0] == 'r',
        "protocolVersion"@.len() == 15 && "protocolVersion"@[0] == 'p',
        "cloudroom_context"@.len() == 17 && "cloudroom_context"@[0] == 'c',
        "agentCapabilities"@.len() == 17 && "agentCapabilities"@[0] == 'a',
        "supportedReasoningEfforts"@.len() == 25,
{
    reveal_strlit("/");
    reveal_strlit(".");
    reveal_strlit("id");
    reveal_strlit("ok");
    reveal_strlit("..");
    reveal_strlit("cwd");
    reveal_strlit("url");
    reveal_strlit("path");
    reveal_strlit("type");
    reveal_strlit("name");
    reveal_strlit("user");
    reveal_strlit("data");
    reveal_strlit("kind");
    reveal_strlit("code");
    reveal_strlit("abort");
    reveal_strlit("close");
    reveal_strlit("model");
    reveal_strlit("image");
    reveal_strlit("error");
    reveal_strlit("/fast");
    reveal_strlit("cursor");
    reveal_strlit("offset");
    reveal_strlit("thread");
    reveal_strlit("source");
    reveal_strlit("stdout");
    reveal_strlit("session");
    reveal_strlit("version");
    reveal_strlit("request");
    reveal_strlit("subtype");
    reveal_strlit("extension");
    reveal_strlit("interrupt");
    reveal_strlit("sessionId");
    reveal_strlit("sourceInfo");
    reveal_strlit("abort_bash");
    reveal_strlit("close-bash");
    reveal_strlit("request_id");
    reveal_strlit("nextCursor");
    reveal_strlit("localImage");
    reveal_strlit("description");
    reveal_strlit("clear_queue");
    reveal_strlit("close-queue");
    reveal_strlit("close-agent");
    reveal_strlit("loadSession");
    reveal_strlit("cancel_queued");
    reveal_strlit("schemaVersion");
    reveal_strlit("control_request");
    reveal_strlit("reasoningEffort");
    reveal_strlit("protocolVersion");
    reveal_strlit("cloudroom_context");
    reveal_strlit("agentCapabilities");
    reveal_strlit("supportedReasoningEfforts");
    assert("/"@.len() == 1 && "/"@[0] == '/');
    assert("."@.len() == 1 && "."@[0] == '.');
    assert("id"@.len() == 2 && "id"@[0] == 'i');
    assert("ok"@.len() == 2 && "ok"@[0] == 'o');
    assert(".."@.len() == 2 && ".."@[0] == '.');
    assert("cwd"@.len() == 3 && "cwd"@[0] == 'c');
    assert("url"@.len() == 3 && "url"@[0] == 'u');
    assert("path"@.len() == 4 && "path"@[0] == 'p');
    assert("type"@.len() == 4 && "type"@[0] == 't');
    assert("name"@.len() == 4 && "name"@[0] == 'n');
    assert("user"@.len() == 4 && "user"@[0] == 'u');
    assert("data"@.len() == 4 && "data"@[0] == 'd');
    assert("kind"@.len() == 4 && "kind"@[0] == 'k');
    assert("code"@.len() == 4 && "code"@[0] == 'c');
    assert("abort"@.len() == 5 && "abort"@[0] == 'a');
    assert("close"@.len() == 5 && "close"@[0] == 'c');
    assert("model"@.len() == 5 && "model"@[0] == 'm');
    assert("image"@.len() == 5 && "image"@[0] == 'i');
    assert("error"@.len() == 5 && "error"@[0] == 'e');
    assert("/fast"@.len() == 5 && "/fast"@[0] == '/');
    assert("cursor"@.len() == 6 && "cursor"@[1] == 'u');
    assert("offset"@.len() == 6 && "offset"@[1] == 'f');
    assert("thread"@.len() == 6 && "thread"@[1] == 'h');
    assert("source"@.len() == 6 && "source"@[1] == 'o');
    assert("stdout"@.len() == 6 && "stdout"@[1] == 't');
    assert("session"@.len() == 7 && "session"@[2] == 's');
    assert("version"@.len() == 7 && "version"@[2] == 'r');
    assert("request"@.len() == 7 && "request"@[2] == 'q');
    assert("subtype"@.len() == 7 && "subtype"@[2] == 'b');
    assert("extension"@.len() == 9 && "extension"@[0] == 'e');
    assert("interrupt"@.len() == 9 && "interrupt"@[0] == 'i');
    assert("sessionId"@.len() == 9 && "sessionId"@[0] == 's');
    assert("sourceInfo"@.len() == 10 && "sourceInfo"@[0] == 's');
    assert("abort_bash"@.len() == 10 && "abort_bash"@[0] == 'a');
    assert("close-bash"@.len() == 10 && "close-bash"@[0] == 'c');
    assert("request_id"@.len() == 10 && "request_id"@[0] == 'r');
    assert("nextCursor"@.len() == 10 && "nextCursor"@[0] == 'n');
    assert("localImage"@.len() == 10 && "localImage"@[0] == 'l');
    assert("description"@.len() == 11 && "description"@[2] == 's' && "description"@[6] == 'p');
    assert("clear_queue"@.len() == 11 && "clear_queue"@[2] == 'e' && "clear_queue"@[6] == 'q');
    assert("close-queue"@.len() == 11 && "close-queue"@[2] == 'o' && "close-queue"@[6] == 'q');
    assert("close-agent"@.len() == 11 && "close-agent"@[2] == 'o' && "close-agent"@[6] == 'a');
    assert("loadSession"@.len() == 11 && "loadSession"@[2] == 'a' && "loadSession"@[6] == 's');
    assert("cancel_queued"@.len() == 13 && "cancel_queued"@[0] == 'c');
    assert("schemaVersion"@.len() == 13 && "schemaVersion"@[0] == 's');
    assert("control_request"@.len() == 15 && "control_request"@[0] == 'c');
    assert("reasoningEffort"@.len() == 15 && "reasoningEffort"@[0] == 'r');
    assert("protocolVersion"@.len() == 15 && "protocolVersion"@[0] == 'p');
    assert("cloudroom_context"@.len() == 17 && "cloudroom_context"@[0] == 'c');
    assert("agentCapabilities"@.len() == 17 && "agentCapabilities"@[0] == 'a');
    assert("supportedReasoningEfforts"@.len() == 25);
}
// Codex.

/// A branch is known by its own name and path, and has nothing read of it yet.
pub proof fn branches_are_new_conversations(result: Data, id: Seq<char>)
    ensures
        result.field("thread"@).field("id"@) == Data::Text(id) ==> (forked(result) matches Ok(value)
            && value.field("id"@) == Data::Text(id) && value.field("path"@) == result.field(
            "thread"@,
        ).field("path"@) && value.field("cursor"@).field("offset"@) == Data::Number(
            Number::Unsigned(0),
        )),
        !(result.field("thread"@).field("id"@) is Text) ==> forked(result) is Err,
{
    reading_words();
}

/// Hooks are off only where the settings say so.
pub proof fn hooks_are_on_unless_refused(settings: Data)
    ensures
        hooks_off(settings) <==> settings.field("config"@).field("features"@).field("hooks"@)
            == Data::Bool(false),
{
}

/// A catalog of models grows in order: what was read stays first, and each entry gives one model, with its name
/// and its levels.
pub proof fn models_are_read_in_order(before: Seq<ModelView>, entries: Seq<Data>, i: int)
    requires
        models_in(before, entries) is Ok,
        0 <= i < entries.len(),
    ensures
        ({
            let list = models_in(before, entries)->Ok_0;
            &&& list.len() == before.len() + entries.len()
            &&& list.take(before.len() as int) == before
            &&& entries[i].field("model"@) == Data::Text(list[before.len() + i].model)
            &&& model_in(entries[i]) == Ok::<ModelView, FaultView>(list[before.len() + i])
        }),
    decreases entries.len(),
{
    let rest = entries.drop_last();
    let list = models_in(before, entries)->Ok_0;
    let start = models_in(before, rest)->Ok_0;
    if rest.len() == 0 {
        assert(start == before);
    } else if i < rest.len() {
        models_are_read_in_order(before, rest, i);
        assert(rest[i] == entries[i]);
    } else {
        models_are_read_in_order(before, rest, 0);
    }
    assert(list == start.push(model_in(entries.last())->Ok_0));
    assert(list.take(before.len() as int) =~= before) by {
        assert(start.take(before.len() as int) =~= before);
        assert forall|k: int| 0 <= k < before.len() implies list[k] == before[k] by {
            assert(start.take(before.len() as int)[k] == start[k]);
        }
    }
}

/// The levels of a model are those that it lists, in order.
pub proof fn levels_are_read_in_order(levels: Seq<Data>, i: int)
    requires
        levels_in(levels) is Some,
        0 <= i < levels.len(),
    ensures
        levels_in(levels)->0.len() == levels.len(),
        levels[i].field("reasoningEffort"@) == Data::Text(levels_in(levels)->0[i]),
    decreases levels.len(),
{
    let rest = levels.drop_last();
    if rest.len() > 0 {
        levels_are_read_in_order(rest, if i < rest.len() {
            i
        } else {
            0
        });
        if i < rest.len() {
            assert(rest[i] == levels[i]);
        }
    } else {
        reveal_with_fuel(levels_in, 2);
    }
}

/// The catalog is read page by page until no page follows; a page that begins again where it was asked for is
/// refused.
pub proof fn pages_are_read_to_the_end(before: Seq<ModelView>, cursor: Data, page: Data, next: Seq<char>)
    requires
        page.field("data"@) is Array,
        models_in(before, page.field("data"@)->Array_0) is Ok,
    ensures
        page.field("nextCursor"@) is Null ==> page_read(before, cursor, page) == Ok::<
            (Seq<ModelView>, Option<Data>),
            FaultView,
        >((models_in(before, page.field("data"@)->Array_0)->Ok_0, None)),
        page.field("nextCursor"@) == Data::Text(next) && cursor != Data::Text(next) ==> page_read(
            before,
            cursor,
            page,
        ) == Ok::<(Seq<ModelView>, Option<Data>), FaultView>(
            (models_in(before, page.field("data"@)->Array_0)->Ok_0, Some(Data::Text(next))),
        ),
        page.field("nextCursor"@) == Data::Text(next) && cursor == Data::Text(next) ==> page_read(
            before,
            cursor,
            page,
        ) is Err,
{
}

// Pi.

/// A harness is told to close its queue, its command and its work, each under a name of its own.
pub proof fn closing_is_asked_for(kind: Seq<char>, id: Seq<char>)
    ensures
        pi::close_frame(kind, id).field("type"@) == Data::Text(kind),
        pi::close_frame(kind, id).field("id"@) == Data::Text(id),
        claude_protocol::close_frame().field("type"@) == Data::Text("control_request"@),
        claude_protocol::close_frame().field("request"@).field("subtype"@) == Data::Text(
            "interrupt"@,
        ),
        claude_protocol::close_frame().field("request"@).field("cancel_queued"@) == Data::Bool(true),
{
    reading_words();
}

/// A saved conversation is one of the known form, and the one that was asked for.
pub proof fn saved_conversations_are_known(header: Data, id: Seq<char>)
    ensures
        header_fits(header, Some(id)) ==> header.field("id"@) == Data::Text(id) && header.field(
            "type"@,
        ) == Data::Text("session"@) && header.field("version"@) == Data::Number(Number::Unsigned(3)),
        header_fits(header, None) ==> header.field("id"@) is Text,
        header.field("type"@) == Data::Text("session"@) && header.field("version"@) == Data::Number(
            Number::Unsigned(3),
        ) && header.field("id"@) == Data::Text(id) ==> header_fits(header, Some(id)) && header_fits(
            header,
            None,
        ),
{
}

/// A command is that of the extension only where it comes from the extension's own file.
pub proof fn extensions_are_their_own(command: Data, path: Seq<char>)
    ensures
        context_command(command, Some(path)) ==> command.field("sourceInfo"@).field("path"@)
            == Data::Text(path) && command.field("name"@) == Data::Text("cloudroom_context"@)
            && command.field("source"@) == Data::Text("extension"@),
{
}

/// The place of the last line that was read is as far before the end of what was read as the line is long.
pub proof fn last_lines_end_what_was_read(c: CaptureView)
    ensures
        anchor_at(c) matches Some(place) ==> place + byte_len(c.anchor) == c.offset,
        !c.initialized || c.anchor.len() == 0 ==> anchor_at(c) is None,
        c.initialized && c.anchor.len() > 0 && c.offset >= byte_len(c.anchor) ==> anchor_at(c) is Some,
{
}

/// There is never more room for images than a line has.
pub proof fn images_have_the_room_of_a_line(text: Seq<char>)
    ensures
        0 <= image_room(text) < 16777216,
{
}

// Cursor.

/// An agent is used that can go on with saved sessions.
pub proof fn agents_can_go_on(init: Data)
    ensures
        can_load(init) <==> init.field("protocolVersion"@) == Data::Number(Number::Unsigned(1))
            && init.field("agentCapabilities"@).field("loadSession"@) == Data::Bool(true),
        understood(init) <==> init.field("schemaVersion"@) == Data::Number(Number::Unsigned(1))
            && init.field("cwd"@) is Text,
{
}

/// What a failed command says is its error output, else its output, and the end of it.
pub proof fn failures_say_the_end(stdout: Seq<char>, stderr: Seq<char>)
    ensures
        stderr.len() > 0 && trimmed(stderr).len() > 0 && trimmed(stderr).len() <= 300
            ==> command_failure(stdout, stderr) == trimmed(stderr),
        stderr.len() == 0 && trimmed(stdout).len() > 0 && trimmed(stdout).len() <= 300
            ==> command_failure(stdout, stderr) == trimmed(stdout),
        stderr.len() > 0 && trimmed(stderr).len() > 300 ==> command_failure(stdout, stderr).len()
            == 300 && command_failure(stdout, stderr).last() == trimmed(stderr).last(),
        stderr.len() > 0 && trimmed(stderr).len() == 0 ==> command_failure(stdout, stderr)
            == "Cursor CLI failed"@,
{
}

/// A session that was made is named by the last line.
pub proof fn made_sessions_are_named_last(stdout: Seq<char>)
    ensures
        lines(trimmed(stdout)).len() > 0 ==> created_session(stdout) == lines(
            trimmed(stdout),
        )[lines(trimmed(stdout)).len() - 1],
        lines(trimmed(stdout)).len() == 0 ==> created_session(stdout).len() == 0,
{
}

/// Only words that are whole are looked at, and what is kept of the output is its end.
pub proof fn whole_words_are_read(text: Seq<char>, more: Seq<char>, c: char)
    requires
        space(c),
        forall|i: int| 0 <= i < more.len() ==> !space(#[trigger] more[i]),
    ensures
        complete_part(text.push(c) + more) == text,
        byte_len(text) <= 8192 ==> kept_output(text) == text,
        byte_len(text) > 8192 ==> kept_output(text).len() <= 4096,
    decreases more.len(),
{
    let whole = text.push(c) + more;
    if more.len() == 0 {
        assert(whole =~= text.push(c));
        assert(text.push(c).drop_last() =~= text);
    } else {
        assert(whole.last() == more.last());
        assert(whole.drop_last() =~= text.push(c) + more.drop_last());
        assert forall|i: int| 0 <= i < more.drop_last().len() implies !space(
            #[trigger] more.drop_last()[i],
        ) by {
            assert(more.drop_last()[i] == more[i]);
        }
        whole_words_are_read(text, more.drop_last(), c);
    }
}

/// The place to sign in at is the last word that can be one.
pub proof fn the_last_place_counts(all: Seq<Seq<char>>, last: Seq<char>)
    ensures
        sign_in_word(last) ==> sign_in_place(all.push(last)) == Some(last),
        !sign_in_word(last) ==> sign_in_place(all.push(last)) == sign_in_place(all),
        sign_in_place(Seq::empty()) is None,
{
    assert(all.push(last).drop_last() =~= all);
}

/// The variants of a catalog stand in the order of its lines; a line that names none is passed over.
pub proof fn variants_are_listed_in_order(all: Seq<Seq<char>>, line: Seq<char>, bytes: Seq<u8>)
    ensures
        listed(line) matches Some(id) ==> all_listed(all.push(line)) == all_listed(all).push(id),
        listed(line) is None ==> all_listed(all.push(line)) == all_listed(all),
        all_listed(Seq::empty()).len() == 0,
        families_listed(false, bytes) is None,
        families_listed(true, bytes) matches Some(list) ==> list.len() > 0,
{
    assert(all.push(line).drop_last() =~= all);
}

// The other harness.

/// A transcript belongs to a session where a user spoke in that session, and all lines before could be read.
pub proof fn transcripts_belong_to_their_session(all: Seq<Seq<char>>, id: Seq<char>, i: int, product: Seq<char>)
    requires
        0 <= i,
        belongs_from(all, id, i, product) is Ok,
    ensures
        exists|k: int|
            i <= k < all.len() && (super::claude::transcript_line(#[trigger] all[k], product) matches Ok(v)
                && v.field("sessionId"@) == Data::Text(id) && v.field("type"@) == Data::Text("user"@)),
    decreases all.len() - i,
{
    let v = super::claude::transcript_line(all[i], product)->Ok_0;
    if !(v.field("sessionId"@).is_text(id) && v.field("type"@).is_text("user"@)) {
        transcripts_belong_to_their_session(all, id, i + 1, product);
    }
}

/// A run is given its model, and goes on with the saved session, or with a branch of it under a new name.
pub proof fn runs_are_started_as_asked(model: Seq<char>, saved: Seq<char>, id: Seq<char>, before: Seq<char>)
    ensures
        common_arguments(model)[12] == "--model"@ && common_arguments(model)[13] == model,
        session_arguments(None, id, None) == seq!["--session-id"@, id],
        session_arguments(Some(saved), id, None) == seq!["--resume"@, saved],
        ({
            let branch = session_arguments(Some(saved), id, Some(before));
            &&& branch[1] == saved
            &&& branch[2] == "--fork-session"@
            &&& branch[4] == id
            &&& branch[6] == before
        }),
{
}

/// A message that asks for the fast mode begins with its command.
pub proof fn fast_mode_is_asked_for(text: Seq<char>)
    ensures
        words(text).len() == 0 ==> !asks_fast(text),
        words(text).len() > 0 ==> (asks_fast(text) <==> words(text)[0] == "/fast"@),
{
}

/// The version is the first word that is told, three numbers apart by points.
pub proof fn versions_are_three_numbers(output: Seq<char>)
    ensures
        reported_version(output) matches Some(v) ==> v == words(output)[0] && split(v, '.').len() == 3
            && split(v, '.')[0].len() <= 6,
        words(output).len() == 0 ==> reported_version(output) is None,
        words(output).len() > 0 && is_version(words(output)[0]) ==> reported_version(output) == Some(
            words(output)[0],
        ),
{
}

// Files and helpers.

/// The images of a message are those of its parts, then those of its attachments, in order.
pub proof fn images_come_in_order(
    parts: Seq<Data>,
    part: Data,
    before: Seq<Seq<char>>,
    attachments: Seq<Data>,
    attachment: Data,
    path: Seq<char>,
)
    ensures
        attached_images(before, Seq::empty()) == before,
        part_images(Seq::empty()).len() == 0,
        part.field("type"@) == Data::Text("image"@) && part.field("path"@) == Data::Text(path)
            ==> part_images(parts.push(part)) == part_images(parts).push(path),
        part.field("type"@) == Data::Text("localImage"@) && part.field("path"@) == Data::Text(path)
            ==> part_images(parts.push(part)) == part_images(parts).push(path),
        part.field("type"@) == Data::Text("text"@) ==> part_images(parts.push(part)) == part_images(
            parts,
        ),
        attachment.field("kind"@) == Data::Text("image"@) && attachment.field("path"@) == Data::Text(
            path,
        ) ==> attached_images(before, attachments.push(attachment)) == attached_images(
            before,
            attachments,
        ).push(path),
        attachment.field("kind"@) == Data::Text("file"@) ==> attached_images(
            before,
            attachments.push(attachment),
        ) == attached_images(before, attachments),
{
    reading_words();
    reveal_strlit("text");
    reveal_strlit("file");
    reveal_strlit("image");
    reveal_strlit("localImage");
    assert("text"@.len() == 4 && "file"@.len() == 4 && "image"@.len() == 5 && "localImage"@.len()
        == 10);
    assert(parts.push(part).drop_last() =~= parts);
    assert(attachments.push(attachment).drop_last() =~= attachments);
}

/// A file has a name and a folder; a path that ends above itself has none.
pub proof fn files_have_names(root: Seq<char>, path: Seq<char>)
    ensures
        located(root, path) matches Ok((folder, name)) ==> name != "."@ && name != ".."@ && name
            != "/"@,
        path.len() > 0 && path[0] == '/' ==> located(root, path) == located(Seq::empty(), path),
{
}

/// A helper has done its work where it ended well and says so; else its message is told.
pub proof fn helpers_say_that_it_is_done(stdout: Seq<u8>, message: Seq<char>)
    ensures
        not_made(false, stdout, message) == Some(other(message)),
        bytes_read(stdout) matches Ok(v) ==> (v.field("ok"@) == Data::Bool(true) <==> not_made(
            true,
            stdout,
            message,
        ) is None),
        bytes_read(stdout) is Err ==> not_made(true, stdout, message) is Some,
{
}

// The machine.

/// The busy time of a machine is what its eight counters sum up to; it idles in the fourth and the fifth.
pub proof fn counters_are_summed_up(line: Seq<Seq<char>>, i: int)
    requires
        counters(line, 8) is Some,
        0 <= i < 8,
    ensures
        counters(line, 8)->0.len() == 8,
        number(line[i + 1], u64::MAX as nat) == Some(counters(line, 8)->0[i]),
{
    reveal_with_fuel(counters, 9);
}

/// The times of a machine are read from the line of all its processors.
pub proof fn times_are_those_of_all_processors(text: Seq<char>)
    ensures
        times_in(text) matches Some(t) ==> lines(text).len() > 0 && words(lines(text)[0])[0] == "cpu"@
            && t.total == sum(counters(words(lines(text)[0]), 8)->0) && t.idle == counters(
            words(lines(text)[0]),
            8,
        )->0[3] + counters(words(lines(text)[0]), 8)->0[4],
{
    let all = lines(text);
    if times_in(text) is Some {
        let c = counters(words(all[0]), 8)->0;
        reveal_with_fuel(counters, 9);
        reveal_with_fuel(sum, 9);
        assert(c.len() == 8);
        let c7 = c.drop_last();
        let c6 = c7.drop_last();
        let c5 = c6.drop_last();
        let c4 = c5.drop_last();
        assert(sum(c) == sum(c7) + c[7]);
        assert(sum(c7) == sum(c6) + c[6]);
        assert(sum(c6) == sum(c5) + c[5]);
        assert(sum(c5) == sum(c4) + c[4]);
        assert(sum(c4) == sum(c4.drop_last()) + c[3]);
    }
}

/// Each line of a table may add an owner to its own list, and changes no other.
pub proof fn owners_are_added_line_by_line(o: Owners, all: Seq<Seq<char>>, count: int, port: u16)
    requires
        1 < count <= all.len(),
        table_read(o, all, count, port) is Ok,
    ensures
        ({
            let before = table_read(o, all, count - 1, port)->Ok_0;
            let after = table_read(o, all, count, port)->Ok_0;
            &&& table_read(o, all, count - 1, port) is Ok
            &&& line_read(before, all[count - 1], port) == Ok::<Owners, FaultView>(after)
            &&& after.exact.len() + after.any.len() + after.any6.len() <= before.exact.len()
                + before.any.len() + before.any6.len() + 1
            &&& after.exact.take(before.exact.len() as int) == before.exact
            &&& after.any.take(before.any.len() as int) == before.any
            &&& after.any6.take(before.any6.len() as int) == before.any6
        }),
        table_read(o, all, 1, port) == Ok::<Owners, FaultView>(o),
{
}

/// A process is ended where all four of its accounts are the one of previews, or where it is the one that
/// watches over such a process.
pub proof fn processes_of_previews_are_ended(uid: u32, title: Seq<char>)
    ensures
        is_dedicated(seq![uid as nat, uid as nat, uid as nat, uid as nat], uid),
        uid != 0 ==> !is_dedicated(seq![uid as nat, 0, uid as nat, uid as nat], uid),
        uid != 0 ==> !is_monitor(seq![uid as nat, uid as nat, uid as nat, uid as nat], title),
        is_monitor(seq![0, 0, 0, 0], "sshd: cloudroom-preview [priv]"@),
        is_monitor(seq![0, 0, 0, 0], title) ==> title == "sshd: cloudroom-preview [priv]"@ || title
            == "sshd-session: cloudroom-preview [priv]"@,
{
    let mixed = seq![uid as nat, 0nat, uid as nat, uid as nat];
    assert(mixed[1] == 0);
    assert(seq![uid as nat, uid as nat, uid as nat, uid as nat][0] == uid as nat);
}

/// Numbers are read in order, and what is no number is passed over.
pub proof fn numbers_are_read_in_order(all: Seq<Seq<char>>, word: Seq<char>)
    ensures
        number(word, u32::MAX as nat) matches Some(n) ==> numbers_in(all.push(word)) == numbers_in(
            all,
        ).push(n),
        number(word, u32::MAX as nat) is None ==> numbers_in(all.push(word)) == numbers_in(all),
        numbers_in(Seq::empty()).len() == 0,
{
    assert(all.push(word).drop_last() =~= all);
}

/// A report is known by the machine and the port, and no two of a machine by the same name.
pub proof fn reports_are_named_apart(device: Seq<char>, port: u16)
    ensures
        report_name(device, port).take(device.len() as int) == device,
        report_name(device, port).skip(device.len() as int) == "/"@ + decimal(port as nat),
{
    assert(report_name(device, port) =~= device + ("/"@ + decimal(port as nat)));
    assert(report_name(device, port).take(device.len() as int) =~= device);
    assert(report_name(device, port).skip(device.len() as int) =~= "/"@ + decimal(port as nat));
}

/// A key is its kind and its text; what follows is left out.
pub proof fn keys_are_two_words(text: Seq<char>)
    requires
        words(text).len() > 2,
    ensures
        key_in(text) == words(text)[0] + " "@ + words(text)[1],
{
    let all = words(text);
    let two = all.take(2);
    reveal_with_fuel(crate::text::joined, 3);
    assert(two.drop_last() =~= seq![all[0]]);
    assert(two.last() == all[1]);
    assert(key_in(text) =~= all[0] + " "@ + all[1]);
}

/// What follows the first empty line of an answer is its body.
pub proof fn bodies_follow_the_head(bytes: Seq<u8>, i: int)
    requires
        0 <= i,
        i + 4 <= bytes.len(),
    ensures
        bytes[i] == 13 && bytes[i + 1] == 10 && bytes[i + 2] == 13 && bytes[i + 3] == 10
            ==> answer_from(bytes, i) == crate::mac::cli::body_in(bytes.skip(i + 4)),
        bytes[i] != 13 ==> answer_from(bytes, i) == answer_from(bytes, i + 1),
        answer_from(bytes, bytes.len() as int) is Err,
        answer_from(bytes, i) matches Ok(v) ==> !(v.field("error"@) is Text),
    decreases bytes.len() - i,
{
    if !(bytes[i] == 13 && bytes[i + 1] == 10 && bytes[i + 2] == 13 && bytes[i + 3] == 10) {
        if i + 5 <= bytes.len() {
            bodies_follow_the_head(bytes, i + 1);
        }
    }
}

/// The streams of a command are read from their digits.
pub proof fn streams_are_read(value: Data, key: Seq<char>, text: Seq<char>, n: u64)
    ensures
        value.field(key) == Data::Text(text) ==> stream_in(value, key) == unhexed(text),
        !(value.field(key) is Text) ==> stream_in(value, key) is None,
        value.field("code"@) == Data::Number(Number::Unsigned(n)) && n <= i32::MAX ==> code_in(value) == Some(n as i32),
        value.field("code"@) is Null ==> code_in(value) is None,
{
}

/// What is kept of a stream is its beginning.
pub proof fn beginnings_are_kept(bytes: Seq<u8>, n: u64)
    ensures
        bytes.len() <= 16777216 ==> up_to_limit(bytes) == bytes,
        bytes.len() > 16777216 ==> up_to_limit(bytes).len() == 16777216 && up_to_limit(bytes)
            == bytes.take(16777216),
        n < u64::MAX ==> number_after(n) == n + 1,
{
}

/// A name made of random bytes has its five parts apart by lines, and says that it is random.
pub proof fn random_names_have_their_form(bytes: Seq<u8>)
    requires
        bytes.len() == 16,
    ensures
        uuid_text(bytes).len() == 36,
        uuid_text(bytes)[8] == '-',
        uuid_text(bytes)[13] == '-',
        uuid_text(bytes)[14] == '4',
        uuid_text(bytes)[18] == '-',
        uuid_text(bytes)[23] == '-',
{
    reveal_strlit("-");
    let b = bytes.update(6, (bytes[6] % 16 + 64) as u8).update(8, (bytes[8] % 64 + 128) as u8);
    crate::hex::hex_places(b);
    assert(b[6] == (bytes[6] % 16 + 64) as u8);
}

/// The process that started another stands second after the name in brackets.
pub proof fn parents_follow_the_name(stat: Seq<char>, rest: Seq<char>, n: nat)
    requires
        !rest.contains(')'),
        words(rest).len() > 1,
        number(words(rest)[1], i32::MAX as nat) == Some(n),
    ensures
        parent_in(stat.push(')') + rest) == n,
{
    last_bracket_is_last(stat, rest);
    assert((stat.push(')') + rest).skip(stat.len() as int + 1) =~= rest);
}

proof fn last_bracket_is_last(stat: Seq<char>, rest: Seq<char>)
    requires
        !rest.contains(')'),
    ensures
        crate::secrets::last_bracket(stat.push(')') + rest) == Some(stat.len() as int),
    decreases rest.len(),
{
    let whole = stat.push(')') + rest;
    if rest.len() == 0 {
        assert(whole =~= stat.push(')'));
    } else {
        assert(whole.last() == rest.last());
        assert(rest.contains(rest.last()));
        assert(whole.drop_last() =~= stat.push(')') + rest.drop_last());
        assert(!rest.drop_last().contains(')')) by {
            if rest.drop_last().contains(')') {
                let k = choose|k: int| 0 <= k < rest.drop_last().len() && rest.drop_last()[k] == ')';
                assert(rest[k] == ')');
            }
        }
        last_bracket_is_last(stat, rest.drop_last());
    }
}

} // verus!
