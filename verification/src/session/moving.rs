//! What can be relied on when a conversation moves here.
use super::local::LocalView;
use super::query::NoteView;
use super::teleport::{
    execution_refused, manifest_refused, prepare_refused, ManifestView, QueuedView, Readiness,
};
use super::transfer::{
    activation, activation_refused, file_index, files_ready, owned, piece_for, retried,
    takeover_refused, transfer_data, transfer_sound, upload_begun, upload_refused, upload_size,
    Piece, TransferView,
};
use super::{ErrorView, SessionView};
use crate::json::{uint, Data};
use crate::runtime::{Kind, ModelView};
use crate::text::byte_len;
use vstd::prelude::*;

verus! {

proof fn moving_words()
    ensures
        "pi"@.len() == 2 && "pi"@[0] == 'p',
        "fx"@.len() == 2 && "fx"@[0] == 'f',
        "path"@.len() == 4 && "path"@[0] == 'p',
        "kind"@.len() == 4 && "kind"@[0] == 'k',
        "text"@.len() == 4 && "text"@[0] == 't',
        "fast"@.len() == 4 && "fast"@[0] == 'f',
        "phase"@.len() == 5 && "phase"@[0] == 'p' && "phase"@[3] == 's',
        "files"@.len() == 5 && "files"@[0] == 'f' && "files"@[3] == 'e',
        "error"@.len() == 5 && "error"@[0] == 'e' && "error"@[3] == 'o',
        "index"@.len() == 5 && "index"@[0] == 'i' && "index"@[3] == 'e',
        "input"@.len() == 5 && "input"@[0] == 'i' && "input"@[3] == 'u',
        "state"@.len() == 5 && "state"@[0] == 's' && "state"@[3] == 't',
        "start"@.len() == 5 && "start"@[0] == 's' && "start"@[3] == 'r',
        "model"@.len() == 5 && "model"@[0] == 'm' && "model"@[3] == 'e',
        "codex"@.len() == 5 && "codex"@[0] == 'c' && "codex"@[3] == 'e',
        "offset"@.len() == 6 && "offset"@[0] == 'o',
        "native"@.len() == 6 && "native"@[0] == 'n',
        "source"@.len() == 6 && "source"@[0] == 's',
        "prompt"@.len() == 6 && "prompt"@[0] == 'p',
        "cursor"@.len() == 6 && "cursor"@[0] == 'c',
        "running"@.len() == 7 && "running"@[3] == 'n' && "running"@[0] == 'r',
        "project"@.len() == 7 && "project"@[3] == 'j' && "project"@[0] == 'p',
        "context"@.len() == 7 && "context"@[3] == 't' && "context"@[0] == 'c',
        "symlink"@.len() == 7 && "symlink"@[3] == 'l' && "symlink"@[0] == 's',
        "receipt"@.len() == 7 && "receipt"@[3] == 'e' && "receipt"@[0] == 'r',
        "prompts"@.len() == 7 && "prompts"@[3] == 'm' && "prompts"@[0] == 'p',
        "command"@.len() == 7 && "command"@[3] == 'm' && "command"@[0] == 'c',
        "harness"@.len() == 7 && "harness"@[3] == 'n' && "harness"@[0] == 'h',
        "default"@.len() == 7 && "default"@[3] == 'a' && "default"@[0] == 'd',
        "complete"@.len() == 8 && "complete"@[0] == 'c',
        "accepted"@.len() == 8 && "accepted"@[0] == 'a',
        "teleport"@.len() == 8 && "teleport"@[0] == 't',
        "provider"@.len() == 8 && "provider"@[0] == 'p',
        "workspace"@.len() == 9 && "workspace"@[2] == 'r',
        "cancelled"@.len() == 9 && "cancelled"@[2] == 'n',
        "uploading"@.len() == 9 && "uploading"@[2] == 'l',
        "size_hint"@.len() == 9 && "size_hint"@[2] == 'z',
        "native_id"@.len() == 9 && "native_id"@[2] == 't',
        "reasoning"@.len() == 9 && "reasoning"@[2] == 'a',
        "completed"@.len() == 9 && "completed"@[2] == 'm',
        "request_id"@.len() == 10 && "request_id"@[0] == 'r',
        "session_id"@.len() == 10 && "session_id"@[0] == 's',
        "attachment"@.len() == 10 && "attachment"@[0] == 'a',
        "native_path"@.len() == 11,
        "service_tier"@.len() == 12,
        "output_started"@.len() == 14,
        "teleport_ready_"@.len() == 15,
        "teleport_handoff"@.len() == 16,
        "command_guard_enabled"@.len() == 21,
{
    reveal_strlit("pi");
    reveal_strlit("fx");
    reveal_strlit("path");
    reveal_strlit("kind");
    reveal_strlit("text");
    reveal_strlit("fast");
    reveal_strlit("phase");
    reveal_strlit("files");
    reveal_strlit("error");
    reveal_strlit("index");
    reveal_strlit("input");
    reveal_strlit("state");
    reveal_strlit("start");
    reveal_strlit("model");
    reveal_strlit("codex");
    reveal_strlit("offset");
    reveal_strlit("native");
    reveal_strlit("source");
    reveal_strlit("prompt");
    reveal_strlit("cursor");
    reveal_strlit("running");
    reveal_strlit("project");
    reveal_strlit("context");
    reveal_strlit("symlink");
    reveal_strlit("receipt");
    reveal_strlit("prompts");
    reveal_strlit("command");
    reveal_strlit("harness");
    reveal_strlit("default");
    reveal_strlit("complete");
    reveal_strlit("accepted");
    reveal_strlit("teleport");
    reveal_strlit("provider");
    reveal_strlit("workspace");
    reveal_strlit("cancelled");
    reveal_strlit("uploading");
    reveal_strlit("size_hint");
    reveal_strlit("native_id");
    reveal_strlit("reasoning");
    reveal_strlit("completed");
    reveal_strlit("request_id");
    reveal_strlit("session_id");
    reveal_strlit("attachment");
    reveal_strlit("native_path");
    reveal_strlit("service_tier");
    reveal_strlit("output_started");
    reveal_strlit("teleport_ready_");
    reveal_strlit("teleport_handoff");
    reveal_strlit("command_guard_enabled");
    assert("pi"@.len() == 2 && "pi"@[0] == 'p');
    assert("fx"@.len() == 2 && "fx"@[0] == 'f');
    assert("path"@.len() == 4 && "path"@[0] == 'p');
    assert("kind"@.len() == 4 && "kind"@[0] == 'k');
    assert("text"@.len() == 4 && "text"@[0] == 't');
    assert("fast"@.len() == 4 && "fast"@[0] == 'f');
    assert("phase"@.len() == 5 && "phase"@[0] == 'p' && "phase"@[3] == 's');
    assert("files"@.len() == 5 && "files"@[0] == 'f' && "files"@[3] == 'e');
    assert("error"@.len() == 5 && "error"@[0] == 'e' && "error"@[3] == 'o');
    assert("index"@.len() == 5 && "index"@[0] == 'i' && "index"@[3] == 'e');
    assert("input"@.len() == 5 && "input"@[0] == 'i' && "input"@[3] == 'u');
    assert("state"@.len() == 5 && "state"@[0] == 's' && "state"@[3] == 't');
    assert("start"@.len() == 5 && "start"@[0] == 's' && "start"@[3] == 'r');
    assert("model"@.len() == 5 && "model"@[0] == 'm' && "model"@[3] == 'e');
    assert("codex"@.len() == 5 && "codex"@[0] == 'c' && "codex"@[3] == 'e');
    assert("offset"@.len() == 6 && "offset"@[0] == 'o');
    assert("native"@.len() == 6 && "native"@[0] == 'n');
    assert("source"@.len() == 6 && "source"@[0] == 's');
    assert("prompt"@.len() == 6 && "prompt"@[0] == 'p');
    assert("cursor"@.len() == 6 && "cursor"@[0] == 'c');
    assert("running"@.len() == 7 && "running"@[3] == 'n' && "running"@[0] == 'r');
    assert("project"@.len() == 7 && "project"@[3] == 'j' && "project"@[0] == 'p');
    assert("context"@.len() == 7 && "context"@[3] == 't' && "context"@[0] == 'c');
    assert("symlink"@.len() == 7 && "symlink"@[3] == 'l' && "symlink"@[0] == 's');
    assert("receipt"@.len() == 7 && "receipt"@[3] == 'e' && "receipt"@[0] == 'r');
    assert("prompts"@.len() == 7 && "prompts"@[3] == 'm' && "prompts"@[0] == 'p');
    assert("command"@.len() == 7 && "command"@[3] == 'm' && "command"@[0] == 'c');
    assert("harness"@.len() == 7 && "harness"@[3] == 'n' && "harness"@[0] == 'h');
    assert("default"@.len() == 7 && "default"@[3] == 'a' && "default"@[0] == 'd');
    assert("complete"@.len() == 8 && "complete"@[0] == 'c');
    assert("accepted"@.len() == 8 && "accepted"@[0] == 'a');
    assert("teleport"@.len() == 8 && "teleport"@[0] == 't');
    assert("provider"@.len() == 8 && "provider"@[0] == 'p');
    assert("workspace"@.len() == 9 && "workspace"@[2] == 'r');
    assert("cancelled"@.len() == 9 && "cancelled"@[2] == 'n');
    assert("uploading"@.len() == 9 && "uploading"@[2] == 'l');
    assert("size_hint"@.len() == 9 && "size_hint"@[2] == 'z');
    assert("native_id"@.len() == 9 && "native_id"@[2] == 't');
    assert("reasoning"@.len() == 9 && "reasoning"@[2] == 'a');
    assert("completed"@.len() == 9 && "completed"@[2] == 'm');
    assert("request_id"@.len() == 10 && "request_id"@[0] == 'r');
    assert("session_id"@.len() == 10 && "session_id"@[0] == 's');
    assert("attachment"@.len() == 10 && "attachment"@[0] == 'a');
    assert("native_path"@.len() == 11);
    assert("service_tier"@.len() == 12);
    assert("output_started"@.len() == 14);
    assert("teleport_ready_"@.len() == 15);
    assert("teleport_handoff"@.len() == 16);
    assert("command_guard_enabled"@.len() == 21);
}
// What is shown.

/// A transfer is shown as complete exactly where its session has been heard, every file is there, and,
/// where some file came beside the conversation, the session was told that they are.
pub proof fn complete_means_everything_is_there(
    t: TransferView,
    session: Option<SessionView>,
    parts: Seq<u64>,
)
    requires
        transfer_sound(t),
    ensures
        ({
            let shown = transfer_data(t, session, parts);
            let beside = exists|i: int|
                0 <= i < t.manifest.files.len() && ((#[trigger] t.manifest.files[i]).kind
                    == "project"@ || t.manifest.files[i].kind == "attachment"@);
            shown.field("phase"@) == Data::Text("complete"@) <==> {
                &&& session is Some
                &&& session->0.teleport_output
                &&& forall|i: int|
                    0 <= i < t.arrivals.len() ==> (#[trigger] t.arrivals[i]).path is Some
                &&& beside ==> session->0.receipts.contains_key(
                    "teleport_ready_"@ + t.manifest.request_id,
                )
            }
        }),
{
    moving_words();
}

/// Each file is shown where it stands in the list: whether it is complete, where it was put, and how
/// much of it is here. A transfer that is shown as complete shows every file as complete.
pub proof fn files_are_shown_as_they_are(
    t: TransferView,
    session: Option<SessionView>,
    parts: Seq<u64>,
    i: int,
)
    requires
        transfer_sound(t),
        parts.len() == t.manifest.files.len(),
        0 <= i < t.manifest.files.len(),
        i <= u64::MAX,
    ensures
        ({
            let shown = transfer_data(t, session, parts);
            let list = shown.field("files"@);
            let file = list->Array_0[i];
            &&& list is Array && list->Array_0.len() == t.manifest.files.len()
            &&& file.field("index"@) == uint(i as u64)
            &&& file.field("complete"@) == Data::Bool(t.arrivals[i].path is Some)
            &&& t.arrivals[i].path is Some ==> file.field("path"@) == Data::Text(
                t.arrivals[i].path->0,
            )
            &&& t.arrivals[i].path is None ==> file.field("path"@) is Null && file.field("offset"@)
                == uint(parts[i])
            &&& t.arrivals[i].path is Some && t.arrivals[i].size is Some ==> file.field("offset"@)
                == uint(t.arrivals[i].size->0)
            &&& t.arrivals[i].path is Some && t.arrivals[i].size is None ==> file.field("offset"@)
                == uint(t.manifest.files[i].size)
            &&& shown.field("phase"@) == Data::Text("complete"@) ==> file.field("complete"@)
                == Data::Bool(true)
        }),
{
    moving_words();
}

/// A transfer is shown under its own name, with its folder, and the session that it became, if it did. Until
/// it is complete it runs where there is a session; without one it is cancelled or still uploading.
pub proof fn transfers_are_shown_by_name(
    t: TransferView,
    session: Option<SessionView>,
    parts: Seq<u64>,
)
    ensures
        ({
            let shown = transfer_data(t, session, parts);
            let phase = shown.field("phase"@);
            &&& shown.field("request_id"@) == Data::Text(t.manifest.request_id)
            &&& shown.field("workspace"@) == Data::Text(t.workspace.path)
            &&& session is Some ==> shown.field("session_id"@) == Data::Text(
                "cr_teleport_"@ + t.manifest.request_id,
            ) && shown.field("output_started"@) == Data::Bool(session->0.teleport_output)
            &&& session is None ==> shown.field("session_id"@) is Null && shown.field(
                "output_started"@,
            ) == Data::Bool(false)
            &&& session is Some && phase != Data::Text("complete"@) ==> phase == Data::Text(
                "running"@,
            )
            &&& session is None && t.cancelled ==> phase == Data::Text("cancelled"@)
            &&& session is None && !t.cancelled ==> phase == Data::Text("uploading"@)
        }),
{
    moving_words();
}

/// What keeps a session that moved here from being heard is shown: why it could not start, or that it is
/// paused, gone or idle without a word.
pub proof fn silence_is_explained(t: TransferView, s: SessionView, parts: Seq<u64>)
    ensures
        ({
            let error = transfer_data(t, Some(s), parts).field("error"@);
            let gone = s.state == "closed"@ || s.state == "process_lost"@ || s.state == "failed"@;
            &&& s.startup_error is Some ==> error == Data::Text(s.startup_error->0)
            &&& s.startup_error is None && s.teleport_output ==> error is Null
            &&& s.startup_error is None && !s.teleport_output && s.queue_paused ==> error
                == Data::Text("paused_before_output"@)
            &&& s.startup_error is None && !s.teleport_output && !s.queue_paused && gone ==> error
                == Data::Text("cloud_process_unavailable"@)
            &&& s.startup_error is None && !s.teleport_output && !s.queue_paused && !gone && s.ready
                && s.current_request is None && s.queue.len() == 0 ==> error == Data::Text(
                "no_cloud_output"@,
            )
            &&& s.startup_error is None && !s.teleport_output && !s.queue_paused && !gone && (
            s.current_request is Some || s.queue.len() > 0) ==> error is Null
            &&& transfer_data(t, None, parts).field("error"@) is Null
        }),
{
    moving_words();
}

// Uploads.

/// A part of a file is taken exactly where the transfer goes on, it can be recorded, the file is one of
/// the transfer, and checksum and size are those that were announced and begun with.
pub proof fn parts_are_taken_of_the_right_file(
    t: TransferView,
    index: int,
    sha256: Seq<char>,
    size: Option<u64>,
    blocked: bool,
    recording: bool,
)
    requires
        transfer_sound(t),
        0 <= index,
    ensures
        ({
            let refused = upload_refused(t, index, sha256, size, blocked, recording);
            let file = t.manifest.files[index];
            let begun = t.arrivals[index];
            let whole = if size is Some {
                size->0
            } else {
                file.size
            };
            &&& refused is None ==> !t.cancelled && !blocked && recording && index
                < t.manifest.files.len() && byte_len(sha256) == 64 && (file.sha256.len() > 0
                ==> file.sha256 == sha256 && file.size == whole) && (begun.digest is Some
                ==> begun.digest == Some(sha256)) && (begun.size is Some ==> begun.size == Some(
                whole,
            )) && whole <= 4294967296
            &&& t.cancelled ==> refused is Some
            &&& !t.cancelled && !blocked && recording && index >= t.manifest.files.len() ==> refused
                == Some(ErrorView::NotFound)
            &&& refused is None ==> upload_size(t, index, size) == whole
        }),
{
}

/// The first part fixes the checksum and the size of its file, and of no other; later parts change
/// nothing.
pub proof fn first_parts_fix_their_file(t: TransferView, index: int, sha256: Seq<char>, size: u64, other: int)
    requires
        0 <= index < t.arrivals.len(),
        0 <= other < t.arrivals.len(),
    ensures
        ({
            let after = upload_begun(t, index, sha256, size);
            &&& t.arrivals[index].digest is None ==> after.arrivals[index].digest == Some(sha256)
                && after.arrivals[index].size == Some(size)
            &&& after.arrivals[index].path == t.arrivals[index].path
            &&& t.arrivals[index].digest is Some ==> after == t
            &&& other != index ==> after.arrivals[other] == t.arrivals[other]
            &&& after.manifest == t.manifest && after.cancelled == t.cancelled
            &&& after.arrivals.len() == t.arrivals.len()
        }),
{
}

/// A part is written where the file ends, compared where it was written before, and refused where it
/// would leave a gap, reach past the end, or reach only partly into what is new.
pub proof fn parts_fit_or_are_refused(offset: u64, count: usize, length: u64, size: u64)
    ensures
        ({
            let done = piece_for(offset, count, length, size);
            &&& done == Ok::<Piece, ErrorView>(Piece::Write) <==> offset == length && offset + count
                <= size
            &&& done == Ok::<Piece, ErrorView>(Piece::Compare) <==> offset < length && offset + count
                <= length && offset + count <= size
            &&& offset > length || offset + count > size ==> done is Err
            &&& offset < length && offset + count > length ==> done is Err
        }),
{
}

// Becoming a session.

/// A transfer becomes a session only where it goes on, its conversation and the contexts of its children
/// are all here, and its harness is configured; files beside the conversation are not waited for.
pub proof fn sessions_begin_with_their_text(t: TransferView, configured: bool)
    requires
        transfer_sound(t),
    ensures
        activation_refused(t, configured) is None <==> !t.cancelled && configured && forall|i: int|
            0 <= i < t.manifest.files.len() && ((#[trigger] t.manifest.files[i]).kind == "native"@
                || t.manifest.files[i].kind == "context"@) ==> t.arrivals[i].path is Some,
        t.cancelled ==> activation_refused(t, configured) == Some(
            ErrorView::Conflict("transfer cancelled"@),
        ),
{
    moving_words();
}

/// A transfer is taken over exactly where the service goes on, storage is safe, and no session holds its
/// conversation.
pub proof fn takeovers_need_a_free_conversation(
    l: LocalView,
    t: TransferView,
    stopping: bool,
    blocked: bool,
)
    ensures
        takeover_refused(l, t, stopping, blocked) is None <==> !stopping && !blocked && forall|
            id: Seq<char>,
        | #[trigger]
            l.sessions.contains_key(id) ==> l.sessions[id].native_id != Some(t.manifest.native_id),
{
    assert(forall|id: Seq<char>| #[trigger]
        l.sessions.contains_key(id) && l.sessions[id].native_id == Some(t.manifest.native_id)
            ==> owned(l.sessions, t.manifest.native_id));
}

/// The record of a move holds the conversation and its file, the start of the session with what was chosen
/// for it, and all messages: the handoff first, then each that waited, in order and under a name of its
/// own.
pub proof fn moves_bring_everything(
    t: TransferView,
    index: Seq<char>,
    native_path: Seq<char>,
    word: Seq<char>,
    i: int,
)
    requires
        0 <= i < t.manifest.queued.len(),
    ensures
        ({
            let m = t.manifest;
            let n = activation(t, index, native_path, word);
            let start = n.data.field("receipt"@);
            let list = n.data.field("prompts"@);
            let first = list->Array_0[0];
            let later = list->Array_0[i + 1];
            &&& n.kind == "teleport"@
            &&& n.data.field("native_id"@) == Data::Text(m.native_id)
            &&& n.data.field("native_path"@) == Data::Text(native_path)
            &&& start.field("request_id"@) == Data::Text(m.request_id)
            &&& start.field("command"@) == Data::Text("start"@)
            &&& start.field("state"@) == Data::Text("completed"@)
            &&& start.field("model"@) == Data::Text(m.model)
            &&& m.provider is Some ==> start.field("provider"@) == Data::Text(m.provider->0)
            &&& m.harness == Kind::Codex ==> start.field("input"@).field("harness"@) == Data::Text(
                "codex"@,
            )
            &&& m.harness == Kind::Pi ==> start.field("input"@).field("harness"@) == Data::Text(
                "pi"@,
            )
            &&& m.reasoning is Some ==> start.field("input"@).field("reasoning"@) == Data::Text(
                m.reasoning->0,
            )
            &&& list is Array && list->Array_0.len() == m.queued.len() + 1
            &&& first.field("command"@) == Data::Text("prompt"@)
            &&& first.field("state"@) == Data::Text("accepted"@)
            &&& first.field("input"@).field("teleport_handoff"@) == Data::Bool(true)
            &&& later.field("command"@) == Data::Text("prompt"@)
            &&& later.field("state"@) == Data::Text("accepted"@)
            &&& later.field("input"@).field("teleport_handoff"@) == Data::Bool(false)
            &&& m.queued[i] matches QueuedView::Text(text) ==> later.field("input"@).field("text"@)
                == Data::Text(text)
            &&& m.queued[i] matches QueuedView::Input { text, reasoning, service_tier }
                ==> later.field("input"@).field("text"@) == Data::Text(text) && (reasoning is Some
                ==> later.field("input"@).field("reasoning"@) == Data::Text(reasoning->0)) && (
            service_tier is Some ==> later.field("input"@).field("service_tier"@) == Data::Text(
                service_tier->0,
            ))
        }),
{
    moving_words();
    assert(t.manifest.queued[i + 1 - 1] == t.manifest.queued[i]);
}

/// The index lists every file but the conversation itself, with where it goes and where it came from.
pub proof fn the_index_lists_every_file(t: TransferView, destinations: Seq<Seq<char>>, count: int, i: int)
    requires
        0 <= i < count <= t.manifest.files.len(),
        t.manifest.files[i].kind != "native"@,
    ensures
        exists|k: int|
            0 <= k < file_index(t, destinations, count).len() && ({
                let entry = #[trigger] file_index(t, destinations, count)[k];
                &&& entry.field("path"@) == Data::Text(destinations[i])
                &&& entry.field("kind"@) == Data::Text(t.manifest.files[i].kind)
                &&& entry.field("symlink"@) == Data::Bool(t.manifest.files[i].symlink)
                &&& entry.field("size_hint"@) == uint(t.manifest.files[i].size)
                &&& t.manifest.files[i].origin is Some ==> entry.field("source"@) == Data::Text(
                    t.manifest.files[i].origin->0,
                )
                &&& t.manifest.files[i].origin is None ==> entry.field("source"@) == Data::Text(
                    t.manifest.files[i].path,
                )
            }),
    decreases count,
{
    moving_words();
    let all = file_index(t, destinations, count);
    let before = file_index(t, destinations, count - 1);
    if i == count - 1 {
        assert(all[all.len() - 1].field("path"@) == Data::Text(destinations[i]));
    } else {
        the_index_lists_every_file(t, destinations, count - 1, i);
        let k = choose|k: int|
            0 <= k < before.len() && ({
                let entry = #[trigger] before[k];
                &&& entry.field("path"@) == Data::Text(destinations[i])
                &&& entry.field("kind"@) == Data::Text(t.manifest.files[i].kind)
                &&& entry.field("symlink"@) == Data::Bool(t.manifest.files[i].symlink)
                &&& entry.field("size_hint"@) == uint(t.manifest.files[i].size)
                &&& t.manifest.files[i].origin is Some ==> entry.field("source"@) == Data::Text(
                    t.manifest.files[i].origin->0,
                )
                &&& t.manifest.files[i].origin is None ==> entry.field("source"@) == Data::Text(
                    t.manifest.files[i].path,
                )
            });
        assert(all[k] == before[k]);
    }
}

/// The session is told that its files are there exactly once all of them are, where some came beside the
/// conversation and it was not told before; a closed session is not told.
pub proof fn arrival_is_told_when_all_is_there(t: TransferView, s: SessionView)
    ensures
        ({
            let told = files_ready(t, Some(s));
            let request = "teleport_ready_"@ + t.manifest.request_id;
            let all = forall|i: int|
                0 <= i < t.arrivals.len() ==> (#[trigger] t.arrivals[i]).path is Some;
            let beside = exists|i: int|
                0 <= i < t.manifest.files.len() && ((#[trigger] t.manifest.files[i]).kind
                    == "project"@ || t.manifest.files[i].kind == "attachment"@);
            let due = all && beside && !s.receipts.contains_key(request);
            let closed = s.close_request is Some || s.state == "closed"@;
            &&& !due ==> told == Ok::<Option<NoteView>, ErrorView>(None)
            &&& due && closed ==> told is Err
            &&& due && !closed ==> (told matches Ok(Some(n)) && n.kind == "receipt"@ && n.data.field(
                "request_id"@,
            ) == Data::Text(request) && n.data.field("command"@) == Data::Text("prompt"@)
                && n.data.field("state"@) == Data::Text("accepted"@) && n.data.field("input"@).field(
                "teleport_handoff"@,
            ) == Data::Bool(true))
            &&& files_ready(t, None) == Ok::<Option<NoteView>, ErrorView>(None)
        }),
{
    moving_words();
}

/// A retry sends the handoff again, after words that warn of repeating work; it is not made where the session
/// was heard, or is at work.
pub proof fn retries_send_the_handoff_again(t: TransferView, s: SessionView, request: Seq<char>)
    ensures
        ({
            let again = retried(t, s, request);
            let first = "teleport_"@ + t.manifest.request_id + "_0"@;
            let resumes = s.queue_paused || s.startup_error is Some || s.receipts.contains_key(
                "teleport_resume_"@ + request,
            );
            let known = s.receipts.contains_key("teleport_retry_"@ + request);
            &&& s.teleport_output ==> (again matches Ok(None))
            &&& !resumes && !known && (s.current_request is Some || s.queue.len() > 0) ==> (again
                matches Ok(None))
            &&& !s.teleport_output && (resumes || known || (s.current_request is None
                && s.queue.len() == 0)) && !s.receipts.contains_key(first) ==> (again matches Err(
                ErrorView::NotFound,
            ))
            &&& !s.teleport_output && (resumes || known || (s.current_request is None
                && s.queue.len() == 0)) && s.receipts.contains_key(first) ==> (again matches Ok(
                Some(r),
            ) && r.request == "teleport_retry_"@ + request && (resumes ==> r.resume == Some(
                "teleport_resume_"@ + request,
            )) && (!resumes ==> r.resume is None))
        }),
{
}

// What can be moved.

/// Transfers are prepared of Codex and Pi only, where they are configured, and not where the service stops,
/// cannot record, is blocked, or has the session saved elsewhere.
pub proof fn transfers_are_prepared_where_they_can_run(m: ManifestView, now: Readiness)
    ensures
        prepare_refused(m, now) is None <==> !now.stopping && now.recording && now.configured
            && !now.blocked && !now.saved && (m.harness == Kind::Pi || (m.harness == Kind::Codex
            && m.provider is None)),
{
}

/// What is moved is described well: names, model, texts and files; each file stays in its folder, is of a
/// kind that is known, not too large, and named once.
pub proof fn manifests_are_sound(m: ManifestView, i: int, j: int)
    requires
        manifest_refused(m) is None,
        0 <= i < m.files.len(),
        0 <= j < i,
    ensures
        m.model.len() > 0,
        m.handoff.len() > 0 && byte_len(m.handoff) <= 32768,
        m.request_id.len() > 0 && byte_len(m.request_id) <= 64,
        m.native_id.len() > 0 && byte_len(m.native_id) <= 64,
        m.files[i].size <= 4294967296,
        m.files[i].path.len() > 0,
        !m.files[i].path.contains('\0'),
        m.files[i].kind == "native"@ || m.files[i].kind == "context"@ || m.files[i].kind
            == "project"@ || m.files[i].kind == "attachment"@,
        m.files[i].symlink ==> m.files[i].kind == "project"@,
        m.files[i].sha256.len() == 0 ==> m.files[i].kind == "project"@ || m.files[i].kind
            == "attachment"@,
        !(m.files[i].kind == m.files[j].kind && m.files[i].path == m.files[j].path),
{
    moving_words();
    if m.files[i].sha256.len() == 0 {
        assert(byte_len(m.files[i].sha256) == 0);
    }
}

/// The settings of the handoff are ones that its harness has: a level that the model of Codex or Pi
/// offers, and a tier that Codex alone may hurry.
pub proof fn moved_settings_exist(m: ManifestView, models: Option<Seq<ModelView>>)
    requires
        execution_refused(m, models) is None,
    ensures
        models is Some && m.reasoning is Some ==> exists|k: int|
            0 <= k < models->0.len() && (#[trigger] models->0[k]).model == m.model
                && models->0[k].reasoning_levels.contains(m.reasoning->0),
        models is Some ==> exists|k: int|
            0 <= k < models->0.len() && (#[trigger] models->0[k]).model == m.model,
        m.service_tier is Some ==> m.service_tier->0 == "default"@ || (m.service_tier->0 == "fast"@
            && m.harness == Kind::Codex),
{
    if models is Some {
        named_is_listed(models->0, m.model);
    }
}

proof fn named_is_listed(models: Seq<ModelView>, name: Seq<char>)
    requires
        super::teleport::model_named(models, name) is Some,
    ensures
        exists|k: int|
            0 <= k < models.len() && (#[trigger] models[k]).model == name && Some(models[k])
                == super::teleport::model_named(models, name),
    decreases models.len(),
{
    if models[0].model == name {
        assert(models[0].model == name);
    } else {
        let rest = models.skip(1);
        named_is_listed(rest, name);
        let k = choose|k: int|
            0 <= k < rest.len() && (#[trigger] rest[k]).model == name && Some(rest[k])
                == super::teleport::model_named(rest, name);
        assert(models[k + 1] == rest[k]);
    }
}

} // verus!
