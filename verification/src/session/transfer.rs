//! A transfer on its way: what has arrived, what is shown of it, and when it becomes a session.
use super::accounts::verdict;
use super::local::{Local, LocalView};
use super::query::{note, receipt_note, Note, NoteView};
use super::teleport::{
    entry_views, is_digest, is_extra, is_text_file, message_input, no_room, queued_input,
    FILE_LIMIT, Manifest, ManifestView,
};
use super::{
    accepted, receipt_json, Error, ErrorView, Receipt, ReceiptView, Session, SessionView,
    Workspace, WorkspaceView,
};
use crate::json::{no_json, object, opt_text, push_json, uint, values, Data, Json};
use crate::runtime::kind_name;
use crate::table::{in_order, is_order};
use crate::text::{
    all_text_in, chars_of, concat, concat3, decimal, decimal_of, opt, opt_copy, opt_slice,
    push_text, same, same_opt, size, Class,
};
use vstd::prelude::*;

verus! {

/// What is known of the arrival of one file.
#[derive(Debug)]
pub struct Arrival {
    /// Where the file was put, once it is complete.
    pub path: Option<String>,
    /// The checksum and the size that its upload began with.
    pub digest: Option<String>,
    pub size: Option<u64>,
}

/// The mathematical value of the arrival of one file.
pub struct ArrivalView {
    pub path: Option<Seq<char>>,
    pub digest: Option<Seq<char>>,
    pub size: Option<u64>,
}

impl View for Arrival {
    type V = ArrivalView;

    open spec fn view(&self) -> ArrivalView {
        ArrivalView { path: opt(self.path), digest: opt(self.digest), size: self.size }
    }
}

/// The views of arrivals.
pub open spec fn arrival_views(list: Seq<Arrival>) -> Seq<ArrivalView> {
    Seq::new(list.len(), |i: int| list[i]@)
}

/// A transfer: what is moved, where to, and how far it has come.
#[derive(Debug)]
pub struct Transfer {
    pub manifest: Manifest,
    pub workspace: Workspace,
    /// One for each file.
    pub arrivals: Vec<Arrival>,
    pub cancelled: bool,
}

/// The mathematical value of a transfer.
pub struct TransferView {
    pub manifest: ManifestView,
    pub workspace: WorkspaceView,
    pub arrivals: Seq<ArrivalView>,
    pub cancelled: bool,
}

impl View for Transfer {
    type V = TransferView;

    open spec fn view(&self) -> TransferView {
        TransferView {
            manifest: self.manifest@,
            workspace: self.workspace@,
            arrivals: arrival_views(self.arrivals@),
            cancelled: self.cancelled,
        }
    }
}

/// Each file of a transfer has its arrival.
pub open spec fn transfer_sound(t: TransferView) -> bool {
    t.arrivals.len() == t.manifest.files.len()
}

/// The session that a transfer becomes.
pub open spec fn transfer_session(id: Seq<char>) -> Seq<char> {
    "cr_teleport_"@ + id
}

/// The message that says that all files are there.
pub open spec fn ready_request(id: Seq<char>) -> Seq<char> {
    "teleport_ready_"@ + id
}

/// Nothing has arrived.
pub open spec fn nothing_arrived(count: nat) -> Seq<ArrivalView> {
    Seq::new(count, |i: int| ArrivalView { path: None, digest: None, size: None })
}

/// All files are complete.
pub open spec fn all_arrived(arrivals: Seq<ArrivalView>) -> bool {
    forall|i: int| 0 <= i < arrivals.len() ==> (#[trigger] arrivals[i]).path is Some
}

/// Some file arrives beside the conversation.
pub open spec fn has_extras(m: ManifestView) -> bool {
    exists|i: int| 0 <= i < m.files.len() && is_extra((#[trigger] m.files[i]).kind)
}

// What is shown of it.

/// The state of one file, as it is shown.
pub open spec fn file_state(t: TransferView, parts: Seq<u64>, i: int) -> Data {
    let arrival = t.arrivals[i];
    Data::Object(
        map![
            "index"@ => uint(i as u64),
            "offset"@ => uint(
                if arrival.path is Some {
                    match arrival.size {
                        Some(n) => n,
                        None => t.manifest.files[i].size,
                    }
                } else {
                    parts[i]
                },
            ),
            "complete"@ => Data::Bool(arrival.path is Some),
            "path"@ => opt_text(arrival.path)
        ],
    )
}

/// What keeps a transfer from showing its first output.
pub open spec fn transfer_error(session: Option<SessionView>) -> Option<Seq<char>> {
    match session {
        None => None,
        Some(s) => match s.startup_error {
            Some(e) => Some(e),
            None => if s.teleport_output {
                None
            } else if s.queue_paused {
                Some("paused_before_output"@)
            } else if s.state == "closed"@ || s.state == "process_lost"@ || s.state == "failed"@ {
                Some("cloud_process_unavailable"@)
            } else if s.ready && s.current_request is None && s.queue.len() == 0 {
                Some("no_cloud_output"@)
            } else {
                None
            },
        },
    }
}

/// The transfer is complete: its session has shown output, and was told of all the files.
pub open spec fn is_complete(t: TransferView, session: Option<SessionView>) -> bool {
    match session {
        None => false,
        Some(s) => s.teleport_output && (!has_extras(t.manifest) || s.receipts.contains_key(
            ready_request(t.manifest.request_id),
        )) && all_arrived(t.arrivals),
    }
}

/// How far a transfer has come.
pub open spec fn phase(t: TransferView, session: Option<SessionView>) -> Seq<char> {
    if is_complete(t, session) {
        "complete"@
    } else if session is Some {
        "running"@
    } else if t.cancelled {
        "cancelled"@
    } else {
        "uploading"@
    }
}

/// What is shown of a transfer. `parts` are the sizes of what has arrived of each file.
pub open spec fn transfer_data(t: TransferView, session: Option<SessionView>, parts: Seq<u64>) -> Data {
    let id = t.manifest.request_id;
    Data::Object(
        map![
            "request_id"@ => Data::Text(id),
            "session_id"@ => if session is Some {
                Data::Text(transfer_session(id))
            } else {
                Data::Null
            },
            "phase"@ => Data::Text(phase(t, session)),
            "output_started"@ => Data::Bool(session is Some && session->0.teleport_output),
            "files"@ => Data::Array(
                Seq::new(t.manifest.files.len(), |i: int| file_state(t, parts, i)),
            ),
            "error"@ => opt_text(transfer_error(session)),
            "workspace"@ => Data::Text(t.workspace.path)
        ],
    )
}

/// The view of an optional session.
pub open spec fn opt_session(s: Option<&Session>) -> Option<SessionView> {
    match s {
        Some(s) => Some(s@),
        None => None,
    }
}

impl Session {
    fn transfer_error(&self) -> (r: Option<String>)
        ensures
            opt(r) == transfer_error(Some(self@)),
    {
        proof {
            reveal(Session::snapshot);
        }
        if let Some(error) = &self.startup_error {
            return Some(error.clone());
        }
        assert(self@.queue.len() == self.queue@.len());
        let state = self.state.as_str();
        if self.teleport_output {
            None
        } else if self.queue_paused {
            Some("paused_before_output".to_owned())
        } else if same(state, "closed") || same(state, "process_lost") || same(state, "failed") {
            Some("cloud_process_unavailable".to_owned())
        } else if self.ready && self.current_request.is_none() && self.queue.len() == 0 {
            Some("no_cloud_output".to_owned())
        } else {
            None
        }
    }

    fn shows_output(&self) -> (r: bool)
        ensures
            r == self@.teleport_output,
    {
        proof {
            reveal(Session::snapshot);
        }
        self.teleport_output
    }
}

impl Transfer {
    /// A transfer of which nothing has arrived.
    pub fn new(manifest: Manifest, workspace: Workspace) -> (r: Transfer)
        ensures
            r@ == (TransferView {
                manifest: manifest@,
                workspace: workspace@,
                arrivals: nothing_arrived(manifest@.files.len()),
                cancelled: false,
            }),
            transfer_sound(r@),
    {
        let mut arrivals: Vec<Arrival> = Vec::new();
        let count = manifest.files.len();
        let ghost all = nothing_arrived(count as nat);
        assert(arrival_views(arrivals@) =~= all.take(0));
        let mut i: usize = 0;
        while i < count
            invariant
                i <= count,
                all == nothing_arrived(count as nat),
                arrival_views(arrivals@) == all.take(i as int),
            decreases count - i,
        {
            let ghost was = arrival_views(arrivals@);
            let arrival = Arrival { path: None, digest: None, size: None };
            assert(arrival@ == all[i as int]);
            arrivals.push(arrival);
            assert(arrival_views(arrivals@) =~= was.push(all[i as int]));
            assert(all.take(i + 1) =~= all.take(i as int).push(all[i as int]));
            i += 1;
        }
        assert(all.take(i as int) =~= all);
        Transfer { manifest, workspace, arrivals, cancelled: false }
    }

    /// Whether a request to prepare a transfer repeats the one that this transfer was made for.
    pub fn check_repeated(&self, manifest: &Manifest) -> (r: Result<(), Error>)
        ensures
            verdict(r) == if self@.manifest == manifest@ {
                None
            } else {
                Some(ErrorView::Conflict("request_id already has different content"@))
            },
    {
        if self.manifest.same(manifest) {
            return Ok(());
        }
        Err(Error::conflict("request_id already has different content"))
    }

    /// Whether all files are complete.
    pub fn all_arrived(&self) -> (r: bool)
        ensures
            r == all_arrived(self@.arrivals),
    {
        let ghost all = arrival_views(self.arrivals@);
        let mut i: usize = 0;
        while i < self.arrivals.len()
            invariant
                i <= self.arrivals.len(),
                all == arrival_views(self.arrivals@),
                forall|j: int| 0 <= j < i ==> (#[trigger] all[j]).path is Some,
            decreases self.arrivals.len() - i,
        {
            assert(all[i as int] == self.arrivals@[i as int]@);
            if self.arrivals[i].path.is_none() {
                return false;
            }
            i += 1;
        }
        true
    }

    /// Whether some file arrives beside the conversation.
    pub fn has_extras(&self) -> (r: bool)
        ensures
            r == has_extras(self@.manifest),
    {
        let ghost all = entry_views(self.manifest.files@);
        let mut i: usize = 0;
        while i < self.manifest.files.len()
            invariant
                i <= self.manifest.files.len(),
                all == entry_views(self.manifest.files@),
                forall|j: int| 0 <= j < i ==> !is_extra((#[trigger] all[j]).kind),
            decreases self.manifest.files.len() - i,
        {
            let kind = self.manifest.files[i].kind.as_str();
            assert(all[i as int] == self.manifest.files@[i as int]@);
            if same(kind, "project") || same(kind, "attachment") {
                return true;
            }
            i += 1;
        }
        false
    }

    fn file_states(&self, parts: &Vec<u64>) -> (r: Vec<Json>)
        requires
            transfer_sound(self@),
            parts@.len() == self@.manifest.files.len(),
        ensures
            values(r@) == Seq::new(
                self@.manifest.files.len(),
                |i: int| file_state(self@, parts@, i),
            ),
    {
        let ghost all = Seq::new(
            self@.manifest.files.len(),
            |i: int| file_state(self@, parts@, i),
        );
        let mut out = no_json();
        let mut i: usize = 0;
        assert(values(out@) =~= all.take(0));
        while i < self.manifest.files.len()
            invariant
                i <= self.manifest.files.len(),
                transfer_sound(self@),
                parts@.len() == self@.manifest.files.len(),
                all == Seq::new(
                    self@.manifest.files.len(),
                    |i: int| file_state(self@, parts@, i),
                ),
                values(out@) == all.take(i as int),
            decreases self.manifest.files.len() - i,
        {
            let arrival = &self.arrivals[i];
            assert(self@.arrivals[i as int] == arrival@);
            assert(self@.manifest.files[i as int] == self.manifest.files@[i as int]@);
            let done = arrival.path.is_some();
            let offset = if done {
                match arrival.size {
                    Some(n) => n,
                    None => self.manifest.files[i].size,
                }
            } else {
                parts[i]
            };
            let state = Json::Object(
                object().with("index", Json::uint(i as u64)).with(
                    "offset",
                    Json::uint(offset),
                ).with("complete", Json::Bool(done)).with(
                    "path",
                    Json::opt_text(opt_slice(&arrival.path)),
                ),
            );
            assert(state@ == all[i as int]);
            push_json(&mut out, state);
            assert(all.take(i + 1) =~= all.take(i as int).push(all[i as int]));
            i += 1;
        }
        assert(all.take(i as int) =~= all);
        out
    }

    /// What is shown of the transfer.
    pub fn show(&self, session: Option<&Session>, parts: &Vec<u64>) -> (r: Json)
        requires
            transfer_sound(self@),
            parts@.len() == self@.manifest.files.len(),
        ensures
            r@ == transfer_data(self@, opt_session(session), parts@),
    {
        let id = self.manifest.request_id.as_str();
        let files = self.file_states(parts);
        let (name, output, error, complete) = match session {
            None => (Json::Null, false, None, false),
            Some(s) => {
                let output = s.shows_output();
                let told = !self.has_extras() || s.knows(concat("teleport_ready_", id).as_str());
                (
                    Json::text(concat("cr_teleport_", id).as_str()),
                    output,
                    s.transfer_error(),
                    output && told && self.all_arrived(),
                )
            },
        };
        let phase = if complete {
            "complete"
        } else if session.is_some() {
            "running"
        } else if self.cancelled {
            "cancelled"
        } else {
            "uploading"
        };
        Json::Object(
            object().with_text("request_id", id).with("session_id", name).with_text(
                "phase",
                phase,
            ).with("output_started", Json::Bool(output)).with("files", Json::Array(files)).with(
                "error",
                Json::opt_text(opt_slice(&error)),
            ).with_text("workspace", self.workspace.path.as_str()),
        )
    }
}

// The upload of a file.

/// A part of a file is taken in, or why it is not. The checksum and the size of a file are fixed by
/// the first of its parts.
pub open spec fn upload_refused(
    t: TransferView,
    index: int,
    sha256: Seq<char>,
    size: Option<u64>,
    blocked: bool,
    recording: bool,
) -> Option<ErrorView> {
    if t.cancelled {
        Some(ErrorView::Conflict("transfer cancelled"@))
    } else if blocked || !recording {
        Some(no_room())
    } else if index >= t.manifest.files.len() {
        Some(ErrorView::NotFound)
    } else {
        let file = t.manifest.files[index];
        let arrival = t.arrivals[index];
        let whole = upload_size(t, index, size);
        if !is_digest(sha256) || (file.sha256.len() > 0 && file.sha256 != sha256) || (
        arrival.digest is Some && arrival.digest != Some(sha256)) {
            Some(ErrorView::Conflict("upload checksum changed"@))
        } else if whole > FILE_LIMIT || (file.sha256.len() > 0 && whole != file.size) || (
        arrival.size is Some && arrival.size != Some(whole)) {
            Some(ErrorView::Conflict("invalid upload offset"@))
        } else {
            None
        }
    }
}

/// The size of a file: the one that is given, or the one that was announced.
pub open spec fn upload_size(t: TransferView, index: int, size: Option<u64>) -> u64 {
    match size {
        Some(n) => n,
        None => t.manifest.files[index].size,
    }
}

/// The transfer, once the upload of a file has begun.
pub open spec fn upload_begun(
    t: TransferView,
    index: int,
    sha256: Seq<char>,
    size: u64,
) -> TransferView {
    if t.arrivals[index].digest is Some {
        t
    } else {
        TransferView {
            arrivals: t.arrivals.update(
                index,
                ArrivalView {
                    digest: Some(sha256),
                    size: Some(size),
                    ..t.arrivals[index]
                },
            ),
            ..t
        }
    }
}

/// What the upload of a part comes to.
#[derive(Clone, Copy, PartialEq, Eq, Structural, Debug)]
pub struct Upload {
    /// The size of the whole file.
    pub size: u64,
    /// The transfer has changed, and is to be saved.
    pub begun: bool,
    /// The file is complete already.
    pub complete: bool,
}

impl Transfer {
    /// Begins or continues the upload of a file.
    pub fn upload(
        &mut self,
        index: usize,
        sha256: &str,
        size: Option<u64>,
        blocked: bool,
        recording: bool,
    ) -> (r: Result<Upload, Error>)
        requires
            transfer_sound(old(self)@),
        ensures
            transfer_sound(final(self)@),
            match r {
                Err(e) => final(self)@ == old(self)@ && upload_refused(
                    old(self)@,
                    index as int,
                    sha256@,
                    size,
                    blocked,
                    recording,
                ) == Some(e@),
                Ok(upload) => upload_refused(
                    old(self)@,
                    index as int,
                    sha256@,
                    size,
                    blocked,
                    recording,
                ) is None && upload == (Upload {
                    size: upload_size(old(self)@, index as int, size),
                    begun: old(self)@.arrivals[index as int].digest is None,
                    complete: old(self)@.arrivals[index as int].path is Some,
                }) && final(self)@ == upload_begun(
                    old(self)@,
                    index as int,
                    sha256@,
                    upload_size(old(self)@, index as int, size),
                ),
            },
    {
        if self.cancelled {
            return Err(Error::conflict("transfer cancelled"));
        }
        if blocked || !recording {
            return Err(Error::Storage("transfers cannot be recorded now".to_owned()));
        }
        if index >= self.manifest.files.len() {
            return Err(Error::NotFound);
        }
        assert(self@.manifest.files[index as int] == self.manifest.files@[index as int]@);
        assert(self@.arrivals[index as int] == self.arrivals@[index as int]@);
        let file = &self.manifest.files[index];
        let fixed = chars_of(file.sha256.as_str()).len() > 0;
        let other_digest = match &self.arrivals[index].digest {
            Some(d) => !same(d.as_str(), sha256),
            None => false,
        };
        if !(crate::text::size(sha256) == 64 && all_text_in(sha256, Class::Hex, "")) || (fixed
            && !same(file.sha256.as_str(), sha256)) || other_digest {
            return Err(Error::conflict("upload checksum changed"));
        }
        let whole = match size {
            Some(n) => n,
            None => file.size,
        };
        let other_size = match self.arrivals[index].size {
            Some(n) => n != whole,
            None => false,
        };
        if whole > FILE_LIMIT || (fixed && whole != file.size) || other_size {
            return Err(Error::conflict("invalid upload offset"));
        }
        let begun = self.arrivals[index].digest.is_none();
        let complete = self.arrivals[index].path.is_some();
        if begun {
            let path = opt_copy(&self.arrivals[index].path);
            let arrival = Arrival { path, digest: Some(sha256.to_owned()), size: Some(whole) };
            let ghost changed = arrival@;
            self.arrivals.set(index, arrival);
            assert(arrival_views(self.arrivals@) =~= old(self)@.arrivals.update(
                index as int,
                changed,
            ));
        }
        Ok(Upload { size: whole, begun, complete })
    }

    /// A file is complete, and was put in its place.
    pub fn place(&mut self, index: usize, path: &str)
        requires
            transfer_sound(old(self)@),
            index < old(self)@.arrivals.len(),
        ensures
            transfer_sound(final(self)@),
            final(self)@ == (TransferView {
                arrivals: old(self)@.arrivals.update(
                    index as int,
                    ArrivalView {
                        path: Some(path@),
                        ..old(self)@.arrivals[index as int]
                    },
                ),
                ..old(self)@
            }),
    {
        assert(self@.arrivals[index as int] == self.arrivals@[index as int]@);
        let digest = opt_copy(&self.arrivals[index].digest);
        let size = self.arrivals[index].size;
        let arrival = Arrival { path: Some(path.to_owned()), digest, size };
        let ghost changed = arrival@;
        self.arrivals.set(index, arrival);
        assert(arrival_views(self.arrivals@) =~= old(self)@.arrivals.update(
            index as int,
            changed,
        ));
    }
}

/// What is done with a part of a file.
#[derive(Clone, Copy, PartialEq, Eq, Structural, Debug)]
pub enum Piece {
    /// It is written at the end.
    Write,
    /// It came before, and is compared with what was written.
    Compare,
}

/// What is done with a part of a file, of which `length` bytes are written.
pub open spec fn piece_for(offset: u64, count: usize, length: u64, size: u64) -> Result<
    Piece,
    ErrorView,
> {
    if offset + count > u64::MAX || offset + count > size || offset > length {
        Err(ErrorView::Conflict("invalid upload offset"@))
    } else if offset == length {
        Ok(Piece::Write)
    } else if offset + count > length {
        Err(ErrorView::Conflict("overlapping upload"@))
    } else {
        Ok(Piece::Compare)
    }
}

/// What is done with a part of a file, of which `length` bytes are written.
pub fn place_piece(offset: u64, count: usize, length: u64, size: u64) -> (r: Result<Piece, Error>)
    ensures
        match r {
            Ok(p) => piece_for(offset, count, length, size) == Ok::<Piece, ErrorView>(p),
            Err(e) => piece_for(offset, count, length, size) == Err::<Piece, ErrorView>(e@),
        },
{
    let end = match offset.checked_add(count as u64) {
        Some(end) => end,
        None => {
            return Err(Error::conflict("invalid upload offset"));
        },
    };
    if end > size || offset > length {
        return Err(Error::conflict("invalid upload offset"));
    }
    if offset < length {
        if end > length {
            return Err(Error::conflict("overlapping upload"));
        }
        return Ok(Piece::Compare);
    }
    Ok(Piece::Write)
}

/// A part that came before is the same.
pub fn compare_piece(written: &[u8], piece: &[u8]) -> (r: Result<(), Error>)
    ensures
        verdict(r) == if written@ == piece@ {
            None
        } else {
            Some(ErrorView::Conflict("upload content changed"@))
        },
{
    if written.len() != piece.len() {
        return Err(Error::conflict("upload content changed"));
    }
    let mut i: usize = 0;
    while i < written.len()
        invariant
            i <= written.len(),
            written@.len() == piece@.len(),
            forall|j: int| 0 <= j < i ==> written@[j] == piece@[j],
        decreases written.len() - i,
    {
        if written[i] != piece[i] {
            return Err(Error::conflict("upload content changed"));
        }
        i += 1;
    }
    assert(written@ =~= piece@);
    Ok(())
}

// The messages of a transfer.

/// The text of the message that says that all files are there.
pub open spec fn arrival_text() -> Seq<char> {
    "[Teleport upload update] All handoff files and attachments have arrived at the locations listed in your handoff. Conflicting cloud files were preserved; incoming versions remain in the transfer folder. Continue any task that was waiting for these files. Do not repeat completed work or uncertain tool actions."@
}

/// The message that says that all files are there.
pub open spec fn arrival_receipt(m: ManifestView) -> ReceiptView {
    accepted(
        ready_request(m.request_id),
        "prompt"@,
        Data::Object(
            map![
                "text"@ => Data::Text(arrival_text()),
                "teleport_handoff"@ => Data::Bool(true),
                "reasoning"@ => opt_text(m.reasoning),
                "service_tier"@ => opt_text(m.service_tier)
            ],
        ),
    )
}

/// What the session of a transfer is told once all its files are there: once, and not when it is
/// closed.
pub open spec fn files_ready(t: TransferView, session: Option<SessionView>) -> Result<
    Option<NoteView>,
    ErrorView,
> {
    match session {
        None => Ok(None),
        Some(s) => if !all_arrived(t.arrivals) || !has_extras(t.manifest)
            || s.receipts.contains_key(ready_request(t.manifest.request_id)) {
            Ok(None)
        } else if s.close_request is Some || s.state == "closed"@ {
            Err(ErrorView::Conflict("cloud session is closed"@))
        } else {
            Ok(Some(receipt_note(arrival_receipt(t.manifest))))
        },
    }
}

/// The view of an optional note.
pub open spec fn opt_note(n: Option<Note>) -> Option<NoteView> {
    match n {
        Some(n) => Some(n@),
        None => None,
    }
}

/// What a retry of a transfer comes to.
#[derive(Debug)]
pub struct Retry {
    /// The session is resumed first, by this request.
    pub resume: Option<String>,
    pub request: String,
    pub input: Json,
}

/// The mathematical value of what a retry comes to.
pub struct RetryView {
    pub resume: Option<Seq<char>>,
    pub request: Seq<char>,
    pub input: Data,
}

impl View for Retry {
    type V = RetryView;

    open spec fn view(&self) -> RetryView {
        RetryView { resume: opt(self.resume), request: self.request@, input: self.input@ }
    }
}

/// The view of an optional retry.
pub open spec fn opt_retry(r: Option<Retry>) -> Option<RetryView> {
    match r {
        Some(r) => Some(r@),
        None => None,
    }
}

/// The words before the handoff that is tried again.
pub open spec fn retry_words() -> Seq<char> {
    "[Explicit Teleport retry] Inspect the saved context and any provider errors. Continue only unfinished work; never repeat completed or uncertain tool actions. Queued follow-ups are separate requests, not instructions to replay from the handoff log.\n\n"@
}

/// What a retry of a transfer comes to. A session that has shown output, or that is at work, is not
/// disturbed.
pub open spec fn retried(t: TransferView, s: SessionView, request: Seq<char>) -> Result<
    Option<RetryView>,
    ErrorView,
> {
    let resume_id = "teleport_resume_"@ + request;
    let prompt_id = "teleport_retry_"@ + request;
    let first = "teleport_"@ + t.manifest.request_id + "_0"@;
    let resume = s.queue_paused || s.startup_error is Some || s.receipts.contains_key(resume_id);
    if s.teleport_output || (!resume && (s.current_request is Some || s.queue.len() > 0)
        && !s.receipts.contains_key(prompt_id)) {
        Ok(None)
    } else if !s.receipts.contains_key(first) {
        Err(ErrorView::NotFound)
    } else {
        let input = s.receipts[first].input;
        Ok(
            Some(
                RetryView {
                    resume: if resume {
                        Some(resume_id)
                    } else {
                        None
                    },
                    request: prompt_id,
                    input: input.with(
                        "text"@,
                        Data::Text(retry_words() + input.field("text"@).text_or_empty()),
                    ),
                },
            ),
        )
    }
}

impl Session {
    fn takes_no_more(&self) -> (r: bool)
        ensures
            r == (self@.close_request is Some || self@.state == "closed"@),
    {
        proof {
            reveal(Session::snapshot);
        }
        self.close_request.is_some() || same(self.state.as_str(), "closed")
    }
}

impl Transfer {
    /// Tells the session of the transfer once that all its files are there.
    pub fn files_ready(&self, session: Option<&Session>) -> (r: Result<Option<Note>, Error>)
        ensures
            match r {
                Ok(n) => files_ready(self@, opt_session(session)) == Ok::<
                    Option<NoteView>,
                    ErrorView,
                >(opt_note(n)),
                Err(e) => files_ready(self@, opt_session(session)) == Err::<
                    Option<NoteView>,
                    ErrorView,
                >(e@),
            },
    {
        let s = match session {
            Some(s) => s,
            None => {
                return Ok(None);
            },
        };
        if !self.all_arrived() || !self.has_extras() {
            return Ok(None);
        }
        let request = concat("teleport_ready_", self.manifest.request_id.as_str());
        if s.knows(request.as_str()) {
            return Ok(None);
        }
        if s.takes_no_more() {
            return Err(Error::conflict("cloud session is closed"));
        }
        let input = Json::Object(
            object().with_text(
                "text",
                "[Teleport upload update] All handoff files and attachments have arrived at the locations listed in your handoff. Conflicting cloud files were preserved; incoming versions remain in the transfer folder. Continue any task that was waiting for these files. Do not repeat completed work or uncertain tool actions.",
            ).with("teleport_handoff", Json::Bool(true)).with(
                "reasoning",
                Json::opt_text(opt_slice(&self.manifest.reasoning)),
            ).with("service_tier", Json::opt_text(opt_slice(&self.manifest.service_tier))),
        );
        let receipt = Receipt::accepted(request.as_str(), "prompt", input);
        Ok(Some(Note::receipt(&receipt)))
    }

    /// What a retry of the transfer comes to.
    pub fn retry(&self, s: &Session, request: &str) -> (r: Result<Option<Retry>, Error>)
        ensures
            match r {
                Ok(x) => retried(self@, s@, request@) == Ok::<Option<RetryView>, ErrorView>(
                    opt_retry(x),
                ),
                Err(e) => retried(self@, s@, request@) == Err::<Option<RetryView>, ErrorView>(
                    e@,
                ),
            },
    {
        proof {
            reveal(Session::snapshot);
        }
        let resume_id = concat("teleport_resume_", request);
        let prompt_id = concat("teleport_retry_", request);
        let first = concat3("teleport_", self.manifest.request_id.as_str(), "_0");
        let resume = s.queue_paused || s.startup_error.is_some() || s.receipts.contains(
            resume_id.as_str(),
        );
        assert(s@.queue.len() == s.queue@.len());
        if s.teleport_output || (!resume && (s.current_request.is_some() || s.queue.len() > 0)
            && !s.receipts.contains(prompt_id.as_str())) {
            return Ok(None);
        }
        match s.receipts.get(first.as_str()) {
            None => Err(Error::NotFound),
            Some(receipt) => {
                let mut input = receipt.input.duplicate();
                let text = concat(
                    "[Explicit Teleport retry] Inspect the saved context and any provider errors. Continue only unfinished work; never repeat completed or uncertain tool actions. Queued follow-ups are separate requests, not instructions to replay from the handoff log.\n\n",
                    receipt.input.field("text").text_or_empty(),
                );
                input.put("text", Json::text(text.as_str()));
                Ok(
                    Some(
                        Retry {
                            resume: if resume {
                                Some(resume_id)
                            } else {
                                None
                            },
                            request: prompt_id,
                            input,
                        },
                    ),
                )
            },
        }
    }

    /// Cancels the transfer. One that has become a session can only be stopped.
    pub fn cancel(&mut self, started: bool) -> (r: Result<(), Error>)
        ensures
            verdict(r) == if started {
                Some(
                    ErrorView::Conflict(
                        "cloud execution already owns this transfer; use Stop"@,
                    ),
                )
            } else {
                None
            },
            final(self)@ == (TransferView {
                cancelled: old(self)@.cancelled || !started,
                ..old(self)@
            }),
    {
        if started {
            return Err(
                Error::conflict("cloud execution already owns this transfer; use Stop"),
            );
        }
        self.cancelled = true;
        Ok(())
    }
}

// The activation.

/// Some of the text of the conversation has not arrived.
pub open spec fn text_missing(t: TransferView) -> bool {
    exists|i: int|
        0 <= i < t.manifest.files.len() && is_text_file((#[trigger] t.manifest.files[i]).kind)
            && t.arrivals[i].path is None
}

/// Why a transfer cannot become a session yet.
pub open spec fn activation_refused(t: TransferView, configured: bool) -> Option<ErrorView> {
    if t.cancelled {
        Some(ErrorView::Conflict("transfer cancelled"@))
    } else if text_missing(t) {
        Some(ErrorView::Conflict("session text is still uploading"@))
    } else if !configured {
        Some(ErrorView::Conflict("harness is not configured"@))
    } else {
        None
    }
}

/// What is said of a file that arrives beside the conversation, or in it.
pub open spec fn index_entry(t: TransferView, destinations: Seq<Seq<char>>, i: int) -> Data {
    let file = t.manifest.files[i];
    Data::Object(
        map![
            "source"@ => Data::Text(
                match file.origin {
                    Some(o) => o,
                    None => file.path,
                },
            ),
            "kind"@ => Data::Text(file.kind),
            "symlink"@ => Data::Bool(file.symlink),
            "path"@ => Data::Text(destinations[i]),
            "size_hint"@ => uint(file.size)
        ],
    )
}

/// The index of the first so many files, the conversation itself left out.
pub open spec fn file_index(t: TransferView, destinations: Seq<Seq<char>>, count: int) -> Seq<Data>
    decreases count,
{
    if count <= 0 {
        Seq::empty()
    } else if t.manifest.files[count - 1].kind == "native"@ {
        file_index(t, destinations, count - 1)
    } else {
        file_index(t, destinations, count - 1).push(index_entry(t, destinations, count - 1))
    }
}

/// The first message of a conversation that has moved.
pub open spec fn handoff_text(t: TransferView, index: Seq<char>) -> Seq<char> {
    "[Teleport handoff]\n"@ + t.manifest.handoff + "\n\nCloud workspace: "@ + t.workspace.path
        + "\nThe local executor and its children are stopped. You are the only continuing parent. Complete their combined work. Old Mac paths, GUI tools and local-only instructions are not usable here. Use your current cloud tools. Never repeat an uncertain tool action blindly. Project dependencies are yours to resolve within existing permissions.\nFull file index: "@
        + index
        + ". Child context files are already available. Project files and attachments are uploading separately and might never arrive if the laptop disconnects. The index lists expected destinations, not proof of arrival: check whether each needed file exists. Work on whatever you can, and wait only when an essential file is missing. Different cloud originals are never overwritten; incoming versions remain at the indexed paths. An upload-completion follow-up will let you continue any blocked work.\n"@
}

/// The messages of a conversation that has moved: the handoff, then what waits.
pub open spec fn moved_message(t: TransferView, index: Seq<char>, i: int) -> Data {
    let m = t.manifest;
    let input = if i == 0 {
        message_input(handoff_text(t, index), m.reasoning, m.service_tier)
    } else {
        queued_input(m.queued[i - 1])
    };
    receipt_json(
        accepted(
            "teleport_"@ + m.request_id + "_"@ + decimal(i as nat),
            "prompt"@,
            input.with("teleport_handoff"@, Data::Bool(i == 0)),
        ),
    )
}

/// The start of a session that has moved here.
pub open spec fn moved_receipt(t: TransferView, word: Seq<char>) -> ReceiptView {
    let m = t.manifest;
    ReceiptView {
        request_id: m.request_id,
        command: "start"@,
        input: Data::Object(
            map![
                "harness"@ => Data::Text(kind_name(m.harness, word)),
                "reasoning"@ => opt_text(m.reasoning),
                "teleport"@ => Data::Text(m.request_id),
                "command_guard_enabled"@ => match m.command_guard_enabled {
                    Some(b) => Data::Bool(b),
                    None => Data::Null,
                }
            ],
        ),
        state: "completed"@,
        model: Some(m.model),
        provider: m.provider,
        workspace: Some(t.workspace),
        error: None,
    }
}

/// The one record that makes a transfer a session: all that waits, and who owns it now.
pub open spec fn activation(
    t: TransferView,
    index: Seq<char>,
    native_path: Seq<char>,
    word: Seq<char>,
) -> NoteView {
    note(
        "teleport"@,
        Data::Object(
            map![
                "receipt"@ => receipt_json(moved_receipt(t, word)),
                "prompts"@ => Data::Array(
                    Seq::new(
                        (t.manifest.queued.len() + 1) as nat,
                        |i: int| moved_message(t, index, i),
                    ),
                ),
                "native_id"@ => Data::Text(t.manifest.native_id),
                "native_path"@ => Data::Text(native_path)
            ],
        ),
    )
}

/// A conversation belongs to a session already.
pub open spec fn owned(sessions: Map<Seq<char>, SessionView>, native: Seq<char>) -> bool {
    exists|id: Seq<char>| #[trigger]
        sessions.contains_key(id) && sessions[id].native_id == Some(native)
}

/// Why a transfer cannot become a session now.
pub open spec fn takeover_refused(l: LocalView, t: TransferView, stopping: bool, blocked: bool) -> Option<
    ErrorView,
> {
    if stopping || blocked {
        Some(no_room())
    } else if owned(l.sessions, t.manifest.native_id) {
        Some(ErrorView::Conflict("native conversation already belongs to a cloud session"@))
    } else {
        None
    }
}

/// The place of the conversation among the files.
pub open spec fn native_place(files: Seq<super::teleport::EntryView>, i: int) -> bool {
    0 <= i < files.len() && files[i].kind == "native"@ && forall|j: int|
        0 <= j < i ==> (#[trigger] files[j]).kind != "native"@
}

impl Transfer {
    fn misses_text(&self) -> (r: bool)
        requires
            transfer_sound(self@),
        ensures
            r == text_missing(self@),
    {
        let ghost files = entry_views(self.manifest.files@);
        let ghost arrivals = arrival_views(self.arrivals@);
        let mut i: usize = 0;
        while i < self.manifest.files.len()
            invariant
                i <= self.manifest.files.len(),
                transfer_sound(self@),
                files == entry_views(self.manifest.files@),
                arrivals == arrival_views(self.arrivals@),
                forall|j: int|
                    0 <= j < i ==> !(is_text_file((#[trigger] files[j]).kind) && arrivals[j].path
                        is None),
            decreases self.manifest.files.len() - i,
        {
            assert(files[i as int] == self.manifest.files@[i as int]@);
            assert(arrivals[i as int] == self.arrivals@[i as int]@);
            let kind = self.manifest.files[i].kind.as_str();
            if (same(kind, "native") || same(kind, "context")) && self.arrivals[i].path.is_none() {
                return true;
            }
            i += 1;
        }
        false
    }

    /// Why the transfer cannot become a session yet.
    pub fn check_activation(&self, configured: bool) -> (r: Result<(), Error>)
        requires
            transfer_sound(self@),
        ensures
            verdict(r) == activation_refused(self@, configured),
    {
        if self.cancelled {
            return Err(Error::conflict("transfer cancelled"));
        }
        if self.misses_text() {
            return Err(Error::conflict("session text is still uploading"));
        }
        if !configured {
            return Err(Error::conflict("harness is not configured"));
        }
        Ok(())
    }

    /// The place of the conversation among the files.
    pub fn native_index(&self) -> (r: Option<usize>)
        ensures
            match r {
                Some(i) => native_place(self@.manifest.files, i as int),
                None => forall|j: int|
                    0 <= j < self@.manifest.files.len() ==> (
                    #[trigger] self@.manifest.files[j]).kind != "native"@,
            },
    {
        let ghost files = entry_views(self.manifest.files@);
        let mut i: usize = 0;
        while i < self.manifest.files.len()
            invariant
                i <= self.manifest.files.len(),
                files == entry_views(self.manifest.files@),
                forall|j: int| 0 <= j < i ==> (#[trigger] files[j]).kind != "native"@,
            decreases self.manifest.files.len() - i,
        {
            assert(files[i as int] == self.manifest.files@[i as int]@);
            if same(self.manifest.files[i].kind.as_str(), "native") {
                return Some(i);
            }
            i += 1;
        }
        None
    }

    /// The index of the files. `destinations` says where each goes.
    pub fn index(&self, destinations: &Vec<String>) -> (r: Vec<Json>)
        requires
            destinations@.len() == self@.manifest.files.len(),
        ensures
            values(r@) == file_index(
                self@,
                crate::text::views(destinations@),
                self@.manifest.files.len() as int,
            ),
    {
        let ghost places = crate::text::views(destinations@);
        let mut out = no_json();
        let mut i: usize = 0;
        while i < self.manifest.files.len()
            invariant
                i <= self.manifest.files.len(),
                destinations@.len() == self@.manifest.files.len(),
                places == crate::text::views(destinations@),
                values(out@) == file_index(self@, places, i as int),
            decreases self.manifest.files.len() - i,
        {
            let file = &self.manifest.files[i];
            assert(self@.manifest.files[i as int] == file@);
            assert(places[i as int] == destinations@[i as int]@);
            if !same(file.kind.as_str(), "native") {
                let source = match &file.origin {
                    Some(o) => o.as_str(),
                    None => file.path.as_str(),
                };
                push_json(
                    &mut out,
                    Json::Object(
                        object().with_text("source", source).with_text(
                            "kind",
                            file.kind.as_str(),
                        ).with("symlink", Json::Bool(file.symlink)).with_text(
                            "path",
                            destinations[i].as_str(),
                        ).with("size_hint", Json::uint(file.size)),
                    ),
                );
            }
            i += 1;
        }
        out
    }

    fn handoff(&self, index: &str) -> (r: String)
        ensures
            r@ == handoff_text(self@, index@),
    {
        let mut text = concat3(
            "[Teleport handoff]\n",
            self.manifest.handoff.as_str(),
            "\n\nCloud workspace: ",
        );
        push_text(&mut text, self.workspace.path.as_str());
        push_text(
            &mut text,
            "\nThe local executor and its children are stopped. You are the only continuing parent. Complete their combined work. Old Mac paths, GUI tools and local-only instructions are not usable here. Use your current cloud tools. Never repeat an uncertain tool action blindly. Project dependencies are yours to resolve within existing permissions.\nFull file index: ",
        );
        push_text(&mut text, index);
        push_text(
            &mut text,
            ". Child context files are already available. Project files and attachments are uploading separately and might never arrive if the laptop disconnects. The index lists expected destinations, not proof of arrival: check whether each needed file exists. Work on whatever you can, and wait only when an essential file is missing. Different cloud originals are never overwritten; incoming versions remain at the indexed paths. An upload-completion follow-up will let you continue any blocked work.\n",
        );
        text
    }

    fn first_message(&self, index: &str) -> (r: Json)
        ensures
            r@ == message_input(
                handoff_text(self@, index@),
                self@.manifest.reasoning,
                self@.manifest.service_tier,
            ),
    {
        let text = self.handoff(index);
        let mut fields = object().with_text("text", text.as_str());
        if let Some(level) = &self.manifest.reasoning {
            fields = fields.with_text("reasoning", level.as_str());
        }
        if let Some(tier) = &self.manifest.service_tier {
            fields = fields.with_text("service_tier", tier.as_str());
        }
        Json::Object(fields)
    }

    fn messages(&self, index: &str) -> (r: Vec<Json>)
        requires
            self@.manifest.queued.len() < usize::MAX,
        ensures
            values(r@) == Seq::new(
                (self@.manifest.queued.len() + 1) as nat,
                |i: int| moved_message(self@, index@, i),
            ),
    {
        let ghost all = Seq::new(
            (self@.manifest.queued.len() + 1) as nat,
            |i: int| moved_message(self@, index@, i),
        );
        let count = self.manifest.queued.len() + 1;
        let mut out = no_json();
        let mut i: usize = 0;
        assert(values(out@) =~= all.take(0));
        while i < count
            invariant
                i <= count,
                count == self.manifest.queued@.len() + 1,
                all == Seq::new(
                    (self@.manifest.queued.len() + 1) as nat,
                    |i: int| moved_message(self@, index@, i),
                ),
                values(out@) == all.take(i as int),
            decreases count - i,
        {
            let mut input = if i == 0 {
                self.first_message(index)
            } else {
                assert(self@.manifest.queued[i - 1] == self.manifest.queued@[i - 1]@);
                self.manifest.queued[i - 1].input()
            };
            input.put("teleport_handoff", Json::Bool(i == 0));
            let mut request = concat3("teleport_", self.manifest.request_id.as_str(), "_");
            push_text(&mut request, decimal_of(i as u64).as_str());
            let message = Receipt::accepted(request.as_str(), "prompt", input).to_json();
            assert(message@ == all[i as int]);
            push_json(&mut out, message);
            assert(all.take(i + 1) =~= all.take(i as int).push(all[i as int]));
            i += 1;
        }
        assert(all.take(i as int) =~= all);
        out
    }

    /// The one record that makes the transfer a session.
    pub fn activate(&self, index: &str, native_path: &str, word: &str) -> (r: Note)
        requires
            self@.manifest.queued.len() < usize::MAX,
        ensures
            r@ == activation(self@, index@, native_path@, word@),
    {
        let m = &self.manifest;
        let guard = match m.command_guard_enabled {
            Some(b) => Json::Bool(b),
            None => Json::Null,
        };
        let receipt = Receipt {
            request_id: m.request_id.clone(),
            command: "start".to_owned(),
            input: Json::Object(
                object().with_text("harness", m.harness.name(word)).with(
                    "reasoning",
                    Json::opt_text(opt_slice(&m.reasoning)),
                ).with_text("teleport", m.request_id.as_str()).with(
                    "command_guard_enabled",
                    guard,
                ),
            ),
            state: "completed".to_owned(),
            model: Some(m.model.clone()),
            provider: opt_copy(&m.provider),
            workspace: Some(self.workspace.duplicate()),
            error: None,
        };
        assert(receipt@ == moved_receipt(self@, word@));
        Note::new(
            "teleport",
            Json::Object(
                object().with("receipt", receipt.to_json()).with(
                    "prompts",
                    Json::Array(self.messages(index)),
                ).with_text("native_id", m.native_id.as_str()).with_text(
                    "native_path",
                    native_path,
                ),
            ),
        )
    }
}

impl Local {
    fn owns(&self, native: &str) -> (r: bool)
        ensures
            r == owned(self@.sessions, native@),
    {
        let count = self.sessions.len();
        let ghost keys = in_order(self.sessions@);
        let mut i: usize = 0;
        while i < count
            invariant
                i <= count,
                keys == in_order(self.sessions@),
                is_order(keys, self.sessions@),
                count == keys.len(),
                forall|j: int|
                    0 <= j < i ==> self.sessions@[#[trigger] keys[j]].native_id != Some(native@),
            decreases count - i,
        {
            let s = self.sessions.value_at(i);
            proof {
                reveal(Session::snapshot);
            }
            if same_opt(opt_slice(&s.native_id), Some(native)) {
                assert(self.sessions@.contains_key(keys[i as int]));
                return true;
            }
            i += 1;
        }
        proof {
            assert forall|id: Seq<char>| #[trigger]
                self.sessions@.contains_key(id) implies self.sessions@[id].native_id != Some(
                native@,
            ) by {
                let j = choose|j: int| 0 <= j < keys.len() && keys[j] == id;
                assert(keys[j] == id);
            }
        }
        false
    }

    /// Why a transfer cannot become a session now.
    pub fn check_takeover(&self, transfer: &Transfer, stopping: bool, blocked: bool) -> (r: Result<
        (),
        Error,
    >)
        ensures
            verdict(r) == takeover_refused(self@, transfer@, stopping, blocked),
    {
        if stopping || blocked {
            return Err(Error::Storage("transfers cannot be recorded now".to_owned()));
        }
        if self.owns(transfer.manifest.native_id.as_str()) {
            return Err(
                Error::conflict("native conversation already belongs to a cloud session"),
            );
        }
        Ok(())
    }
}

/// A part that is sent again changes nothing of the transfer: the first one has fixed the checksum
/// and the size of its file.
pub proof fn uploads_can_be_repeated(
    t: TransferView,
    index: int,
    sha256: Seq<char>,
    size: Option<u64>,
    blocked: bool,
    recording: bool,
)
    requires
        transfer_sound(t),
        0 <= index,
        upload_refused(t, index, sha256, size, blocked, recording) is None,
    ensures
        ({
            let whole = upload_size(t, index, size);
            let next = upload_begun(t, index, sha256, whole);
            upload_refused(next, index, sha256, size, blocked, recording) is None && upload_begun(
                next,
                index,
                sha256,
                whole,
            ) == next
        }),
{
}

/// A file is written from its beginning without gaps: a part is written only where the last one
/// ended, and never past the end of the file.
pub proof fn uploads_have_no_gaps(offset: u64, count: usize, length: u64, size: u64)
    requires
        piece_for(offset, count, length, size) == Ok::<Piece, ErrorView>(Piece::Write),
    ensures
        offset == length,
        length + count <= size,
{
}

/// A conversation has one owner: none that a session holds is taken over again.
pub proof fn conversations_have_one_owner(
    l: LocalView,
    t: TransferView,
    stopping: bool,
    blocked: bool,
    id: Seq<char>,
)
    requires
        l.sessions.contains_key(id),
        l.sessions[id].native_id == Some(t.manifest.native_id),
    ensures
        takeover_refused(l, t, stopping, blocked) is Some,
{
}

/// A session that is told that its files are there is not told again.
pub proof fn arrival_is_told_once(t: TransferView, s: SessionView)
    requires
        s.receipts.contains_key(ready_request(t.manifest.request_id)),
    ensures
        files_ready(t, Some(s)) == Ok::<Option<NoteView>, ErrorView>(None),
{
}

} // verus!
