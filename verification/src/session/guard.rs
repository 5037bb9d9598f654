//! What is done when disk space runs low, and what is saved elsewhere next.
use super::local::{Local, LocalView};
use super::outbox::JournalView;
use super::pick::{chosen, entries, note_each, of_each, Entry, EntryView, Pick};
use super::query::{note, Note, NoteView};
use super::Session;
use crate::json::{object, Data, Json};
use crate::runtime::auth::{passed, since};
use crate::text::same;
use vstd::prelude::*;

verus! {

/// How much disk space there is.
#[derive(Clone, Copy, PartialEq, Eq, Structural, Debug)]
pub enum Level {
    Normal,
    Warning,
    /// No new work is done.
    Blocked,
}

/// The space could not be measured.
pub open spec fn unmeasured(reason: Seq<char>) -> bool {
    reason == "measurement_unavailable"@
}

/// What a session is told of the space.
pub open spec fn warning_text(level: Level, reason: Seq<char>) -> Seq<char> {
    if unmeasured(reason) {
        "Cloudroom: disk space could not be measured. Work is paused until storage can be verified. Your files and history are preserved."@
    } else if level == Level::Blocked {
        "Cloudroom: disk space is critically low. Work is paused until storage recovers. Your files and history are preserved."@
    } else {
        "Cloudroom: disk space is running low. Work and sync continue. Remove disposable files or add storage; large writes may trigger an emergency pause."@
    }
}

/// What a session is told of the space.
pub fn warning(level: Level, reason: &str) -> (r: &'static str)
    ensures
        r@ == warning_text(level, reason@),
{
    if same(reason, "measurement_unavailable") {
        "Cloudroom: disk space could not be measured. Work is paused until storage can be verified. Your files and history are preserved."
    } else if level == Level::Blocked {
        "Cloudroom: disk space is critically low. Work is paused until storage recovers. Your files and history are preserved."
    } else {
        "Cloudroom: disk space is running low. Work and sync continue. Remove disposable files or add storage; large writes may trigger an emergency pause."
    }
}

/// The record of a warning.
pub open spec fn warning_note(level: Level, reason: Seq<char>) -> NoteView {
    note(
        "storage_warning"@,
        Data::Object(
            map![
                "text"@ => Data::Text(warning_text(level, reason)),
                "reason"@ => Data::Text(reason)
            ],
        ),
    )
}

/// The warnings that are due: one for each running session that has not been warned. They are
/// recorded before they are sent, so that none is repeated blindly.
pub open spec fn warnings(l: LocalView, level: Level, reason: Seq<char>) -> Seq<EntryView> {
    if level == Level::Normal {
        Seq::empty()
    } else {
        of_each(chosen(l.sessions, Pick::Unwarned), warning_note(level, reason))
    }
}

/// The record of whether a harness took a warning.
pub fn delivery_note(confirmed: bool) -> (r: Note)
    ensures
        r@ == note(
            "storage_warning_delivery"@,
            Data::Object(
                map![
                    "confirmed"@ => Data::Bool(confirmed),
                    "meaning"@ => Data::Text("accepted_by_harness_not_model_consumption"@)
                ],
            ),
        ),
{
    Note::new(
        "storage_warning_delivery",
        Json::Object(
            object().with("confirmed", Json::Bool(confirmed)).with_text(
                "meaning",
                "accepted_by_harness_not_model_consumption",
            ),
        ),
    )
}

/// The record that a session is paused.
pub open spec fn pause_data(reason: Seq<char>) -> NoteView {
    note(
        "storage_pause"@,
        Data::Object(
            map![
                "paused"@ => Data::Bool(true),
                "reason"@ => Data::Text(reason),
                "text"@ => Data::Text(
                    if unmeasured(reason) {
                        "Cloudroom: disk space could not be measured. Work is paused until storage can be verified."@
                    } else {
                        "Cloudroom: work paused because disk space is critically low. Work resumes automatically when space recovers."@
                    },
                )
            ],
        ),
    )
}

/// The record that a session goes on.
pub open spec fn resume_data(level: Level) -> NoteView {
    if level == Level::Normal {
        note(
            "storage_recovered"@,
            Data::Object(
                map![
                    "text"@ => Data::Text(
                        "Cloudroom: disk space has recovered. Work can continue."@,
                    ),
                ],
            ),
        )
    } else {
        note(
            "storage_pause"@,
            Data::Object(
                map![
                    "paused"@ => Data::Bool(false),
                    "text"@ => Data::Text(
                        "Cloudroom: work resumed. Disk space is still low."@,
                    )
                ],
            ),
        )
    }
}

/// The record that a session goes on.
pub fn resume_note(level: Level) -> (r: Note)
    ensures
        r@ == resume_data(level),
{
    if level == Level::Normal {
        Note::new(
            "storage_recovered",
            Json::Object(
                object().with_text(
                    "text",
                    "Cloudroom: disk space has recovered. Work can continue.",
                ),
            ),
        )
    } else {
        Note::new(
            "storage_pause",
            Json::Object(
                object().with("paused", Json::Bool(false)).with_text(
                    "text",
                    "Cloudroom: work resumed. Disk space is still low.",
                ),
            ),
        )
    }
}

impl Session {
    /// The record that the session is paused, unless it is already.
    pub fn pause_note(&self, reason: &str) -> (r: Option<Note>)
        ensures
            match r {
                Some(n) => !self@.storage_paused && n@ == pause_data(reason@),
                None => self@.storage_paused,
            },
    {
        proof {
            reveal(Session::snapshot);
        }
        if self.storage_paused {
            return None;
        }
        let text = if same(reason, "measurement_unavailable") {
            "Cloudroom: disk space could not be measured. Work is paused until storage can be verified."
        } else {
            "Cloudroom: work paused because disk space is critically low. Work resumes automatically when space recovers."
        };
        Some(
            Note::new(
                "storage_pause",
                Json::Object(
                    object().with("paused", Json::Bool(true)).with_text("reason", reason).with_text(
                        "text",
                        text,
                    ),
                ),
            ),
        )
    }
}

impl Local {
    /// The warnings that are due.
    pub fn warnings(&self, level: Level, reason: &str) -> (r: Vec<Entry>)
        ensures
            entries(r@) == warnings(self@, level, reason@),
    {
        if level == Level::Normal {
            let none: Vec<Entry> = Vec::new();
            assert(entries(none@) =~= Seq::empty());
            return none;
        }
        let data = Json::Object(
            object().with_text("text", warning(level, reason)).with_text("reason", reason),
        );
        note_each(&self.pick(Pick::Unwarned), &Note::new("storage_warning", data))
    }
}

// What the guard does in turn.

/// What is done with the running sessions.
#[derive(Clone, Copy, PartialEq, Eq, Structural, Debug)]
pub enum Duty {
    /// Every workload is paused.
    Pause,
    /// Every workload goes on.
    Resume,
    Nothing,
}

/// The memory of the guard.
#[derive(Clone, Copy, PartialEq, Eq, Structural, Debug)]
pub struct Guard {
    /// Workloads may still be paused.
    pub was_blocked: bool,
    /// When disposable files were removed last, in milliseconds.
    pub cleaned: Option<u64>,
}

/// Disposable files are removed no more often than this, in milliseconds.
pub const CLEANUP_INTERVAL: u64 = 30000;

/// What is done at a level of space. `warned` says whether some running session was warned.
pub open spec fn duty(g: Guard, level: Level, warned: bool) -> Duty {
    if level == Level::Blocked {
        Duty::Pause
    } else if g.was_blocked || (level == Level::Normal && warned) {
        Duty::Resume
    } else {
        Duty::Nothing
    }
}

impl Guard {
    /// The guard when the service starts.
    pub fn new(blocked: bool) -> (r: Guard)
        ensures
            r == (Guard { was_blocked: blocked, cleaned: None }),
    {
        Guard { was_blocked: blocked, cleaned: None }
    }

    /// What is done at a level of space.
    pub fn duty(&self, level: Level, warned: bool) -> (r: Duty)
        ensures
            r == duty(*self, level, warned),
    {
        if level == Level::Blocked {
            Duty::Pause
        } else if self.was_blocked || (level == Level::Normal && warned) {
            Duty::Resume
        } else {
            Duty::Nothing
        }
    }

    /// The workloads were paused, all of them or not. Gives whether disposable files are removed
    /// now: only while nothing can write, and not too often.
    pub fn paused(&mut self, all: bool, now: u64) -> (r: bool)
        ensures
            r == (all && match old(self).cleaned {
                Some(at) => passed(now, at) >= CLEANUP_INTERVAL,
                None => true,
            }),
            *final(self) == (Guard {
                was_blocked: true,
                cleaned: if r {
                    Some(now)
                } else {
                    old(self).cleaned
                },
            }),
    {
        let due = match self.cleaned {
            Some(at) => since(now, at) >= CLEANUP_INTERVAL,
            None => true,
        };
        self.was_blocked = true;
        if all && due {
            self.cleaned = Some(now);
            return true;
        }
        false
    }

    /// The workloads go on. Where the other writers could not be let go, this is tried again.
    pub fn resumed(&mut self, writers: bool)
        ensures
            *final(self) == (Guard { was_blocked: !writers, ..*old(self) }),
    {
        self.was_blocked = !writers;
    }
}

/// While space is blocked no workload goes on; once it is not, the paused ones do.
pub proof fn paused_work_goes_on(g: Guard, level: Level, warned: bool)
    ensures
        level == Level::Blocked ==> duty(g, level, warned) == Duty::Pause,
        level != Level::Blocked && g.was_blocked ==> duty(g, level, warned) == Duty::Resume,
{
}

// What is saved elsewhere next.

/// So many records are saved at once.
pub const UPLOAD: u64 = 128;

/// The records that are saved elsewhere next: the first of them, and how many there are.
pub open spec fn next_upload(j: JournalView) -> (nat, nat) {
    (
        j.saved + 1,
        if j.last - j.saved > UPLOAD {
            UPLOAD as nat
        } else {
            (j.last - j.saved) as nat
        },
    )
}

/// What happens while records are saved elsewhere.
#[derive(Clone, Copy, PartialEq, Eq, Structural, Debug)]
pub enum UploadEvent {
    /// So many records were read, or they could not be.
    Read { count: Option<u64> },
    /// They were sent, and are saved or not.
    Sent { saved: bool },
    /// The journal was told that they are saved, and has noted it or not.
    Acknowledged { noted: bool },
}

/// What is done next to save records elsewhere.
#[derive(Clone, Copy, Debug)]
pub enum UploadDeed {
    /// They are sent.
    Send,
    /// The journal is told that they are saved.
    Acknowledge,
    /// After a rest the next ones are read. `told` says that the attempt is recorded.
    Rest { told: bool },
    /// Nothing more is saved: the operation that failed is recorded, after the attempt if there was
    /// one.
    Stop { told: bool, operation: &'static str },
}

/// What is done next to save records elsewhere. Only what was saved is acknowledged; what the journal
/// cannot read, or cannot note, is not passed over.
pub fn uploading(event: UploadEvent) -> (r: UploadDeed)
    ensures
        match event {
            UploadEvent::Read { count: None } => r matches UploadDeed::Stop { told, operation }
                && !told && operation@ == "read_pending"@,
            UploadEvent::Read { count: Some(n) } => r == if n > 0 {
                UploadDeed::Send
            } else {
                UploadDeed::Rest { told: false }
            },
            UploadEvent::Sent { saved } => r == if saved {
                UploadDeed::Acknowledge
            } else {
                UploadDeed::Rest { told: true }
            },
            UploadEvent::Acknowledged { noted } => if noted {
                r == (UploadDeed::Rest { told: true })
            } else {
                r matches UploadDeed::Stop { told, operation } && told && operation@
                    == "acknowledge"@
            },
        },
{
    match event {
        UploadEvent::Read { count } => match count {
            None => UploadDeed::Stop { told: false, operation: "read_pending" },
            Some(n) => if n > 0 {
                UploadDeed::Send
            } else {
                UploadDeed::Rest { told: false }
            },
        },
        UploadEvent::Sent { saved } => if saved {
            UploadDeed::Acknowledge
        } else {
            UploadDeed::Rest { told: true }
        },
        UploadEvent::Acknowledged { noted } => if noted {
            UploadDeed::Rest { told: true }
        } else {
            UploadDeed::Stop { told: true, operation: "acknowledge" }
        },
    }
}

impl Local {
    /// The records that are saved elsewhere next.
    pub fn next_upload(&self) -> (r: (u64, u64))
        ensures
            (r.0 as nat, r.1 as nat) == next_upload(self@.journal),
    {
        let last = self.journal.last();
        let saved = self.journal.saved();
        let pending = last - saved;
        (
            saved + 1,
            if pending > UPLOAD {
                UPLOAD
            } else {
                pending
            },
        )
    }

    /// What is told of the journal. `uploaded` says whether the last upload succeeded.
    pub fn saving(&self, uploaded: bool) -> (r: Json)
        ensures
            r@ == Data::Object(
                map![
                    "locally_recorded_through"@ => crate::json::uint(self@.journal.last as u64),
                    "externally_saved_through"@ => crate::json::uint(self@.journal.saved as u64),
                    "pending_records"@ => crate::json::uint(
                        (self@.journal.last - self@.journal.saved) as u64,
                    ),
                    "last_upload_succeeded"@ => Data::Bool(uploaded)
                ],
            ),
    {
        let last = self.journal.last();
        let saved = self.journal.saved();
        Json::Object(
            object().with("locally_recorded_through", Json::uint(last)).with(
                "externally_saved_through",
                Json::uint(saved),
            ).with("pending_records", Json::uint(last - saved)).with(
                "last_upload_succeeded",
                Json::Bool(uploaded),
            ),
        )
    }
}

} // verus!
