//! What native requests other than prompts led to.
use super::command::{Next, NextView};
use super::lifecycle::{outcome_state, outcome_word, Step, StepView};
use super::query::{finishing, note, notes, push_note, Note, NoteView};
use super::{Session, SessionView};
use crate::fault::{other, Fault, FaultKind};
use crate::json::{object, Data, Json};
use crate::text::{opt_slice, same, same_opt};
use vstd::prelude::*;

verus! {

/// What steering led to.
pub open spec fn steered(s: SessionView, request: Seq<char>, result: Result<(), FaultKind>) -> StepView {
    StepView {
        notes: finishing(s, request, outcome_word(result, "completed"@), None),
        next: NextView::Nothing,
    }
}

/// What interrupting a turn led to. An interrupt that is settled returns the session to idle or to
/// the next turn; one of which nothing is known leaves it as it is.
pub open spec fn interrupted(s: SessionView, request: Seq<char>, result: Result<(), FaultKind>) -> StepView {
    StepView {
        notes: finishing(s, request, outcome_word(result, "completed"@), None),
        next: if result is Ok || result == Err::<(), FaultKind>(FaultKind::InvalidInput) {
            NextView::Advance { turn_ended: false }
        } else {
            NextView::Nothing
        },
    }
}

/// What asking for a compaction led to. One that is refused leaves the session free to move on.
pub open spec fn compacted(s: SessionView, request: Seq<char>, result: Result<(), FaultKind>) -> StepView {
    StepView {
        notes: finishing(s, request, outcome_word(result, "delivered"@), None),
        next: if result == Err::<(), FaultKind>(FaultKind::InvalidInput) {
            NextView::Advance { turn_ended: false }
        } else {
            NextView::Nothing
        },
    }
}

/// A compaction that has ended is not explained any more.
pub open spec fn explains_compaction(s: SessionView, request: Seq<char>) -> bool {
    s.receipts.contains_key(request) && ({
        let state = s.receipts[request].state;
        state != "completed"@ && state != "failed"@ && state != "interrupted"@
    })
}

/// What taking a conversation back led to. Success is recorded by the event that follows it; only a
/// refusal frees the session.
pub open spec fn rewound(s: SessionView, request: Seq<char>, result: Result<(), FaultKind>) -> Seq<
    NoteView,
> {
    match result {
        Ok(_) => Seq::empty(),
        Err(kind) => if kind == FaultKind::InvalidInput {
            finishing(s, request, "failed"@, None).push(
                note(
                    "rewind_failed"@,
                    Data::Object(map!["request_id"@ => Data::Text(request)]),
                ),
            )
        } else {
            finishing(s, request, "unknown"@, None)
        },
    }
}

/// What a harness says of its usage is of the conversation that the session holds.
pub open spec fn usage_fits(s: SessionView, usage: Data) -> bool {
    match usage.field("sessionId"@).as_text() {
        Some(native) => s.native_id == Some(native),
        None => true,
    }
}

impl Session {
    fn brought_to(&self, request: &str, state: &str) -> (r: Vec<Note>)
        ensures
            notes(r@) == finishing(self@, request@, state@, None),
    {
        let mut list: Vec<Note> = Vec::new();
        assert(notes(list@) =~= Seq::<NoteView>::empty());
        let _ = self.finish(&mut list, request, state, None);
        assert(notes(list@) =~= finishing(self@, request@, state@, None));
        list
    }

    /// What steering led to.
    pub fn steered(&self, request: &str, result: Result<(), FaultKind>) -> (r: Step)
        ensures
            r@ == steered(self@, request@, result),
    {
        Step {
            notes: self.brought_to(request, outcome_state(result, "completed")),
            next: Next::Nothing,
        }
    }

    /// What interrupting a turn led to.
    pub fn interrupted(&self, request: &str, result: Result<(), FaultKind>) -> (r: Step)
        ensures
            r@ == interrupted(self@, request@, result),
    {
        let settled = match result {
            Ok(_) => true,
            Err(kind) => kind == FaultKind::InvalidInput,
        };
        Step {
            notes: self.brought_to(request, outcome_state(result, "completed")),
            next: if settled {
                Next::Advance { turn_ended: false }
            } else {
                Next::Nothing
            },
        }
    }

    /// What asking for a compaction led to.
    pub fn compacted(&self, request: &str, result: Result<(), FaultKind>) -> (r: Step)
        ensures
            r@ == compacted(self@, request@, result),
    {
        let refused = match result {
            Ok(_) => false,
            Err(kind) => kind == FaultKind::InvalidInput,
        };
        Step {
            notes: self.brought_to(request, outcome_state(result, "delivered")),
            next: if refused {
                Next::Advance { turn_ended: false }
            } else {
                Next::Nothing
            },
        }
    }

    /// Whether the cause of a failed compaction is kept with its request.
    pub fn explains_compaction(&self, request: &str) -> (r: bool)
        ensures
            r == explains_compaction(self@, request@),
    {
        proof {
            reveal(Session::snapshot);
        }
        match self.receipts.get(request) {
            Some(receipt) => {
                let state = receipt.state.as_str();
                !same(state, "completed") && !same(state, "failed") && !same(state, "interrupted")
            },
            None => false,
        }
    }

    /// What taking a conversation back led to.
    pub fn rewound(&self, request: &str, result: Result<(), FaultKind>) -> (r: Vec<Note>)
        ensures
            notes(r@) == rewound(self@, request@, result),
    {
        match result {
            Ok(_) => {
                let list: Vec<Note> = Vec::new();
                assert(notes(list@) =~= Seq::<NoteView>::empty());
                list
            },
            Err(kind) => if kind == FaultKind::InvalidInput {
                let mut list = self.brought_to(request, "failed");
                push_note(
                    &mut list,
                    Note::new(
                        "rewind_failed",
                        Json::Object(object().with_text("request_id", request)),
                    ),
                );
                list
            } else {
                self.brought_to(request, "unknown")
            },
        }
    }

    /// A harness that replaces the one before may take over only while the rewind is still wanted.
    pub fn check_rewind(&self, request: &str, stopping: bool) -> (r: Result<(), Fault>)
        ensures
            r is Ok <==> !stopping && self@.rewind_request == Some(request@),
            r matches Err(f) ==> f@ == other("rewind ownership changed"@),
    {
        proof {
            reveal(Session::snapshot);
        }
        if stopping || !same_opt(opt_slice(&self.rewind_request), Some(request)) {
            return Err(Fault::other("rewind ownership changed"));
        }
        Ok(())
    }

    /// The record of what a harness says of its usage. What it says of another conversation is
    /// dropped.
    pub fn usage_note(&self, usage: &Json) -> (r: Option<Note>)
        ensures
            match r {
                Some(n) => usage_fits(self@, usage@) && n@ == note("usage"@, usage@),
                None => !usage_fits(self@, usage@),
            },
    {
        proof {
            reveal(Session::snapshot);
        }
        if let Some(native) = usage.field_text("sessionId") {
            if !same_opt(opt_slice(&self.native_id), Some(native)) {
                return None;
            }
        }
        Some(Note::new("usage", usage.duplicate()))
    }
}

} // verus!
