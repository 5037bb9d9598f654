//! Failures of the work below a request: what went wrong, and the message to show for it.
use vstd::prelude::*;

verus! {

/// What a failure means for the caller.
#[derive(Clone, Copy, PartialEq, Eq, Structural, Debug)]
pub enum FaultKind {
    /// Nothing more is known; the outcome of the work may be uncertain.
    Other,
    /// The request was refused: it had no effect.
    InvalidInput,
    /// What was asked for does not exist.
    NotFound,
    /// The account may not do it.
    PermissionDenied,
    /// No answer came in time.
    TimedOut,
}

/// A failure with its message.
#[derive(Debug)]
pub struct Fault {
    pub kind: FaultKind,
    pub message: String,
}

/// The mathematical value of a failure.
pub struct FaultView {
    pub kind: FaultKind,
    pub message: Seq<char>,
}

impl View for Fault {
    type V = FaultView;

    open spec fn view(&self) -> FaultView {
        FaultView { kind: self.kind, message: self.message@ }
    }
}

/// A failure of which nothing more is known.
pub open spec fn other(message: Seq<char>) -> FaultView {
    FaultView { kind: FaultKind::Other, message }
}

/// A refusal.
pub open spec fn refused(message: Seq<char>) -> FaultView {
    FaultView { kind: FaultKind::InvalidInput, message }
}

impl Fault {
    /// A failure of which nothing more is known.
    pub fn other(message: &str) -> (r: Fault)
        ensures
            r@ == other(message@),
    {
        Fault { kind: FaultKind::Other, message: message.to_owned() }
    }

    /// A refusal.
    pub fn refused(message: &str) -> (r: Fault)
        ensures
            r@ == refused(message@),
    {
        Fault { kind: FaultKind::InvalidInput, message: message.to_owned() }
    }

    /// A copy.
    pub fn duplicate(&self) -> (r: Fault)
        ensures
            r@ == self@,
    {
        Fault { kind: self.kind, message: self.message.clone() }
    }
}

} // verus!
