//! Answers that turn a request down, as they go over the wire.
use crate::json::{object, Data, Json};
use vstd::prelude::*;

verus! {

/// A request is turned down, with a status and the reason.
#[derive(Debug)]
pub struct Failure {
    pub status: u16,
    pub message: String,
}

/// The mathematical value of an answer that turns a request down.
pub struct FailureView {
    pub status: u16,
    pub message: Seq<char>,
}

impl View for Failure {
    type V = FailureView;

    open spec fn view(&self) -> FailureView {
        FailureView { status: self.status, message: self.message@ }
    }
}

/// What is asked for does not go with how things stand.
pub open spec fn conflicting(message: Seq<char>) -> FailureView {
    FailureView { status: 409, message }
}

/// What is asked for is not known.
pub open spec fn missing(message: Seq<char>) -> FailureView {
    FailureView { status: 404, message }
}

/// Who asks may not.
pub open spec fn forbidden(message: Seq<char>) -> FailureView {
    FailureView { status: 403, message }
}

/// The answer to a request that may be turned down.
pub open spec fn denial(r: Result<(), Failure>) -> Option<FailureView> {
    match r {
        Ok(()) => None,
        Err(f) => Some(f@),
    }
}

impl Failure {
    /// What is asked for does not go with how things stand.
    pub fn conflict(message: &str) -> (r: Failure)
        ensures
            r@ == conflicting(message@),
    {
        Failure { status: 409, message: message.to_owned() }
    }

    /// What is asked for is not known.
    pub fn not_found(message: &str) -> (r: Failure)
        ensures
            r@ == missing(message@),
    {
        Failure { status: 404, message: message.to_owned() }
    }

    /// Who asks may not.
    pub fn forbidden(message: &str) -> (r: Failure)
        ensures
            r@ == forbidden(message@),
    {
        Failure { status: 403, message: message.to_owned() }
    }

    /// What is sent.
    pub fn body(&self) -> (r: Json)
        ensures
            r@ == Data::Object(map!["error"@ => Data::Text(self@.message)]),
    {
        Json::Object(object().with_text("error", self.message.as_str()))
    }
}

} // verus!
