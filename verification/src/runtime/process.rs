//! Harness processes: the lines they exchange, the calls they take, and how they end.
use super::{asked, Progress, ProgressView};
use crate::fault::{refused, Fault};
use crate::json::Json;
use crate::text::{opt_slice, opt_str, same, same_opt, text_strict};
use crate::wire::{denoted, read_json};
use vstd::prelude::*;
use vstd::slice::slice_subrange;
use vstd::utf8::{decode_utf8, valid_utf8};

verus! {

/// The longest line that is exchanged with a harness, in bytes.
pub const MAX_LINE: usize = 16777216;

/// The beginning of a file: as much as a line may hold.
pub open spec fn first_bytes(bytes: Seq<u8>) -> Seq<u8> {
    if bytes.len() > MAX_LINE {
        bytes.take(MAX_LINE as int)
    } else {
        bytes
    }
}

/// The beginning of a file.
pub fn take_bytes(bytes: &[u8]) -> (r: &[u8])
    ensures
        r@ == first_bytes(bytes@),
{
    if bytes.len() > MAX_LINE {
        let first = slice_subrange(bytes, 0, MAX_LINE);
        assert(first@ =~= bytes@.take(MAX_LINE as int));
        first
    } else {
        bytes
    }
}

/// Why a line of a harness is not understood.
pub open spec fn frame_refused(line: Seq<u8>) -> Option<Seq<char>> {
    if line.len() > MAX_LINE || line.len() == 0 || line.last() != 10 {
        Some("invalid or oversized harness frame"@)
    } else if !valid_utf8(line) {
        Some("invalid harness UTF-8"@)
    } else if denoted(decode_utf8(line)) is None {
        Some("malformed harness JSON"@)
    } else {
        None
    }
}

/// A line of a harness: its text, and the value it denotes. Where a line is not understood, the
/// reason is given.
pub fn read_frame(line: &[u8]) -> (r: Result<(String, Json), &'static str>)
    ensures
        match r {
            Ok((raw, value)) => frame_refused(line@) is None && raw@ == decode_utf8(line@)
                && denoted(raw@) == Some(value@),
            Err(why) => frame_refused(line@) == Some(why@),
        },
{
    if line.len() > MAX_LINE || line.len() == 0 || line[line.len() - 1] != 10 {
        return Err("invalid or oversized harness frame");
    }
    let raw = match text_strict(line) {
        Some(raw) => raw,
        None => {
            return Err("invalid harness UTF-8");
        },
    };
    match read_json(raw.as_str()) {
        Some(value) => Ok((raw, value)),
        None => Err("malformed harness JSON"),
    }
}

/// A call is refused where the turn it is aimed at does not run any more, or where it begins a turn
/// and one runs already.
pub open spec fn call_refused(
    p: ProgressView,
    target: Option<Seq<char>>,
    request: Option<Seq<char>>,
) -> Option<Seq<char>> {
    if target is Some && (p.request != target || p.finished) {
        Some("target is no longer active"@)
    } else if request is Some && p.request is Some && !p.finished {
        Some("harness is busy"@)
    } else {
        None
    }
}

impl Progress {
    /// Whether a call may be made of the harness. A call that begins a turn is noted.
    pub fn allow(&mut self, target: Option<&str>, request: Option<&str>, valid: Result<(), Fault>) -> (r:
        Result<(), Fault>)
        ensures
            match r {
                Ok(()) => call_refused(old(self)@, opt_str(target), opt_str(request)) is None
                    && valid is Ok && final(self)@ == match request {
                    Some(request) => asked(old(self)@, request@),
                    None => old(self)@,
                },
                Err(f) => (call_refused(old(self)@, opt_str(target), opt_str(request)) is Some
                    || valid is Err) && final(self)@ == old(self)@ && f@ == match call_refused(
                    old(self)@,
                    opt_str(target),
                    None,
                ) {
                    Some(why) => refused(why),
                    None => match valid {
                        Err(v) => v@,
                        Ok(()) => refused("harness is busy"@),
                    },
                },
            },
    {
        if target.is_some() && (!same_opt(opt_slice(&self.request), target) || self.finished) {
            return Err(Fault::refused("target is no longer active"));
        }
        if let Err(fault) = valid {
            return Err(fault);
        }
        if let Some(request) = request {
            if self.request.is_some() && !self.finished {
                return Err(Fault::refused("harness is busy"));
            }
            self.ask(request);
        }
        Ok(())
    }
}

/// Why a process ended: what happened to its history and to the processes it left comes first.
pub open spec fn exit_reason(reason: Seq<char>, captured: bool, cleaned_up: bool) -> Seq<char> {
    if !cleaned_up {
        "workload exit unconfirmed; refusing replacement"@
    } else if !captured {
        "native history capture failed at exit"@
    } else {
        reason
    }
}

/// The process ended because it was asked to, and as it should.
pub open spec fn exit_expected(reason: Seq<char>, graceful: bool, close_pending: bool) -> bool {
    reason == "service stopped owned harness"@ && graceful && !close_pending
}

/// Why a process ended, and whether that was expected.
pub fn conclude(
    reason: &str,
    captured: bool,
    cleaned_up: bool,
    graceful: bool,
    close_pending: bool,
) -> (r: (String, bool))
    ensures
        r.0@ == exit_reason(reason@, captured, cleaned_up),
        r.1 == exit_expected(r.0@, graceful, close_pending),
{
    let why = if !cleaned_up {
        "workload exit unconfirmed; refusing replacement"
    } else if !captured {
        "native history capture failed at exit"
    } else {
        reason
    };
    let expected = same(why, "service stopped owned harness") && graceful && !close_pending;
    (why.to_owned(), expected)
}

/// What the driver does after it has read from the process.
#[derive(Clone, Copy, PartialEq, Eq, Structural, Debug)]
pub enum Reading {
    /// There is a line.
    Line,
    /// The output has ended while the process is being stopped.
    Ended,
    /// The output has ended, or cannot be read.
    Lost,
}

/// What reading from the process comes to: the count of bytes, or a failure.
pub fn read_outcome(count: Option<usize>, stopping: bool) -> (r: Reading)
    ensures
        r == match count {
            Some(n) => if n > 0 {
                Reading::Line
            } else if stopping {
                Reading::Ended
            } else {
                Reading::Lost
            },
            None => Reading::Lost,
        },
{
    match count {
        Some(n) => if n > 0 {
            Reading::Line
        } else if stopping {
            Reading::Ended
        } else {
            Reading::Lost
        },
        None => Reading::Lost,
    }
}

/// A turn is not begun while another one runs.
pub proof fn turns_do_not_overlap(p: ProgressView, request: Seq<char>)
    requires
        p.request is Some,
        !p.finished,
    ensures
        call_refused(p, None, Some(request)) is Some,
{
}

/// The turn of a request does not run any more, or does not run yet.
pub open spec fn inactive(p: ProgressView, request: Seq<char>) -> bool {
    p.request != Some(request) || p.finished
}

impl Progress {
    /// Whether the turn of a request can be interrupted now.
    pub fn check_interrupt(&self, request: &str) -> (r: Result<(), Fault>)
        ensures
            match r {
                Ok(_) => !inactive(self@, request@),
                Err(f) => inactive(self@, request@) && f@ == refused("interrupt target is no longer active"@),
            },
    {
        if !same_opt(opt_slice(&self.request), Some(request)) || self.finished {
            return Err(Fault::refused("interrupt target is no longer active"));
        }
        Ok(())
    }

    /// Whether the turn of a request can be steered now.
    pub fn check_steer(&self, request: &str) -> (r: Result<(), Fault>)
        ensures
            match r {
                Ok(_) => !inactive(self@, request@),
                Err(f) => inactive(self@, request@) && f@ == refused("steer target is no longer active"@),
            },
    {
        if !same_opt(opt_slice(&self.request), Some(request)) || self.finished {
            return Err(Fault::refused("steer target is no longer active"));
        }
        Ok(())
    }
}

} // verus!
