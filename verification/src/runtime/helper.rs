//! Answers of the helper that changes files of the agent.
use crate::fault::{other, Fault, FaultView};
use crate::json::{Data, Json};
use crate::text::opt_str;
use crate::wire::{bytes_read, parse_bytes};
use vstd::prelude::*;

verus! {

/// The place of a harness that is configured.
pub fn configured<'a>(home: Option<&'a str>, missing: &str) -> (r: Result<&'a str, Fault>)
    ensures
        match r {
            Ok(place) => opt_str(home) == Some(place@),
            Err(f) => home is None && f@ == other(missing@),
        },
{
    match home {
        Some(home) => Ok(home),
        None => Err(Fault::other(missing)),
    }
}

/// The value that the helper wrote; null where it wrote none.
pub open spec fn reply(stdout: Seq<u8>) -> Data {
    match bytes_read(stdout) {
        Ok(value) => value,
        Err(_) => Data::Null,
    }
}

/// The value that the helper wrote; null where it wrote none.
pub fn read_reply(stdout: &[u8]) -> (r: Json)
    ensures
        r@ == reply(stdout@),
{
    match parse_bytes(stdout) {
        Ok(value) => value,
        Err(_) => Json::Null,
    }
}

/// Why a change is not known to be made: the helper failed or told of no success, or what it wrote
/// cannot be read.
pub open spec fn not_made(success: bool, stdout: Seq<u8>, message: Seq<char>) -> Option<FaultView> {
    if !success {
        Some(other(message))
    } else {
        match bytes_read(stdout) {
            Ok(value) => if value.field("ok"@).is_true() {
                None
            } else {
                Some(other(message))
            },
            Err(fault) => Some(fault),
        }
    }
}

/// Whether a change was made, and otherwise why that is not known.
pub fn check_made(success: bool, stdout: &[u8], message: &str) -> (r: Result<(), Fault>)
    ensures
        match r {
            Ok(_) => not_made(success, stdout@, message@) is None,
            Err(f) => not_made(success, stdout@, message@) == Some(f@),
        },
{
    if !success {
        return Err(Fault::other(message));
    }
    match parse_bytes(stdout) {
        Ok(value) => if value.field("ok").is_true() {
            Ok(())
        } else {
            Err(Fault::other(message))
        },
        Err(fault) => Err(fault),
    }
}

} // verus!
