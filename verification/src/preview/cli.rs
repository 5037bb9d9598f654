//! The command by which agents ask for previews.
use crate::fault::{other, Fault, FaultView};
use crate::json::{Data, Json};
use crate::runtime::json_result;
use crate::text::{chars_of, number, opt, parse_number, same, views};
use crate::wire::{bytes_read, parse_bytes};
use vstd::prelude::*;

verus! {

/// What is asked for on the command line.
#[derive(Debug)]
pub enum Ask {
    Help,
    /// A preview of a port is asked for.
    Open { port: u16 },
    /// The state of one preview, or of all.
    Status { only: Option<u16> },
    Close { port: u16 },
}

/// Where the words begin, or why they cannot be read: after the option that names a socket.
pub open spec fn start_of(args: Seq<Seq<char>>) -> Result<int, FaultView> {
    if args.len() > 0 && args[0] == "--socket"@ {
        if args.len() < 2 {
            Err(other("--socket requires a path"@))
        } else {
            Ok(2)
        }
    } else {
        Ok(0)
    }
}

/// What is asked for, from a place on.
pub open spec fn asked(args: Seq<Seq<char>>, i: int) -> Result<Ask, FaultView> {
    if i >= args.len() || args[i] == "--help"@ {
        Ok(Ask::Help)
    } else {
        let status = args[i] == "status"@;
        let close = args[i] == "close"@;
        let place = if status || close {
            i + 1
        } else {
            i
        };
        if place < args.len() {
            match number(args[place], u16::MAX as nat) {
                None => Err(other("port must be 1\u{2013}65535"@)),
                Some(n) => Ok(
                    if status {
                        Ask::Status { only: Some(n as u16) }
                    } else if close {
                        Ask::Close { port: n as u16 }
                    } else {
                        Ask::Open { port: n as u16 }
                    },
                ),
            }
        } else if status {
            Ok(Ask::Status { only: None })
        } else {
            Err(other("preview requires a port"@))
        }
    }
}

/// What is asked for on the command line, and the socket that is named.
pub fn parse(args: &Vec<String>) -> (r: Result<(Option<String>, Ask), Fault>)
    ensures
        match start_of(views(args@)) {
            Err(f) => r is Err && r->Err_0@ == f,
            Ok(i) => match r {
                Ok((socket, ask)) => asked(views(args@), i) == Ok::<Ask, FaultView>(ask) && opt(
                    socket,
                ) == if i == 2 {
                    Some(args@[1]@)
                } else {
                    None
                },
                Err(f) => asked(views(args@), i) == Err::<Ask, FaultView>(f@),
            },
        },
{
    let ghost all = views(args@);
    let mut socket: Option<String> = None;
    let mut i: usize = 0;
    if args.len() > 0 {
        assert(all[0] == args@[0]@);
        if same(args[0].as_str(), "--socket") {
            if args.len() < 2 {
                return Err(Fault::other("--socket requires a path"));
            }
            socket = Some(args[1].clone());
            i = 2;
        }
    }
    if i >= args.len() {
        return Ok((socket, Ask::Help));
    }
    assert(all[i as int] == args@[i as int]@);
    if same(args[i].as_str(), "--help") {
        return Ok((socket, Ask::Help));
    }
    let status = same(args[i].as_str(), "status");
    let close = same(args[i].as_str(), "close");
    let place = if status || close {
        i + 1
    } else {
        i
    };
    if place < args.len() {
        assert(all[place as int] == args@[place as int]@);
        let chars = chars_of(args[place].as_str());
        return match parse_number(chars.as_slice(), u16::MAX as u64) {
            None => Err(Fault::other("port must be 1\u{2013}65535")),
            Some(n) => {
                let port = n as u16;
                Ok(
                    (
                        socket,
                        if status {
                            Ask::Status { only: Some(port) }
                        } else if close {
                            Ask::Close { port }
                        } else {
                            Ask::Open { port }
                        },
                    ),
                )
            },
        };
    }
    if status {
        return Ok((socket, Ask::Status { only: None }));
    }
    Err(Fault::other("preview requires a port"))
}

// The answers of the service.

/// What an answer of the service says. `success` tells whether it was reached.
pub open spec fn answer_in(success: bool, bytes: Seq<u8>) -> Result<Data, FaultView> {
    if !success {
        Err(
            other(
                "Preview service unavailable; install preview setup or use the local thread's localhost server"@,
            ),
        )
    } else {
        match bytes_read(bytes) {
            Err(f) => Err(f),
            Ok(value) => match value.field("error"@).as_text() {
                Some(message) => Err(other(message)),
                None => Ok(value),
            },
        }
    }
}

/// What an answer of the service says.
pub fn read_answer(success: bool, bytes: &[u8]) -> (r: Result<Json, Fault>)
    ensures
        json_result(r) == answer_in(success, bytes@),
{
    if !success {
        return Err(
            Fault::other(
                "Preview service unavailable; install preview setup or use the local thread's localhost server",
            ),
        );
    }
    match parse_bytes(bytes) {
        Err(fault) => Err(fault),
        Ok(value) => match value.field_text("error") {
            Some(message) => Err(Fault::other(message)),
            None => Ok(value),
        },
    }
}

/// So many times a preview that is not ready yet is asked for again.
pub const TRIES: u32 = 10;

/// Whether a preview is asked for again, after so many times and this answer.
pub fn asks_again(times: u32, answer: &Json) -> (r: bool)
    ensures
        r == (times < TRIES && answer@.field("state"@).is_text("pending"@)),
{
    times < TRIES && answer.field_is("state", "pending")
}

} // verus!
