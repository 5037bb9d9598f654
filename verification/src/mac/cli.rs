//! The command by which agents use the machine of the user.
use super::{hex, quote, quoted, unhex, unhexed};
use crate::fault::{other, Fault, FaultView};
use crate::hex::hex_bytes;
use crate::json::{object, opt_text, Data, Json};
use crate::text::{
    all_in, all_text_in, concat3, join, joined, opt, opt_str, push_string, same,
    views, Class,
};
use crate::wire::{bytes_read, parse_bytes, write_json, written};
use vstd::prelude::*;
use vstd::slice::slice_subrange;

verus! {

/// What is asked for on the command line.
#[derive(Debug)]
pub enum Ask {
    /// A command is run. `stdin` says that the input is read first.
    Run { command: String, cwd: Option<String>, stdin: bool },
    Result { job: String },
    Status,
    Pull { source: String, target: String },
    Push { source: String, target: String },
    /// The usage is shown, and the program ends with a code.
    Usage { code: i32 },
    /// The usage is an error.
    Misused,
}

/// The mathematical value of what is asked for.
pub enum AskView {
    Run { command: Seq<char>, cwd: Option<Seq<char>>, stdin: bool },
    Result { job: Seq<char> },
    Status,
    Pull { source: Seq<char>, target: Seq<char> },
    Push { source: Seq<char>, target: Seq<char> },
    Usage { code: i32 },
    Misused,
}

impl View for Ask {
    type V = AskView;

    open spec fn view(&self) -> AskView {
        match self {
            Ask::Run { command, cwd, stdin } => AskView::Run {
                command: command@,
                cwd: opt(*cwd),
                stdin: *stdin,
            },
            Ask::Result { job } => AskView::Result { job: job@ },
            Ask::Status => AskView::Status,
            Ask::Pull { source, target } => AskView::Pull { source: source@, target: target@ },
            Ask::Push { source, target } => AskView::Push { source: source@, target: target@ },
            Ask::Usage { code } => AskView::Usage { code: *code },
            Ask::Misused => AskView::Misused,
        }
    }
}

/// The words of a command from a place on. Options are read until the first word that is none.
pub open spec fn run_asked(
    args: Seq<Seq<char>>,
    i: int,
    cwd: Option<Seq<char>>,
    stdin: bool,
) -> AskView
    decreases args.len() - i,
{
    if i >= args.len() {
        AskView::Misused
    } else if args[i] == "--cwd"@ {
        if i + 1 < args.len() {
            run_asked(args, i + 2, Some(args[i + 1]), stdin)
        } else {
            AskView::Misused
        }
    } else if args[i] == "--stdin"@ {
        run_asked(args, i + 1, cwd, true)
    } else {
        AskView::Run { command: joined(args.skip(i), " "@), cwd, stdin }
    }
}

/// What is asked for, from a place on.
pub open spec fn asked(args: Seq<Seq<char>>, i: int) -> AskView {
    let name = if i < args.len() {
        args[i]
    } else {
        ""@
    };
    let count = if i < args.len() {
        args.len() - i - 1
    } else {
        0
    };
    if name == "run"@ {
        run_asked(args, i + 1, None, false)
    } else if name == "result"@ && count == 1 && all_in(args[i + 1], Class::Digit, "-"@) {
        AskView::Result { job: args[i + 1] }
    } else if name == "status"@ && count == 0 {
        AskView::Status
    } else if name == "pull"@ && (count == 1 || count == 2) {
        AskView::Pull {
            source: args[i + 1],
            target: if count == 2 {
                args[i + 2]
            } else {
                "."@
            },
        }
    } else if name == "push"@ && (count == 1 || count == 2) {
        AskView::Push {
            source: args[i + 1],
            target: if count == 2 {
                args[i + 2]
            } else {
                "~"@
            },
        }
    } else {
        AskView::Usage {
            code: if name.len() == 0 || name == "--help"@ {
                0
            } else {
                2
            },
        }
    }
}

/// Where the words begin: after the option that names a socket.
pub open spec fn start_of(args: Seq<Seq<char>>) -> int {
    if args.len() > 1 && args[0] == "--socket"@ {
        2
    } else {
        0
    }
}

fn parse_run(args: &Vec<String>, start: usize) -> (r: Ask)
    requires
        start <= args@.len(),
    ensures
        r@ == run_asked(views(args@), start as int, None, false),
{
    let ghost all = views(args@);
    let mut cwd: Option<String> = None;
    let mut stdin = false;
    let mut i: usize = start;
    while i < args.len()
        invariant
            i <= args.len(),
            all == views(args@),
            run_asked(all, start as int, None, false) == run_asked(all, i as int, opt(cwd), stdin),
        decreases args.len() - i,
    {
        let word = args[i].as_str();
        assert(all[i as int] == word@);
        if same(word, "--cwd") {
            if i + 1 < args.len() {
                assert(all[i + 1] == args@[i + 1]@);
                cwd = Some(args[i + 1].clone());
                i += 2;
            } else {
                return Ask::Misused;
            }
        } else if same(word, "--stdin") {
            stdin = true;
            i += 1;
        } else {
            let mut words: Vec<String> = Vec::new();
            let mut k: usize = i;
            let ghost rest = all.skip(i as int);
            assert(views(words@) =~= rest.take(0));
            while k < args.len()
                invariant
                    i <= k <= args.len(),
                    all == views(args@),
                    rest == all.skip(i as int),
                    views(words@) == rest.take(k - i),
                decreases args.len() - k,
            {
                assert(rest[k - i] == args@[k as int]@);
                push_string(&mut words, args[k].as_str());
                assert(rest.take(k - i + 1) =~= rest.take(k - i).push(rest[k - i]));
                k += 1;
            }
            assert(rest.take(k - i) =~= rest);
            return Ask::Run { command: join(&words, " "), cwd, stdin };
        }
    }
    Ask::Misused
}

/// What is asked for on the command line, and the socket that is named.
pub fn parse(args: &Vec<String>) -> (r: (Option<String>, Ask))
    ensures
        opt(r.0) == if start_of(views(args@)) == 2 {
            Some(args@[1]@)
        } else {
            None
        },
        r.1@ == asked(views(args@), start_of(views(args@))),
{
    proof {
        reveal_strlit("");
        reveal_strlit("run");
        assert(""@.len() == 0);
        assert("run"@.len() == 3);
    }
    let ghost all = views(args@);
    let mut socket: Option<String> = None;
    let mut i: usize = 0;
    if args.len() > 1 {
        assert(all[0] == args@[0]@ && all[1] == args@[1]@);
        if same(args[0].as_str(), "--socket") {
            socket = Some(args[1].clone());
            i = 2;
        }
    }
    assert(i == start_of(all));
    let name = if i < args.len() {
        assert(all[i as int] == args@[i as int]@);
        args[i].as_str()
    } else {
        ""
    };
    let count = if i < args.len() {
        args.len() - i - 1
    } else {
        0
    };
    if same(name, "run") {
        return (socket, parse_run(args, i + 1));
    }
    if same(name, "result") && count == 1 {
        assert(all[i + 1] == args@[i + 1]@);
        if all_text_in(args[i + 1].as_str(), Class::Digit, "-") {
            return (socket, Ask::Result { job: args[i + 1].clone() });
        }
    }
    if same(name, "status") && count == 0 {
        return (socket, Ask::Status);
    }
    let pull = same(name, "pull");
    if (pull || same(name, "push")) && (count == 1 || count == 2) {
        assert(all[i + 1] == args@[i + 1]@);
        let source = args[i + 1].clone();
        let target = if count == 2 {
            assert(all[i + 2] == args@[i + 2]@);
            args[i + 2].clone()
        } else if pull {
            ".".to_owned()
        } else {
            "~".to_owned()
        };
        return (
            socket,
            if pull {
                Ask::Pull { source, target }
            } else {
                Ask::Push { source, target }
            },
        );
    }
    let code: i32 = if crate::text::chars_of(name).len() == 0 || same(name, "--help") {
        0
    } else {
        2
    };
    (socket, Ask::Usage { code })
}

/// What is sent to run a command.
pub fn run_body(command: &str, input: &[u8], cwd: Option<&str>) -> (r: Json)
    ensures
        r@ == Data::Object(
            map![
                "command"@ => Data::Text(command@),
                "stdin"@ => Data::Text(hex_bytes(input@)),
                "cwd"@ => opt_text(opt_str(cwd))
            ],
        ),
{
    Json::Object(
        object().with_text("command", command).with_text("stdin", hex(input).as_str()).with(
            "cwd",
            Json::opt_text(cwd),
        ),
    )
}

/// The command that packs a file of the machine of the user.
pub fn pull_command(source: &str) -> (r: String)
    ensures
        r@ == "p="@ + quoted(source@)
            + "; cd -- \"$(dirname -- \"$p\")\" && COPYFILE_DISABLE=1 tar --no-xattrs -czf - -- \"$(basename -- \"$p\")\""@,
{
    concat3(
        "p=",
        quote(source).as_str(),
        "; cd -- \"$(dirname -- \"$p\")\" && COPYFILE_DISABLE=1 tar --no-xattrs -czf - -- \"$(basename -- \"$p\")\"",
    )
}

/// The command that unpacks a file on the machine of the user.
pub fn push_command(target: &str) -> (r: String)
    ensures
        r@ == "d="@ + quoted(target@) + "; mkdir -p -- \"$d\" && tar -xzf - -C \"$d\""@,
{
    concat3(
        "d=",
        quote(target).as_str(),
        "; mkdir -p -- \"$d\" && tar -xzf - -C \"$d\"",
    )
}

// The answer of the service.

/// The end of a head: an empty line.
pub open spec fn ends_head(bytes: Seq<u8>, i: int) -> bool {
    0 <= i && i + 4 <= bytes.len() && bytes[i] == 13 && bytes[i + 1] == 10 && bytes[i + 2] == 13
        && bytes[i + 3] == 10
}

/// What the body of an answer says.
pub open spec fn body_in(bytes: Seq<u8>) -> Result<Data, FaultView> {
    match bytes_read(bytes) {
        Err(f) => Err(f),
        Ok(value) => match value.field("error"@).as_text() {
            Some(message) => Err(other(message)),
            None => Ok(value),
        },
    }
}

/// What an answer says, looked for from a place on.
pub open spec fn answer_from(bytes: Seq<u8>, i: int) -> Result<Data, FaultView>
    decreases bytes.len() - i,
{
    if i < 0 || i + 4 > bytes.len() {
        Err(other("invalid Mac access response"@))
    } else if ends_head(bytes, i) {
        body_in(bytes.skip(i + 4))
    } else {
        answer_from(bytes, i + 1)
    }
}

/// What an answer says.
pub fn read_response(bytes: &[u8]) -> (r: Result<Json, Fault>)
    ensures
        crate::runtime::json_result(r) == answer_from(bytes@, 0),
{
    let ghost all = bytes@;
    let count = bytes.len();
    let mut i: usize = 0;
    while count >= 4 && i <= count - 4
        invariant
            count == bytes.len(),
            bytes@ == all,
            i <= count,
            answer_from(all, 0) == answer_from(all, i as int),
        decreases count - i,
    {
        if bytes[i] == 13 && bytes[i + 1] == 10 && bytes[i + 2] == 13 && bytes[i + 3] == 10 {
            let rest = slice_subrange(bytes, i + 4, count);
            assert(rest@ =~= all.skip(i + 4));
            return match parse_bytes(rest) {
                Err(fault) => Err(fault),
                Ok(value) => match value.field_text("error") {
                    Some(message) => Err(Fault::other(message)),
                    None => Ok(value),
                },
            };
        }
        i += 1;
    }
    Err(Fault::other("invalid Mac access response"))
}

/// What a command has given.
#[derive(Debug)]
pub struct Finished {
    pub code: Option<i32>,
    pub stdout: Vec<u8>,
    pub stderr: Vec<u8>,
    pub truncated: bool,
}

/// The exit code in an answer.
pub open spec fn code_in(value: Data) -> Option<i32> {
    match value.field("code"@).as_i64() {
        Some(n) => Some(n as i32),
        None => None,
    }
}

/// The bytes of output in an answer.
pub open spec fn stream_in(value: Data, key: Seq<char>) -> Option<Seq<u8>> {
    match value.field(key).as_text() {
        Some(text) => unhexed(text),
        None => None,
    }
}

/// What a command has given, or the answer itself where it has not ended.
pub fn finished(value: &Json) -> (r: Result<Finished, Fault>)
    ensures
        match r {
            Ok(f) => {
                &&& value@.field("state"@).is_text("done"@)
                &&& f.code == code_in(value@)
                &&& stream_in(value@, "stdout"@) == Some(f.stdout@)
                &&& stream_in(value@, "stderr"@) == Some(f.stderr@)
                &&& f.truncated == value@.field("truncated"@).is_true()
            },
            Err(e) => if !value@.field("state"@).is_text("done"@) {
                e@ == other(written(value@))
            } else {
                (stream_in(value@, "stdout"@) is None || stream_in(value@, "stderr"@) is None)
                    && e@ == other("invalid Mac output"@)
            },
        },
{
    if !value.field_is("state", "done") {
        return Err(Fault::other(write_json(value).as_str()));
    }
    let stdout = match value.field_text("stdout") {
        Some(text) => unhex(text),
        None => None,
    };
    let stderr = match value.field_text("stderr") {
        Some(text) => unhex(text),
        None => None,
    };
    let code: Option<i32> = match value.field("code").as_i64() {
        Some(n) => Some(
            #[verifier::truncate]
            (n as i32),
        ),
        None => None,
    };
    match (stdout, stderr) {
        (Some(stdout), Some(stderr)) => Ok(
            Finished { code, stdout, stderr, truncated: value.field("truncated").is_true() },
        ),
        _ => Err(Fault::other("invalid Mac output")),
    }
}

} // verus!
