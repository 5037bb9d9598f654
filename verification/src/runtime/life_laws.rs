//! What holds of every harness: its turns, its history, its calls and its end.
use super::capture::captured;
use super::life::{lived, DeedView, Happening, LifeView};
use super::process::{call_refused, exit_expected, exit_reason, first_bytes, frame_refused, inactive, MAX_LINE};
use super::{
    abilities, asked, begun, checkpointed, kind_in, kind_name, last_of, over, pi_reasoning_level, EventView, Kind,
    ProgressView,
};
use crate::fault::FaultView;
use crate::json::{Data, Number};
use crate::text::{byte_len, finishes};
use crate::wire::{denoted, text_read};
use vstd::prelude::*;
use vstd::utf8::{decode_utf8, valid_utf8};

verus! {

proof fn life_words()
    ensures
        "pi"@.len() == 2 && "pi"@[0] == 'p',
        "fx"@.len() == 2 && "fx"@[0] == 'f',
        "low"@.len() == 3,
        "none"@.len() == 4 && "none"@[0] == 'n',
        "high"@.len() == 4 && "high"@[0] == 'h',
        "line"@.len() == 4 && "line"@[0] == 'l',
        "codex"@.len() == 5 && "codex"@[0] == 'c',
        "xhigh"@.len() == 5 && "xhigh"@[0] == 'x',
        "entry"@.len() == 5 && "entry"@[0] == 'e',
        "index"@.len() == 5 && "index"@[0] == 'i',
        "steer"@.len() == 5 && "steer"@[0] == 's',
        "usage"@.len() == 5 && "usage"@[0] == 'u',
        "cursor"@.len() == 6 && "cursor"@[2] == 'r',
        "medium"@.len() == 6 && "medium"@[2] == 'd',
        "offset"@.len() == 6 && "offset"@[2] == 'f',
        "resume"@.len() == 6 && "resume"@[2] == 's',
        "rewind"@.len() == 6 && "rewind"@[2] == 'w',
        "minimal"@.len() == 7 && "minimal"@[0] == 'm',
        "compact"@.len() == 7 && "compact"@[0] == 'c',
        "snapshot"@.len() == 8 && "snapshot"@[0] == 's',
        "complete"@.len() == 8 && "complete"@[0] == 'c',
        "interrupt"@.len() == 9 && "interrupt"@[0] == 'i',
        "subagents"@.len() == 9 && "subagents"@[0] == 's',
        "attachments"@.len() == 11,
        "service_tier"@.len() == 12,
        "system_notice"@.len() == 13 && "system_notice"@[0] == 's',
        "command_guard"@.len() == 13 && "command_guard"@[0] == 'c',
        "native_record"@.len() == 13 && "native_record"@[0] == 'n',
        "interactive_dialogs"@.len() == 19,
{
    reveal_strlit("pi");
    reveal_strlit("fx");
    reveal_strlit("low");
    reveal_strlit("none");
    reveal_strlit("high");
    reveal_strlit("line");
    reveal_strlit("codex");
    reveal_strlit("xhigh");
    reveal_strlit("entry");
    reveal_strlit("index");
    reveal_strlit("steer");
    reveal_strlit("usage");
    reveal_strlit("cursor");
    reveal_strlit("medium");
    reveal_strlit("offset");
    reveal_strlit("resume");
    reveal_strlit("rewind");
    reveal_strlit("minimal");
    reveal_strlit("compact");
    reveal_strlit("snapshot");
    reveal_strlit("complete");
    reveal_strlit("interrupt");
    reveal_strlit("subagents");
    reveal_strlit("attachments");
    reveal_strlit("service_tier");
    reveal_strlit("system_notice");
    reveal_strlit("command_guard");
    reveal_strlit("native_record");
    reveal_strlit("interactive_dialogs");
    assert("pi"@.len() == 2 && "pi"@[0] == 'p');
    assert("fx"@.len() == 2 && "fx"@[0] == 'f');
    assert("low"@.len() == 3);
    assert("none"@.len() == 4 && "none"@[0] == 'n');
    assert("high"@.len() == 4 && "high"@[0] == 'h');
    assert("line"@.len() == 4 && "line"@[0] == 'l');
    assert("codex"@.len() == 5 && "codex"@[0] == 'c');
    assert("xhigh"@.len() == 5 && "xhigh"@[0] == 'x');
    assert("entry"@.len() == 5 && "entry"@[0] == 'e');
    assert("index"@.len() == 5 && "index"@[0] == 'i');
    assert("steer"@.len() == 5 && "steer"@[0] == 's');
    assert("usage"@.len() == 5 && "usage"@[0] == 'u');
    assert("cursor"@.len() == 6 && "cursor"@[2] == 'r');
    assert("medium"@.len() == 6 && "medium"@[2] == 'd');
    assert("offset"@.len() == 6 && "offset"@[2] == 'f');
    assert("resume"@.len() == 6 && "resume"@[2] == 's');
    assert("rewind"@.len() == 6 && "rewind"@[2] == 'w');
    assert("minimal"@.len() == 7 && "minimal"@[0] == 'm');
    assert("compact"@.len() == 7 && "compact"@[0] == 'c');
    assert("snapshot"@.len() == 8 && "snapshot"@[0] == 's');
    assert("complete"@.len() == 8 && "complete"@[0] == 'c');
    assert("interrupt"@.len() == 9 && "interrupt"@[0] == 'i');
    assert("subagents"@.len() == 9 && "subagents"@[0] == 's');
    assert("attachments"@.len() == 11);
    assert("service_tier"@.len() == 12);
    assert("system_notice"@.len() == 13 && "system_notice"@[0] == 's');
    assert("command_guard"@.len() == 13 && "command_guard"@[0] == 'c');
    assert("native_record"@.len() == 13 && "native_record"@[0] == 'n');
    assert("interactive_dialogs"@.len() == 19);
}
// Names.

/// Each harness has its name, and the last one that of its product; a name that is none is no harness.
pub proof fn harnesses_have_names(word: Seq<char>, name: Seq<char>)
    requires
        word != "codex"@ && word != "pi"@ && word != "cursor"@ && word != "fx"@,
    ensures
        kind_name(Kind::Codex, word) == "codex"@,
        kind_name(Kind::Pi, word) == "pi"@,
        kind_name(Kind::Cursor, word) == "cursor"@,
        kind_name(Kind::Fx, word) == "fx"@,
        kind_name(Kind::Claude, word) == word,
        kind_in(Data::Text("codex"@), word) == Some(Kind::Codex),
        kind_in(Data::Text("pi"@), word) == Some(Kind::Pi),
        kind_in(Data::Text("cursor"@), word) == Some(Kind::Cursor),
        kind_in(Data::Text("fx"@), word) == Some(Kind::Fx),
        kind_in(Data::Text(word), word) == Some(Kind::Claude),
        name != "codex"@ && name != "pi"@ && name != "cursor"@ && name != "fx"@ && name != word
            ==> kind_in(Data::Text(name), word) is None,
        kind_in(Data::Null, word) is None,
{
    life_words();
}

/// The levels of reasoning that Pi knows.
pub proof fn pi_knows_its_levels(level: Seq<char>)
    ensures
        pi_reasoning_level("none"@) && pi_reasoning_level("minimal"@) && pi_reasoning_level("low"@),
        pi_reasoning_level("medium"@) && pi_reasoning_level("high"@) && pi_reasoning_level("xhigh"@),
        level.len() == 0 || level.len() > 7 ==> !pi_reasoning_level(level),
{
    life_words();
}

/// What each harness can do.
pub proof fn harnesses_can_do_what_they_can(kind: Kind)
    ensures
        abilities(kind).field("resume"@) == Data::Bool(true),
        abilities(kind).field("interrupt"@) == Data::Bool(true),
        abilities(kind).field("interactive_dialogs"@) == Data::Bool(false),
        abilities(kind).field("attachments"@) == Data::Bool(true),
        abilities(kind).field("steer"@) == Data::Bool(kind != Kind::Claude),
        abilities(kind).field("service_tier"@) == Data::Bool(kind == Kind::Codex),
        abilities(kind).field("compact"@) == Data::Bool(kind != Kind::Cursor && kind != Kind::Fx),
        abilities(kind).field("rewind"@) == Data::Bool(kind != Kind::Cursor && kind != Kind::Fx),
        abilities(kind).field("subagents"@) == Data::Bool(kind != Kind::Cursor && kind != Kind::Fx),
        abilities(kind).field("usage"@) == Data::Bool(kind != Kind::Cursor && kind != Kind::Fx),
        abilities(kind).field("system_notice"@) == Data::Bool(kind != Kind::Cursor && kind != Kind::Fx),
{
    life_words();
}

// Turns.

/// A new request leaves nothing of the turn before: it has neither begun nor ended, in the same session and
/// with the same model.
pub proof fn requests_start_afresh(p: ProgressView, request: Seq<char>)
    ensures
        asked(p, request).request == Some(request),
        asked(p, request).native == p.native,
        asked(p, request).model == p.model,
        !asked(p, request).started,
        !asked(p, request).finished,
        asked(p, request).native_turn is None,
        asked(p, request).status.len() == 0,
        asked(p, request).processes.len() == 0,
        asked(p, request).last_text.len() == 0,
        asked(p, request).last_usage is Null,
{
}

/// The turn of a request begins and ends, each told once, for that request.
pub proof fn turns_begin_and_end(
    p: ProgressView,
    request: Seq<char>,
    status: Seq<char>,
    error: Option<Seq<char>>,
)
    ensures
        ({
            let fresh = asked(p, request);
            let (running, first) = begun(fresh);
            let (ended, last) = over(running, status, error);
            &&& first == Some(EventView::Started { request, native_turn: None })
            &&& running.started && !running.finished
            &&& last == Some(EventView::Finished { request, status, error })
            &&& ended.finished && ended.request == Some(request)
            &&& over(fresh, status, error).1 == last
        }),
{
}

/// A call for a request is made exactly where the request is the one that runs, and a new request exactly
/// where none runs.
pub proof fn calls_are_for_the_turn_that_runs(p: ProgressView, request: Seq<char>)
    ensures
        call_refused(p, Some(request), None) is None <==> p.request == Some(request) && !p.finished,
        call_refused(p, None, Some(request)) is None <==> p.request is None || p.finished,
        inactive(p, request) <==> p.request != Some(request) || p.finished,
{
}

// History.

/// A record of a history that grows follows the one before without a gap, and the place moves on by its
/// length.
pub proof fn histories_grow_without_gaps(
    kind: Kind,
    previous: Data,
    data: Data,
    line: Seq<char>,
    was: u64,
    offset: u64,
)
    requires
        kind == Kind::Codex || kind == Kind::Claude,
        previous.field("offset"@) == Data::Number(Number::Unsigned(was)),
        data.field("offset"@) == Data::Number(Number::Unsigned(offset)),
        offset + byte_len(line) <= u64::MAX,
    ensures
        offset != was ==> checkpointed(kind, previous, data, Some(line)) is Err,
        offset == was ==> (checkpointed(kind, previous, data, Some(line)) matches Ok(next) && next.field(
            "offset"@,
        ) == Data::Number(Number::Unsigned((offset + byte_len(line)) as u64))),
        checkpointed(kind, previous, data, None) is Err,
{
    life_words();
}

/// An entry of Pi is the place where reading goes on.
pub proof fn entries_are_places(previous: Data, data: Data, line: Seq<char>, entry: Seq<char>)
    requires
        data.field("cursor"@).field("entry"@) == Data::Text(entry),
        entry.len() > 0,
    ensures
        checkpointed(Kind::Pi, previous, data, Some(line)) matches Ok(next) && next.field("entry"@)
            == Data::Text(entry) && next.field("line"@) == Data::Text(line),
        checkpointed(Kind::Pi, previous, data, None) is Err,
{
    life_words();
}

/// A snapshot of Cursor and fx is taken from its beginning, part after part.
pub proof fn snapshots_are_taken_in_order(
    kind: Kind,
    previous: Data,
    data: Data,
    line: Seq<char>,
    snapshot: Seq<char>,
    index: u64,
)
    requires
        kind == Kind::Cursor || kind == Kind::Fx,
        data.field("snapshot"@) == Data::Text(snapshot),
        data.field("index"@) == Data::Number(Number::Unsigned(index)),
        index < u64::MAX,
    ensures
        ({
            let next = checkpointed(kind, previous, data, Some(line));
            let follows = index == 0 || (previous.field("snapshot"@) == Data::Text(snapshot)
                && previous.field("index"@) == Data::Number(Number::Unsigned(index)));
            &&& next is Ok <==> follows
            &&& follows ==> next->Ok_0.field("snapshot"@) == Data::Text(snapshot)
                && next->Ok_0.field("index"@) == Data::Number(Number::Unsigned((index + 1) as u64))
                && next->Ok_0.field("complete"@) == Data::Bool(
                data.field("complete"@) == Data::Bool(true),
            )
            &&& checkpointed(kind, previous, data, None) is Err
        }),
{
    life_words();
}

/// The next line of a history is recorded, word for word, where it begins, and reading goes on behind it.
pub proof fn next_lines_are_recorded(was: u64, length: u64, raw: Seq<char>, product: Seq<char>)
    requires
        was <= length,
        byte_len(raw) <= MAX_LINE,
        finishes(raw, "\n"@),
        text_read(raw) is Ok,
        was + byte_len(raw) <= u64::MAX,
    ensures
        ({
            let (offset, more, told) = captured(was, length, seq![raw], product);
            &&& offset == was + byte_len(raw)
            &&& told is Ok && told->Ok_0.len() == 1
            &&& told->Ok_0[0] matches EventView::Record { kind, data, native } && kind
                == "native_record"@ && native == Some(raw) && data.field("offset"@) == Data::Number(
                Number::Unsigned(was),
            )
        }),
{
    life_words();
    reveal_with_fuel(super::capture::batch, 3);
    assert(seq![raw].drop_last() =~= Seq::<Seq<char>>::empty());
    assert(seq![raw].last() == raw);
}

/// A line that is not finished waits; a history that became shorter is a fault.
pub proof fn unfinished_lines_wait(was: u64, length: u64, raw: Seq<char>, product: Seq<char>)
    ensures
        length < was ==> captured(was, length, seq![raw], product).2 is Err,
        was <= length && byte_len(raw) <= MAX_LINE && !finishes(raw, "\n"@) ==> captured(
            was,
            length,
            seq![raw],
            product,
        ).2 == Ok::<Seq<EventView>, FaultView>(Seq::empty()) && captured(
            was,
            length,
            seq![raw],
            product,
        ).0 == was,
{
    reveal_with_fuel(super::capture::batch, 3);
    assert(seq![raw].drop_last() =~= Seq::<Seq<char>>::empty());
    assert(seq![raw].last() == raw);
}

/// What is left of what was written to the error output is its end.
pub proof fn ends_are_left(all: Seq<u8>, count: int)
    requires
        0 <= count,
    ensures
        all.len() <= count ==> last_of(all, count) == all,
        all.len() > count ==> last_of(all, count).len() == count && last_of(all, count) == all.skip(
            all.len() - count,
        ),
        first_bytes(all).len() <= MAX_LINE,
        all.len() <= MAX_LINE ==> first_bytes(all) == all,
{
    if all.len() > count {
        assert(last_of(all, count) =~= all.skip(all.len() - count));
    }
}

/// A line of the harness is taken exactly where it is one: finished, not too long, and JSON in UTF-8.
pub proof fn lines_are_taken_where_they_are_sound(line: Seq<u8>)
    ensures
        frame_refused(line) is None <==> 0 < line.len() <= MAX_LINE && line.last() == 10 && valid_utf8(
            line,
        ) && denoted(decode_utf8(line)) is Some,
{
}

// Lives.

/// A process that is told to end has so long to do so, and is told once how: by its protocol, or by the end of
/// its input.
pub proof fn processes_have_time_to_end(l: LifeView, now: u64, frames: bool)
    requires
        l.deadline is None,
        now <= u64::MAX - 4000,
    ensures
        ({
            let (after, deed) = lived(l, Happening::Stop { now, frames });
            &&& after.deadline == Some((now + 4000) as u64)
            &&& after.close_pending == frames
            &&& frames ==> deed == DeedView::SendClose && after.input_open == l.input_open
            &&& !frames ==> deed == DeedView::CloseInput && !after.input_open
            &&& after.pending == l.pending && after.last_call == l.last_call
        }),
{
}

/// A process ends as it does: by itself, as it was told to, or by force.
pub proof fn processes_end_as_they_do(l: LifeView)
    ensures
        l.deadline is None ==> lived(l, Happening::Exit).1 == DeedView::End("harness process exited"@)
            && lived(l, Happening::Deadline).1 == DeedView::Wait,
        l.deadline is Some ==> lived(l, Happening::Exit).1 == DeedView::End(
            "service stopped owned harness"@,
        ) && lived(l, Happening::Deadline).1 == DeedView::End("harness shutdown timed out"@),
        lived(l, Happening::WriteFailed).1 == DeedView::End("harness stdin closed"@),
{
}

/// Each call has the next number, and waits for its answer where somebody does.
pub proof fn calls_are_numbered(l: LifeView, allowed: bool, waits: bool, dispatched: bool)
    requires
        l.last_call < u64::MAX,
    ensures
        ({
            let (after, deed) = lived(l, Happening::Call { allowed });
            &&& allowed && l.deadline is None ==> deed == (DeedView::WriteCall {
                id: (l.last_call + 1) as u64,
            }) && after.last_call == l.last_call + 1
            &&& !allowed || l.deadline is Some ==> deed == DeedView::RefuseCall && after == l
        }),
        ({
            let (after, deed) = lived(l, Happening::Called { waits, dispatched });
            &&& waits && !dispatched ==> after.pending == l.pending.push(l.last_call) && deed
                == DeedView::Wait
            &&& waits && dispatched ==> after == l && deed == DeedView::AnswerNow
            &&& !waits ==> after == l && deed == DeedView::Wait
        }),
{
}

/// An answer goes to the call that waits for it; the others wait on. A confirmed close ends the input.
pub proof fn answers_go_to_their_call(l: LifeView, closed: bool, id: u64, other: u64)
    requires
        id != other,
    ensures
        ({
            let (after, deed) = lived(l, Happening::Responded { closed, settles: Some(id) });
            &&& deed matches DeedView::Settle { close_input, answers } && (l.pending.contains(id)
                ==> answers == Some(id)) && (!l.pending.contains(id) ==> answers is None)
                && close_input == (l.close_pending && closed)
            &&& after.pending.contains(other) <==> l.pending.contains(other)
            &&& !after.pending.contains(id)
            &&& l.close_pending && closed ==> !after.close_pending && !after.input_open
            &&& !closed ==> after.close_pending == l.close_pending && after.input_open == l.input_open
        }),
{
    others_stay(l.pending, id, other);
    others_stay(l.pending, other, id);
}

proof fn others_stay(calls: Seq<u64>, id: u64, other: u64)
    requires
        id != other,
    ensures
        super::life::calls_without(calls, id).contains(other) <==> calls.contains(other),
        !super::life::calls_without(calls, id).contains(id),
    decreases calls.len(),
{
    if calls.len() > 0 {
        let rest = calls.drop_last();
        others_stay(rest, id, other);
        let before = super::life::calls_without(rest, id);
        let all = super::life::calls_without(calls, id);
        if rest.contains(other) {
            let i = choose|i: int| 0 <= i < rest.len() && rest[i] == other;
            assert(calls[i] == other);
        }
        if before.contains(other) {
            let i = choose|i: int| 0 <= i < before.len() && before[i] == other;
            assert(all[i] == other);
        }
        if calls.last() == other {
            assert(all[all.len() - 1] == other);
            assert(calls[calls.len() - 1] == other);
        }
        if calls.contains(other) && !rest.contains(other) {
            let i = choose|i: int| 0 <= i < calls.len() && calls[i] == other;
            if i < rest.len() {
                assert(rest[i] == other);
            }
        }
        if all.contains(other) && !before.contains(other) {
            let i = choose|i: int| 0 <= i < all.len() && all[i] == other;
            if i < before.len() {
                assert(before[i] == other);
            }
        }
        if all.contains(id) {
            let i = choose|i: int| 0 <= i < all.len() && all[i] == id;
            if i < before.len() {
                assert(before[i] == id);
            }
        }
    } else {
        assert(super::life::calls_without(calls, id).len() == 0);
    }
}

/// A line that comes goes its way: it is looked at, taken in, told, answered; the first thing that goes wrong
/// ends the process.
pub proof fn lines_go_their_way(l: LifeView, count: usize)
    ensures
        count > 0 ==> lived(l, Happening::Read { count: Some(count) }).1 == DeedView::Parse,
        lived(l, Happening::Read { count: None }).1 is End,
        l.deadline is None ==> lived(l, Happening::Read { count: Some(0) }).1 is End,
        l.deadline is Some ==> lived(l, Happening::Read { count: Some(0) }).1 == DeedView::Wait && lived(
            l,
            Happening::Read { count: Some(0) },
        ).0.output_closed,
        lived(l, Happening::Parsed { wrong: None }).1 == DeedView::Receive,
        lived(l, Happening::Received { valid: true }).1 == DeedView::Tell,
        lived(l, Happening::Received { valid: false }).1 is End,
        lived(l, Happening::Told { taken: true }).1 == DeedView::Respond,
        lived(l, Happening::Told { taken: false }).1 is End,
        lived(l, Happening::Captured { valid: true }).1 == DeedView::TellHistory,
        lived(l, Happening::Captured { valid: false }).1 is End,
        lived(l, Happening::HistoryTold { taken: true }).1 == DeedView::Wait,
        lived(l, Happening::HistoryTold { taken: false }).1 is End,
{
}

/// An end is as expected exactly where the process was stopped, went gracefully and confirmed it; a workload
/// that may still run is told first, then a history that was not read.
pub proof fn ends_are_told(reason: Seq<char>, captured: bool, graceful: bool, close_pending: bool)
    ensures
        exit_expected("service stopped owned harness"@, graceful, close_pending) <==> graceful
            && !close_pending,
        reason != "service stopped owned harness"@ ==> !exit_expected(reason, graceful, close_pending),
        exit_reason(reason, true, true) == reason,
        exit_reason(reason, captured, false) == "workload exit unconfirmed; refusing replacement"@,
        exit_reason(reason, false, true) == "native history capture failed at exit"@,
{
}

} // verus!
