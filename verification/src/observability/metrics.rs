//! The history of how busy the machine was, in buckets of time.
use crate::fault::{Fault, FaultView};
use crate::json::{no_json, object, push_json, uint, values, Data, Json};
use crate::runtime::auth::{passed, since};
use crate::runtime::json_result;
use crate::text::{same, views};
use crate::wire::{parse, text_read};
use vstd::prelude::*;

verus! {

/// How far back the history goes.
#[derive(Clone, Copy, PartialEq, Eq, Structural, Debug)]
pub enum Range {
    Hour,
    Day,
    Week,
    Month,
}

/// The name of a range in requests.
pub open spec fn range_name(range: Range) -> Seq<char> {
    match range {
        Range::Hour => "1h"@,
        Range::Day => "24h"@,
        Range::Week => "7d"@,
        Range::Month => "30d"@,
    }
}

/// The milliseconds of a range, and of one bucket in it.
pub open spec fn windows(range: Range) -> (u64, u64) {
    match range {
        Range::Hour => (3_600_000, 30_000),
        Range::Day => (86_400_000, 300_000),
        Range::Week => (604_800_000, 1_800_000),
        Range::Month => (2_592_000_000, 10_800_000),
    }
}

/// Where the history of a range begins.
pub open spec fn begins_at(range: Range, to: u64) -> u64 {
    let (span, step) = windows(range);
    let from = if to >= span {
        to - span
    } else {
        0
    };
    (from / step as int * step) as u64
}

impl Range {
    /// The milliseconds of the range, and of one bucket in it.
    pub fn window(self) -> (r: (u64, u64))
        ensures
            r == windows(self),
    {
        match self {
            Range::Hour => (3_600_000, 30_000),
            Range::Day => (86_400_000, 300_000),
            Range::Week => (604_800_000, 1_800_000),
            Range::Month => (2_592_000_000, 10_800_000),
        }
    }

    /// The name of the range in requests.
    pub fn name(self) -> (r: &'static str)
        ensures
            r@ == range_name(self),
    {
        match self {
            Range::Hour => "1h",
            Range::Day => "24h",
            Range::Week => "7d",
            Range::Month => "30d",
        }
    }

    /// The range of a name; the shortest where none is named.
    pub fn named(name: Option<&str>) -> (r: Option<Range>)
        ensures
            match name {
                None => r == Some(Range::Hour),
                Some(name) => match r {
                    Some(range) => name@ == range_name(range),
                    None => forall|range: Range| name@ != #[trigger] range_name(range),
                },
            },
    {
        let name = match name {
            Some(name) => name,
            None => {
                return Some(Range::Hour);
            },
        };
        proof {
            reveal_strlit("1h");
            reveal_strlit("24h");
            reveal_strlit("7d");
            reveal_strlit("30d");
        }
        if same(name, "1h") {
            Some(Range::Hour)
        } else if same(name, "24h") {
            Some(Range::Day)
        } else if same(name, "7d") {
            Some(Range::Week)
        } else if same(name, "30d") {
            Some(Range::Month)
        } else {
            None
        }
    }

    /// Where the history of the range begins. Buckets begin at the same times whoever asks.
    pub fn start(self, to: u64) -> (r: u64)
        ensures
            r == begins_at(self, to),
    {
        let (span, step) = self.window();
        let from = if to >= span {
            to - span
        } else {
            0
        };
        proof {
            assert(from / step * step <= from) by (nonlinear_arith)
                requires
                    step > 0,
            ;
        }
        from / step * step
    }
}

/// A history that was read a moment ago is not read again.
pub fn is_fresh(read_at: u64, now: u64) -> (r: bool)
    ensures
        r == (passed(now, read_at) < 30_000),
{
    since(now, read_at) < 30_000
}

/// What is told of the history.
pub open spec fn told(range: Range, to: u64, points: Seq<Data>) -> Data {
    Data::Object(
        map![
            "version"@ => uint(1),
            "range"@ => Data::Text(range_name(range)),
            "from"@ => uint(begins_at(range, to)),
            "to"@ => uint(to),
            "bucketMs"@ => uint(windows(range).1),
            "points"@ => Data::Array(points)
        ],
    )
}

/// What is told of the history.
pub fn answer(range: Range, to: u64, points: Vec<Json>) -> (r: Json)
    ensures
        r@ == told(range, to, values(points@)),
{
    let (span, step) = range.window();
    Json::Object(
        object().with("version", Json::uint(1)).with_text("range", range.name()).with(
            "from",
            Json::uint(range.start(to)),
        ).with("to", Json::uint(to)).with("bucketMs", Json::uint(step)).with(
            "points",
            Json::Array(points),
        ),
    )
}

/// The points that rows of the database hold, one in each, or why the first row that cannot be read is
/// no point.
pub open spec fn points_read(rows: Seq<Seq<char>>) -> Result<Seq<Data>, FaultView>
    decreases rows.len(),
{
    if rows.len() == 0 {
        Ok(Seq::empty())
    } else {
        match points_read(rows.drop_last()) {
            Err(fault) => Err(fault),
            Ok(points) => match text_read(rows.last()) {
                Err(fault) => Err(fault),
                Ok(point) => Ok(points.push(point)),
            },
        }
    }
}

proof fn unread_rows_stay(rows: Seq<Seq<char>>, n: int)
    requires
        0 <= n <= rows.len(),
        points_read(rows.take(n)) is Err,
    ensures
        points_read(rows) == points_read(rows.take(n)),
    decreases rows.len() - n,
{
    if n < rows.len() {
        assert(rows.take(n + 1).drop_last() =~= rows.take(n));
        unread_rows_stay(rows, n + 1);
    } else {
        assert(rows.take(n) =~= rows);
    }
}

/// What is told of the history that rows of the database hold.
pub fn answer_rows(range: Range, to: u64, rows: &Vec<String>) -> (r: Result<Json, Fault>)
    ensures
        json_result(r) == match points_read(views(rows@)) {
            Ok(points) => Ok(told(range, to, points)),
            Err(fault) => Err(fault),
        },
{
    let mut points = no_json();
    let ghost all = views(rows@);
    let mut i: usize = 0;
    assert(all.take(0) =~= Seq::empty());
    assert(values(points@) =~= Seq::empty());
    while i < rows.len()
        invariant
            i <= rows.len(),
            all == views(rows@),
            points_read(all.take(i as int)) == Ok::<_, FaultView>(values(points@)),
        decreases rows.len() - i,
    {
        assert(all.take(i + 1).drop_last() =~= all.take(i as int));
        assert(all.take(i + 1).last() == rows@[i as int]@);
        match parse(rows[i].as_str()) {
            Ok(point) => push_json(&mut points, point),
            Err(fault) => {
                proof {
                    unread_rows_stay(all, i + 1);
                }
                return Err(fault);
            },
        }
        i += 1;
    }
    assert(all.take(i as int) =~= all);
    Ok(answer(range, to, points))
}

/// The history covers its whole range, begins where a bucket does, and is at most one bucket longer.
pub proof fn ranges_are_covered(range: Range, to: u64)
    requires
        to >= windows(range).0,
    ensures
        begins_at(range, to) as int % windows(range).1 as int == 0,
        begins_at(range, to) <= to - windows(range).0,
        to - windows(range).0 - begins_at(range, to) < windows(range).1,
{
    let from = to - windows(range).0;
    let step = windows(range).1 as int;
    assert(from / step * step <= from && from - from / step * step < step && (from / step * step)
        % step == 0) by (nonlinear_arith)
        requires
            step > 0,
            from >= 0,
    ;
}

} // verus!
