//! How busy the machine is, as its own files tell.
use crate::json::{object, opt_uint, uint, Data, Fields, Json};
use crate::text::{
    chars_of, deep, lines, lines_of, number, parse_number, same, string_of, words, words_of,
};
use vstd::prelude::*;

verus! {

/// The time that the processors have run, and how much of it they had nothing to do.
#[derive(Clone, Copy, PartialEq, Eq, Structural, Debug)]
pub struct Times {
    pub total: u64,
    pub idle: u64,
}

/// The sum of the first counters.
pub open spec fn sum(counters: Seq<nat>) -> nat
    decreases counters.len(),
{
    if counters.len() == 0 {
        0
    } else {
        sum(counters.drop_last()) + counters.last()
    }
}

/// The first counters on a line, after its first word, where each is a number.
pub open spec fn counters(line: Seq<Seq<char>>, count: nat) -> Option<Seq<nat>>
    decreases count,
{
    if count == 0 {
        Some(Seq::empty())
    } else if line.len() <= count {
        None
    } else {
        match (
            counters(line, (count - 1) as nat),
            number(line[count as int], u64::MAX as nat),
        ) {
            (Some(before), Some(n)) => Some(before.push(n)),
            _ => None,
        }
    }
}

/// What the first line of the processor times says. Time for guests is part of other times, so only
/// the first eight counters count. Nothing where a time does not fit.
pub open spec fn times_in(text: Seq<char>) -> Option<Times> {
    let all = lines(text);
    if all.len() == 0 {
        None
    } else {
        let line = words(all[0]);
        if line.len() == 0 || line[0] != "cpu"@ {
            None
        } else {
            match counters(line, 8) {
                None => None,
                Some(c) => if sum(c) <= u64::MAX {
                    Some(Times { total: sum(c) as u64, idle: (c[3] + c[4]) as u64 })
                } else {
                    None
                },
            }
        }
    }
}

proof fn counters_grow(line: Seq<Seq<char>>, n: nat, count: nat)
    requires
        n <= count,
        counters(line, count) is Some,
    ensures
        counters(line, n) is Some,
        counters(line, n)->0.len() == n,
        sum(counters(line, n)->0) <= sum(counters(line, count)->0),
        counters(line, count)->0.len() == count,
        counters(line, n)->0 == counters(line, count)->0.take(n as int),
    decreases count,
{
    let all = counters(line, count)->0;
    if n < count {
        counters_grow(line, n, (count - 1) as nat);
        let before = counters(line, (count - 1) as nat)->0;
        assert(all.drop_last() =~= before);
        assert(all.take(n as int) =~= before.take(n as int));
    } else {
        if count > 0 {
            counters_grow(line, (count - 1) as nat, (count - 1) as nat);
        }
        assert(all.take(n as int) =~= all);
    }
}

proof fn counters_need_all(line: Seq<Seq<char>>, n: nat, count: nat)
    requires
        n <= count,
        counters(line, n) is None,
    ensures
        counters(line, count) is None,
    decreases count,
{
    if n < count {
        counters_need_all(line, n, (count - 1) as nat);
    }
}

fn read_line(line: &Vec<Vec<char>>) -> (r: Option<Times>)
    ensures
        r == match counters(deep(line@), 8) {
            None => None,
            Some(c) => if sum(c) <= u64::MAX {
                Some(Times { total: sum(c) as u64, idle: (c[3] + c[4]) as u64 })
            } else {
                None
            },
        },
{
    let ghost all = deep(line@);
    let mut total: u64 = 0;
    let mut idle: u64 = 0;
    let mut large = false;
    let mut i: usize = 0;
    while i < 8
        invariant
            i <= 8,
            all == deep(line@),
            counters(all, i as nat) is Some,
            counters(all, i as nat)->0.len() == i,
            large ==> sum(counters(all, i as nat)->0) > u64::MAX,
            !large ==> total == sum(counters(all, i as nat)->0),
            !large ==> idle == (if i > 3 {
                counters(all, i as nat)->0[3]
            } else {
                0
            }) + (if i > 4 {
                counters(all, i as nat)->0[4]
            } else {
                0
            }),
            !large ==> idle <= total,
        decreases 8 - i,
    {
        let ghost before = counters(all, i as nat)->0;
        if line.len() <= i + 1 {
            proof {
                assert(all.len() <= i + 1);
                assert(counters(all, (i + 1) as nat) is None);
                counters_need_all(all, (i + 1) as nat, 8);
            }
            return None;
        }
        assert(all[i + 1] == line@[i + 1]@);
        match parse_number(line[i + 1].as_slice(), u64::MAX) {
            None => {
                proof {
                    assert(counters(all, (i + 1) as nat) is None);
                    counters_need_all(all, (i + 1) as nat, 8);
                }
                return None;
            },
            Some(n) => {
                let ghost after = before.push(n as nat);
                assert(counters(all, (i + 1) as nat) == Some(after));
                assert(after.drop_last() =~= before);
                if !large {
                    match total.checked_add(n) {
                        Some(t) => {
                            total = t;
                            if i == 3 || i == 4 {
                                idle = idle + n;
                            }
                        },
                        None => {
                            large = true;
                        },
                    }
                }
            },
        }
        i += 1;
    }
    if large {
        None
    } else {
        Some(Times { total, idle })
    }
}

/// Reads the processor times.
pub fn cpu(text: &str) -> (r: Option<Times>)
    ensures
        r == times_in(text@),
{
    let chars = chars_of(text);
    let all = lines_of(chars.as_slice());
    if all.len() == 0 {
        return None;
    }
    assert(lines(text@)[0] == all@[0]@);
    let line = words_of(all[0].as_slice());
    let ghost every = words(all@[0]@);
    assert(deep(line@) == every);
    if line.len() == 0 {
        return None;
    }
    assert(every[0] == line@[0]@);
    if !same(string_of(line[0].as_slice()).as_str(), "cpu") {
        return None;
    }
    read_line(&line)
}

/// A part of a whole.
#[derive(Clone, Copy, PartialEq, Eq, Structural, Debug)]
pub struct Share {
    pub part: u64,
    pub whole: u64,
}

/// How much of the time between two readings the processors were busy.
pub fn busy(current: Option<Times>, previous: Option<Times>) -> (r: Option<Share>)
    ensures
        r == match (current, previous) {
            (Some(c), Some(p)) => if c.total > p.total && c.idle >= p.idle && c.idle - p.idle
                <= c.total - p.total {
                Some(
                    Share {
                        part: ((c.total - p.total) - (c.idle - p.idle)) as u64,
                        whole: (c.total - p.total) as u64,
                    },
                )
            } else {
                None
            },
            _ => None,
        },
{
    match (current, previous) {
        (Some(c), Some(p)) => if c.total > p.total && c.idle >= p.idle && c.idle - p.idle
            <= c.total - p.total {
            let whole = c.total - p.total;
            Some(Share { part: whole - (c.idle - p.idle), whole })
        } else {
            None
        },
        _ => None,
    }
}

/// What a line says of a name, in bytes.
pub open spec fn named_bytes(line: Seq<char>, name: Seq<char>) -> Option<nat> {
    let all = words(line);
    if all.len() < 2 || all[0] != name {
        None
    } else {
        match number(all[1], u64::MAX as nat) {
            Some(n) => if n * 1024 <= u64::MAX {
                Some(n * 1024)
            } else {
                None
            },
            None => None,
        }
    }
}

/// What the first line that says something of a name says, in bytes.
pub open spec fn first_bytes(all: Seq<Seq<char>>, name: Seq<char>) -> Option<nat>
    decreases all.len(),
{
    if all.len() == 0 {
        None
    } else {
        match first_bytes(all.drop_last(), name) {
            Some(n) => Some(n),
            None => named_bytes(all.last(), name),
        }
    }
}

proof fn first_bytes_stay(all: Seq<Seq<char>>, name: Seq<char>, n: int)
    requires
        0 <= n <= all.len(),
        first_bytes(all.take(n), name) is Some,
    ensures
        first_bytes(all, name) == first_bytes(all.take(n), name),
    decreases all.len() - n,
{
    if n == all.len() {
        assert(all.take(n) =~= all);
    } else {
        assert(all.take(n + 1).drop_last() =~= all.take(n));
        first_bytes_stay(all, name, n + 1);
    }
}

fn line_bytes(line: &[char], name: &str) -> (r: Option<u64>)
    ensures
        match r {
            Some(n) => named_bytes(line@, name@) == Some(n as nat),
            None => named_bytes(line@, name@) is None,
        },
{
    let all = words_of(line);
    let ghost every = words(line@);
    assert(deep(all@) == every);
    if all.len() < 2 {
        return None;
    }
    assert(every[0] == all@[0]@ && every[1] == all@[1]@);
    if !same(string_of(all[0].as_slice()).as_str(), name) {
        return None;
    }
    match parse_number(all[1].as_slice(), u64::MAX) {
        Some(n) => n.checked_mul(1024),
        None => None,
    }
}

/// What the memory table says of a name, in bytes.
pub fn memory_field(text: &str, name: &str) -> (r: Option<u64>)
    ensures
        match r {
            Some(n) => first_bytes(lines(text@), name@) == Some(n as nat),
            None => first_bytes(lines(text@), name@) is None,
        },
{
    let chars = chars_of(text);
    let all = lines_of(chars.as_slice());
    let ghost every = lines(text@);
    let mut i: usize = 0;
    assert(every.take(0) =~= Seq::empty());
    while i < all.len()
        invariant
            i <= all.len(),
            every == lines(text@),
            deep(all@) == every,
            first_bytes(every.take(i as int), name@) is None,
        decreases all.len() - i,
    {
        assert(every.take(i + 1).drop_last() =~= every.take(i as int));
        assert(every.take(i + 1).last() == all@[i as int]@);
        if let Some(n) = line_bytes(all[i].as_slice(), name) {
            proof {
                first_bytes_stay(every, name@, i + 1);
            }
            return Some(n);
        }
        i += 1;
    }
    assert(every.take(i as int) =~= every);
    None
}

/// The memory that is used, where the total and what is left are known.
pub fn memory_used(total: Option<u64>, available: Option<u64>) -> (r: Option<u64>)
    ensures
        r == match (total, available) {
            (Some(t), Some(a)) => if a <= t {
                Some((t - a) as u64)
            } else {
                None
            },
            _ => None,
        },
{
    match (total, available) {
        (Some(t), Some(a)) => if a <= t {
            Some(t - a)
        } else {
            None
        },
        _ => None,
    }
}

/// What a disk holds.
#[derive(Clone, Copy, PartialEq, Eq, Structural, Debug)]
pub struct Disk {
    pub total_bytes: u64,
    pub used_bytes: u64,
    pub available_bytes: u64,
}

/// What is used of a whole, where that makes sense.
pub fn share(used: Option<u64>, total: Option<u64>) -> (r: Option<Share>)
    ensures
        r == match (used, total) {
            (Some(u), Some(t)) => if t > 0 && u <= t {
                Some(Share { part: u, whole: t })
            } else {
                None
            },
            _ => None,
        },
{
    match (used, total) {
        (Some(u), Some(t)) => if t > 0 && u <= t {
            Some(Share { part: u, whole: t })
        } else {
            None
        },
        _ => None,
    }
}

/// What is used of a disk. What is kept back from ordinary use counts for nothing.
pub fn disk_share(disk: Option<Disk>) -> (r: Option<Share>)
    ensures
        r == match disk {
            Some(d) => if d.used_bytes + d.available_bytes <= u64::MAX && d.used_bytes
                + d.available_bytes > 0 {
                Some(
                    Share { part: d.used_bytes, whole: (d.used_bytes + d.available_bytes) as u64 },
                )
            } else {
                None
            },
            None => None,
        },
{
    match disk {
        Some(d) => share(Some(d.used_bytes), d.used_bytes.checked_add(d.available_bytes)),
        None => None,
    }
}

/// A disk, as it is recorded; null where it could not be looked at.
pub open spec fn disk_data(disk: Option<Disk>) -> Data {
    match disk {
        Some(d) => Data::Object(
            map![
                "total_bytes"@ => uint(d.total_bytes),
                "used_bytes"@ => uint(d.used_bytes),
                "available_bytes"@ => uint(d.available_bytes)
            ],
        ),
        None => Data::Null,
    }
}

fn disk_json(disk: Option<Disk>) -> (r: Json)
    ensures
        r@ == disk_data(disk),
{
    match disk {
        Some(d) => Json::Object(
            object().with("total_bytes", Json::uint(d.total_bytes)).with(
                "used_bytes",
                Json::uint(d.used_bytes),
            ).with("available_bytes", Json::uint(d.available_bytes)),
        ),
        None => Json::Null,
    }
}

/// What is recorded of the machine. `cpu` is a share in percent, and `agents` is how many sessions are
/// at what.
pub fn readings(
    cpu: Json,
    memory_total: Option<u64>,
    memory_used: Option<u64>,
    workspace: Option<Disk>,
    state: Option<Disk>,
    agents: Json,
) -> (r: Fields)
    ensures
        r@ == map![
            "cpu_used_percent"@ => cpu@,
            "memory_total_bytes"@ => opt_uint(memory_total),
            "memory_used_bytes"@ => opt_uint(memory_used),
            "workspace_disk"@ => disk_data(workspace),
            "state_disk"@ => disk_data(state),
            "agents"@ => agents@
        ],
{
    object().with("cpu_used_percent", cpu).with(
        "memory_total_bytes",
        Json::opt_uint(memory_total),
    ).with("memory_used_bytes", Json::opt_uint(memory_used)).with(
        "workspace_disk",
        disk_json(workspace),
    ).with("state_disk", disk_json(state)).with("agents", agents)
}

/// What the dashboard shows of the machine. The shares are in percent.
pub fn dashboard(
    cpu: Json,
    memory: Json,
    disk_used: Json,
    memory_used: Option<u64>,
    memory_total: Option<u64>,
    disk: Option<Disk>,
) -> (r: Json)
    ensures
        r@ == Data::Object(
            map![
                "cpu"@ => cpu@,
                "memory"@ => memory@,
                "disk"@ => disk_used@,
                "memoryUsedBytes"@ => opt_uint(memory_used),
                "memoryTotalBytes"@ => opt_uint(memory_total),
                "diskAvailableBytes"@ => opt_uint(match disk {
                    Some(d) => Some(d.available_bytes),
                    None => None,
                }),
                "diskTotalBytes"@ => opt_uint(match disk {
                    Some(d) => Some(d.total_bytes),
                    None => None,
                })
            ],
        ),
{
    let available = match disk {
        Some(d) => Some(d.available_bytes),
        None => None,
    };
    let total = match disk {
        Some(d) => Some(d.total_bytes),
        None => None,
    };
    Json::Object(
        object().with("cpu", cpu).with("memory", memory).with("disk", disk_used).with(
            "memoryUsedBytes",
            Json::opt_uint(memory_used),
        ).with("memoryTotalBytes", Json::opt_uint(memory_total)).with(
            "diskAvailableBytes",
            Json::opt_uint(available),
        ).with("diskTotalBytes", Json::opt_uint(total)),
    )
}

} // verus!
