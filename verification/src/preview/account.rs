//! The account that the machine of the user connects with.
use super::{public_key, valid_key, PreviewView, Saved, SavedView};
use crate::fault::{other, Fault, FaultView};
use crate::table::in_order;
use crate::text::{
    after_prefix, chars_of, concat3, decimal, decimal_of, deep, join, joined, lines, lines_of,
    number, parse_number, push_string, push_text, same, split, split_chars, string_of,
    strip_prefix, views, words, words_of,
};
use vstd::prelude::*;

verus! {

/// The number of the account in a line of the list of accounts.
pub open spec fn uid_in(line: Seq<char>) -> Option<nat> {
    let fields = split(line, ':');
    if fields.len() > 2 && fields[0] == "cloudroom-preview"@ {
        number(fields[2], u32::MAX as nat)
    } else {
        None
    }
}

/// The number of the account, from a line on.
pub open spec fn uid_from(all: Seq<Seq<char>>, i: int) -> Option<nat>
    decreases all.len() - i,
{
    if i < 0 || i >= all.len() {
        None
    } else {
        match uid_in(all[i]) {
            Some(n) => Some(n),
            None => uid_from(all, i + 1),
        }
    }
}

/// The number of the account, which is neither that of the system, nor of the agents, nor of the
/// service.
pub open spec fn account_uid(accounts: Seq<char>, agent: u32, service: u32) -> Result<nat, FaultView> {
    match uid_from(lines(accounts), 0) {
        None => Err(other("preview account missing"@)),
        Some(uid) => if uid == 0 || uid == agent || uid == service {
            Err(other("unsafe preview account"@))
        } else {
            Ok(uid)
        },
    }
}

fn read_uid(line: &[char]) -> (r: Option<u32>)
    ensures
        match r {
            Some(n) => uid_in(line@) == Some(n as nat),
            None => uid_in(line@) is None,
        },
{
    let fields = split_chars(line, ':');
    let ghost all = split(line@, ':');
    assert(deep(fields@) == all);
    if fields.len() > 2 {
        assert(all[0] == fields@[0]@ && all[2] == fields@[2]@);
        if same(string_of(fields[0].as_slice()).as_str(), "cloudroom-preview") {
            return match parse_number(fields[2].as_slice(), u32::MAX as u64) {
                Some(n) => Some(n as u32),
                None => None,
            };
        }
    }
    None
}

/// The number of the account.
pub fn find_account(accounts: &str, agent: u32, service: u32) -> (r: Result<u32, Fault>)
    ensures
        match r {
            Ok(uid) => account_uid(accounts@, agent, service) == Ok::<nat, FaultView>(uid as nat),
            Err(f) => account_uid(accounts@, agent, service) == Err::<nat, FaultView>(f@),
        },
{
    let chars = chars_of(accounts);
    let all = lines_of(chars.as_slice());
    let ghost every = lines(accounts@);
    let mut i: usize = 0;
    while i < all.len()
        invariant
            i <= all.len(),
            deep(all@) == every,
            every == lines(accounts@),
            uid_from(every, 0) == uid_from(every, i as int),
        decreases all.len() - i,
    {
        assert(every[i as int] == all@[i as int]@);
        if let Some(uid) = read_uid(all[i].as_slice()) {
            if uid == 0 || uid == agent || uid == service {
                return Err(Fault::other("unsafe preview account"));
            }
            return Ok(uid);
        }
        i += 1;
    }
    Err(Fault::other("preview account missing"))
}

// The connections of the account.

/// The numbers among words.
pub open spec fn numbers_in(all: Seq<Seq<char>>) -> Seq<nat>
    decreases all.len(),
{
    if all.len() == 0 {
        Seq::empty()
    } else {
        match number(all.last(), u32::MAX as nat) {
            Some(n) => numbers_in(all.drop_last()).push(n),
            None => numbers_in(all.drop_last()),
        }
    }
}

/// What follows the label of the accounts of a process, from a line on.
pub open spec fn ids_line(all: Seq<Seq<char>>, i: int) -> Seq<char>
    decreases all.len() - i,
{
    if i < 0 || i >= all.len() {
        Seq::empty()
    } else {
        match after_prefix(all[i], "Uid:"@) {
            Some(rest) => rest,
            None => ids_line(all, i + 1),
        }
    }
}

/// The accounts of a process.
pub open spec fn process_ids(status: Seq<char>) -> Seq<nat> {
    numbers_in(words(ids_line(lines(status), 0)))
}

/// The process belongs to the account alone.
pub open spec fn is_dedicated(ids: Seq<nat>, uid: u32) -> bool {
    ids.len() == 4 && ids[0] == uid && ids[1] == uid && ids[2] == uid && ids[3] == uid
}

/// The process watches over a connection of the account.
pub open spec fn is_monitor(ids: Seq<nat>, title: Seq<char>) -> bool {
    is_dedicated(ids, 0) && (title == "sshd: cloudroom-preview [priv]"@ || title
        == "sshd-session: cloudroom-preview [priv]"@)
}

fn read_ids(status: &str) -> (r: Vec<u32>)
    ensures
        r@.map_values(|n: u32| n as nat) == process_ids(status@),
{
    let chars = chars_of(status);
    let all = lines_of(chars.as_slice());
    let ghost every = lines(status@);
    let mut line = String::new();
    let mut found = false;
    let mut i: usize = 0;
    while i < all.len() && !found
        invariant
            i <= all.len(),
            deep(all@) == every,
            every == lines(status@),
            found ==> line@ == ids_line(every, 0),
            !found ==> line@ == Seq::<char>::empty() && ids_line(every, 0) == ids_line(
                every,
                i as int,
            ),
        decreases all.len() - i,
    {
        assert(every[i as int] == all@[i as int]@);
        if let Some(rest) = strip_prefix(string_of(all[i].as_slice()).as_str(), "Uid:") {
            line = rest;
            found = true;
        }
        i += 1;
    }
    assert(line@ =~= ids_line(every, 0));
    let text = chars_of(line.as_str());
    let parts = words_of(text.as_slice());
    let ghost each = words(line@);
    let mut ids: Vec<u32> = Vec::new();
    let mut k: usize = 0;
    assert(each.take(0) =~= Seq::empty());
    assert(ids@.map_values(|n: u32| n as nat) =~= Seq::<nat>::empty());
    while k < parts.len()
        invariant
            k <= parts.len(),
            deep(parts@) == each,
            ids@.map_values(|n: u32| n as nat) == numbers_in(each.take(k as int)),
        decreases parts.len() - k,
    {
        assert(each.take(k + 1).drop_last() =~= each.take(k as int));
        assert(each.take(k + 1).last() == parts@[k as int]@);
        if let Some(n) = parse_number(parts[k].as_slice(), u32::MAX as u64) {
            let ghost was = ids@;
            ids.push(n as u32);
            assert(ids@.map_values(|n: u32| n as nat) =~= was.map_values(|n: u32| n as nat).push(
                n as nat,
            ));
        }
        k += 1;
    }
    assert(each.take(k as int) =~= each);
    ids
}

/// Whether a process is a connection of the account, or watches over one. `title` is the first word
/// of its command line.
pub fn disconnects(status: &str, title: &str, uid: u32) -> (r: bool)
    ensures
        r == (is_dedicated(process_ids(status@), uid) || is_monitor(process_ids(status@), title@)),
{
    let ids = read_ids(status);
    let ghost all = ids@.map_values(|n: u32| n as nat);
    if ids.len() != 4 {
        return false;
    }
    assert(all[0] == ids@[0] && all[1] == ids@[1] && all[2] == ids@[2] && all[3] == ids@[3]);
    let dedicated = ids[0] == uid && ids[1] == uid && ids[2] == uid && ids[3] == uid;
    let system = ids[0] == 0 && ids[1] == 0 && ids[2] == 0 && ids[3] == 0;
    dedicated || (system && (same(title, "sshd: cloudroom-preview [priv]") || same(
        title,
        "sshd-session: cloudroom-preview [priv]",
    )))
}

// The keys of the account.

/// A port that the account may reach.
pub open spec fn opened(port: u16) -> Seq<char> {
    "permitopen=\"127.0.0.1:"@ + decimal(port as nat) + "\""@
}

/// The ports that the account may reach: applications that an agent listens on.
pub open spec fn opened_ports(list: Seq<PreviewView>, listening: Seq<bool>) -> Seq<Seq<char>>
    decreases list.len(),
{
    if list.len() == 0 {
        Seq::empty()
    } else if list.last().port >= 1024 && listening[list.len() - 1] {
        opened_ports(list.drop_last(), listening).push(opened(list.last().port))
    } else {
        opened_ports(list.drop_last(), listening)
    }
}

/// A line for a key.
pub open spec fn key_line(options: Seq<Seq<char>>, key: Seq<char>) -> Seq<char> {
    "restrict,port-forwarding,command=\"/bin/false\","@ + joined(options, ","@) + " "@ + key
}

/// The lines for the keys of the machines of some names.
pub open spec fn key_lines(
    devices: Map<Seq<char>, Seq<char>>,
    keys: Seq<Seq<char>>,
    options: Seq<Seq<char>>,
) -> Seq<Seq<char>>
    decreases keys.len(),
{
    if keys.len() == 0 {
        Seq::empty()
    } else if public_key(devices[keys.last()]) {
        key_lines(devices, keys.drop_last(), options).push(key_line(options, devices[keys.last()]))
    } else {
        key_lines(devices, keys.drop_last(), options)
    }
}

/// The keys that may connect, and what each may reach. Without an open port there are none.
pub open spec fn authorized(saved: SavedView, listening: Seq<bool>) -> Seq<Seq<char>> {
    let options = opened_ports(saved.previews, listening);
    if options.len() == 0 {
        Seq::empty()
    } else {
        key_lines(saved.devices, in_order(saved.devices), options)
    }
}

/// The keys that may connect, and what each may reach. `listening` says of each preview whether an
/// agent listens there.
pub fn authorized_keys(saved: &Saved, listening: &Vec<bool>) -> (r: Vec<String>)
    requires
        listening@.len() == saved@.previews.len(),
    ensures
        views(r@) == authorized(saved@, listening@),
{
    let ghost list = saved@.previews;
    let mut options: Vec<String> = Vec::new();
    let mut i: usize = 0;
    assert(list.take(0) =~= Seq::empty());
    assert(views(options@) =~= Seq::<Seq<char>>::empty());
    while i < saved.previews.len()
        invariant
            i <= saved.previews@.len(),
            list == saved@.previews,
            listening@.len() == list.len(),
            views(options@) == opened_ports(list.take(i as int), listening@),
        decreases saved.previews@.len() - i,
    {
        assert(list.take(i + 1).drop_last() =~= list.take(i as int));
        assert(list.take(i + 1).last() == saved.previews@[i as int]@);
        let port = saved.previews[i].port;
        if port >= 1024 && listening[i] {
            let option = concat3(
                "permitopen=\"127.0.0.1:",
                decimal_of(port as u64).as_str(),
                "\"",
            );
            push_string(&mut options, option.as_str());
        }
        i += 1;
    }
    assert(list.take(i as int) =~= list);
    let mut out: Vec<String> = Vec::new();
    assert(views(out@) =~= Seq::<Seq<char>>::empty());
    assert(views(options@).len() == options@.len());
    if options.len() == 0 {
        return out;
    }
    let all = join(&options, ",");
    let count = saved.devices.len();
    let ghost devices = saved.devices@;
    let ghost keys = in_order(devices);
    let mut k: usize = 0;
    assert(keys.take(0) =~= Seq::empty());
    while k < count
        invariant
            k <= count,
            devices == saved.devices@,
            keys == in_order(devices),
            count == keys.len(),
            all@ == joined(views(options@), ","@),
            views(out@) == key_lines(devices, keys.take(k as int), views(options@)),
        decreases count - k,
    {
        assert(keys.take(k + 1).drop_last() =~= keys.take(k as int));
        assert(keys.take(k + 1).last() == keys[k as int]);
        let key = saved.devices.value_at(k).as_str();
        if valid_key(key) {
            let mut line = concat3(
                "restrict,port-forwarding,command=\"/bin/false\",",
                all.as_str(),
                " ",
            );
            push_text(&mut line, key);
            push_string(&mut out, line.as_str());
        }
        k += 1;
    }
    assert(keys.take(k as int) =~= keys);
    out
}

} // verus!
