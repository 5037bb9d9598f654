//! Previews: applications that agents run in the cloud, as the user sees them on the paired
//! machine.
use crate::failure::{conflicting, denial, forbidden, missing, Failure};
use crate::fault::{other, Fault};
use crate::json::{no_json, object, opt_text, push_json, uint, values, Data, Json};
use crate::runtime::auth::{passed, since};
use crate::session::children::first_chars;
use crate::table::{in_order, Table};
use crate::text::{
    after_prefix, all_in, all_text_in, begins, byte_len, chars_of, concat3, decimal, decimal_of,
    deep, joined, opt, opt_copy, opt_slice, opt_str, push_text, same, size, starts_with, string_of,
    strip_prefix, words, words_of, Class,
};
use vstd::prelude::*;
use vstd::slice::slice_subrange;

pub mod account;
pub mod cli;
pub mod listener;

verus! {

/// A report counts for so many seconds.
pub const FRESH_SECONDS: u64 = 15;

/// What a machine reports of a preview.
#[derive(Debug)]
pub struct Report {
    pub device: String,
    pub generation: String,
    pub port: u16,
    /// Where the application is reached on the machine.
    pub local_port: Option<u16>,
    pub error: Option<String>,
}

/// The mathematical value of what a machine reports.
pub struct ReportView {
    pub device: Seq<char>,
    pub generation: Seq<char>,
    pub port: u16,
    pub local_port: Option<u16>,
    pub error: Option<Seq<char>>,
}

impl View for Report {
    type V = ReportView;

    open spec fn view(&self) -> ReportView {
        ReportView {
            device: self.device@,
            generation: self.generation@,
            port: self.port,
            local_port: self.local_port,
            error: opt(self.error),
        }
    }
}

/// A machine that is paired, with its key.
#[derive(Debug)]
pub struct Device {
    pub device: String,
    pub public_key: String,
}

/// The port of an application.
#[derive(Debug)]
pub struct Port {
    pub port: u16,
}

/// What names a machine.
pub open spec fn device_name(device: Seq<char>) -> bool {
    byte_len(device) == 32 && all_in(device, Class::Hex, ""@)
}

/// Whether a text names a machine.
pub fn valid_device(device: &str) -> (r: bool)
    ensures
        r == device_name(device@),
{
    size(device) == 32 && all_text_in(device, Class::Hex, "")
}

/// A public key of the one kind that is taken.
pub open spec fn public_key(key: Seq<char>) -> bool {
    match after_prefix(key, "ssh-ed25519 "@) {
        Some(rest) => byte_len(rest) == 68 && all_in(rest, Class::Alnum, "+/="@),
        None => false,
    }
}

/// Whether a text is a public key of the one kind that is taken.
pub fn valid_key(key: &str) -> (r: bool)
    ensures
        r == public_key(key@),
{
    match strip_prefix(key, "ssh-ed25519 ") {
        Some(rest) => size(rest.as_str()) == 68 && all_text_in(
            rest.as_str(),
            Class::Alnum,
            "+/=",
        ),
        None => false,
    }
}

/// How previews are reached.
#[derive(Debug)]
pub struct Setup {
    pub socket: String,
    pub host: Option<String>,
    pub port: u16,
    pub host_key_file: String,
    pub agent_uid: u32,
}

/// The mathematical value of how previews are reached.
pub struct SetupView {
    pub socket: Seq<char>,
    pub host: Option<Seq<char>>,
    pub port: u16,
    pub host_key_file: Seq<char>,
    pub agent_uid: u32,
}

impl View for Setup {
    type V = SetupView;

    open spec fn view(&self) -> SetupView {
        SetupView {
            socket: self.socket@,
            host: opt(self.host),
            port: self.port,
            host_key_file: self.host_key_file@,
            agent_uid: self.agent_uid,
        }
    }
}

/// A setup is sound: its paths begin at the root, and the agents are those of the storage.
pub open spec fn setup_sound(s: SetupView, storage: Option<u32>) -> bool {
    &&& begins(s.host_key_file, "/"@)
    &&& s.port != 0
    &&& begins(s.socket, "/"@)
    &&& storage is Some ==> storage == Some(s.agent_uid)
}

impl Setup {
    /// Refuses a setup that is not sound.
    pub fn check(&self, storage: Option<u32>) -> (r: Result<(), Fault>)
        ensures
            r is Ok <==> setup_sound(self@, storage),
            r matches Err(f) ==> f@ == other("invalid preview setup"@),
    {
        let other_agent = match storage {
            Some(uid) => uid != self.agent_uid,
            None => false,
        };
        if !starts_with(self.host_key_file.as_str(), "/") || self.port == 0 || !starts_with(
            self.socket.as_str(),
            "/",
        ) || other_agent {
            return Err(Fault::other("invalid preview setup"));
        }
        Ok(())
    }

    /// Sets the address that the machine of the user connects to.
    pub fn set_host(&mut self, host: &str, unspecified: bool, multicast: bool) -> (r: Result<
        (),
        Failure,
    >)
        ensures
            denial(r) == if unspecified || multicast {
                Some(conflicting("Invalid SSH host"@))
            } else {
                None
            },
            final(self)@ == if unspecified || multicast {
                old(self)@
            } else {
                SetupView { host: Some(host@), ..old(self)@ }
            },
    {
        if unspecified || multicast {
            return Err(Failure::conflict("Invalid SSH host"));
        }
        self.host = Some(host.to_owned());
        Ok(())
    }
}

/// The files of the setup are protected from the agents: they are neither links, nor for others to
/// write, nor do they belong to the agents.
pub fn check_protection(link: bool, mode: u32, uid: u32, agent: Option<u32>) -> (r: Result<
    (),
    Fault,
>)
    ensures
        r is Ok <==> !link && (mode / 16) % 2 == 0 && (mode / 2) % 2 == 0 && (agent is Some ==> agent
            != Some(uid)),
        r matches Err(f) ==> f@ == other("preview setup must be protected from agent writes"@),
{
    let owned = match agent {
        Some(a) => a == uid,
        None => false,
    };
    if link || (mode / 16) % 2 != 0 || (mode / 2) % 2 != 0 || owned {
        return Err(Fault::other("preview setup must be protected from agent writes"));
    }
    Ok(())
}

// What is registered.

/// A preview that is registered.
#[derive(Debug)]
pub struct Preview {
    pub port: u16,
    /// Tells this registration from every other of the same port.
    pub generation: String,
}

/// The mathematical value of a preview.
pub struct PreviewView {
    pub port: u16,
    pub generation: Seq<char>,
}

impl View for Preview {
    type V = PreviewView;

    open spec fn view(&self) -> PreviewView {
        PreviewView { port: self.port, generation: self.generation@ }
    }
}

/// The views of previews.
pub open spec fn preview_views(list: Seq<Preview>) -> Seq<PreviewView> {
    Seq::new(list.len(), |i: int| list[i]@)
}

/// Previews stand in the order of their ports, each once.
pub open spec fn by_port(list: Seq<PreviewView>) -> bool {
    forall|i: int, j: int| 0 <= i < j < list.len() ==> list[i].port < list[j].port
}

/// What is registered: previews, and the machine that is paired.
#[derive(Debug)]
pub struct Saved {
    pub previews: Vec<Preview>,
    /// The key of each machine.
    pub devices: Table<String>,
}

/// The mathematical value of what is registered.
pub struct SavedView {
    pub previews: Seq<PreviewView>,
    pub devices: Map<Seq<char>, Seq<char>>,
}

impl View for Saved {
    type V = SavedView;

    open spec fn view(&self) -> SavedView {
        SavedView { previews: preview_views(self.previews@), devices: self.devices@ }
    }
}

/// The number of previews before a port.
pub open spec fn before_port(list: Seq<PreviewView>, port: u16) -> int
    decreases list.len(),
{
    if list.len() == 0 {
        0
    } else if list.last().port < port {
        list.len() as int
    } else {
        before_port(list.drop_last(), port)
    }
}

/// A preview of a port is registered.
pub open spec fn registered(list: Seq<PreviewView>, port: u16) -> bool {
    exists|i: int| 0 <= i < list.len() && (#[trigger] list[i]).port == port
}

/// The generation of the preview of a port.
pub open spec fn generation_of(list: Seq<PreviewView>, port: u16) -> Option<Seq<char>>
    decreases list.len(),
{
    if list.len() == 0 {
        None
    } else if list.last().port == port {
        Some(list.last().generation)
    } else {
        generation_of(list.drop_last(), port)
    }
}

/// Previews with one more, unless its port is registered.
pub open spec fn with_preview(list: Seq<PreviewView>, port: u16, generation: Seq<char>) -> Seq<
    PreviewView,
> {
    if registered(list, port) {
        list
    } else {
        list.insert(before_port(list, port), PreviewView { port, generation })
    }
}

/// Previews without that of a port.
pub open spec fn without_port(list: Seq<PreviewView>, port: u16) -> Seq<PreviewView>
    decreases list.len(),
{
    if list.len() == 0 {
        Seq::empty()
    } else if list.last().port == port {
        without_port(list.drop_last(), port)
    } else {
        without_port(list.drop_last(), port).push(list.last())
    }
}

proof fn before_port_is_right(list: Seq<PreviewView>, port: u16)
    requires
        by_port(list),
    ensures
        0 <= before_port(list, port) <= list.len(),
        forall|i: int| 0 <= i < before_port(list, port) ==> (#[trigger] list[i]).port < port,
        forall|i: int|
            before_port(list, port) <= i < list.len() ==> (#[trigger] list[i]).port >= port,
    decreases list.len(),
{
    if list.len() > 0 && list.last().port >= port {
        let rest = list.drop_last();
        assert forall|i: int, j: int| 0 <= i < j < rest.len() implies rest[i].port < rest[j].port by {
            assert(rest[i] == list[i] && rest[j] == list[j]);
        }
        before_port_is_right(rest, port);
        assert forall|i: int| 0 <= i < before_port(rest, port) implies (#[trigger] list[i]).port
            < port by {
            assert(rest[i] == list[i]);
        }
        assert forall|i: int| before_port(rest, port) <= i < list.len() implies (
        #[trigger] list[i]).port >= port by {
            if i < rest.len() {
                assert(rest[i] == list[i]);
            }
        }
    }
}

/// Registering keeps the order of the ports.
pub proof fn registering_keeps_order(list: Seq<PreviewView>, port: u16, generation: Seq<char>)
    requires
        by_port(list),
    ensures
        by_port(with_preview(list, port, generation)),
        registered(with_preview(list, port, generation), port),
{
    if !registered(list, port) {
        before_port_is_right(list, port);
        let k = before_port(list, port);
        let next = with_preview(list, port, generation);
        assert(next[k].port == port);
        assert forall|i: int, j: int| 0 <= i < j < next.len() implies next[i].port < next[j].port by {
            if i < k {
                assert(next[i] == list[i]);
            } else if i > k {
                assert(next[i] == list[i - 1]);
            }
            if j < k {
                assert(next[j] == list[j]);
            } else if j > k {
                assert(next[j] == list[j - 1]);
                assert(list[j - 1].port != port);
            }
        }
    }
}

/// Closing a preview takes it, and nothing else, away.
pub proof fn closing_takes_one(list: Seq<PreviewView>, port: u16)
    requires
        by_port(list),
    ensures
        by_port(without_port(list, port)),
        !registered(without_port(list, port), port),
        forall|other: u16|
            other != port ==> generation_of(without_port(list, port), other) == generation_of(
                list,
                other,
            ),
    decreases list.len(),
{
    if list.len() > 0 {
        let rest = list.drop_last();
        assert forall|i: int, j: int| 0 <= i < j < rest.len() implies rest[i].port < rest[j].port by {
            assert(rest[i] == list[i] && rest[j] == list[j]);
        }
        closing_takes_one(rest, port);
        without_port_is_below(rest, port, list.last().port);
        let next = without_port(list, port);
        let before = without_port(rest, port);
        if list.last().port != port {
            assert(next.drop_last() =~= before);
            assert forall|i: int, j: int| 0 <= i < j < next.len() implies next[i].port
                < next[j].port by {
                if j < before.len() {
                    assert(next[i] == before[i] && next[j] == before[j]);
                } else {
                    assert(next[i] == before[i]);
                }
            }
            assert forall|i: int| 0 <= i < next.len() implies (#[trigger] next[i]).port != port by {
                if i < before.len() {
                    assert(next[i] == before[i]);
                }
            }
        }
        assert forall|other: u16| other != port implies generation_of(next, other)
            == generation_of(list, other) by {
            assert(generation_of(before, other) == generation_of(rest, other));
        }
    }
}

proof fn without_port_is_below(list: Seq<PreviewView>, port: u16, above: u16)
    requires
        forall|i: int| 0 <= i < list.len() ==> (#[trigger] list[i]).port < above,
    ensures
        forall|i: int|
            0 <= i < without_port(list, port).len() ==> (#[trigger] without_port(
                list,
                port,
            )[i]).port < above,
    decreases list.len(),
{
    if list.len() > 0 {
        let rest = list.drop_last();
        assert forall|i: int| 0 <= i < rest.len() implies (#[trigger] rest[i]).port < above by {
            assert(rest[i] == list[i]);
        }
        without_port_is_below(rest, port, above);
        assert(list[list.len() - 1].port < above);
        let before = without_port(rest, port);
        let next = without_port(list, port);
        assert forall|i: int| 0 <= i < next.len() implies (#[trigger] next[i]).port < above by {
            if i < before.len() {
                assert(next[i] == before[i]);
            }
        }
    }
}

/// Pairing a machine, or why it cannot be paired: one machine is paired at a time, with one key.
pub open spec fn pair_refused(
    devices: Map<Seq<char>, Seq<char>>,
    device: Seq<char>,
    key: Seq<char>,
    host: Option<Seq<char>>,
) -> Option<Seq<char>> {
    if !device_name(device) || !public_key(key) {
        Some("Invalid preview device key"@)
    } else if host is None {
        Some("The VM's preview SSH address has not been configured"@)
    } else if devices.contains_key(device) && devices[device] != key {
        Some("This preview device already has a different key"@)
    } else if !devices.contains_key(device) && in_order(devices).len() > 0 {
        Some("Previews are paired with another Mac; disconnect its previews first"@)
    } else {
        None
    }
}

impl Saved {
    /// Nothing is registered.
    pub fn new() -> (r: Saved)
        ensures
            r@ == (SavedView { previews: Seq::empty(), devices: Map::empty() }),
    {
        let r = Saved { previews: Vec::new(), devices: Table::new() };
        assert(r@.previews =~= Seq::<PreviewView>::empty());
        r
    }

    fn find(&self, port: u16) -> (r: Option<&Preview>)
        ensures
            match r {
                Some(p) => generation_of(self@.previews, port) == Some(p.generation@)
                    && registered(self@.previews, port),
                None => generation_of(self@.previews, port) is None && !registered(
                    self@.previews,
                    port,
                ),
            },
    {
        let ghost all = self@.previews;
        let mut n: usize = self.previews.len();
        assert(all.take(n as int) =~= all);
        while n > 0
            invariant
                n <= self.previews@.len(),
                all == self@.previews,
                generation_of(all, port) == generation_of(all.take(n as int), port),
                forall|i: int| n <= i < all.len() ==> (#[trigger] all[i]).port != port,
            decreases n,
        {
            let ghost head = all.take(n as int);
            assert(head.drop_last() =~= all.take(n - 1));
            assert(head.last() == self.previews@[n - 1]@);
            if self.previews[n - 1].port == port {
                assert(all[n - 1].port == port);
                return Some(&self.previews[n - 1]);
            }
            n -= 1;
        }
        None
    }

    /// Registers a preview, unless its port is registered. Gives whether it was new.
    pub fn register(&mut self, port: u16, generation: &str) -> (r: bool)
        requires
            by_port(old(self)@.previews),
        ensures
            r == !registered(old(self)@.previews, port),
            final(self)@ == (SavedView {
                previews: with_preview(old(self)@.previews, port, generation@),
                ..old(self)@
            }),
            by_port(final(self)@.previews),
    {
        proof {
            registering_keeps_order(self@.previews, port, generation@);
        }
        if self.find(port).is_some() {
            return false;
        }
        let ghost all = self@.previews;
        let mut n: usize = self.previews.len();
        assert(all.take(n as int) =~= all);
        while n > 0 && self.previews[n - 1].port >= port
            invariant
                n <= self.previews@.len(),
                all == self@.previews,
                self@ == old(self)@,
                before_port(all, port) == before_port(all.take(n as int), port),
            decreases n,
        {
            let ghost head = all.take(n as int);
            assert(head.drop_last() =~= all.take(n - 1));
            assert(head.last() == self.previews@[n - 1]@);
            n -= 1;
        }
        proof {
            let head = all.take(n as int);
            if n > 0 {
                assert(head.last() == self.previews@[n - 1]@);
            }
            assert(before_port(all, port) == n);
        }
        let preview = Preview { port, generation: generation.to_owned() };
        let ghost added = preview@;
        self.previews.insert(n, preview);
        assert(preview_views(self.previews@) =~= all.insert(n as int, added));
        true
    }

    /// Closes the preview of a port.
    pub fn close(&mut self, port: u16)
        requires
            by_port(old(self)@.previews),
        ensures
            final(self)@ == (SavedView {
                previews: without_port(old(self)@.previews, port),
                ..old(self)@
            }),
            by_port(final(self)@.previews),
    {
        proof {
            closing_takes_one(self@.previews, port);
        }
        let ghost all = self@.previews;
        let mut kept: Vec<Preview> = Vec::new();
        let mut i: usize = 0;
        assert(all.take(0) =~= Seq::empty());
        assert(preview_views(kept@) =~= Seq::<PreviewView>::empty());
        while i < self.previews.len()
            invariant
                i <= self.previews@.len(),
                all == self@.previews,
                self@ == old(self)@,
                preview_views(kept@) == without_port(all.take(i as int), port),
            decreases self.previews@.len() - i,
        {
            assert(all.take(i + 1).drop_last() =~= all.take(i as int));
            assert(all.take(i + 1).last() == self.previews@[i as int]@);
            if self.previews[i].port != port {
                let ghost before = preview_views(kept@);
                let preview = Preview {
                    port: self.previews[i].port,
                    generation: self.previews[i].generation.clone(),
                };
                let ghost added = preview@;
                kept.push(preview);
                assert(preview_views(kept@) =~= before.push(added));
            }
            i += 1;
        }
        assert(all.take(i as int) =~= all);
        self.previews = kept;
    }

    /// Whether a machine is paired.
    pub fn paired(&self, device: &str) -> (r: bool)
        ensures
            r == self@.devices.contains_key(device@),
    {
        self.devices.contains(device)
    }

    /// Pairs a machine. Gives whether it was new.
    pub fn pair(&mut self, device: &Device, host: Option<&str>) -> (r: Result<bool, Failure>)
        ensures
            match r {
                Err(f) => final(self)@ == old(self)@ && match pair_refused(
                    old(self)@.devices,
                    device.device@,
                    device.public_key@,
                    opt_str(host),
                ) {
                    Some(why) => f@ == conflicting(why),
                    None => false,
                },
                Ok(new) => {
                    &&& pair_refused(
                        old(self)@.devices,
                        device.device@,
                        device.public_key@,
                        opt_str(host),
                    ) is None
                    &&& new == !old(self)@.devices.contains_key(device.device@)
                    &&& final(self)@ == (SavedView {
                        devices: old(self)@.devices.insert(device.device@, device.public_key@),
                        ..old(self)@
                    })
                },
            },
    {
        let name = device.device.as_str();
        let key = device.public_key.as_str();
        if !valid_device(name) || !valid_key(key) {
            return Err(Failure::conflict("Invalid preview device key"));
        }
        if host.is_none() {
            return Err(
                Failure::conflict("The VM's preview SSH address has not been configured"),
            );
        }
        let ghost was = self.devices@;
        match self.devices.get(name) {
            Some(known) => {
                if !same(known.as_str(), key) {
                    return Err(
                        Failure::conflict("This preview device already has a different key"),
                    );
                }
                assert(was.insert(name@, key@) =~= was);
                Ok(false)
            },
            None => {
                if self.devices.len() > 0 {
                    return Err(
                        Failure::conflict(
                            "Previews are paired with another Mac; disconnect its previews first",
                        ),
                    );
                }
                self.devices.insert(name, key.to_owned());
                Ok(true)
            },
        }
    }

    /// A machine is not paired any more.
    pub fn revoke(&mut self, device: &str)
        ensures
            final(self)@ == (SavedView {
                devices: old(self)@.devices.remove(device@),
                ..old(self)@
            }),
    {
        let ghost was = self.devices@;
        let _ = self.devices.remove(device);
        assert(self.devices@ =~= was.remove(device@));
    }
}

/// What the machine that is paired is told of how to connect.
pub open spec fn connection(setup: SetupView, host_key: Seq<char>) -> Data {
    Data::Object(
        map![
            "host"@ => opt_text(setup.host),
            "port"@ => uint(setup.port as u64),
            "user"@ => Data::Text("cloudroom-preview"@),
            "host_key"@ => Data::Text(host_key)
        ],
    )
}

/// The key in a file: its first two words.
pub open spec fn key_in(text: Seq<char>) -> Seq<char> {
    let all = words(text);
    joined(
        if all.len() > 2 {
            all.take(2)
        } else {
            all
        },
        " "@,
    )
}

/// What the machine that is paired is told of how to connect. `text` is the file of the host key.
pub fn describe(setup: &Setup, text: &str) -> (r: Result<Json, Failure>)
    ensures
        match r {
            Ok(j) => public_key(key_in(text@)) && j@ == connection(setup@, key_in(text@)),
            Err(f) => !public_key(key_in(text@)) && f@ == conflicting(
                "The VM's public SSH host key is unavailable"@,
            ),
        },
{
    let chars = chars_of(text);
    let all = words_of(chars.as_slice());
    let ghost every = words(text@);
    let ghost first = if every.len() > 2 {
        every.take(2)
    } else {
        every
    };
    let mut list: Vec<String> = Vec::new();
    let mut i: usize = 0;
    assert(crate::text::views(list@) =~= first.take(0));
    while i < all.len() && i < 2
        invariant
            i <= all.len(),
            i <= 2,
            deep(all@) == every,
            first == if every.len() > 2 {
                every.take(2)
            } else {
                every
            },
            crate::text::views(list@) == first.take(i as int),
        decreases 2 - i,
    {
        assert(first[i as int] == all@[i as int]@);
        crate::text::push_string(&mut list, string_of(all[i].as_slice()).as_str());
        assert(first.take(i + 1) =~= first.take(i as int).push(first[i as int]));
        i += 1;
    }
    assert(first.take(i as int) =~= first);
    let key = crate::text::join(&list, " ");
    if !valid_key(key.as_str()) {
        return Err(Failure::conflict("The VM's public SSH host key is unavailable"));
    }
    Ok(
        Json::Object(
            object().with("host", Json::opt_text(opt_slice(&setup.host))).with(
                "port",
                Json::uint(setup.port as u64),
            ).with_text("user", "cloudroom-preview").with_text("host_key", key.as_str()),
        ),
    )
}

/// Only applications are previewed: neither the ports of the system nor those of the service.
pub open spec fn port_refused(port: u16, core: u16, ssh: u16, listens: bool) -> Option<Seq<char>> {
    if port < 1024 || port == core || port == ssh {
        Some("Only non-administrative application ports can be previewed"@)
    } else if !listens {
        Some("Start the HTTP server as the agent account before requesting a preview"@)
    } else {
        None
    }
}

/// Whether a port may be previewed. `listens` says whether an agent listens there.
pub fn port_allowed(port: u16, core: u16, ssh: u16, listens: bool) -> (r: Result<(), Failure>)
    ensures
        denial(r) == match port_refused(port, core, ssh, listens) {
            Some(why) => Some(conflicting(why)),
            None => None,
        },
{
    if port < 1024 || port == core || port == ssh {
        return Err(
            Failure::conflict("Only non-administrative application ports can be previewed"),
        );
    }
    if !listens {
        return Err(
            Failure::conflict(
                "Start the HTTP server as the agent account before requesting a preview",
            ),
        );
    }
    Ok(())
}

/// Only the account of the agents may ask for previews here.
pub fn local_auth(agent: u32, peer: Option<u32>) -> (r: Result<(), Failure>)
    ensures
        denial(r) == if peer == Some(agent) {
            None
        } else {
            Some(forbidden("Only the VM agent account may request local previews"@))
        },
{
    match peer {
        Some(uid) => if uid == agent {
            Ok(())
        } else {
            Err(Failure::forbidden("Only the VM agent account may request local previews"))
        },
        None => Err(Failure::forbidden("Only the VM agent account may request local previews")),
    }
}

// What is reported of previews.

/// A report, and when it came, in seconds.
#[derive(Debug)]
pub struct Stamped {
    pub at: u64,
    pub report: Report,
}

/// The mathematical value of a report and when it came.
pub struct StampedView {
    pub at: u64,
    pub report: ReportView,
}

impl View for Stamped {
    type V = StampedView;

    open spec fn view(&self) -> StampedView {
        StampedView { at: self.at, report: self.report@ }
    }
}

/// The name under which the report of a machine on a port is kept.
pub open spec fn report_name(device: Seq<char>, port: u16) -> Seq<char> {
    device + "/"@ + decimal(port as nat)
}

/// The errors that are reported.
pub open spec fn known_error(error: Seq<char>) -> bool {
    error == "SSH connection unavailable"@ || error == "Cloud HTTP server unavailable"@ || error
        == "Local preview port unavailable"@
}

/// Why a report is refused.
pub open spec fn report_refused(saved: SavedView, r: ReportView) -> Option<Seq<char>> {
    if !saved.devices.contains_key(r.device) || generation_of(saved.previews, r.port) != Some(
        r.generation,
    ) {
        Some("Preview or device changed; refresh before reporting"@)
    } else if r.local_port == Some(0u16) || (r.local_port is Some && r.error is Some) || (r.error
        is Some && !known_error(r.error->0)) {
        Some("Invalid preview status"@)
    } else {
        None
    }
}

/// The report counts for a preview now.
pub open spec fn counts(s: StampedView, port: u16, generation: Seq<char>, now: u64) -> bool {
    s.report.port == port && s.report.generation == generation && passed(now, s.at)
        <= FRESH_SECONDS
}

/// The first report that counts and says where the application is reached.
pub open spec fn first_ready(
    reports: Map<Seq<char>, StampedView>,
    keys: Seq<Seq<char>>,
    port: u16,
    generation: Seq<char>,
    now: u64,
) -> Option<ReportView>
    decreases keys.len(),
{
    if keys.len() == 0 {
        None
    } else {
        match first_ready(reports, keys.drop_last(), port, generation, now) {
            Some(r) => Some(r),
            None => {
                let s = reports[keys.last()];
                if counts(s, port, generation, now) && s.report.local_port is Some {
                    Some(s.report)
                } else {
                    None
                }
            },
        }
    }
}

/// The first error among the reports that count.
pub open spec fn first_error(
    reports: Map<Seq<char>, StampedView>,
    keys: Seq<Seq<char>>,
    port: u16,
    generation: Seq<char>,
    now: u64,
) -> Option<Seq<char>>
    decreases keys.len(),
{
    if keys.len() == 0 {
        None
    } else {
        match first_error(reports, keys.drop_last(), port, generation, now) {
            Some(e) => Some(e),
            None => {
                let s = reports[keys.last()];
                if counts(s, port, generation, now) {
                    s.report.error
                } else {
                    None
                }
            },
        }
    }
}

/// Where the application is reached.
pub open spec fn preview_url(port: u16, r: ReportView) -> Seq<char> {
    "http://p"@ + decimal(port as nat) + "-"@ + first_chars(r.device, 8) + ".localhost:"@ + decimal(
        r.local_port->0 as nat,
    )
}

/// What is shown of a preview.
pub open spec fn preview_data(
    reports: Map<Seq<char>, StampedView>,
    port: u16,
    generation: Seq<char>,
    now: u64,
) -> Data {
    let keys = in_order(reports);
    let ready = first_ready(reports, keys, port, generation, now);
    let error = first_error(reports, keys, port, generation, now);
    Data::Object(
        map![
            "port"@ => uint(port as u64),
            "generation"@ => Data::Text(generation),
            "state"@ => Data::Text(
                if ready is Some {
                    "ready"@
                } else if error is Some {
                    "error"@
                } else {
                    "pending"@
                },
            ),
            "url"@ => match ready {
                Some(r) => Data::Text(preview_url(port, r)),
                None => Data::Null,
            },
            "message"@ => Data::Text(
                match error {
                    Some(e) => e,
                    None => if ready is Some {
                        "Preview connected"@
                    } else {
                        "Waiting for the paired Mac; check again with cloudroom preview status"@
                    },
                },
            )
        ],
    )
}

/// What is reported of previews.
#[derive(Debug)]
pub struct Reports {
    pub table: Table<Stamped>,
}

impl View for Reports {
    type V = Map<Seq<char>, StampedView>;

    open spec fn view(&self) -> Map<Seq<char>, StampedView> {
        self.table@
    }
}

impl Reports {
    /// Nothing is reported.
    pub fn new() -> (r: Reports)
        ensures
            r@ == Map::<Seq<char>, StampedView>::empty(),
    {
        Reports { table: Table::new() }
    }

    /// Takes in a report. A later one of the same machine on the same port takes its place.
    pub fn report(&mut self, saved: &Saved, report: Report, now: u64) -> (r: Result<(), Failure>)
        ensures
            match r {
                Err(f) => final(self)@ == old(self)@ && match report_refused(saved@, report@) {
                    Some(why) => f@ == conflicting(why),
                    None => false,
                },
                Ok(()) => report_refused(saved@, report@) is None && final(self)@
                    == old(self)@.insert(
                    report_name(report@.device, report@.port),
                    StampedView { at: now, report: report@ },
                ),
            },
    {
        let current = match saved.find(report.port) {
            Some(p) => same(p.generation.as_str(), report.generation.as_str()),
            None => false,
        };
        if !saved.paired(report.device.as_str()) || !current {
            return Err(
                Failure::conflict("Preview or device changed; refresh before reporting"),
            );
        }
        let zero = match report.local_port {
            Some(p) => p == 0,
            None => false,
        };
        let unknown = match &report.error {
            Some(e) => {
                let e = e.as_str();
                !same(e, "SSH connection unavailable") && !same(
                    e,
                    "Cloud HTTP server unavailable",
                ) && !same(e, "Local preview port unavailable")
            },
            None => false,
        };
        if zero || (report.local_port.is_some() && report.error.is_some()) || unknown {
            return Err(Failure::conflict("Invalid preview status"));
        }
        let name = concat3(
            report.device.as_str(),
            "/",
            decimal_of(report.port as u64).as_str(),
        );
        self.table.insert(name.as_str(), Stamped { at: now, report });
        Ok(())
    }

    /// Nothing that was reported counts any more.
    pub fn clear(&mut self)
        ensures
            final(self)@ == Map::<Seq<char>, StampedView>::empty(),
    {
        self.table = Table::new();
    }

    /// What is shown of a preview.
    pub fn show(&self, saved: &Saved, port: u16, now: u64) -> (r: Result<Json, Failure>)
        ensures
            match r {
                Ok(j) => generation_of(saved@.previews, port) is Some && j@ == preview_data(
                    self@,
                    port,
                    generation_of(saved@.previews, port)->0,
                    now,
                ),
                Err(f) => generation_of(saved@.previews, port) is None && f@ == missing(
                    "Preview is not registered"@,
                ),
            },
    {
        let preview = match saved.find(port) {
            Some(p) => p,
            None => {
                return Err(Failure::not_found("Preview is not registered"));
            },
        };
        let generation = preview.generation.as_str();
        let count = self.table.len();
        let ghost all = self.table@;
        let ghost keys = in_order(all);
        let mut url: Option<String> = None;
        let mut error: Option<String> = None;
        let mut i: usize = 0;
        assert(keys.take(0) =~= Seq::empty());
        while i < count
            invariant
                i <= count,
                all == self.table@,
                keys == in_order(all),
                count == keys.len(),
                opt(error) == first_error(all, keys.take(i as int), port, generation@, now),
                opt(url) == match first_ready(
                    all,
                    keys.take(i as int),
                    port,
                    generation@,
                    now,
                ) {
                    Some(r) => Some(preview_url(port, r)),
                    None => None,
                },
            decreases count - i,
        {
            assert(keys.take(i + 1).drop_last() =~= keys.take(i as int));
            assert(keys.take(i + 1).last() == keys[i as int]);
            let stamped = self.table.value_at(i);
            let report = &stamped.report;
            if report.port == port && same(report.generation.as_str(), generation) && since(
                now,
                stamped.at,
            ) <= FRESH_SECONDS {
                if error.is_none() {
                    error = opt_copy(&report.error);
                }
                if url.is_none() {
                    if let Some(local) = report.local_port {
                        let chars = chars_of(report.device.as_str());
                        let end = if chars.len() > 8 {
                            8
                        } else {
                            chars.len()
                        };
                        let short = string_of(slice_subrange(chars.as_slice(), 0, end));
                        assert(short@ =~= first_chars(report@.device, 8));
                        let mut text = concat3(
                            "http://p",
                            decimal_of(port as u64).as_str(),
                            "-",
                        );
                        push_text(&mut text, short.as_str());
                        push_text(&mut text, ".localhost:");
                        push_text(&mut text, decimal_of(local as u64).as_str());
                        url = Some(text);
                    }
                }
            }
            i += 1;
        }
        assert(keys.take(i as int) =~= keys);
        let state = if url.is_some() {
            "ready"
        } else if error.is_some() {
            "error"
        } else {
            "pending"
        };
        let message = match &error {
            Some(e) => e.as_str(),
            None => if url.is_some() {
                "Preview connected"
            } else {
                "Waiting for the paired Mac; check again with cloudroom preview status"
            },
        };
        Ok(
            Json::Object(
                object().with("port", Json::uint(port as u64)).with_text(
                    "generation",
                    generation,
                ).with_text("state", state).with("url", Json::opt_text(opt_slice(&url))).with_text(
                    "message",
                    message,
                ),
            ),
        )
    }

    /// What is shown of all previews.
    pub fn list(&self, saved: &Saved, now: u64) -> (r: Json)
        requires
            by_port(saved@.previews),
        ensures
            r@ == Data::Object(
                map![
                    "previews"@ => Data::Array(
                        saved@.previews.map_values(
                            |p: PreviewView| preview_data(self@, p.port, p.generation, now),
                        ),
                    ),
                ],
            ),
    {
        let ghost all = saved@.previews.map_values(
            |p: PreviewView| preview_data(self@, p.port, p.generation, now),
        );
        let mut out = no_json();
        let mut i: usize = 0;
        assert(values(out@) =~= all.take(0));
        while i < saved.previews.len()
            invariant
                i <= saved.previews@.len(),
                by_port(saved@.previews),
                all == saved@.previews.map_values(
                    |p: PreviewView| preview_data(self@, p.port, p.generation, now),
                ),
                values(out@) == all.take(i as int),
            decreases saved.previews@.len() - i,
        {
            let port = saved.previews[i].port;
            assert(saved@.previews[i as int] == saved.previews@[i as int]@);
            proof {
                found_at(saved@.previews, i as int);
            }
            if let Ok(shown) = self.show(saved, port, now) {
                assert(shown@ == all[i as int]);
                push_json(&mut out, shown);
            }
            assert(all.take(i + 1) =~= all.take(i as int).push(all[i as int]));
            i += 1;
        }
        assert(all.take(i as int) =~= all);
        Json::Object(object().with("previews", Json::Array(out)))
    }
}

proof fn found_at(list: Seq<PreviewView>, i: int)
    requires
        by_port(list),
        0 <= i < list.len(),
    ensures
        generation_of(list, list[i].port) == Some(list[i].generation),
    decreases list.len(),
{
    if i < list.len() - 1 {
        let rest = list.drop_last();
        assert forall|a: int, b: int| 0 <= a < b < rest.len() implies rest[a].port < rest[b].port by {
            assert(rest[a] == list[a] && rest[b] == list[b]);
        }
        assert(list[i].port < list.last().port);
        assert(rest[i] == list[i]);
        found_at(rest, i);
    }
}

/// Reports of a registration that has ended do not count for the next one of the same port.
pub proof fn old_reports_do_not_count(s: StampedView, port: u16, generation: Seq<char>, now: u64)
    requires
        s.report.generation != generation,
    ensures
        !counts(s, port, generation, now),
{
}

} // verus!
