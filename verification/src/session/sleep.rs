//! Idle sessions release their harness process and resume on the next message.
use super::local::Local;
use super::query::{busy, has_work, some_wanted, Wanted};
use super::{Awake, Session, SessionView};
use crate::table::{in_order, is_order};
use crate::text::{opt_slice, same, same_opt};
use vstd::prelude::*;

verus! {

/// A harness without active work is stopped after so many milliseconds: thirty minutes.
pub const IDLE_SLEEP_MS: u64 = 1_800_000;

/// New background jobs (dev servers, watchers) count as activity. Where the number of processes is
/// not known, now or then, none are seen.
pub open spec fn background_jobs(s: SessionView, processes: Option<usize>) -> bool {
    match (s.awake, s.handle, processes) {
        (Some(a), Some(h), Some(now)) => a.pid == h.pid && a.processes is Some && now
            > a.processes->0,
        _ => false,
    }
}

/// Only an idle harness with no queued work and no background jobs may stop.
pub open spec fn sleepy_now(s: SessionView, processes: Option<usize>) -> bool {
    &&& s.handle is Some
    &&& s.ready
    &&& !s.releasing
    &&& s.state == "idle"@
    &&& !busy(s)
    &&& !s.compacting
    &&& s.rewind_request is None
    &&& s.close_request is None
    &&& !some_wanted(s.receipts, Wanted::PendingInterrupt)
    &&& !s.storage_paused
    &&& !background_jobs(s, processes)
}

/// Some child of a session is busy.
pub open spec fn child_busy(sessions: Map<Seq<char>, SessionView>, parent: Seq<char>) -> bool {
    exists|id: Seq<char>| #[trigger]
        sessions.contains_key(id) && sessions[id].parent_session == Some(parent) && busy(
            sessions[id],
        )
}

/// Only an idle harness with no queued work, children, or background jobs may stop.
pub open spec fn sleepy(
    sessions: Map<Seq<char>, SessionView>,
    id: Seq<char>,
    processes: Option<usize>,
) -> bool {
    sleepy_now(sessions[id], processes) && !child_busy(sessions, id)
}

/// The milliseconds since the last activity, or since the harness became ready.
pub open spec fn idle_for(s: SessionView, now: u64) -> nat {
    let seen = match s.last_activity {
        Some(at) => at,
        None => 0,
    };
    let woken = match s.awake {
        Some(a) => a.since_ms,
        None => 0,
    };
    let since = if seen >= woken {
        seen
    } else {
        woken
    };
    if now > since {
        (now - since) as nat
    } else {
        0
    }
}

/// A restart relaunches only sessions with work or recent activity.
pub open spec fn stays_awake(s: SessionView, now: u64) -> bool {
    has_work(s) || (s.state != "sleeping"@ && match s.last_activity {
        Some(at) => now < at || now - at < IDLE_SLEEP_MS,
        None => true,
    })
}

/// What the watch over idle harnesses does with a session.
#[derive(Clone, Copy, PartialEq, Eq, Structural, Debug)]
pub enum Watch {
    /// The harness has become ready: it is remembered, with the size of its workload.
    Remember,
    /// The harness is let go.
    Release,
    Leave,
}

/// A session sleeps when it was asked to, or after it was idle long enough.
pub open spec fn sleep_due(s: SessionView, now: u64) -> bool {
    some_wanted(s.receipts, Wanted::AcceptedSleep) || idle_for(s, now) >= IDLE_SLEEP_MS
}

/// The harness that the session holds is not the one that is remembered.
pub open spec fn newly_ready(s: SessionView) -> bool {
    s.ready && s.handle is Some && !(s.awake matches Some(a) && a.pid == s.handle->0.pid)
}

/// What the watch over idle harnesses does with a session.
pub open spec fn watched(
    sessions: Map<Seq<char>, SessionView>,
    id: Seq<char>,
    now: u64,
    processes: Option<usize>,
) -> Watch {
    if !sessions.contains_key(id) || sessions[id].handle is None {
        Watch::Leave
    } else if newly_ready(sessions[id]) {
        Watch::Remember
    } else if sleep_due(sessions[id], now) && sleepy(sessions, id, processes) {
        Watch::Release
    } else {
        Watch::Leave
    }
}

/// No session is put to sleep while it, or a child of it, has work.
pub proof fn working_sessions_stay_awake(
    sessions: Map<Seq<char>, SessionView>,
    id: Seq<char>,
    child: Seq<char>,
    now: u64,
    processes: Option<usize>,
)
    requires
        sessions.contains_key(id),
        busy(sessions[id]) || (sessions.contains_key(child) && sessions[child].parent_session
            == Some(id) && busy(sessions[child])),
    ensures
        watched(sessions, id, now, processes) != Watch::Release,
{
}

impl Session {
    /// Remembers the harness as it becomes ready.
    pub fn awaken(&mut self, now: u64, processes: Option<usize>)
        ensures
            final(self)@ == (SessionView {
                awake: match old(self)@.handle {
                    Some(h) => Some(Awake { pid: h.pid, since_ms: now, processes }),
                    None => None,
                },
                ..old(self)@
            }),
    {
        proof {
            reveal(Session::snapshot);
        }
        self.awake = match &self.handle {
            Some(h) => Some(Awake { pid: h.pid, since_ms: now, processes }),
            None => None,
        };
    }

    /// The milliseconds since the last activity, or since the harness became ready.
    pub fn idle_ms(&self, now: u64) -> (r: u64)
        ensures
            r == idle_for(self@, now),
    {
        proof {
            reveal(Session::snapshot);
        }
        let seen: u64 = match self.last_activity {
            Some(at) => at,
            None => 0,
        };
        let woken: u64 = match &self.awake {
            Some(a) => a.since_ms,
            None => 0,
        };
        let since = if seen >= woken {
            seen
        } else {
            woken
        };
        if now > since {
            now - since
        } else {
            0
        }
    }

    /// Whether a restart relaunches the session.
    pub fn restores_awake(&self, now: u64) -> (r: bool)
        ensures
            r == stays_awake(self@, now),
    {
        proof {
            reveal(Session::snapshot);
        }
        self.has_work() || (!same(self.state.as_str(), "sleeping") && match self.last_activity {
            Some(at) => now < at || now - at < IDLE_SLEEP_MS,
            None => true,
        })
    }

    fn sleepy_now(&self, processes: Option<usize>) -> (r: bool)
        ensures
            r == sleepy_now(self@, processes),
    {
        proof {
            reveal(Session::snapshot);
        }
        let jobs = match (&self.awake, &self.handle, processes) {
            (Some(a), Some(h), Some(now)) => a.pid == h.pid && match a.processes {
                Some(baseline) => now > baseline,
                None => false,
            },
            _ => false,
        };
        self.handle.is_some() && self.ready && !self.releasing && same(self.state.as_str(), "idle")
            && !self.busy() && !self.compacting && self.rewind_request.is_none()
            && self.close_request.is_none() && !self.interrupt_pending() && !self.storage_paused
            && !jobs
    }

    fn is_busy_child(&self, parent: &str) -> (r: bool)
        ensures
            r == (self@.parent_session == Some(parent@) && busy(self@)),
    {
        proof {
            reveal(Session::snapshot);
        }
        same_opt(opt_slice(&self.parent_session), Some(parent)) && self.busy()
    }

    fn is_newly_ready(&self) -> (r: bool)
        ensures
            r == newly_ready(self@),
    {
        proof {
            reveal(Session::snapshot);
        }
        match (&self.handle, &self.awake) {
            (Some(h), Some(a)) => self.ready && a.pid != h.pid,
            (Some(_), None) => self.ready,
            _ => false,
        }
    }

    /// The idle harness was asked to exit so that the session can sleep.
    pub fn release(&mut self)
        ensures
            final(self)@ == (SessionView { ready: false, releasing: true, ..old(self)@ }),
    {
        proof {
            reveal(Session::snapshot);
        }
        self.ready = false;
        self.releasing = true;
    }
}

impl Local {
    fn child_busy(&self, parent: &str) -> (r: bool)
        ensures
            r == child_busy(self@.sessions, parent@),
    {
        let count = self.sessions.len();
        let ghost keys = in_order(self.sessions@);
        let mut i: usize = 0;
        while i < count
            invariant
                i <= count,
                keys == in_order(self.sessions@),
                is_order(keys, self.sessions@),
                count == keys.len(),
                forall|j: int|
                    0 <= j < i ==> !(self.sessions@[#[trigger] keys[j]].parent_session == Some(
                        parent@,
                    ) && busy(self.sessions@[keys[j]])),
            decreases count - i,
        {
            if self.sessions.value_at(i).is_busy_child(parent) {
                assert(self.sessions@.contains_key(keys[i as int]));
                return true;
            }
            i += 1;
        }
        proof {
            assert forall|id: Seq<char>| #[trigger] self.sessions@.contains_key(id) implies !(
            self.sessions@[id].parent_session == Some(parent@) && busy(self.sessions@[id])) by {
                let j = choose|j: int| 0 <= j < keys.len() && keys[j] == id;
                assert(keys[j] == id);
            }
        }
        false
    }

    /// Whether the harness of a session may stop.
    pub fn can_sleep(&self, id: &str, processes: Option<usize>) -> (r: bool)
        requires
            self@.sessions.contains_key(id@),
        ensures
            r == sleepy(self@.sessions, id@, processes),
    {
        match self.sessions.get(id) {
            Some(s) => s.sleepy_now(processes) && !self.child_busy(id),
            None => false,
        }
    }

    /// What the watch over idle harnesses does with a session, which has so many processes now.
    pub fn watch(&self, id: &str, now: u64, processes: Option<usize>) -> (r: Watch)
        ensures
            r == watched(self@.sessions, id@, now, processes),
    {
        match self.sessions.get(id) {
            Some(s) => {
                if !s.is_attached() {
                    return Watch::Leave;
                }
                if s.is_newly_ready() {
                    return Watch::Remember;
                }
                if (s.sleep_pending() || s.idle_ms(now) >= IDLE_SLEEP_MS) && self.can_sleep(
                    id,
                    processes,
                ) {
                    return Watch::Release;
                }
                Watch::Leave
            },
            None => Watch::Leave,
        }
    }
}

} // verus!
