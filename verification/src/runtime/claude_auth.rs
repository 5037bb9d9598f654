//! What is observed of claude_code's account, without reading or renewing its credentials.
use super::auth::{passed, since};
use crate::fault::{Fault, FaultKind};
use vstd::prelude::*;

verus! {

/// How often what is known of the account is told again, in milliseconds.
pub const SUMMARY_INTERVAL: u64 = 86400000;

/// What is known of the credentials.
#[derive(Clone, Copy, PartialEq, Eq, Structural, Debug)]
pub enum Credentials {
    Unknown,
    Present,
    Missing,
    CheckFailed,
}

/// How the last request to the model went.
#[derive(Clone, Copy, PartialEq, Eq, Structural, Debug)]
pub enum RequestStatus {
    Unknown,
    Accepted,
    Rejected,
}

/// Why something is told of the account.
#[derive(Clone, Copy, PartialEq, Eq, Structural, Debug)]
pub enum Reason {
    CredentialsPresent,
    CredentialsMissing,
    CheckTimeout,
    CheckFailed,
    InferenceSucceeded,
    AuthenticationFailed,
    DailySummary,
}

/// The name of a reason.
pub open spec fn reason_name(reason: Reason) -> Seq<char> {
    match reason {
        Reason::CredentialsPresent => "credentials_present"@,
        Reason::CredentialsMissing => "credentials_missing"@,
        Reason::CheckTimeout => "check_timeout"@,
        Reason::CheckFailed => "check_failed"@,
        Reason::InferenceSucceeded => "inference_succeeded"@,
        Reason::AuthenticationFailed => "authentication_failed"@,
        Reason::DailySummary => "daily_summary"@,
    }
}

impl Reason {
    /// The name of the reason.
    pub fn name(self) -> (r: &'static str)
        ensures
            r@ == reason_name(self),
    {
        match self {
            Reason::CredentialsPresent => "credentials_present",
            Reason::CredentialsMissing => "credentials_missing",
            Reason::CheckTimeout => "check_timeout",
            Reason::CheckFailed => "check_failed",
            Reason::InferenceSucceeded => "inference_succeeded",
            Reason::AuthenticationFailed => "authentication_failed",
            Reason::DailySummary => "daily_summary",
        }
    }
}

/// What a check of the account found.
#[derive(Clone, Copy, PartialEq, Eq, Structural, Debug)]
pub struct Probe {
    pub credentials: Credentials,
    pub reason: Reason,
}

/// What a check of the account found.
pub fn probe(result: &Result<bool, Fault>) -> (r: Probe)
    ensures
        r == match result {
            Ok(true) => Probe {
                credentials: Credentials::Present,
                reason: Reason::CredentialsPresent,
            },
            Ok(false) => Probe {
                credentials: Credentials::Missing,
                reason: Reason::CredentialsMissing,
            },
            Err(f) => Probe {
                credentials: Credentials::CheckFailed,
                reason: if f@.kind == FaultKind::TimedOut {
                    Reason::CheckTimeout
                } else {
                    Reason::CheckFailed
                },
            },
        },
{
    match result {
        Ok(true) => Probe {
            credentials: Credentials::Present,
            reason: Reason::CredentialsPresent,
        },
        Ok(false) => Probe {
            credentials: Credentials::Missing,
            reason: Reason::CredentialsMissing,
        },
        Err(fault) => Probe {
            credentials: Credentials::CheckFailed,
            reason: if fault.kind == FaultKind::TimedOut {
                Reason::CheckTimeout
            } else {
                Reason::CheckFailed
            },
        },
    }
}

/// What is known of the account.
#[derive(Clone, Copy, PartialEq, Eq, Structural, Debug)]
pub struct ClaudeAuth {
    pub credentials: Credentials,
    pub request: RequestStatus,
    pub request_at: Option<u64>,
    pub recorded: Option<u64>,
    pub probe: Option<Probe>,
}

/// What is told of the account.
#[derive(Clone, Copy, PartialEq, Eq, Structural, Debug)]
pub struct Health {
    pub credentials: Credentials,
    pub request: RequestStatus,
    pub request_at: Option<u64>,
    pub reason: Reason,
}

/// The account once something may have been told of it, and what was: every change, and what is
/// known once a day.
pub open spec fn recorded(a: ClaudeAuth, changed: bool, reason: Reason, now: u64) -> (
    ClaudeAuth,
    Option<Health>,
) {
    if changed || match a.recorded {
        Some(at) => passed(now, at) >= SUMMARY_INTERVAL,
        None => true,
    } {
        (
            ClaudeAuth { recorded: Some(now), ..a },
            Some(
                Health {
                    credentials: a.credentials,
                    request: a.request,
                    request_at: a.request_at,
                    reason: if !changed && a.recorded is Some {
                        Reason::DailySummary
                    } else {
                        reason
                    },
                },
            ),
        )
    } else {
        (a, None)
    }
}

impl ClaudeAuth {
    /// Nothing is known of the account.
    pub fn new() -> (r: ClaudeAuth)
        ensures
            r == (ClaudeAuth {
                credentials: Credentials::Unknown,
                request: RequestStatus::Unknown,
                request_at: None,
                recorded: None,
                probe: None,
            }),
    {
        ClaudeAuth {
            credentials: Credentials::Unknown,
            request: RequestStatus::Unknown,
            request_at: None,
            recorded: None,
            probe: None,
        }
    }

    fn record(&mut self, changed: bool, reason: Reason, now: u64) -> (r: Option<Health>)
        ensures
            (*final(self), r) == recorded(*old(self), changed, reason, now),
    {
        let due = match self.recorded {
            Some(at) => since(now, at) >= SUMMARY_INTERVAL,
            None => true,
        };
        if !changed && !due {
            return None;
        }
        let shown = if !changed && self.recorded.is_some() {
            Reason::DailySummary
        } else {
            reason
        };
        self.recorded = Some(now);
        Some(
            Health {
                credentials: self.credentials,
                request: self.request,
                request_at: self.request_at,
                reason: shown,
            },
        )
    }

    /// The account was checked.
    pub fn check(&mut self, probe: Probe, now: u64) -> (r: Option<Health>)
        ensures
            (*final(self), r) == recorded(
                ClaudeAuth {
                    credentials: probe.credentials,
                    probe: Some(probe),
                    ..*old(self)
                },
                old(self).probe != Some(probe),
                probe.reason,
                now,
            ),
    {
        let changed = match self.probe {
            Some(before) => before != probe,
            None => true,
        };
        self.probe = Some(probe);
        self.credentials = probe.credentials;
        self.record(changed, probe.reason, now)
    }

    /// A request to the model was accepted or rejected.
    pub fn request(&mut self, accepted: bool, now: u64) -> (r: Option<Health>)
        ensures
            ({
                let request = if accepted {
                    RequestStatus::Accepted
                } else {
                    RequestStatus::Rejected
                };
                (*final(self), r) == recorded(
                    ClaudeAuth { request, request_at: Some(now), ..*old(self) },
                    old(self).request != request,
                    if accepted {
                        Reason::InferenceSucceeded
                    } else {
                        Reason::AuthenticationFailed
                    },
                    now,
                )
            }),
    {
        let request = if accepted {
            RequestStatus::Accepted
        } else {
            RequestStatus::Rejected
        };
        let changed = self.request != request;
        self.request = request;
        self.request_at = Some(now);
        let reason = if accepted {
            Reason::InferenceSucceeded
        } else {
            Reason::AuthenticationFailed
        };
        self.record(changed, reason, now)
    }
}

} // verus!
