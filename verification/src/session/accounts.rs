//! The accounts of the harnesses, as far as sessions depend on them.
use super::local::{Local, LocalView};
use super::pick::{chosen, entries, note_each, of_each, some_fits, Entry, EntryView, Pick};
use super::query::{receipt_note, Note};
use super::{accepted, Error, ErrorView, Receipt};
use crate::fault::Fault;
use crate::json::{object, Data, Json};
use crate::runtime::claude_version::{is_version, valid};
use crate::runtime::product::Product;
use crate::runtime::Kind;
use crate::text::{concat, concat3, decimal, decimal_of, same};
use vstd::prelude::*;

verus! {

/// The view of an answer that is given or refused.
pub open spec fn verdict(r: Result<(), Error>) -> Option<ErrorView> {
    match r {
        Ok(()) => None,
        Err(e) => Some(e@),
    }
}

/// The prompt that a session goes on with, once its account can work again.
pub open spec fn keep_working(now: u64) -> super::ReceiptView {
    accepted(
        "continue_"@ + decimal(now as nat),
        "prompt"@,
        Data::Object(map!["text"@ => Data::Text("keep working"@)]),
    )
}

/// The sessions that go on, and the prompt that each is given.
pub open spec fn continued(l: LocalView, stopping: bool, blocked: bool, now: u64) -> Seq<EntryView> {
    if stopping || blocked {
        Seq::empty()
    } else {
        of_each(chosen(l.sessions, Pick::Limited), receipt_note(keep_working(now)))
    }
}

/// Why no login may be begun.
pub open spec fn login_refused(
    l: LocalView,
    stopping: bool,
    blocked: bool,
    work: Pick,
    message: Seq<char>,
) -> Option<ErrorView> {
    if stopping {
        Some(ErrorView::Conflict("service is stopping"@))
    } else if blocked {
        Some(ErrorView::Conflict("storage unsafe; new execution is blocked"@))
    } else if some_fits(l.sessions, work) {
        Some(ErrorView::Conflict(message))
    } else {
        None
    }
}

impl Local {
    /// Sends every session that a usage limit stopped back to work. Each harness is restarted
    /// first, so that it knows the new login before the prompt runs.
    pub fn continue_limited(&self, stopping: bool, blocked: bool, now: u64) -> (r: Vec<Entry>)
        ensures
            entries(r@) == continued(self@, stopping, blocked, now),
    {
        if stopping || blocked {
            let none: Vec<Entry> = Vec::new();
            assert(entries(none@) =~= Seq::empty());
            return none;
        }
        let request = concat("continue_", decimal_of(now).as_str());
        let receipt = Receipt::accepted(
            request.as_str(),
            "prompt",
            Json::Object(object().with_text("text", "keep working")),
        );
        note_each(&self.pick(Pick::Limited), &Note::receipt(&receipt))
    }

    /// Whether a login of Codex may be begun.
    pub fn check_codex_login(&self, stopping: bool, blocked: bool) -> (r: Result<(), Error>)
        ensures
            verdict(r) == login_refused(
                self@,
                stopping,
                blocked,
                Pick::CodexWork,
                "finish active Codex work before signing in"@,
            ),
    {
        if stopping {
            return Err(Error::conflict("service is stopping"));
        }
        if blocked {
            return Err(Error::conflict("storage unsafe; new execution is blocked"));
        }
        if self.any(Pick::CodexWork) {
            return Err(Error::conflict("finish active Codex work before signing in"));
        }
        Ok(())
    }

    /// Whether the login of Cursor may be changed. Cancelling a login is always allowed.
    pub fn check_cursor_account(&self, action: &str, stopping: bool, blocked: bool) -> (r: Result<
        (),
        Error,
    >)
        ensures
            verdict(r) == if action@ == "cancel"@ {
                None
            } else {
                login_refused(
                    self@,
                    stopping,
                    blocked,
                    Pick::CursorWork,
                    "close Cursor sessions before changing the cloud login"@,
                )
            },
    {
        if same(action, "cancel") {
            return Ok(());
        }
        if stopping {
            return Err(Error::conflict("service is stopping"));
        }
        if blocked {
            return Err(Error::conflict("storage unsafe; new execution is blocked"));
        }
        if self.any(Pick::CursorWork) {
            return Err(
                Error::conflict("close Cursor sessions before changing the cloud login"),
            );
        }
        Ok(())
    }

    /// Whether the version of claude_code can be matched, and whether claude_code runs meanwhile.
    pub fn match_claude_version(&self, version: &str, configured: bool) -> (r: Result<bool, Error>)
        ensures
            match r {
                Ok(busy) => is_version(version@) && configured && busy == some_fits(
                    self@.sessions,
                    Pick::ClaudeRuns,
                ),
                Err(e) => if !is_version(version@) {
                    e@ == ErrorView::Conflict("invalid version"@)
                } else {
                    !configured && e@ == ErrorView::Conflict("harness is not configured"@)
                },
            },
    {
        if !valid(version) {
            return Err(Error::conflict("invalid version"));
        }
        if !configured {
            return Err(Error::conflict("harness is not configured"));
        }
        Ok(self.any(Pick::ClaudeRuns))
    }
}

/// What is known of the account of a harness when work is to start.
pub enum Account {
    /// claude_code was asked: it has an account, or not, or did not answer.
    Asked(Result<bool, Fault>),
    /// The state of the account, as it is shown.
    State(&'static str),
    /// No account is needed.
    Unneeded,
}

/// Why a harness cannot work: its account is missing, limited, or could not be looked at.
pub open spec fn account_refused(
    kind: Kind,
    account: Account,
    product: Seq<char>,
) -> Option<Seq<char>> {
    match account {
        Account::Unneeded => None,
        Account::Asked(answer) => if kind != Kind::Claude {
            None
        } else {
            match answer {
                Ok(true) => None,
                Ok(false) => Some("connect "@ + product + " Code before starting cloud work"@),
                Err(_) => Some(product + " account could not be verified"@),
            }
        },
        Account::State(state) => if state@ == "connected"@ {
            None
        } else if kind == Kind::Cursor {
            if state@ == "unavailable"@ {
                Some("Cursor account could not be verified"@)
            } else {
                Some("connect Cursor before starting cloud work"@)
            }
        } else if kind == Kind::Codex {
            if state@ == "missing"@ || state@ == "waiting"@ || state@ == "expired"@ || state@
                == "error"@ {
                Some("connect Codex before starting cloud work"@)
            } else if state@ == "limited"@ {
                Some("Codex usage limit reached"@)
            } else {
                Some("Codex account could not be verified"@)
            }
        } else {
            None
        },
    }
}

/// The harness has an account to work with.
pub fn harness_ready(kind: Kind, account: Account, product: &Product) -> (r: Result<(), Error>)
    ensures
        verdict(r) == match account_refused(kind, account, product.name@) {
            Some(message) => Some(ErrorView::Conflict(message)),
            None => None,
        },
{
    match account {
        Account::Unneeded => Ok(()),
        Account::Asked(answer) => {
            if kind != Kind::Claude {
                return Ok(());
            }
            match answer {
                Ok(true) => Ok(()),
                Ok(false) => Err(
                    Error::Conflict(
                        concat3(
                            "connect ",
                            product.name.as_str(),
                            " Code before starting cloud work",
                        ),
                    ),
                ),
                Err(_) => Err(
                    Error::Conflict(
                        concat(product.name.as_str(), " account could not be verified"),
                    ),
                ),
            }
        },
        Account::State(state) => {
            if same(state, "connected") {
                return Ok(());
            }
            if kind == Kind::Cursor {
                return Err(
                    if same(state, "unavailable") {
                        Error::conflict("Cursor account could not be verified")
                    } else {
                        Error::conflict("connect Cursor before starting cloud work")
                    },
                );
            }
            if kind == Kind::Codex {
                return Err(
                    if same(state, "missing") || same(state, "waiting") || same(state, "expired")
                        || same(state, "error") {
                        Error::conflict("connect Codex before starting cloud work")
                    } else if same(state, "limited") {
                        Error::conflict("Codex usage limit reached")
                    } else {
                        Error::conflict("Codex account could not be verified")
                    },
                );
            }
            Ok(())
        },
    }
}

/// Whatever may not be disturbed keeps a login from being begun.
pub proof fn work_keeps_its_login(
    l: LocalView,
    stopping: bool,
    blocked: bool,
    id: Seq<char>,
)
    requires
        l.sessions.contains_key(id),
        l.sessions[id].harness == Kind::Codex,
        l.sessions[id].current_request is Some,
    ensures
        login_refused(
            l,
            stopping,
            blocked,
            Pick::CodexWork,
            "finish active Codex work before signing in"@,
        ) is Some,
{
}

} // verus!
