//! What the saved history says of a session that is not here any more.
use super::lifecycle::record_views;
use super::state::start_harness;
use super::{
    blank_session, opt_data, opt_receipt, opt_workspace, opt_workspace_in, receipt_in,
    workspace_in, Receipt, ReceiptView, Record, RecordView, Session, SessionView, Workspace,
    WorkspaceView,
};
use crate::fault::{other, Fault, FaultView};
use crate::json::{Data, Json};
use crate::runtime::Kind;
use crate::text::{opt, opt_owned, opt_str, same};
use vstd::prelude::*;

verus! {

/// What is known of a session.
#[derive(Debug)]
pub struct Summary {
    pub last_sequence: u64,
    pub native_id: Option<String>,
    pub workspace: Option<Workspace>,
    pub harness: Kind,
    /// The word of the product after which one of the harnesses is named.
    pub word: String,
    /// The receipt that is looked for, as it was saved last.
    pub receipt: Option<Json>,
}

/// The mathematical value of what is known of a session.
pub struct SummaryView {
    pub last_sequence: u64,
    pub native_id: Option<Seq<char>>,
    pub workspace: Option<WorkspaceView>,
    pub harness: Kind,
    pub word: Seq<char>,
    pub receipt: Option<Data>,
}

impl View for Summary {
    type V = SummaryView;

    open spec fn view(&self) -> SummaryView {
        SummaryView {
            last_sequence: self.last_sequence,
            native_id: opt(self.native_id),
            workspace: opt_workspace(self.workspace),
            harness: self.harness,
            word: self.word@,
            receipt: opt_data(self.receipt),
        }
    }
}

/// Nothing is known.
pub open spec fn no_summary(word: Seq<char>) -> SummaryView {
    SummaryView {
        last_sequence: 0,
        native_id: None,
        workspace: None,
        harness: Kind::Codex,
        word,
        receipt: None,
    }
}

/// What cannot be read.
pub open spec fn unreadable() -> FaultView {
    other("saved history could not be decoded"@)
}

/// What is known after one more record.
pub open spec fn summary_step(v: SummaryView, r: RecordView, request: Option<Seq<char>>) -> Result<
    SummaryView,
    FaultView,
> {
    let is_receipt = r.kind == "receipt"@;
    let is_start = is_receipt && r.data.field("command"@).is_text("start"@);
    let named = SummaryView {
        last_sequence: r.sequence,
        native_id: if v.native_id is None && r.kind == "native_identity"@ {
            r.data.field("id"@).as_text()
        } else {
            v.native_id
        },
        receipt: if is_receipt && request is Some && r.data.field("request_id"@).is_text(
            request->0,
        ) {
            Some(r.data)
        } else {
            v.receipt
        },
        ..v
    };
    if is_start {
        match (
            opt_workspace_in(r.data.get("workspace"@)),
            start_harness(r.data.field("input"@), v.word),
        ) {
            (Some(workspace), Some(harness)) => Ok(SummaryView { workspace, harness, ..named }),
            _ => Err(unreadable()),
        }
    } else if r.kind == "workspace"@ {
        match workspace_in(r.data) {
            Some(w) => Ok(SummaryView { workspace: Some(w), ..named }),
            None => Err(unreadable()),
        }
    } else {
        Ok(named)
    }
}

/// What is known after records.
pub open spec fn summarized(
    records: Seq<RecordView>,
    request: Option<Seq<char>>,
    word: Seq<char>,
) -> Result<SummaryView, FaultView>
    decreases records.len(),
{
    if records.len() == 0 {
        Ok(no_summary(word))
    } else {
        match summarized(records.drop_last(), request, word) {
            Err(f) => Err(f),
            Ok(v) => summary_step(v, records.last(), request),
        }
    }
}

/// The session that only its history is known of.
pub open spec fn saved_session(id: Seq<char>, v: SummaryView) -> Option<SessionView> {
    if v.last_sequence > 0 {
        Some(
            SessionView {
                last_sequence: v.last_sequence,
                native_id: v.native_id,
                workspace: v.workspace,
                harness: v.harness,
                ..blank_session(id, "saved_history_only"@, v.word)
            },
        )
    } else {
        None
    }
}

/// The receipt that is looked for.
pub open spec fn saved_receipt(v: SummaryView) -> Result<Option<ReceiptView>, FaultView> {
    match v.receipt {
        None => Ok(None),
        Some(data) => match receipt_in(data) {
            Some(r) => Ok(Some(r)),
            None => Err(unreadable()),
        },
    }
}

/// The view of what is known, or could not be.
pub open spec fn summary_result(r: Result<Summary, Fault>) -> Result<SummaryView, FaultView> {
    match r {
        Ok(v) => Ok(v@),
        Err(f) => Err(f@),
    }
}

impl Summary {
    /// Nothing is known.
    pub fn new(word: &str) -> (r: Summary)
        ensures
            r@ == no_summary(word@),
    {
        Summary {
            last_sequence: 0,
            native_id: None,
            workspace: None,
            harness: Kind::Codex,
            word: word.to_owned(),
            receipt: None,
        }
    }

    /// Takes in one more record.
    pub fn take_in(self, record: &Record, request: Option<&str>) -> (r: Result<Summary, Fault>)
        ensures
            summary_result(r) == summary_step(self@, record@, opt_str(request)),
    {
        let kind = record.kind.as_str();
        let data = &record.data;
        let mut known = self;
        known.last_sequence = record.sequence;
        if known.native_id.is_none() && same(kind, "native_identity") {
            known.native_id = opt_owned(data.field_text("id"));
        }
        let is_receipt = same(kind, "receipt");
        if is_receipt {
            if let Some(request) = request {
                if data.field_is("request_id", request) {
                    known.receipt = Some(data.duplicate());
                }
            }
        }
        if is_receipt && data.field_is("command", "start") {
            let workspace: Option<Workspace> = match data.get("workspace") {
                None => None,
                Some(Json::Null) => None,
                Some(w) => match Workspace::from_json(w) {
                    Some(w) => Some(w),
                    None => {
                        return Err(Fault::other("saved history could not be decoded"));
                    },
                },
            };
            let harness = match data.field("input").get("harness") {
                None => Kind::Codex,
                Some(h) => match Kind::in_json(h, known.word.as_str()) {
                    Some(kind) => kind,
                    None => {
                        return Err(Fault::other("saved history could not be decoded"));
                    },
                },
            };
            known.workspace = workspace;
            known.harness = harness;
        } else if same(kind, "workspace") {
            match Workspace::from_json(data) {
                Some(w) => {
                    known.workspace = Some(w);
                },
                None => {
                    return Err(Fault::other("saved history could not be decoded"));
                },
            }
        }
        Ok(known)
    }

    /// The session that only its history is known of.
    pub fn session(&self, id: &str) -> (r: Option<Session>)
        ensures
            match r {
                Some(s) => saved_session(id@, self@) == Some(s@),
                None => saved_session(id@, self@) is None,
            },
    {
        if self.last_sequence == 0 {
            return None;
        }
        let mut s = Session::blank(id, "saved_history_only", self.word.as_str());
        proof {
            reveal(Session::snapshot);
        }
        s.last_sequence = self.last_sequence;
        s.native_id = crate::text::opt_copy(&self.native_id);
        s.workspace = super::copy_workspace(&self.workspace);
        s.harness = self.harness;
        Some(s)
    }

    /// The receipt that is looked for.
    pub fn receipt(&self) -> (r: Result<Option<Receipt>, Fault>)
        ensures
            match r {
                Ok(x) => saved_receipt(self@) == Ok::<Option<ReceiptView>, FaultView>(
                    opt_receipt(x),
                ),
                Err(f) => saved_receipt(self@) == Err::<Option<ReceiptView>, FaultView>(f@),
            },
    {
        match &self.receipt {
            None => Ok(None),
            Some(data) => match Receipt::from_json(data) {
                Some(r) => Ok(Some(r)),
                None => Err(Fault::other("saved history could not be decoded")),
            },
        }
    }
}

proof fn fault_stays(
    records: Seq<RecordView>,
    request: Option<Seq<char>>,
    word: Seq<char>,
    n: int,
)
    requires
        0 <= n <= records.len(),
        summarized(records.take(n), request, word) is Err,
    ensures
        summarized(records, request, word) == summarized(records.take(n), request, word),
    decreases records.len() - n,
{
    if n == records.len() {
        assert(records.take(n) =~= records);
    } else {
        assert(records.take(n + 1).drop_last() =~= records.take(n));
        fault_stays(records, request, word, n + 1);
    }
}

/// What records say of a session.
pub fn summarize(records: &Vec<Record>, request: Option<&str>, word: &str) -> (r: Result<
    Summary,
    Fault,
>)
    ensures
        summary_result(r) == summarized(record_views(records@), opt_str(request), word@),
{
    let ghost all = record_views(records@);
    let mut known = Summary::new(word);
    let mut i: usize = 0;
    assert(all.take(0) =~= Seq::empty());
    while i < records.len()
        invariant
            i <= records.len(),
            all == record_views(records@),
            summarized(all.take(i as int), opt_str(request), word@) == Ok::<SummaryView, FaultView>(
                known@,
            ),
        decreases records.len() - i,
    {
        assert(all.take(i + 1).drop_last() =~= all.take(i as int));
        assert(all.take(i + 1).last() == records@[i as int]@);
        match known.take_in(&records[i], request) {
            Ok(next) => {
                known = next;
            },
            Err(f) => {
                proof {
                    fault_stays(all, opt_str(request), word@, i + 1);
                }
                return Err(f);
            },
        }
        i += 1;
    }
    assert(all.take(i as int) =~= all);
    Ok(known)
}

/// The database must be reached in a way that is safe: without encryption it may only be on this
/// machine.
pub fn check_database(allow_insecure: bool, host: &str) -> (r: Result<(), Fault>)
    ensures
        r is Ok <==> !allow_insecure || host@ == "127.0.0.1"@ || host@ == "localhost"@ || host@
            == "::1"@,
        r matches Err(f) ==> f@ == other(
            "insecure database access is restricted to loopback tests"@,
        ),
{
    if allow_insecure && !(same(host, "127.0.0.1") || same(host, "localhost") || same(
        host,
        "::1",
    )) {
        return Err(
            Fault::other("insecure database access is restricted to loopback tests"),
        );
    }
    Ok(())
}

} // verus!
