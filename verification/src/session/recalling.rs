//! What holds of what is recalled of a session, of what is told of the service, and of what machines tell of
//! their places.
use super::catalog::with_features;
use super::history::{summarized, summary_step};
use super::lifecycle::{found_history, recovery_message, restored, Saved};
use super::local::{applied, LocalView};
use super::outcome::explains_compaction;
use super::{error_message, ErrorView, RecordView, SessionView};
use crate::fault::FaultKind;
use crate::json::Data;
use crate::runtime::Kind;
use crate::sync::{place, repository_data, told_after, told_refused, HomesView, Repository, ToldView};
use crate::table::{in_order, is_order};
use vstd::prelude::*;

verus! {

proof fn recall_words()
    ensures
        "id"@.len() == 2,
        "name"@.len() == 4 && "name"@[0] == 'n',
        "sync"@.len() == 4 && "sync"@[0] == 's',
        "closed"@.len() == 6 && "closed"@[1] == 'l',
        "failed"@.len() == 6 && "failed"@[1] == 'a',
        "synced"@.len() == 6 && "synced"@[1] == 'y',
        "shared"@.len() == 6 && "shared"@[1] == 'h',
        "syncing"@.len() == 7 && "syncing"@[0] == 's',
        "offline"@.len() == 7 && "offline"@[0] == 'o',
        "conflict"@.len() == 8,
        "completed"@.len() == 9,
        "interrupted"@.len() == 11,
        "workspaceMode"@.len() == 13,
        "saved_history_only"@.len() == 18,
{
    reveal_strlit("id");
    reveal_strlit("name");
    reveal_strlit("sync");
    reveal_strlit("closed");
    reveal_strlit("failed");
    reveal_strlit("synced");
    reveal_strlit("shared");
    reveal_strlit("syncing");
    reveal_strlit("offline");
    reveal_strlit("conflict");
    reveal_strlit("completed");
    reveal_strlit("interrupted");
    reveal_strlit("workspaceMode");
    reveal_strlit("saved_history_only");
    assert("id"@.len() == 2);
    assert("name"@.len() == 4 && "name"@[0] == 'n');
    assert("sync"@.len() == 4 && "sync"@[0] == 's');
    assert("closed"@.len() == 6 && "closed"@[1] == 'l');
    assert("failed"@.len() == 6 && "failed"@[1] == 'a');
    assert("synced"@.len() == 6 && "synced"@[1] == 'y');
    assert("shared"@.len() == 6 && "shared"@[1] == 'h');
    assert("syncing"@.len() == 7 && "syncing"@[0] == 's');
    assert("offline"@.len() == 7 && "offline"@[0] == 'o');
    assert("conflict"@.len() == 8);
    assert("completed"@.len() == 9);
    assert("interrupted"@.len() == 11);
    assert("workspaceMode"@.len() == 13);
    assert("saved_history_only"@.len() == 18);
}
/// A saved session is restored record by record, and its records are numbered from one without gaps.
pub proof fn records_are_restored_in_order(l: LocalView, records: Seq<RecordView>, i: int)
    requires
        restored(l, records).1 is None,
        0 <= i < records.len(),
    ensures
        records[i].sequence == i + 1,
        restored(l, records.take(i)).1 is None,
        restored(l, records.take(i + 1)) == applied(restored(l, records.take(i)).0, records[i]),
    decreases records.len(),
{
    let rest = records.drop_last();
    assert(restored(l, rest).1 is None);
    assert(records.take(i + 1).drop_last() =~= records.take(i));
    assert(records.take(i + 1).last() == records[i]);
    if i < records.len() - 1 {
        records_are_restored_in_order(l, rest, i);
        assert(rest.take(i) =~= records.take(i));
        assert(rest.take(i + 1) =~= records.take(i + 1));
    } else {
        assert(records.take(i) =~= rest);
        assert(records.take(i + 1) =~= records);
    }
}

/// A session without records stays as it is, and a wrong number stops the restoring where it stands.
pub proof fn wrong_numbers_stop_restoring(l: LocalView, records: Seq<RecordView>, r: RecordView)
    requires
        restored(l, records).1 is None,
        r.sequence != records.len() + 1,
    ensures
        restored(l, Seq::empty()).0 == l,
        restored(l, records.push(r)).1 is Some,
        restored(l, records.push(r)).0 == restored(l, records).0,
{
    assert(records.push(r).drop_last() =~= records);
}

/// A saved conversation is there where it holds something, missing where it is empty or not found, and
/// unreadable else.
pub proof fn saved_conversations_are_found(n: u64)
    ensures
        n > 0 ==> found_history(Ok(n)) == Saved::Readable,
        found_history(Ok(0)) == Saved::Missing,
        found_history(Err(FaultKind::NotFound)) == Saved::Missing,
        found_history(Err(FaultKind::PermissionDenied)) == Saved::Unreadable,
        found_history(Err(FaultKind::InvalidInput)) == Saved::Unreadable,
{
}

/// Nothing is to be resumed of a session that is closed, and a lost conversation is not replaced once work was
/// done in it.
pub proof fn recovery_is_explained(s: SessionView, saved: Saved)
    requires
        s.close_request is None && s.state != "closed"@ && s.state != "saved_history_only"@,
        s.native_id is Some && s.native_path is Some,
    ensures
        s.has_dispatched ==> recovery_message(s, Saved::Missing)
            == "Saved conversation is missing; do not create a replacement or replay work"@,
        !s.has_dispatched ==> recovery_message(s, Saved::Missing)
            == "No turn was dispatched and no saved conversation exists; there is nothing to resume"@,
        recovery_message(s, Saved::Readable)
            == "Saved conversation is available; the native resume handshake is still required"@,
        recovery_message(s, Saved::Unreadable) == "Saved conversation could not be read safely"@,
        recovery_message(SessionView { state: "closed"@, ..s }, saved)
            == "This session is closed or has saved history only"@,
        recovery_message(SessionView { native_id: None, ..s }, saved)
            == "No saved native conversation identity is available"@,
{
    recall_words();
}

/// What is summed up of a session grows with each of its records, and begins with nothing.
pub proof fn sessions_are_summed_up_in_order(
    records: Seq<RecordView>,
    r: RecordView,
    request: Option<Seq<char>>,
    word: Seq<char>,
)
    ensures
        summarized(Seq::empty(), request, word) matches Ok(v) && v.last_sequence == 0 && v.native_id
            is None && v.workspace is None && v.receipt is None && v.harness == Kind::Codex,
        summarized(records, request, word) matches Ok(v) ==> summarized(
            records.push(r),
            request,
            word,
        ) == summary_step(v, r, request),
        summarized(records, request, word) is Err ==> summarized(records.push(r), request, word)
            == summarized(records, request, word),
{
    assert(records.push(r).drop_last() =~= records);
}

/// A lost compaction is explained as long as its request is open.
pub proof fn open_compactions_are_explained(s: SessionView, request: Seq<char>)
    requires
        s.receipts.contains_key(request),
    ensures
        s.receipts[request].state == "completed"@ ==> !explains_compaction(s, request),
        s.receipts[request].state == "failed"@ ==> !explains_compaction(s, request),
        s.receipts[request].state == "interrupted"@ ==> !explains_compaction(s, request),
        s.receipts[request].state == "accepted"@ || s.receipts[request].state == "started"@
            || s.receipts[request].state == "unknown"@ ==> explains_compaction(s, request),
{
    recall_words();
    reveal_strlit("accepted");
    reveal_strlit("started");
    reveal_strlit("unknown");
    assert("accepted"@.len() == 8 && "started"@.len() == 7 && "unknown"@.len() == 7);
    assert("accepted"@[0] == 'a');
}

/// A description of the service says yes to each feature, and keeps all else that it says.
pub proof fn features_are_told(
    members: Map<Seq<char>, Data>,
    features: Seq<Seq<char>>,
    i: int,
    other: Seq<char>,
)
    requires
        0 <= i < features.len(),
        !features.contains(other),
    ensures
        with_features(Data::Object(members), features) is Object,
        with_features(Data::Object(members), features).field(features[i]) == Data::Bool(true),
        with_features(Data::Object(members), features).get(other) == Data::Object(members).get(other),
{
    told_features(members, features, other);
    assert(features.contains(features[i]));
}

proof fn told_features(members: Map<Seq<char>, Data>, features: Seq<Seq<char>>, other: Seq<char>)
    requires
        !features.contains(other),
    ensures
        with_features(Data::Object(members), features) is Object,
        forall|f: Seq<char>| #[trigger]
            features.contains(f) ==> with_features(Data::Object(members), features).field(f)
                == Data::Bool(true),
        with_features(Data::Object(members), features).get(other) == Data::Object(members).get(other),
    decreases features.len(),
{
    if features.len() > 0 {
        let rest = features.drop_last();
        assert forall|f: Seq<char>| rest.contains(f) implies features.contains(f) by {
            let k = choose|k: int| 0 <= k < rest.len() && rest[k] == f;
            assert(features[k] == f);
        }
        told_features(members, rest, other);
        assert(features.contains(features.last()));
        assert forall|f: Seq<char>| features.contains(f) implies with_features(
            Data::Object(members),
            features,
        ).field(f) == Data::Bool(true) by {
            let k = choose|k: int| 0 <= k < features.len() && features[k] == f;
            if k < rest.len() {
                assert(rest[k] == f);
                assert(rest.contains(f));
            }
        }
    }
}

/// What went wrong is said in its words.
pub proof fn errors_are_said(message: Seq<char>)
    ensures
        error_message(ErrorView::NotFound) == "session not found"@,
        error_message(ErrorView::Conflict(message)) == message,
        error_message(ErrorView::Storage(message)) == "storage unavailable ("@ + message + ")"@,
{
}

/// What a machine tells of its places is taken where each place is known and each state is one; then it takes
/// the place of what was told before.
pub proof fn told_places_are_known(
    before: Map<Seq<char>, ToldView>,
    states: Map<Seq<char>, Seq<char>>,
    h: HomesView,
    now: u64,
    id: Seq<char>,
)
    requires
        is_order(in_order(states), states),
        states.contains_key(id),
    ensures
        told_refused(in_order(states), states, h) is None ==> place(id, h) is Some && (states[id]
            == "synced"@ || states[id] == "syncing"@ || states[id] == "conflict"@ || states[id]
            == "offline"@),
        told_after(before, states, now).contains_key(id),
        told_after(before, states, now)[id].state == states[id],
        told_after(before, states, now)[id].at == now,
        forall|other: Seq<char>| #[trigger]
            told_after(before, states, now).contains_key(other) ==> states.contains_key(other),
{
    let keys = in_order(states);
    assert(keys.contains(id));
    let k = choose|k: int| 0 <= k < keys.len() && keys[k] == id;
    if told_refused(keys, states, h) is None {
        told_one(keys, states, h, k);
    }
}

proof fn told_one(keys: Seq<Seq<char>>, states: Map<Seq<char>, Seq<char>>, h: HomesView, k: int)
    requires
        0 <= k < keys.len(),
        told_refused(keys, states, h) is None,
    ensures
        place(keys[k], h) is Some,
        crate::sync::known_state(states[keys[k]]),
    decreases keys.len(),
{
    if k < keys.len() - 1 {
        told_one(keys.drop_last(), states, h, k);
    }
}

/// A telling whose places are all known, with states that are ones, is taken.
pub proof fn known_places_are_taken(
    keys: Seq<Seq<char>>,
    states: Map<Seq<char>, Seq<char>>,
    h: HomesView,
)
    requires
        forall|i: int|
            0 <= i < keys.len() ==> place(#[trigger] keys[i], h) is Some && states[keys[i]]
                == "synced"@,
    ensures
        told_refused(keys, states, h) is None,
    decreases keys.len(),
{
    if keys.len() > 0 {
        let rest = keys.drop_last();
        assert forall|i: int| 0 <= i < rest.len() implies place(#[trigger] rest[i], h) is Some
            && states[rest[i]] == "synced"@ by {
            assert(rest[i] == keys[i]);
        }
        known_places_are_taken(rest, states, h);
        assert(keys.last() == keys[keys.len() - 1]);
    }
}

/// A repository is shown by its own name; its files are shared and not copied.
pub proof fn repositories_are_shown(r: Repository)
    ensures
        repository_data(r).field("id"@) == Data::Text(r.id@),
        r.name matches Some(name) ==> repository_data(r).field("name"@) == Data::Text(name@),
        r.name is None ==> repository_data(r).field("name"@) is Null,
        repository_data(r).field("sync"@) == Data::Bool(false),
        repository_data(r).field("workspaceMode"@) == Data::Text("shared"@),
{
    recall_words();
}

} // verus!
