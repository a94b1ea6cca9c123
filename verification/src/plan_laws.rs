//! What a plan holds for a given id.
//!
//! Each law looks at one id and says how often, and with which record, it
//! occurs in each of the four lists of the plan. All of them take snapshots
//! in which no id occurs twice.

use vstd::prelude::*;
use crate::record::RecordView;
use crate::planner::{counterpart, create_due, newer_than_counterpart, remote_update_due, plan_of, SyncPlanView};

verus! {

/// No two records of the snapshot share an id.
pub open spec fn distinct_ids(snapshot: Seq<RecordView>) -> bool {
    forall|i: int, j: int|
        0 <= i < snapshot.len() && 0 <= j < snapshot.len() && i != j ==> snapshot[i].id != snapshot[j].id
}

/// No record of the snapshot carries `id`.
pub open spec fn lacks_id(snapshot: Seq<RecordView>, id: Seq<char>) -> bool {
    forall|i: int| 0 <= i < snapshot.len() ==> (#[trigger] snapshot[i]).id != id
}

/// The records of a list that carry `id`, in order.
pub open spec fn with_id(records: Seq<RecordView>, id: Seq<char>) -> Seq<RecordView> {
    records.filter(|r: RecordView| r.id == id)
}

/// The remote updates of a list whose record carries `id`, in order.
pub open spec fn updates_with_id(updates: Seq<(Seq<char>, RecordView)>, id: Seq<char>) -> Seq<(Seq<char>, RecordView)> {
    updates.filter(|u: (Seq<char>, RecordView)| u.1.id == id)
}

/// The plan schedules nothing on the local side for `id`.
pub open spec fn no_local_action(plan: SyncPlanView, id: Seq<char>) -> bool {
    with_id(plan.to_create_local, id).len() == 0 && with_id(plan.to_update_local, id).len() == 0
}

/// The plan schedules nothing on the remote side for `id`.
pub open spec fn no_remote_action(plan: SyncPlanView, id: Seq<char>) -> bool {
    with_id(plan.to_create_remote, id).len() == 0 && updates_with_id(plan.to_update_remote, id).len() == 0
}

/// The counterpart of an id is a record of the snapshot with that id, and
/// there is none exactly where the snapshot lacks the id.
pub proof fn lemma_counterpart_found(snapshot: Seq<RecordView>, id: Seq<char>)
    ensures
        match counterpart(snapshot, id) {
            Some(c) => c.id == id && snapshot.contains(c),
            None => lacks_id(snapshot, id),
        },
    decreases snapshot.len(),
{
    if snapshot.len() > 0 {
        if snapshot.last().id == id {
            assert(snapshot[snapshot.len() - 1] == snapshot.last());
        } else {
            let rest = snapshot.drop_last();
            lemma_counterpart_found(rest, id);
            match counterpart(rest, id) {
                Some(c) => {
                    let k = choose|k: int| 0 <= k < rest.len() && rest[k] == c;
                    assert(snapshot[k] == c);
                },
                None => {
                    assert forall|i: int| 0 <= i < snapshot.len() implies (#[trigger] snapshot[i]).id != id by {
                        if i < rest.len() {
                            assert(rest[i] == snapshot[i]);
                        }
                    }
                },
            }
        }
    }
}

/// In a snapshot without repeated ids, the counterpart of a record's id is
/// that record.
pub proof fn lemma_counterpart_of_member(snapshot: Seq<RecordView>, i: int)
    requires
        distinct_ids(snapshot),
        0 <= i < snapshot.len(),
    ensures
        counterpart(snapshot, snapshot[i].id) == Some(snapshot[i]),
    decreases snapshot.len(),
{
    if i < snapshot.len() - 1 {
        let rest = snapshot.drop_last();
        assert(rest[i] == snapshot[i]);
        assert(distinct_ids(rest)) by {
            assert forall|a: int, b: int| 0 <= a < rest.len() && 0 <= b < rest.len() && a != b implies rest[a].id
                != rest[b].id by {
                assert(rest[a] == snapshot[a] && rest[b] == snapshot[b]);
            }
        }
        lemma_counterpart_of_member(rest, i);
    }
}

proof fn lemma_distinct_prefix(snapshot: Seq<RecordView>)
    requires
        distinct_ids(snapshot),
        snapshot.len() > 0,
    ensures
        distinct_ids(snapshot.drop_last()),
        lacks_id(snapshot.drop_last(), snapshot.last().id),
{
    let rest = snapshot.drop_last();
    assert forall|a: int, b: int| 0 <= a < rest.len() && 0 <= b < rest.len() && a != b implies rest[a].id
        != rest[b].id by {
        assert(rest[a] == snapshot[a] && rest[b] == snapshot[b]);
    }
    assert forall|a: int| 0 <= a < rest.len() implies (#[trigger] rest[a]).id != snapshot.last().id by {
        assert(rest[a] == snapshot[a]);
    }
}

/// Of the records that a filter keeps, those with a given id: the record of
/// that id, if the snapshot has one and the filter keeps it.
pub proof fn lemma_kept_with_id(snapshot: Seq<RecordView>, keep: spec_fn(RecordView) -> bool, id: Seq<char>)
    requires
        distinct_ids(snapshot),
    ensures
        with_id(snapshot.filter(keep), id) == match counterpart(snapshot, id) {
            Some(c) => if keep(c) {
                seq![c]
            } else {
                Seq::empty()
            },
            None => Seq::empty(),
        },
    decreases snapshot.len(),
{
    reveal(Seq::filter);
    let has = |r: RecordView| r.id == id;
    if snapshot.len() > 0 {
        let rest = snapshot.drop_last();
        let last = snapshot.last();
        lemma_distinct_prefix(snapshot);
        lemma_kept_with_id(rest, keep, id);
        lemma_counterpart_found(rest, id);
        if keep(last) {
            rest.filter(keep).lemma_filter_push(last, has);
        }
        if last.id == id {
            assert(with_id(snapshot.filter(keep), id) =~= if keep(last) {
                seq![last]
            } else {
                Seq::empty()
            });
        }
    }
}

/// Of the values that a partial map yields, those for a given id, where the
/// map pairs a record with itself.
pub proof fn lemma_mapped_with_id(
    snapshot: Seq<RecordView>,
    f: spec_fn(RecordView) -> Option<(Seq<char>, RecordView)>,
    id: Seq<char>,
)
    requires
        distinct_ids(snapshot),
        forall|r: RecordView| (#[trigger] f(r)) is Some ==> f(r).unwrap().1 == r,
    ensures
        updates_with_id(snapshot.filter_map(f), id) == match counterpart(snapshot, id) {
            Some(c) => match f(c) {
                Some(u) => seq![u],
                None => Seq::empty(),
            },
            None => Seq::empty(),
        },
    decreases snapshot.len(),
{
    reveal(Seq::filter);
    let has = |u: (Seq<char>, RecordView)| u.1.id == id;
    if snapshot.len() > 0 {
        let rest = snapshot.drop_last();
        let last = snapshot.last();
        lemma_distinct_prefix(snapshot);
        lemma_mapped_with_id(rest, f, id);
        lemma_counterpart_found(rest, id);
        match f(last) {
            Some(u) => {
                assert(rest.filter_map(f) + seq![u] =~= rest.filter_map(f).push(u));
                rest.filter_map(f).lemma_filter_push(u, has);
                if last.id == id {
                    assert(updates_with_id(snapshot.filter_map(f), id) =~= seq![u]);
                }
            },
            None => {},
        }
    }
}

/// A record that only the local side holds is created remotely, once, and
/// nothing is scheduled for it on the local side.
pub proof fn law_local_only(local: Seq<RecordView>, remote: Seq<RecordView>, i: int)
    requires
        distinct_ids(local),
        distinct_ids(remote),
        0 <= i < local.len(),
        lacks_id(remote, local[i].id),
    ensures
        with_id(plan_of(local, remote).to_create_remote, local[i].id) == seq![local[i]],
        updates_with_id(plan_of(local, remote).to_update_remote, local[i].id).len() == 0,
        no_local_action(plan_of(local, remote), local[i].id),
{
    let id = local[i].id;
    lemma_plan_for_id(local, remote, id);
    lemma_counterpart_of_member(local, i);
    lemma_counterpart_found(remote, id);
    if counterpart(remote, id) is Some {
        let c = counterpart(remote, id).unwrap();
        let k = choose|k: int| 0 <= k < remote.len() && remote[k] == c;
        assert(remote[k].id != id);
    }
}

/// A record that only the remote side holds is created locally, once, and
/// nothing is scheduled for it on the remote side.
pub proof fn law_remote_only(local: Seq<RecordView>, remote: Seq<RecordView>, j: int)
    requires
        distinct_ids(local),
        distinct_ids(remote),
        0 <= j < remote.len(),
        lacks_id(local, remote[j].id),
    ensures
        with_id(plan_of(local, remote).to_create_local, remote[j].id) == seq![remote[j]],
        with_id(plan_of(local, remote).to_update_local, remote[j].id).len() == 0,
        no_remote_action(plan_of(local, remote), remote[j].id),
{
    let id = remote[j].id;
    lemma_plan_for_id(local, remote, id);
    lemma_counterpart_of_member(remote, j);
    lemma_counterpart_found(local, id);
    if counterpart(local, id) is Some {
        let c = counterpart(local, id).unwrap();
        let k = choose|k: int| 0 <= k < local.len() && local[k] == c;
        assert(local[k].id != id);
    }
}

/// Where both sides hold a record and the local version is strictly newer,
/// it is sent as one remote update under the remote version's identifier, or
/// not at all where that identifier is missing; nothing else is scheduled for
/// the id.
pub proof fn law_local_newer(local: Seq<RecordView>, remote: Seq<RecordView>, i: int, j: int)
    requires
        distinct_ids(local),
        distinct_ids(remote),
        0 <= i < local.len(),
        0 <= j < remote.len(),
        local[i].id == remote[j].id,
        local[i].updated_at > remote[j].updated_at,
    ensures
        updates_with_id(plan_of(local, remote).to_update_remote, local[i].id) == match remote[j].record_id {
            Some(key) => seq![(key, local[i])],
            None => Seq::empty(),
        },
        with_id(plan_of(local, remote).to_create_remote, local[i].id).len() == 0,
        no_local_action(plan_of(local, remote), local[i].id),
{
    lemma_plan_for_id(local, remote, local[i].id);
    lemma_counterpart_of_member(local, i);
    lemma_counterpart_of_member(remote, j);
}

/// Where both sides hold a record and the remote version is strictly newer,
/// it is taken over as one local update, and nothing is scheduled for the id
/// on the remote side.
pub proof fn law_remote_newer(local: Seq<RecordView>, remote: Seq<RecordView>, i: int, j: int)
    requires
        distinct_ids(local),
        distinct_ids(remote),
        0 <= i < local.len(),
        0 <= j < remote.len(),
        local[i].id == remote[j].id,
        remote[j].updated_at > local[i].updated_at,
    ensures
        with_id(plan_of(local, remote).to_update_local, local[i].id) == seq![remote[j]],
        with_id(plan_of(local, remote).to_create_local, local[i].id).len() == 0,
        no_remote_action(plan_of(local, remote), local[i].id),
{
    lemma_plan_for_id(local, remote, local[i].id);
    lemma_counterpart_of_member(local, i);
    lemma_counterpart_of_member(remote, j);
}

/// Where both sides hold a record with the same `updated_at`, nothing is
/// scheduled for it.
pub proof fn law_equal_timestamps(local: Seq<RecordView>, remote: Seq<RecordView>, i: int, j: int)
    requires
        distinct_ids(local),
        distinct_ids(remote),
        0 <= i < local.len(),
        0 <= j < remote.len(),
        local[i].id == remote[j].id,
        local[i].updated_at == remote[j].updated_at,
    ensures
        no_local_action(plan_of(local, remote), local[i].id),
        no_remote_action(plan_of(local, remote), local[i].id),
{
    lemma_plan_for_id(local, remote, local[i].id);
    lemma_counterpart_of_member(local, i);
    lemma_counterpart_of_member(remote, j);
}

/// The four lists of a plan are disjoint: an id is scheduled for at most one
/// action.
pub proof fn law_at_most_one_action(local: Seq<RecordView>, remote: Seq<RecordView>, id: Seq<char>)
    requires
        distinct_ids(local),
        distinct_ids(remote),
    ensures
        with_id(plan_of(local, remote).to_create_local, id).len() + with_id(
            plan_of(local, remote).to_update_local,
            id,
        ).len() + with_id(plan_of(local, remote).to_create_remote, id).len() + updates_with_id(
            plan_of(local, remote).to_update_remote,
            id,
        ).len() <= 1,
{
    lemma_plan_for_id(local, remote, id);
    lemma_counterpart_found(local, id);
    lemma_counterpart_found(remote, id);
}

/// What each list of the plan holds for one id, read off the two records
/// that carry it.
pub proof fn lemma_plan_for_id(local: Seq<RecordView>, remote: Seq<RecordView>, id: Seq<char>)
    requires
        distinct_ids(local),
        distinct_ids(remote),
    ensures
        with_id(plan_of(local, remote).to_create_remote, id) == match counterpart(local, id) {
            Some(l) => if create_due(l, remote) {
                seq![l]
            } else {
                Seq::empty()
            },
            None => Seq::empty(),
        },
        updates_with_id(plan_of(local, remote).to_update_remote, id) == match counterpart(local, id) {
            Some(l) => match remote_update_due(l, remote) {
                Some(u) => seq![u],
                None => Seq::empty(),
            },
            None => Seq::empty(),
        },
        with_id(plan_of(local, remote).to_create_local, id) == match counterpart(remote, id) {
            Some(r) => if create_due(r, local) {
                seq![r]
            } else {
                Seq::empty()
            },
            None => Seq::empty(),
        },
        with_id(plan_of(local, remote).to_update_local, id) == match counterpart(remote, id) {
            Some(r) => if newer_than_counterpart(r, local) {
                seq![r]
            } else {
                Seq::empty()
            },
            None => Seq::empty(),
        },
{
    lemma_kept_with_id(local, |l: RecordView| create_due(l, remote), id);
    lemma_mapped_with_id(local, |l: RecordView| remote_update_due(l, remote), id);
    lemma_kept_with_id(remote, |r: RecordView| create_due(r, local), id);
    lemma_kept_with_id(remote, |r: RecordView| newer_than_counterpart(r, local), id);
}

} // verus!
