//! The merge plan: what each side has to take over from the other.
//!
//! Two snapshots are compared record by record. Records are matched by `id`;
//! where both sides hold a record, the one with the greater `updated_at`
//! wins as a whole, and equal timestamps mean there is nothing to do.

use vstd::prelude::*;
use vstd::hash_map::StringHashMap;
use crate::record::{PromptRecord, RecordView, record_views};

verus! {

/// What has to be written where to bring both sides in line.
#[derive(Debug, PartialEq, Eq)]
pub struct SyncPlan {
    /// Remote records that the local store lacks.
    pub to_create_local: Vec<PromptRecord>,
    /// Remote records that are newer than their local version.
    pub to_update_local: Vec<PromptRecord>,
    /// Local records that the remote table lacks.
    pub to_create_remote: Vec<PromptRecord>,
    /// Local records that are newer than their remote version, each with the
    /// remote identifier of the row to overwrite.
    pub to_update_remote: Vec<(String, PromptRecord)>,
}

/// The content of a [`SyncPlan`].
pub struct SyncPlanView {
    pub to_create_local: Seq<RecordView>,
    pub to_update_local: Seq<RecordView>,
    pub to_create_remote: Seq<RecordView>,
    pub to_update_remote: Seq<(Seq<char>, RecordView)>,
}

/// The contents of a list of remote updates, in order.
pub open spec fn update_views(updates: Seq<(String, PromptRecord)>) -> Seq<(Seq<char>, RecordView)> {
    updates.map_values(|u: (String, PromptRecord)| (u.0@, u.1@))
}

impl View for SyncPlan {
    type V = SyncPlanView;

    open spec fn view(&self) -> SyncPlanView {
        SyncPlanView {
            to_create_local: record_views(self.to_create_local@),
            to_update_local: record_views(self.to_update_local@),
            to_create_remote: record_views(self.to_create_remote@),
            to_update_remote: update_views(self.to_update_remote@),
        }
    }
}

/// The record of a snapshot that carries `id`: the last one, should the
/// snapshot hold several.
pub open spec fn counterpart(snapshot: Seq<RecordView>, id: Seq<char>) -> Option<RecordView>
    decreases snapshot.len(),
{
    if snapshot.len() == 0 {
        None
    } else if snapshot.last().id == id {
        Some(snapshot.last())
    } else {
        counterpart(snapshot.drop_last(), id)
    }
}

/// A record that the other side does not know has to be created there.
pub open spec fn create_due(record: RecordView, other: Seq<RecordView>) -> bool {
    counterpart(other, record.id) is None
}

/// A record that the other side knows in a strictly older version.
pub open spec fn newer_than_counterpart(record: RecordView, other: Seq<RecordView>) -> bool {
    match counterpart(other, record.id) {
        Some(c) => record.updated_at > c.updated_at,
        None => false,
    }
}

/// The remote update that a local record calls for: the record itself, under
/// the remote identifier of its older remote version. There is none where that
/// version carries no remote identifier.
pub open spec fn remote_update_due(record: RecordView, remote: Seq<RecordView>) -> Option<(Seq<char>, RecordView)> {
    match counterpart(remote, record.id) {
        Some(c) => if record.updated_at > c.updated_at {
            match c.record_id {
                Some(key) => Some((key, record)),
                None => None,
            }
        } else {
            None
        },
        None => None,
    }
}

/// The plan for two snapshots.
pub open spec fn plan_of(local: Seq<RecordView>, remote: Seq<RecordView>) -> SyncPlanView {
    SyncPlanView {
        to_create_local: remote.filter(|r: RecordView| create_due(r, local)),
        to_update_local: remote.filter(|r: RecordView| newer_than_counterpart(r, local)),
        to_create_remote: local.filter(|l: RecordView| create_due(l, remote)),
        to_update_remote: local.filter_map(|l: RecordView| remote_update_due(l, remote)),
    }
}

/// `index` gives, for each id that occurs among the first `n` records, the
/// position of the last record that carries it.
pub open spec fn indexes(index: Map<Seq<char>, usize>, snapshot: Seq<RecordView>, n: int) -> bool {
    forall|id: Seq<char>| #![trigger index.contains_key(id)] #![trigger counterpart(snapshot.take(n), id)]
        match counterpart(snapshot.take(n), id) {
            Some(c) => index.contains_key(id) && index[id] < n && snapshot[index[id] as int] == c,
            None => !index.contains_key(id),
        }
}

proof fn lemma_counterpart_step(snapshot: Seq<RecordView>, n: int, id: Seq<char>)
    requires
        0 <= n < snapshot.len(),
    ensures
        counterpart(snapshot.take(n + 1), id) == if snapshot[n].id == id {
            Some(snapshot[n])
        } else {
            counterpart(snapshot.take(n), id)
        },
{
    assert(snapshot.take(n + 1).drop_last() =~= snapshot.take(n));
}

fn index_by_id(records: &[PromptRecord]) -> (index: StringHashMap<usize>)
    ensures
        indexes(index@, record_views(records@), records@.len() as int),
{
    let ghost views = record_views(records@);
    let mut index: StringHashMap<usize> = StringHashMap::new();
    let mut i: usize = 0;
    while i < records.len()
        invariant
            i <= records@.len(),
            views == record_views(records@),
            indexes(index@, views, i as int),
        decreases records@.len() - i,
    {
        index.insert(records[i].id.clone(), i);
        proof {
            assert forall|id: Seq<char>|
                match #[trigger] counterpart(views.take(i + 1), id) {
                    Some(c) => index@.contains_key(id) && index@[id] < i + 1 && views[index@[id] as int] == c,
                    None => !index@.contains_key(id),
                } by {
                lemma_counterpart_step(views, i as int, id);
            }
        }
        i += 1;
    }
    proof {
        assert(views.take(records@.len() as int) =~= views);
    }
    index
}

/// Computes the plan for a local and a remote snapshot.
///
/// A local record unknown to the remote side is created there; one that is
/// strictly newer than its remote version replaces it, under that version's
/// remote identifier, and is left alone where that identifier is missing. A
/// remote record unknown to the local side is created there; one that is
/// strictly newer than its local version replaces it. Each list keeps the
/// order of the snapshot it was drawn from.
pub fn calculate_sync_plan(local_records: &[PromptRecord], remote_records: &[PromptRecord]) -> (plan: SyncPlan)
    ensures
        plan@ == plan_of(record_views(local_records@), record_views(remote_records@)),
{
    let ghost local = record_views(local_records@);
    let ghost remote = record_views(remote_records@);
    let local_index = index_by_id(local_records);
    let remote_index = index_by_id(remote_records);
    proof {
        assert(local.take(local.len() as int) =~= local);
        assert(remote.take(remote.len() as int) =~= remote);
    }

    let mut to_create_remote: Vec<PromptRecord> = Vec::new();
    let mut to_update_remote: Vec<(String, PromptRecord)> = Vec::new();
    let ghost create_remote = |l: RecordView| create_due(l, remote);
    let ghost update_remote = |l: RecordView| remote_update_due(l, remote);
    let mut i: usize = 0;
    proof {
        reveal(Seq::filter);
        assert(local.take(0).filter(create_remote) =~= Seq::<RecordView>::empty());
        assert(local.take(0).filter_map(update_remote) =~= Seq::<(Seq<char>, RecordView)>::empty());
    }
    while i < local_records.len()
        invariant
            i <= local_records@.len(),
            local == record_views(local_records@),
            remote == record_views(remote_records@),
            indexes(remote_index@, remote, remote.len() as int),
            remote.take(remote.len() as int) == remote,
            create_remote == |l: RecordView| create_due(l, remote),
            update_remote == |l: RecordView| remote_update_due(l, remote),
            record_views(to_create_remote@) == local.take(i as int).filter(create_remote),
            update_views(to_update_remote@) == local.take(i as int).filter_map(update_remote),
        decreases local_records@.len() - i,
    {
        let record = &local_records[i];
        let ghost created = record_views(to_create_remote@);
        let ghost updated = update_views(to_update_remote@);
        proof {
            assert(local.take(i + 1) =~= local.take(i as int).push(record@));
            local.take(i as int).lemma_filter_push(record@, create_remote);
            local.lemma_filter_map_take_succ(update_remote, i as int);
        }
        match remote_index.get(record.id.as_str()) {
            None => {
                to_create_remote.push(record.clone());
                proof {
                    assert(record_views(to_create_remote@) =~= created.push(record@));
                }
            },
            Some(position) => {
                let other = &remote_records[*position];
                if record.updated_at > other.updated_at {
                    match &other.record_id {
                        Some(key) => {
                            to_update_remote.push((key.clone(), record.clone()));
                            proof {
                                assert(update_views(to_update_remote@) =~= updated + seq![(key@, record@)]);
                            }
                        },
                        None => {},
                    }
                }
            },
        }
        i += 1;
    }

    let mut to_create_local: Vec<PromptRecord> = Vec::new();
    let mut to_update_local: Vec<PromptRecord> = Vec::new();
    let ghost create_local = |r: RecordView| create_due(r, local);
    let ghost update_local = |r: RecordView| newer_than_counterpart(r, local);
    let mut j: usize = 0;
    proof {
        assert(local.take(local.len() as int) =~= local);
        assert(remote.take(0).filter(create_local) =~= Seq::<RecordView>::empty());
        assert(remote.take(0).filter(update_local) =~= Seq::<RecordView>::empty());
    }
    while j < remote_records.len()
        invariant
            j <= remote_records@.len(),
            local == record_views(local_records@),
            remote == record_views(remote_records@),
            indexes(local_index@, local, local.len() as int),
            local.take(local.len() as int) == local,
            create_local == |r: RecordView| create_due(r, local),
            update_local == |r: RecordView| newer_than_counterpart(r, local),
            record_views(to_create_local@) == remote.take(j as int).filter(create_local),
            record_views(to_update_local@) == remote.take(j as int).filter(update_local),
        decreases remote_records@.len() - j,
    {
        let record = &remote_records[j];
        let ghost created = record_views(to_create_local@);
        let ghost updated = record_views(to_update_local@);
        proof {
            assert(remote.take(j + 1) =~= remote.take(j as int).push(record@));
            remote.take(j as int).lemma_filter_push(record@, create_local);
            remote.take(j as int).lemma_filter_push(record@, update_local);
        }
        match local_index.get(record.id.as_str()) {
            None => {
                to_create_local.push(record.clone());
                proof {
                    assert(record_views(to_create_local@) =~= created.push(record@));
                }
            },
            Some(position) => {
                let other = &local_records[*position];
                if record.updated_at > other.updated_at {
                    to_update_local.push(record.clone());
                    proof {
                        assert(record_views(to_update_local@) =~= updated.push(record@));
                    }
                }
            },
        }
        j += 1;
    }
    proof {
        assert(local.take(local.len() as int) =~= local);
        assert(remote.take(remote.len() as int) =~= remote);
    }
    SyncPlan { to_create_local, to_update_local, to_create_remote, to_update_remote }
}

/// Of the records of a snapshot, those that one test keeps and those that
/// another, which never keeps the same record, maps to something are together
/// no more than the snapshot holds.
pub proof fn lemma_kept_and_mapped(
    snapshot: Seq<RecordView>,
    keep: spec_fn(RecordView) -> bool,
    map: spec_fn(RecordView) -> Option<(Seq<char>, RecordView)>,
)
    requires
        forall|r: RecordView| #[trigger] keep(r) ==> map(r) is None,
    ensures
        snapshot.filter(keep).len() + snapshot.filter_map(map).len() <= snapshot.len(),
    decreases snapshot.len(),
{
    reveal(Seq::filter);
    if snapshot.len() > 0 {
        lemma_kept_and_mapped(snapshot.drop_last(), keep, map);
    }
}

/// Of the records of a snapshot, those that one test keeps and those that
/// another, which never keeps the same record, keeps are together no more
/// than the snapshot holds.
pub proof fn lemma_kept_apart(
    snapshot: Seq<RecordView>,
    keep: spec_fn(RecordView) -> bool,
    other: spec_fn(RecordView) -> bool,
)
    requires
        forall|r: RecordView| #[trigger] keep(r) ==> !other(r),
    ensures
        snapshot.filter(keep).len() + snapshot.filter(other).len() <= snapshot.len(),
    decreases snapshot.len(),
{
    reveal(Seq::filter);
    if snapshot.len() > 0 {
        lemma_kept_apart(snapshot.drop_last(), keep, other);
    }
}

/// A plan schedules no more for either side than the other side holds: each
/// record is created or updated on the other side, or left alone.
pub proof fn lemma_plan_sizes(local: Seq<RecordView>, remote: Seq<RecordView>)
    ensures
        plan_of(local, remote).to_create_local.len() + plan_of(local, remote).to_update_local.len() <= remote.len(),
        plan_of(local, remote).to_create_remote.len() + plan_of(local, remote).to_update_remote.len()
            <= local.len(),
{
    lemma_kept_apart(remote, |r: RecordView| create_due(r, local), |r: RecordView| newer_than_counterpart(r, local));
    lemma_kept_and_mapped(local, |l: RecordView| create_due(l, remote), |l: RecordView| remote_update_due(l, remote));
}

} // verus!
