use feishu_sync::planner::{calculate_sync_plan, SyncPlan};
use feishu_sync::record::PromptRecord;

fn record(id: &str, title: &str, updated_at: i64, record_id: Option<&str>) -> PromptRecord {
    PromptRecord {
        id: id.to_string(),
        title: title.to_string(),
        content: format!("content of {}", title),
        tags: "[]".to_string(),
        is_favorite: false,
        created_at: 10,
        updated_at,
        last_used: None,
        record_id: record_id.map(|k| k.to_string()),
    }
}

fn ids(records: &[PromptRecord]) -> Vec<String> {
    records.iter().map(|r| r.id.clone()).collect()
}

fn is_empty(plan: &SyncPlan) -> bool {
    plan.to_create_local.is_empty()
        && plan.to_update_local.is_empty()
        && plan.to_create_remote.is_empty()
        && plan.to_update_remote.is_empty()
}

#[test]
fn empty_snapshots_give_an_empty_plan() {
    let plan = calculate_sync_plan(&[], &[]);
    assert!(is_empty(&plan));
}

#[test]
fn local_only_record_is_created_remotely() {
    let a = record("A", "a", 100, None);
    let plan = calculate_sync_plan(&[a.clone()], &[]);
    assert_eq!(plan.to_create_remote, vec![a]);
    assert!(plan.to_update_remote.is_empty());
    assert!(plan.to_create_local.is_empty());
    assert!(plan.to_update_local.is_empty());
}

#[test]
fn remote_only_record_is_created_locally() {
    let r = record("R", "r", 100, Some("rec9"));
    let plan = calculate_sync_plan(&[], &[r.clone()]);
    assert_eq!(plan.to_create_local, vec![r]);
    assert!(plan.to_update_local.is_empty());
    assert!(plan.to_create_remote.is_empty());
    assert!(plan.to_update_remote.is_empty());
}

#[test]
fn newer_local_record_updates_the_remote_row() {
    let local = record("B", "new title", 100, None);
    let remote = record("B", "old title", 50, Some("rec1"));
    let plan = calculate_sync_plan(&[local.clone()], &[remote]);
    assert_eq!(plan.to_update_remote, vec![("rec1".to_string(), local)]);
    assert!(plan.to_create_remote.is_empty());
    assert!(plan.to_create_local.is_empty());
    assert!(plan.to_update_local.is_empty());
}

#[test]
fn newer_local_record_is_skipped_without_remote_key() {
    let local = record("B", "new title", 100, Some("stale-local-key"));
    let remote = record("B", "old title", 50, None);
    let plan = calculate_sync_plan(&[local], &[remote]);
    assert!(is_empty(&plan));
}

#[test]
fn remote_key_comes_from_the_remote_side() {
    let local = record("B", "new", 100, Some("local-idea-of-key"));
    let remote = record("B", "old", 50, Some("rec1"));
    let plan = calculate_sync_plan(&[local.clone()], &[remote]);
    assert_eq!(plan.to_update_remote.len(), 1);
    assert_eq!(plan.to_update_remote[0].0, "rec1");
    assert_eq!(plan.to_update_remote[0].1, local);
}

#[test]
fn newer_remote_record_updates_the_local_one() {
    let local = record("C", "old", 50, None);
    let remote = record("C", "new", 51, Some("rec2"));
    let plan = calculate_sync_plan(&[local], &[remote.clone()]);
    assert_eq!(plan.to_update_local, vec![remote]);
    assert!(plan.to_create_local.is_empty());
    assert!(plan.to_create_remote.is_empty());
    assert!(plan.to_update_remote.is_empty());
}

#[test]
fn equal_timestamps_schedule_nothing() {
    let local = record("D", "local words", 70, None);
    let remote = record("D", "remote words", 70, Some("rec3"));
    let plan = calculate_sync_plan(&[local], &[remote]);
    assert!(is_empty(&plan));
}

#[test]
fn mixed_snapshots_keep_the_order_of_their_side() {
    let local = vec![
        record("only-local-1", "l1", 5, None),
        record("both-newer-local", "l2", 9, None),
        record("both-equal", "l3", 4, None),
        record("only-local-2", "l4", 1, None),
        record("both-newer-remote", "l5", 2, None),
        record("both-newer-local-2", "l6", 8, None),
    ];
    let remote = vec![
        record("both-newer-remote", "r1", 3, Some("recA")),
        record("only-remote-1", "r2", 1, Some("recB")),
        record("both-newer-local-2", "r3", 7, Some("recC")),
        record("both-equal", "r4", 4, Some("recD")),
        record("both-newer-local", "r5", 1, Some("recE")),
        record("only-remote-2", "r6", 1, Some("recF")),
    ];
    let plan = calculate_sync_plan(&local, &remote);
    assert_eq!(ids(&plan.to_create_remote), vec!["only-local-1", "only-local-2"]);
    assert_eq!(ids(&plan.to_create_local), vec!["only-remote-1", "only-remote-2"]);
    assert_eq!(ids(&plan.to_update_local), vec!["both-newer-remote"]);
    let updates: Vec<(String, String)> =
        plan.to_update_remote.iter().map(|(k, r)| (k.clone(), r.id.clone())).collect();
    assert_eq!(
        updates,
        vec![
            ("recE".to_string(), "both-newer-local".to_string()),
            ("recC".to_string(), "both-newer-local-2".to_string()),
        ]
    );
    assert_eq!(plan.to_update_local[0].title, "r1");
    assert_eq!(plan.to_update_remote[0].1.title, "l2");
}

#[test]
fn no_id_is_updated_in_both_directions() {
    let local = vec![record("x", "l", 5, None), record("y", "l", 1, None)];
    let remote = vec![record("x", "r", 1, Some("k1")), record("y", "r", 5, Some("k2"))];
    let plan = calculate_sync_plan(&local, &remote);
    for (_, sent) in &plan.to_update_remote {
        assert!(plan.to_update_local.iter().all(|r| r.id != sent.id));
    }
    assert_eq!(plan.to_update_remote.len(), 1);
    assert_eq!(plan.to_update_local.len(), 1);
}

#[test]
fn the_last_of_several_records_with_one_id_is_the_counterpart() {
    let local = vec![record("dup", "local", 50, None)];
    let remote = vec![record("dup", "first", 10, Some("rec-first")), record("dup", "last", 90, Some("rec-last"))];
    let plan = calculate_sync_plan(&local, &remote);
    // Against the last remote record with the id the local one is older.
    assert!(plan.to_update_remote.is_empty());
    assert!(plan.to_create_remote.is_empty());
    // Each remote record is compared with the local one on its own.
    assert_eq!(plan.to_update_local.len(), 1);
    assert_eq!(plan.to_update_local[0].title, "last");
    assert!(plan.to_create_local.is_empty());
}

#[test]
fn timestamps_differing_by_one_millisecond_decide() {
    let local = record("E", "l", 1_700_000_000_001, None);
    let remote = record("E", "r", 1_700_000_000_000, Some("rec5"));
    let plan = calculate_sync_plan(&[local], &[remote]);
    assert_eq!(plan.to_update_remote.len(), 1);
    assert!(plan.to_update_local.is_empty());
}

#[test]
fn scenario_local_record_a_without_remote_counterpart() {
    let a = record("A", "A", 100, None);
    let plan = calculate_sync_plan(&[a.clone()], &[]);
    assert_eq!(plan.to_create_remote.len(), 1);
    assert_eq!(plan.to_create_remote[0], a);
    assert_eq!(plan.to_create_local.len() + plan.to_update_local.len() + plan.to_update_remote.len(), 0);
}

#[test]
fn scenario_local_record_b_newer_than_remote_rec1() {
    let b = record("B", "B", 100, None);
    let remote_b = record("B", "B", 50, Some("rec1"));
    let plan = calculate_sync_plan(&[b.clone()], &[remote_b]);
    assert_eq!(plan.to_update_remote, vec![("rec1".to_string(), b)]);
    assert_eq!(plan.to_create_local.len() + plan.to_update_local.len() + plan.to_create_remote.len(), 0);
}
