use warp_app::{select_conversations_to_evict, ConversationRecord};

/// Nanoseconds since the epoch for a time `secs_from_epoch` seconds after a
/// fixed baseline.
fn ts(secs_from_epoch: i64) -> i128 {
    let baseline: i128 = 1_767_225_600; // 2026-01-01 00:00:00 UTC
    (baseline + i128::from(secs_from_epoch)) * 1_000_000_000
}

fn make_row(id: i32, conversation_id: &str, parent: Option<&str>, secs: i64) -> ConversationRecord {
    ConversationRecord {
        id,
        conversation_id: conversation_id.to_string(),
        parent_conversation_id: parent.map(|p| p.to_string()),
        last_modified_at: ts(secs),
    }
}

#[test]
fn prune_is_no_op_when_under_limit() {
    let rows = vec![
        make_row(1, "a", None, 100),
        make_row(2, "b", None, 200),
        make_row(3, "c", None, 300),
    ];
    assert!(select_conversations_to_evict(&rows, 3).is_empty());
    assert!(select_conversations_to_evict(&rows, 100).is_empty());
}

#[test]
fn keeps_fresh_tree_atomically_and_evicts_older_singletons() {
    let mut rows = vec![
        make_row(1, "root", None, 100),
        make_row(2, "c1", Some("root"), 500),
        make_row(3, "c2", Some("root"), 1000),
        make_row(4, "c3", Some("root"), 1500),
        make_row(5, "c4", Some("root"), 2000),
    ];
    for i in 0_i32..9 {
        let id = format!("s{i}");
        rows.push(make_row(100 + i, &id, None, 10 + i64::from(i)));
    }
    let evicted = select_conversations_to_evict(&rows, 13);
    assert_eq!(evicted.len(), 1, "evicted={evicted:?}");
    assert_eq!(evicted[0], "s0", "must evict the oldest singleton");
    for tree_member in ["root", "c1", "c2", "c3", "c4"] {
        assert!(
            !evicted.contains(&tree_member.to_string()),
            "tree member {tree_member} was evicted; evicted={evicted:?}"
        );
    }
}

#[test]
fn child_kept_drags_parent_along() {
    let mut rows = vec![
        make_row(1, "parent", None, 1),
        make_row(2, "child", Some("parent"), 9_999),
    ];
    for i in 0_i32..8 {
        let id = format!("s{i}");
        rows.push(make_row(100 + i, &id, None, 100 + i64::from(i)));
    }
    let evicted = select_conversations_to_evict(&rows, 9);
    assert_eq!(evicted.len(), 1, "evicted={evicted:?}");
    assert!(!evicted.contains(&"parent".to_string()));
    assert!(!evicted.contains(&"child".to_string()));
    assert_eq!(evicted[0], "s0");
}

#[test]
fn parent_kept_drags_child_along() {
    let mut rows = vec![
        make_row(1, "parent", None, 9_999),
        make_row(2, "child", Some("parent"), 1),
    ];
    for i in 0_i32..8 {
        let id = format!("s{i}");
        rows.push(make_row(100 + i, &id, None, 100 + i64::from(i)));
    }
    let evicted = select_conversations_to_evict(&rows, 9);
    assert_eq!(evicted.len(), 1, "evicted={evicted:?}");
    assert!(!evicted.contains(&"parent".to_string()));
    assert!(
        !evicted.contains(&"child".to_string()),
        "stale child must not be evicted while its parent is kept; evicted={evicted:?}"
    );
    assert_eq!(evicted[0], "s0");
}

#[test]
fn orphan_with_missing_parent_is_its_own_tree() {
    let rows = vec![
        make_row(1, "orphan", Some("missing_parent_id"), 9_999),
        make_row(2, "a", None, 100),
        make_row(3, "b", None, 200),
        make_row(4, "c", None, 300),
    ];
    let evicted = select_conversations_to_evict(&rows, 3);
    assert_eq!(evicted.len(), 1, "evicted={evicted:?}");
    assert_eq!(evicted[0], "a");
    assert!(!evicted.contains(&"orphan".to_string()));
}

#[test]
fn single_tree_larger_than_limit_is_kept_in_full() {
    let mut rows = vec![make_row(1, "big_root", None, 10_000)];
    for i in 0_i32..199 {
        let cid = format!("big_child_{i}");
        rows.push(make_row(2 + i, &cid, Some("big_root"), 100 + i64::from(i)));
    }
    rows.push(make_row(9_999, "older_singleton", None, 50));
    let evicted = select_conversations_to_evict(&rows, 50);
    assert_eq!(evicted, vec!["older_singleton".to_string()]);
}

#[test]
fn parse_failure_row_is_treated_as_root_and_can_be_referenced_by_others() {
    // The row whose stored data does not parse declares no parent.
    let mut rows = vec![
        ConversationRecord {
            id: 1,
            conversation_id: "garbage".to_string(),
            parent_conversation_id: None,
            last_modified_at: ts(50),
        },
        make_row(2, "a", None, 100),
        make_row(3, "b", None, 200),
        make_row(4, "c", None, 300),
    ];
    rows.push(make_row(5, "child_of_garbage", Some("garbage"), 9_999));
    let evicted = select_conversations_to_evict(&rows, 4);
    assert_eq!(evicted, vec!["a".to_string()]);
}

#[test]
fn eviction_is_deterministic() {
    let rows = vec![
        make_row(1, "a", None, 100),
        make_row(2, "b", None, 100),
        make_row(3, "c", None, 100),
        make_row(4, "d", None, 100),
    ];
    let e1 = select_conversations_to_evict(&rows, 2);
    let e2 = select_conversations_to_evict(&rows, 2);
    assert_eq!(e1, e2);
    assert_eq!(e1, vec!["c".to_string(), "d".to_string()]);
}

#[test]
fn parent_cycle_resolves_to_the_first_row_reached_twice() {
    // x -> y -> x forms a cycle. Walking up from x reaches x again first, and
    // walking up from y reaches y again first, so each row is the root of its
    // own tree: fresh (500) and y (20) fit the limit, x (10) is evicted.
    let rows = vec![
        make_row(1, "x", Some("y"), 10),
        make_row(2, "y", Some("x"), 20),
        make_row(3, "fresh", None, 500),
    ];
    let evicted = select_conversations_to_evict(&rows, 2);
    assert_eq!(evicted, vec!["x".to_string()]);
}

#[test]
fn hard_stop_evicts_every_older_tree() {
    // Trees by freshness: f (1 row), big (3 rows), small (1 row). Limit 3:
    // f is kept, big does not fit (1 + 3 > 3), so big and the older small go.
    let rows = vec![
        make_row(1, "f", None, 900),
        make_row(2, "big", None, 800),
        make_row(3, "big1", Some("big"), 10),
        make_row(4, "big2", Some("big"), 10),
        make_row(5, "small", None, 100),
    ];
    let evicted = select_conversations_to_evict(&rows, 3);
    assert_eq!(
        evicted,
        vec!["big".to_string(), "big1".to_string(), "big2".to_string(), "small".to_string()]
    );
}
