use secm_app::icons::Icon;
use secm_app::toast::{ToastHost, ToastKind, TOAST_CAP, TOAST_TTL_MS};

fn ids(h: &ToastHost) -> Vec<u64> {
    (0..h.len()).map(|i| h.id_at(i).0).collect()
}

#[test]
fn kind_labels_and_icons() {
    assert_eq!(ToastKind::Success.label(), "成功");
    assert_eq!(ToastKind::Warning.label(), "警告");
    assert_eq!(ToastKind::Error.label(), "错误");
    assert_eq!(ToastKind::Info.label(), "提醒");
    assert_eq!(ToastKind::Success.icon(), Icon::ToastSuccess);
    assert_eq!(ToastKind::Info.icon(), Icon::Info);
}

#[test]
fn push_assigns_increasing_ids_and_drops_oldest_over_cap() {
    let mut h = ToastHost::default();
    for i in 0..6u64 {
        let d = h.push(ToastKind::Info, format!("m{i}"), 1000 + i);
        assert_eq!(d, TOAST_TTL_MS);
    }
    assert_eq!(h.len(), TOAST_CAP);
    assert_eq!(ids(&h), vec![3, 4, 5, 6]);
    assert_eq!(h.message_at(0), "m2");
    assert_eq!(h.message_at(3), "m5");
}

#[test]
fn close_removes_only_that_toast_and_reschedules() {
    let mut h = ToastHost::new();
    h.push(ToastKind::Success, "a".to_string(), 1000);
    h.push(ToastKind::Error, "b".to_string(), 1500);
    let d = h.close(1, 2000);
    assert_eq!(ids(&h), vec![2]);
    assert_eq!(h.id_at(0).1, ToastKind::Error);
    // front born at 1500, now 2000: 1600 - 500 = 1100 ms left
    assert_eq!(d, Some(1100));
    assert_eq!(h.close(2, 2000), None);
    assert_eq!(h.len(), 0);
}

#[test]
fn close_unknown_id_changes_nothing() {
    let mut h = ToastHost::new();
    h.push(ToastKind::Warning, "x".to_string(), 10);
    let d = h.close(99, 10);
    assert_eq!(ids(&h), vec![1]);
    assert_eq!(d, Some(1600));
}

#[test]
fn close_after_push_restores_queue() {
    let mut h = ToastHost::new();
    h.push(ToastKind::Info, "keep".to_string(), 0);
    let before = ids(&h);
    h.push(ToastKind::Info, "gone".to_string(), 5);
    h.close(2, 5);
    assert_eq!(ids(&h), before);
    assert_eq!(h.message_at(0), "keep");
}

#[test]
fn prune_removes_expired_front_only() {
    let mut h = ToastHost::new();
    h.push(ToastKind::Info, "old".to_string(), 0);
    h.push(ToastKind::Info, "new".to_string(), 1000);
    let (expired, next) = h.prune(1600);
    assert!(expired);
    assert_eq!(ids(&h), vec![2]);
    assert_eq!(next, Some(1000));
    let (expired, next) = h.prune(1600);
    assert!(!expired);
    assert_eq!(next, Some(1000));
    let (expired, next) = h.prune(5000);
    assert!(expired);
    assert_eq!(next, None);
    assert_eq!(h.len(), 0);
}

#[test]
fn prune_waits_for_front_even_if_later_expired() {
    let mut h = ToastHost::new();
    h.push(ToastKind::Info, "late".to_string(), 5000);
    h.push(ToastKind::Info, "early".to_string(), 0);
    let (expired, next) = h.prune(2000);
    assert!(!expired);
    assert_eq!(ids(&h), vec![1, 2]);
    assert_eq!(next, Some(1600));
}

#[test]
fn remaining_delay_is_at_least_one_ms() {
    let mut h = ToastHost::new();
    h.push(ToastKind::Info, "a".to_string(), 100);
    h.push(ToastKind::Info, "b".to_string(), 100);
    let d = h.close(2, 1699);
    assert_eq!(d, Some(1));
}

#[test]
fn next_id_counts_pushes_not_drops() {
    let mut h = ToastHost::new();
    assert_eq!(h.next_id(), 1);
    for i in 0..6u64 {
        h.push(ToastKind::Success, format!("t{i}"), i);
    }
    assert_eq!(h.next_id(), 7);
    let first = h.id_at(0).0;
    h.close(first, 10);
    assert_eq!(h.next_id(), 7);
}
