use evm_result::{ExecutionMetric, OpcodeMetrics};

fn metric(count: u64, total_time: u64, total_gas: u64) -> ExecutionMetric {
    ExecutionMetric { count, total_time, total_gas }
}

#[test]
fn new_metrics_are_empty() {
    assert_eq!(OpcodeMetrics::new().iter().count(), 0);
    assert_eq!(OpcodeMetrics::new(), OpcodeMetrics::default());
    assert_eq!(ExecutionMetric::default(), metric(0, 0, 0));
}

#[test]
fn insert_sets_and_replaces() {
    let mut metrics = OpcodeMetrics::new();
    assert_eq!(metrics.get(1), None);
    metrics.insert(1, metric(1, 2, 3));
    assert_eq!(metrics.get(1), Some(&metric(1, 2, 3)));
    metrics.insert(1, metric(4, 5, 6));
    assert_eq!(metrics.get(1), Some(&metric(4, 5, 6)));
    assert_eq!(metrics.get(2), None);
}

#[test]
fn get_mut_changes_in_place() {
    let mut metrics = OpcodeMetrics::new();
    assert!(metrics.get_mut(0x60).is_none());
    assert_eq!(metrics.get(0x60), None);
    metrics.insert(0x60, metric(1, 1, 1));
    metrics.insert(0x61, metric(2, 2, 2));
    if let Some(m) = metrics.get_mut(0x60) {
        m.total_gas = 9;
    }
    assert_eq!(metrics.get(0x60), Some(&metric(1, 1, 9)));
    assert_eq!(metrics.get(0x61), Some(&metric(2, 2, 2)));
}

#[test]
fn update_adds_to_one_opcode() {
    let mut metrics = OpcodeMetrics::new();
    metrics.update_metrics(3, metric(1, 20, 300));
    assert_eq!(metrics.get(3), Some(&metric(1, 20, 300)));
    metrics.update_metrics(4, metric(7, 7, 7));
    metrics.update_metrics(3, metric(1, 2, 3));
    assert_eq!(metrics.get(3), Some(&metric(2, 22, 303)));
    assert_eq!(metrics.get(4), Some(&metric(7, 7, 7)));
    metrics.update_metrics(4, metric(u64::MAX - 7, 0, 0));
    assert_eq!(metrics.get(4), Some(&metric(u64::MAX, 7, 7)));
}

#[test]
fn updates_commute() {
    let mut one = OpcodeMetrics::new();
    one.update_metrics(1, metric(1, 2, 3));
    one.update_metrics(1, metric(10, 20, 30));
    let mut other = OpcodeMetrics::new();
    other.update_metrics(1, metric(10, 20, 30));
    other.update_metrics(1, metric(1, 2, 3));
    assert_eq!(one, other);
}

#[test]
fn counted_runs_add_up() {
    let mut metrics = OpcodeMetrics::new();
    for i in 0u64..100 {
        metrics.update_metrics((i % 3) as u8, metric(1, i, 2 * i));
    }
    assert_eq!(metrics.get(0), Some(&metric(34, 1683, 3366)));
    assert_eq!(metrics.get(1), Some(&metric(33, 1617, 3234)));
    assert_eq!(metrics.get(2), Some(&metric(33, 1650, 3300)));
    assert_eq!(metrics.get(3), None);
}

#[test]
fn iter_gives_each_opcode_once() {
    let mut metrics = OpcodeMetrics::new();
    for opcode in 0u8..=255 {
        metrics.insert(opcode, metric(opcode as u64, 0, 1));
    }
    let mut pairs: Vec<(u8, ExecutionMetric)> = metrics.iter().map(|(o, m)| (*o, *m)).collect();
    pairs.sort_by_key(|pair| pair.0);
    assert_eq!(pairs.len(), 256);
    for opcode in 0u8..=255 {
        assert_eq!(pairs[opcode as usize], (opcode, metric(opcode as u64, 0, 1)));
    }
}

#[test]
fn merge_adds_up_and_keeps() {
    let mut existing = OpcodeMetrics::new();
    existing.insert(1, metric(1, 1, 1));
    existing.insert(2, metric(2, 2, 2));
    let mut added = OpcodeMetrics::new();
    added.insert(2, metric(10, 20, 30));
    added.insert(3, metric(3, 3, 3));
    assert!(added.can_merge_into(&existing));
    let mut turned = added.clone();
    existing.merge_into(&mut turned);
    added.merge_into(&mut existing);
    assert_eq!(existing, turned);
    assert_eq!(existing.iter().count(), 3);
    assert_eq!(existing.get(1), Some(&metric(1, 1, 1)));
    assert_eq!(existing.get(2), Some(&metric(12, 22, 32)));
    assert_eq!(existing.get(3), Some(&metric(3, 3, 3)));
    let before = existing.clone();
    OpcodeMetrics::new().merge_into(&mut existing);
    assert_eq!(existing, before);
}

#[test]
fn merge_one_by_one_or_at_once() {
    let mut a = OpcodeMetrics::new();
    a.insert(1, metric(1, 2, 3));
    let mut b = OpcodeMetrics::new();
    b.insert(1, metric(4, 5, 6));
    b.insert(2, metric(1, 1, 1));
    let mut c = OpcodeMetrics::new();
    c.insert(2, metric(7, 8, 9));
    let mut stepwise = a.clone();
    b.merge_into(&mut stepwise);
    c.merge_into(&mut stepwise);
    let mut together = b.clone();
    c.merge_into(&mut together);
    let mut at_once = a.clone();
    together.merge_into(&mut at_once);
    assert_eq!(stepwise, at_once);
}

#[test]
fn merge_that_would_overflow() {
    let mut existing = OpcodeMetrics::new();
    existing.insert(1, metric(u64::MAX, 0, 0));
    existing.insert(2, metric(0, u64::MAX, u64::MAX));
    let mut added = OpcodeMetrics::new();
    added.insert(3, metric(u64::MAX, u64::MAX, u64::MAX));
    added.insert(1, metric(0, u64::MAX, u64::MAX));
    assert!(added.can_merge_into(&existing));
    added.insert(2, metric(0, 1, 0));
    assert!(!added.can_merge_into(&existing));
    assert!(!metric(0, 1, 0).can_add(&metric(0, u64::MAX, 0)));
    assert!(!metric(1, 0, 0).can_add(&metric(u64::MAX, 0, 0)));
    assert!(!metric(0, 0, 1).can_add(&metric(0, 0, u64::MAX)));
    assert!(metric(1, 1, 1).can_add(&metric(u64::MAX - 1, u64::MAX - 1, u64::MAX - 1)));
}
