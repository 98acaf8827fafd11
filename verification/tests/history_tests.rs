use vr_pipeline::history::HistoryEntry;
use vr_pipeline::history::ViewHistory;
use vr_pipeline::history::HISTORY_CAPACITY;
use vr_pipeline::pacer::default_view_set;

#[test]
fn empty_history_finds_nothing() {
    let h = ViewHistory::new();
    assert_eq!(h.len(), 0);
    assert!(h.lookup(0).is_none());
    assert!(h.lookup(42).is_none());
}

#[test]
fn lookup_is_exact_no_interpolation() {
    let mut h = ViewHistory::new();
    let vs = default_view_set();
    h.push(HistoryEntry {
        timestamp_ns: 1_000,
        views: vs,
    });
    assert_eq!(h.lookup(1_000), Some(vs));
    assert!(h.lookup(999).is_none());
    assert!(h.lookup(1_001).is_none());
}

#[test]
fn newest_match_wins() {
    let mut h = ViewHistory::new();
    let mut vs_a = default_view_set();
    vs_a.left.pose.position.x = 1;
    let mut vs_b = default_view_set();
    vs_b.left.pose.position.x = 2;
    h.push(HistoryEntry {
        timestamp_ns: 7,
        views: vs_a,
    });
    h.push(HistoryEntry {
        timestamp_ns: 7,
        views: vs_b,
    });
    assert_eq!(h.lookup(7), Some(vs_b));
}

#[test]
fn capacity_evicts_first_entry() {
    let mut h = ViewHistory::new();
    let vs = default_view_set();
    for i in 0..HISTORY_CAPACITY {
        h.push(HistoryEntry {
            timestamp_ns: (i as u64) + 1,
            views: vs,
        });
    }
    assert_eq!(h.len(), HISTORY_CAPACITY);
    assert!(h.lookup(1).is_some());

    // The 361st entry pushes the very first timestamp out.
    h.push(HistoryEntry {
        timestamp_ns: (HISTORY_CAPACITY as u64) + 1,
        views: vs,
    });
    assert_eq!(h.len(), HISTORY_CAPACITY);
    assert!(h.lookup(1).is_none());
    assert!(h.lookup(2).is_some());
    assert!(h.lookup((HISTORY_CAPACITY as u64) + 1).is_some());
}

#[test]
fn thousand_pushes_keep_newest_in_fifo_order() {
    let mut h = ViewHistory::new();
    let vs = default_view_set();
    for i in 1..=1_000u64 {
        h.push(HistoryEntry {
            timestamp_ns: i,
            views: vs,
        });
    }
    assert_eq!(h.len(), 360);
    for i in 0..360usize {
        assert_eq!(h.get(i).timestamp_ns, 641 + i as u64);
    }
    assert!(h.lookup(640).is_none());
    assert!(h.lookup(641).is_some());
    assert!(h.lookup(1_000).is_some());
}
