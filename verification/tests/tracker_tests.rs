use fill_monitor::fill::{Fill, FillId, TransactionRecord, DEFAULT_LEVERAGE};
use fill_monitor::tracker::{DedupTracker, BACKFILL_WINDOW_MS};

const START: i64 = 1_700_000_000_000;

fn fill_at(time: i64, oid: u64) -> Fill {
    Fill {
        time: time as u64,
        oid,
        coin: "BTC".to_string(),
        side: "buy".to_string(),
        size: "0.5".to_string(),
        price: "42000".to_string(),
    }
}

#[test]
fn new_tracker_has_seen_nothing() {
    let tracker = DedupTracker::new(START);
    assert_eq!(tracker.seen_count(), 0);
    assert_eq!(tracker.cutoff_timestamp(), START);
    assert!(!tracker.has_seen(FillId { time: 1, oid: 1 }));
}

#[test]
fn identifier_is_held_once_however_often_it_is_fetched() {
    let mut tracker = DedupTracker::new(START);
    let snapshot = vec![fill_at(START + 1, 1), fill_at(START + 2, 2), fill_at(START + 1, 1)];
    let first = tracker.classify(&snapshot);
    assert_eq!(first.len(), 2);
    assert_eq!(tracker.seen_count(), 2);
    for _ in 0..5 {
        let again = tracker.classify(&snapshot);
        assert!(again.is_empty());
        assert_eq!(tracker.seen_count(), 2);
    }
    assert!(tracker.has_seen(FillId { time: (START + 1) as u64, oid: 1 }));
    assert!(tracker.has_seen(FillId { time: (START + 2) as u64, oid: 2 }));
}

#[test]
fn remember_tells_whether_the_identifier_was_unknown() {
    let mut tracker = DedupTracker::new(0);
    let id = FillId { time: 7, oid: 9 };
    assert!(tracker.remember(id));
    assert!(!tracker.remember(id));
    assert!(tracker.has_seen(id));
    assert_eq!(tracker.seen_count(), 1);
}

#[test]
fn identifiers_differ_by_time_or_by_order() {
    let mut tracker = DedupTracker::new(0);
    assert!(tracker.remember(FillId { time: 1, oid: 23 }));
    assert!(tracker.remember(FillId { time: 12, oid: 3 }));
    assert!(tracker.remember(FillId { time: 23, oid: 1 }));
    assert!(tracker.remember(FillId { time: u64::MAX, oid: u64::MAX }));
    assert!(tracker.remember(FillId { time: u64::MAX, oid: 0 }));
    assert!(tracker.remember(FillId { time: 0, oid: u64::MAX }));
    assert!(!tracker.has_seen(FillId { time: 1, oid: 2 }));
    assert_eq!(tracker.seen_count(), 6);
}

#[test]
fn fill_at_or_before_the_cutoff_is_never_new() {
    let mut tracker = DedupTracker::new(START);
    let snapshot = vec![fill_at(START, 1), fill_at(START - 1, 2), fill_at(START + 1, 3)];
    let fresh = tracker.classify(&snapshot);
    assert_eq!(fresh, vec![fill_at(START + 1, 3)]);
    // remembered all the same
    assert_eq!(tracker.seen_count(), 3);
    assert!(tracker.has_seen(FillId { time: START as u64, oid: 1 }));
    assert!(tracker.has_seen(FillId { time: (START - 1) as u64, oid: 2 }));
}

#[test]
fn same_identifier_in_different_ticks_is_new_once() {
    let mut tracker = DedupTracker::new(START);
    let first = tracker.classify(&vec![fill_at(START + 5, 77)]);
    assert_eq!(first.len(), 1);
    let mut changed = fill_at(START + 5, 77);
    changed.coin = "ETH".to_string();
    changed.size = "9".to_string();
    let second = tracker.classify(&vec![changed]);
    assert!(second.is_empty());
}

#[test]
fn same_identifier_twice_in_one_snapshot_is_new_once() {
    let mut tracker = DedupTracker::new(START);
    let fresh = tracker.classify(&vec![fill_at(START + 5, 77), fill_at(START + 5, 77)]);
    assert_eq!(fresh, vec![fill_at(START + 5, 77)]);
}

#[test]
fn new_fills_keep_the_order_of_the_snapshot() {
    let mut tracker = DedupTracker::new(START);
    tracker.classify(&vec![fill_at(START + 30, 3)]);
    let snapshot = vec![
        fill_at(START + 50, 5),
        fill_at(START + 30, 3),
        fill_at(START + 10, 1),
        fill_at(START - 10, 9),
        fill_at(START + 40, 4),
    ];
    let fresh = tracker.classify(&snapshot);
    assert_eq!(fresh, vec![fill_at(START + 50, 5), fill_at(START + 10, 1), fill_at(START + 40, 4)]);
}

#[test]
fn empty_snapshot_changes_nothing() {
    let mut tracker = DedupTracker::new(START);
    tracker.classify(&vec![fill_at(START + 1, 1)]);
    assert!(tracker.classify(&Vec::new()).is_empty());
    assert!(tracker.bootstrap(&Vec::new()).is_empty());
    assert_eq!(tracker.seen_count(), 1);
}

#[test]
fn bootstrap_hands_back_the_backfill_window() {
    assert_eq!(BACKFILL_WINDOW_MS, 3_600_000);
    let mut tracker = DedupTracker::new(START);
    let snapshot = vec![
        fill_at(START - 3_600_000, 1),
        fill_at(START - 3_599_999, 2),
        fill_at(START - 100, 3),
        fill_at(START, 4),
        fill_at(START + 1, 5),
        fill_at(START - 10_000_000, 6),
    ];
    let recent = tracker.bootstrap(&snapshot);
    assert_eq!(
        recent,
        vec![fill_at(START - 3_599_999, 2), fill_at(START - 100, 3), fill_at(START, 4)]
    );
    assert_eq!(tracker.seen_count(), 6);
    // none of them is new afterwards
    assert!(tracker.classify(&snapshot).is_empty());
}

#[test]
fn bootstrap_window_does_not_overflow_at_the_ends() {
    let mut low = DedupTracker::new(i64::MIN);
    let at_min = Fill { time: i64::MIN as u64, ..fill_at(0, 1) };
    assert_eq!(low.bootstrap(&vec![at_min.clone(), fill_at(0, 2)]), vec![at_min]);
    let mut high = DedupTracker::new(i64::MAX);
    let at_max = fill_at(i64::MAX, 3);
    assert_eq!(high.bootstrap(&vec![at_max.clone(), fill_at(0, 4)]), vec![at_max]);
}

#[test]
fn reported_time_is_read_as_signed() {
    let late = Fill { time: u64::MAX, ..fill_at(0, 1) };
    assert_eq!(late.timestamp_millis(), -1);
    assert_eq!(late.fill_id(), FillId { time: u64::MAX, oid: 1 });
    let mut tracker = DedupTracker::new(0);
    assert!(tracker.classify(&vec![late]).is_empty());
}

#[test]
fn record_of_a_fill_keeps_its_fields() {
    let fill = Fill {
        time: START as u64,
        oid: 4,
        coin: "SOL".to_string(),
        side: "sell".to_string(),
        size: "1.5".to_string(),
        price: "0".to_string(),
    };
    let record = TransactionRecord::from_fill(&fill);
    assert_eq!(
        record,
        TransactionRecord {
            timestamp: START,
            token: "SOL".to_string(),
            side: "sell".to_string(),
            size: "1.5".to_string(),
            leverage: 1,
            entry_price: "0".to_string(),
        }
    );
    assert_eq!(DEFAULT_LEVERAGE, 1);
    assert_eq!(record.clone(), record);
    assert_eq!(fill.clone(), fill);
}
