use fill_monitor::channel::{Delivery, SendError};
use fill_monitor::fill::{Fill, FillId, TransactionRecord};
use fill_monitor::monitor::{
    Action, Event, Monitor, MonitorKind, Phase, POLL_INTERVAL_SECS,
};

const T: i64 = 1_700_000_000_000;

fn fill(time: i64, oid: u64, side: &str) -> Fill {
    Fill {
        time: time as u64,
        oid,
        coin: "BTC".to_string(),
        side: side.to_string(),
        size: "0.5".to_string(),
        price: "42000".to_string(),
    }
}

fn id(time: i64, oid: u64) -> FillId {
    FillId { time: time as u64, oid }
}

fn monitor_with(keys: &[&str]) -> Monitor {
    Monitor::new(
        "0xabc".to_string(),
        MonitorKind::Transactions,
        T,
        keys.iter().map(|k| k.to_string()).collect(),
    )
}

#[test]
fn new_monitor_waits_for_its_first_fetch() {
    let monitor = monitor_with(&["K"]);
    assert_eq!(monitor.phase(), Phase::Initializing);
    assert_eq!(monitor.kind(), MonitorKind::Transactions);
    assert_eq!(monitor.address(), "0xabc");
    assert_eq!(monitor.start_time(), T);
    assert_eq!(monitor.keys(), &vec!["K".to_string()]);
    assert_eq!(monitor.seen_count(), 0);
    assert_eq!(monitor.pending_action(), Action::PollAfter { seconds: 10 });
    assert_eq!(POLL_INTERVAL_SECS, 10);
}

#[test]
fn backfill_then_new_fill_scenario() {
    let mut monitor = monitor_with(&["XXXX"]);
    let a = fill(T - 100, 1, "long");
    let b = fill(T - 10_000_000, 2, "long");
    let c = fill(T + 20_000, 3, "long");

    let first = monitor.step(Event::Snapshot(vec![a.clone(), b.clone()]));
    assert_eq!(first.records, vec![TransactionRecord::from_fill(&a)]);
    assert!(first.dispatches.is_empty());
    assert_eq!(first.next, Action::PollAfter { seconds: 10 });
    assert_eq!(monitor.phase(), Phase::Polling);
    assert!(monitor.has_seen(id(T - 100, 1)));
    assert!(monitor.has_seen(id(T - 10_000_000, 2)));
    assert_eq!(monitor.seen_count(), 2);

    let second = monitor.step(Event::Snapshot(vec![a, b, c.clone()]));
    assert_eq!(second.records, vec![TransactionRecord::from_fill(&c)]);
    assert_eq!(second.dispatches.len(), 1);
    let dispatch = &second.dispatches[0];
    assert_eq!(dispatch.message.title, "[LONG] 2023-11-15 06:13:40 BTC Long");
    assert_eq!(
        dispatch.message.body,
        "Address: 0xabc\nToken: BTC\nAction: Long\nSize: 0.5\nPrice: 42000\nTime: 2023-11-15 06:13:40"
    );
    assert_eq!(dispatch.deliveries.len(), 1);
    match &dispatch.deliveries[0] {
        Delivery::Post(request) => {
            assert_eq!(request.url, "https://sctapi.ftqq.com/XXXX.send");
            assert_eq!(request.content_type, "application/x-www-form-urlencoded");
            assert_eq!(request.content_length, request.body.len() as u64);
            assert!(request.body.starts_with("text=%5BLONG%5D+2023-11-15+06%3A13%3A40+BTC+Long&desp=Address%3A+0xabc%0AToken%3A+BTC"));
        }
        other => panic!("unexpected delivery {:?}", other),
    }
    assert_eq!(monitor.seen_count(), 3);

    let third = monitor.step(Event::Snapshot(vec![c]));
    assert!(third.records.is_empty());
    assert!(third.dispatches.is_empty());
}

#[test]
fn fill_after_the_start_in_the_first_snapshot_is_remembered_only() {
    let mut monitor = monitor_with(&["K"]);
    let early = fill(T + 5, 1, "buy");
    let first = monitor.step(Event::Snapshot(vec![early.clone()]));
    assert!(first.records.is_empty());
    assert!(first.dispatches.is_empty());
    let second = monitor.step(Event::Snapshot(vec![early]));
    assert!(second.records.is_empty());
    assert!(second.dispatches.is_empty());
}

#[test]
fn without_keys_new_fills_are_logged_and_nothing_is_sent() {
    let mut monitor = monitor_with(&[]);
    monitor.step(Event::Snapshot(Vec::new()));
    let tick = monitor.step(Event::Snapshot(vec![fill(T + 1, 1, "sell")]));
    assert_eq!(tick.records.len(), 1);
    assert!(tick.dispatches.is_empty());
}

#[test]
fn each_new_fill_is_sent_to_each_key_in_order() {
    let mut monitor = monitor_with(&["sctpXtYYYY", "", "sctp12tZ"]);
    monitor.step(Event::FetchFailed);
    let tick = monitor.step(Event::Snapshot(vec![fill(T + 1, 1, "deposit"), fill(T + 2, 2, "foo")]));
    assert_eq!(tick.records.len(), 2);
    assert_eq!(tick.dispatches.len(), 2);
    assert!(tick.dispatches[0].message.title.starts_with("[DEPOSIT] "));
    assert!(tick.dispatches[1].message.title.starts_with("[TRANSACTION] "));
    assert!(tick.dispatches[1].message.title.ends_with(" BTC foo"));
    for dispatch in &tick.dispatches {
        assert_eq!(dispatch.deliveries.len(), 3);
        assert_eq!(dispatch.deliveries[0], Delivery::Failed(SendError::Format));
        assert_eq!(dispatch.deliveries[1], Delivery::Skipped);
        match &dispatch.deliveries[2] {
            Delivery::Post(request) => {
                assert_eq!(request.url, "https://12.push.ft07.com/send/sctp12tZ.send")
            }
            other => panic!("unexpected delivery {:?}", other),
        }
    }
}

#[test]
fn failed_fetch_skips_the_tick() {
    let mut monitor = monitor_with(&["K"]);
    let tick = monitor.step(Event::FetchFailed);
    assert!(tick.records.is_empty());
    assert!(tick.dispatches.is_empty());
    assert_eq!(tick.next, Action::PollAfter { seconds: 10 });
    assert_eq!(monitor.phase(), Phase::Polling);
    assert_eq!(monitor.seen_count(), 0);
    // nothing was remembered at the start, so an old fill is still not new
    // and a later one is
    let tick = monitor.step(Event::Snapshot(vec![fill(T - 100, 1, "buy"), fill(T + 100, 2, "buy")]));
    assert_eq!(tick.records, vec![TransactionRecord::from_fill(&fill(T + 100, 2, "buy"))]);
    let tick = monitor.step(Event::FetchFailed);
    assert!(tick.records.is_empty());
    assert_eq!(monitor.seen_count(), 2);
    assert_eq!(monitor.phase(), Phase::Polling);
}

#[test]
fn cancelled_monitor_stops_for_good() {
    let mut monitor = monitor_with(&["K"]);
    monitor.step(Event::Snapshot(vec![fill(T - 1, 1, "buy")]));
    let tick = monitor.step(Event::Cancelled);
    assert_eq!(tick.next, Action::Halt);
    assert!(tick.records.is_empty());
    assert_eq!(monitor.phase(), Phase::Stopped);
    assert_eq!(monitor.pending_action(), Action::Halt);
    let tick = monitor.step(Event::Snapshot(vec![fill(T + 1, 2, "buy")]));
    assert!(tick.records.is_empty());
    assert!(tick.dispatches.is_empty());
    assert_eq!(tick.next, Action::Halt);
    assert_eq!(monitor.phase(), Phase::Stopped);
    assert_eq!(monitor.seen_count(), 1);
    let mut fresh = monitor_with(&[]);
    assert_eq!(fresh.step(Event::Cancelled).next, Action::Halt);
    assert_eq!(fresh.phase(), Phase::Stopped);
}

#[test]
fn monitor_of_positions_reports_nothing() {
    let mut monitor =
        Monitor::new("0xabc".to_string(), MonitorKind::Perpetuals, T, vec!["K".to_string()]);
    let tick = monitor.step(Event::Positions);
    assert!(tick.records.is_empty());
    assert_eq!(monitor.phase(), Phase::Polling);
    let tick = monitor.step(Event::Positions);
    assert!(tick.records.is_empty());
    assert!(tick.dispatches.is_empty());
    assert_eq!(tick.next, Action::PollAfter { seconds: 10 });
    let tick = monitor.step(Event::Snapshot(vec![fill(T + 1, 1, "buy")]));
    assert!(tick.records.is_empty());
    assert_eq!(monitor.seen_count(), 0);
}

#[test]
fn kind_is_read_from_its_name() {
    assert_eq!(MonitorKind::from_name("transactions"), MonitorKind::Transactions);
    assert_eq!(MonitorKind::from_name("perpetuals"), MonitorKind::Perpetuals);
    assert_eq!(MonitorKind::from_name("anything"), MonitorKind::Transactions);
    assert_eq!(MonitorKind::from_name("Perpetuals"), MonitorKind::Transactions);
    assert_eq!(MonitorKind::Transactions.name(), "transactions");
    assert_eq!(MonitorKind::Perpetuals.name(), "perpetuals");
}
