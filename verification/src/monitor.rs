//! The monitor of one account: a state machine that is stepped once per fetch.
//!
//! The caller owns the clock and the network. It fetches, hands the outcome to
//! `Monitor::step` as an event, appends the records of the tick to the log in
//! one batch, posts the requests, and does what the returned action says.

use crate::channel::{delivery_of, send_to_all_keys, Delivery};
use crate::fill::{Fill, FillId, TransactionRecord};
use crate::message::{body_of, notification_for, title_of, Notification};
use crate::text::same_text;
use crate::tracker::{backfill_of, ids_of, new_fills, DedupTracker};
use vstd::prelude::*;

verus! {

/// Seconds between the end of one tick and the next fetch.
pub const POLL_INTERVAL_SECS: u64 = 10;

/// What a monitor watches.
#[derive(Clone, Copy, Debug, PartialEq, Eq, Structural)]
pub enum MonitorKind {
    /// The fills of the account.
    Transactions,
    /// The perpetual positions of the account. Changes of positions are not
    /// detected: such a monitor polls and reports nothing.
    Perpetuals,
}

/// Where a monitor stands.
#[derive(Clone, Copy, Debug, PartialEq, Eq, Structural)]
pub enum Phase {
    /// Waiting for the outcome of the first fetch.
    Initializing,
    /// Steady state: one fetch per interval.
    Polling,
    /// Cancelled. Nothing more is fetched.
    Stopped,
}

/// The outcome of one fetch, or the word to stop.
#[derive(Debug)]
pub enum Event {
    /// The fills of the account were fetched.
    Snapshot(Vec<Fill>),
    /// The positions of the account were fetched.
    Positions,
    /// The fetch failed. The tick is skipped and the next one tries again.
    FetchFailed,
    /// The monitor was switched off.
    Cancelled,
}

impl Event {
    /// The fills that the event carries: those of a snapshot, none otherwise.
    pub open spec fn fills(self) -> Seq<Fill> {
        match self {
            Event::Snapshot(fetched) => fetched@,
            _ => Seq::empty(),
        }
    }
}

/// What the caller does after a tick.
#[derive(Clone, Copy, Debug, PartialEq, Eq, Structural)]
pub enum Action {
    /// Wait this long, then fetch and step again.
    PollAfter { seconds: u64 },
    /// Stop.
    Halt,
}

/// One message and what is to be done with it for each key.
#[derive(Debug, PartialEq, Eq)]
pub struct Dispatch {
    pub message: Notification,
    /// One entry per key, in the order of the keys.
    pub deliveries: Vec<Delivery>,
}

/// What one tick asks of the caller.
#[derive(Debug)]
pub struct Tick {
    /// To be appended to the log as one batch.
    pub records: Vec<TransactionRecord>,
    /// To be sent, message by message and key by key, outside the log's lock.
    pub dispatches: Vec<Dispatch>,
    pub next: Action,
}

/// A monitor by what its decisions rest on.
pub struct MonitorView {
    pub address: Seq<char>,
    pub kind: MonitorKind,
    pub phase: Phase,
    /// The identifiers of every fill that was fetched.
    pub seen: Set<FillId>,
    /// When the monitor started, in milliseconds: the cutoff of its tracker.
    pub start: int,
    pub keys: Seq<String>,
}

/// The fills that an event brings to a monitor of the given kind.
pub open spec fn fills_taken(kind: MonitorKind, event: Event) -> Option<Seq<Fill>> {
    if kind is Transactions && event is Snapshot {
        Some(event.fills())
    } else {
        None
    }
}

/// The state after `event`. A stopped monitor stays as it is. A cancelled one
/// stops. Any other event leads to polling, and a snapshot of fills is
/// remembered in full.
pub open spec fn next_state(state: MonitorView, event: Event) -> MonitorView {
    if state.phase is Stopped {
        state
    } else if event is Cancelled {
        MonitorView { phase: Phase::Stopped, ..state }
    } else {
        MonitorView {
            phase: Phase::Polling,
            seen: match fills_taken(state.kind, event) {
                Some(fills) => state.seen.union(ids_of(fills)),
                None => state.seen,
            },
            ..state
        }
    }
}

/// The fills that `event` adds to the log: of the first snapshot those in the
/// backfill window, of a later one the new fills.
pub open spec fn logged_fills(state: MonitorView, event: Event) -> Seq<Fill> {
    match fills_taken(state.kind, event) {
        Some(fills) => match state.phase {
            Phase::Initializing => backfill_of(state.start, fills),
            Phase::Polling => new_fills(state.seen, state.start, fills),
            Phase::Stopped => Seq::empty(),
        },
        None => Seq::empty(),
    }
}

/// The fills for which `event` sends a message: the new fills of a snapshot
/// while polling, if there is a key to send to.
pub open spec fn notified_fills(state: MonitorView, event: Event) -> Seq<Fill> {
    if state.phase is Polling && state.keys.len() > 0 {
        logged_fills(state, event)
    } else {
        Seq::empty()
    }
}

/// What the caller does when the monitor is in `phase`.
pub open spec fn action_in(phase: Phase) -> Action {
    match phase {
        Phase::Stopped => Action::Halt,
        _ => Action::PollAfter { seconds: POLL_INTERVAL_SECS },
    }
}

/// The records of fills, one for one.
pub open spec fn records_of(fills: Seq<Fill>) -> Seq<TransactionRecord> {
    Seq::new(fills.len(), |i: int| TransactionRecord::of(fills[i]))
}

/// `dispatch` is the message about `record` for the account `address`, with
/// what is to be done for each of `keys`.
pub open spec fn is_dispatch_of(
    dispatch: Dispatch,
    address: Seq<char>,
    keys: Seq<String>,
    record: TransactionRecord,
) -> bool {
    &&& dispatch.message.title@ == title_of(record)
    &&& dispatch.message.body@ == body_of(address, record)
    &&& dispatch.deliveries.len() == keys.len()
    &&& forall|i: int|
        0 <= i < keys.len() ==> (#[trigger] dispatch.deliveries[i])@ == delivery_of(
            title_of(record),
            body_of(address, record),
            keys[i]@,
        )
}

/// The kind that a name stands for.
pub open spec fn kind_named(name: Seq<char>) -> MonitorKind {
    if name == "perpetuals"@ {
        MonitorKind::Perpetuals
    } else {
        MonitorKind::Transactions
    }
}

impl MonitorKind {
    /// Reads a kind from its name in a configuration: `perpetuals`, or
    /// `transactions`. Any other name means transactions.
    pub fn from_name(name: &str) -> (kind: MonitorKind)
        ensures
            kind == kind_named(name@),
    {
        if same_text(name, "perpetuals") {
            MonitorKind::Perpetuals
        } else {
            MonitorKind::Transactions
        }
    }

    /// The name of the kind in a configuration.
    pub fn name(&self) -> (name: String)
        ensures
            kind_named(name@) == *self,
            name@ == (match *self {
                MonitorKind::Transactions => "transactions"@,
                MonitorKind::Perpetuals => "perpetuals"@,
            }),
    {
        proof {
            reveal_strlit("transactions");
            reveal_strlit("perpetuals");
            assert("transactions"@.len() != "perpetuals"@.len());
        }
        match self {
            MonitorKind::Transactions => String::from_str("transactions"),
            MonitorKind::Perpetuals => String::from_str("perpetuals"),
        }
    }
}

/// The monitor of one account. It owns its tracker; nothing of it is shared.
pub struct Monitor {
    address: String,
    kind: MonitorKind,
    phase: Phase,
    tracker: DedupTracker,
    keys: Vec<String>,
}

impl View for Monitor {
    type V = MonitorView;

    closed spec fn view(&self) -> MonitorView {
        MonitorView {
            address: self.address@,
            kind: self.kind,
            phase: self.phase,
            seen: self.tracker.seen_ids(),
            start: self.tracker.cutoff() as int,
            keys: self.keys@,
        }
    }
}

impl Monitor {
    /// A monitor of `address` that starts at `start`, milliseconds since the
    /// epoch. It has seen nothing and waits for its first fetch. Messages go
    /// to `keys`, in their order; with no key none is made.
    pub fn new(address: String, kind: MonitorKind, start: i64, keys: Vec<String>) -> (monitor:
        Self)
        ensures
            monitor@ == (MonitorView {
                address: address@,
                kind,
                phase: Phase::Initializing,
                seen: Set::empty(),
                start: start as int,
                keys: keys@,
            }),
    {
        Monitor { address, kind, phase: Phase::Initializing, tracker: DedupTracker::new(start), keys }
    }

    pub fn address(&self) -> (address: &str)
        ensures
            address@ == self@.address,
    {
        self.address.as_str()
    }

    pub fn kind(&self) -> (kind: MonitorKind)
        ensures
            kind == self@.kind,
    {
        self.kind
    }

    pub fn phase(&self) -> (phase: Phase)
        ensures
            phase == self@.phase,
    {
        self.phase
    }

    pub fn start_time(&self) -> (start: i64)
        ensures
            start == self@.start,
    {
        self.tracker.cutoff_timestamp()
    }

    pub fn keys(&self) -> (keys: &Vec<String>)
        ensures
            keys@ == self@.keys,
    {
        &self.keys
    }

    /// Whether a fill with this identifier was fetched.
    pub fn has_seen(&self, id: FillId) -> (seen: bool)
        ensures
            seen == self@.seen.contains(id),
    {
        self.tracker.has_seen(id)
    }

    /// The number of identifiers that were fetched, each counted once.
    pub fn seen_count(&self) -> (count: usize)
        ensures
            self@.seen.finite(),
            count == self@.seen.len(),
    {
        self.tracker.seen_count()
    }

    /// What the caller does now: fetch after the interval, or stop. A new
    /// monitor is the exception: its first fetch comes at once.
    pub fn pending_action(&self) -> (action: Action)
        ensures
            action == action_in(self@.phase),
    {
        match self.phase {
            Phase::Stopped => Action::Halt,
            _ => Action::PollAfter { seconds: POLL_INTERVAL_SECS },
        }
    }

    /// Takes the outcome of one fetch and moves the monitor on.
    ///
    /// The first snapshot is remembered in full; its fills in the backfill
    /// window are logged and nothing is sent. Of a later snapshot the new
    /// fills are logged, and for each of them one message is prepared for
    /// every key. A failed fetch changes nothing. A monitor of positions
    /// reports nothing.
    pub fn step(&mut self, event: Event) -> (tick: Tick)
        ensures
            final(self)@ == next_state(old(self)@, event),
            tick.records@ == records_of(logged_fills(old(self)@, event)),
            tick.dispatches.len() == notified_fills(old(self)@, event).len(),
            forall|k: int|
                0 <= k < tick.dispatches.len() ==> is_dispatch_of(
                    #[trigger] tick.dispatches[k],
                    old(self)@.address,
                    old(self)@.keys,
                    TransactionRecord::of(notified_fills(old(self)@, event)[k]),
                ),
            tick.next == action_in(final(self)@.phase),
    {
        let mut records: Vec<TransactionRecord> = Vec::new();
        let mut dispatches: Vec<Dispatch> = Vec::new();
        match self.phase {
            Phase::Stopped => {},
            Phase::Initializing => {
                match event {
                    Event::Cancelled => {
                        self.phase = Phase::Stopped;
                    },
                    Event::Snapshot(fetched) => {
                        if let MonitorKind::Transactions = self.kind {
                            let recent = self.tracker.bootstrap(&fetched);
                            records = Self::records(&recent);
                        }
                        self.phase = Phase::Polling;
                    },
                    _ => {
                        self.phase = Phase::Polling;
                    },
                }
            },
            Phase::Polling => {
                match event {
                    Event::Cancelled => {
                        self.phase = Phase::Stopped;
                    },
                    Event::Snapshot(fetched) => {
                        if let MonitorKind::Transactions = self.kind {
                            let fresh = self.tracker.classify(&fetched);
                            records = Self::records(&fresh);
                            if self.keys.len() > 0 {
                                dispatches = self.dispatches(&records);
                            }
                        }
                    },
                    _ => {},
                }
            },
        }
        let next = self.pending_action();
        Tick { records, dispatches, next }
    }

    fn records(fills: &Vec<Fill>) -> (records: Vec<TransactionRecord>)
        ensures
            records@ == records_of(fills@),
    {
        let mut records: Vec<TransactionRecord> = Vec::new();
        let mut i: usize = 0;
        while i < fills.len()
            invariant
                i <= fills.len(),
                records@ == records_of(fills@.take(i as int)),
            decreases fills.len() - i,
        {
            records.push(TransactionRecord::from_fill(&fills[i]));
            proof {
                assert(records@ =~= records_of(fills@.take(i as int + 1)));
            }
            i = i + 1;
        }
        proof {
            assert(fills@.take(fills@.len() as int) == fills@);
        }
        records
    }

    fn dispatches(&self, records: &Vec<TransactionRecord>) -> (dispatches: Vec<Dispatch>)
        ensures
            dispatches.len() == records.len(),
            forall|k: int|
                0 <= k < records.len() ==> is_dispatch_of(
                    #[trigger] dispatches[k],
                    self@.address,
                    self@.keys,
                    records[k],
                ),
    {
        let mut dispatches: Vec<Dispatch> = Vec::new();
        let mut k: usize = 0;
        while k < records.len()
            invariant
                k <= records.len(),
                dispatches.len() == k,
                forall|j: int|
                    0 <= j < k ==> is_dispatch_of(
                        #[trigger] dispatches[j],
                        self@.address,
                        self@.keys,
                        records[j],
                    ),
            decreases records.len() - k,
        {
            let message = notification_for(self.address.as_str(), &records[k]);
            let deliveries = send_to_all_keys(
                message.title.as_str(),
                message.body.as_str(),
                &self.keys,
            );
            dispatches.push(Dispatch { message, deliveries });
            k = k + 1;
        }
        dispatches
    }
}

} // verus!
