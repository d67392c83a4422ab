//! Per-monitor memory of the fills that were already observed.
//!
//! A tracker holds the identifiers of every fill that it was shown and the
//! time at which its monitor started. A fetched snapshot is split by it into
//! fills that are known and fills that are new.

use crate::fill::{Fill, FillId};
use std::collections::HashSet;
use vstd::prelude::*;

verus! {

broadcast use vstd::std_specs::hash::group_hash_axioms;

/// Length of the trailing window before a monitor's start whose fills are
/// logged without a notification.
pub const BACKFILL_WINDOW_MS: i64 = 3_600_000;

/// The identifiers that occur in `fills`.
pub open spec fn ids_of(fills: Seq<Fill>) -> Set<FillId> {
    Set::new(|id: FillId| exists|i: int| 0 <= i < fills.len() && (#[trigger] fills[i]).id() == id)
}

/// What a tracker that started with `seen` holds when it reaches position `i`
/// of the snapshot `fills`.
pub open spec fn seen_before(seen: Set<FillId>, fills: Seq<Fill>, i: int) -> Set<FillId> {
    seen.union(ids_of(fills.take(i)))
}

/// The fill at position `i` of `fills` is new: it is later than the cutoff and
/// its identifier was met neither before this snapshot nor earlier in it.
pub open spec fn is_new_at(seen: Set<FillId>, cutoff: int, fills: Seq<Fill>, i: int) -> bool {
    &&& fills[i].timestamp() > cutoff
    &&& !seen_before(seen, fills, i).contains(fills[i].id())
}

/// The new fills among the first `n` of `fills`, in the order of the snapshot.
pub open spec fn new_among(seen: Set<FillId>, cutoff: int, fills: Seq<Fill>, n: int) -> Seq<Fill>
    decreases n,
{
    if n <= 0 {
        Seq::empty()
    } else {
        let earlier = new_among(seen, cutoff, fills, n - 1);
        if is_new_at(seen, cutoff, fills, n - 1) {
            earlier.push(fills[n - 1])
        } else {
            earlier
        }
    }
}

/// The new fills of a snapshot, in its order.
pub open spec fn new_fills(seen: Set<FillId>, cutoff: int, fills: Seq<Fill>) -> Seq<Fill> {
    new_among(seen, cutoff, fills, fills.len() as int)
}

/// `timestamp` lies in the backfill window of a monitor that started at `start`.
pub open spec fn in_backfill_window(timestamp: int, start: int) -> bool {
    start - BACKFILL_WINDOW_MS < timestamp <= start
}

/// Tells of a fill whether it lies in the backfill window before `start`.
pub open spec fn backfill_test(start: int) -> spec_fn(Fill) -> bool {
    |f: Fill| in_backfill_window(f.timestamp() as int, start)
}

/// The fills of a snapshot that lie in the backfill window, in its order.
pub open spec fn backfill_of(start: int, fills: Seq<Fill>) -> Seq<Fill> {
    fills.filter(backfill_test(start))
}

/// The key under which an identifier is stored.
spec fn key_of(id: FillId) -> u128 {
    (id.time * 0x1_0000_0000_0000_0000 + id.oid) as u128
}

/// The identifier that is stored under `key`.
spec fn id_at(key: u128) -> FillId {
    FillId {
        time: (key / 0x1_0000_0000_0000_0000) as u64,
        oid: (key % 0x1_0000_0000_0000_0000) as u64,
    }
}

/// Keys and identifiers stand one for one.
proof fn lemma_keys_one_to_one()
    ensures
        forall|id: FillId| id_at(#[trigger] key_of(id)) == id,
        forall|key: u128| key_of(#[trigger] id_at(key)) == key,
{
}

/// A snapshot that is longer by one fill holds one identifier more.
pub proof fn lemma_ids_of_take(fills: Seq<Fill>, i: int)
    requires
        0 <= i < fills.len(),
    ensures
        ids_of(fills.take(i + 1)) == ids_of(fills.take(i)).insert(fills[i].id()),
{
    let longer = fills.take(i + 1);
    let shorter = fills.take(i);
    assert forall|id: FillId| ids_of(longer).contains(id) <==> ids_of(shorter).insert(
        fills[i].id(),
    ).contains(id) by {
        if ids_of(longer).contains(id) {
            let k = choose|k: int| 0 <= k < longer.len() && (#[trigger] longer[k]).id() == id;
            if k < i {
                assert(shorter[k].id() == id);
            }
        }
        if ids_of(shorter).contains(id) {
            let k = choose|k: int| 0 <= k < shorter.len() && (#[trigger] shorter[k]).id() == id;
            assert(longer[k].id() == id);
        }
        if id == fills[i].id() {
            assert(longer[i].id() == id);
        }
    }
}

/// Every new fill is later than the cutoff, and its identifier was not held
/// before the snapshot.
pub proof fn lemma_new_fills(
    seen: Set<FillId>,
    cutoff: int,
    fills: Seq<Fill>,
    n: int,
    k: int,
)
    requires
        n <= fills.len(),
        0 <= k < new_among(seen, cutoff, fills, n).len(),
    ensures
        new_among(seen, cutoff, fills, n)[k].timestamp() > cutoff,
        !seen.contains(new_among(seen, cutoff, fills, n)[k].id()),
    decreases n,
{
    if n > 0 {
        let earlier = new_among(seen, cutoff, fills, n - 1);
        if k < earlier.len() {
            lemma_new_fills(seen, cutoff, fills, n - 1, k);
        }
    }
}

/// The memory of one monitor. It belongs to its monitor alone.
pub struct DedupTracker {
    /// One key for each identifier that was seen.
    keys: HashSet<u128>,
    cutoff: i64,
}

impl DedupTracker {
    #[verifier::type_invariant]
    spec fn keys_finite(&self) -> bool {
        self.keys@.finite()
    }

    /// The identifiers of every fill this tracker was shown.
    pub closed spec fn seen_ids(&self) -> Set<FillId> {
        self.keys@.map(|key: u128| id_at(key))
    }

    /// The start time of the monitor: fills at or before it are never new.
    pub closed spec fn cutoff(&self) -> i64 {
        self.cutoff
    }

    proof fn lemma_seen_ids(&self)
        ensures
            forall|id: FillId| self.seen_ids().contains(id) <==> self.keys@.contains(key_of(id)),
    {
        lemma_keys_one_to_one();
        assert forall|id: FillId| self.seen_ids().contains(id) implies self.keys@.contains(
            key_of(id),
        ) by {
            let key = choose|key: u128| self.keys@.contains(key) && id == id_at(key);
            assert(key_of(id_at(key)) == key);
        }
        assert forall|id: FillId| self.keys@.contains(key_of(id)) implies self.seen_ids().contains(
            id,
        ) by {
            assert(id_at(key_of(id)) == id);
        }
    }

    /// A tracker that has seen nothing, for a monitor that starts at `cutoff`.
    pub fn new(cutoff: i64) -> (tracker: Self)
        ensures
            tracker.seen_ids() == Set::<FillId>::empty(),
            tracker.cutoff() == cutoff,
    {
        let tracker = DedupTracker { keys: HashSet::new(), cutoff };
        proof {
            tracker.lemma_seen_ids();
            assert(tracker.seen_ids() =~= Set::<FillId>::empty());
        }
        tracker
    }

    pub fn cutoff_timestamp(&self) -> (cutoff: i64)
        ensures
            cutoff == self.cutoff(),
    {
        self.cutoff
    }

    /// Whether a fill with this identifier was shown to the tracker.
    pub fn has_seen(&self, id: FillId) -> (seen: bool)
        ensures
            seen == self.seen_ids().contains(id),
    {
        proof {
            self.lemma_seen_ids();
        }
        let key = Self::key(id);
        self.keys.contains(&key)
    }

    /// The number of identifiers held: each one counts once, however often it
    /// was fetched.
    pub fn seen_count(&self) -> (count: usize)
        ensures
            self.seen_ids().finite(),
            count == self.seen_ids().len(),
    {
        proof {
            use_type_invariant(self);
            lemma_keys_one_to_one();
            let unpack = |key: u128| id_at(key);
            assert(vstd::relations::injective_on(unpack, self.keys@)) by {
                assert forall|a: u128, b: u128| #[trigger] unpack(a) == #[trigger] unpack(b) implies a
                    == b by {
                    assert(key_of(id_at(a)) == a);
                    assert(key_of(id_at(b)) == b);
                }
            }
            vstd::set_lib::lemma_map_size(self.keys@, self.seen_ids(), unpack);
        }
        self.keys.len()
    }

    fn key(id: FillId) -> (key: u128)
        ensures
            key == key_of(id),
    {
        let high: u128 = id.time as u128;
        let low: u128 = id.oid as u128;
        high * 0x1_0000_0000_0000_0000 + low
    }

    /// Remembers `id` and tells whether it was unknown until now.
    pub fn remember(&mut self, id: FillId) -> (unknown: bool)
        ensures
            final(self).seen_ids() == old(self).seen_ids().insert(id),
            final(self).cutoff() == old(self).cutoff(),
            unknown == !old(self).seen_ids().contains(id),
    {
        proof {
            use_type_invariant(&*self);
            self.lemma_seen_ids();
        }
        let key = Self::key(id);
        // The set is taken out while it changes: the tracker stays whole.
        let mut keys: HashSet<u128> = HashSet::new();
        std::mem::swap(&mut self.keys, &mut keys);
        let unknown = keys.insert(key);
        std::mem::swap(&mut self.keys, &mut keys);
        proof {
            self.lemma_seen_ids();
            lemma_keys_one_to_one();
            assert(final(self).seen_ids() =~= old(self).seen_ids().insert(id));
        }
        unknown
    }

    /// Classifies a fetched snapshot. Every identifier in it is remembered.
    /// Returned are the new fills, in the order of the snapshot: those that
    /// are later than the cutoff and were not met before, neither in an
    /// earlier snapshot nor earlier in this one.
    pub fn classify(&mut self, fetched: &Vec<Fill>) -> (fresh: Vec<Fill>)
        ensures
            final(self).seen_ids() == old(self).seen_ids().union(ids_of(fetched@)),
            final(self).cutoff() == old(self).cutoff(),
            fresh@ == new_fills(old(self).seen_ids(), old(self).cutoff() as int, fetched@),
            forall|k: int|
                0 <= k < fresh.len() ==> (#[trigger] fresh[k]).timestamp() > old(self).cutoff()
                    && !old(self).seen_ids().contains(fresh[k].id()),
    {
        let mut fresh: Vec<Fill> = Vec::new();
        let mut i: usize = 0;
        proof {
            assert(seen_before(self.seen_ids(), fetched@, 0) =~= self.seen_ids());
        }
        while i < fetched.len()
            invariant
                i <= fetched.len(),
                self.cutoff() == old(self).cutoff(),
                self.seen_ids() == seen_before(old(self).seen_ids(), fetched@, i as int),
                fresh@ == new_among(
                    old(self).seen_ids(),
                    old(self).cutoff() as int,
                    fetched@,
                    i as int,
                ),
            decreases fetched.len() - i,
        {
            let fill = &fetched[i];
            let unknown = self.remember(fill.fill_id());
            if unknown && fill.timestamp_millis() > self.cutoff {
                fresh.push(fill.clone());
            }
            proof {
                lemma_ids_of_take(fetched@, i as int);
                assert(self.seen_ids() =~= seen_before(
                    old(self).seen_ids(),
                    fetched@,
                    i as int + 1,
                ));
            }
            i = i + 1;
        }
        proof {
            assert(fetched@.take(fetched@.len() as int) == fetched@);
            assert forall|k: int| 0 <= k < fresh.len() implies (#[trigger] fresh[k]).timestamp()
                > old(self).cutoff() && !old(self).seen_ids().contains(fresh[k].id()) by {
                lemma_new_fills(
                    old(self).seen_ids(),
                    old(self).cutoff() as int,
                    fetched@,
                    fetched@.len() as int,
                    k,
                );
            }
        }
        fresh
    }

    /// Takes in the first snapshot of a monitor. Every identifier in it is
    /// remembered and none of its fills is new. Returned are the fills that
    /// lie in the backfill window, in the order of the snapshot: they are
    /// logged, and no notification is sent for them.
    pub fn bootstrap(&mut self, fetched: &Vec<Fill>) -> (recent: Vec<Fill>)
        ensures
            final(self).seen_ids() == old(self).seen_ids().union(ids_of(fetched@)),
            final(self).cutoff() == old(self).cutoff(),
            recent@ == backfill_of(old(self).cutoff() as int, fetched@),
    {
        let mut recent: Vec<Fill> = Vec::new();
        let mut i: usize = 0;
        proof {
            assert(seen_before(self.seen_ids(), fetched@, 0) =~= self.seen_ids());
            assert(fetched@.take(0).filter(backfill_test(self.cutoff() as int)) =~= Seq::empty())
                by {
                reveal(Seq::filter);
            }
        }
        while i < fetched.len()
            invariant
                i <= fetched.len(),
                self.cutoff() == old(self).cutoff(),
                self.seen_ids() == seen_before(old(self).seen_ids(), fetched@, i as int),
                recent@ == backfill_of(old(self).cutoff() as int, fetched@.take(i as int)),
            decreases fetched.len() - i,
        {
            let fill = &fetched[i];
            self.remember(fill.fill_id());
            if Self::in_window(fill.timestamp_millis(), self.cutoff) {
                recent.push(fill.clone());
            }
            proof {
                lemma_ids_of_take(fetched@, i as int);
                assert(self.seen_ids() =~= seen_before(
                    old(self).seen_ids(),
                    fetched@,
                    i as int + 1,
                ));
                assert(fetched@.take(i as int + 1) =~= fetched@.take(i as int).push(fetched@[i as int]));
                fetched@.take(i as int).lemma_filter_push(
                    fetched@[i as int],
                    backfill_test(self.cutoff() as int),
                );
            }
            i = i + 1;
        }
        proof {
            assert(fetched@.take(fetched@.len() as int) == fetched@);
        }
        recent
    }

    fn in_window(timestamp: i64, start: i64) -> (inside: bool)
        ensures
            inside == in_backfill_window(timestamp as int, start as int),
    {
        let lower: i128 = start as i128 - BACKFILL_WINDOW_MS as i128;
        lower < timestamp as i128 && timestamp <= start
    }
}

} // verus!
