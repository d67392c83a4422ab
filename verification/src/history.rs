//! What holds of a tracker and of a monitor over a run of ticks.
//!
//! A monitor shows its tracker one snapshot per tick. The functions here speak
//! of the identifiers held and of the state reached after any number of ticks,
//! and prove what a caller may rely on from tick to tick.

use crate::fill::{Fill, FillId};
use crate::monitor::{fills_taken, logged_fills, next_state, notified_fills, Event, MonitorView};
use crate::tracker::{
    backfill_test, ids_of, in_backfill_window, is_new_at, lemma_new_fills, new_fills, seen_before,
};
use vstd::prelude::*;

verus! {

/// The identifiers held by a tracker that started with `seen` and was shown
/// the snapshots `ticks` in turn.
pub open spec fn seen_after(seen: Set<FillId>, ticks: Seq<Seq<Fill>>) -> Set<FillId>
    decreases ticks.len(),
{
    if ticks.len() == 0 {
        seen
    } else {
        seen_after(seen, ticks.drop_last()).union(ids_of(ticks.last()))
    }
}

/// After any run of snapshots a tracker holds what it held before and the
/// identifiers that occurred in the snapshots, and nothing else.
pub proof fn lemma_seen_after(seen: Set<FillId>, ticks: Seq<Seq<Fill>>, id: FillId)
    ensures
        seen_after(seen, ticks).contains(id) <==> seen.contains(id) || exists|t: int|
            0 <= t < ticks.len() && ids_of(#[trigger] ticks[t]).contains(id),
    decreases ticks.len(),
{
    if ticks.len() > 0 {
        let earlier = ticks.drop_last();
        lemma_seen_after(seen, earlier, id);
        if seen_after(seen, ticks).contains(id) && !seen.contains(id) {
            if ids_of(ticks.last()).contains(id) {
                assert(ids_of(ticks[ticks.len() - 1]).contains(id));
            } else {
                let t = choose|t: int|
                    0 <= t < earlier.len() && ids_of(#[trigger] earlier[t]).contains(id);
                assert(ids_of(ticks[t]).contains(id));
            }
        }
        if exists|t: int| 0 <= t < ticks.len() && ids_of(#[trigger] ticks[t]).contains(id) {
            let t = choose|t: int| 0 <= t < ticks.len() && ids_of(#[trigger] ticks[t]).contains(id);
            if t < earlier.len() {
                assert(ids_of(earlier[t]).contains(id));
            }
        }
    }
}

/// An identifier is held once per distinct identifier: a snapshot that was
/// fetched before, fetched again at any later tick, leaves the held
/// identifiers as they were.
pub proof fn law_refetch_adds_nothing(seen: Set<FillId>, ticks: Seq<Seq<Fill>>, t: int)
    requires
        0 <= t < ticks.len(),
    ensures
        seen_after(seen, ticks.push(ticks[t])) == seen_after(seen, ticks),
{
    let again = ticks.push(ticks[t]);
    assert(again.drop_last() =~= ticks);
    assert forall|id: FillId| seen_after(seen, again).contains(id) <==> seen_after(
        seen,
        ticks,
    ).contains(id) by {
        lemma_seen_after(seen, ticks, id);
    }
    assert(seen_after(seen, again) =~= seen_after(seen, ticks));
}

/// A fill at or before the cutoff is never new, even when its identifier
/// is met for the first time.
pub proof fn law_cutoff_bars_old_fills(seen: Set<FillId>, cutoff: int, fills: Seq<Fill>, i: int)
    requires
        0 <= i < fills.len(),
        fills[i].timestamp() <= cutoff,
    ensures
        !is_new_at(seen, cutoff, fills, i),
{
}

/// Every new fill of a snapshot is later than the cutoff, and its identifier
/// was not held before the snapshot.
pub proof fn law_new_fills_are_late_and_unseen(seen: Set<FillId>, cutoff: int, fills: Seq<Fill>)
    ensures
        forall|k: int|
            0 <= k < new_fills(seen, cutoff, fills).len() ==> {
                &&& (#[trigger] new_fills(seen, cutoff, fills)[k]).timestamp() > cutoff
                &&& !seen.contains(new_fills(seen, cutoff, fills)[k].id())
            },
{
    assert forall|k: int| 0 <= k < new_fills(seen, cutoff, fills).len() implies {
        &&& (#[trigger] new_fills(seen, cutoff, fills)[k]).timestamp() > cutoff
        &&& !seen.contains(new_fills(seen, cutoff, fills)[k].id())
    } by {
        lemma_new_fills(seen, cutoff, fills, fills.len() as int, k);
    }
}

/// Of two fills with the same identifier that are fetched in different ticks,
/// only the first can be new: the one fetched later is not.
pub proof fn law_same_id_new_once(
    seen: Set<FillId>,
    cutoff: int,
    ticks: Seq<Seq<Fill>>,
    t1: int,
    i: int,
    t2: int,
    j: int,
)
    requires
        0 <= t1 < t2 < ticks.len(),
        0 <= i < ticks[t1].len(),
        0 <= j < ticks[t2].len(),
        ticks[t1][i].id() == ticks[t2][j].id(),
    ensures
        !is_new_at(seen_after(seen, ticks.take(t2)), cutoff, ticks[t2], j),
{
    let before = ticks.take(t2);
    assert(before[t1] == ticks[t1]);
    assert(ids_of(before[t1]).contains(ticks[t1][i].id()));
    lemma_seen_after(seen, before, ticks[t2][j].id());
}

/// Of two fills with the same identifier in one snapshot, the second is not
/// new.
pub proof fn law_same_id_new_once_in_snapshot(
    seen: Set<FillId>,
    cutoff: int,
    fills: Seq<Fill>,
    i: int,
    j: int,
)
    requires
        0 <= i < j < fills.len(),
        fills[i].id() == fills[j].id(),
    ensures
        !is_new_at(seen, cutoff, fills, j),
{
    assert(fills.take(j)[i].id() == fills[j].id());
    assert(seen_before(seen, fills, j).contains(fills[j].id()));
}

/// The state of a monitor after the events `events`, taken in turn.
pub open spec fn state_after(state: MonitorView, events: Seq<Event>) -> MonitorView
    decreases events.len(),
{
    if events.len() == 0 {
        state
    } else {
        next_state(state_after(state, events.drop_last()), events.last())
    }
}

/// Whatever happens, a monitor keeps its account, kind, start and keys, and
/// forgets no identifier. Once it has left its first phase it never returns.
pub proof fn lemma_state_after(state: MonitorView, events: Seq<Event>)
    ensures
        state_after(state, events).address == state.address,
        state_after(state, events).kind == state.kind,
        state_after(state, events).start == state.start,
        state_after(state, events).keys == state.keys,
        state.seen.subset_of(state_after(state, events).seen),
        !(state.phase is Initializing) ==> !(state_after(state, events).phase is Initializing),
        state.phase is Stopped ==> state_after(state, events) == state,
    decreases events.len(),
{
    if events.len() > 0 {
        lemma_state_after(state, events.drop_last());
    }
}

/// No fill that an event adds to the log was fetched before, unless the
/// monitor is in its first phase; and every fill for which a message is sent
/// is new.
pub proof fn lemma_logged_is_unseen(state: MonitorView, event: Event, k: int)
    requires
        0 <= k < logged_fills(state, event).len(),
        !(state.phase is Initializing),
    ensures
        !state.seen.contains(logged_fills(state, event)[k].id()),
        logged_fills(state, event)[k].timestamp() > state.start,
{
    let fills = fills_taken(state.kind, event)->0;
    lemma_new_fills(state.seen, state.start, fills, fills.len() as int, k);
}

/// A fill that is first fetched by the first snapshot of a monitor and lies
/// in the backfill window is added to the log by that snapshot, and no
/// message is sent for it: not by the first snapshot, and not by any later
/// one that holds a fill with its identifier.
pub proof fn law_backfill_logged_never_notified(
    state: MonitorView,
    first_event: Event,
    p: int,
    later: Seq<Event>,
    next: Event,
)
    requires
        state.phase is Initializing,
        state.kind is Transactions,
        first_event is Snapshot,
        0 <= p < first_event.fills().len(),
        in_backfill_window(first_event.fills()[p].timestamp() as int, state.start),
    ensures
        logged_fills(state, first_event).contains(first_event.fills()[p]),
        notified_fills(state, first_event).len() == 0,
        forall|k: int|
            0 <= k < notified_fills(
                state_after(next_state(state, first_event), later),
                next,
            ).len() ==> (#[trigger] notified_fills(
                state_after(next_state(state, first_event), later),
                next,
            )[k]).id() != first_event.fills()[p].id(),
{
    let first = first_event.fills();
    first.lemma_filter_contains(backfill_test(state.start), p);
    let polling = next_state(state, first_event);
    let reached = state_after(polling, later);
    lemma_state_after(polling, later);
    assert(ids_of(first).contains(first[p].id()));
    assert(reached.seen.contains(first[p].id()));
    assert forall|k: int| 0 <= k < notified_fills(reached, next).len() implies (
    #[trigger] notified_fills(reached, next)[k]).id() != first[p].id() by {
        lemma_logged_is_unseen(reached, next, k);
    }
}

/// Of two fills with the same identifier that are fetched in different
/// ticks, only the first can give a record: whatever happens in between, the
/// snapshot that brings the second adds no fill with that identifier to the
/// log.
pub proof fn law_one_record_per_identifier(
    state: MonitorView,
    earlier_event: Event,
    i: int,
    between: Seq<Event>,
    next: Event,
)
    requires
        earlier_event is Snapshot,
        0 <= i < earlier_event.fills().len(),
    ensures
        forall|k: int|
            0 <= k < logged_fills(
                state_after(next_state(state, earlier_event), between),
                next,
            ).len() ==> (#[trigger] logged_fills(
                state_after(next_state(state, earlier_event), between),
                next,
            )[k]).id() != earlier_event.fills()[i].id(),
{
    let earlier = earlier_event.fills();
    let moved = next_state(state, earlier_event);
    let reached = state_after(moved, between);
    lemma_state_after(moved, between);
    assert forall|k: int| 0 <= k < logged_fills(reached, next).len() implies (
    #[trigger] logged_fills(reached, next)[k]).id() != earlier[i].id() by {
        lemma_logged_is_unseen(reached, next, k);
        assert(state.kind is Transactions && !(state.phase is Stopped));
        assert(ids_of(earlier).contains(earlier[i].id()));
        assert(moved.seen.contains(earlier[i].id()));
    }
}

} // verus!
