//! What a node shows over a run of completed accesses.
//!
//! An access is complete once its guard has been dropped. The guard's
//! contracts say what each step does to a node: a write through the guard
//! replaces the value, the release replaces the access time with a reading of
//! the guard's time source. The functions here chain those steps and state
//! what follows for any number of accesses.

use crate::access::NodeView;
use crate::clock::Now;
use std::time::Instant;
use vstd::prelude::*;

verus! {

/// What the drop of a guard on `source` makes of the node under it: `held`
/// is the node when the drop begins, `after` the node when it ends. The
/// value stays, and the access time is a result of `now` on `source`.
pub open spec fn is_release<T, N: Now>(source: &N, held: NodeView<T>, after: NodeView<T>) -> bool {
    &&& call_ensures(N::now, (source,), after.last_access)
    &&& after == held.released(after.last_access)
}

/// One completed access to a node.
pub ghost struct Visit<T> {
    /// The value as the guard's user left it.
    pub left: T,
    /// The reading that the time source gave when the guard was released.
    pub reading: Instant,
}

/// The node after one completed access.
pub open spec fn after_visit<T>(before: NodeView<T>, visit: Visit<T>) -> NodeView<T> {
    before.holding(visit.left).released(visit.reading)
}

/// The node after the accesses of `visits` have been completed in turn,
/// each one released before the next begins.
pub open spec fn after_visits<T>(start: NodeView<T>, visits: Seq<Visit<T>>) -> NodeView<T>
    decreases visits.len(),
{
    if visits.len() == 0 {
        start
    } else {
        after_visit(after_visits(start, visits.drop_last()), visits.last())
    }
}

/// The access times that the node shows after each access of `visits`:
/// the entry at `i` is read once access `i` is complete and before the next
/// one begins.
pub open spec fn stamps_read<T>(start: NodeView<T>, visits: Seq<Visit<T>>) -> Seq<Instant> {
    Seq::new(visits.len(), |i: int| after_visits(start, visits.take(i + 1)).last_access)
}

/// The access time that the guard of access `i` reports while it is alive:
/// the one the node shows when the accesses before `i` are complete.
pub open spec fn stamp_seen<T>(start: NodeView<T>, visits: Seq<Visit<T>>, i: int) -> Instant {
    after_visits(start, visits.take(i)).last_access
}

/// The drop of a guard is one step of a run: it completes the access that
/// left the value under the guard, at the access time the node then shows,
/// and that access time is a reading of the guard's source.
pub proof fn lemma_release_is_visit<T, N: Now>(
    source: &N,
    before: NodeView<T>,
    held: NodeView<T>,
    after: NodeView<T>,
)
    requires
        held == before.holding(held.value),
        is_release(source, held, after),
    ensures
        after == after_visit(before, Visit { left: held.value, reading: after.last_access }),
        call_ensures(N::now, (source,), after.last_access),
{
}

/// Where a source can give one instant only, the drop of a guard on it
/// leaves the node at that instant, whatever the node showed before: an
/// earlier instant and a later one are replaced alike.
pub proof fn lemma_release_from_fixed_source<T, N: Now>(
    source: &N,
    at: Instant,
    held: NodeView<T>,
    after: NodeView<T>,
)
    requires
        forall|reading: Instant| #[trigger]
            call_ensures(N::now, (source,), reading) ==> reading == at,
        is_release(source, held, after),
    ensures
        after == held.released(at),
        after.last_access == at,
        held.last_access == at ==> after == held,
{
}

/// A release records exactly the reading it was given: the node's access
/// time is that reading, whatever the node showed before, and the value is
/// the one the node held when the guard was released.
pub proof fn lemma_release_records_reading<T>(before: NodeView<T>, reading: Instant)
    ensures
        before.released(reading).last_access == reading,
        before.released(reading).value == before.value,
{
}

/// A value written through a guard is the value of the node once the guard
/// has been released, whatever the reading of that release.
pub proof fn lemma_written_value_survives_release<T>(
    before: NodeView<T>,
    written: T,
    reading: Instant,
)
    ensures
        before.holding(written).released(reading).value == written,
        after_visit(before, Visit { left: written, reading }).value == written,
{
}

/// After a run of completed accesses the node shows what the last of them
/// left: its value and the reading of its release.
pub proof fn lemma_last_visit_shows<T>(start: NodeView<T>, visits: Seq<Visit<T>>)
    requires
        visits.len() > 0,
    ensures
        after_visits(start, visits).value == visits.last().left,
        after_visits(start, visits).last_access == visits.last().reading,
{
}

/// The access time read after each completed access is the reading of that
/// access's release: the run of access times is the run of readings.
pub proof fn lemma_stamps_are_readings<T>(start: NodeView<T>, visits: Seq<Visit<T>>)
    ensures
        stamps_read(start, visits).len() == visits.len(),
        forall|i: int|
            0 <= i < visits.len() ==> #[trigger] stamps_read(start, visits)[i]
                == visits[i].reading,
{
    assert forall|i: int| 0 <= i < visits.len() implies #[trigger] stamps_read(start, visits)[i]
        == visits[i].reading by {
        let upto = visits.take(i + 1);
        assert(upto.last() == visits[i]);
        lemma_last_visit_shows(start, upto);
    }
}

/// A guard reports the access time from before its own access. For the
/// first access that is the node's initial instant, for every later one the
/// reading at which the access before it was released; the reading of the
/// guard's own release is not part of it.
pub proof fn lemma_guard_sees_earlier_stamp<T>(start: NodeView<T>, visits: Seq<Visit<T>>, i: int)
    requires
        0 <= i < visits.len(),
    ensures
        i == 0 ==> stamp_seen(start, visits, i) == start.last_access,
        i > 0 ==> stamp_seen(start, visits, i) == visits[i - 1].reading,
        i > 0 ==> stamp_seen(start, visits, i) == stamps_read(start, visits)[i - 1],
{
    if i > 0 {
        let upto = visits.take(i);
        assert(upto.last() == visits[i - 1]);
        lemma_last_visit_shows(start, upto);
        lemma_stamps_are_readings(start, visits);
    }
}

/// Readings that never go back give access times that never go back.
///
/// `no_later` is the order in which the time source's readings are taken to
/// stand. If every reading of a release is no later than the readings of
/// the releases after it, then the access time read after an access is no
/// later than the one read after any following access.
pub proof fn lemma_stamps_keep_order<T>(
    start: NodeView<T>,
    visits: Seq<Visit<T>>,
    no_later: spec_fn(Instant, Instant) -> bool,
)
    requires
        forall|i: int, j: int|
            0 <= i <= j < visits.len() ==> #[trigger] no_later(
                visits[i].reading,
                visits[j].reading,
            ),
    ensures
        forall|i: int, j: int|
            0 <= i <= j < visits.len() ==> #[trigger] no_later(
                stamps_read(start, visits)[i],
                stamps_read(start, visits)[j],
            ),
{
    lemma_stamps_are_readings(start, visits);
    assert forall|i: int, j: int| 0 <= i <= j < visits.len() implies #[trigger] no_later(
        stamps_read(start, visits)[i],
        stamps_read(start, visits)[j],
    ) by {
        assert(no_later(visits[i].reading, visits[j].reading));
    }
}

} // verus!
