//! Sequence ids: the sender's counter and the receiver's duplicate filter.
//!
//! The filter does not reorder. It lets an id through when it is larger than
//! the last one let through, or when it is the one step back that the
//! sender's counter takes at the end of a cycle: from a non-negative id to a
//! negative one.

use vstd::prelude::*;

verus! {

/// The id of the first packet a sender transmits.
pub const FIRST_ID: i64 = -1;

/// The id a sender's counter falls back to at the end of a cycle.
pub const ROLLOVER_ID: i64 = -2;

/// The largest id a sender transmits before its counter falls back.
pub const LAST_ID: i64 = i64::MAX - 16;

/// Whether a filter that last let `last` through lets `x` through.
pub open spec fn accepts(last: Option<i64>, x: i64) -> bool {
    match last {
        None => true,
        Some(l) => x > l || (l >= 0 && x < 0),
    }
}

/// What a filter remembers after it was shown `x`.
pub open spec fn last_after(last: Option<i64>, x: i64) -> Option<i64> {
    if accepts(last, x) {
        Some(x)
    } else {
        last
    }
}

/// What a filter remembers after it was shown all of `ids` in order.
pub open spec fn last_after_all(last: Option<i64>, ids: Seq<i64>) -> Option<i64>
    decreases ids.len(),
{
    if ids.len() == 0 {
        last
    } else {
        last_after(last_after_all(last, ids.drop_last()), ids.last())
    }
}

/// Whether the `i`-th of `ids` is let through by a filter that started from
/// `last` and was shown the ids before it.
pub open spec fn accepted_at(last: Option<i64>, ids: Seq<i64>, i: int) -> bool
    recommends
        0 <= i < ids.len(),
{
    accepts(last_after_all(last, ids.take(i)), ids[i])
}

/// The id that follows `id` on the sender.
pub open spec fn next_id(id: i64) -> i64 {
    if id >= LAST_ID {
        ROLLOVER_ID
    } else {
        (id + 1) as i64
    }
}

/// The id that the sender reaches `n` packets after `id`.
pub open spec fn id_after(id: i64, n: nat) -> i64
    decreases n,
{
    if n == 0 {
        id
    } else {
        next_id(id_after(id, (n - 1) as nat))
    }
}

/// Whether every id is smaller than the one after it.
pub open spec fn strictly_increasing(ids: Seq<i64>) -> bool {
    forall|i: int, j: int| 0 <= i < j < ids.len() ==> ids[i] < ids[j]
}

/// The receiver's duplicate and stale-packet filter.
#[derive(Clone, Copy, Debug)]
pub struct SequenceTracker {
    last_accepted: Option<i64>,
}

impl SequenceTracker {
    /// The id last let through, if any.
    pub closed spec fn last(&self) -> Option<i64> {
        self.last_accepted
    }

    /// A filter that has let nothing through yet.
    pub fn new() -> (tracker: Self)
        ensures
            tracker.last() is None,
    {
        SequenceTracker { last_accepted: None }
    }

    /// Shows `x` to the filter. Returns whether the packet is to be kept;
    /// when it is, `x` becomes the id last let through.
    pub fn accept(&mut self, x: i64) -> (kept: bool)
        ensures
            kept == accepts(old(self).last(), x),
            final(self).last() == last_after(old(self).last(), x),
    {
        let kept = match self.last_accepted {
            None => true,
            Some(l) => x > l || (l >= 0 && x < 0),
        };
        if kept {
            self.last_accepted = Some(x);
        }
        kept
    }

    /// The id last let through, if any.
    pub fn last_accepted(&self) -> (last: Option<i64>)
        ensures
            last == self.last(),
    {
        self.last_accepted
    }
}

/// The sender's per-packet counter.
#[derive(Clone, Copy, Debug)]
pub struct SequenceCounter {
    next: i64,
}

impl SequenceCounter {
    /// The id that the next packet carries.
    pub closed spec fn upcoming(&self) -> i64 {
        self.next
    }

    /// A counter whose first id is `FIRST_ID`.
    pub fn new() -> (counter: Self)
        ensures
            counter.upcoming() == FIRST_ID,
    {
        SequenceCounter { next: FIRST_ID }
    }

    /// A counter whose first id is `id`.
    pub fn starting_at(id: i64) -> (counter: Self)
        ensures
            counter.upcoming() == id,
    {
        SequenceCounter { next: id }
    }

    /// The id that the next packet carries.
    pub fn peek(&self) -> (id: i64)
        ensures
            id == self.upcoming(),
    {
        self.next
    }

    /// Takes the id for one packet and moves the counter on.
    pub fn advance(&mut self) -> (id: i64)
        ensures
            id == old(self).upcoming(),
            final(self).upcoming() == next_id(old(self).upcoming()),
    {
        let id = self.next;
        if id >= LAST_ID {
            self.next = ROLLOVER_ID;
        } else {
            self.next = id + 1;
        }
        id
    }
}

/// A filter that is shown a strictly increasing run ends up remembering the
/// last id of the run, provided the run starts above what it remembered.
proof fn lemma_increasing_run(last: Option<i64>, ids: Seq<i64>)
    requires
        strictly_increasing(ids),
        ids.len() > 0,
        last matches Some(l) ==> l < ids[0],
    ensures
        last_after_all(last, ids) == Some(ids.last()),
    decreases ids.len(),
{
    let front = ids.drop_last();
    if front.len() > 0 {
        lemma_increasing_run(last, front);
        assert(front.last() == ids[ids.len() - 2]);
    } else {
        assert(last_after_all(last, front) == last);
    }
}

/// Every id of a strictly increasing run is let through by a filter that has
/// let nothing through before.
pub proof fn lemma_increasing_all_accepted(ids: Seq<i64>)
    requires
        strictly_increasing(ids),
    ensures
        forall|i: int| 0 <= i < ids.len() ==> accepted_at(None, ids, i),
{
    assert forall|i: int| 0 <= i < ids.len() implies accepted_at(None, ids, i) by {
        let seen = ids.take(i);
        if i > 0 {
            lemma_increasing_run(None, seen);
            assert(seen.last() == ids[i - 1]);
        }
    }
}

/// Every id of a strictly increasing run is let through by a filter that
/// last let through something below the run.
pub proof fn lemma_increasing_continues(last: i64, ids: Seq<i64>)
    requires
        strictly_increasing(ids),
        ids.len() > 0 ==> last < ids[0],
    ensures
        forall|i: int| 0 <= i < ids.len() ==> accepted_at(Some(last), ids, i),
{
    assert forall|i: int| 0 <= i < ids.len() implies accepted_at(Some(last), ids, i) by {
        let seen = ids.take(i);
        if i > 0 {
            lemma_increasing_run(Some(last), seen);
            assert(seen.last() == ids[i - 1]);
        }
    }
}

/// Once a strictly increasing run went through a fresh filter, a second
/// copy of any of its ids is dropped, unless the run has climbed from
/// negative ids to non-negative ones and the copy is of a negative one.
pub proof fn lemma_replay_rejected(ids: Seq<i64>, i: int)
    requires
        strictly_increasing(ids),
        0 <= i < ids.len(),
        ids.last() < 0 || ids[i] >= 0,
    ensures
        !accepts(last_after_all(None, ids), ids[i]),
{
    lemma_increasing_run(None, ids);
}

/// An id that repeats the last one let through is dropped.
pub proof fn lemma_repeat_rejected(last: i64)
    ensures
        !accepts(Some(last), last),
{
}

/// An id below the last one let through is dropped, unless it is the step
/// from a non-negative id to a negative one.
pub proof fn lemma_decrease_rejected(last: i64, x: i64)
    requires
        x < last,
        last < 0 || x >= 0,
    ensures
        !accepts(Some(last), x),
        last_after(Some(last), x) == Some(last),
{
}

/// The step from a non-negative id to a negative one is let through once: a
/// second packet with the same negative id is dropped.
pub proof fn lemma_rollover_once(last: i64, x: i64)
    requires
        last >= 0,
        x < 0,
    ensures
        accepts(Some(last), x),
        !accepts(last_after(Some(last), x), x),
{
}

/// The ids that a counter started at `FIRST_ID` produces stay between
/// `ROLLOVER_ID` and `LAST_ID`.
pub proof fn lemma_counter_range(n: nat)
    ensures
        ROLLOVER_ID <= id_after(FIRST_ID, n) <= LAST_ID,
    decreases n,
{
    if n > 0 {
        lemma_counter_range((n - 1) as nat);
    }
}

/// The sender's counter and the receiver's filter agree: whatever id the
/// filter last let through from a sender's cycle, it lets the sender's next
/// id through, and drops that id when it comes a second time.
pub proof fn lemma_counter_matches_filter(id: i64)
    requires
        ROLLOVER_ID <= id <= LAST_ID,
    ensures
        accepts(Some(id), next_id(id)),
        !accepts(last_after(Some(id), next_id(id)), next_id(id)),
        ROLLOVER_ID <= next_id(id) <= LAST_ID,
{
}

/// The ids of the first `n` packets of a sender.
pub open spec fn sender_ids(n: nat) -> Seq<i64> {
    Seq::new(n, |k: int| id_after(FIRST_ID, k as nat))
}

/// A receiver that hears every packet of a sender, in order and from the
/// sender's first, keeps every one of them.
pub proof fn lemma_sender_stream_accepted(n: nat)
    ensures
        n > 0 ==> last_after_all(None, sender_ids(n)) == Some(id_after(FIRST_ID, (n - 1) as nat)),
        forall|i: int| 0 <= i < n ==> #[trigger] accepted_at(None, sender_ids(n), i),
    decreases n,
{
    let ids = sender_ids(n);
    if n > 0 {
        let m = (n - 1) as nat;
        let front = sender_ids(m);
        lemma_sender_stream_accepted(m);
        assert(ids.drop_last() =~= front);
        if m > 0 {
            lemma_counter_range((m - 1) as nat);
            lemma_counter_matches_filter(id_after(FIRST_ID, (m - 1) as nat));
        }
        assert(last_after_all(None, ids) == Some(id_after(FIRST_ID, m)));
        assert forall|i: int| 0 <= i < n implies #[trigger] accepted_at(None, ids, i) by {
            if i < m {
                assert(ids.take(i) =~= front.take(i));
                assert(accepted_at(None, front, i));
            } else {
                assert(ids.take(i) =~= front);
            }
        }
    }
}

} // verus!
