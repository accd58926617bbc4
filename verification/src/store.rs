//! In-memory fee history store.
//!
//! `FeeHistoryStore` holds a bounded window of `FeeDataPoint` values
//! collected across polling cycles. When the store is full the oldest
//! entry is evicted before the new one is inserted (ring-buffer semantics
//! backed by `VecDeque`).

use std::collections::VecDeque;

use vstd::prelude::*;

use crate::timestamp::{at_or_after, UtcTimestamp};
use crate::insights::types::FeeDataPoint;

verus! {

/// Default maximum number of data points retained in memory.
pub const DEFAULT_CAPACITY: usize = 10_000;

/// The sequence `s` after a push of `p` into a store of capacity `cap`:
/// when the store is full (and not empty) its oldest point leaves first.
pub open spec fn pushed(s: Seq<FeeDataPoint>, cap: int, p: FeeDataPoint) -> Seq<FeeDataPoint> {
    if s.len() >= cap && s.len() > 0 {
        s.drop_first().push(p)
    } else {
        s.push(p)
    }
}

/// The number of points a store of capacity `cap` can hold: `cap`, but at
/// least one (a push always keeps the point it brings).
pub open spec fn room(cap: int) -> int {
    if cap > 0 {
        cap
    } else {
        1
    }
}

/// The points of `s` whose timestamp is at or after `since`, in order.
pub open spec fn points_since(s: Seq<FeeDataPoint>, since: (int, int)) -> Seq<FeeDataPoint>
    decreases s.len(),
{
    if s.len() == 0 {
        Seq::empty()
    } else {
        let rest = points_since(s.drop_last(), since);
        if at_or_after(s.last().timestamp@, since) {
            rest.push(s.last())
        } else {
            rest
        }
    }
}

/// The `n` most recent points of `s` (all of them when there are fewer),
/// oldest first.
pub open spec fn last_n(s: Seq<FeeDataPoint>, n: int) -> Seq<FeeDataPoint> {
    if n >= s.len() {
        s
    } else {
        s.skip(s.len() - n)
    }
}

/// A store holds the `room(cap)` most recent points ever pushed into it,
/// oldest first: if before a push it holds the most recent of the points
/// `history`, then after pushing `p` it holds the most recent of
/// `history.push(p)`.
pub proof fn law_push_keeps_most_recent(
    history: Seq<FeeDataPoint>,
    cap: int,
    p: FeeDataPoint,
)
    ensures
        pushed(last_n(history, room(cap)), cap, p) == last_n(history.push(p), room(cap)),
{
    let k = room(cap);
    let s = last_n(history, k);
    let h2 = history.push(p);
    if history.len() < k {
        assert(s == history);
        assert(pushed(s, cap, p) =~= h2);
    } else {
        assert(s =~= history.skip(history.len() - k));
        if history.len() == k {
            assert(s =~= history);
        }
        assert(pushed(s, cap, p) =~= h2.skip(h2.len() - k));
    }
}

/// A store never holds more than it has room for, and a push keeps it so.
pub proof fn law_push_stays_bounded(s: Seq<FeeDataPoint>, cap: int, p: FeeDataPoint)
    requires
        s.len() <= room(cap),
    ensures
        pushed(s, cap, p).len() <= room(cap),
{
}

/// The newest point after a push is the point pushed.
pub proof fn law_last_after_push(s: Seq<FeeDataPoint>, cap: int, p: FeeDataPoint)
    ensures
        last_n(pushed(s, cap, p), 1) == seq![p],
{
    let t = pushed(s, cap, p);
    assert(t.last() == p);
    if t.len() > 1 {
        assert(t.skip(t.len() - 1) =~= seq![p]);
    } else {
        assert(t =~= seq![p]);
    }
}

/// `last_n` gives `n` points, or all of them when there are fewer.
pub proof fn law_last_n_len(s: Seq<FeeDataPoint>, n: int)
    requires
        n >= 0,
    ensures
        last_n(s, n).len() == if n < s.len() {
            n
        } else {
            s.len() as int
        },
{
}

/// Every point that `points_since` keeps is at or after the cutoff and is a
/// point of `s`; every point of `s` at or after the cutoff is kept.
pub proof fn law_points_since_exact(s: Seq<FeeDataPoint>, since: (int, int))
    ensures
        forall|i: int|
            0 <= i < points_since(s, since).len() ==> at_or_after(
                (#[trigger] points_since(s, since)[i]).timestamp@,
                since,
            ) && s.contains(points_since(s, since)[i]),
        forall|i: int|
            0 <= i < s.len() && at_or_after((#[trigger] s[i]).timestamp@, since)
                ==> points_since(s, since).contains(s[i]),
    decreases s.len(),
{
    if s.len() > 0 {
        let u = s.drop_last();
        law_points_since_exact(u, since);
        let ps = points_since(s, since);
        let pu = points_since(u, since);
        assert forall|i: int| 0 <= i < ps.len() implies at_or_after(
            (#[trigger] ps[i]).timestamp@,
            since,
        ) && s.contains(ps[i]) by {
            if i < pu.len() {
                assert(ps[i] == pu[i]);
                let j = choose|j: int| 0 <= j < u.len() && u[j] == pu[i];
                assert(s[j] == u[j]);
            } else {
                assert(ps[i] == s.last());
                assert(s[s.len() - 1] == s.last());
            }
        }
        assert forall|i: int|
            0 <= i < s.len() && at_or_after((#[trigger] s[i]).timestamp@, since) implies ps.contains(
            s[i],
        ) by {
            if i < u.len() {
                assert(u[i] == s[i]);
                let j = choose|j: int| 0 <= j < pu.len() && pu[j] == u[i];
                if at_or_after(s.last().timestamp@, since) {
                    assert(ps[j] == pu[j]);
                } else {
                    assert(ps[j] == pu[j]);
                }
            } else {
                assert(ps[ps.len() - 1] == s[i]);
            }
        }
    }
}

/// `points_since` keeps exactly the points of `s` at or after the cutoff, in
/// the order the store holds them: it is `s` filtered by the cutoff.
pub proof fn law_points_since_is_ordered_filter(s: Seq<FeeDataPoint>, since: (int, int))
    ensures
        points_since(s, since) == s.filter(|p: FeeDataPoint| at_or_after(p.timestamp@, since)),
    decreases s.len(),
{
    reveal(Seq::filter);
    if s.len() > 0 {
        law_points_since_is_ordered_filter(s.drop_last(), since);
    }
}

/// The points that `last_n` gives are the newest ones of `s`, in the order
/// the store holds them: its `i`-th point is the `i`-th of the last
/// `min(n, s.len())` points.
pub proof fn law_last_n_is_suffix(s: Seq<FeeDataPoint>, n: int)
    requires
        n >= 0,
    ensures
        forall|i: int|
            0 <= i < last_n(s, n).len() ==> #[trigger] last_n(s, n)[i] == s[s.len() - last_n(
                s,
                n,
            ).len() + i],
{
}

/// Capacity-bounded in-memory store for `FeeDataPoint` values.
#[derive(Debug)]
pub struct FeeHistoryStore {
    data: VecDeque<FeeDataPoint>,
    capacity: usize,
}

impl View for FeeHistoryStore {
    type V = Seq<FeeDataPoint>;

    /// The points held, oldest first.
    closed spec fn view(&self) -> Seq<FeeDataPoint> {
        self.data@
    }
}

impl FeeHistoryStore {
    /// The capacity the store was made with.
    pub closed spec fn cap(&self) -> int {
        self.capacity as int
    }

    #[verifier::type_invariant]
    spec fn inv(self) -> bool {
        self.data@.len() <= room(self.capacity as int)
    }

    /// Create a new store with the given maximum capacity.
    pub fn new(capacity: usize) -> (s: Self)
        ensures
            s@ == Seq::<FeeDataPoint>::empty(),
            s.cap() == capacity,
    {
        FeeHistoryStore { data: VecDeque::new(), capacity }
    }

    /// Append a new data point, evicting the oldest if the store is full.
    pub fn push(&mut self, point: FeeDataPoint)
        ensures
            final(self)@ == pushed(old(self)@, old(self).cap(), point),
            final(self).cap() == old(self).cap(),
            final(self)@.len() <= room(final(self).cap()),
    {
        proof {
            use_type_invariant(&*self);
        }
        let mut data: VecDeque<FeeDataPoint> = VecDeque::new();
        std::mem::swap(&mut data, &mut self.data);
        if data.len() >= self.capacity {
            let _ = data.pop_front();
        }
        data.push_back(point);
        self.data = data;
    }

    /// Return all data points with a timestamp >= `since`, oldest first.
    pub fn get_since(&self, since: UtcTimestamp) -> (r: Vec<FeeDataPoint>)
        ensures
            r@ == points_since(self@, since@),
            r@ == self@.filter(|p: FeeDataPoint| at_or_after(p.timestamp@, since@)),
    {
        let mut out: Vec<FeeDataPoint> = Vec::new();
        let mut i: usize = 0;
        while i < self.data.len()
            invariant
                i <= self.data@.len(),
                out@ == points_since(self.data@.take(i as int), since@),
            decreases self.data@.len() - i,
        {
            let p = &self.data[i];
            proof {
                let pre = self.data@.take(i as int);
                let next = self.data@.take(i + 1);
                assert(next.drop_last() =~= pre);
                assert(next.last() == self.data@[i as int]);
            }
            if p.timestamp.is_at_or_after(&since) {
                out.push(p.clone());
            }
            i = i + 1;
        }
        assert(self.data@.take(self.data@.len() as int) =~= self.data@);
        proof {
            law_points_since_is_ordered_filter(self.data@, since@);
        }
        out
    }

    /// Return the `n` most recent data points, oldest first.
    /// If fewer than `n` points exist, all points are returned.
    pub fn get_last_n(&self, n: usize) -> (r: Vec<FeeDataPoint>)
        ensures
            r@ == last_n(self@, n as int),
    {
        let len = self.data.len();
        let skip = len.saturating_sub(n);
        let mut out: Vec<FeeDataPoint> = Vec::new();
        let mut i: usize = skip;
        while i < len
            invariant
                skip <= i <= len,
                len == self.data@.len(),
                out@ == self.data@.subrange(skip as int, i as int),
            decreases len - i,
        {
            out.push(self.data[i].clone());
            i = i + 1;
            assert(out@ =~= self.data@.subrange(skip as int, i as int));
        }
        assert(out@ =~= last_n(self.data@, n as int));
        out
    }

    /// Number of data points currently held; never more than the store has
    /// room for.
    pub fn len(&self) -> (n: usize)
        ensures
            n == self@.len(),
            n <= room(self.cap()),
    {
        proof {
            use_type_invariant(self);
        }
        self.data.len()
    }

    /// `true` when the store contains no data points.
    pub fn is_empty(&self) -> (b: bool)
        ensures
            b == (self@.len() == 0),
    {
        self.data.len() == 0
    }

    /// Remove all data points from the store.
    pub fn clear(&mut self)
        ensures
            final(self)@ == Seq::<FeeDataPoint>::empty(),
            final(self).cap() == old(self).cap(),
    {
        self.data = VecDeque::new();
    }
}

} // verus!
