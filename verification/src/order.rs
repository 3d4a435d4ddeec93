//! Newest-first ordering of timestamped records, shared by every ledger
//! view the service exposes.

use vstd::prelude::*;

verus! {

/// A record ordered by a millisecond timestamp.
pub trait Timestamped: Sized {
    /// The timestamp the ordering goes by.
    spec fn time(&self) -> int;

    /// The timestamp as a plain value.
    fn time_exec(&self) -> (t: i64)
        ensures
            t as int == self.time(),
    ;
}

/// Newest first: timestamps never increase along the sequence.
pub open spec fn sorted_by_time_desc<T: Timestamped>(s: Seq<T>) -> bool {
    forall|i: int, j: int| 0 <= i <= j < s.len() ==> s[i].time() >= s[j].time()
}

/// Sort records newest-first. The result holds exactly the records that
/// went in; records with equal timestamps may come out in either order, as
/// the timestamp gives no further ordering.
pub fn sort_by_time_desc<T: Timestamped>(items: Vec<T>) -> (r: Vec<T>)
    ensures
        r@.to_multiset() == items@.to_multiset(),
        sorted_by_time_desc(r@),
{
    let mut pending = items;
    let ghost orig = pending@;
    let mut out: Vec<T> = Vec::new();
    proof {
        broadcast use vstd::seq_lib::group_to_multiset_ensures;

        assert(out@.to_multiset().add(pending@.to_multiset()) =~= orig.to_multiset());
    }
    while pending.len() > 0
        invariant
            out@.to_multiset().add(pending@.to_multiset()) == orig.to_multiset(),
            sorted_by_time_desc(out@),
            forall|i: int, j: int|
                0 <= i < out@.len() && 0 <= j < pending@.len() ==> out@[i].time()
                    >= pending@[j].time(),
        decreases pending@.len(),
    {
        let m: usize = pending.len();
        let mut best: usize = 0;
        for k in 1..m
            invariant
                m == pending@.len(),
                best < m,
                forall|j: int| 0 <= j < k ==> pending@[best as int].time() >= pending@[j].time(),
        {
            if pending[k].time_exec() > pending[best].time_exec() {
                best = k;
            }
        }
        let item = pending.remove(best);
        proof {
            broadcast use vstd::seq_lib::group_to_multiset_ensures;

            assert(out@.to_multiset().add(pending@.to_multiset()).insert(item)
                =~= orig.to_multiset());
            assert(out@.push(item).to_multiset() =~= out@.to_multiset().insert(item));
            assert(out@.push(item).to_multiset().add(pending@.to_multiset())
                =~= orig.to_multiset());
            assert(forall|j: int| 0 <= j < pending@.len() ==> item.time() >= pending@[j].time());
        }
        out.push(item);
    }
    out
}

} // verus!
