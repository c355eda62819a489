use vstd::prelude::*;

use crate::alarm::model::Alarm;
use crate::alarm::store::AlarmStore;
use crate::alarm::store::MergeOutcome;
use crate::alarm::store::merge_all;
use crate::alarm::store::merge_spec;
use crate::net::config::FETCH_REQUEST_QUEUE_DEPTH;
use crate::net::facade::NetworkError;

verus! {

/// Which trigger won a coordinator cycle's race: the periodic timer or a
/// manual "fetch now" request.
#[derive(Debug, Clone, Copy, PartialEq, Eq, Structural)]
pub enum FetchTrigger {
    Periodic,
    Manual,
}

/// The outcomes of merging a whole batch, one per record, first record first.
pub open spec fn merge_outcomes(s: Seq<Alarm>, cap: int, batch: Seq<Alarm>) -> Seq<MergeOutcome>
    decreases batch.len(),
{
    if batch.len() == 0 {
        Seq::empty()
    } else {
        seq![merge_spec(s, cap, batch[0]).1] + merge_outcomes(
            merge_spec(s, cap, batch[0]).0,
            cap,
            batch.drop_first(),
        )
    }
}

/// Merging a batch and then one more record merges that record into the
/// batch's result.
pub proof fn lemma_merge_all_push(s: Seq<Alarm>, cap: int, b: Seq<Alarm>, x: Alarm)
    ensures
        merge_all(s, cap, b.push(x)) == merge_spec(merge_all(s, cap, b), cap, x).0,
    decreases b.len(),
{
    if b.len() == 0 {
        assert(b.push(x)[0] == x);
        assert(b.push(x).drop_first() =~= Seq::<Alarm>::empty());
        assert(merge_all(merge_spec(s, cap, x).0, cap, Seq::<Alarm>::empty()) == merge_spec(
            s,
            cap,
            x,
        ).0);
    } else {
        assert(b.push(x)[0] == b[0]);
        assert(b.push(x).drop_first() =~= b.drop_first().push(x));
        lemma_merge_all_push(merge_spec(s, cap, b[0]).0, cap, b.drop_first(), x);
    }
}

/// The same, for the outcome list: one more record appends its outcome.
pub proof fn lemma_merge_outcomes_push(s: Seq<Alarm>, cap: int, b: Seq<Alarm>, x: Alarm)
    ensures
        merge_outcomes(s, cap, b.push(x)) =~= merge_outcomes(s, cap, b).push(
            merge_spec(merge_all(s, cap, b), cap, x).1,
        ),
    decreases b.len(),
{
    if b.len() == 0 {
        assert(b.push(x)[0] == x);
        assert(b.push(x).drop_first() =~= Seq::<Alarm>::empty());
        assert(merge_outcomes(merge_spec(s, cap, x).0, cap, Seq::<Alarm>::empty()) =~= Seq::<
            MergeOutcome,
        >::empty());
        assert(merge_all(s, cap, Seq::<Alarm>::empty()) == s);
    } else {
        assert(b.push(x)[0] == b[0]);
        assert(b.push(x).drop_first() =~= b.drop_first().push(x));
        lemma_merge_all_push(s, cap, b, x);
        lemma_merge_outcomes_push(merge_spec(s, cap, b[0]).0, cap, b.drop_first(), x);
    }
}

/// One coordinator cycle's application step: merge every decoded record into
/// the store, in order, or — on a fetch or decode failure — change nothing.
/// A failed cycle is reported back unchanged; a successful one reports what
/// each record's merge did.
pub fn apply_fetch_result(store: &mut AlarmStore, fetched: Result<Vec<Alarm>, NetworkError>) -> (r:
    Result<Vec<MergeOutcome>, NetworkError>)
    requires
        old(store).wf(),
    ensures
        final(store).wf(),
        final(store).spec_capacity() == old(store).spec_capacity(),
        fetched matches Err(e) ==> *final(store) == *old(store) && r == Err::<
            Vec<MergeOutcome>,
            NetworkError,
        >(e),
        fetched matches Ok(batch) ==> (final(store)@ == merge_all(
            old(store)@,
            old(store).spec_capacity(),
            batch@,
        ) && (r matches Ok(out) && out@ == merge_outcomes(
            old(store)@,
            old(store).spec_capacity(),
            batch@,
        ))),
{
    match fetched {
        Err(e) => Err(e),
        Ok(mut batch) => {
            let ghost orig_batch = batch@;
            let ghost s0 = store@;
            let ghost cap = store.spec_capacity();
            let ghost mut k: int = 0;
            let mut outcomes: Vec<MergeOutcome> = Vec::new();
            while batch.len() > 0
                invariant
                    store.wf(),
                    store.spec_capacity() == cap,
                    0 <= k <= orig_batch.len(),
                    batch@ =~= orig_batch.skip(k),
                    store@ == merge_all(s0, cap, orig_batch.take(k)),
                    outcomes@ == merge_outcomes(s0, cap, orig_batch.take(k)),
                decreases batch@.len(),
            {
                let x = batch.remove(0);
                let ghost xg = x;
                proof {
                    assert(xg == orig_batch[k]);
                    assert(orig_batch.take(k + 1) =~= orig_batch.take(k).push(xg));
                    assert(batch@ =~= orig_batch.skip(k + 1));
                }
                let o = store.merge(x);
                outcomes.push(o);
                proof {
                    lemma_merge_all_push(s0, cap, orig_batch.take(k), xg);
                    lemma_merge_outcomes_push(s0, cap, orig_batch.take(k), xg);
                    k = k + 1;
                }
            }
            proof {
                assert(orig_batch.take(k) =~= orig_batch);
            }
            Ok(outcomes)
        },
    }
}

/// The capacity-bounded queue of manual "fetch now" request signals.  Excess
/// requests while the queue is full are dropped, not queued unboundedly.
pub struct FetchRequestQueue {
    pending: u8,
}

impl FetchRequestQueue {
    /// How many request signals are queued.
    pub closed spec fn spec_pending(&self) -> int {
        self.pending as int
    }

    /// The queue never holds more signals than its depth.
    pub open spec fn wf(&self) -> bool {
        self.spec_pending() <= FETCH_REQUEST_QUEUE_DEPTH
    }

    pub fn new() -> (r: FetchRequestQueue)
        ensures
            r.spec_pending() == 0,
            r.wf(),
    {
        FetchRequestQueue { pending: 0 }
    }

    /// Signal a manual fetch request: queued while there is room, dropped
    /// otherwise.
    pub fn request(&mut self) -> (accepted: bool)
        requires
            old(self).wf(),
        ensures
            final(self).wf(),
            old(self).spec_pending() < FETCH_REQUEST_QUEUE_DEPTH ==> accepted
                && final(self).spec_pending() == old(self).spec_pending() + 1,
            old(self).spec_pending() == FETCH_REQUEST_QUEUE_DEPTH ==> !accepted && *final(self)
                == *old(self),
    {
        if self.pending < FETCH_REQUEST_QUEUE_DEPTH {
            self.pending = self.pending + 1;
            true
        } else {
            false
        }
    }

    /// Consume one queued request signal, if any.
    pub fn take(&mut self) -> (had: bool)
        requires
            old(self).wf(),
        ensures
            final(self).wf(),
            old(self).spec_pending() > 0 ==> had
                && final(self).spec_pending() == old(self).spec_pending() - 1,
            old(self).spec_pending() == 0 ==> !had && *final(self) == *old(self),
    {
        if self.pending > 0 {
            self.pending = self.pending - 1;
            true
        } else {
            false
        }
    }
}

} // verus!
