use vstd::prelude::*;

use crate::alarm::model::Alarm;

verus! {

/// What one merge did: replaced the entry with the same id, appended a new
/// entry, or dropped the alarm because the store was full and the id unknown.
#[derive(Debug, Clone, Copy, PartialEq, Eq, Structural)]
pub enum MergeOutcome {
    Updated,
    Added,
    RejectedFull,
}

/// The identity of an alarm: its id string.
pub open spec fn alarm_id(a: Alarm) -> Seq<char> {
    a.id@
}

/// Whether some entry of `s` carries the id `id`.
pub open spec fn has_id(s: Seq<Alarm>, id: Seq<char>) -> bool {
    exists|i: int| 0 <= i < s.len() && alarm_id(#[trigger] s[i]) == id
}

/// Every id occurs at most once in `s`.
pub open spec fn unique_ids(s: Seq<Alarm>) -> bool {
    forall|i: int, j: int|
        0 <= i < j < s.len() ==> alarm_id(#[trigger] s[i]) != alarm_id(#[trigger] s[j])
}

/// `s` with every entry whose id equals `x`'s replaced by `x` (under id
/// uniqueness that is the one matching entry), all others unchanged.
pub open spec fn update_matching(s: Seq<Alarm>, x: Alarm) -> Seq<Alarm> {
    Seq::new(
        s.len(),
        |i: int|
            if alarm_id(s[i]) == alarm_id(x) {
                x
            } else {
                s[i]
            },
    )
}

/// The merge rule of the store: last write wins per id; a new id is appended
/// while there is free capacity and rejected once the store is full.
pub open spec fn merge_spec(s: Seq<Alarm>, cap: int, x: Alarm) -> (Seq<Alarm>, MergeOutcome) {
    if has_id(s, alarm_id(x)) {
        (update_matching(s, x), MergeOutcome::Updated)
    } else if s.len() < cap {
        (s.push(x), MergeOutcome::Added)
    } else {
        (s, MergeOutcome::RejectedFull)
    }
}

/// The store after merging a whole batch, first record first.
pub open spec fn merge_all(s: Seq<Alarm>, cap: int, batch: Seq<Alarm>) -> Seq<Alarm>
    decreases batch.len(),
{
    if batch.len() == 0 {
        s
    } else {
        merge_all(merge_spec(s, cap, batch[0]).0, cap, batch.drop_first())
    }
}

/// Bounded, id-keyed collection of alarm definitions.  Created empty at boot;
/// entries are merged in one at a time as they arrive; never deleted except
/// by capacity pressure; cleared only by restart.
pub struct AlarmStore {
    entries: Vec<Alarm>,
    capacity: usize,
}

impl View for AlarmStore {
    type V = Seq<Alarm>;

    closed spec fn view(&self) -> Seq<Alarm> {
        self.entries@
    }
}

impl AlarmStore {
    /// The fixed maximum number of entries.
    pub closed spec fn spec_capacity(&self) -> int {
        self.capacity as int
    }

    /// The store never exceeds its capacity and never holds an id twice.
    pub open spec fn wf(&self) -> bool {
        self@.len() <= self.spec_capacity() && unique_ids(self@)
    }

    pub fn new(capacity: usize) -> (r: AlarmStore)
        ensures
            r@ == Seq::<Alarm>::empty(),
            r.spec_capacity() == capacity,
            r.wf(),
    {
        AlarmStore { entries: Vec::new(), capacity }
    }

    pub fn capacity(&self) -> (c: usize)
        ensures
            c == self.spec_capacity(),
    {
        self.capacity
    }

    pub fn len(&self) -> (n: usize)
        ensures
            n == self@.len(),
    {
        self.entries.len()
    }

    pub fn get(&self, i: usize) -> (a: &Alarm)
        requires
            i < self@.len(),
        ensures
            *a == self@[i as int],
    {
        &self.entries[i]
    }

    /// Merge one alarm record: replace the entry with the same id in place,
    /// else append while there is free capacity, else reject the record.
    pub fn merge(&mut self, x: Alarm) -> (r: MergeOutcome)
        requires
            old(self).wf(),
        ensures
            final(self).wf(),
            final(self).spec_capacity() == old(self).spec_capacity(),
            final(self)@ == merge_spec(old(self)@, old(self).spec_capacity(), x).0,
            r == merge_spec(old(self)@, old(self).spec_capacity(), x).1,
            final(self)@.len() <= old(self).spec_capacity(),
    {
        let n = self.entries.len();
        let mut i: usize = 0;
        while i < n
            invariant
                old(self).wf(),
                *self == *old(self),
                n == self.entries@.len(),
                i <= n,
                forall|j: int| 0 <= j < i ==> alarm_id(#[trigger] self.entries@[j]) != alarm_id(x),
            decreases n - i,
        {
            if self.entries[i].id == x.id {
                proof {
                    assert(alarm_id(old(self)@[i as int]) == alarm_id(x));
                    assert(has_id(old(self)@, alarm_id(x)));
                }
                self.entries.set(i, x);
                proof {
                    let s = old(self)@;
                    assert forall|j: int| 0 <= j < s.len() implies self.entries@[j]
                        == update_matching(s, x)[j] by {
                        if j != i {
                            assert(alarm_id(s[j]) != alarm_id(s[i as int]));
                        }
                    }
                    assert(self.entries@ =~= update_matching(s, x));
                    assert forall|p: int, q: int|
                        0 <= p < q < self.entries@.len() implies alarm_id(self.entries@[p])
                        != alarm_id(self.entries@[q]) by {
                        assert(alarm_id(self.entries@[p]) == alarm_id(s[p]));
                        assert(alarm_id(self.entries@[q]) == alarm_id(s[q]));
                    }
                }
                return MergeOutcome::Updated;
            }
            i += 1;
        }
        proof {
            assert(!has_id(old(self)@, alarm_id(x)));
        }
        if self.entries.len() < self.capacity {
            self.entries.push(x);
            proof {
                let s = old(self)@;
                assert forall|p: int, q: int|
                    0 <= p < q < self.entries@.len() implies alarm_id(self.entries@[p])
                    != alarm_id(self.entries@[q]) by {
                    if q < s.len() {
                    } else {
                        assert(alarm_id(self.entries@[q]) == alarm_id(x));
                        assert(alarm_id(self.entries@[p]) == alarm_id(s[p]));
                        if alarm_id(s[p]) == alarm_id(x) {
                            assert(has_id(s, alarm_id(x)));
                        }
                    }
                }
            }
            return MergeOutcome::Added;
        }
        MergeOutcome::RejectedFull
    }
}

/// One merge keeps the store well formed: at most `cap` entries, each id at
/// most once.
pub proof fn lemma_merge_preserves_wf(s: Seq<Alarm>, cap: int, x: Alarm)
    requires
        unique_ids(s),
        s.len() <= cap,
    ensures
        unique_ids(merge_spec(s, cap, x).0),
        merge_spec(s, cap, x).0.len() <= cap,
{
    let t = merge_spec(s, cap, x).0;
    if has_id(s, alarm_id(x)) {
        let w = choose|i: int| 0 <= i < s.len() && alarm_id(#[trigger] s[i]) == alarm_id(x);
        assert forall|p: int, q: int| 0 <= p < q < t.len() implies alarm_id(t[p]) != alarm_id(
            t[q],
        ) by {
            assert(alarm_id(t[p]) == alarm_id(s[p]));
            assert(alarm_id(t[q]) == alarm_id(s[q]));
        }
    } else if s.len() < cap {
        assert forall|p: int, q: int| 0 <= p < q < t.len() implies alarm_id(t[p]) != alarm_id(
            t[q],
        ) by {
            if q == s.len() {
                if alarm_id(s[p]) == alarm_id(x) {
                    assert(has_id(s, alarm_id(x)));
                }
            }
        }
    }
}

/// Whether exactly one entry of `t` carries `x`'s id, and that entry is `x`
/// itself.
pub open spec fn sole_entry(t: Seq<Alarm>, x: Alarm) -> bool {
    exists|i: int|
        {
            &&& 0 <= i < t.len()
            &&& #[trigger] t[i] == x
            &&& forall|j: int| 0 <= j < t.len() && j != i ==> alarm_id(t[j]) != alarm_id(x)
        }
}

/// Merge idempotence: merging the same alarm twice in a row leaves exactly
/// the store that the first merge left; and whenever the record was not
/// rejected, exactly one entry carries its id and holds its latest values.
pub proof fn lemma_merge_idempotent(s: Seq<Alarm>, cap: int, x: Alarm)
    requires
        unique_ids(s),
        s.len() <= cap,
    ensures
        merge_spec(merge_spec(s, cap, x).0, cap, x).0 == merge_spec(s, cap, x).0,
        merge_spec(s, cap, x).1 != MergeOutcome::RejectedFull ==> sole_entry(
            merge_spec(merge_spec(s, cap, x).0, cap, x).0,
            x,
        ),
{
    let s1 = merge_spec(s, cap, x).0;
    lemma_merge_preserves_wf(s, cap, x);
    if has_id(s, alarm_id(x)) {
        let w = choose|i: int| 0 <= i < s.len() && alarm_id(#[trigger] s[i]) == alarm_id(x);
        assert(s1[w] == x);
        assert(has_id(s1, alarm_id(x)));
        assert(merge_spec(s1, cap, x).0 =~= s1);
        assert forall|j: int| 0 <= j < s1.len() && j != w implies alarm_id(s1[j]) != alarm_id(
            x,
        ) by {
            assert(alarm_id(s1[j]) == alarm_id(s[j]));
            assert(alarm_id(s1[w]) == alarm_id(s[w]));
        }
        assert(sole_entry(merge_spec(merge_spec(s, cap, x).0, cap, x).0, x));
    } else if s.len() < cap {
        let w = s.len() as int;
        assert(s1[w] == x);
        assert(has_id(s1, alarm_id(x)));
        assert(merge_spec(s1, cap, x).0 =~= s1);
        assert forall|j: int| 0 <= j < s1.len() && j != w implies alarm_id(s1[j]) != alarm_id(
            x,
        ) by {
            if alarm_id(s[j]) == alarm_id(x) {
                assert(has_id(s, alarm_id(x)));
            }
        }
        assert(sole_entry(merge_spec(merge_spec(s, cap, x).0, cap, x).0, x));
    }
}

/// Capacity bound: however long the incoming batch, merging never grows the
/// store past its capacity, and ids stay unique.
pub proof fn lemma_capacity_bound(s: Seq<Alarm>, cap: int, batch: Seq<Alarm>)
    requires
        unique_ids(s),
        s.len() <= cap,
    ensures
        merge_all(s, cap, batch).len() <= cap,
        unique_ids(merge_all(s, cap, batch)),
    decreases batch.len(),
{
    if batch.len() > 0 {
        lemma_merge_preserves_wf(s, cap, batch[0]);
        lemma_capacity_bound(merge_spec(s, cap, batch[0]).0, cap, batch.drop_first());
    }
}

} // verus!
