//! The reassociation heap: a priority structure over pending submissions,
//! ordered by ascending timestamp with insertion order as tiebreak, used to
//! recover per-input metadata for decoder outputs.

use vstd::prelude::*;

use crate::frame::PendingEntry;

verus! {

/// The index of the entry the heap yields next: the earliest-inserted entry
/// among those with the smallest timestamp.
pub open spec fn min_index<S>(s: Seq<PendingEntry<S>>) -> int
    recommends
        s.len() > 0,
    decreases s.len(),
{
    if s.len() <= 1 {
        0
    } else {
        let rest = 1 + min_index(s.subrange(1, s.len() as int));
        if s[0].timestamp <= s[rest].timestamp {
            0
        } else {
            rest
        }
    }
}

/// The heap-update rule applied before each decode call: push the incoming
/// unit's metadata unless the heap's minimum already carries the same
/// timestamp (a repeated-timestamp submission, e.g. one coded picture split
/// over several chunks).
pub open spec fn record_rule<S>(s: Seq<PendingEntry<S>>, e: PendingEntry<S>) -> Seq<
    PendingEntry<S>,
> {
    if s.len() > 0 && s[min_index(s)].timestamp == e.timestamp {
        s
    } else {
        s.push(e)
    }
}

/// `min_index` lands in bounds and names an entry of minimal timestamp.
pub proof fn lemma_min_index_bounds<S>(s: Seq<PendingEntry<S>>)
    requires
        s.len() > 0,
    ensures
        0 <= min_index(s) < s.len(),
        forall|i: int| 0 <= i < s.len() ==> s[min_index(s)].timestamp <= (#[trigger] s[i]).timestamp,
    decreases s.len(),
{
    if s.len() > 1 {
        let tail = s.subrange(1, s.len() as int);
        lemma_min_index_bounds(tail);
        assert forall|i: int| 0 <= i < s.len() implies s[min_index(s)].timestamp
            <= (#[trigger] s[i]).timestamp by {
            if i >= 1 {
                assert(tail[i - 1] == s[i]);
                assert(tail[min_index(tail)] == s[1 + min_index(tail)]);
            }
        }
    }
}

/// `min_index` names the earliest entry of minimal timestamp: everything
/// before it is strictly later.
pub proof fn lemma_min_index_first<S>(s: Seq<PendingEntry<S>>)
    requires
        s.len() > 0,
    ensures
        forall|j: int| 0 <= j < min_index(s) ==> (#[trigger] s[j]).timestamp > s[min_index(s)].timestamp,
    decreases s.len(),
{
    lemma_min_index_bounds(s);
    if s.len() > 1 {
        let tail = s.subrange(1, s.len() as int);
        lemma_min_index_bounds(tail);
        lemma_min_index_first(tail);
        assert forall|j: int|
            0 <= j < min_index(s) implies (#[trigger] s[j]).timestamp > s[min_index(s)].timestamp by {
            if j >= 1 {
                assert(tail[j - 1] == s[j]);
                assert(tail[min_index(tail)] == s[1 + min_index(tail)]);
            } else {
                assert(tail[min_index(tail)] == s[1 + min_index(tail)]);
            }
        }
    }
}

/// Any in-bounds position that is minimal and has only strictly later
/// entries before it is `min_index`.
pub proof fn lemma_min_index_unique<S>(s: Seq<PendingEntry<S>>, m: int)
    requires
        0 <= m < s.len(),
        forall|i: int| 0 <= i < s.len() ==> s[m].timestamp <= (#[trigger] s[i]).timestamp,
        forall|j: int| 0 <= j < m ==> (#[trigger] s[j]).timestamp > s[m].timestamp,
    ensures
        m == min_index(s),
{
    lemma_min_index_bounds(s);
    lemma_min_index_first(s);
    let n = min_index(s);
    assert(s[m].timestamp <= s[n].timestamp);
    assert(s[n].timestamp <= s[m].timestamp);
    if m < n {
        assert(s[m].timestamp > s[n].timestamp);
    } else if n < m {
        assert(s[n].timestamp > s[m].timestamp);
    }
}

/// The priority structure that orders pending submissions by timestamp. It
/// behaves as a min-heap over timestamp; entries sharing a timestamp leave
/// in insertion order.
pub struct ReassocHeap<S> {
    entries: Vec<PendingEntry<S>>,
}

impl<S> View for ReassocHeap<S> {
    type V = Seq<PendingEntry<S>>;

    closed spec fn view(&self) -> Seq<PendingEntry<S>> {
        self.entries@
    }
}

impl<S> ReassocHeap<S> {
    /// An empty heap.
    pub fn new() -> (r: ReassocHeap<S>)
        ensures
            r@ == Seq::<PendingEntry<S>>::empty(),
    {
        ReassocHeap { entries: Vec::new() }
    }

    /// How many submissions are pending.
    pub fn len(&self) -> (n: usize)
        ensures
            n == self@.len(),
    {
        self.entries.len()
    }

    /// Whether no submission is pending.
    pub fn is_empty(&self) -> (r: bool)
        ensures
            r == (self@.len() == 0),
    {
        self.entries.len() == 0
    }

    /// Retains one more pending submission.
    pub fn push(&mut self, e: PendingEntry<S>)
        ensures
            final(self)@ == old(self)@.push(e),
    {
        self.entries.push(e);
    }

    /// The timestamp the heap would yield next, or `None` when it is empty.
    pub fn min_timestamp(&self) -> (r: Option<u64>)
        ensures
            self@.len() == 0 ==> r is None,
            self@.len() > 0 ==> r == Some(self@[min_index(self@)].timestamp),
    {
        if self.entries.len() == 0 {
            return None;
        }
        let idx = self.position_of_min();
        proof {
            lemma_min_index_bounds(self@);
        }
        Some(self.entries[idx].timestamp)
    }

    /// Removes and returns the pending entry with the smallest timestamp
    /// (earliest-inserted among equals), or `None` when the heap is empty.
    pub fn pop_min(&mut self) -> (r: Option<PendingEntry<S>>)
        ensures
            old(self)@.len() == 0 ==> r is None && final(self)@ == old(self)@,
            old(self)@.len() > 0 ==> r == Some(old(self)@[min_index(old(self)@)])
                && final(self)@ == old(self)@.remove(min_index(old(self)@)),
    {
        if self.entries.len() == 0 {
            return None;
        }
        let idx = self.position_of_min();
        proof {
            lemma_min_index_bounds(self@);
        }
        Some(self.entries.remove(idx))
    }

    /// Applies the pre-decode update rule: push the incoming metadata unless
    /// the heap's minimum already carries the same timestamp. In particular,
    /// a submission repeating the current minimum timestamp never grows the
    /// heap.
    pub fn record(&mut self, e: PendingEntry<S>)
        ensures
            final(self)@ == record_rule(old(self)@, e),
            old(self)@.len() > 0 && old(self)@[min_index(old(self)@)].timestamp == e.timestamp
                ==> final(self)@ == old(self)@,
            final(self)@.len() <= old(self)@.len() + 1,
    {
        let push_it: bool = match self.min_timestamp() {
            Some(t) => t != e.timestamp,
            None => true,
        };
        if push_it {
            self.push(e);
        }
    }

    /// The index of the earliest-inserted entry with the smallest timestamp.
    fn position_of_min(&self) -> (idx: usize)
        requires
            self@.len() > 0,
        ensures
            idx == min_index(self@),
    {
        let ghost s = self@;
        let mut best: usize = 0;
        let mut i: usize = 1;
        while i < self.entries.len()
            invariant
                self@ == s,
                s.len() > 0,
                1 <= i <= s.len(),
                0 <= best < i,
                forall|j: int| 0 <= j < i ==> s[best as int].timestamp <= (#[trigger] s[j]).timestamp,
                forall|j: int| 0 <= j < best ==> (#[trigger] s[j]).timestamp > s[best as int].timestamp,
            decreases self.entries.len() - i,
        {
            if self.entries[i].timestamp < self.entries[best].timestamp {
                best = i;
            }
            i = i + 1;
        }
        proof {
            lemma_min_index_unique(s, best as int);
        }
        best
    }
}

} // verus!
