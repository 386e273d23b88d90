//! Building range-selection output that keeps the ascending, in-bounds contract.
use vstd::prelude::*;
use crate::types::Range;

verus! {

/// Whether an index may follow `last` among `count` items: in bounds and strictly greater.
pub open spec fn accepts(last: Option<usize>, count: int, index: int) -> bool {
    &&& 0 <= index < count
    &&& match last {
        None => true,
        Some(l) => index > l,
    }
}

/// What remains of `raw` once every index that is out of bounds, repeated or out of order
/// is dropped.
pub open spec fn accepted(raw: Seq<usize>, count: int) -> Seq<usize>
    decreases raw.len(),
{
    if raw.len() == 0 {
        Seq::empty()
    } else {
        let kept = accepted(raw.drop_last(), count);
        let last = if kept.len() == 0 { None } else { Some(kept.last()) };
        if accepts(last, count, raw.last() as int) {
            kept.push(raw.last())
        } else {
            kept
        }
    }
}

/// Strictly ascending and below `count`.
pub open spec fn ascending_below(s: Seq<usize>, count: int) -> bool {
    &&& forall|i: int| 0 <= i < s.len() ==> s[i] < count
    &&& forall|i: int, j: int| 0 <= i < j < s.len() ==> s[i] < s[j]
}

pub proof fn lemma_accepted_ascending(raw: Seq<usize>, count: int)
    ensures
        ascending_below(accepted(raw, count), count),
        accepted(raw, count).len() <= raw.len(),
    decreases raw.len(),
{
    if raw.len() > 0 {
        lemma_accepted_ascending(raw.drop_last(), count);
    }
}

/// Keeps what a policy emitted under the ascending, in-bounds contract: drops every index
/// that is out of bounds, repeated or out of order.
pub fn keep_accepted(raw: &Vec<usize>, count: usize) -> (r: Vec<usize>)
    ensures
        r@ == accepted(raw@, count as int),
{
    let mut out: Vec<usize> = Vec::new();
    let n = raw.len();
    let mut i: usize = 0;
    while i < n
        invariant
            n == raw@.len(),
            i <= n,
            out@ == accepted(raw@.subrange(0, i as int), count as int),
        decreases n - i,
    {
        let x = raw[i];
        proof {
            assert(raw@.subrange(0, i + 1).drop_last() =~= raw@.subrange(0, i as int));
        }
        let ok = x < count && (out.len() == 0 || x > out[out.len() - 1]);
        if ok {
            out.push(x);
        }
        i = i + 1;
    }
    proof {
        assert(raw@.subrange(0, n as int) =~= raw@);
    }
    out
}

/// The entries of `raw` below `count`, in their order.
pub open spec fn in_bounds(raw: Seq<usize>, count: int) -> Seq<usize>
    decreases raw.len(),
{
    if raw.len() == 0 {
        Seq::empty()
    } else if raw.last() < count {
        in_bounds(raw.drop_last(), count).push(raw.last())
    } else {
        in_bounds(raw.drop_last(), count)
    }
}

pub proof fn lemma_in_bounds_below(raw: Seq<usize>, count: int)
    ensures
        forall|i: int| 0 <= i < in_bounds(raw, count).len() ==> in_bounds(raw, count)[i] < count,
    decreases raw.len(),
{
    if raw.len() > 0 {
        lemma_in_bounds_below(raw.drop_last(), count);
        let prev = in_bounds(raw.drop_last(), count);
        if raw.last() < count {
            assert forall|i: int| 0 <= i < prev.len() + 1 implies #[trigger] prev.push(raw.last())[i] < count by {
                if i < prev.len() {
                    assert(prev.push(raw.last())[i] == prev[i]);
                }
            }
        }
    }
}

/// Keeps the entries of `raw` below `count`, in their order.
pub fn keep_in_bounds(raw: &Vec<usize>, count: usize) -> (r: Vec<usize>)
    ensures
        r@ == in_bounds(raw@, count as int),
{
    let mut out: Vec<usize> = Vec::new();
    let n = raw.len();
    let mut i: usize = 0;
    while i < n
        invariant
            n == raw@.len(),
            i <= n,
            out@ == in_bounds(raw@.subrange(0, i as int), count as int),
        decreases n - i,
    {
        let x = raw[i];
        proof {
            assert(raw@.subrange(0, i + 1).drop_last() =~= raw@.subrange(0, i as int));
        }
        if x < count {
            out.push(x);
        }
        i = i + 1;
    }
    proof {
        assert(raw@.subrange(0, n as int) =~= raw@);
    }
    out
}

/// The consumer that emitted indexes are handed to.
#[verifier::external_body]
#[verifier::reject_recursive_types(F)]
pub struct IndexSink<'a, F: ?Sized> {
    f: &'a mut F,
}

impl<'a, F: FnMut(usize) + ?Sized> IndexSink<'a, F> {
    /// Holds the host's consumer.
    #[verifier::external_body]
    pub fn new(f: &'a mut F) -> Self {
        IndexSink { f }
    }

    /// Relies on the host's consumer to take the index.
    #[verifier::external_body]
    pub fn put(&mut self, i: usize) {
        (self.f)(i)
    }
}

/// Helper for range-selection policies: forwards indexes to a consumer, dropping any that
/// is out of bounds, repeated or out of order.
#[verifier::reject_recursive_types(F)]
pub struct IndexEmitter<'a, F: ?Sized> {
    range: Range,
    last: Option<usize>,
    sink: IndexSink<'a, F>,
    emitted: Ghost<Seq<usize>>,
}

/// First index of `[start, ..)` that may follow `last`.
pub open spec fn first_after(last: Option<usize>, start: int) -> int {
    match last {
        None => start,
        Some(l) => if start > l { start } else { l + 1 },
    }
}

/// The indexes `lo, lo + 1, .., hi - 1`, empty when `hi <= lo`.
pub open spec fn span(lo: int, hi: int) -> Seq<usize> {
    Seq::new(if hi > lo { (hi - lo) as nat } else { 0 }, |j: int| (lo + j) as usize)
}

impl<'a, F: FnMut(usize) + ?Sized> IndexEmitter<'a, F> {
    pub closed spec fn wf(&self) -> bool {
        &&& ascending_below(self.emitted@, self.range.count as int)
        &&& self.last == (if self.emitted@.len() == 0 {
            None
        } else {
            Some(self.emitted@.last())
        })
    }

    /// Indexes forwarded so far, in order.
    pub closed spec fn emitted(&self) -> Seq<usize> {
        self.emitted@
    }

    pub closed spec fn spec_range(&self) -> Range {
        self.range
    }

    pub closed spec fn last(&self) -> Option<usize> {
        self.last
    }

    pub fn new(range: Range, emit: &'a mut F) -> (r: Self)
        ensures
            r.wf(),
            r.emitted() == Seq::<usize>::empty(),
            r.spec_range() == range,
            r.last() == None::<usize>,
    {
        IndexEmitter { range, last: None, sink: IndexSink::new(emit), emitted: Ghost(Seq::empty()) }
    }

    pub fn range(&self) -> (r: Range)
        ensures
            r == self.spec_range(),
    {
        self.range
    }

    /// Forwards `index` when it is in bounds and above every index forwarded before.
    pub fn emit(&mut self, index: usize)
        requires
            old(self).wf(),
        ensures
            final(self).wf(),
            final(self).spec_range() == old(self).spec_range(),
            accepts(old(self).last(), old(self).spec_range().count as int, index as int) ==> {
                &&& final(self).emitted() == old(self).emitted().push(index)
                &&& final(self).last() == Some(index)
            },
            !accepts(old(self).last(), old(self).spec_range().count as int, index as int) ==> {
                &&& final(self).emitted() == old(self).emitted()
                &&& final(self).last() == old(self).last()
            },
    {
        if index >= self.range.count {
            return;
        }
        if let Some(prev) = self.last {
            if index <= prev {
                return;
            }
        }
        self.last = Some(index);
        self.emitted = Ghost(self.emitted@.push(index));
        self.sink.put(index);
    }

    /// Forwards a fixed index (a pinned header, say), under the same rules as `emit`.
    pub fn emit_pinned(&mut self, index: usize)
        requires
            old(self).wf(),
        ensures
            final(self).wf(),
            final(self).spec_range() == old(self).spec_range(),
            accepts(old(self).last(), old(self).spec_range().count as int, index as int) ==> final(self).emitted() == old(self).emitted().push(index),
            !accepts(old(self).last(), old(self).spec_range().count as int, index as int) ==> final(self).emitted() == old(self).emitted(),
    {
        self.emit(index);
    }

    /// Emits `start_index..end_index`, cut at the item count.
    pub fn emit_range(&mut self, start_index: usize, end_index: usize)
        requires
            old(self).wf(),
        ensures
            final(self).wf(),
            final(self).spec_range() == old(self).spec_range(),
            final(self).emitted() == old(self).emitted() + span(
                first_after(old(self).last(), start_index as int),
                if end_index < old(self).spec_range().count { end_index as int } else { old(self).spec_range().count as int },
            ),
    {
        let end = if end_index < self.range.count { end_index } else { self.range.count };
        let ghost lo = first_after(self.last, start_index as int);
        let ghost e0 = self.emitted@;
        let mut i: usize = start_index;
        while i < end
            invariant
                self.wf(),
                self.range == old(self).range,
                end <= self.range.count,
                start_index <= i,
                i <= end || i == start_index,
                lo == first_after(old(self).last, start_index as int),
                self.emitted@ == e0 + span(lo, if i > lo { i as int } else { lo }),
                self.last == (if i > lo { Some((i - 1) as usize) } else { old(self).last }),
                lo >= start_index,
                old(self).last == (if e0.len() == 0 { None } else { Some(e0.last()) }),
            decreases end - i,
        {
            let ghost before = self.emitted@;
            let ghost cur = if i > lo { i as int } else { lo };
            proof {
                if i >= lo {
                    assert(accepts(self.last, self.range.count as int, i as int));
                } else {
                    assert(!accepts(self.last, self.range.count as int, i as int));
                }
            }
            self.emit(i);
            proof {
                if i >= lo {
                    assert(span(lo, i + 1) =~= span(lo, cur).push(i));
                    assert(self.emitted@ =~= e0 + span(lo, i + 1));
                }
            }
            i = i + 1;
        }
        proof {
            let cur = if i > lo { i as int } else { lo };
            if end <= lo {
                assert(span(lo, end as int) =~= Seq::<usize>::empty());
                assert(span(lo, cur) =~= Seq::<usize>::empty());
            } else {
                assert(i == end);
            }
        }
    }

    /// Emits the visible range.
    pub fn emit_visible(&mut self)
        requires
            old(self).wf(),
        ensures
            final(self).wf(),
            final(self).spec_range() == old(self).spec_range(),
            final(self).emitted() == old(self).emitted() + span(
                first_after(old(self).last(), old(self).spec_range().start_index as int),
                if old(self).spec_range().end_index < old(self).spec_range().count {
                    old(self).spec_range().end_index as int
                } else {
                    old(self).spec_range().count as int
                },
            ),
    {
        let r = self.range;
        self.emit_range(r.start_index, r.end_index);
    }

    /// Emits the visible range widened by the overscan on both sides.
    pub fn emit_overscanned(&mut self)
        requires
            old(self).wf(),
        ensures
            final(self).wf(),
            final(self).spec_range() == old(self).spec_range(),
            final(self).emitted() == old(self).emitted() + span(
                first_after(
                    old(self).last(),
                    if old(self).spec_range().start_index >= old(self).spec_range().overscan {
                        old(self).spec_range().start_index - old(self).spec_range().overscan
                    } else {
                        0
                    },
                ),
                if old(self).spec_range().end_index + old(self).spec_range().overscan < old(self).spec_range().count {
                    old(self).spec_range().end_index + old(self).spec_range().overscan
                } else {
                    old(self).spec_range().count as int
                },
            ),
    {
        let r = self.range;
        let start = r.start_index.saturating_sub(r.overscan);
        let end = r.end_index.saturating_add(r.overscan);
        let end = if end < r.count { end } else { r.count };
        self.emit_range(start, end);
    }
}

} // verus!
