//! The colour stops of a gradient, kept in order of their offsets.
use vstd::prelude::*;

verus! {

/// One colour stop. The offset is an order key: for offsets in `[0, 1]` the
/// bit pattern of the single-precision value orders as the number does. The
/// colour is 32-bit ARGB.
#[derive(Clone, Copy, Debug, PartialEq, Eq, Structural)]
pub struct ColorStop {
    pub offset: u32,
    pub color: u32,
}

/// Offsets never decrease along the list.
pub open spec fn sorted_by_offset(s: Seq<ColorStop>) -> bool {
    forall|i: int, j: int| 0 <= i < j < s.len() ==> s[i].offset <= s[j].offset
}

/// The list after one more stop: it goes after every stop whose offset is
/// not greater than its own, so stops of equal offset keep the order in
/// which they came.
pub open spec fn with_stop(s: Seq<ColorStop>, stop: ColorStop) -> Seq<ColorStop>
    decreases s.len(),
{
    if s.len() == 0 {
        seq![stop]
    } else if s.last().offset <= stop.offset {
        s.push(stop)
    } else {
        with_stop(s.drop_last(), stop).push(s.last())
    }
}

/// The list built from an empty one by adding `stops` one after another.
pub open spec fn ramp_of(stops: Seq<ColorStop>) -> Seq<ColorStop>
    decreases stops.len(),
{
    if stops.len() == 0 {
        Seq::empty()
    } else {
        with_stop(ramp_of(stops.drop_last()), stops.last())
    }
}

/// The stops at one offset.
pub open spec fn at_offset(offset: u32) -> spec_fn(ColorStop) -> bool {
    |c: ColorStop| c.offset == offset
}

/// Adding a stop inserts it at the one index that splits the list into the
/// stops at or below its offset and those above.
proof fn lemma_with_stop_inserts(s: Seq<ColorStop>, stop: ColorStop) -> (k: int)
    requires
        sorted_by_offset(s),
    ensures
        0 <= k <= s.len(),
        with_stop(s, stop) == s.insert(k, stop),
        forall|i: int| 0 <= i < k ==> #[trigger] s[i].offset <= stop.offset,
        forall|i: int| k <= i < s.len() ==> #[trigger] s[i].offset > stop.offset,
    decreases s.len(),
{
    if s.len() == 0 {
        assert(with_stop(s, stop) =~= s.insert(0, stop));
        0
    } else if s.last().offset <= stop.offset {
        assert(with_stop(s, stop) =~= s.insert(s.len() as int, stop));
        assert forall|i: int| 0 <= i < s.len() implies #[trigger] s[i].offset <= stop.offset by {
            if i < s.len() - 1 {
                assert(s[i].offset <= s[s.len() - 1].offset);
            }
        }
        s.len() as int
    } else {
        let t = s.drop_last();
        let k = lemma_with_stop_inserts(t, stop);
        assert(with_stop(s, stop) =~= s.insert(k, stop));
        assert forall|i: int| 0 <= i < k implies #[trigger] s[i].offset <= stop.offset by {
            assert(s[i] == t[i]);
        }
        assert forall|i: int| k <= i < s.len() implies #[trigger] s[i].offset > stop.offset by {
            if i < s.len() - 1 {
                assert(s[i] == t[i]);
            }
        }
        k
    }
}

proof fn lemma_insert_sorted(s: Seq<ColorStop>, stop: ColorStop, k: int)
    requires
        sorted_by_offset(s),
        0 <= k <= s.len(),
        forall|i: int| 0 <= i < k ==> #[trigger] s[i].offset <= stop.offset,
        forall|i: int| k <= i < s.len() ==> #[trigger] s[i].offset > stop.offset,
    ensures
        sorted_by_offset(s.insert(k, stop)),
{
    let r = s.insert(k, stop);
    assert forall|i: int, j: int| 0 <= i < j < r.len() implies r[i].offset <= r[j].offset by {
        if i < k {
            if j == k {
            } else if j < k {
            } else {
                assert(r[j] == s[j - 1]);
            }
        } else if i == k {
            assert(r[j] == s[j - 1]);
        } else {
            assert(r[i] == s[i - 1]);
            assert(r[j] == s[j - 1]);
        }
    }
}

proof fn lemma_filter_none(s: Seq<ColorStop>, pred: spec_fn(ColorStop) -> bool)
    requires
        forall|i: int| 0 <= i < s.len() ==> !pred(#[trigger] s[i]),
    ensures
        s.filter(pred) == Seq::<ColorStop>::empty(),
    decreases s.len(),
{
    reveal(Seq::filter);
    if s.len() > 0 {
        let t = s.drop_last();
        assert forall|i: int| 0 <= i < t.len() implies !pred(#[trigger] t[i]) by {
            assert(t[i] == s[i]);
        }
        lemma_filter_none(t, pred);
        assert(!pred(s[s.len() - 1]));
    }
    assert(s.filter(pred) =~= Seq::<ColorStop>::empty());
}

/// Adding stops one at a time, in any order of offsets, gives a list whose
/// offsets never decrease, and in which the stops of each offset appear in
/// the order they were added.
pub proof fn lemma_ramp_sorted_and_stable(stops: Seq<ColorStop>, offset: u32)
    ensures
        sorted_by_offset(ramp_of(stops)),
        ramp_of(stops).filter(at_offset(offset)) == stops.filter(at_offset(offset)),
    decreases stops.len(),
{
    if stops.len() == 0 {
        assert(ramp_of(stops).filter(at_offset(offset)) =~= stops.filter(at_offset(offset))) by {
            reveal(Seq::filter);
        }
    } else {
        let init = stops.drop_last();
        let x = stops.last();
        lemma_ramp_sorted_and_stable(init, offset);
        let r = ramp_of(init);
        let k = lemma_with_stop_inserts(r, x);
        lemma_insert_sorted(r, x, k);
        let pred = at_offset(offset);
        let lo = r.subrange(0, k);
        let hi = r.subrange(k, r.len() as int);
        assert(r == lo + hi);
        assert(r.insert(k, x) =~= lo + seq![x] + hi);
        Seq::filter_distributes_over_add(lo, hi, pred);
        Seq::filter_distributes_over_add(lo + seq![x], hi, pred);
        Seq::filter_distributes_over_add(lo, seq![x], pred);
        assert(stops =~= init.push(x));
        init.lemma_filter_push(x, pred);
        Seq::<ColorStop>::empty().lemma_filter_push(x, pred);
        assert(Seq::<ColorStop>::empty().push(x) =~= seq![x]);
        assert(Seq::<ColorStop>::empty().filter(pred) =~= Seq::<ColorStop>::empty()) by {
            reveal(Seq::filter);
        }
        if x.offset == offset {
            assert forall|i: int| 0 <= i < hi.len() implies !pred(#[trigger] hi[i]) by {
                assert(hi[i] == r[k + i]);
            }
            lemma_filter_none(hi, pred);
            assert(r.filter(pred) =~= lo.filter(pred));
            assert(seq![x].filter(pred) =~= seq![x]);
            assert(ramp_of(stops).filter(pred) =~= stops.filter(pred));
        } else {
            assert(seq![x].filter(pred) =~= Seq::<ColorStop>::empty());
            assert(ramp_of(stops).filter(pred) =~= stops.filter(pred));
        }
    }
}

/// The colour stops of one gradient.
pub struct GradientStops {
    stops: Vec<ColorStop>,
}

impl View for GradientStops {
    type V = Seq<ColorStop>;

    closed spec fn view(&self) -> Seq<ColorStop> {
        self.stops@
    }
}

impl GradientStops {
    pub open spec fn wf(&self) -> bool {
        sorted_by_offset(self@)
    }

    /// A gradient with no stops yet.
    pub fn new() -> (r: Self)
        ensures
            r.wf(),
            r@ == Seq::<ColorStop>::empty(),
    {
        GradientStops { stops: Vec::new() }
    }

    /// The number of stops.
    pub fn len(&self) -> (r: usize)
        ensures
            r == self@.len(),
    {
        self.stops.len()
    }

    /// Adds a stop after all those whose offset is not greater, found by
    /// binary search.
    pub fn add_color_stop(&mut self, offset: u32, color: u32)
        requires
            old(self).wf(),
        ensures
            final(self).wf(),
            final(self)@ == with_stop(old(self)@, ColorStop { offset, color }),
    {
        let stop = ColorStop { offset, color };
        let len = self.stops.len();
        let mut lo: usize = 0;
        let mut hi: usize = len;
        while lo < hi
            invariant
                len == self.stops@.len(),
                sorted_by_offset(self.stops@),
                0 <= lo <= hi <= len,
                forall|i: int| 0 <= i < lo ==> #[trigger] self.stops@[i].offset <= offset,
                forall|i: int| hi <= i < len ==> #[trigger] self.stops@[i].offset > offset,
            decreases hi - lo,
        {
            let mid = lo + (hi - lo) / 2;
            if self.stops[mid].offset <= offset {
                assert forall|i: int| 0 <= i < mid + 1 implies #[trigger] self.stops@[i].offset
                    <= offset by {
                    if i < mid {
                        assert(self.stops@[i].offset <= self.stops@[mid as int].offset);
                    }
                }
                lo = mid + 1;
            } else {
                assert forall|i: int| mid <= i < len implies #[trigger] self.stops@[i].offset
                    > offset by {
                    if i > mid {
                        assert(self.stops@[mid as int].offset <= self.stops@[i].offset);
                    }
                }
                hi = mid;
            }
        }
        proof {
            let k = lemma_with_stop_inserts(self.stops@, stop);
            if k < lo {
                assert(self.stops@[k].offset > offset);
            } else if lo < k {
                assert(self.stops@[lo as int].offset <= offset);
            }
            lemma_insert_sorted(self.stops@, stop, lo as int);
        }
        self.stops.insert(lo, stop);
    }

    /// The offsets, in order.
    pub fn offsets(&self) -> (r: Vec<u32>)
        ensures
            r@.len() == self@.len(),
            forall|i: int| 0 <= i < r@.len() ==> #[trigger] r@[i] == self@[i].offset,
    {
        let mut r: Vec<u32> = Vec::new();
        let mut i: usize = 0;
        while i < self.stops.len()
            invariant
                i <= self.stops@.len(),
                r@.len() == i,
                forall|j: int| 0 <= j < i ==> #[trigger] r@[j] == self.stops@[j].offset,
            decreases self.stops@.len() - i,
        {
            r.push(self.stops[i].offset);
            i = i + 1;
        }
        r
    }

    /// The colours, in the order of their offsets.
    pub fn colors(&self) -> (r: Vec<u32>)
        ensures
            r@.len() == self@.len(),
            forall|i: int| 0 <= i < r@.len() ==> #[trigger] r@[i] == self@[i].color,
    {
        let mut r: Vec<u32> = Vec::new();
        let mut i: usize = 0;
        while i < self.stops.len()
            invariant
                i <= self.stops@.len(),
                r@.len() == i,
                forall|j: int| 0 <= j < i ==> #[trigger] r@[j] == self.stops@[j].color,
            decreases self.stops@.len() - i,
        {
            r.push(self.stops[i].color);
            i = i + 1;
        }
        r
    }
}

} // verus!
