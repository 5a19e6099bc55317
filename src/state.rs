//! The graphics state of a drawing context and the stack that `save` and
//! `restore` walk.
//!
//! Numbers that the canvas keeps as single-precision floats (line width,
//! dash intervals, alpha, shadow geometry) are held here as their IEEE-754
//! bit patterns: the rules of the state read only their sign, whether they
//! are finite, and whether they are zero.
use vstd::prelude::*;
use crate::keywords::{
    baseline_named, blend_mode_named, dash_style_named, filter_quality_named, stroke_cap_named,
    stroke_join_named, text_align_named, text_direction_named, to_1d_style, to_blend_mode,
    to_filter_quality, to_stroke_cap, to_stroke_join, to_text_align, to_text_baseline,
    to_text_direction, Baseline, BlendMode, DashStyle, FilterQuality, StrokeCap, StrokeJoin,
    TextAlign, TextDirection,
};
use crate::strings::lower_of;

verus! {

/// The bit pattern of 1.0.
pub const ONE_BITS: u32 = 0x3f80_0000;

/// The bit pattern of 10.0.
pub const TEN_BITS: u32 = 0x4120_0000;

/// The bit pattern of positive infinity.
pub const INFINITY_BITS: u32 = 0x7f80_0000;

/// The bit pattern of -0.0.
pub const NEGATIVE_ZERO_BITS: u32 = 0x8000_0000;

/// The value is finite and compares `>= 0.0` (so -0.0 counts; NaN does not).
pub open spec fn is_nonnegative_finite(bits: u32) -> bool {
    bits < 0x7f80_0000 || bits == 0x8000_0000
}

/// The value compares `> 0.0` (positive infinity included, NaN not).
pub open spec fn is_positive(bits: u32) -> bool {
    0 < bits <= 0x7f80_0000
}

/// Every interval is finite and not negative.
pub open spec fn all_valid_intervals(intervals: Seq<u32>) -> bool {
    forall|i: int| 0 <= i < intervals.len() ==> is_nonnegative_finite(#[trigger] intervals[i])
}

/// The dash list after `setLineDash(intervals)`: a list with any negative
/// or non-finite entry is ignored whole; an odd-length list is repeated to
/// make its length even.
pub open spec fn dash_list_after(current: Seq<u32>, intervals: Seq<u32>) -> Seq<u32> {
    if !all_valid_intervals(intervals) {
        current
    } else if intervals.len() % 2 == 1 {
        intervals + intervals
    } else {
        intervals
    }
}

fn is_nonnegative_finite_bits(bits: u32) -> (r: bool)
    ensures
        r == is_nonnegative_finite(bits),
{
    bits < INFINITY_BITS || bits == NEGATIVE_ZERO_BITS
}

/// One saved snapshot of the drawing settings. `engine` holds what the
/// rendering engine keeps for the same snapshot (transform, clip, paints,
/// text styles); the stack carries it along untouched.
pub struct GraphicsState<E> {
    pub line_dash: Vec<u32>,
    pub line_dash_offset: u32,
    pub line_dash_fit: DashStyle,
    pub line_width: u32,
    pub miter_limit: u32,
    pub line_cap: StrokeCap,
    pub line_join: StrokeJoin,
    pub global_alpha: u32,
    pub composite: BlendMode,
    pub shadow_blur: u32,
    pub shadow_offset_x: u32,
    pub shadow_offset_y: u32,
    pub shadow_color: u32,
    pub text_baseline: Baseline,
    pub text_align: TextAlign,
    pub direction: TextDirection,
    pub image_smoothing: bool,
    pub smoothing_quality: FilterQuality,
    pub font: String,
    pub engine: E,
}

impl<E> GraphicsState<E> {
    /// Every setting but the engine's part is the same in both.
    pub open spec fn same_settings(&self, other: &Self) -> bool {
        &&& self.line_dash@ == other.line_dash@
        &&& self.line_dash_offset == other.line_dash_offset
        &&& self.line_dash_fit == other.line_dash_fit
        &&& self.line_width == other.line_width
        &&& self.miter_limit == other.miter_limit
        &&& self.line_cap == other.line_cap
        &&& self.line_join == other.line_join
        &&& self.global_alpha == other.global_alpha
        &&& self.composite == other.composite
        &&& self.shadow_blur == other.shadow_blur
        &&& self.shadow_offset_x == other.shadow_offset_x
        &&& self.shadow_offset_y == other.shadow_offset_y
        &&& self.shadow_color == other.shadow_color
        &&& self.text_baseline == other.text_baseline
        &&& self.text_align == other.text_align
        &&& self.direction == other.direction
        &&& self.image_smoothing == other.image_smoothing
        &&& self.smoothing_quality == other.smoothing_quality
        &&& self.font@ == other.font@
    }

    /// The canvas defaults: solid 1-unit lines with butt caps and miter
    /// joins (limit 10), no dashes, full opacity, source-over compositing,
    /// no shadow, alphabetic start-aligned left-to-right text in
    /// `10px sans-serif`, smoothing on at low quality.
    pub fn new(engine: E) -> (r: Self)
        ensures
            r.line_dash@.len() == 0,
            r.line_dash_offset == 0,
            r.line_dash_fit == DashStyle::Translate,
            r.line_width == ONE_BITS,
            r.miter_limit == TEN_BITS,
            r.line_cap == StrokeCap::Butt,
            r.line_join == StrokeJoin::Miter,
            r.global_alpha == ONE_BITS,
            r.composite == BlendMode::SrcOver,
            r.shadow_blur == 0,
            r.shadow_offset_x == 0,
            r.shadow_offset_y == 0,
            r.shadow_color == 0,
            r.text_baseline == Baseline::Alphabetic,
            r.text_align == TextAlign::Start,
            r.direction == TextDirection::Ltr,
            r.image_smoothing,
            r.smoothing_quality == FilterQuality::Low,
            r.font@ == "10px sans-serif"@,
            r.engine == engine,
    {
        GraphicsState {
            line_dash: Vec::new(),
            line_dash_offset: 0,
            line_dash_fit: DashStyle::Translate,
            line_width: ONE_BITS,
            miter_limit: TEN_BITS,
            line_cap: StrokeCap::Butt,
            line_join: StrokeJoin::Miter,
            global_alpha: ONE_BITS,
            composite: BlendMode::SrcOver,
            shadow_blur: 0,
            shadow_offset_x: 0,
            shadow_offset_y: 0,
            shadow_color: 0,
            text_baseline: Baseline::Alphabetic,
            text_align: TextAlign::Start,
            direction: TextDirection::Ltr,
            image_smoothing: true,
            smoothing_quality: FilterQuality::Low,
            font: String::from_str("10px sans-serif"),
            engine,
        }
    }

    /// A copy of the dash list.
    pub fn get_line_dash(&self) -> (r: Vec<u32>)
        ensures
            r@ == self.line_dash@,
    {
        let mut r: Vec<u32> = Vec::new();
        let mut i: usize = 0;
        while i < self.line_dash.len()
            invariant
                i <= self.line_dash@.len(),
                r@ == self.line_dash@.subrange(0, i as int),
            decreases self.line_dash@.len() - i,
        {
            r.push(self.line_dash[i]);
            i = i + 1;
        }
        assert(r@ =~= self.line_dash@);
        r
    }

    /// `setLineDash`: keeps the list only when every entry is finite and not
    /// negative, doubling a list of odd length.
    pub fn set_line_dash(&mut self, intervals: Vec<u32>)
        ensures
            final(self).line_dash@ == dash_list_after(old(self).line_dash@, intervals@),
            *final(self) == (GraphicsState { line_dash: final(self).line_dash, ..*old(self) }),
    {
        let n = intervals.len();
        let mut i: usize = 0;
        while i < n
            invariant
                n == intervals@.len(),
                i <= n,
                forall|j: int| 0 <= j < i ==> is_nonnegative_finite(#[trigger] intervals@[j]),
            decreases n - i,
        {
            if !is_nonnegative_finite_bits(intervals[i]) {
                return;
            }
            i = i + 1;
        }
        let mut list: Vec<u32> = Vec::new();
        let mut k: usize = 0;
        while k < n
            invariant
                n == intervals@.len(),
                k <= n,
                list@ == intervals@.subrange(0, k as int),
            decreases n - k,
        {
            list.push(intervals[k]);
            k = k + 1;
        }
        if n % 2 == 1 {
            let mut k: usize = 0;
            while k < n
                invariant
                    n == intervals@.len(),
                    k <= n,
                    list@ == intervals@ + intervals@.subrange(0, k as int),
                decreases n - k,
            {
                list.push(intervals[k]);
                k = k + 1;
            }
        }
        assert(intervals@.subrange(0, n as int) =~= intervals@);
        self.line_dash = list;
    }

    /// `lineCap = name`: an unknown keyword leaves the setting as it was.
    pub fn set_line_cap(&mut self, name: &str)
        ensures
            *final(self) == (GraphicsState {
                line_cap: match stroke_cap_named(lower_of(name@)) {
                    Some(m) => m,
                    None => old(self).line_cap,
                },
                ..*old(self)
            }),
    {
        if let Some(m) = to_stroke_cap(name) {
            self.line_cap = m;
        }
    }

    /// `lineJoin = name`: an unknown keyword leaves the setting as it was.
    pub fn set_line_join(&mut self, name: &str)
        ensures
            *final(self) == (GraphicsState {
                line_join: match stroke_join_named(lower_of(name@)) {
                    Some(m) => m,
                    None => old(self).line_join,
                },
                ..*old(self)
            }),
    {
        if let Some(m) = to_stroke_join(name) {
            self.line_join = m;
        }
    }

    /// `lineDashFit = name`: an unknown keyword leaves the setting as it was.
    pub fn set_line_dash_fit(&mut self, name: &str)
        ensures
            *final(self) == (GraphicsState {
                line_dash_fit: match dash_style_named(lower_of(name@)) {
                    Some(m) => m,
                    None => old(self).line_dash_fit,
                },
                ..*old(self)
            }),
    {
        if let Some(m) = to_1d_style(name) {
            self.line_dash_fit = m;
        }
    }

    /// `imageSmoothingQuality = name`: an unknown keyword leaves the setting as it was.
    pub fn set_image_smoothing_quality(&mut self, name: &str)
        ensures
            *final(self) == (GraphicsState {
                smoothing_quality: match filter_quality_named(lower_of(name@)) {
                    Some(m) => m,
                    None => old(self).smoothing_quality,
                },
                ..*old(self)
            }),
    {
        if let Some(m) = to_filter_quality(name) {
            self.smoothing_quality = m;
        }
    }

    /// `textAlign = name`: an unknown keyword leaves the setting as it was.
    pub fn set_text_align(&mut self, name: &str)
        ensures
            *final(self) == (GraphicsState {
                text_align: match text_align_named(lower_of(name@)) {
                    Some(m) => m,
                    None => old(self).text_align,
                },
                ..*old(self)
            }),
    {
        if let Some(m) = to_text_align(name) {
            self.text_align = m;
        }
    }

    /// `textBaseline = name`: an unknown keyword leaves the setting as it was.
    pub fn set_text_baseline(&mut self, name: &str)
        ensures
            *final(self) == (GraphicsState {
                text_baseline: match baseline_named(lower_of(name@)) {
                    Some(m) => m,
                    None => old(self).text_baseline,
                },
                ..*old(self)
            }),
    {
        if let Some(m) = to_text_baseline(name) {
            self.text_baseline = m;
        }
    }

    /// `direction = name`: an unknown keyword leaves the setting as it was.
    pub fn set_direction(&mut self, name: &str)
        ensures
            *final(self) == (GraphicsState {
                direction: match text_direction_named(lower_of(name@)) {
                    Some(m) => m,
                    None => old(self).direction,
                },
                ..*old(self)
            }),
    {
        if let Some(m) = to_text_direction(name) {
            self.direction = m;
        }
    }

    /// `globalCompositeOperation = name`: an unknown keyword leaves the setting as it was.
    pub fn set_global_composite_operation(&mut self, name: &str)
        ensures
            *final(self) == (GraphicsState {
                composite: match blend_mode_named(lower_of(name@)) {
                    Some(m) => m,
                    None => old(self).composite,
                },
                ..*old(self)
            }),
    {
        if let Some(m) = to_blend_mode(name) {
            self.composite = m;
        }
    }

    /// `lineWidth = w`: taken only when `w > 0`.
    pub fn set_line_width(&mut self, bits: u32)
        ensures
            *final(self) == (GraphicsState {
                line_width: if is_positive(bits) {
                    bits
                } else {
                    old(self).line_width
                },
                ..*old(self)
            }),
    {
        if 0 < bits && bits <= INFINITY_BITS {
            self.line_width = bits;
        }
    }

    /// `miterLimit = m`: taken only when `m > 0`.
    pub fn set_miter_limit(&mut self, bits: u32)
        ensures
            *final(self) == (GraphicsState {
                miter_limit: if is_positive(bits) {
                    bits
                } else {
                    old(self).miter_limit
                },
                ..*old(self)
            }),
    {
        if 0 < bits && bits <= INFINITY_BITS {
            self.miter_limit = bits;
        }
    }
}

impl<E: Clone> GraphicsState<E> {
    /// A copy of this snapshot; the engine's part is copied with its own
    /// `clone`.
    pub fn duplicate(&self) -> (r: Self)
        ensures
            r.same_settings(self),
    {
        GraphicsState {
            line_dash: self.get_line_dash(),
            line_dash_offset: self.line_dash_offset,
            line_dash_fit: self.line_dash_fit,
            line_width: self.line_width,
            miter_limit: self.miter_limit,
            line_cap: self.line_cap,
            line_join: self.line_join,
            global_alpha: self.global_alpha,
            composite: self.composite,
            shadow_blur: self.shadow_blur,
            shadow_offset_x: self.shadow_offset_x,
            shadow_offset_y: self.shadow_offset_y,
            shadow_color: self.shadow_color,
            text_baseline: self.text_baseline,
            text_align: self.text_align,
            direction: self.direction,
            image_smoothing: self.image_smoothing,
            smoothing_quality: self.smoothing_quality,
            font: self.font.clone(),
            engine: self.engine.clone(),
        }
    }
}

/// The saved states below the current one and the current one, after a
/// `restore`: the top saved state comes back, and with nothing saved
/// nothing changes.
pub open spec fn popped<S>(saved: Seq<S>, current: S) -> (Seq<S>, S) {
    if saved.len() > 0 {
        (saved.drop_last(), saved.last())
    } else {
        (saved, current)
    }
}

/// The state after `n` restores in a row.
pub open spec fn popped_n<S>(saved: Seq<S>, current: S, n: nat) -> (Seq<S>, S)
    decreases n,
{
    if n == 0 {
        (saved, current)
    } else {
        let (s, c) = popped(saved, current);
        popped_n(s, c, (n - 1) as nat)
    }
}

/// The state stack of a drawing context: the current state, which drawing
/// reads and the setters change, over the states that `save` put away.
pub struct StateStack<E> {
    pub current: GraphicsState<E>,
    pub saved: Vec<GraphicsState<E>>,
}

impl<E> StateStack<E> {
    /// The states put away by `save`, oldest first.
    pub open spec fn saved(&self) -> Seq<GraphicsState<E>> {
        self.saved@
    }

    /// A stack holding only `base`.
    pub fn new(base: GraphicsState<E>) -> (r: Self)
        ensures
            r.current == base,
            r.saved() == Seq::<GraphicsState<E>>::empty(),
    {
        StateStack { current: base, saved: Vec::new() }
    }

    /// How many states `save` has put away.
    pub fn depth(&self) -> (r: usize)
        ensures
            r == self.saved().len(),
    {
        self.saved.len()
    }

    /// `restore`: the last saved state becomes current again; with nothing
    /// saved the current state stays.
    pub fn pop(&mut self)
        ensures
            (final(self).saved(), final(self).current) == popped(old(self).saved(), old(self).current),
    {
        if let Some(state) = self.saved.pop() {
            self.current = state;
        }
    }

    /// Drops every saved state and makes `base` current, as a resize does.
    pub fn reset(&mut self, base: GraphicsState<E>)
        ensures
            final(self).current == base,
            final(self).saved() == Seq::<GraphicsState<E>>::empty(),
    {
        self.current = base;
        self.saved = Vec::new();
    }
}

impl<E: Clone> StateStack<E> {
    /// `save`: puts the current state away as it is and goes on with a copy
    /// of it.
    pub fn push(&mut self)
        ensures
            final(self).saved() == old(self).saved().push(old(self).current),
            final(self).current.same_settings(&old(self).current),
    {
        let mut state = self.current.duplicate();
        core::mem::swap(&mut self.current, &mut state);
        self.saved.push(state);
    }
}

/// A `save` followed at once by a `restore` gives back exactly the states
/// there were, whatever was done to the copy in between.
pub proof fn lemma_push_pop_restores<S>(saved: Seq<S>, current: S, copy: S)
    ensures
        popped(saved.push(current), copy) == (saved, current),
{
    assert(saved.push(current).drop_last() =~= saved);
}

/// Restoring more often than saving never goes below the first state: after
/// every saved state is used up, the oldest one stays current.
pub proof fn lemma_extra_pops_keep_base<S>(saved: Seq<S>, current: S, n: nat)
    requires
        n >= saved.len(),
    ensures
        popped_n(saved, current, n) == (Seq::<S>::empty(), if saved.len() > 0 {
            saved[0]
        } else {
            current
        }),
    decreases n,
{
    if n > 0 {
        let (s, c) = popped(saved, current);
        lemma_extra_pops_keep_base(s, c, (n - 1) as nat);
        if saved.len() > 1 {
            assert(s[0] == saved[0]);
        }
    } else {
        assert(saved =~= Seq::<S>::empty());
    }
}

} // verus!
