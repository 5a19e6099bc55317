//! Decisions of path construction that depend only on signs, and the
//! reading of packed numeric arguments whose count decides their meaning.
use vstd::prelude::*;

verus! {

/// The direction in which a rectangle's contour is emitted.
#[derive(Clone, Copy, Debug, PartialEq, Eq, Hash, Structural)]
pub enum PathDirection {
    Clockwise,
    CounterClockwise,
}

/// The single-precision value with these bits is NaN.
pub open spec fn is_nan(bits: u32) -> bool {
    bits % 0x8000_0000 > 0x7f80_0000
}

/// The sign bit is set (negative numbers, -0.0, and NaNs so marked).
pub open spec fn sign_bit(bits: u32) -> bool {
    bits >= 0x8000_0000
}

/// `w.signum() == h.signum()` for the values with these bits: neither is
/// NaN and their signs agree (zero counts as positive, -0.0 as negative).
pub open spec fn same_signum(w: u32, h: u32) -> bool {
    !is_nan(w) && !is_nan(h) && sign_bit(w) == sign_bit(h)
}

/// The winding of a `rect` or `roundRect` of width `w` and height `h`
/// (given as bit patterns): clockwise when their signs agree,
/// counter-clockwise otherwise, so that negative sizes fill consistently.
pub fn rect_direction(w: u32, h: u32) -> (r: PathDirection)
    ensures
        same_signum(w, h) ==> r == PathDirection::Clockwise,
        !same_signum(w, h) ==> r == PathDirection::CounterClockwise,
{
    let w_nan = w % 0x8000_0000 > 0x7f80_0000;
    let h_nan = h % 0x8000_0000 > 0x7f80_0000;
    if !w_nan && !h_nan && (w >= 0x8000_0000) == (h >= 0x8000_0000) {
        PathDirection::Clockwise
    } else {
        PathDirection::CounterClockwise
    }
}

/// A rectangle given by its corner and size.
#[derive(Clone, Copy, Debug, PartialEq, Eq, Structural)]
pub struct Xywh<T> {
    pub x: T,
    pub y: T,
    pub w: T,
    pub h: T,
}

/// The source and destination rectangles of `drawImage` for the numbers
/// given after the image (`zero` is the number 0): 2 numbers place the
/// whole image at a point, 4 scale it into a rectangle, 8 pick a part of it
/// and a rectangle; any other count is refused.
pub open spec fn layout_of<T>(width: T, height: T, zero: T, nums: Seq<T>) -> Option<
    (Xywh<T>, Xywh<T>),
> {
    let whole = Xywh { x: zero, y: zero, w: width, h: height };
    if nums.len() == 2 {
        Some((whole, Xywh { x: nums[0], y: nums[1], w: width, h: height }))
    } else if nums.len() == 4 {
        Some((whole, Xywh { x: nums[0], y: nums[1], w: nums[2], h: nums[3] }))
    } else if nums.len() == 8 {
        Some(
            (
                Xywh { x: nums[0], y: nums[1], w: nums[2], h: nums[3] },
                Xywh { x: nums[4], y: nums[5], w: nums[6], h: nums[7] },
            ),
        )
    } else {
        None
    }
}

/// Reads the rectangles of `drawImage` from its packed arguments.
pub fn layout_rects<T: Copy>(width: T, height: T, zero: T, nums: &Vec<T>) -> (r: Option<
    (Xywh<T>, Xywh<T>),
>)
    ensures
        r == layout_of(width, height, zero, nums@),
{
    let whole = Xywh { x: zero, y: zero, w: width, h: height };
    let n = nums.len();
    if n == 2 {
        Some((whole, Xywh { x: nums[0], y: nums[1], w: width, h: height }))
    } else if n == 4 {
        Some((whole, Xywh { x: nums[0], y: nums[1], w: nums[2], h: nums[3] }))
    } else if n == 8 {
        Some(
            (
                Xywh { x: nums[0], y: nums[1], w: nums[2], h: nums[3] },
                Xywh { x: nums[4], y: nums[5], w: nums[6], h: nums[7] },
            ),
        )
    } else {
        None
    }
}

/// The nine entries of a 3×3 matrix, row by row, from 6 numbers (an affine
/// matrix, completed with the row `0 0 1`) or 9; any other count is
/// refused.
pub open spec fn matrix_of<T>(t: Seq<T>, zero: T, one: T) -> Option<Seq<T>> {
    if t.len() == 6 {
        Some(t + seq![zero, zero, one])
    } else if t.len() == 9 {
        Some(t)
    } else {
        None
    }
}

/// Reads a transform from packed numbers.
pub fn to_matrix<T: Copy>(t: &Vec<T>, zero: T, one: T) -> (r: Option<Vec<T>>)
    ensures
        match r {
            Some(m) => matrix_of(t@, zero, one) == Some(m@),
            None => matrix_of(t@, zero, one) is None,
        },
{
    let n = t.len();
    if n != 6 && n != 9 {
        return None;
    }
    let mut m: Vec<T> = Vec::new();
    let mut i: usize = 0;
    while i < n
        invariant
            n == t@.len(),
            i <= n,
            m@ == t@.subrange(0, i as int),
        decreases n - i,
    {
        m.push(t[i]);
        i = i + 1;
    }
    if n == 6 {
        m.push(zero);
        m.push(zero);
        m.push(one);
    }
    assert(t@.subrange(0, n as int) =~= t@);
    assert(n == 6 ==> m@ =~= t@ + seq![zero, zero, one]);
    Some(m)
}

/// How a vector export crops and places the drawing on its page.
#[derive(Clone, Copy, Debug, PartialEq, Eq, Structural)]
pub struct Cutting<T> {
    /// How far down the drawing the page starts.
    pub source_offset: T,
    pub inset_top: T,
    pub inset_right: T,
    pub inset_bottom: T,
    pub inset_left: T,
    pub page_width: T,
    pub page_height: T,
}

/// The cutting parameters of a vector export: exactly seven numbers, in
/// the order of the fields, or none at all.
pub open spec fn cutting_of<T>(nums: Seq<T>) -> Option<Cutting<T>> {
    if nums.len() == 7 {
        Some(
            Cutting {
                source_offset: nums[0],
                inset_top: nums[1],
                inset_right: nums[2],
                inset_bottom: nums[3],
                inset_left: nums[4],
                page_width: nums[5],
                page_height: nums[6],
            },
        )
    } else {
        None
    }
}

/// Reads the cutting parameters of a vector export.
pub fn cutting_params<T: Copy>(nums: &Vec<T>) -> (r: Option<Cutting<T>>)
    ensures
        r == cutting_of(nums@),
{
    if nums.len() == 7 {
        Some(
            Cutting {
                source_offset: nums[0],
                inset_top: nums[1],
                inset_right: nums[2],
                inset_bottom: nums[3],
                inset_left: nums[4],
                page_width: nums[5],
                page_height: nums[6],
            },
        )
    } else {
        None
    }
}

/// `putImageData` takes the point alone (2 numbers) or the point and a
/// dirty rectangle (6 numbers); any other count is refused.
pub fn image_data_arity_ok(n: usize) -> (r: bool)
    ensures
        r == (n == 2 || n == 6),
{
    n == 2 || n == 6
}

} // verus!
