//! Text helpers of the typesetter: alignment, character ranges of laid-out
//! lines, the text handed to layout, font feature settings and the weights
//! that a variable font offers.
use vstd::prelude::*;
use crate::keywords::{TextAlign, TextDirection};
use crate::strings::{decimal, push_decimal, str_eq};

verus! {

/// How far a line is shifted left of its anchor, in halves of its width:
/// 0 for left-anchored, 1 for centred, 2 for right-anchored. `start` and
/// `end` follow the writing direction; `justify` is treated as `start`
/// would be for left-to-right text.
pub open spec fn alignment_halves(direction: TextDirection, align: TextAlign) -> i32 {
    match direction {
        TextDirection::Ltr => match align {
            TextAlign::Left | TextAlign::Start | TextAlign::Justify => 0,
            TextAlign::Right | TextAlign::End => 2,
            TextAlign::Center => 1,
        },
        TextDirection::Rtl => match align {
            TextAlign::Left | TextAlign::End | TextAlign::Justify => 0,
            TextAlign::Right | TextAlign::Start => 2,
            TextAlign::Center => 1,
        },
    }
}

/// The alignment factor, as a count of half widths: the line is drawn at
/// `x - halves × width / 2`, i.e. the factor is `-halves / 2`.
pub fn get_alignment_factor(direction: TextDirection, align: TextAlign) -> (r: i32)
    ensures
        r == alignment_halves(direction, align),
{
    match direction {
        TextDirection::Ltr => match align {
            TextAlign::Left | TextAlign::Start | TextAlign::Justify => 0,
            TextAlign::Right | TextAlign::End => 2,
            TextAlign::Center => 1,
        },
        TextDirection::Rtl => match align {
            TextAlign::Left | TextAlign::End | TextAlign::Justify => 0,
            TextAlign::Right | TextAlign::Start => 2,
            TextAlign::Center => 1,
        },
    }
}

/// Bytes that UTF-8 uses for a character.
pub open spec fn utf8_width(c: char) -> nat {
    if (c as u32) < 0x80 {
        1
    } else if (c as u32) < 0x800 {
        2
    } else if (c as u32) < 0x10000 {
        3
    } else {
        4
    }
}

/// Bytes that UTF-8 uses for a string.
pub open spec fn utf8_len(s: Seq<char>) -> nat
    decreases s.len(),
{
    if s.len() == 0 {
        0
    } else {
        utf8_len(s.drop_last()) + utf8_width(s.last())
    }
}

/// The byte offset at which character `i` starts.
pub open spec fn byte_start(s: Seq<char>, i: int) -> nat {
    utf8_len(s.subrange(0, i))
}

/// `k` is the character index of byte offset `b`: the characters before it
/// start before `b`, and the one at `k` (if any) does not.
pub open spec fn is_char_index(s: Seq<char>, b: nat, k: int) -> bool {
    &&& 0 <= k <= s.len()
    &&& forall|j: int| 0 <= j < k ==> #[trigger] byte_start(s, j) < b
    &&& k < s.len() ==> byte_start(s, k) >= b
}

fn utf8_width_of(c: char) -> (r: u128)
    ensures
        r == utf8_width(c),
{
    let v = c as u32;
    if v < 0x80 {
        1
    } else if v < 0x800 {
        2
    } else if v < 0x10000 {
        3
    } else {
        4
    }
}

proof fn lemma_byte_start_step(s: Seq<char>, i: int)
    requires
        0 <= i < s.len(),
    ensures
        byte_start(s, i + 1) == byte_start(s, i) + utf8_width(s[i]),
{
    assert(s.subrange(0, i + 1).drop_last() =~= s.subrange(0, i));
}

fn char_index_of_byte(text: &str, b: usize) -> (k: usize)
    ensures
        is_char_index(text@, b as nat, k as int),
{
    let n = text.unicode_len();
    let mut i: usize = 0;
    let mut pos: u128 = 0;
    proof {
        assert(text@.subrange(0, 0) =~= Seq::<char>::empty());
    }
    while i < n && pos < b as u128
        invariant
            n == text@.len(),
            i <= n,
            pos == byte_start(text@, i as int),
            forall|j: int| 0 <= j < i ==> #[trigger] byte_start(text@, j) < b,
        decreases n - i,
    {
        proof {
            lemma_byte_start_step(text@, i as int);
        }
        let w = utf8_width_of(text.get_char(i));
        assert forall|j: int| 0 <= j < i + 1 implies #[trigger] byte_start(text@, j) < b by {
            if j == i {
            }
        }
        pos = pos + w;
        i = i + 1;
    }
    i
}

/// Converts the byte range of a laid-out line into character indices: each
/// end becomes the index of the first character that starts at or after
/// it, or the character count when there is none.
pub fn string_idx_range(text: &str, start_idx: usize, end_idx: usize) -> (r: core::ops::Range<
    usize,
>)
    ensures
        is_char_index(text@, start_idx as nat, r.start as int),
        is_char_index(text@, end_idx as nat, r.end as int),
{
    let start = char_index_of_byte(text, start_idx);
    let end = char_index_of_byte(text, end_idx);
    core::ops::Range { start, end }
}

/// The English ordinal suffix of a number: `st`, `nd`, `rd`, or `th` (which
/// the teens always take).
pub open spec fn ordinal_suffix(n: nat) -> Seq<char> {
    if 11 <= n % 100 <= 13 {
        "th"@
    } else if n % 10 == 1 {
        "st"@
    } else if n % 10 == 2 {
        "nd"@
    } else if n % 10 == 3 {
        "rd"@
    } else {
        "th"@
    }
}

/// The ordinal of an argument position, for messages (`1st`, `2nd`, `11th`).
pub fn arg_num(o: usize) -> (r: String)
    ensures
        r@ == decimal(o as nat) + ordinal_suffix(o as nat),
{
    let mut r = String::new();
    push_decimal(&mut r, o as u64);
    let last_two = o % 100;
    if 11 <= last_two && last_two <= 13 {
        r.append("th");
    } else if o % 10 == 1 {
        r.append("st");
    } else if o % 10 == 2 {
        r.append("nd");
    } else if o % 10 == 3 {
        r.append("rd");
    } else {
        r.append("th");
    }
    r
}

/// The text handed to layout: as given when lines may wrap, else on one
/// line, each line break turned into a space.
pub open spec fn layout_text_of(text: Seq<char>, wrap: bool) -> Seq<char> {
    if wrap {
        text
    } else {
        text.map_values(|c: char| if c == '\n' { ' ' } else { c })
    }
}

/// Relies on `str::replace` with a one-character pattern and a
/// one-character replacement: every `'\n'` becomes `' '`, nothing else
/// changes.
#[verifier::external_body]
fn newlines_to_spaces(text: &str) -> (r: String)
    ensures
        r@ == text@.map_values(|c: char| if c == '\n' { ' ' } else { c }),
{
    text.replace("\n", " ")
}

/// The text that layout receives for a draw or a measurement.
pub fn layout_text(text: &str, wrap: bool) -> (r: String)
    ensures
        r@ == layout_text_of(text@, wrap),
{
    if wrap {
        String::from_str(text)
    } else {
        newlines_to_spaces(text)
    }
}

/// An ASCII decimal digit.
pub open spec fn is_digit(c: char) -> bool {
    '0' <= c && c <= '9'
}

/// The value of a string of decimal digits.
pub open spec fn digits_value(s: Seq<char>) -> int
    decreases s.len(),
{
    if s.len() == 0 {
        0
    } else {
        digits_value(s.drop_last()) * 10 + ((s.last() as u32) - ('0' as u32))
    }
}

/// One or more ASCII decimal digits.
pub open spec fn all_digits(s: Seq<char>) -> bool {
    s.len() > 0 && forall|i: int| 0 <= i < s.len() ==> is_digit(#[trigger] s[i])
}

/// What `i32`'s `FromStr` accepts: an optional `+` or `-`, then digits
/// only, for a value that fits.
pub open spec fn i32_of(s: Seq<char>) -> Option<i32> {
    let v = if s.len() > 0 && s[0] == '-' && all_digits(s.skip(1)) {
        Some(-digits_value(s.skip(1)))
    } else if s.len() > 0 && s[0] == '+' && all_digits(s.skip(1)) {
        Some(digits_value(s.skip(1)))
    } else if all_digits(s) {
        Some(digits_value(s))
    } else {
        None::<int>
    };
    match v {
        Some(x) => if i32::MIN <= x <= i32::MAX {
            Some(x as i32)
        } else {
            None
        },
        None => None,
    }
}

/// Relies on `<i32 as FromStr>::from_str`, which the standard library
/// documents as an optional sign followed by digits only, failing on
/// anything else and on values out of range.
#[verifier::external_body]
fn parse_i32(s: &str) -> (r: Option<i32>)
    ensures
        r == i32_of(s@),
{
    s.parse::<i32>().ok()
}

/// The value a font feature setting asks for: `on` is 1, `off` is 0, and
/// otherwise an integer.
pub open spec fn feature_value(v: Seq<char>) -> Option<i32> {
    if v == "on"@ {
        Some(1)
    } else if v == "off"@ {
        Some(0)
    } else {
        i32_of(v)
    }
}

/// The feature list of a font spec: each setting whose value can be read,
/// in the order given.
pub open spec fn features_of(entries: Seq<(String, String)>) -> Seq<(Seq<char>, i32)>
    decreases entries.len(),
{
    if entries.len() == 0 {
        Seq::empty()
    } else {
        let rest = features_of(entries.drop_last());
        match feature_value(entries.last().1@) {
            Some(v) => rest.push((entries.last().0@, v)),
            None => rest,
        }
    }
}

/// Reads font feature settings (name, value); a setting whose value is not
/// `on`, `off` or an integer is left out.
pub fn font_features(entries: &Vec<(String, String)>) -> (r: Vec<(String, i32)>)
    ensures
        r@.len() == features_of(entries@).len(),
        forall|i: int|
            0 <= i < r@.len() ==> (#[trigger] r@[i]).0@ == features_of(entries@)[i].0 && r@[i].1
                == features_of(entries@)[i].1,
{
    let mut r: Vec<(String, i32)> = Vec::new();
    let mut i: usize = 0;
    while i < entries.len()
        invariant
            i <= entries@.len(),
            r@.len() == features_of(entries@.subrange(0, i as int)).len(),
            forall|j: int|
                0 <= j < r@.len() ==> (#[trigger] r@[j]).0@ == features_of(
                    entries@.subrange(0, i as int),
                )[j].0 && r@[j].1 == features_of(entries@.subrange(0, i as int))[j].1,
        decreases entries@.len() - i,
    {
        let name = &entries[i].0;
        let value = entries[i].1.as_str();
        let v = if str_eq(value, "on") {
            Some(1i32)
        } else if str_eq(value, "off") {
            Some(0i32)
        } else {
            parse_i32(value)
        };
        assert(entries@.subrange(0, i + 1).drop_last() =~= entries@.subrange(0, i as int));
        if let Some(v) = v {
            r.push((name.clone(), v));
        }
        i = i + 1;
    }
    assert(entries@.subrange(0, entries@.len() as int) =~= entries@);
    r
}

/// One design axis of a variable font: its four-byte tag (big-endian, so
/// `wght` is `0x77676874`) and its range, in whole units.
#[derive(Clone, Copy, Debug, PartialEq, Eq, Structural)]
pub struct VariationAxis {
    pub tag: u32,
    pub min: i32,
    pub max: i32,
}

/// The tag of the weight axis, `wght`.
pub const WGHT_TAG: u32 = 0x7767_6874;

/// Remainder of division by 100 that keeps the sign of `v`, as Rust's `%`.
pub open spec fn rem_100(v: int) -> int {
    if v >= 0 {
        v % 100
    } else {
        -((-v) % 100)
    }
}

/// The next weight worth listing after `v`: the next multiple of 100 above
/// it (for negative `v`, 100 past the multiple toward zero).
pub open spec fn next_weight(v: int) -> int {
    v + 100 - rem_100(v)
}

/// The weights from `v` up to `max`, stepping by `next_weight`.
pub open spec fn weight_steps(v: int, max: int) -> Seq<i32>
    decreases max + 200 - v,
{
    if v > max {
        Seq::empty()
    } else {
        seq![#[verifier::truncate] (v as i32)] + weight_steps(next_weight(v), max)
    }
}

/// The weights listed after one more axis: for a weight axis its steps,
/// then its maximum if that is not listed yet; other axes add nothing.
pub open spec fn with_axis(listed: Seq<i32>, axis: VariationAxis) -> Seq<i32> {
    if axis.tag != WGHT_TAG {
        listed
    } else {
        let w = listed + weight_steps(axis.min as int, axis.max as int);
        if w.contains(axis.max) {
            w
        } else {
            w.push(axis.max)
        }
    }
}

/// The weights listed for a font's axes, in order.
pub open spec fn weights_of(axes: Seq<VariationAxis>) -> Seq<i32>
    decreases axes.len(),
{
    if axes.len() == 0 {
        Seq::empty()
    } else {
        with_axis(weights_of(axes.drop_last()), axes.last())
    }
}

proof fn lemma_next_weight_grows(v: int)
    ensures
        v < next_weight(v),
{
}

fn contains_i32(v: &Vec<i32>, x: i32) -> (r: bool)
    ensures
        r == v@.contains(x),
{
    let mut i: usize = 0;
    while i < v.len()
        invariant
            i <= v@.len(),
            forall|j: int| 0 <= j < i ==> v@[j] != x,
        decreases v@.len() - i,
    {
        if v[i] == x {
            return true;
        }
        i = i + 1;
    }
    false
}

/// The weights a variable font offers, for listing: each multiple of 100
/// within its weight axis, with the axis's own minimum and maximum.
pub fn typeface_wght_range(axes: &Vec<VariationAxis>) -> (r: Vec<i32>)
    ensures
        r@ == weights_of(axes@),
{
    let mut wghts: Vec<i32> = Vec::new();
    let mut a: usize = 0;
    while a < axes.len()
        invariant
            a <= axes@.len(),
            wghts@ == weights_of(axes@.subrange(0, a as int)),
        decreases axes@.len() - a,
    {
        let axis = axes[a];
        assert(axes@.subrange(0, a + 1).drop_last() =~= axes@.subrange(0, a as int));
        if axis.tag == WGHT_TAG {
            let ghost base = wghts@;
            let max = axis.max as i64;
            let mut val: i64 = axis.min as i64;
            while val <= max
                invariant
                    max == axis.max,
                    axis.min <= val,
                    val <= 0x7fff_ffff + 200,
                    wghts@ + weight_steps(val as int, max as int) == base + weight_steps(
                        axis.min as int,
                        axis.max as int,
                    ),
                decreases max + 200 - val,
            {
                proof {
                    lemma_next_weight_grows(val as int);
                }
                let ghost before = wghts@;
                wghts.push(val as i32);
                let rem = if val >= 0 {
                    val % 100
                } else {
                    -((-val) % 100)
                };
                val = val + 100 - rem;
                assert(wghts@ + weight_steps(val as int, max as int) =~= before + weight_steps(
                    (val - 100 + rem) as int,
                    max as int,
                ));
            }
            assert(wghts@ =~= base + weight_steps(axis.min as int, axis.max as int));
            if !contains_i32(&wghts, axis.max) {
                wghts.push(axis.max);
            }
        }
        a = a + 1;
    }
    assert(axes@.subrange(0, axes@.len() as int) =~= axes@);
    wghts
}

} // verus!
