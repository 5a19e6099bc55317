//! Printing colours the way the canvas reports them: `#rrggbb` when
//! opaque, `rgba(r, g, b, a)` otherwise.
use vstd::prelude::*;
use crate::strings::{decimal, digit_char, digit_str, push_decimal};

verus! {

pub open spec fn alpha_of(color: u32) -> nat {
    (color / 0x1000000) as nat
}

pub open spec fn red_of(color: u32) -> nat {
    (color / 0x10000 % 256) as nat
}

pub open spec fn green_of(color: u32) -> nat {
    (color / 0x100 % 256) as nat
}

pub open spec fn blue_of(color: u32) -> nat {
    (color % 256) as nat
}

/// Two lowercase hexadecimal digits of a byte.
pub open spec fn hex_byte(v: nat) -> Seq<char> {
    seq![digit_char(v / 16), digit_char(v % 16)]
}

/// An alpha byte as a fraction of 255, rounded to thousandths.
pub open spec fn alpha_thousandths(a: nat) -> nat {
    (a * 2000 + 255) / 510
}

/// The alpha of a translucent colour as printed: a fraction of 255 with
/// three decimals and no trailing zeros, and `0` for none at all.
pub open spec fn alpha_text(a: nat) -> Seq<char> {
    let k = alpha_thousandths(a);
    if k == 0 {
        "0"@
    } else if k % 100 == 0 {
        "0."@ + seq![digit_char(k / 100)]
    } else if k % 10 == 0 {
        "0."@ + seq![digit_char(k / 100), digit_char(k / 10 % 10)]
    } else {
        "0."@ + seq![digit_char(k / 100), digit_char(k / 10 % 10), digit_char(k % 10)]
    }
}

/// The CSS text of a 32-bit ARGB colour.
pub open spec fn css_of_color(color: u32) -> Seq<char> {
    if alpha_of(color) == 255 {
        "#"@ + hex_byte(red_of(color)) + hex_byte(green_of(color)) + hex_byte(blue_of(color))
    } else {
        "rgba("@ + decimal(red_of(color)) + ", "@ + decimal(green_of(color)) + ", "@ + decimal(
            blue_of(color),
        ) + ", "@ + alpha_text(alpha_of(color)) + ")"@
    }
}

fn push_hex_byte(out: &mut String, v: u32)
    requires
        v < 256,
    ensures
        final(out)@ == old(out)@ + hex_byte(v as nat),
{
    out.append(digit_str((v / 16) as u8));
    out.append(digit_str((v % 16) as u8));
    assert(final(out)@ =~= old(out)@ + hex_byte(v as nat));
}

/// Prints a colour (32-bit ARGB) as CSS.
pub fn color_to_css(color: u32) -> (r: Result<String, ()>)
    ensures
        r matches Ok(s) && s@ == css_of_color(color),
{
    let a = color / 0x1000000;
    let red = color / 0x10000 % 256;
    let green = color / 0x100 % 256;
    let blue = color % 256;
    let mut out = String::new();
    if a == 255 {
        out.append("#");
        push_hex_byte(&mut out, red);
        push_hex_byte(&mut out, green);
        push_hex_byte(&mut out, blue);
    } else {
        out.append("rgba(");
        push_decimal(&mut out, red as u64);
        out.append(", ");
        push_decimal(&mut out, green as u64);
        out.append(", ");
        push_decimal(&mut out, blue as u64);
        out.append(", ");
        let k = (a * 2000 + 255) / 510;
        if k == 0 {
            out.append("0");
        } else {
            out.append("0.");
            out.append(digit_str((k / 100) as u8));
            if k % 100 != 0 {
                out.append(digit_str((k / 10 % 10) as u8));
                if k % 10 != 0 {
                    out.append(digit_str((k % 10) as u8));
                }
            }
        }
        out.append(")");
    }
    assert(out@ =~= css_of_color(color));
    Ok(out)
}

} // verus!
