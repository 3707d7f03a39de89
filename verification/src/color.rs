//! Colors and the vertical gradient interpolation used at render time.

use vstd::prelude::*;
use crate::text::{lower_of, lowercase, invalid_msg};

verus! {

/// A terminal foreground color: one of the named palette entries or a
/// direct 24-bit value.
#[derive(Clone, Copy, PartialEq, Eq, Debug)]
pub enum ColorName {
    Black,
    Red,
    Green,
    Yellow,
    Blue,
    Magenta,
    Cyan,
    White,
    Grey,
    Rgb(u8, u8, u8),
}

/// The red/green/blue channels that a color renders as.
pub open spec fn rgb_of(c: ColorName) -> (u8, u8, u8) {
    match c {
        ColorName::Rgb(r, g, b) => (r, g, b),
        ColorName::Red => (255u8, 0u8, 0u8),
        ColorName::Green => (0u8, 255u8, 0u8),
        ColorName::Blue => (0u8, 0u8, 255u8),
        ColorName::Yellow => (255u8, 255u8, 0u8),
        ColorName::Magenta => (255u8, 0u8, 255u8),
        ColorName::Cyan => (0u8, 255u8, 255u8),
        ColorName::White => (255u8, 255u8, 255u8),
        ColorName::Black => (0u8, 0u8, 0u8),
        ColorName::Grey => (128u8, 128u8, 128u8),
    }
}

/// The channel triple of a color.
pub fn color_to_rgb(col: ColorName) -> (r: (u8, u8, u8))
    ensures
        r == rgb_of(col),
{
    match col {
        ColorName::Rgb(r, g, b) => (r, g, b),
        ColorName::Red => (255, 0, 0),
        ColorName::Green => (0, 255, 0),
        ColorName::Blue => (0, 0, 255),
        ColorName::Yellow => (255, 255, 0),
        ColorName::Magenta => (255, 0, 255),
        ColorName::Cyan => (0, 255, 255),
        ColorName::White => (255, 255, 255),
        ColorName::Black => (0, 0, 0),
        ColorName::Grey => (128, 128, 128),
    }
}

/// Which named color a lowercase keyword names.
pub open spec fn color_of_lower(t: Seq<char>) -> Option<ColorName> {
    if t == "black"@ {
        Some(ColorName::Black)
    } else if t == "red"@ {
        Some(ColorName::Red)
    } else if t == "green"@ {
        Some(ColorName::Green)
    } else if t == "yellow"@ {
        Some(ColorName::Yellow)
    } else if t == "blue"@ {
        Some(ColorName::Blue)
    } else if t == "magenta"@ {
        Some(ColorName::Magenta)
    } else if t == "cyan"@ {
        Some(ColorName::Cyan)
    } else if t == "white"@ {
        Some(ColorName::White)
    } else if t == "grey"@ || t == "gray"@ {
        Some(ColorName::Grey)
    } else {
        None
    }
}

/// The color named by an already lower-cased keyword.
pub fn classify_color(t: &String) -> (r: Option<ColorName>)
    ensures
        r == color_of_lower(t@),
{
    if *t == "black".to_owned() {
        Some(ColorName::Black)
    } else if *t == "red".to_owned() {
        Some(ColorName::Red)
    } else if *t == "green".to_owned() {
        Some(ColorName::Green)
    } else if *t == "yellow".to_owned() {
        Some(ColorName::Yellow)
    } else if *t == "blue".to_owned() {
        Some(ColorName::Blue)
    } else if *t == "magenta".to_owned() {
        Some(ColorName::Magenta)
    } else if *t == "cyan".to_owned() {
        Some(ColorName::Cyan)
    } else if *t == "white".to_owned() {
        Some(ColorName::White)
    } else if *t == "grey".to_owned() || *t == "gray".to_owned() {
        Some(ColorName::Grey)
    } else {
        None
    }
}

/// Validates a color option, case-insensitively.
pub fn parse_color(s: &str) -> (r: Result<ColorName, String>)
    ensures
        color_of_lower(lower_of(s@)) is Some ==> r == Ok::<ColorName, String>(
            color_of_lower(lower_of(s@)).unwrap(),
        ),
        color_of_lower(lower_of(s@)) is None ==> (r matches Err(e) && e@ == "Invalid color '"@
            + s@
            + "'. Available colors: black, red, green, yellow, blue, magenta, cyan, white, grey"@),
{
    let t = lowercase(s);
    match classify_color(&t) {
        Some(c) => Ok(c),
        None => Err(
            invalid_msg(
                "Invalid color '",
                s,
                "'. Available colors: black, red, green, yellow, blue, magenta, cyan, white, grey",
            ),
        ),
    }
}

/// One channel of the gradient: the linear blend of `a` (weight
/// `den - num`) and `b` (weight `num`), rounded down.
pub open spec fn lerp_channel_spec(a: int, b: int, num: int, den: int) -> int
    recommends
        0 < den,
        0 <= num <= den,
{
    (a * (den - num) + b * num) / den
}

/// One channel of the gradient, on machine integers.
pub fn lerp_channel(a: u8, b: u8, num: u64, den: u64) -> (r: u8)
    requires
        0 < den <= 0x1_0000_0000,
        num <= den,
    ensures
        r as int == lerp_channel_spec(a as int, b as int, num as int, den as int),
{
    proof {
        assert((a as int) * ((den - num) as int) + (b as int) * (num as int) <= 255 * (den as int))
            by (nonlinear_arith)
            requires
                a <= 255,
                b <= 255,
                0 <= num <= den,
        ;
        assert((a as int) * ((den - num) as int) >= 0) by (nonlinear_arith)
            requires
                num <= den,
        ;
        assert((b as int) * (num as int) >= 0) by (nonlinear_arith);
    }
    let wide: u64 = (a as u64) * (den - num) + (b as u64) * num;
    let q: u64 = wide / den;
    proof {
        assert(wide as int / den as int <= (255 * (den as int)) / den as int) by {
            vstd::arithmetic::div_mod::lemma_div_is_ordered(
                wide as int,
                255 * (den as int),
                den as int,
            );
        }
        assert((255 * (den as int)) / den as int == 255) by (nonlinear_arith)
            requires
                den > 0,
        ;
    }
    q as u8
}

/// The gradient color at vertical position `num` of `den`: each channel
/// blended between the top color (`num == 0`) and the bottom color
/// (`num == den`).
pub open spec fn gradient_rgb_spec(top: ColorName, bottom: ColorName, num: int, den: int) -> ColorName
    recommends
        0 < den,
        0 <= num <= den,
{
    ColorName::Rgb(
        lerp_channel_spec(rgb_of(top).0 as int, rgb_of(bottom).0 as int, num, den) as u8,
        lerp_channel_spec(rgb_of(top).1 as int, rgb_of(bottom).1 as int, num, den) as u8,
        lerp_channel_spec(rgb_of(top).2 as int, rgb_of(bottom).2 as int, num, den) as u8,
    )
}

/// The gradient color, on machine integers.
pub fn gradient_rgb(top: ColorName, bottom: ColorName, num: u64, den: u64) -> (r: ColorName)
    requires
        0 < den <= 0x1_0000_0000,
        num <= den,
    ensures
        r == gradient_rgb_spec(top, bottom, num as int, den as int),
{
    let (r1, g1, b1) = color_to_rgb(top);
    let (r2, g2, b2) = color_to_rgb(bottom);
    ColorName::Rgb(
        lerp_channel(r1, r2, num, den),
        lerp_channel(g1, g2, num, den),
        lerp_channel(b1, b2, num, den),
    )
}

/// A blended channel never leaves the range its endpoints span: it stays
/// between the top color's value and the bottom color's value.
pub proof fn lemma_lerp_channel_in_range(a: int, b: int, num: int, den: int)
    requires
        0 <= a <= 255,
        0 <= b <= 255,
        0 < den,
        0 <= num <= den,
    ensures
        0 <= lerp_channel_spec(a, b, num, den) <= 255,
        a <= b ==> a <= lerp_channel_spec(a, b, num, den) <= b,
        a >= b ==> b <= lerp_channel_spec(a, b, num, den) <= a,
{
    assert(0 <= a * (den - num) + b * num <= 255 * den) by (nonlinear_arith)
        requires
            0 <= a <= 255,
            0 <= b <= 255,
            0 < den,
            0 <= num <= den,
    ;
    vstd::arithmetic::div_mod::lemma_div_is_ordered(0, a * (den - num) + b * num, den);
    vstd::arithmetic::div_mod::lemma_div_is_ordered(a * (den - num) + b * num, 255 * den, den);
    assert((255 * den) / den == 255) by (nonlinear_arith)
        requires
            den > 0,
    ;
    lemma_gradient_channel_edges(a, b, den);
    lemma_lerp_channel_monotone(a, b, 0, num, den);
    lemma_lerp_channel_monotone(a, b, num, den, den);
}

/// At the edges the blend is exactly one endpoint: the first at position
/// zero and the second at the full depth.
proof fn lemma_gradient_channel_edges(a: int, b: int, den: int)
    requires
        0 < den,
    ensures
        lerp_channel_spec(a, b, 0, den) == a,
        lerp_channel_spec(a, b, den, den) == b,
{
    assert(a * (den - 0) + b * 0 == a * den);
    assert(a * (den - den) + b * den == b * den);
    assert((a * den) / den == a) by (nonlinear_arith)
        requires
            den > 0,
    ;
    assert((b * den) / den == b) by (nonlinear_arith)
        requires
            den > 0,
    ;
}

/// At the very top of the viewport the gradient renders exactly the top
/// color's channels, and at the very bottom exactly the bottom color's.
pub proof fn lemma_gradient_endpoints(top: ColorName, bottom: ColorName, den: int)
    requires
        0 < den,
    ensures
        gradient_rgb_spec(top, bottom, 0, den) == ColorName::Rgb(
            rgb_of(top).0,
            rgb_of(top).1,
            rgb_of(top).2,
        ),
        gradient_rgb_spec(top, bottom, den, den) == ColorName::Rgb(
            rgb_of(bottom).0,
            rgb_of(bottom).1,
            rgb_of(bottom).2,
        ),
{
    lemma_gradient_channel_edges(rgb_of(top).0 as int, rgb_of(bottom).0 as int, den);
    lemma_gradient_channel_edges(rgb_of(top).1 as int, rgb_of(bottom).1 as int, den);
    lemma_gradient_channel_edges(rgb_of(top).2 as int, rgb_of(bottom).2 as int, den);
}

/// Each channel of the gradient moves monotonically from the top color's
/// value to the bottom color's value as the vertical position grows.
pub proof fn lemma_lerp_channel_monotone(a: int, b: int, num1: int, num2: int, den: int)
    requires
        0 <= a <= 255,
        0 <= b <= 255,
        0 < den,
        0 <= num1 <= num2 <= den,
    ensures
        a <= b ==> lerp_channel_spec(a, b, num1, den) <= lerp_channel_spec(a, b, num2, den),
        a >= b ==> lerp_channel_spec(a, b, num1, den) >= lerp_channel_spec(a, b, num2, den),
{
    let v1 = a * (den - num1) + b * num1;
    let v2 = a * (den - num2) + b * num2;
    assert((a * (den - num2) + b * num2) - (a * (den - num1) + b * num1) == (b - a) * (num2
        - num1)) by (nonlinear_arith);
    if a <= b {
        assert((b - a) * (num2 - num1) >= 0) by (nonlinear_arith)
            requires
                b - a >= 0,
                num2 - num1 >= 0,
        ;
        vstd::arithmetic::div_mod::lemma_div_is_ordered(v1, v2, den);
    }
    if a >= b {
        assert((b - a) * (num2 - num1) <= 0) by (nonlinear_arith)
            requires
                b - a <= 0,
                num2 - num1 >= 0,
        ;
        vstd::arithmetic::div_mod::lemma_div_is_ordered(v2, v1, den);
    }
}

} // verus!
