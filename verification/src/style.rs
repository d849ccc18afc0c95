//! View modes, gradient kinds, line caps and joins, and the opacity
//! attribute formatter shared by fill and stroke rendering.

use vstd::prelude::*;
use vstd::arithmetic::div_mod::{lemma_fundamental_div_mod, lemma_div_is_ordered};
use crate::color::Color;
use crate::num::{Scalar, SCALE};
use crate::text::{str_to_chars, string_from_chars, dec_digit_char};

verus! {

/// How the document is being rendered.
#[derive(Clone, Copy, Debug, PartialEq, Eq, Structural)]
pub enum ViewMode {
    /// Normal coloration at the current viewport resolution.
    Normal,
    /// Only the outlines of shapes, with a fixed synthetic stroke.
    Outline,
    /// Normal coloration at the document resolution.
    Pixels,
}

impl Default for ViewMode {
    fn default() -> (r: Self)
        ensures
            r == ViewMode::Normal,
    {
        ViewMode::Normal
    }
}

/// The two supported gradient geometries.
#[derive(Clone, Copy, Debug, PartialEq, Eq, Hash, Structural)]
pub enum GradientType {
    Linear,
    Radial,
}

impl Default for GradientType {
    fn default() -> (r: Self)
        ensures
            r == GradientType::Linear,
    {
        GradientType::Linear
    }
}

/// Stroke line cap styles.
#[derive(Clone, Copy, Debug, PartialEq, Eq, Structural)]
pub enum LineCap {
    Butt,
    Round,
    Square,
}

/// Stroke line join styles.
#[derive(Clone, Copy, Debug, PartialEq, Eq, Structural)]
pub enum LineJoin {
    Miter,
    Bevel,
    Round,
}

/// The fixed lowercase SVG name of a line cap.
pub open spec fn line_cap_chars(c: LineCap) -> Seq<char> {
    match c {
        LineCap::Butt => "butt"@,
        LineCap::Round => "round"@,
        LineCap::Square => "square"@,
    }
}

/// The fixed lowercase SVG name of a line join.
pub open spec fn line_join_chars(j: LineJoin) -> Seq<char> {
    match j {
        LineJoin::Miter => "miter"@,
        LineJoin::Bevel => "bevel"@,
        LineJoin::Round => "round"@,
    }
}

impl LineCap {
    /// The lowercase SVG name of the cap.
    pub fn name(&self) -> (r: String)
        ensures
            r@ == line_cap_chars(*self),
    {
        match self {
            LineCap::Butt => "butt".to_owned(),
            LineCap::Round => "round".to_owned(),
            LineCap::Square => "square".to_owned(),
        }
    }
}

impl LineJoin {
    /// The lowercase SVG name of the join.
    pub fn name(&self) -> (r: String)
        ensures
            r@ == line_join_chars(*self),
    {
        match self {
            LineJoin::Miter => "miter".to_owned(),
            LineJoin::Bevel => "bevel".to_owned(),
            LineJoin::Round => "round".to_owned(),
        }
    }
}

/// The alpha value `a / 255` rounded to the nearest thousandth: the value
/// written by [`format_opacity`].
pub open spec fn opacity_thousandths(a: int) -> int {
    (a * 2000 + 255) / 510
}

/// Three zero-padded decimal digits of `t` (which is below 1000).
pub open spec fn pad3(t: int) -> Seq<char> {
    seq![dec_digit_char(t / 100), dec_digit_char(t / 10 % 10), dec_digit_char(t % 10)]
}

/// The opacity attribute fragment: empty when the alpha channel is fully
/// opaque (255), otherwise ` {name}-opacity="0.ttt"` with the alpha rounded
/// to three decimal places. Alpha is an 8-bit channel, so only multiples of
/// 1/255 are representable and appear here (an exact one half, for example,
/// is not among them).
pub open spec fn opacity_frag(name: Seq<char>, a: u8) -> Seq<char> {
    if a == 255 {
        Seq::empty()
    } else {
        seq![' '] + name + "-opacity=\"0."@ + pad3(opacity_thousandths(a as int)) + seq!['"']
    }
}

/// An alpha of 255 means 1.0 exactly, and any smaller alpha differs from 1.0
/// by more than the 10^-3 threshold, so the fragment is emitted exactly for
/// alphas below 255.
pub proof fn lemma_opacity_thousandths_bounds(a: u8)
    requires
        a < 255,
    ensures
        0 <= opacity_thousandths(a as int) < 1000,
{
    lemma_div_is_ordered(0, a as int * 2000 + 255, 510);
    lemma_div_is_ordered(a as int * 2000 + 255, 508255, 510);
    assert(508255int / 510 == 996);
}

/// The thousandths value written by [`format_opacity`] is within half a
/// thousandth of the true alpha `a / 255`: `|t/1000 - a/255| <= 1/2000`,
/// stated over integers as `|255*t - 1000*a| <= 127`. The written value
/// therefore rounds back to the same alpha at three-decimal precision.
pub proof fn lemma_opacity_value_round_trips(a: u8)
    requires
        a < 255,
    ensures
        -127 <= 255 * opacity_thousandths(a as int) - 1000 * (a as int),
        255 * opacity_thousandths(a as int) - 1000 * (a as int) <= 127,
{
    let n = a as int * 2000 + 255;
    let t = n / 510;
    let r = n % 510;
    lemma_fundamental_div_mod(n, 510);
    assert(n == 510 * t + r);
    assert(2 * (255 * t - 1000 * (a as int)) == 255 - r);
}

/// Format the opacity attribute for `name` (e.g. `fill` or `stroke`): the
/// empty string when `alpha` is 255, otherwise ` {name}-opacity="0.ttt"`.
pub fn format_opacity(name: &str, alpha: u8) -> (r: String)
    ensures
        r@ == opacity_frag(name@, alpha),
{
    if alpha == 255 {
        return String::new();
    }
    proof {
        lemma_opacity_thousandths_bounds(alpha);
    }
    let t: u32 = ((alpha as u32) * 2000 + 255) / 510;
    let mut v: Vec<char> = Vec::new();
    v.push(' ');
    let mut name_chars = str_to_chars(name);
    v.append(&mut name_chars);
    let mut mid = str_to_chars("-opacity=\"0.");
    v.append(&mut mid);
    v.push(crate::text::dec_digit((t / 100) as u64));
    v.push(crate::text::dec_digit((t / 10 % 10) as u64));
    v.push(crate::text::dec_digit((t % 10) as u64));
    v.push('"');
    assert(v@ =~= opacity_frag(name@, alpha));
    string_from_chars(v)
}

/// The fixed stroke color used for every shape in outline view mode.
pub fn outline_stroke_color() -> (c: Color)
    ensures
        c == (Color { r: 0, g: 0, b: 0, a: 255 }),
{
    Color::black()
}

/// The fixed stroke weight used for every shape in outline view mode.
pub fn outline_stroke_weight() -> (w: Scalar)
    ensures
        w.units == SCALE,
{
    Scalar { units: SCALE }
}

} // verus!
