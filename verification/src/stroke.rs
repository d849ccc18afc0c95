//! Stroke configuration and its SVG attribute rendering.

use vstd::prelude::*;
use vstd::string::StringSliceAdditionalSpecFns;
use vstd::utf8::encode_utf8;
use crate::color::{Color, rgb_hex_chars, push_hex2, parse_rgba_hex, parse_rgb_hex};
use crate::num::{Scalar, SCALE};
use crate::parse::{parse_scalar_list, parse_scalars};
use crate::style::{LineCap, LineJoin, line_cap_chars, line_join_chars, opacity_frag, format_opacity};
use crate::text::{str_to_chars, string_from_chars, scalar_chars, scalar_to_chars, join_scalars, join_scalars_exec};

verus! {

/// The stroke (outline) style of an SVG element. A stroke with no color
/// renders as nothing at all.
#[derive(Clone, Debug, PartialEq)]
pub struct Stroke {
    /// Stroke color; `None` renders no stroke attributes at all.
    pub color: Option<Color>,
    /// Line thickness.
    pub weight: Scalar,
    /// Dash lengths; a single `0` means no dashing.
    pub dash_lengths: Vec<Scalar>,
    /// Offset into the dash pattern.
    pub dash_offset: Scalar,
    pub line_cap: LineCap,
    pub line_join: LineJoin,
    /// Miter limit used when `line_join` is `Miter`.
    pub line_join_miter_limit: Scalar,
}

/// The stroke attribute list for a stroke that has color `c`, with a leading
/// and a trailing space.
pub open spec fn spec_stroke_attrs(
    c: Color,
    weight: int,
    dash: Seq<Scalar>,
    offset: int,
    cap: LineCap,
    join: LineJoin,
    miter: int,
) -> Seq<char> {
    " stroke=\"#"@ + rgb_hex_chars(c) + "\""@ + opacity_frag("stroke"@, c.a)
        + " stroke-width=\""@ + scalar_chars(weight) + "\" stroke-dasharray=\""@ + join_scalars(
        dash,
    ) + "\" stroke-dashoffset=\""@ + scalar_chars(offset) + "\" stroke-linecap=\""@
        + line_cap_chars(cap) + "\" stroke-linejoin=\""@ + line_join_chars(join)
        + "\" stroke-miterlimit=\""@ + scalar_chars(miter) + "\" "@
}

/// The full stroke attribute fragment: empty when the stroke has no color,
/// otherwise the color, opacity, width, dash, cap, join and miter-limit
/// attributes, with a leading and a trailing space.
pub open spec fn spec_stroke_render(s: Stroke) -> Seq<char> {
    match s.color {
        Option::None => Seq::empty(),
        Option::Some(c) => spec_stroke_attrs(
            c,
            s.weight.units as int,
            s.dash_lengths@,
            s.dash_offset.units as int,
            s.line_cap,
            s.line_join,
            s.line_join_miter_limit.units as int,
        ),
    }
}

/// `b` agrees with `a` on every field except possibly the color, which is `c`.
pub open spec fn same_but_color(a: Stroke, b: Stroke, c: Option<Color>) -> bool {
    &&& b.color == c
    &&& b.weight == a.weight
    &&& b.dash_lengths@ == a.dash_lengths@
    &&& b.dash_offset == a.dash_offset
    &&& b.line_cap == a.line_cap
    &&& b.line_join == a.line_join
    &&& b.line_join_miter_limit == a.line_join_miter_limit
}

/// A stroke with no color renders as the empty fragment, whatever its other
/// fields hold.
pub proof fn lemma_colorless_stroke_renders_empty(s: Stroke)
    requires
        s.color is None,
    ensures
        spec_stroke_render(s) == Seq::<char>::empty(),
{
}

fn copy_scalars(v: &Vec<Scalar>) -> (r: Vec<Scalar>)
    ensures
        r@ == v@,
{
    let mut out: Vec<Scalar> = Vec::new();
    let mut i: usize = 0;
    while i < v.len()
        invariant
            i <= v@.len(),
            out@ == v@.take(i as int),
        decreases v@.len() - i,
    {
        out.push(v[i]);
        proof {
            assert(v@.take(i as int + 1) =~= v@.take(i as int).push(v@[i as int]));
        }
        i = i + 1;
    }
    proof {
        assert(v@.take(v@.len() as int) =~= v@);
    }
    out
}

impl Stroke {
    /// A stroke of the given color and weight; everything else as in
    /// [`Stroke::default`].
    pub fn new(color: Color, weight: Scalar) -> (r: Stroke)
        ensures
            r.color == Some(color),
            r.weight == weight,
            r.dash_lengths@ == seq![Scalar { units: 0 }],
            r.dash_offset.units == 0,
            r.line_cap == LineCap::Butt,
            r.line_join == LineJoin::Miter,
            r.line_join_miter_limit.units == 4 * SCALE,
    {
        let mut s = Stroke::default();
        s.color = Some(color);
        s.weight = weight;
        s
    }

    /// The current stroke color.
    pub fn color(&self) -> (r: Option<Color>)
        ensures
            r == self.color,
    {
        self.color
    }

    /// The current stroke weight.
    pub fn weight(&self) -> (r: Scalar)
        ensures
            r == self.weight,
    {
        self.weight
    }

    /// The dash lengths joined with `", "`.
    pub fn dash_lengths(&self) -> (r: String)
        ensures
            r@ == join_scalars(self.dash_lengths@),
    {
        string_from_chars(join_scalars_exec(&self.dash_lengths))
    }

    /// The current dash offset.
    pub fn dash_offset(&self) -> (r: Scalar)
        ensures
            r == self.dash_offset,
    {
        self.dash_offset
    }

    /// The ordinal of the line cap (butt 0, round 1, square 2).
    pub fn line_cap_index(&self) -> (r: u32)
        ensures
            r == match self.line_cap {
                LineCap::Butt => 0u32,
                LineCap::Round => 1u32,
                LineCap::Square => 2u32,
            },
    {
        match self.line_cap {
            LineCap::Butt => 0,
            LineCap::Round => 1,
            LineCap::Square => 2,
        }
    }

    /// The ordinal of the line join (miter 0, bevel 1, round 2).
    pub fn line_join_index(&self) -> (r: u32)
        ensures
            r == match self.line_join {
                LineJoin::Miter => 0u32,
                LineJoin::Bevel => 1u32,
                LineJoin::Round => 2u32,
            },
    {
        match self.line_join {
            LineJoin::Miter => 0,
            LineJoin::Bevel => 1,
            LineJoin::Round => 2,
        }
    }

    /// The current miter limit.
    pub fn line_join_miter_limit(&self) -> (r: Scalar)
        ensures
            r == self.line_join_miter_limit,
    {
        self.line_join_miter_limit
    }

    /// The SVG attributes for the stroke: empty when there is no color.
    pub fn render(&self) -> (r: String)
        ensures
            r@ == spec_stroke_render(*self),
    {
        match self.color {
            None => String::new(),
            Some(c) => {
                let mut v = str_to_chars(" stroke=\"#");
                push_hex2(&mut v, c.r);
                push_hex2(&mut v, c.g);
                push_hex2(&mut v, c.b);
                let mut part = str_to_chars("\"");
                v.append(&mut part);
                let opacity = format_opacity("stroke", c.a);
                let mut part = str_to_chars(opacity.as_str());
                v.append(&mut part);
                let mut part = str_to_chars(" stroke-width=\"");
                v.append(&mut part);
                let mut part = scalar_to_chars(self.weight);
                v.append(&mut part);
                let mut part = str_to_chars("\" stroke-dasharray=\"");
                v.append(&mut part);
                let mut part = join_scalars_exec(&self.dash_lengths);
                v.append(&mut part);
                let mut part = str_to_chars("\" stroke-dashoffset=\"");
                v.append(&mut part);
                let mut part = scalar_to_chars(self.dash_offset);
                v.append(&mut part);
                let mut part = str_to_chars("\" stroke-linecap=\"");
                v.append(&mut part);
                let cap = self.line_cap.name();
                let mut part = str_to_chars(cap.as_str());
                v.append(&mut part);
                let mut part = str_to_chars("\" stroke-linejoin=\"");
                v.append(&mut part);
                let join = self.line_join.name();
                let mut part = str_to_chars(join.as_str());
                v.append(&mut part);
                let mut part = str_to_chars("\" stroke-miterlimit=\"");
                v.append(&mut part);
                let mut part = scalar_to_chars(self.line_join_miter_limit);
                v.append(&mut part);
                let mut part = str_to_chars("\" ");
                v.append(&mut part);
                assert(v@ =~= spec_stroke_render(*self));
                string_from_chars(v)
            },
        }
    }

    /// Set the color from optional text: eight hex digits, or six hex
    /// digits, or no text to clear the color; any other text is rejected and
    /// yields `None`.
    pub fn with_color(self, color: &Option<String>) -> (r: Option<Stroke>)
        ensures
            color is None ==> r is Some && same_but_color(self, r->0, Option::<Color>::None),
            color matches Some(txt) ==> match parse_rgba_hex(encode_utf8(txt@)) {
                Option::Some(c) => r is Some && same_but_color(self, r->0, Some(c)),
                Option::None => match parse_rgb_hex(encode_utf8(txt@)) {
                    Option::Some(c) => r is Some && same_but_color(self, r->0, Some(c)),
                    Option::None => r is None,
                },
            },
    {
        match color {
            None => {
                let mut s = self;
                s.color = None;
                Some(s)
            },
            Some(txt) => {
                match Color::from_rgba_str(txt.as_str()) {
                    Some(c) => {
                        let mut s = self;
                        s.color = Some(c);
                        Some(s)
                    },
                    None => match Color::from_rgb_str(txt.as_str()) {
                        Some(c) => {
                            let mut s = self;
                            s.color = Some(c);
                            Some(s)
                        },
                        None => None,
                    },
                }
            },
        }
    }

    /// Replace the weight.
    pub fn with_weight(self, weight: Scalar) -> (r: Stroke)
        ensures
            r.color == self.color,
            r.weight == weight,
            r.dash_offset == self.dash_offset,
            r.line_cap == self.line_cap,
            r.line_join == self.line_join,
            r.line_join_miter_limit == self.line_join_miter_limit,
            r.dash_lengths@ == self.dash_lengths@,
    {
        let mut s = self;
        s.weight = weight;
        s
    }

    /// Replace the dash lengths from a comma/space-delimited list of decimal
    /// numbers (optional sign, digits with at most one dot, an optional
    /// exponent clause); any unparseable token rejects the whole list.
    /// Limits of the fixed-point model: `inf` and `NaN` cannot be held by a
    /// [`Scalar`] and are rejected, fractional digits beyond the sixth are
    /// dropped, and a token whose whole part or scaled value exceeds the
    /// scalar range is rejected.
    pub fn with_dash_lengths(self, dash_lengths: &str) -> (r: Option<Stroke>)
        ensures
            match parse_scalar_list(dash_lengths.spec_bytes()) {
                Option::Some(ls) => {
                    &&& r is Some
                    &&& r->0.dash_lengths@ == ls
                    &&& r->0.color == self.color
                    &&& r->0.weight == self.weight
                    &&& r->0.dash_offset == self.dash_offset
                    &&& r->0.line_cap == self.line_cap
                    &&& r->0.line_join == self.line_join
                    &&& r->0.line_join_miter_limit == self.line_join_miter_limit
                },
                Option::None => r is None,
            },
    {
        match parse_scalars(dash_lengths.as_bytes()) {
            Some(v) => {
                let mut s = self;
                s.dash_lengths = v;
                Some(s)
            },
            None => None,
        }
    }

    /// Replace the dash offset.
    pub fn with_dash_offset(self, dash_offset: Scalar) -> (r: Stroke)
        ensures
            r.color == self.color,
            r.weight == self.weight,
            r.dash_offset == dash_offset,
            r.line_cap == self.line_cap,
            r.line_join == self.line_join,
            r.line_join_miter_limit == self.line_join_miter_limit,
            r.dash_lengths@ == self.dash_lengths@,
    {
        let mut s = self;
        s.dash_offset = dash_offset;
        s
    }

    /// Replace the line cap.
    pub fn with_line_cap(self, line_cap: LineCap) -> (r: Stroke)
        ensures
            r.color == self.color,
            r.weight == self.weight,
            r.dash_offset == self.dash_offset,
            r.line_cap == line_cap,
            r.line_join == self.line_join,
            r.line_join_miter_limit == self.line_join_miter_limit,
            r.dash_lengths@ == self.dash_lengths@,
    {
        let mut s = self;
        s.line_cap = line_cap;
        s
    }

    /// Replace the line join.
    pub fn with_line_join(self, line_join: LineJoin) -> (r: Stroke)
        ensures
            r.color == self.color,
            r.weight == self.weight,
            r.dash_offset == self.dash_offset,
            r.line_cap == self.line_cap,
            r.line_join == line_join,
            r.line_join_miter_limit == self.line_join_miter_limit,
            r.dash_lengths@ == self.dash_lengths@,
    {
        let mut s = self;
        s.line_join = line_join;
        s
    }

    /// Replace the miter limit.
    pub fn with_line_join_miter_limit(self, limit: Scalar) -> (r: Stroke)
        ensures
            r.color == self.color,
            r.weight == self.weight,
            r.dash_offset == self.dash_offset,
            r.line_cap == self.line_cap,
            r.line_join == self.line_join,
            r.line_join_miter_limit == limit,
            r.dash_lengths@ == self.dash_lengths@,
    {
        let mut s = self;
        s.line_join_miter_limit = limit;
        s
    }

    /// A copy of this stroke (scalars are plain values, so the copy is exact).
    pub fn duplicate(&self) -> (r: Stroke)
        ensures
            r.color == self.color,
            r.weight == self.weight,
            r.dash_lengths@ == self.dash_lengths@,
            r.dash_offset == self.dash_offset,
            r.line_cap == self.line_cap,
            r.line_join == self.line_join,
            r.line_join_miter_limit == self.line_join_miter_limit,
    {
        Stroke {
            color: self.color,
            weight: self.weight,
            dash_lengths: copy_scalars(&self.dash_lengths),
            dash_offset: self.dash_offset,
            line_cap: self.line_cap,
            line_join: self.line_join,
            line_join_miter_limit: self.line_join_miter_limit,
        }
    }
}

// An alpha of 255 (fully opaque) from the start gives a better experience in
// a properties panel: a fresh stroke is a solid line.
impl Default for Stroke {
    /// Opaque black, weight zero, a single dash length of zero (no dashing),
    /// butt cap, miter join, miter limit 4.
    fn default() -> (r: Stroke)
        ensures
            r.color == Some(Color { r: 0, g: 0, b: 0, a: 255 }),
            r.weight.units == 0,
            r.dash_lengths@ == seq![Scalar { units: 0 }],
            r.dash_offset.units == 0,
            r.line_cap == LineCap::Butt,
            r.line_join == LineJoin::Miter,
            r.line_join_miter_limit.units == 4 * SCALE,
    {
        let mut dashes: Vec<Scalar> = Vec::new();
        dashes.push(Scalar { units: 0 });
        proof {
            assert(dashes@ =~= seq![Scalar { units: 0 }]);
        }
        Stroke {
            color: Some(Color::from_rgba8(0, 0, 0, 255)),
            weight: Scalar { units: 0 },
            dash_lengths: dashes,
            dash_offset: Scalar { units: 0 },
            line_cap: LineCap::Butt,
            line_join: LineJoin::Miter,
            line_join_miter_limit: Scalar { units: 4 * SCALE },
        }
    }
}

} // verus!
