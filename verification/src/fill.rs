//! The fill of a shape: nothing, a solid color, or a gradient.

use vstd::prelude::*;
use crate::color::{Color, rgb_hex_chars, push_hex2};
use crate::gradient::{Gradient, spec_gradient_defs};
use crate::style::{opacity_frag, format_opacity};
use crate::text::{str_to_chars, string_from_chars, dec_nat, fmt_u64};
use crate::transform::{Point, Affine};

verus! {

/// Describes the fill of a shape: nothing, a solid [`Color`], or a
/// [`Gradient`].
#[derive(Clone, Debug, PartialEq)]
pub enum Fill {
    /// No paint at all.
    NoFill,
    Solid(Color),
    Gradient(Gradient),
}

/// The fill attribute fragment, with a leading space.
pub open spec fn spec_fill_frag(f: Fill) -> Seq<char> {
    match f {
        Fill::NoFill => " fill=\"none\""@,
        Fill::Solid(c) => " fill=\"#"@ + rgb_hex_chars(c) + "\""@ + opacity_frag("fill"@, c.a),
        Fill::Gradient(g) => " fill=\"url('#"@ + dec_nat(g.uuid as nat) + "')\""@,
    }
}

/// What rendering the fill appends to the defs buffer: a gradient definition
/// for a gradient fill, nothing otherwise.
pub open spec fn spec_fill_defs(
    f: Fill,
    mt: Affine,
    b0: Point,
    b1: Point,
    t0: Point,
    t1: Point,
) -> Seq<char> {
    match f {
        Fill::Gradient(g) => spec_gradient_defs(g, mt, b0, b1, t0, t1),
        _ => Seq::empty(),
    }
}

/// The color reported for a fill: black for no fill, the color of a solid
/// fill, and the first stop's color (or black when that stop is a
/// placeholder) for a gradient. Sampling a gradient at an arbitrary offset is
/// deliberately not offered.
pub open spec fn spec_fill_color(f: Fill) -> Color {
    match f {
        Fill::NoFill => Color { r: 0, g: 0, b: 0, a: 255 },
        Fill::Solid(c) => c,
        Fill::Gradient(g) => match g.positions@[0].1 {
            Option::Some(c) => c,
            Option::None => Color { r: 0, g: 0, b: 0, a: 255 },
        },
    }
}

/// A fully opaque solid fill renders exactly the color attribute, with no
/// opacity attribute after it.
pub proof fn lemma_opaque_solid_fill_has_no_opacity(c: Color)
    requires
        c.a == 255,
    ensures
        spec_fill_frag(Fill::Solid(c)) == " fill=\"#"@ + rgb_hex_chars(c) + "\""@,
{
    assert(spec_fill_frag(Fill::Solid(c)) =~= " fill=\"#"@ + rgb_hex_chars(c) + "\""@);
}

impl Default for Fill {
    fn default() -> (r: Self)
        ensures
            r == Fill::NoFill,
    {
        Fill::NoFill
    }
}

impl Fill {
    /// A solid fill of the given color.
    pub fn solid(color: Color) -> (r: Fill)
        ensures
            r == Fill::Solid(color),
    {
        Fill::Solid(color)
    }

    /// The fill's color (see [`spec_fill_color`]). A gradient fill must have
    /// at least one stop.
    pub fn color(&self) -> (r: Color)
        requires
            self matches Fill::Gradient(g) ==> g.positions@.len() > 0,
        ensures
            r == spec_fill_color(*self),
    {
        match self {
            Fill::NoFill => Color::black(),
            Fill::Solid(color) => *color,
            Fill::Gradient(g) => {
                let (_, c) = &g.positions[0];
                match c {
                    Some(color) => *color,
                    None => Color::black(),
                }
            },
        }
    }

    /// Render the fill attribute; a gradient fill also appends its
    /// definition to `svg_defs`.
    pub fn render(
        &self,
        svg_defs: &mut String,
        multiplied_transform: Affine,
        bounds: [Point; 2],
        transformed_bounds: [Point; 2],
    ) -> (r: String)
        ensures
            r@ == spec_fill_frag(*self),
            final(svg_defs)@ == old(svg_defs)@ + spec_fill_defs(
                *self,
                multiplied_transform,
                bounds[0],
                bounds[1],
                transformed_bounds[0],
                transformed_bounds[1],
            ),
    {
        match self {
            Fill::NoFill => {
                proof {
                    assert(svg_defs@ =~= svg_defs@ + Seq::<char>::empty());
                }
                " fill=\"none\"".to_owned()
            },
            Fill::Solid(c) => {
                let mut v = str_to_chars(" fill=\"#");
                push_hex2(&mut v, c.r);
                push_hex2(&mut v, c.g);
                push_hex2(&mut v, c.b);
                let mut part = str_to_chars("\"");
                v.append(&mut part);
                let opacity = format_opacity("fill", c.a);
                let mut part = str_to_chars(opacity.as_str());
                v.append(&mut part);
                proof {
                    assert(v@ =~= spec_fill_frag(*self));
                    assert(svg_defs@ =~= svg_defs@ + Seq::<char>::empty());
                }
                string_from_chars(v)
            },
            Fill::Gradient(g) => {
                g.render_defs(svg_defs, multiplied_transform, bounds, transformed_bounds);
                let mut v = str_to_chars(" fill=\"url('#");
                let mut part = fmt_u64(g.uuid);
                v.append(&mut part);
                let mut part = str_to_chars("')\"");
                v.append(&mut part);
                proof {
                    assert(v@ =~= spec_fill_frag(*self));
                }
                string_from_chars(v)
            },
        }
    }

    /// Whether the fill paints anything at all.
    pub fn is_some(&self) -> (r: bool)
        ensures
            r == !(*self matches Fill::NoFill),
    {
        match self {
            Fill::NoFill => false,
            Fill::Solid(_) => true,
            Fill::Gradient(_) => true,
        }
    }
}

} // verus!
