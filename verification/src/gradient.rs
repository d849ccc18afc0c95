//! Gradient geometry and rendering of gradient definition fragments.

use vstd::prelude::*;
use crate::color::{Color, rgb_hex_chars, push_hex2};
use crate::num::{Scalar, isqrt_spec, isqrt_u128};
use crate::style::GradientType;
use crate::text::{str_to_chars, string_from_chars, append_str, dec_nat, fmt_u64, scalar_chars, scalar_to_chars};
use crate::transform::{Point, Affine, spec_from_scale_translation, spec_compose, spec_inverse, spec_transform_point};

verus! {

/// A gradient fill: two anchor points, an ordered list of color stops, a
/// local transform, a caller-assigned definition id, and a kind.
///
/// Stops need not be sorted by offset; rendering iterates them in stored
/// order. A stop whose color is `None` is a placeholder and is skipped
/// entirely during rendering.
#[derive(Clone, Debug, PartialEq)]
pub struct Gradient {
    pub start: Point,
    pub end: Point,
    pub transform: Affine,
    pub positions: Vec<(Scalar, Option<Color>)>,
    /// Stable unique id used as the markup definition's id; caller-assigned.
    pub uuid: u64,
    pub gradient_type: GradientType,
}

/// The transform that maps the unit square onto the axis-aligned box with
/// corners `p0` (minimum) and `p1` (maximum).
pub open spec fn spec_bound_transform(p0: Point, p1: Point) -> Affine {
    spec_from_scale_translation(
        Point {
            x: Scalar { units: crate::num::s_sub(p1.x.units as int, p0.x.units as int) as i64 },
            y: Scalar { units: crate::num::s_sub(p1.y.units as int, p0.y.units as int) as i64 },
        },
        p0,
    )
}

/// The matrix written into `gradientTransform`: the inverse of the
/// transformed-bounds box transform.
pub open spec fn spec_mod_gradient(t0: Point, t1: Point) -> Affine {
    spec_inverse(spec_bound_transform(t0, t1))
}

/// The transform applied to the anchor points. The inverse of the inverse is
/// composed with the inverse deliberately, mirroring the renderer's literal
/// composition order rather than its algebraic simplification.
pub open spec fn spec_mod_points(mt: Affine, b0: Point, b1: Point, t0: Point, t1: Point) -> Affine {
    let bound_transform = spec_bound_transform(b0, b1);
    let transformed_bound_transform = spec_bound_transform(t0, t1);
    let updated_transform = spec_compose(mt, bound_transform);
    let mod_gradient = spec_inverse(transformed_bound_transform);
    spec_compose(
        spec_compose(spec_inverse(mod_gradient), spec_inverse(transformed_bound_transform)),
        updated_transform,
    )
}

/// Units of the Euclidean distance between two points (saturating).
pub open spec fn spec_radius_units(s: Point, e: Point) -> int {
    let dx = s.x.units - e.x.units;
    let dy = s.y.units - e.y.units;
    let q = dx * dx + dy * dy;
    let qc = if q > u128::MAX as int {
        u128::MAX as int
    } else {
        q
    };
    let root = isqrt_spec(qc);
    if root > i64::MAX as int {
        i64::MAX as int
    } else {
        root
    }
}

/// One rendered stop element; the color is the six-digit `rrggbb` form.
pub open spec fn stop_frag(offset: Scalar, c: Color) -> Seq<char> {
    "<stop offset=\""@ + scalar_chars(offset.units as int) + "\" stop-color=\"#"@
        + rgb_hex_chars(c) + "\" />"@
}

/// The concatenation of the stop elements, in stored order; stops without a
/// color are omitted entirely.
pub open spec fn stops_frag(ps: Seq<(Scalar, Option<Color>)>) -> Seq<char>
    decreases ps.len(),
{
    if ps.len() == 0 {
        Seq::empty()
    } else {
        (match ps[0].1 {
            Option::Some(c) => stop_frag(ps[0].0, c),
            Option::None => Seq::empty(),
        }) + stops_frag(ps.drop_first())
    }
}

/// The six comma-joined matrix entries of a transform, column-major.
pub open spec fn matrix_chars(m: Affine) -> Seq<char> {
    scalar_chars(m.xx.units as int) + seq![','] + scalar_chars(m.xy.units as int) + seq![',']
        + scalar_chars(m.yx.units as int) + seq![','] + scalar_chars(m.yy.units as int)
        + seq![','] + scalar_chars(m.tx.units as int) + seq![','] + scalar_chars(
        m.ty.units as int,
    )
}

/// The full definition fragment appended by [`Gradient::render_defs`].
pub open spec fn spec_gradient_defs(
    g: Gradient,
    mt: Affine,
    b0: Point,
    b1: Point,
    t0: Point,
    t1: Point,
) -> Seq<char> {
    let mod_gradient = spec_mod_gradient(t0, t1);
    let mod_points = spec_mod_points(mt, b0, b1, t0, t1);
    let s = spec_transform_point(mod_points, g.start);
    let e = spec_transform_point(mod_points, g.end);
    let stops = stops_frag(g.positions@);
    match g.gradient_type {
        GradientType::Linear => "<linearGradient id=\""@ + dec_nat(g.uuid as nat) + "\" x1=\""@
            + scalar_chars(s.x.units as int) + "\" x2=\""@ + scalar_chars(e.x.units as int)
            + "\" y1=\""@ + scalar_chars(s.y.units as int) + "\" y2=\""@ + scalar_chars(
            e.y.units as int,
        ) + "\" gradientTransform=\"matrix("@ + matrix_chars(mod_gradient) + ")\">"@ + stops
            + "</linearGradient>"@,
        GradientType::Radial => "<radialGradient id=\""@ + dec_nat(g.uuid as nat) + "\" cx=\""@
            + scalar_chars(s.x.units as int) + "\" cy=\""@ + scalar_chars(s.y.units as int)
            + "\" r=\""@ + scalar_chars(spec_radius_units(s, e)) + "\" gradientTransform=\"matrix("@
            + matrix_chars(mod_gradient) + ")\">"@ + stops + "</radialGradient>"@,
    }
}

/// A gradient with exactly two colored stops renders exactly two stop
/// elements, in stored order.
pub proof fn lemma_two_stops_render_in_order(
    o0: Scalar,
    c0: Color,
    o1: Scalar,
    c1: Color,
    ps: Seq<(Scalar, Option<Color>)>,
)
    requires
        ps == seq![(o0, Some(c0)), (o1, Some(c1))],
    ensures
        stops_frag(ps) == stop_frag(o0, c0) + stop_frag(o1, c1),
{
    let tail = ps.drop_first();
    assert(tail =~= seq![(o1, Some(c1))]);
    assert(tail.drop_first() =~= Seq::<(Scalar, Option<Color>)>::empty());
    assert(stops_frag(tail.drop_first()) == Seq::<char>::empty());
    assert(stops_frag(tail) =~= stop_frag(o1, c1));
    assert(stops_frag(ps) =~= stop_frag(o0, c0) + stop_frag(o1, c1));
}

fn radius_scalar(s: Point, e: Point) -> (r: Scalar)
    ensures
        r.units as int == spec_radius_units(s, e),
{
    let dx: i128 = (s.x.units as i128) - (e.x.units as i128);
    let dy: i128 = (s.y.units as i128) - (e.y.units as i128);
    let mx: u128 = if dx < 0 {
        (-dx) as u128
    } else {
        dx as u128
    };
    let my: u128 = if dy < 0 {
        (-dy) as u128
    } else {
        dy as u128
    };
    proof {
        assert((mx as int) * (mx as int) <= u128::MAX as int && (mx as int) * (mx as int) == (
        dx as int) * (dx as int)) by (nonlinear_arith)
            requires
                mx as int == dx as int || mx as int == -(dx as int),
                0 <= mx as int <= 0xffffffffffffffff,
                u128::MAX as int == 0xffffffffffffffffffffffffffffffff,
        ;
        assert((my as int) * (my as int) <= u128::MAX as int && (my as int) * (my as int) == (
        dy as int) * (dy as int)) by (nonlinear_arith)
            requires
                my as int == dy as int || my as int == -(dy as int),
                0 <= my as int <= 0xffffffffffffffff,
                u128::MAX as int == 0xffffffffffffffffffffffffffffffff,
        ;
    }
    let qx: u128 = mx * mx;
    let qy: u128 = my * my;
    let q: u128 = if qx > u128::MAX - qy {
        u128::MAX
    } else {
        qx + qy
    };
    let root = isqrt_u128(q);
    if root > i64::MAX as u128 {
        Scalar { units: i64::MAX }
    } else {
        Scalar { units: root as i64 }
    }
}

fn stops_from(ps: &Vec<(Scalar, Option<Color>)>, i: usize) -> (r: Vec<char>)
    requires
        i <= ps@.len(),
    ensures
        r@ == stops_frag(ps@.skip(i as int)),
    decreases ps@.len() - i,
{
    if i >= ps.len() {
        let r: Vec<char> = Vec::new();
        assert(ps@.skip(i as int).len() == 0);
        r
    } else {
        let mut v: Vec<char> = Vec::new();
        let (offset, color) = &ps[i];
        match color {
            Some(c) => {
                let mut part = str_to_chars("<stop offset=\"");
                v.append(&mut part);
                let mut part = scalar_to_chars(*offset);
                v.append(&mut part);
                let mut part = str_to_chars("\" stop-color=\"#");
                v.append(&mut part);
                push_hex2(&mut v, c.r);
                push_hex2(&mut v, c.g);
                push_hex2(&mut v, c.b);
                let mut part = str_to_chars("\" />");
                v.append(&mut part);
            },
            None => {},
        }
        let mut rest = stops_from(ps, i + 1);
        v.append(&mut rest);
        proof {
            assert(ps@.skip(i as int)[0] == ps@[i as int]);
            assert(ps@.skip(i as int).drop_first() =~= ps@.skip(i as int + 1));
            assert(v@ =~= stops_frag(ps@.skip(i as int)));
        }
        v
    }
}

impl Default for Gradient {
    /// Zero anchor points, the identity transform, no stops, id 0, linear.
    fn default() -> (r: Gradient)
        ensures
            r.start == (Point { x: Scalar { units: 0 }, y: Scalar { units: 0 } }),
            r.end == (Point { x: Scalar { units: 0 }, y: Scalar { units: 0 } }),
            r.transform == (Affine {
                xx: Scalar { units: crate::num::SCALE },
                xy: Scalar { units: 0 },
                yx: Scalar { units: 0 },
                yy: Scalar { units: crate::num::SCALE },
                tx: Scalar { units: 0 },
                ty: Scalar { units: 0 },
            }),
            r.positions@ == Seq::<(Scalar, Option<Color>)>::empty(),
            r.uuid == 0,
            r.gradient_type == GradientType::Linear,
    {
        let zero = Point::new(Scalar { units: 0 }, Scalar { units: 0 });
        Gradient {
            start: zero,
            end: zero,
            transform: Affine::identity(),
            positions: Vec::new(),
            uuid: 0,
            gradient_type: GradientType::Linear,
        }
    }
}

impl Gradient {
    /// A new gradient with the two given colors at offsets 0 and 1.
    pub fn new(
        start: Point,
        start_color: Color,
        end: Point,
        end_color: Color,
        transform: Affine,
        uuid: u64,
        gradient_type: GradientType,
    ) -> (r: Gradient)
        ensures
            r.start == start,
            r.end == end,
            r.transform == transform,
            r.uuid == uuid,
            r.gradient_type == gradient_type,
            r.positions@ == seq![
                (Scalar { units: 0 }, Some(start_color)),
                (Scalar { units: crate::num::SCALE }, Some(end_color)),
            ],
    {
        let mut positions: Vec<(Scalar, Option<Color>)> = Vec::new();
        positions.push((Scalar { units: 0 }, Some(start_color)));
        positions.push((Scalar { units: crate::num::SCALE }, Some(end_color)));
        proof {
            assert(positions@ =~= seq![
                (Scalar { units: 0 }, Some(start_color)),
                (Scalar { units: crate::num::SCALE }, Some(end_color)),
            ]);
        }
        Gradient { start, end, transform, positions, uuid, gradient_type }
    }

    /// Append this gradient's definition element to the shared defs buffer.
    ///
    /// `bounds` and `transformed_bounds` are the shape's bounding boxes
    /// (minimum then maximum corner) in local and in target space. Degenerate
    /// boxes make the box transforms non-invertible; the composition is still
    /// total (the inverse components become zero) but the caller is expected
    /// to supply non-degenerate bounds.
    pub fn render_defs(
        &self,
        svg_defs: &mut String,
        multiplied_transform: Affine,
        bounds: [Point; 2],
        transformed_bounds: [Point; 2],
    )
        ensures
            final(svg_defs)@ == old(svg_defs)@ + spec_gradient_defs(
                *self,
                multiplied_transform,
                bounds[0],
                bounds[1],
                transformed_bounds[0],
                transformed_bounds[1],
            ),
    {
        let bound_transform = Affine::from_scale_translation(
            bounds[1].sub(bounds[0]),
            bounds[0],
        );
        let transformed_bound_transform = Affine::from_scale_translation(
            transformed_bounds[1].sub(transformed_bounds[0]),
            transformed_bounds[0],
        );
        let updated_transform = multiplied_transform.compose(bound_transform);
        let mod_gradient = transformed_bound_transform.inverse();
        let mod_points = mod_gradient.inverse().compose(
            transformed_bound_transform.inverse(),
        ).compose(updated_transform);

        let start = mod_points.transform_point(self.start);
        let end = mod_points.transform_point(self.end);

        let mut v: Vec<char> = Vec::new();
        match self.gradient_type {
            GradientType::Linear => {
                let mut part = str_to_chars("<linearGradient id=\"");
                v.append(&mut part);
                let mut part = fmt_u64(self.uuid);
                v.append(&mut part);
                let mut part = str_to_chars("\" x1=\"");
                v.append(&mut part);
                let mut part = scalar_to_chars(start.x);
                v.append(&mut part);
                let mut part = str_to_chars("\" x2=\"");
                v.append(&mut part);
                let mut part = scalar_to_chars(end.x);
                v.append(&mut part);
                let mut part = str_to_chars("\" y1=\"");
                v.append(&mut part);
                let mut part = scalar_to_chars(start.y);
                v.append(&mut part);
                let mut part = str_to_chars("\" y2=\"");
                v.append(&mut part);
                let mut part = scalar_to_chars(end.y);
                v.append(&mut part);
                let mut part = str_to_chars("\" gradientTransform=\"matrix(");
                v.append(&mut part);
                let mut part = matrix_to_chars(mod_gradient);
                v.append(&mut part);
                let mut part = str_to_chars(")\">");
                v.append(&mut part);
                let mut part = stops_from(&self.positions, 0);
                v.append(&mut part);
                let mut part = str_to_chars("</linearGradient>");
                v.append(&mut part);
            },
            GradientType::Radial => {
                let radius = radius_scalar(start, end);
                let mut part = str_to_chars("<radialGradient id=\"");
                v.append(&mut part);
                let mut part = fmt_u64(self.uuid);
                v.append(&mut part);
                let mut part = str_to_chars("\" cx=\"");
                v.append(&mut part);
                let mut part = scalar_to_chars(start.x);
                v.append(&mut part);
                let mut part = str_to_chars("\" cy=\"");
                v.append(&mut part);
                let mut part = scalar_to_chars(start.y);
                v.append(&mut part);
                let mut part = str_to_chars("\" r=\"");
                v.append(&mut part);
                let mut part = scalar_to_chars(radius);
                v.append(&mut part);
                let mut part = str_to_chars("\" gradientTransform=\"matrix(");
                v.append(&mut part);
                let mut part = matrix_to_chars(mod_gradient);
                v.append(&mut part);
                let mut part = str_to_chars(")\">");
                v.append(&mut part);
                let mut part = stops_from(&self.positions, 0);
                v.append(&mut part);
                let mut part = str_to_chars("</radialGradient>");
                v.append(&mut part);
            },
        }
        proof {
            assert(self.positions@.skip(0) =~= self.positions@);
            assert(v@ =~= spec_gradient_defs(
                *self,
                multiplied_transform,
                bounds[0],
                bounds[1],
                transformed_bounds[0],
                transformed_bounds[1],
            ));
        }
        let frag = string_from_chars(v);
        append_str(svg_defs, frag.as_str());
    }
}

fn matrix_to_chars(m: Affine) -> (r: Vec<char>)
    ensures
        r@ == matrix_chars(m),
{
    let mut v = scalar_to_chars(m.xx);
    v.push(',');
    let mut part = scalar_to_chars(m.xy);
    v.append(&mut part);
    v.push(',');
    let mut part = scalar_to_chars(m.yx);
    v.append(&mut part);
    v.push(',');
    let mut part = scalar_to_chars(m.yy);
    v.append(&mut part);
    v.push(',');
    let mut part = scalar_to_chars(m.tx);
    v.append(&mut part);
    v.push(',');
    let mut part = scalar_to_chars(m.ty);
    v.append(&mut part);
    assert(v@ =~= matrix_chars(m));
    v
}

} // verus!
