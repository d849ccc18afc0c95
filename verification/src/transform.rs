//! 2D points and affine transforms over fixed-point scalars.
//!
//! An [`Affine`] is the column-major matrix `[xx xy | yx yy | tx ty]`: the
//! linear part's first column is `(xx, xy)`, its second column is `(yx, yy)`,
//! and `(tx, ty)` is the translation. This matches the usual six-element SVG
//! `matrix(a,b,c,d,e,f)` layout.

use vstd::prelude::*;
use crate::num::{Scalar, s_add, s_sub, s_neg, s_mul, s_div};

verus! {

/// A 2D point (or vector) of fixed-point scalars.
#[derive(Clone, Copy, Debug, PartialEq, Eq, Structural)]
pub struct Point {
    pub x: Scalar,
    pub y: Scalar,
}

/// A 2D affine transform of fixed-point scalars, column-major.
#[derive(Clone, Copy, Debug, PartialEq, Eq, Structural)]
pub struct Affine {
    pub xx: Scalar,
    pub xy: Scalar,
    pub yx: Scalar,
    pub yy: Scalar,
    pub tx: Scalar,
    pub ty: Scalar,
}

/// The transform that scales the unit square by `scale` (no rotation) and
/// then translates by `translation`.
pub open spec fn spec_from_scale_translation(scale: Point, translation: Point) -> Affine {
    Affine {
        xx: scale.x,
        xy: Scalar { units: 0 },
        yx: Scalar { units: 0 },
        yy: scale.y,
        tx: translation.x,
        ty: translation.y,
    }
}

/// Composition `a * b` (apply `b` first, then `a`).
pub open spec fn spec_compose(a: Affine, b: Affine) -> Affine {
    Affine {
        xx: Scalar {
            units: s_add(
                s_mul(a.xx.units as int, b.xx.units as int),
                s_mul(a.yx.units as int, b.xy.units as int),
            ) as i64,
        },
        xy: Scalar {
            units: s_add(
                s_mul(a.xy.units as int, b.xx.units as int),
                s_mul(a.yy.units as int, b.xy.units as int),
            ) as i64,
        },
        yx: Scalar {
            units: s_add(
                s_mul(a.xx.units as int, b.yx.units as int),
                s_mul(a.yx.units as int, b.yy.units as int),
            ) as i64,
        },
        yy: Scalar {
            units: s_add(
                s_mul(a.xy.units as int, b.yx.units as int),
                s_mul(a.yy.units as int, b.yy.units as int),
            ) as i64,
        },
        tx: Scalar {
            units: s_add(
                s_add(
                    s_mul(a.xx.units as int, b.tx.units as int),
                    s_mul(a.yx.units as int, b.ty.units as int),
                ),
                a.tx.units as int,
            ) as i64,
        },
        ty: Scalar {
            units: s_add(
                s_add(
                    s_mul(a.xy.units as int, b.tx.units as int),
                    s_mul(a.yy.units as int, b.ty.units as int),
                ),
                a.ty.units as int,
            ) as i64,
        },
    }
}

/// Determinant of the linear part, in units (a fixed-point value).
pub open spec fn spec_det(m: Affine) -> int {
    s_sub(
        s_mul(m.xx.units as int, m.yy.units as int),
        s_mul(m.xy.units as int, m.yx.units as int),
    )
}

/// Inverse transform. With a zero (or rounded-to-zero) determinant the
/// divisions yield zero components rather than failing, mirroring how the
/// caller is responsible for non-degenerate geometry.
pub open spec fn spec_inverse(m: Affine) -> Affine {
    let det = spec_det(m);
    let ixx = s_div(m.yy.units as int, det);
    let ixy = s_div(s_neg(m.xy.units as int), det);
    let iyx = s_div(s_neg(m.yx.units as int), det);
    let iyy = s_div(m.xx.units as int, det);
    Affine {
        xx: Scalar { units: ixx as i64 },
        xy: Scalar { units: ixy as i64 },
        yx: Scalar { units: iyx as i64 },
        yy: Scalar { units: iyy as i64 },
        tx: Scalar {
            units: s_neg(s_add(s_mul(ixx, m.tx.units as int), s_mul(iyx, m.ty.units as int))) as i64,
        },
        ty: Scalar {
            units: s_neg(s_add(s_mul(ixy, m.tx.units as int), s_mul(iyy, m.ty.units as int))) as i64,
        },
    }
}

/// The image of point `p` under transform `m`.
pub open spec fn spec_transform_point(m: Affine, p: Point) -> Point {
    Point {
        x: Scalar {
            units: s_add(
                s_add(
                    s_mul(m.xx.units as int, p.x.units as int),
                    s_mul(m.yx.units as int, p.y.units as int),
                ),
                m.tx.units as int,
            ) as i64,
        },
        y: Scalar {
            units: s_add(
                s_add(
                    s_mul(m.xy.units as int, p.x.units as int),
                    s_mul(m.yy.units as int, p.y.units as int),
                ),
                m.ty.units as int,
            ) as i64,
        },
    }
}

impl Point {
    /// Build a point from two scalars.
    pub fn new(x: Scalar, y: Scalar) -> (r: Point)
        ensures
            r == (Point { x, y }),
    {
        Point { x, y }
    }

    /// Componentwise difference.
    pub fn sub(self, other: Point) -> (r: Point)
        ensures
            r.x.units == s_sub(self.x.units as int, other.x.units as int),
            r.y.units == s_sub(self.y.units as int, other.y.units as int),
    {
        Point { x: self.x.sub(other.x), y: self.y.sub(other.y) }
    }
}

impl Affine {
    /// The identity transform.
    pub fn identity() -> (r: Affine)
        ensures
            r == (Affine {
                xx: Scalar { units: crate::num::SCALE },
                xy: Scalar { units: 0 },
                yx: Scalar { units: 0 },
                yy: Scalar { units: crate::num::SCALE },
                tx: Scalar { units: 0 },
                ty: Scalar { units: 0 },
            }),
    {
        Affine {
            xx: Scalar { units: crate::num::SCALE },
            xy: Scalar { units: 0 },
            yx: Scalar { units: 0 },
            yy: Scalar { units: crate::num::SCALE },
            tx: Scalar { units: 0 },
            ty: Scalar { units: 0 },
        }
    }

    /// Scale (no rotation) followed by translation.
    pub fn from_scale_translation(scale: Point, translation: Point) -> (r: Affine)
        ensures
            r == spec_from_scale_translation(scale, translation),
    {
        Affine {
            xx: scale.x,
            xy: Scalar { units: 0 },
            yx: Scalar { units: 0 },
            yy: scale.y,
            tx: translation.x,
            ty: translation.y,
        }
    }

    /// Composition `self * rhs` (apply `rhs` first, then `self`).
    pub fn compose(self, rhs: Affine) -> (r: Affine)
        ensures
            r == spec_compose(self, rhs),
    {
        Affine {
            xx: self.xx.mul(rhs.xx).add(self.yx.mul(rhs.xy)),
            xy: self.xy.mul(rhs.xx).add(self.yy.mul(rhs.xy)),
            yx: self.xx.mul(rhs.yx).add(self.yx.mul(rhs.yy)),
            yy: self.xy.mul(rhs.yx).add(self.yy.mul(rhs.yy)),
            tx: self.xx.mul(rhs.tx).add(self.yx.mul(rhs.ty)).add(self.tx),
            ty: self.xy.mul(rhs.tx).add(self.yy.mul(rhs.ty)).add(self.ty),
        }
    }

    /// Inverse transform (zero components when the determinant rounds to zero).
    pub fn inverse(self) -> (r: Affine)
        ensures
            r == spec_inverse(self),
    {
        let det = self.xx.mul(self.yy).sub(self.xy.mul(self.yx));
        let ixx = self.yy.div(det);
        let ixy = self.xy.neg().div(det);
        let iyx = self.yx.neg().div(det);
        let iyy = self.xx.div(det);
        Affine {
            xx: ixx,
            xy: ixy,
            yx: iyx,
            yy: iyy,
            tx: ixx.mul(self.tx).add(iyx.mul(self.ty)).neg(),
            ty: ixy.mul(self.tx).add(iyy.mul(self.ty)).neg(),
        }
    }

    /// Map a point through the transform.
    pub fn transform_point(self, p: Point) -> (r: Point)
        ensures
            r == spec_transform_point(self, p),
    {
        Point {
            x: self.xx.mul(p.x).add(self.yx.mul(p.y)).add(self.tx),
            y: self.xy.mul(p.x).add(self.yy.mul(p.y)).add(self.ty),
        }
    }
}

} // verus!
