//! The aggregate style of a path: an optional stroke and a fill, and the
//! top-level render entry point that applies view-mode overrides.

use vstd::prelude::*;
use crate::color::Color;
use crate::fill::{Fill, spec_fill_frag, spec_fill_defs};
use crate::num::{Scalar, SCALE};
use crate::stroke::{Stroke, spec_stroke_render, spec_stroke_attrs};
use crate::style::{ViewMode, LineCap, LineJoin, outline_stroke_color, outline_stroke_weight};
use crate::text::append_str;
use crate::transform::{Point, Affine};

verus! {

/// The style of a path: an optional stroke and a fill.
#[derive(Clone, Debug, PartialEq)]
pub struct PathStyle {
    pub stroke: Option<Stroke>,
    pub fill: Fill,
}

/// The stroke fragment rendered in outline view mode: a fixed opaque black
/// stroke of weight one, with the default dash, cap, join and miter limit.
pub open spec fn spec_outline_stroke_frag() -> Seq<char> {
    spec_stroke_attrs(
        Color { r: 0, g: 0, b: 0, a: 255 },
        SCALE as int,
        seq![Scalar { units: 0 }],
        0,
        LineCap::Butt,
        LineJoin::Miter,
        4 * SCALE as int,
    )
}

/// The fill fragment of a full render: outline mode always renders the fill
/// as if it were `Fill::NoFill`.
pub open spec fn spec_path_fill_frag(ps: PathStyle, vm: ViewMode) -> Seq<char> {
    if vm == ViewMode::Outline {
        spec_fill_frag(Fill::NoFill)
    } else {
        spec_fill_frag(ps.fill)
    }
}

/// The stroke fragment of a full render: outline mode always renders the
/// fixed outline stroke, ignoring the style's own stroke.
pub open spec fn spec_path_stroke_frag(ps: PathStyle, vm: ViewMode) -> Seq<char> {
    if vm == ViewMode::Outline {
        spec_outline_stroke_frag()
    } else {
        match ps.stroke {
            Option::Some(s) => spec_stroke_render(s),
            Option::None => Seq::empty(),
        }
    }
}

/// What a full render appends to the defs buffer: nothing in outline mode,
/// else whatever the fill appends.
pub open spec fn spec_path_defs(
    ps: PathStyle,
    vm: ViewMode,
    mt: Affine,
    b0: Point,
    b1: Point,
    t0: Point,
    t1: Point,
) -> Seq<char> {
    if vm == ViewMode::Outline {
        Seq::empty()
    } else {
        spec_fill_defs(ps.fill, mt, b0, b1, t0, t1)
    }
}

/// In outline view mode the rendered output is the same for every style: the
/// actual fill and stroke are ignored entirely, the output is exactly the
/// none-fill fragment followed by the fixed outline stroke fragment, and
/// nothing is appended to the defs buffer.
pub proof fn lemma_outline_mode_ignores_style(
    a: PathStyle,
    b: PathStyle,
    mt: Affine,
    b0: Point,
    b1: Point,
    t0: Point,
    t1: Point,
)
    ensures
        spec_path_fill_frag(a, ViewMode::Outline) == spec_path_fill_frag(b, ViewMode::Outline),
        spec_path_stroke_frag(a, ViewMode::Outline) == spec_path_stroke_frag(
            b,
            ViewMode::Outline,
        ),
        spec_path_fill_frag(a, ViewMode::Outline) == spec_fill_frag(Fill::NoFill),
        spec_path_stroke_frag(a, ViewMode::Outline) == spec_outline_stroke_frag(),
        spec_path_defs(a, ViewMode::Outline, mt, b0, b1, t0, t1) == Seq::<char>::empty(),
{
}

impl Default for PathStyle {
    /// No stroke and no fill.
    fn default() -> (r: PathStyle)
        ensures
            r.stroke is None,
            r.fill == Fill::NoFill,
    {
        PathStyle { stroke: None, fill: Fill::NoFill }
    }
}

impl PathStyle {
    /// A style from an optional stroke and a fill.
    pub fn new(stroke: Option<Stroke>, fill: Fill) -> (r: PathStyle)
        ensures
            r.stroke == stroke,
            r.fill == fill,
    {
        PathStyle { stroke, fill }
    }

    /// The current fill.
    pub fn fill(&self) -> (r: &Fill)
        ensures
            *r == self.fill,
    {
        &self.fill
    }

    /// A copy of the current stroke, if any.
    pub fn stroke(&self) -> (r: Option<Stroke>)
        ensures
            self.stroke is None ==> r is None,
            self.stroke matches Some(s) ==> r matches Some(t) && t.color == s.color && t.weight
                == s.weight && t.dash_lengths@ == s.dash_lengths@ && t.dash_offset
                == s.dash_offset && t.line_cap == s.line_cap && t.line_join == s.line_join
                && t.line_join_miter_limit == s.line_join_miter_limit,
    {
        match &self.stroke {
            None => None,
            Some(s) => Some(s.duplicate()),
        }
    }

    /// Replace the fill.
    pub fn set_fill(&mut self, fill: Fill)
        ensures
            final(self).fill == fill,
            final(self).stroke == old(self).stroke,
    {
        self.fill = fill;
    }

    /// Replace the stroke (making it present).
    pub fn set_stroke(&mut self, stroke: Stroke)
        ensures
            final(self).stroke == Some(stroke),
            final(self).fill == old(self).fill,
    {
        self.stroke = Some(stroke);
    }

    /// Remove the fill.
    pub fn clear_fill(&mut self)
        ensures
            final(self).fill == Fill::NoFill,
            final(self).stroke == old(self).stroke,
    {
        self.fill = Fill::NoFill;
    }

    /// Remove the stroke.
    pub fn clear_stroke(&mut self)
        ensures
            final(self).stroke is None,
            final(self).fill == old(self).fill,
    {
        self.stroke = None;
    }

    /// Render the style as one attribute fragment: the fill fragment then the
    /// stroke fragment, with view-mode overrides applied. What is appended to
    /// `svg_defs`, like the returned fragment, is a function of the arguments
    /// alone, so re-rendering identical inputs appends identical content.
    pub fn render(
        &self,
        view_mode: ViewMode,
        svg_defs: &mut String,
        multiplied_transform: Affine,
        bounds: [Point; 2],
        transformed_bounds: [Point; 2],
    ) -> (r: String)
        ensures
            r@ == spec_path_fill_frag(*self, view_mode) + spec_path_stroke_frag(*self, view_mode),
            final(svg_defs)@ == old(svg_defs)@ + spec_path_defs(
                *self,
                view_mode,
                multiplied_transform,
                bounds[0],
                bounds[1],
                transformed_bounds[0],
                transformed_bounds[1],
            ),
    {
        let outline = match view_mode {
            ViewMode::Outline => true,
            _ => false,
        };
        let fill_attribute = if outline {
            Fill::NoFill.render(svg_defs, multiplied_transform, bounds, transformed_bounds)
        } else {
            self.fill.render(svg_defs, multiplied_transform, bounds, transformed_bounds)
        };
        let stroke_attribute = if outline {
            let s = Stroke::new(outline_stroke_color(), outline_stroke_weight());
            let r = s.render();
            proof {
                assert(r@ == spec_outline_stroke_frag());
            }
            r
        } else {
            match &self.stroke {
                Some(stroke) => stroke.render(),
                None => String::new(),
            }
        };
        let mut out = fill_attribute;
        append_str(&mut out, stroke_attribute.as_str());
        out
    }
}

} // verus!
