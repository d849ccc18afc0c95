//! Style-to-markup rendering for vector shapes.
//!
//! Given a shape's paint attributes (fill, stroke, gradient) and the document's
//! view mode, this library produces the SVG attribute fragments used to render
//! the shape, plus any gradient definitions that must be registered in a
//! shared `<defs>` buffer.
//!
//! All numeric quantities are held as [`num::Scalar`] fixed-point values so
//! that every computation, including the affine-transform composition used for
//! gradient geometry, has an exact mathematical meaning that the contracts can
//! state.

pub mod color;
pub mod fill;
pub mod gradient;
pub mod num;
pub mod parse;
pub mod path_style;
pub mod stroke;
pub mod style;
pub mod text;
pub mod transform;

pub use color::Color;
pub use fill::Fill;
pub use gradient::Gradient;
pub use path_style::PathStyle;
pub use num::Scalar;
pub use stroke::Stroke;
pub use transform::Affine;
pub use transform::Point;
