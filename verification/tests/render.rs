use graphene_style::color::Color;
use graphene_style::fill::Fill;
use graphene_style::num::Scalar;
use graphene_style::path_style::PathStyle;
use graphene_style::stroke::Stroke;
use graphene_style::style::{format_opacity, LineCap, LineJoin, ViewMode};
use graphene_style::transform::{Affine, Point};

fn unit_box() -> [Point; 2] {
    [
        Point::new(Scalar::from_whole(0), Scalar::from_whole(0)),
        Point::new(Scalar::from_whole(1), Scalar::from_whole(1)),
    ]
}

#[test]
fn opacity_elided_only_when_fully_opaque() {
    assert_eq!(format_opacity("fill", 255), "");
    assert_eq!(format_opacity("fill", 254), " fill-opacity=\"0.996\"");
    assert_eq!(format_opacity("stroke", 128), " stroke-opacity=\"0.502\"");
    assert_eq!(format_opacity("fill", 127), " fill-opacity=\"0.498\"");
    assert_eq!(format_opacity("fill", 0), " fill-opacity=\"0.000\"");
}

#[test]
fn opacity_value_round_trips_at_three_decimals() {
    // the emitted thousandths are within half a thousandth of a/255
    for a in 0..255u32 {
        let t = (a * 2000 + 255) / 510;
        let diff = 255 * t as i64 - 1000 * a as i64;
        assert!(-127 <= diff && diff <= 127);
        // recovering the alpha from the emitted value gives a back
        let recovered = ((t * 255 * 2 + 1000) / 2000) as u32;
        assert_eq!(recovered, a);
    }
}

#[test]
fn opaque_solid_fill_has_no_opacity_attribute() {
    let mut defs = String::new();
    let fill = Fill::solid(Color::from_rgba8(255, 0, 0, 255));
    let out = fill.render(&mut defs, Affine::identity(), unit_box(), unit_box());
    assert_eq!(out, " fill=\"#ff0000\"");
    assert!(!out.contains("-opacity"));
    assert_eq!(defs, "");
}

#[test]
fn translucent_solid_fill_has_opacity_attribute() {
    let mut defs = String::new();
    let fill = Fill::solid(Color::from_rgba8(0, 16, 32, 128));
    let out = fill.render(&mut defs, Affine::identity(), unit_box(), unit_box());
    assert_eq!(out, " fill=\"#001020\" fill-opacity=\"0.502\"");
    assert_eq!(defs, "");
}

#[test]
fn none_fill_renders_exactly_none_and_leaves_defs_alone() {
    let mut defs = String::from("existing");
    let out = Fill::NoFill.render(&mut defs, Affine::identity(), unit_box(), unit_box());
    assert_eq!(out, " fill=\"none\"");
    assert_eq!(defs, "existing");
}

#[test]
fn colorless_stroke_renders_empty() {
    let stroke = Stroke::new(Color::from_rgba8(10, 20, 30, 255), Scalar::from_whole(7))
        .with_line_cap(LineCap::Square)
        .with_line_join(LineJoin::Round)
        .with_color(&None)
        .unwrap();
    assert_eq!(stroke.color(), None);
    assert_eq!(stroke.render(), "");
}

#[test]
fn default_stroke_renders_solid_black_line() {
    let out = Stroke::default().render();
    assert_eq!(
        out,
        " stroke=\"#000000\" stroke-width=\"0\" stroke-dasharray=\"0\" stroke-dashoffset=\"0\" stroke-linecap=\"butt\" stroke-linejoin=\"miter\" stroke-miterlimit=\"4\" "
    );
    assert!(out.contains("stroke=\"#000000\""));
    assert!(!out.contains("stroke-opacity"));
}

#[test]
fn stroke_render_reflects_every_field() {
    let stroke = Stroke::new(Color::from_rgba8(0, 255, 0, 128), Scalar::from_whole(2))
        .with_dash_lengths("1, 2,3")
        .unwrap()
        .with_dash_offset(Scalar::from_units(-500_000))
        .with_line_cap(LineCap::Round)
        .with_line_join(LineJoin::Bevel)
        .with_line_join_miter_limit(Scalar::from_units(1_500_000));
    assert_eq!(
        stroke.render(),
        " stroke=\"#00ff00\" stroke-opacity=\"0.502\" stroke-width=\"2\" stroke-dasharray=\"1, 2, 3\" stroke-dashoffset=\"-0.5\" stroke-linecap=\"round\" stroke-linejoin=\"bevel\" stroke-miterlimit=\"1.5\" "
    );
}

#[test]
fn outline_mode_ignores_fill_and_stroke() {
    let styled = PathStyle::new(
        Some(Stroke::new(Color::from_rgba8(0, 255, 0, 255), Scalar::from_whole(9))),
        Fill::solid(Color::from_rgba8(255, 0, 0, 255)),
    );
    let plain = PathStyle::default();
    let mut defs_a = String::new();
    let mut defs_b = String::new();
    let out_a = styled.render(ViewMode::Outline, &mut defs_a, Affine::identity(), unit_box(), unit_box());
    let out_b = plain.render(ViewMode::Outline, &mut defs_b, Affine::identity(), unit_box(), unit_box());
    assert_eq!(out_a, out_b);
    assert!(!out_a.contains("ff0000"));
    assert!(!out_a.contains("00ff00"));
    assert!(out_a.starts_with(" fill=\"none\""));
    assert!(out_a.contains(" stroke=\"#000000\""));
    assert!(out_a.contains("stroke-width=\"1\""));
    assert_eq!(defs_a, "");
    assert_eq!(defs_b, "");
}

#[test]
fn render_is_idempotent_across_buffers() {
    let style = PathStyle::new(
        Some(Stroke::new(Color::from_rgba8(1, 2, 3, 200), Scalar::from_whole(3))),
        Fill::solid(Color::from_rgba8(9, 8, 7, 255)),
    );
    let mut defs1 = String::new();
    let mut defs2 = String::new();
    let out1 = style.render(ViewMode::Normal, &mut defs1, Affine::identity(), unit_box(), unit_box());
    let out2 = style.render(ViewMode::Normal, &mut defs2, Affine::identity(), unit_box(), unit_box());
    assert_eq!(out1, out2);
    assert_eq!(defs1, defs2);
}

#[test]
fn pixels_mode_renders_like_normal() {
    let style = PathStyle::new(None, Fill::solid(Color::from_rgba8(1, 2, 3, 255)));
    let mut defs1 = String::new();
    let mut defs2 = String::new();
    let normal = style.render(ViewMode::Normal, &mut defs1, Affine::identity(), unit_box(), unit_box());
    let pixels = style.render(ViewMode::Pixels, &mut defs2, Affine::identity(), unit_box(), unit_box());
    assert_eq!(normal, pixels);
}

#[test]
fn path_style_accessors_replace_and_clear() {
    let mut style = PathStyle::default();
    assert!(!style.fill().is_some());
    assert_eq!(style.stroke(), None);

    let fill = Fill::solid(Color::from_rgba8(255, 0, 0, 255));
    style.set_fill(fill.clone());
    assert_eq!(*style.fill(), fill);
    assert!(style.fill().is_some());

    let stroke = Stroke::new(Color::from_rgba8(0, 255, 0, 255), Scalar::from_whole(42));
    style.set_stroke(stroke.clone());
    assert_eq!(style.stroke(), Some(stroke));

    style.clear_fill();
    assert!(!style.fill().is_some());
    style.clear_stroke();
    assert_eq!(style.stroke(), None);
}

#[test]
fn stroke_accessors_report_fields() {
    let stroke = Stroke::new(Color::from_rgba8(5, 6, 7, 255), Scalar::from_whole(2))
        .with_line_cap(LineCap::Square)
        .with_line_join(LineJoin::Round);
    assert_eq!(stroke.color(), Some(Color::from_rgba8(5, 6, 7, 255)));
    assert_eq!(stroke.weight(), Scalar::from_whole(2));
    assert_eq!(stroke.dash_offset(), Scalar::from_whole(0));
    assert_eq!(stroke.line_cap_index(), 2);
    assert_eq!(stroke.line_join_index(), 2);
    assert_eq!(stroke.line_join_miter_limit(), Scalar::from_units(4_000_000));
    assert_eq!(Stroke::default().line_cap_index(), 0);
    assert_eq!(Stroke::default().line_join_index(), 0);
}

#[test]
fn fill_color_falls_back_to_black() {
    assert_eq!(Fill::NoFill.color(), Color::from_rgba8(0, 0, 0, 255));
    let c = Color::from_rgba8(40, 50, 60, 70);
    assert_eq!(Fill::solid(c).color(), c);
    assert!(!Fill::NoFill.is_some());
    assert!(Fill::solid(c).is_some());
}
