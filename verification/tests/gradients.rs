use graphene_style::color::Color;
use graphene_style::fill::Fill;
use graphene_style::gradient::Gradient;
use graphene_style::num::Scalar;
use graphene_style::style::GradientType;
use graphene_style::transform::{Affine, Point};

fn point(x: i64, y: i64) -> Point {
    Point::new(Scalar::from_whole(x), Scalar::from_whole(y))
}

fn unit_box() -> [Point; 2] {
    [point(0, 0), point(1, 1)]
}

fn two_stop(kind: GradientType, id: u64) -> Gradient {
    Gradient::new(
        point(0, 0),
        Color::from_rgba8(255, 0, 0, 255),
        point(1, 1),
        Color::from_rgba8(0, 0, 255, 255),
        Affine::identity(),
        id,
        kind,
    )
}

#[test]
fn linear_two_stop_defs_element() {
    let g = two_stop(GradientType::Linear, 42);
    let mut defs = String::new();
    g.render_defs(&mut defs, Affine::identity(), unit_box(), unit_box());
    assert_eq!(
        defs,
        "<linearGradient id=\"42\" x1=\"0\" x2=\"1\" y1=\"0\" y2=\"1\" gradientTransform=\"matrix(1,0,0,1,0,0)\"><stop offset=\"0\" stop-color=\"#ff0000\" /><stop offset=\"1\" stop-color=\"#0000ff\" /></linearGradient>"
    );
    assert_eq!(defs.matches("<linearGradient").count(), 1);
    assert_eq!(defs.matches("<stop").count(), 2);
    let red = defs.find("ff0000").unwrap();
    let blue = defs.find("0000ff").unwrap();
    assert!(red < blue);
}

#[test]
fn radial_two_stop_defs_element() {
    let g = two_stop(GradientType::Radial, 7);
    let mut defs = String::new();
    g.render_defs(&mut defs, Affine::identity(), unit_box(), unit_box());
    assert_eq!(
        defs,
        "<radialGradient id=\"7\" cx=\"0\" cy=\"0\" r=\"1.414213\" gradientTransform=\"matrix(1,0,0,1,0,0)\"><stop offset=\"0\" stop-color=\"#ff0000\" /><stop offset=\"1\" stop-color=\"#0000ff\" /></radialGradient>"
    );
    assert_eq!(defs.matches("<radialGradient").count(), 1);
    assert_eq!(defs.matches("<stop").count(), 2);
}

#[test]
fn colorless_stops_are_skipped_entirely() {
    let mut g = two_stop(GradientType::Linear, 3);
    g.positions[0].1 = None;
    let mut defs = String::new();
    g.render_defs(&mut defs, Affine::identity(), unit_box(), unit_box());
    assert_eq!(defs.matches("<stop").count(), 1);
    assert!(defs.contains("<stop offset=\"1\" stop-color=\"#0000ff\" />"));
    assert!(!defs.contains("ff0000"));
}

#[test]
fn defs_are_appended_not_replaced() {
    let g = two_stop(GradientType::Linear, 1);
    let mut defs = String::from("<head>");
    g.render_defs(&mut defs, Affine::identity(), unit_box(), unit_box());
    assert!(defs.starts_with("<head><linearGradient"));
}

#[test]
fn gradient_fill_references_its_def_by_id() {
    let g = two_stop(GradientType::Linear, 99);
    let fill = Fill::Gradient(g);
    let mut defs = String::new();
    let out = fill.render(&mut defs, Affine::identity(), unit_box(), unit_box());
    assert_eq!(out, " fill=\"url('#99')\"");
    assert!(defs.contains("<linearGradient id=\"99\""));
}

#[test]
fn gradient_fill_color_is_first_stop() {
    let g = two_stop(GradientType::Linear, 5);
    assert_eq!(Fill::Gradient(g).color(), Color::from_rgba8(255, 0, 0, 255));
    let mut g2 = two_stop(GradientType::Linear, 5);
    g2.positions[0].1 = None;
    assert_eq!(Fill::Gradient(g2).color(), Color::from_rgba8(0, 0, 0, 255));
}

#[test]
fn scaled_bounds_change_the_matrix() {
    // transformed bounds twice as large: the gradientTransform is the inverse
    // of the box transform, so its scale entries become 0.5 and its
    // translation compensates the minimum corner.
    let g = two_stop(GradientType::Linear, 8);
    let mut defs = String::new();
    g.render_defs(
        &mut defs,
        Affine::identity(),
        unit_box(),
        [point(1, 1), point(3, 3)],
    );
    assert!(defs.contains("gradientTransform=\"matrix(0.5,0,0,0.5,-0.5,-0.5)\""));
}
