use graphene_style::color::Color;
use graphene_style::num::Scalar;
use graphene_style::stroke::Stroke;

#[test]
fn dash_lengths_parse_and_join() {
    let stroke = Stroke::default().with_dash_lengths("1, 2,3").unwrap();
    assert_eq!(stroke.dash_lengths, vec![
        Scalar::from_whole(1),
        Scalar::from_whole(2),
        Scalar::from_whole(3),
    ]);
    assert_eq!(stroke.dash_lengths(), "1, 2, 3");
}

#[test]
fn bad_dash_lengths_are_rejected_whole() {
    let before = Stroke::default();
    assert_eq!(before.clone().with_dash_lengths("a,b"), None);
    assert_eq!(before.clone().with_dash_lengths("1,a"), None);
    assert_eq!(before.clone().with_dash_lengths("1.2.3"), None);
    // the original stroke is untouched by a failed update
    assert_eq!(before.dash_lengths(), "0");
}

#[test]
fn dash_lengths_accept_decimals_signs_and_spacing() {
    let s = Stroke::default().with_dash_lengths("  1.5,, -2  .25 +4. ").unwrap();
    assert_eq!(s.dash_lengths, vec![
        Scalar::from_units(1_500_000),
        Scalar::from_units(-2_000_000),
        Scalar::from_units(250_000),
        Scalar::from_whole(4),
    ]);
    assert_eq!(s.dash_lengths(), "1.5, -2, 0.25, 4");
}

#[test]
fn empty_dash_list_parses_to_nothing() {
    let s = Stroke::default().with_dash_lengths("").unwrap();
    assert_eq!(s.dash_lengths, Vec::<Scalar>::new());
    assert_eq!(s.dash_lengths(), "");
}

#[test]
fn with_color_parses_rgba_then_rgb_then_fails() {
    let base = Stroke::default().with_weight(Scalar::from_whole(5));

    let rgba = base.clone().with_color(&Some("ff000080".to_string())).unwrap();
    assert_eq!(rgba.color(), Some(Color::from_rgba8(255, 0, 0, 128)));
    assert_eq!(rgba.weight(), Scalar::from_whole(5));

    let rgb = base.clone().with_color(&Some("00ff00".to_string())).unwrap();
    assert_eq!(rgb.color(), Some(Color::from_rgba8(0, 255, 0, 255)));

    assert_eq!(base.clone().with_color(&Some("not a color".to_string())), None);
    assert_eq!(base.clone().with_color(&Some("ff00".to_string())), None);

    let cleared = base.with_color(&None).unwrap();
    assert_eq!(cleared.color(), None);
}

#[test]
fn color_hex_formatting_and_parsing() {
    let c = Color::from_rgba8(255, 0, 160, 255);
    assert_eq!(c.rgb_hex(), "ff00a0");
    assert_eq!(c.rgba_hex(), "ff00a0ff");
    assert_eq!(c.a(), 255);

    assert_eq!(Color::from_rgb_str("ff00a0"), Some(c));
    assert_eq!(Color::from_rgba_str("ff00a0ff"), Some(c));
    assert_eq!(Color::from_rgba_str("ff00a0"), None);
    assert_eq!(Color::from_rgb_str("xx00a0"), None);
    assert_eq!(Color::from_rgba_str("1A2b3C4d"), Some(Color::from_rgba8(26, 43, 60, 77)));
}

#[test]
fn scalar_text_matches_plain_number_form() {
    assert_eq!(Scalar::from_whole(0).to_text(), "0");
    assert_eq!(Scalar::from_whole(4).to_text(), "4");
    assert_eq!(Scalar::from_units(1_500_000).to_text(), "1.5");
    assert_eq!(Scalar::from_units(-1_500_000).to_text(), "-1.5");
    assert_eq!(Scalar::from_units(123).to_text(), "0.000123");
    assert_eq!(Scalar::from_units(-1).to_text(), "-0.000001");
    assert_eq!(Scalar::from_units(10_000_000).to_text(), "10");
}

#[test]
fn scalar_arithmetic_saturates_and_divides() {
    let two = Scalar::from_whole(2);
    let three = Scalar::from_whole(3);
    assert_eq!(two.add(three), Scalar::from_whole(5));
    assert_eq!(two.sub(three), Scalar::from_whole(-1));
    assert_eq!(two.mul(three), Scalar::from_whole(6));
    assert_eq!(three.div(two), Scalar::from_units(1_500_000));
    assert_eq!(two.div(Scalar::from_whole(0)), Scalar::from_whole(0));
    let big = Scalar::from_units(i64::MAX);
    assert_eq!(big.add(big), Scalar::from_units(i64::MAX));
    assert_eq!(big.neg(), Scalar::from_units(-i64::MAX));
}

#[test]
fn oversized_whole_part_is_rejected() {
    assert!(Stroke::default().with_dash_lengths("9223372036853").is_some());
    assert!(Stroke::default().with_dash_lengths("9223372036854").is_none());
}

#[test]
fn dash_lengths_accept_exponent_forms() {
    let s = Stroke::default().with_dash_lengths("1e3 1.5e2,2e-3 1E2 -1e1 1e+2 0e999").unwrap();
    assert_eq!(s.dash_lengths, vec![
        Scalar::from_whole(1000),
        Scalar::from_whole(150),
        Scalar::from_units(2_000),
        Scalar::from_whole(100),
        Scalar::from_whole(-10),
        Scalar::from_whole(100),
        Scalar::from_whole(0),
    ]);
    assert_eq!(s.dash_lengths(), "1000, 150, 0.002, 100, -10, 100, 0");
}

#[test]
fn malformed_or_oversized_exponents_are_rejected() {
    assert!(Stroke::default().with_dash_lengths("1e").is_none());
    assert!(Stroke::default().with_dash_lengths("e3").is_none());
    assert!(Stroke::default().with_dash_lengths("1e+").is_none());
    assert!(Stroke::default().with_dash_lengths("1e3x").is_none());
    assert!(Stroke::default().with_dash_lengths("1e99").is_none());
    assert!(Stroke::default().with_dash_lengths("9e18").is_none());
    // values the fixed-point scalar cannot hold are rejected, not saturated
    assert!(Stroke::default().with_dash_lengths("inf").is_none());
    assert!(Stroke::default().with_dash_lengths("NaN").is_none());
}

#[test]
fn tiny_exponent_values_truncate_to_zero() {
    let s = Stroke::default().with_dash_lengths("1e-7 5e-7 1.5e-6").unwrap();
    assert_eq!(s.dash_lengths, vec![
        Scalar::from_units(0),
        Scalar::from_units(0),
        Scalar::from_units(1),
    ]);
}
