use bve_ats::length::Length;

#[test]
fn length_construct() {
    assert_eq!(10_000, Length::meters(10).as_millimeters());
    assert_eq!(10, Length::meters(10).as_meters());
    assert_eq!(0, Length::meters(10).as_kilometers());

    assert_eq!(10_000_000, Length::kilometers(10).as_millimeters());
    assert_eq!(10_000, Length::kilometers(10).as_meters());
    assert_eq!(10, Length::kilometers(10).as_kilometers());

    assert_eq!(10, Length::millimeters(10).as_millimeters());
    assert_eq!(0, Length::millimeters(10).as_meters());
    assert_eq!(0, Length::millimeters(10).as_kilometers());
}

#[test]
fn length_into() {
    assert_eq!(Length::millimeters(10), Length::millimeters(10).as_());
    assert_eq!(Length::millimeters(100), Length::millimeters(100).as_());
}

#[test]
fn length_unit() {
    assert_eq!(Length::kilometers(1), Length::millimeters(1_000_000));
    assert_eq!(Length::kilometers(1), Length::meters(1_000));
    assert_ne!(Length::kilometers(1), Length::meters(999));
    assert_eq!(Length::meters(1), Length::millimeters(1_000));
}

#[test]
fn length_add() {
    assert_eq!(
        Length::millimeters(9),
        Length::millimeters(5) + Length::millimeters(4)
    );
    assert_eq!(
        Length::meters(9_876),
        Length::meters(4876) + Length::kilometers(5)
    );
}

#[test]
fn length_sub() {
    assert_eq!(
        Length::millimeters(1),
        Length::millimeters(5) - Length::millimeters(4)
    );
    assert_eq!(
        Length::meters(-124),
        Length::meters(4876) - Length::kilometers(5)
    );
}

#[test]
fn length_round_trip() {
    for v in [-2_000, -1, 0, 1, 17, 2_000] {
        assert_eq!(v, Length::kilometers(v).as_kilometers());
        assert_eq!(v, Length::meters(v).as_meters());
        assert_eq!(v, Length::millimeters(v).as_millimeters());
    }
}

#[test]
fn length_accessors_round_toward_zero() {
    assert_eq!(0, Length::millimeters(-999).as_meters());
    assert_eq!(-1, Length::millimeters(-1_999).as_meters());
    assert_eq!(0, Length::millimeters(-999_999).as_kilometers());
    assert_eq!(-1, Length::millimeters(-1_999_999).as_kilometers());
    assert_eq!(1, Length::millimeters(1_999_999).as_kilometers());
}

#[test]
fn length_group_laws() {
    let a = Length::kilometers(2);
    let b = Length::meters(-30);
    let c = Length::millimeters(4);
    assert_eq!(a + b, b + a);
    assert_eq!((a + b) + c, a + (b + c));
    assert_eq!(a - a, Length::millimeters(0));
    assert_eq!((a + b + c).as_millimeters(), 1_970_004);
}

#[test]
fn length_in_the_wide_representation() {
    assert_eq!(10_000i64, Length::meters(10i64).as_millimeters());
    assert_eq!(10i64, Length::meters(10i64).as_meters());
    assert_eq!(10_000_000i64, Length::kilometers(10i64).as_millimeters());
    assert_eq!(10_000i64, Length::kilometers(10i64).as_meters());
    assert_eq!(10i64, Length::kilometers(10i64).as_kilometers());
    assert_eq!(10i64, Length::millimeters(10i64).as_millimeters());
}

#[test]
fn length_meters_and_millimeters_mix() {
    assert_eq!(
        Length::millimeters(1_234),
        Length::meters(1) + Length::millimeters(234)
    );
    assert_eq!(
        Length::millimeters(766),
        Length::meters(1) - Length::millimeters(234)
    );
}

#[test]
fn length_conversion_keeps_the_millimeters() {
    assert_eq!(Length::millimeters(1), Length::millimeters(1i64).as_::<i32>());
    assert_eq!(Length::millimeters(1i64), Length::millimeters(1).as_::<i64>());
    let far = Length::kilometers(5_000i64);
    assert_eq!(5_000_000_000i64, far.as_millimeters());
    let near: Length<i32> = Length::meters(-7i64).as_();
    assert_eq!(-7_000, near.as_millimeters());
    let wide: Length<i64> = Length::millimeters(i32::MIN).as_();
    assert_eq!(-2_147_483_648i64, wide.as_millimeters());
}

#[test]
fn length_ordering() {
    assert!(Length::meters(999) < Length::kilometers(1));
    assert!(Length::millimeters(1_001) > Length::meters(1));
}
