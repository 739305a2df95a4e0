use bve_ats::scalar::Scalar;

#[test]
fn scalar_from_constants() {
    assert_eq!(3_600_000, <i32 as Scalar>::from_i32(3_600_000));
    assert_eq!(-1_000i64, <i64 as Scalar>::from_i32(-1_000));
}

#[test]
fn scalar_narrowing_is_checked() {
    assert_eq!(Some(7), <i32 as Scalar>::from_i64(7));
    assert_eq!(Some(i32::MAX), <i32 as Scalar>::from_i64(2_147_483_647));
    assert_eq!(Some(i32::MIN), <i32 as Scalar>::from_i64(-2_147_483_648));
    assert_eq!(None, <i32 as Scalar>::from_i64(2_147_483_648));
    assert_eq!(None, <i32 as Scalar>::from_i64(-2_147_483_649));
    assert_eq!(Some(i64::MAX), <i64 as Scalar>::from_i64(i64::MAX));
    assert_eq!(-5i64, (-5i32).to_i64());
    assert_eq!(i64::MIN, i64::MIN.to_i64());
}

#[test]
fn scalar_arithmetic() {
    assert_eq!(12, 5.sum(7));
    assert_eq!(-2, 5.difference(7));
    assert_eq!(35, 5.product(7));
    assert_eq!(3, 7.quotient(2));
    assert_eq!(-3, (-7).quotient(2));
    assert_eq!(-3, 7.quotient(-2));
    assert_eq!(3, (-7).quotient(-2));
    assert_eq!(-3i64, (-7i64).quotient(2));
}
