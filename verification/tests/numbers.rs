use mathilda::fixed::{square_root, Fixed, SCALE};
use mathilda::text::{decimal_text, fixed_text};
use mathilda::vector::{Vec2, Vec3};

fn fx(raw: i64) -> Fixed {
    Fixed::from_raw(raw)
}

#[test]
fn fixed_from_int_scales_and_saturates() {
    assert_eq!(Fixed::from_int(3).raw, 3 * SCALE);
    assert_eq!(Fixed::from_int(-7).raw, -7 * SCALE);
    assert_eq!(Fixed::from_int(i64::MAX).raw, i64::MAX);
    assert_eq!(Fixed::from_int(i64::MIN).raw, i64::MIN);
    assert_eq!(Fixed::zero().raw, 0);
}

#[test]
fn fixed_sum_and_difference_saturate() {
    assert_eq!(fx(1_500_000).plus(fx(2_250_000)).raw, 3_750_000);
    assert_eq!(fx(1_500_000).minus(fx(2_250_000)).raw, -750_000);
    assert_eq!(fx(i64::MAX).plus(fx(1)).raw, i64::MAX);
    assert_eq!(fx(i64::MIN).minus(fx(1)).raw, i64::MIN);
    assert_eq!(fx(i64::MIN).negated().raw, i64::MAX);
    assert_eq!(fx(5).negated().raw, -5);
}

#[test]
fn fixed_product_rounds_toward_zero() {
    assert_eq!(fx(1_500_000).times(fx(2_000_000)).raw, 3_000_000);
    assert_eq!(fx(1).times(fx(999_999)).raw, 0);
    assert_eq!(fx(-1).times(fx(999_999)).raw, 0);
    assert_eq!(fx(-1_500_000).times(fx(1_500_000)).raw, -2_250_000);
    assert_eq!(fx(3).times(fx(500_000)).raw, 1);
    assert_eq!(fx(-3).times(fx(500_000)).raw, -1);
    assert_eq!(fx(i64::MAX).times(fx(2_000_000)).raw, i64::MAX);
    assert_eq!(fx(i64::MIN).times(fx(2_000_000)).raw, i64::MIN);
    assert_eq!(fx(i64::MIN).times(fx(i64::MIN)).raw, i64::MAX);
}

#[test]
fn fixed_quotient_rounds_toward_zero() {
    assert_eq!(fx(1_000_000).over(fx(3_000_000)), Some(fx(333_333)));
    assert_eq!(fx(-1_000_000).over(fx(3_000_000)), Some(fx(-333_333)));
    assert_eq!(fx(1_000_000).over(fx(-3_000_000)), Some(fx(-333_333)));
    assert_eq!(fx(-1_000_000).over(fx(-3_000_000)), Some(fx(333_333)));
    assert_eq!(fx(7_000_000).over(fx(0)), None);
    assert_eq!(fx(0).over(fx(0)), None);
    assert_eq!(fx(i64::MAX).over(fx(1)), Some(fx(i64::MAX)));
    assert_eq!(fx(i64::MIN).over(fx(-1)), Some(fx(i64::MAX)));
    assert_eq!(fx(10_000_000).divided_by(fx(4_000_000)).raw, 2_500_000);
}

#[test]
fn fixed_clamp_holds_within_bounds() {
    let low = fx(-16_000_000);
    let high = fx(16_000_000);
    assert_eq!(fx(20_000_000).clamped(low, high), high);
    assert_eq!(fx(-20_000_000).clamped(low, high), low);
    assert_eq!(fx(3).clamped(low, high), fx(3));
}

#[test]
fn square_root_rounds_down() {
    assert_eq!(square_root(0), 0);
    assert_eq!(square_root(1), 1);
    assert_eq!(square_root(3), 1);
    assert_eq!(square_root(4), 2);
    assert_eq!(square_root(24), 4);
    assert_eq!(square_root(25), 5);
    assert_eq!(square_root(1_000_000_000_000), 1_000_000);
    assert_eq!(square_root(u128::MAX), u64::MAX);
    assert_eq!(square_root((u64::MAX as u128) * (u64::MAX as u128)), u64::MAX);
    assert_eq!(square_root((u64::MAX as u128) * (u64::MAX as u128) - 1), u64::MAX - 1);
}

#[test]
fn vector_length_is_euclidean() {
    let v = Vec3::new(fx(3_000_000), fx(4_000_000), fx(0));
    assert_eq!(v.length().raw, 5_000_000);
    let w = Vec3::new(fx(1_000_000), fx(2_000_000), fx(2_000_000));
    assert_eq!(w.length().raw, 3_000_000);
    assert_eq!(Vec3::zero().length().raw, 0);
    let far = Vec3::new(fx(i64::MIN), fx(i64::MIN), fx(i64::MIN));
    assert_eq!(far.length().raw, i64::MAX);
    assert_eq!(Vec2::new(fx(-6_000_000), fx(8_000_000)).length().raw, 10_000_000);
}

#[test]
fn vector_unit_has_length_one() {
    let u = Vec2::new(fx(3_000_000), fx(-4_000_000)).unit();
    assert_eq!(u, Vec2::new(fx(600_000), fx(-800_000)));
    let z = Vec2::new(fx(0), fx(0)).unit();
    assert_eq!(z, Vec2::new(fx(0), fx(0)));
    let up = Vec2::new(fx(0), fx(1)).unit();
    assert_eq!(up, Vec2::new(fx(0), fx(1_000_000)));
}

#[test]
fn vector_arithmetic_is_componentwise() {
    let a = Vec3::new(fx(1_000_000), fx(2_000_000), fx(3_000_000));
    let b = Vec3::new(fx(500_000), fx(-500_000), fx(0));
    assert_eq!(a.plus(b), Vec3::new(fx(1_500_000), fx(1_500_000), fx(3_000_000)));
    assert_eq!(a.minus(b), Vec3::new(fx(500_000), fx(2_500_000), fx(3_000_000)));
    assert_eq!(a.scaled(fx(2_000_000)), Vec3::new(fx(2_000_000), fx(4_000_000), fx(6_000_000)));
    assert_eq!(a.shrunk(fx(2_000_000)), Vec3::new(fx(500_000), fx(1_000_000), fx(1_500_000)));
    assert_eq!(
        a.lerp(Vec3::zero(), fx(250_000)),
        Vec3::new(fx(750_000), fx(1_500_000), fx(2_250_000))
    );
}

#[test]
fn decimal_text_of_integers() {
    assert_eq!(decimal_text(0), "0");
    assert_eq!(decimal_text(7), "7");
    assert_eq!(decimal_text(42), "42");
    assert_eq!(decimal_text(-1050), "-1050");
    assert_eq!(decimal_text(i64::MAX), "9223372036854775807");
    assert_eq!(decimal_text(i64::MIN), "-9223372036854775808");
}

#[test]
fn decimal_text_of_fixed_numbers() {
    assert_eq!(fixed_text(fx(16_666_999), 3), "16.666");
    assert_eq!(fixed_text(fx(60_049_999), 1), "60.0");
    assert_eq!(fixed_text(fx(-1_500_000), 1), "-1.5");
    assert_eq!(fixed_text(fx(5_000), 3), "0.005");
    assert_eq!(fixed_text(fx(5_000), 6), "0.005000");
    assert_eq!(fixed_text(fx(12_345_678), 0), "12.");
    assert_eq!(fixed_text(fx(0), 1), "0.0");
}
