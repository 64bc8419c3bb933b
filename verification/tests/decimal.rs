use mobile_rewards::decimal::Decimal;

#[test]
fn decimals_compare_as_numbers() {
    let a = Decimal::try_new(150, 2).unwrap();
    let b = Decimal::try_new(15, 1).unwrap();
    assert_eq!(a, b);
    assert_ne!(a, Decimal::from_u32(15));
    assert_eq!(Decimal::try_new(0, 28).unwrap(), Decimal::from_u32(0));
    assert_ne!(Decimal::try_new(-15, 1).unwrap(), b);
}

#[test]
fn a_scale_over_28_is_refused() {
    assert!(Decimal::try_new(1, 29).is_none());
    assert!(Decimal::try_from_i128_with_scale(1, 29).is_none());
    let smallest = Decimal::try_new(1, 28).unwrap();
    assert_eq!(smallest.mantissa(), 1);
    assert_eq!(smallest.scale(), 28);
}

#[test]
fn a_mantissa_over_96_bits_is_refused() {
    let largest: i128 = 0xFFFF_FFFF_FFFF_FFFF_FFFF_FFFF;
    assert!(Decimal::try_from_i128_with_scale(largest + 1, 0).is_none());
    assert!(Decimal::try_from_i128_with_scale(-largest - 1, 0).is_none());
    assert_eq!(
        Decimal::try_from_i128_with_scale(largest, 3).unwrap().mantissa(),
        largest
    );
    assert_eq!(
        Decimal::try_from_i128_with_scale(-largest, 3).unwrap().mantissa(),
        -largest
    );
}

#[test]
fn whole_numbers_have_scale_zero() {
    assert_eq!(Decimal::from_u32(u32::MAX).mantissa(), u32::MAX as i128);
    assert_eq!(Decimal::from_u32(7).scale(), 0);
    assert_eq!(Decimal::from_usize(usize::MAX).mantissa(), usize::MAX as i128);
    assert_eq!(Decimal::from_usize(7).scale(), 0);
    assert_eq!(Decimal::try_new(i64::MIN, 5).unwrap().mantissa(), i64::MIN as i128);
}

#[test]
fn agrees_with_rust_decimal_on_how_a_number_is_written() {
    let outside = rust_decimal::Decimal::new(-12345, 3);
    let ours = Decimal::try_new(-12345, 3).unwrap();
    assert_eq!(ours.mantissa(), outside.mantissa());
    assert_eq!(ours.scale(), outside.scale());
}
