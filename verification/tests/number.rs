use rosu_pp_js::number::{Number, MAX_SAFE_INTEGER};

fn number(value: f64) -> Number {
    Number::from_bits(value.to_bits())
}

#[test]
fn five_is_a_safe_integer() {
    assert_eq!(number(5.0).as_safe_integer(), Some(5));
}

#[test]
fn fractions_are_no_integers() {
    assert_eq!(number(5.5).as_safe_integer(), None);
    assert_eq!(number(0.1).as_safe_integer(), None);
    assert_eq!(number(-0.75).as_safe_integer(), None);
    assert_eq!(number(4503599627370495.5).as_safe_integer(), None);
}

#[test]
fn safe_range_ends_below_two_to_the_53() {
    let limit = 9007199254740992.0f64;
    assert_eq!(number(limit).as_safe_integer(), None);
    assert_eq!(number(-limit).as_safe_integer(), None);
    assert_eq!(number(limit - 1.0).as_safe_integer(), Some(MAX_SAFE_INTEGER));
    assert_eq!(number(-(limit - 1.0)).as_safe_integer(), Some(-MAX_SAFE_INTEGER));
    assert_eq!(number(1e300).as_safe_integer(), None);
}

#[test]
fn negative_integers_keep_their_sign() {
    assert_eq!(number(-1.0).as_safe_integer(), Some(-1));
    assert_eq!(number(-4096.0).as_safe_integer(), Some(-4096));
}

#[test]
fn both_zeros_are_zero() {
    assert_eq!(number(0.0).as_safe_integer(), Some(0));
    assert_eq!(number(-0.0).as_safe_integer(), Some(0));
}

#[test]
fn subnormals_infinities_and_nans_are_no_integers() {
    assert_eq!(number(f64::MIN_POSITIVE / 2.0).as_safe_integer(), None);
    assert_eq!(number(f64::from_bits(1)).as_safe_integer(), None);
    assert_eq!(number(f64::INFINITY).as_safe_integer(), None);
    assert_eq!(number(f64::NEG_INFINITY).as_safe_integer(), None);
    assert_eq!(number(f64::NAN).as_safe_integer(), None);
}

#[test]
fn safe_integer_agrees_with_the_cast() {
    let mut value: f64 = 1.0;
    let mut step = 0;
    while step < 60 {
        let expected = if value.fract() == 0.0 && value.abs() <= 9007199254740991.0 {
            Some(value as i64)
        } else {
            None
        };
        assert_eq!(number(value).as_safe_integer(), expected);
        assert_eq!(number(-value).as_safe_integer(), expected.map(|n| -n));
        assert_eq!(number(value + 1.0).as_safe_integer(), if value + 1.0 <= 9007199254740991.0 {
            Some((value + 1.0) as i64)
        } else {
            None
        });
        assert_eq!(number(value / 4.0 + 0.25).as_safe_integer(), {
            let shifted = value / 4.0 + 0.25;
            if shifted.fract() == 0.0 && shifted <= 9007199254740991.0 {
                Some(shifted as i64)
            } else {
                None
            }
        });
        value *= 3.0;
        step += 1;
    }
}

#[test]
fn from_u32_is_the_double_of_the_integer() {
    let samples: [u32; 12] =
        [0, 1, 2, 3, 7, 8, 255, 256, 65_535, 1_000_000, 0x8000_0000, u32::MAX];
    for n in samples {
        assert_eq!(Number::from_u32(n).to_bits(), (n as f64).to_bits());
        assert_eq!(Number::from_u32(n).as_safe_integer(), Some(n as i64));
    }
}

#[test]
fn nan_and_finite_are_told_apart() {
    assert!(number(f64::NAN).is_nan());
    assert!(!number(f64::INFINITY).is_nan());
    assert!(!number(1.5).is_nan());
    assert!(number(1.5).is_finite());
    assert!(number(0.0).is_finite());
    assert!(!number(f64::INFINITY).is_finite());
    assert!(!number(f64::NAN).is_finite());
}
