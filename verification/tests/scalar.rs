use sbd_db_import::scalar::{
    decode_scalar, Scalar, DECIMALS_MASK, MAGNITUDE_MASK, NAN_PATTERN, NEG_INFINITY_PATTERN,
    POS_INFINITY_PATTERN, SIGN_MASK,
};

fn value_of(raw: u16) -> f64 {
    match decode_scalar(raw) {
        Scalar::PosInfinity => f64::INFINITY,
        Scalar::NegInfinity => f64::NEG_INFINITY,
        Scalar::NotANumber => f64::NAN,
        Scalar::Finite { negative, magnitude, decimals } => {
            let sign = if negative { -1.0 } else { 1.0 };
            let mantissa = f64::from(magnitude) * sign;
            match decimals {
                1 => mantissa / 10.0,
                2 => mantissa / 100.0,
                3 => mantissa / 1000.0,
                _ => mantissa,
            }
        }
    }
}

#[test]
fn patterns_and_masks() {
    assert_eq!(POS_INFINITY_PATTERN, 0b0001_1111_1111_1111);
    assert_eq!(NEG_INFINITY_PATTERN, 0b1001_1111_1111_1111);
    assert_eq!(NAN_PATTERN, 0b1001_1111_1111_1110);
    assert_eq!(SIGN_MASK, 0b1000_0000_0000_0000);
    assert_eq!(DECIMALS_MASK, 0b0110_0000_0000_0000);
    assert_eq!(MAGNITUDE_MASK, 0b0001_1111_1111_1111);
}

#[test]
fn sentinels_decode_to_the_special_values() {
    assert_eq!(decode_scalar(0x1FFF), Scalar::PosInfinity);
    assert_eq!(decode_scalar(0x9FFF), Scalar::NegInfinity);
    assert_eq!(decode_scalar(0x9FFE), Scalar::NotANumber);
    assert_eq!(value_of(0x1FFF), f64::INFINITY);
    assert_eq!(value_of(0x9FFF), f64::NEG_INFINITY);
    assert!(value_of(0x9FFE).is_nan());
}

#[test]
fn only_the_sentinels_decode_to_the_special_values() {
    for raw in 0..=u16::MAX {
        let special = raw == 0x1FFF || raw == 0x9FFF || raw == 0x9FFE;
        let decoded = decode_scalar(raw);
        assert_eq!(matches!(decoded, Scalar::Finite { .. }), !special);
        assert_eq!(value_of(raw).is_finite(), !special);
    }
}

#[test]
fn neighbours_of_the_sentinels_are_numbers() {
    assert_eq!(
        decode_scalar(0x1FFE),
        Scalar::Finite { negative: false, magnitude: 8190, decimals: 0 }
    );
    assert_eq!(
        decode_scalar(0x9FFD),
        Scalar::Finite { negative: true, magnitude: 8189, decimals: 0 }
    );
    assert_eq!(
        decode_scalar(0x3FFF),
        Scalar::Finite { negative: false, magnitude: 8191, decimals: 1 }
    );
    assert_eq!(value_of(0x3FFF), 819.1);
    assert_eq!(value_of(0xBFFF), -819.1);
}

#[test]
fn every_pattern_splits_into_its_three_fields() {
    for raw in 0..=u16::MAX {
        match decode_scalar(raw) {
            Scalar::Finite { negative, magnitude, decimals } => {
                assert_eq!(magnitude, raw & 0x1FFF);
                assert_eq!(u16::from(decimals), (raw >> 13) & 3);
                assert_eq!(negative, raw & 0x8000 != 0);
                let sign: u16 = if negative { 0x8000 } else { 0 };
                assert_eq!(sign + u16::from(decimals) * 0x2000 + magnitude, raw);
            }
            _ => assert!(raw == 0x1FFF || raw == 0x9FFF || raw == 0x9FFE),
        }
    }
}

#[test]
fn every_pattern_decodes_the_same_twice() {
    for raw in 0..=u16::MAX {
        assert_eq!(decode_scalar(raw), decode_scalar(raw));
        assert_eq!(value_of(raw).to_bits(), value_of(raw).to_bits());
    }
}

#[test]
fn each_decimal_position() {
    assert_eq!(value_of(1234), 1234.0);
    assert_eq!(value_of(0x2000 + 1234), 123.4);
    assert_eq!(value_of(0x4000 + 1234), 12.34);
    assert_eq!(value_of(0x6000 + 1234), 1.234);
    assert_eq!(value_of(0x8000 + 1234), -1234.0);
    assert_eq!(value_of(0xA000 + 1234), -123.4);
    assert_eq!(value_of(0xC000 + 1234), -12.34);
    assert_eq!(value_of(0xE000 + 1234), -1.234);
}

#[test]
fn documented_samples() {
    assert_eq!(value_of(17660), 12.76);
    assert_eq!(value_of(17662), 12.78);
    assert_eq!(value_of(17664), 12.80);
    assert_eq!(value_of(24576), 0.0);
    assert_eq!(value_of(962), 962.0);
    assert_eq!(value_of(25576), 1.0);
}

#[test]
fn magnitudes_above_the_documented_range_are_decoded() {
    assert_eq!(
        decode_scalar(8000),
        Scalar::Finite { negative: false, magnitude: 8000, decimals: 0 }
    );
    assert_eq!(value_of(8000), 8000.0);
    assert_eq!(value_of(0x6000 + 8191), 8.191);
    assert_eq!(value_of(0x8000 + 8189), -8189.0);
}

#[test]
fn negative_zero_keeps_its_sign() {
    assert_eq!(
        decode_scalar(0x8000),
        Scalar::Finite { negative: true, magnitude: 0, decimals: 0 }
    );
    assert!(value_of(0x8000).is_sign_negative());
    assert_eq!(value_of(0x8000), 0.0);
    assert!(value_of(0x0000).is_sign_positive());
}
