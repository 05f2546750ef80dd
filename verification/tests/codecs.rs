use forecast_repo::InHg;
use forecast_repo::LunarPhase;
use forecast_repo::MoonPhase;
use forecast_repo::PhaseError;
use forecast_repo::PrecipitationType;
use forecast_repo::u64_decimal;

#[test]
fn lunar_code_round_trip_all_21() {
    for code in 0u8..21 {
        let phase = LunarPhase::decode(code).expect("code in range");
        assert_eq!(phase.encode(), code);
    }
}

#[test]
fn lunar_code_out_of_range_is_error() {
    assert_eq!(LunarPhase::decode(21), Err(PhaseError::CodeOutOfRange));
    assert_eq!(LunarPhase::decode(255), Err(PhaseError::CodeOutOfRange));
}

#[test]
fn lunar_label_round_trip_all_21() {
    for code in 0u8..21 {
        let phase = LunarPhase::decode(code).expect("code in range");
        let label = phase.label();
        assert_eq!(LunarPhase::parse_label(label.as_str()), Ok(phase));
    }
}

#[test]
fn lunar_labels_exact() {
    assert_eq!(LunarPhase::New.label(), "New");
    assert_eq!(LunarPhase::WaxingCrescent.label(), "Waxing Crescent");
    assert_eq!(LunarPhase::WolfMoon.label(), "Wolf Moon");
    assert_eq!(LunarPhase::BlueMoon.label(), "Blue Moon");
    assert_eq!(LunarPhase::WaningCrescent.label(), "Waning Crescent");
    assert_eq!(LunarPhase::WaningCrescent.encode(), 20);
}

#[test]
fn lunar_unknown_label_is_error() {
    assert_eq!(
        LunarPhase::parse_label("Full"),
        Err(PhaseError::UnknownLabel)
    );
    assert_eq!(LunarPhase::parse_label(""), Err(PhaseError::UnknownLabel));
    assert_eq!(
        LunarPhase::parse_label("wolf moon"),
        Err(PhaseError::UnknownLabel)
    );
}

#[test]
fn moon_code_round_trip_all_8() {
    for code in 0u8..8 {
        let phase = MoonPhase::decode(code).expect("code in range");
        assert_eq!(phase.encode(), code);
    }
    assert_eq!(MoonPhase::decode(8), Err(PhaseError::CodeOutOfRange));
}

#[test]
fn moon_label_round_trip_all_8() {
    for code in 0u8..8 {
        let phase = MoonPhase::decode(code).expect("code in range");
        assert_eq!(MoonPhase::parse_label(phase.label().as_str()), Ok(phase));
    }
    assert_eq!(MoonPhase::decode(4).expect("in range").label(), "Full");
}

#[test]
fn precip_round_trip_only_canonical_values() {
    for bits in [0u8, 1, 2, 4] {
        let p = PrecipitationType::from_bits(bits);
        assert_eq!(PrecipitationType::parse_label(p.label().as_str()), p);
    }
    for bits in [3u8, 5, 6, 7, 8, 255] {
        let p = PrecipitationType::from_bits(bits);
        assert_ne!(PrecipitationType::parse_label(p.label().as_str()), p);
    }
}

#[test]
fn precip_labels_use_priority_snow_ice_rain() {
    assert_eq!(PrecipitationType::from_bits(4).label(), "snow");
    assert_eq!(PrecipitationType::from_bits(2).label(), "ice");
    assert_eq!(PrecipitationType::from_bits(1).label(), "rain");
    assert_eq!(PrecipitationType::from_bits(0).label(), "");
    assert_eq!(PrecipitationType::from_bits(7).label(), "snow");
    assert_eq!(PrecipitationType::from_bits(3).label(), "ice");
    assert_eq!(PrecipitationType::from_bits(5).label(), "snow");
}

#[test]
fn precip_parse_is_lossy_never_errors() {
    assert_eq!(PrecipitationType::parse_label("rain").bits, 1);
    assert_eq!(PrecipitationType::parse_label("ice").bits, 2);
    assert_eq!(PrecipitationType::parse_label("snow").bits, 4);
    assert_eq!(PrecipitationType::parse_label("").bits, 0);
    assert_eq!(PrecipitationType::parse_label("hail").bits, 0);
    assert_eq!(PrecipitationType::parse_label("Snow").bits, 0);
}

#[test]
fn precip_none_is_the_zero_mask() {
    let none = PrecipitationType::none();
    assert_eq!(none.bits, 0);
    assert_eq!(none.label(), "");
    assert_eq!(none, PrecipitationType::from_bits(0));
}

#[test]
fn precip_byte_passthrough_and_contains() {
    let p = PrecipitationType::from_bits(6);
    assert_eq!(p.encode(), 6);
    assert!(p.contains(PrecipitationType::from_bits(2)));
    assert!(p.contains(PrecipitationType::from_bits(4)));
    assert!(!p.contains(PrecipitationType::from_bits(1)));
    assert_eq!(p.canonical().bits, 4);
}

#[test]
fn pressure_serialize_rounds_half_away_from_zero() {
    assert_eq!(InHg::from_micro(2_345_000).serialize(), "2.35");
    assert_eq!(InHg::from_micro(2_344_000).serialize(), "2.34");
}

#[test]
fn pressure_serialize_more_values() {
    assert_eq!(InHg::from_micro(0).serialize(), "0.00");
    assert_eq!(InHg::from_micro(-2_345_000).serialize(), "-2.35");
    assert_eq!(InHg::from_micro(-2_344_999).serialize(), "-2.34");
    assert_eq!(InHg::from_micro(29_921_250).serialize(), "29.92");
    assert_eq!(InHg::from_micro(999_999).serialize(), "1.00");
    assert_eq!(InHg::from_micro(-4_000).serialize(), "0.00");
    assert_eq!(InHg::from_micro(-5_000).serialize(), "-0.01");
}

#[test]
fn pressure_equality_uses_raw_value() {
    assert_eq!(InHg::from_micro(2_345_000), InHg::from_micro(2_345_000));
    assert_ne!(InHg::from_micro(2_345_000), InHg::from_micro(2_345_001));
    assert_eq!(InHg::from_micro(2_345_001).raw_micro(), 2_345_001);
    assert_eq!(InHg::from_micro(2_345_000).rounded_hundredths(), 235);
    assert_eq!(InHg::from_micro(-2_345_000).rounded_hundredths(), -235);
}

#[test]
fn decimal_rendering() {
    assert_eq!(u64_decimal(0), "0");
    assert_eq!(u64_decimal(7), "7");
    assert_eq!(u64_decimal(10), "10");
    assert_eq!(u64_decimal(1234567890), "1234567890");
}

#[test]
fn day_keys_are_zero_padded_and_sorted() {
    assert_eq!(forecast_repo::day_key(1), "01");
    assert_eq!(forecast_repo::day_key(9), "09");
    assert_eq!(forecast_repo::day_key(10), "10");
    assert_eq!(forecast_repo::day_key(31), "31");
    assert_eq!(forecast_repo::day_key(0), "00");
    assert_eq!(forecast_repo::day_key(-5), "-5");
    assert_eq!(forecast_repo::day_key(100), "100");
    let mut keys: Vec<String> = (1..=31).map(forecast_repo::day_key).collect();
    let numeric = keys.clone();
    keys.sort();
    assert_eq!(keys, numeric);
}
