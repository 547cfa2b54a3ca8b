use llm_budget::money::{append_fraction, append_usd, micros_to_usd, usd_to_micros, WHOLE};

#[test]
fn halves_of_a_micro_dollar_round_up() {
    assert_eq!(usd_to_micros(499), 0);
    assert_eq!(usd_to_micros(500), 1);
    assert_eq!(usd_to_micros(1_499), 1);
    assert_eq!(usd_to_micros(1_500), 2);
}

#[test]
fn amounts_below_zero_count_nothing() {
    assert_eq!(usd_to_micros(0), 0);
    assert_eq!(usd_to_micros(-1_000_000_000), 0);
    assert_eq!(usd_to_micros(i128::MIN), 0);
}

#[test]
fn amounts_beyond_the_counter_are_held_at_its_end() {
    assert_eq!(usd_to_micros(i128::MAX), u64::MAX);
    assert_eq!(usd_to_micros(micros_to_usd(u64::MAX) + 500), u64::MAX);
}

#[test]
fn micro_dollars_survive_the_round_trip() {
    for micros in [0u64, 1, 999_999, 1_000_000, u64::MAX] {
        assert_eq!(usd_to_micros(micros_to_usd(micros)), micros);
    }
    assert_eq!(micros_to_usd(975_000), 975_000_000);
}

#[test]
fn rounding_agrees_with_floats() {
    for dollars in [0.5, 0.9, 0.2, 0.000001, 42.5, 9.999999, 0.0025] {
        let nanos = (dollars * 1e9_f64).round() as i128;
        assert_eq!(usd_to_micros(nanos), (dollars * 1_000_000.0_f64).round() as u64);
    }
}

#[test]
fn dollars_have_six_digits_behind_the_point() {
    let mut out = String::from("$");
    append_usd(&mut out, 1_234_567_891_000);
    assert_eq!(out, "$1234.567891");
    let mut small = String::new();
    append_usd(&mut small, -1);
    assert_eq!(small, "-0.000000");
    let mut lowest = String::new();
    append_usd(&mut lowest, i128::MIN);
    assert_eq!(lowest, "-170141183460469231731687303715.884106");
}

#[test]
fn fractions_have_the_digits_they_need() {
    for (value, text) in [
        (0, "0"),
        (WHOLE, "1"),
        (1_500_000_000, "1.5"),
        (-100_000_000, "-0.1"),
        (1, "0.000000001"),
        (200_000_000, "0.2"),
        (10_000_000_010, "10.00000001"),
        (i64::MIN, "-9223372036.854775808"),
    ] {
        let mut out = String::new();
        append_fraction(&mut out, value);
        assert_eq!(out, text);
    }
}
