use codex_status::usage::{Percent, TokenUsage, PERCENT_LIMIT};

fn tokens(input: u64, cached: u64, output: u64) -> TokenUsage {
    TokenUsage {
        total_tokens: 0,
        input_tokens: input,
        cached_input_tokens: cached,
        output_tokens: output,
        reasoning_output_tokens: 0,
    }
}

fn from_float(value: f64) -> Option<i64> {
    Percent::from_f64_bits(value.to_bits()).map(|p| p.hundredths)
}

#[test]
fn non_cached_input_is_clamped_at_zero() {
    assert_eq!(tokens(60, 10, 0).non_cached_input(), 50);
    assert_eq!(tokens(10, 10, 0).non_cached_input(), 0);
    assert_eq!(tokens(10, 60, 0).non_cached_input(), 0);
    assert_eq!(tokens(u64::MAX, 0, 0).non_cached_input(), u64::MAX);
}

#[test]
fn blended_total_counts_fresh_input_and_output() {
    assert_eq!(tokens(60, 10, 40).blended_total(), 90);
    assert_eq!(tokens(10, 60, 40).blended_total(), 40);
    assert_eq!(tokens(0, 0, 0).blended_total(), 0);
    assert_eq!(tokens(u64::MAX, 0, 1).blended_total(), u64::MAX);
    assert_eq!(tokens(u64::MAX, 1, 1).blended_total(), u64::MAX);
    assert_eq!(tokens(u64::MAX, 2, 1).blended_total(), u64::MAX - 1);
}

#[test]
fn zero_usage() {
    assert_eq!(TokenUsage::zero(), tokens(0, 0, 0));
}

#[test]
fn percent_from_whole_numbers() {
    assert_eq!(Percent::from_whole(0).hundredths, 0);
    assert_eq!(Percent::from_whole(12).hundredths, 1200);
    assert_eq!(Percent::from_whole(-12).hundredths, -1200);
    assert_eq!(Percent::from_whole(1000000).hundredths, PERCENT_LIMIT);
    assert_eq!(Percent::from_whole(1000001).hundredths, PERCENT_LIMIT);
    assert_eq!(Percent::from_whole(-1000001).hundredths, -PERCENT_LIMIT);
    assert_eq!(Percent::from_whole(i64::MAX).hundredths, PERCENT_LIMIT);
    assert_eq!(Percent::from_whole(i64::MIN).hundredths, -PERCENT_LIMIT);
    assert_eq!(Percent::from_unsigned(0).hundredths, 0);
    assert_eq!(Percent::from_unsigned(100).hundredths, 10000);
    assert_eq!(Percent::from_unsigned(1000000).hundredths, PERCENT_LIMIT);
    assert_eq!(Percent::from_unsigned(u64::MAX).hundredths, PERCENT_LIMIT);
}

#[test]
fn percent_from_floats_exact() {
    assert_eq!(from_float(0.0), Some(0));
    assert_eq!(from_float(-0.0), Some(0));
    assert_eq!(from_float(1.0), Some(100));
    assert_eq!(from_float(5.0), Some(500));
    assert_eq!(from_float(12.5), Some(1250));
    assert_eq!(from_float(100.0), Some(10000));
    assert_eq!(from_float(0.25), Some(25));
    assert_eq!(from_float(-0.25), Some(-25));
    assert_eq!(from_float(99.99), Some(9999));
    assert_eq!(from_float(33.333333), Some(3333));
    assert_eq!(from_float(66.666), Some(6667));
}

#[test]
fn percent_from_floats_rounds_half_up_in_magnitude() {
    // 0.125 and 0.375 are exact in binary: their hundredths end in a half
    assert_eq!(from_float(0.125), Some(13));
    assert_eq!(from_float(0.375), Some(38));
    assert_eq!(from_float(-0.125), Some(-13));
    assert_eq!(from_float(0.005), Some(1));
    assert_eq!(from_float(0.0049), Some(0));
    assert_eq!(from_float(0.004999999), Some(0));
}

#[test]
fn percent_from_floats_at_the_edges() {
    assert_eq!(from_float(f64::NAN), None);
    assert_eq!(from_float(f64::INFINITY), None);
    assert_eq!(from_float(f64::NEG_INFINITY), None);
    assert_eq!(from_float(f64::MIN_POSITIVE), Some(0));
    assert_eq!(from_float(5e-324), Some(0));
    assert_eq!(from_float(1e-30), Some(0));
    assert_eq!(from_float(f64::MAX), Some(PERCENT_LIMIT));
    assert_eq!(from_float(f64::MIN), Some(-PERCENT_LIMIT));
    assert_eq!(from_float(4503599627370496.0), Some(PERCENT_LIMIT));
    assert_eq!(from_float(1000000.0), Some(PERCENT_LIMIT));
    assert_eq!(from_float(999999.99), Some(99999999));
    assert_eq!(from_float(1000000.01), Some(PERCENT_LIMIT));
    assert_eq!(from_float(2251799813685248.0), Some(PERCENT_LIMIT));
}

#[test]
fn percent_from_floats_agrees_with_rounding_on_a_grid() {
    let mut n: i64 = 0;
    while n <= 10000 {
        let value = n as f64 / 100.0;
        assert_eq!(from_float(value), Some(n));
        n += 1;
    }
}
