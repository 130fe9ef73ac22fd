use bubble_detector::report::{count_line, decimal_string, time_line};

#[test]
fn decimal_of_zero() {
    assert_eq!(decimal_string(0).as_str(), "0");
}

#[test]
fn decimal_of_single_digit() {
    assert_eq!(decimal_string(7).as_str(), "7");
}

#[test]
fn decimal_of_many_digits() {
    assert_eq!(decimal_string(12345).as_str(), "12345");
    assert_eq!(decimal_string(1000).as_str(), "1000");
    assert_eq!(decimal_string(u64::MAX).as_str(), "18446744073709551615");
}

#[test]
fn count_line_zero() {
    assert_eq!(count_line(0).as_str(), "Bubble count: 0");
}

#[test]
fn count_line_three() {
    assert_eq!(count_line(3).as_str(), "Bubble count: 3");
}

#[test]
fn count_line_large() {
    assert_eq!(count_line(1234).as_str(), "Bubble count: 1234");
}

#[test]
fn time_line_zero() {
    assert_eq!(time_line(0).as_str(), "Processing time: 0.00ms");
}

#[test]
fn time_line_truncates_below_half_a_hundredth() {
    // 12_344_999 ns = 12.344999 ms -> 12.34 ms
    assert_eq!(time_line(12_344_999).as_str(), "Processing time: 12.34ms");
}

#[test]
fn time_line_rounds_half_up() {
    // 12_345_000 ns = 12.345 ms -> 12.35 ms
    assert_eq!(time_line(12_345_000).as_str(), "Processing time: 12.35ms");
}

#[test]
fn time_line_carries_into_whole_milliseconds() {
    // 999_995_000 ns = 999.995 ms -> 1000.00 ms
    assert_eq!(time_line(999_995_000).as_str(), "Processing time: 1000.00ms");
}

#[test]
fn time_line_pads_fraction_to_two_digits() {
    // 5_030_000 ns = 5.03 ms
    assert_eq!(time_line(5_030_000).as_str(), "Processing time: 5.03ms");
    // 5_000_000 ns = 5.00 ms
    assert_eq!(time_line(5_000_000).as_str(), "Processing time: 5.00ms");
}
