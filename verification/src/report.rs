//! The pipeline's textual report, built and proved character by character.
//!
//! The contour pass emits two lines: the contour count, and the elapsed
//! processing time.  The time is reported in milliseconds with two decimal
//! places, rounded to the nearest hundredth of a millisecond, halves rounding
//! up.  Durations are carried as whole nanoseconds, so a reported duration is
//! never negative.

use vstd::prelude::*;
use vstd::string::StringExecFns;

verus! {

/// The decimal digit character for `d`; meaningful for `0 <= d < 10`.
pub open spec fn spec_digit_char(d: int) -> char
    recommends
        0 <= d < 10,
{
    if d == 0 {
        '0'
    } else if d == 1 {
        '1'
    } else if d == 2 {
        '2'
    } else if d == 3 {
        '3'
    } else if d == 4 {
        '4'
    } else if d == 5 {
        '5'
    } else if d == 6 {
        '6'
    } else if d == 7 {
        '7'
    } else if d == 8 {
        '8'
    } else {
        '9'
    }
}

/// The decimal digits of `n`, most significant first, without a sign and
/// without leading zeros (a lone zero for `n == 0`); meaningful for `n >= 0`.
pub open spec fn spec_decimal_digits(n: int) -> Seq<char>
    recommends
        0 <= n,
    decreases n,
{
    if n < 10 {
        seq![spec_digit_char(n)]
    } else {
        spec_decimal_digits(n / 10).push(spec_digit_char(n % 10))
    }
}

/// Exactly two decimal digits for `0 <= v < 100`, zero-padded.
pub open spec fn spec_two_digits(v: int) -> Seq<char>
    recommends
        0 <= v < 100,
{
    seq![spec_digit_char(v / 10), spec_digit_char(v % 10)]
}

/// The elapsed time in hundredths of a millisecond, rounded to nearest,
/// halves up.
pub open spec fn spec_hundredths_of_millis(nanos: int) -> int {
    nanos / 10000 + if nanos % 10000 >= 5000 {
        1int
    } else {
        0int
    }
}

/// The contour-count line of the report.
pub open spec fn spec_count_line(count: int) -> Seq<char> {
    "Bubble count: "@ + spec_decimal_digits(count)
}

/// The processing-time line of the report: milliseconds with two decimal
/// places and the unit.
pub open spec fn spec_time_line(nanos: int) -> Seq<char> {
    "Processing time: "@ + spec_decimal_digits(spec_hundredths_of_millis(nanos) / 100) + "."@
        + spec_two_digits(spec_hundredths_of_millis(nanos) % 100) + "ms"@
}

/// The one-character string for the digit `d`.
fn digit_str(d: u64) -> (s: &'static str)
    requires
        d < 10,
    ensures
        s@ == seq![spec_digit_char(d as int)],
{
    if d == 0 {
        proof {
            reveal_strlit("0");
            assert("0"@ =~= seq![spec_digit_char(d as int)]);
        }
        "0"
    } else if d == 1 {
        proof {
            reveal_strlit("1");
            assert("1"@ =~= seq![spec_digit_char(d as int)]);
        }
        "1"
    } else if d == 2 {
        proof {
            reveal_strlit("2");
            assert("2"@ =~= seq![spec_digit_char(d as int)]);
        }
        "2"
    } else if d == 3 {
        proof {
            reveal_strlit("3");
            assert("3"@ =~= seq![spec_digit_char(d as int)]);
        }
        "3"
    } else if d == 4 {
        proof {
            reveal_strlit("4");
            assert("4"@ =~= seq![spec_digit_char(d as int)]);
        }
        "4"
    } else if d == 5 {
        proof {
            reveal_strlit("5");
            assert("5"@ =~= seq![spec_digit_char(d as int)]);
        }
        "5"
    } else if d == 6 {
        proof {
            reveal_strlit("6");
            assert("6"@ =~= seq![spec_digit_char(d as int)]);
        }
        "6"
    } else if d == 7 {
        proof {
            reveal_strlit("7");
            assert("7"@ =~= seq![spec_digit_char(d as int)]);
        }
        "7"
    } else if d == 8 {
        proof {
            reveal_strlit("8");
            assert("8"@ =~= seq![spec_digit_char(d as int)]);
        }
        "8"
    } else {
        proof {
            reveal_strlit("9");
            assert("9"@ =~= seq![spec_digit_char(d as int)]);
        }
        "9"
    }
}

/// The decimal digits of `n`, as [`spec_decimal_digits`] lays them out.
pub fn decimal_string(n: u64) -> (s: String)
    ensures
        s@ == spec_decimal_digits(n as int),
    decreases n,
{
    if n < 10 {
        let s: String = digit_str(n).to_owned();
        s
    } else {
        let mut s: String = decimal_string(n / 10);
        let d: &'static str = digit_str(n % 10);
        s.append(d);
        proof {
            assert(s@ =~= spec_decimal_digits(n as int));
        }
        s
    }
}

/// The contour-count line, exactly as [`spec_count_line`] states it.
pub fn count_line(count: u64) -> (s: String)
    ensures
        s@ == spec_count_line(count as int),
{
    let mut s: String = "Bubble count: ".to_owned();
    let digits: String = decimal_string(count);
    s.append(digits.as_str());
    s
}

/// The processing-time line, exactly as [`spec_time_line`] states it.
pub fn time_line(nanos: u64) -> (s: String)
    ensures
        s@ == spec_time_line(nanos as int),
{
    let mut h: u64 = nanos / 10000;
    if nanos % 10000 >= 5000 {
        h = h + 1;
    }
    assert(h == spec_hundredths_of_millis(nanos as int));
    let whole: u64 = h / 100;
    let frac: u64 = h % 100;
    let mut s: String = "Processing time: ".to_owned();
    let digits: String = decimal_string(whole);
    s.append(digits.as_str());
    s.append(".");
    s.append(digit_str(frac / 10));
    s.append(digit_str(frac % 10));
    s.append("ms");
    proof {
        assert(s@ =~= spec_time_line(nanos as int));
    }
    s
}

} // verus!
