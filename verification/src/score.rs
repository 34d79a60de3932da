//! Score reporting: the percentage of answered questions that were answered
//! correctly, in hundredths of a percent, and the running score line
//! rendered with two decimal places.

use vstd::prelude::*;
use vstd::string::StringExecFns;

verus! {

/// The score in hundredths of a percent: 0 when nothing is answered yet,
/// otherwise `correct / answered * 100`, kept exact to two decimal places.
pub open spec fn spec_percent_hundredths(correct: int, answered: int) -> int {
    if answered == 0 {
        0
    } else {
        correct * 10000 / answered
    }
}

/// Computes the score percentage in hundredths of a percent.
pub fn percent_hundredths(correct: usize, answered: usize) -> (r: u32)
    requires
        correct <= answered,
    ensures
        r == spec_percent_hundredths(correct as int, answered as int),
        r <= 10000,
{
    if answered == 0 {
        0
    } else {
        let scaled: u128 = (correct as u128) * 10000;
        let quotient: u128 = scaled / (answered as u128);
        proof {
            assert((correct as int) * 10000 / (answered as int) <= 10000) by (nonlinear_arith)
                requires
                    0 < answered,
                    correct <= answered,
            ;
        }
        quotient as u32
    }
}

/// The decimal digit `d` as a one-character string.
pub open spec fn spec_digit(d: int) -> Seq<char> {
    if d == 0 {
        "0"@
    } else if d == 1 {
        "1"@
    } else if d == 2 {
        "2"@
    } else if d == 3 {
        "3"@
    } else if d == 4 {
        "4"@
    } else if d == 5 {
        "5"@
    } else if d == 6 {
        "6"@
    } else if d == 7 {
        "7"@
    } else if d == 8 {
        "8"@
    } else {
        "9"@
    }
}

/// The decimal rendering of `n`, most significant digit first, no leading
/// zeros except for `n = 0` itself.
pub open spec fn spec_decimal(n: int) -> Seq<char>
    decreases n,
{
    if n < 10 {
        spec_digit(n)
    } else {
        spec_decimal(n / 10) + spec_digit(n % 10)
    }
}

fn digit_str(d: u64) -> (r: &'static str)
    requires
        d < 10,
    ensures
        r@ == spec_digit(d as int),
{
    if d == 0 {
        "0"
    } else if d == 1 {
        "1"
    } else if d == 2 {
        "2"
    } else if d == 3 {
        "3"
    } else if d == 4 {
        "4"
    } else if d == 5 {
        "5"
    } else if d == 6 {
        "6"
    } else if d == 7 {
        "7"
    } else if d == 8 {
        "8"
    } else {
        "9"
    }
}

/// Appends the decimal rendering of `n` to `out`.
fn push_decimal(out: &mut String, n: u64)
    ensures
        final(out)@ == old(out)@ + spec_decimal(n as int),
    decreases n,
{
    if n >= 10 {
        push_decimal(out, n / 10);
        out.append(digit_str(n % 10));
    } else {
        out.append(digit_str(n));
    }
}

/// The running score line, `"{correct} of {answered} ({percent}%)"`, with
/// the percentage rendered to two decimal places.
pub open spec fn spec_score_line(correct: int, answered: int) -> Seq<char> {
    let p = spec_percent_hundredths(correct, answered);
    spec_decimal(correct) + " of "@ + spec_decimal(answered) + " ("@ + spec_decimal(p / 100)
        + "."@ + spec_digit(p % 100 / 10) + spec_digit(p % 10) + "%)"@
}

/// Renders the running score line with the percentage to two decimal
/// places.
pub fn score_line(correct: usize, answered: usize) -> (r: String)
    requires
        correct <= answered,
    ensures
        r@ == spec_score_line(correct as int, answered as int),
{
    let p = percent_hundredths(correct, answered);
    let mut out = String::new();
    push_decimal(&mut out, correct as u64);
    out.append(" of ");
    push_decimal(&mut out, answered as u64);
    out.append(" (");
    push_decimal(&mut out, (p / 100) as u64);
    out.append(".");
    out.append(digit_str((p % 100 / 10) as u64));
    out.append(digit_str((p % 10) as u64));
    out.append("%)");
    proof {
        assert(out@ =~= spec_score_line(correct as int, answered as int));
    }
    out
}

} // verus!
