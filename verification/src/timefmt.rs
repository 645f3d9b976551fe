//! Rendering of a second count as the `M:SS` clock string the widgets
//! display: minutes in decimal, then a colon, then the seconds padded to
//! two digits.

use vstd::prelude::*;
use vstd::string::StringExecFns;

verus! {

/// The character for one decimal digit.
pub open spec fn spec_digit_char(d: int) -> char {
    if d == 0 {
        '0'
    } else if d == 1 {
        '1'
    } else if d == 2 {
        '2'
    } else if d == 3 {
        '3'
    } else if d == 4 {
        '4'
    } else if d == 5 {
        '5'
    } else if d == 6 {
        '6'
    } else if d == 7 {
        '7'
    } else if d == 8 {
        '8'
    } else {
        '9'
    }
}

/// Decimal rendering of a nonnegative number, most significant digit first.
pub open spec fn spec_dec_digits(n: int) -> Seq<char>
    decreases n,
{
    if n < 10 {
        seq![spec_digit_char(n)]
    } else {
        spec_dec_digits(n / 10) + seq![spec_digit_char(n % 10)]
    }
}

/// The `M:SS` clock string for a second count.
pub open spec fn spec_format_time(total_seconds: int) -> Seq<char> {
    let m = total_seconds / 60;
    let s = total_seconds % 60;
    spec_dec_digits(m) + seq![':'] + (if s < 10 {
        seq!['0']
    } else {
        Seq::empty()
    }) + spec_dec_digits(s)
}

fn digit_str(d: u64) -> (r: &'static str)
    requires
        d < 10,
    ensures
        r@ == seq![spec_digit_char(d as int)],
{
    let r: &'static str = match d {
        0 => "0",
        1 => "1",
        2 => "2",
        3 => "3",
        4 => "4",
        5 => "5",
        6 => "6",
        7 => "7",
        8 => "8",
        _ => "9",
    };
    proof {
        reveal_strlit("0");
        reveal_strlit("1");
        reveal_strlit("2");
        reveal_strlit("3");
        reveal_strlit("4");
        reveal_strlit("5");
        reveal_strlit("6");
        reveal_strlit("7");
        reveal_strlit("8");
        reveal_strlit("9");
        assert(r@ =~= seq![spec_digit_char(d as int)]);
    }
    r
}

fn push_decimal(n: u64, out: &mut String)
    ensures
        final(out)@ == old(out)@ + spec_dec_digits(n as int),
    decreases n,
{
    if n < 10 {
        out.append(digit_str(n));
        proof {
            assert(final(out)@ =~= old(out)@ + spec_dec_digits(n as int));
        }
    } else {
        push_decimal(n / 10, out);
        out.append(digit_str(n % 10));
        proof {
            assert(final(out)@ =~= old(out)@ + spec_dec_digits(n as int));
        }
    }
}

/// Render a second count as `M:SS`: whole minutes, a colon, and the
/// leftover seconds always written with two digits.
pub fn format_time(total_seconds: u64) -> (r: String)
    ensures
        r@ == spec_format_time(total_seconds as int),
{
    let minutes = total_seconds / 60;
    let seconds = total_seconds % 60;
    let mut out = String::new();
    push_decimal(minutes, &mut out);
    out.append(":");
    if seconds < 10 {
        out.append("0");
    }
    push_decimal(seconds, &mut out);
    proof {
        reveal_strlit(":");
        reveal_strlit("0");
        assert(out@ =~= spec_format_time(total_seconds as int));
    }
    out
}

} // verus!
