//! Verified plain-text rendering of numbers: decimal integers, fixed-point
//! values with six fractional digits (micro-units), and percentages with one
//! fractional digit (tenths of a percent, rounded half up).

use vstd::prelude::*;
use vstd::string::*;

verus! {

/// The character for the decimal digit `d`; meaningful for `d < 10`.
pub open spec fn spec_digit_char(d: nat) -> char {
    if d == 0 {
        '0'
    } else if d == 1 {
        '1'
    } else if d == 2 {
        '2'
    } else if d == 3 {
        '3'
    } else if d == 4 {
        '4'
    } else if d == 5 {
        '5'
    } else if d == 6 {
        '6'
    } else if d == 7 {
        '7'
    } else if d == 8 {
        '8'
    } else {
        '9'
    }
}

/// The decimal digits of `n`, most significant first, without leading zeros.
pub open spec fn spec_dec(n: nat) -> Seq<char>
    decreases n,
{
    if n < 10 {
        seq![spec_digit_char(n)]
    } else {
        spec_dec(n / 10) + seq![spec_digit_char(n % 10)]
    }
}

/// The six fractional digits of a micro-unit remainder `f`, zero-padded;
/// meaningful for `0 <= f < 1_000_000`.
pub open spec fn spec_frac6(f: int) -> Seq<char> {
    seq![
        spec_digit_char(((f / 100000) % 10) as nat),
        spec_digit_char(((f / 10000) % 10) as nat),
        spec_digit_char(((f / 1000) % 10) as nat),
        spec_digit_char(((f / 100) % 10) as nat),
        spec_digit_char(((f / 10) % 10) as nat),
        spec_digit_char((f % 10) as nat),
    ]
}

/// A non-negative quantity of micro-units rendered with six fractional digits.
pub open spec fn spec_fixed6_mag(n: int) -> Seq<char> {
    spec_dec((n / 1000000) as nat) + "."@ + spec_frac6(n % 1000000)
}

/// A quantity of micro-units rendered in fixed point with six fractional
/// digits, with a leading minus sign when negative.
pub open spec fn spec_fixed6(m: int) -> Seq<char> {
    if m < 0 {
        "-"@ + spec_fixed6_mag(-m)
    } else {
        spec_fixed6_mag(m)
    }
}

/// The share of `c` in `total`, in tenths of a percent, rounded half up;
/// meaningful for `c >= 0` and `total > 0`.
pub open spec fn spec_percent_tenths(c: int, total: int) -> int {
    (2000 * c + total) / (2 * total)
}

/// The share of `c` in `total` rendered with one fractional digit. A zero
/// total renders as the text an undefined quotient displays as.
pub open spec fn spec_percent(c: int, total: int) -> Seq<char> {
    if total <= 0 {
        "NaN"@
    } else {
        let t = spec_percent_tenths(c, total);
        spec_dec((t / 10) as nat) + "."@ + seq![spec_digit_char((t % 10) as nat)]
    }
}

/// Appends the single decimal digit `d`.
pub fn append_digit(out: &mut String, d: u128)
    requires
        d < 10,
    ensures
        final(out)@ == old(out)@ + seq![spec_digit_char(d as nat)],
{
    match d {
        0 => {
            proof {
                reveal_strlit("0");
            }
            out.append("0");
        },
        1 => {
            proof {
                reveal_strlit("1");
            }
            out.append("1");
        },
        2 => {
            proof {
                reveal_strlit("2");
            }
            out.append("2");
        },
        3 => {
            proof {
                reveal_strlit("3");
            }
            out.append("3");
        },
        4 => {
            proof {
                reveal_strlit("4");
            }
            out.append("4");
        },
        5 => {
            proof {
                reveal_strlit("5");
            }
            out.append("5");
        },
        6 => {
            proof {
                reveal_strlit("6");
            }
            out.append("6");
        },
        7 => {
            proof {
                reveal_strlit("7");
            }
            out.append("7");
        },
        8 => {
            proof {
                reveal_strlit("8");
            }
            out.append("8");
        },
        _ => {
            proof {
                reveal_strlit("9");
            }
            out.append("9");
        },
    }
    assert(out@ =~= old(out)@ + seq![spec_digit_char(d as nat)]);
}

/// Appends the decimal digits of `n`, most significant first.
pub fn append_dec(out: &mut String, n: u128)
    ensures
        final(out)@ == old(out)@ + spec_dec(n as nat),
    decreases n,
{
    if n >= 10 {
        append_dec(out, n / 10);
        append_digit(out, n % 10);
        assert(out@ =~= old(out)@ + spec_dec(n as nat));
    } else {
        append_digit(out, n);
    }
}

/// Appends the six zero-padded fractional digits of `f`.
pub fn append_frac6(out: &mut String, f: u128)
    requires
        f < 1000000,
    ensures
        final(out)@ == old(out)@ + spec_frac6(f as int),
{
    append_digit(out, f / 100000);
    append_digit(out, (f / 10000) % 10);
    append_digit(out, (f / 1000) % 10);
    append_digit(out, (f / 100) % 10);
    append_digit(out, (f / 10) % 10);
    append_digit(out, f % 10);
    assert(out@ =~= old(out)@ + spec_frac6(f as int));
}

/// Appends `m` micro-units rendered in fixed point with six fractional digits.
pub fn append_fixed6(out: &mut String, m: i128)
    ensures
        final(out)@ == old(out)@ + spec_fixed6(m as int),
{
    if m < 0 {
        out.append("-");
    }
    let mag: u128 = if m >= 0 {
        m as u128
    } else {
        ((-(m + 1)) as u128) + 1
    };
    proof {
        assert(mag as int == if m >= 0 {
            m as int
        } else {
            -(m as int)
        });
    }
    append_dec(out, mag / 1000000);
    out.append(".");
    append_frac6(out, mag % 1000000);
    assert(out@ =~= old(out)@ + spec_fixed6(m as int));
}

/// Appends the share of `c` in `total` with one fractional digit, rounded
/// half up.
pub fn append_percent(out: &mut String, c: u32, total: u128)
    requires
        total < 0x1000000000000000000000000,
    ensures
        final(out)@ == old(out)@ + spec_percent(c as int, total as int),
{
    if total == 0 {
        out.append("NaN");
    } else {
        let t: u128 = (2000 * (c as u128) + total) / (2 * total);
        proof {
            assert(t as int == spec_percent_tenths(c as int, total as int));
        }
        append_dec(out, t / 10);
        out.append(".");
        append_digit(out, t % 10);
        assert(out@ =~= old(out)@ + spec_percent(c as int, total as int));
    }
}

} // verus!
