//! The viewer-count label drawn on a live channel's key (`999`, `1.2K`,
//! `3M`, ...).
//!
//! The label divides the count by one thousand or one million in double
//! precision and prints the quotient with one decimal.  Everything here is
//! integer arithmetic that yields exactly those digits: a count whose
//! quotient lies exactly half-way between two tenths is decided by the
//! direction in which the double-precision quotient was rounded, and a
//! quotient that is exactly representable and half-way goes to the even
//! tenth.
use vstd::prelude::*;
use crate::strs::{decimal, digit_char, push_char, push_decimal};

verus! {

/// 2 to the 52nd: the scale at which a double keeps its 53-bit significand.
pub open spec fn two52() -> nat {
    4503599627370496
}

/// `n` doubled until it reaches `d * 2^52`: the numerator of `n / d` scaled
/// so that the integer part of `scaled / d` is the 53-bit significand of the
/// double nearest to `n / d`.
pub open spec fn scale_up(n: nat, d: nat) -> nat
    decreases (if n < d * two52() {
        d * two52() - n
    } else {
        0
    }),
{
    if n == 0 || n >= d * two52() {
        n
    } else {
        scale_up(2 * n, d)
    }
}

/// Whether the double nearest to `n / d` equals `n / d`.
pub open spec fn quotient_exact(n: nat, d: nat) -> bool {
    scale_up(n, d) % d == 0
}

/// Whether the double nearest to `n / d` lies above `n / d` (round to
/// nearest, ties to an even significand).
pub open spec fn quotient_rounds_up(n: nat, d: nat) -> bool {
    let m = scale_up(n, d);
    let r = m % d;
    2 * r > d || (2 * r == d && (m / d) % 2 == 1)
}

/// `n / d` in tenths, rounded to the nearest tenth as `{:.1}` prints the
/// double nearest to `n / d`.
pub open spec fn rounded_tenths(n: nat, d: nat) -> nat {
    let t = (10 * n) / d;
    let rem = (10 * n) % d;
    if 2 * rem < d {
        t
    } else if 2 * rem > d {
        t + 1
    } else if quotient_exact(n, d) {
        if t % 2 == 0 {
            t
        } else {
            t + 1
        }
    } else if quotient_rounds_up(n, d) {
        t + 1
    } else {
        t
    }
}

/// The label for `n` in units of `d` with the suffix `unit`: whole units
/// without a decimal, otherwise one decimal.
pub open spec fn scaled_label(n: nat, d: nat, unit: char) -> Seq<char> {
    if n % d == 0 {
        decimal(n / d).push(unit)
    } else {
        let r = rounded_tenths(n, d);
        decimal(r / 10).push('.').push(digit_char(r % 10)).push(unit)
    }
}

/// The viewer-count label: the plain number below one thousand, thousands
/// with `K` below one million, millions with `M` from there on.
pub open spec fn viewer_label(n: u32) -> Seq<char> {
    if n >= 1_000_000 {
        scaled_label(n as nat, 1_000_000, 'M')
    } else if n >= 1000 {
        scaled_label(n as nat, 1000, 'K')
    } else {
        decimal(n as nat)
    }
}

/// The scaled numerator of `n / d`, computed by doubling.
fn scaled_numerator(n: u64, d: u64) -> (m: u128)
    requires
        1 <= d <= 1_000_000,
        d <= n < 0x1_0000_0000,
    ensures
        m == scale_up(n as nat, d as nat),
{
    let bound: u128 = (d as u128) * 4503599627370496u128;
    let mut m: u128 = n as u128;
    while m < bound
        invariant
            bound == d * two52(),
            1 <= d <= n,
            n <= m < 2 * bound,
            scale_up(m as nat, d as nat) == scale_up(n as nat, d as nat),
        decreases 2 * bound - m,
    {
        m = m * 2;
    }
    m
}

/// The label for `n` in units of `d`.
fn scaled(n: u32, d: u64, unit: char) -> (s: String)
    requires
        1 <= d <= 1_000_000,
        d <= n,
    ensures
        s@ == scaled_label(n as nat, d as nat, unit),
{
    let mut s = String::new();
    let n64 = n as u64;
    if n64 % d == 0 {
        push_decimal(&mut s, n64 / d);
        push_char(&mut s, unit);
        assert(s@ =~= decimal((n64 / d) as nat).push(unit));
        return s;
    }
    let t = (10 * n64) / d;
    let rem = (10 * n64) % d;
    let r = if 2 * rem < d {
        t
    } else if 2 * rem > d {
        t + 1
    } else {
        let m = scaled_numerator(n64, d);
        let dd = d as u128;
        if m % dd == 0 {
            if t % 2 == 0 {
                t
            } else {
                t + 1
            }
        } else if 2 * (m % dd) > dd || (2 * (m % dd) == dd && (m / dd) % 2 == 1) {
            t + 1
        } else {
            t
        }
    };
    assert(r == rounded_tenths(n as nat, d as nat));
    push_decimal(&mut s, r / 10);
    push_char(&mut s, '.');
    let last = (48 + (r % 10)) as u8;
    push_char(&mut s, last as char);
    push_char(&mut s, unit);
    assert(s@ =~= decimal((r / 10) as nat).push('.').push(digit_char((r % 10) as nat)).push(unit));
    s
}

/// Formats a viewer count for the key: `999`, `1K`, `1.5K`, `2.0K` (for
/// 1999), `1M`, `1.2M`.
pub fn format_viewer_count(n: u32) -> (s: String)
    ensures
        s@ == viewer_label(n),
{
    if n >= 1_000_000 {
        scaled(n, 1_000_000, 'M')
    } else if n >= 1000 {
        scaled(n, 1000, 'K')
    } else {
        let mut s = String::new();
        push_decimal(&mut s, n as u64);
        assert(s@ =~= decimal(n as nat));
        s
    }
}

} // verus!
