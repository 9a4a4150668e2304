//! Fractions in fixed point. Scores, similarities, thresholds and energy
//! levels are counted in millionths of one whole.

use crate::text::{decimal, low_digits, push_decimal, push_low_digits};
use vstd::prelude::*;
use vstd::string::*;

verus! {

/// One whole, in millionths.
pub const UNIT: u32 = 1_000_000;

/// Ten to the power `e`.
pub open spec fn pow10(e: nat) -> nat
    decreases e,
{
    if e == 0 {
        1
    } else {
        10 * pow10((e - 1) as nat)
    }
}

/// Number of decimals that are shown when `places` are asked for: a
/// value in millionths has six.
pub open spec fn shown(places: nat) -> nat {
    if places <= 6 {
        places
    } else {
        6
    }
}

/// `millionths` in units of the last decimal shown, rounded to the
/// nearest, a half upwards.
pub open spec fn rounded(millionths: nat, places: nat) -> nat {
    let step = pow10((6 - shown(places)) as nat);
    (millionths + step / 2) / step
}

/// `millionths` written as a decimal fraction with `places` decimals, at
/// most six: the whole part without leading zeros, then, where decimals
/// are shown, a point and the decimals.
pub open spec fn fraction_text(millionths: nat, places: nat) -> Seq<char> {
    let q = rounded(millionths, places);
    let whole = decimal(q / pow10(shown(places)));
    if shown(places) == 0 {
        whole
    } else {
        whole + seq!['.'] + low_digits(q, shown(places))
    }
}

/// `millionths` as a whole number of hundredths: a percentage, rounded to
/// the nearest, a half upwards.
pub open spec fn percent(millionths: nat) -> nat {
    (millionths + 5_000) / 10_000
}

fn power_of_ten(e: usize) -> (p: u64)
    requires
        e <= 6,
    ensures
        p == pow10(e as nat),
        1 <= p <= 1_000_000,
{
    proof {
        reveal_with_fuel(pow10, 7);
    }
    if e == 0 {
        1
    } else if e == 1 {
        10
    } else if e == 2 {
        100
    } else if e == 3 {
        1_000
    } else if e == 4 {
        10_000
    } else if e == 5 {
        100_000
    } else {
        1_000_000
    }
}

/// Appends `millionths` as a decimal fraction with `places` decimals, at
/// most six.
pub fn push_fraction(text: &mut String, millionths: u32, places: usize)
    ensures
        final(text)@ == old(text)@ + fraction_text(millionths as nat, places as nat),
{
    let places: usize = if places <= 6 {
        places
    } else {
        6
    };
    let step = power_of_ten(6 - places);
    let unit = power_of_ten(places);
    let q: u64 = (millionths as u64 + step / 2) / step;
    push_decimal(text, q / unit);
    if places > 0 {
        proof {
            reveal_strlit(".");
        }
        text.append(".");
        push_low_digits(text, q, places);
    }
    assert(final(text)@ =~= old(text)@ + fraction_text(millionths as nat, places as nat));
}

/// `millionths` as a percentage, rounded to the nearest, a half upwards.
pub fn percent_of(millionths: u32) -> (p: u32)
    ensures
        p == percent(millionths as nat),
{
    ((millionths as u64 + 5_000) / 10_000) as u32
}

} // verus!
