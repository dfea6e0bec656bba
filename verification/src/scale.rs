//! Whole-number conversion between kilograms and pounds.
//!
//! A magnitude is multiplied by a decimal ratio, 2.20462 pounds to the
//! kilogram or 0.453592 kilograms to the pound, and brought to the nearest
//! whole number. The results are those of double-precision arithmetic on the
//! same ratios, stated and computed here over integers.

use vstd::prelude::*;

verus! {

/// The largest magnitude in kilograms whose pounds still fit a magnitude.
pub const LAST_EXACT_KILOGRAMS: u16 = 29726;

/// The whole number nearest to `numerator / denominator`; an exact half goes up.
pub open spec fn nearest_half_up(numerator: nat, denominator: nat) -> nat
    recommends
        denominator > 0,
{
    (2 * numerator + denominator) / (2 * denominator)
}

/// The whole number nearest to `numerator / denominator`; an exact half goes down.
pub open spec fn nearest_half_down(numerator: nat, denominator: nat) -> nat
    recommends
        denominator > 0,
{
    ((2 * numerator + denominator - 1) / (2 * denominator) as int) as nat
}

/// The pounds in `kilograms`, before the result is held to a magnitude:
/// `kilograms * 220462 / 100000`, to the nearest whole number.
///
/// The double nearest to 2.20462 lies just below it, so a product that ends
/// in an exact half (25000 kg are 55115.5 pounds) goes down.
pub open spec fn pounds_unheld(kilograms: u16) -> nat {
    ((2 * (kilograms * 220462) + 99999) / 200000) as nat
}

/// The magnitude in pounds of `kilograms`. What is more than a magnitude can
/// hold is held at the largest magnitude.
pub open spec fn pounds_of(kilograms: u16) -> u16 {
    if pounds_unheld(kilograms) > u16::MAX {
        u16::MAX
    } else {
        pounds_unheld(kilograms) as u16
    }
}

/// The magnitude in kilograms of `pounds`: `pounds * 453592 / 1000000`, to
/// the nearest whole number. An exact half (62500 pounds are 28349.5 kg) goes
/// up. The result always fits a magnitude.
pub open spec fn kilograms_of(pounds: u16) -> u16 {
    ((2 * (pounds * 453592) + 1000000) / 2000000) as u16
}

/// Converts a magnitude in kilograms to pounds.
#[verifier::when_used_as_spec(pounds_of)]
pub fn kilograms_to_pounds(kilograms: u16) -> (pounds: u16)
    ensures
        pounds == pounds_of(kilograms),
{
    let doubled: u64 = 2 * (kilograms as u64 * 220462) + 99999;
    let nearest: u64 = doubled / 200000;
    if nearest > 65535 {
        65535
    } else {
        nearest as u16
    }
}

/// Converts a magnitude in pounds to kilograms.
#[verifier::when_used_as_spec(kilograms_of)]
pub fn pounds_to_kilograms(pounds: u16) -> (kilograms: u16)
    ensures
        kilograms == kilograms_of(pounds),
{
    let doubled: u64 = 2 * (pounds as u64 * 453592) + 1000000;
    let nearest: u64 = doubled / 2000000;
    nearest as u16
}

/// `nearest_half_up` is within half a unit of the quotient, and takes the
/// upper neighbour where the quotient ends in an exact half.
pub proof fn lemma_nearest_half_up(numerator: nat, denominator: nat)
    requires
        denominator > 0,
    ensures
        2 * numerator < 2 * nearest_half_up(numerator, denominator) * denominator + denominator,
        2 * nearest_half_up(numerator, denominator) * denominator <= 2 * numerator + denominator,
{
    let q = nearest_half_up(numerator, denominator);
    let a = (2 * numerator + denominator) as int;
    let b = (2 * denominator) as int;
    assert(a == b * (a / b) + a % b && 0 <= a % b < b) by {
        vstd::arithmetic::div_mod::lemma_fundamental_div_mod(a, b);
        vstd::arithmetic::div_mod::lemma_mod_bound(a, b);
    }
    assert(b * (a / b) == 2 * q * denominator) by (nonlinear_arith)
        requires
            b == 2 * denominator,
            q == a / b,
    ;
}

/// `nearest_half_down` is within half a unit of the quotient, and takes the
/// lower neighbour where the quotient ends in an exact half.
pub proof fn lemma_nearest_half_down(numerator: nat, denominator: nat)
    requires
        denominator > 0,
    ensures
        2 * numerator <= 2 * nearest_half_down(numerator, denominator) * denominator + denominator,
        2 * nearest_half_down(numerator, denominator) * denominator < 2 * numerator + denominator,
{
    let q = nearest_half_down(numerator, denominator);
    let a = (2 * numerator + denominator - 1) as int;
    let b = (2 * denominator) as int;
    assert(a == b * (a / b) + a % b && 0 <= a % b < b) by {
        vstd::arithmetic::div_mod::lemma_fundamental_div_mod(a, b);
        vstd::arithmetic::div_mod::lemma_mod_bound(a, b);
    }
    assert(a / b >= 0) by {
        vstd::arithmetic::div_mod::lemma_div_pos_is_pos(a, b);
    }
    assert(b * (a / b) == 2 * q * denominator) by (nonlinear_arith)
        requires
            b == 2 * denominator,
            q == a / b,
    ;
}

/// The two conversions are the two roundings of the decimal products: pounds
/// take an exact half down, kilograms take it up.
pub proof fn lemma_conversions_round(magnitude: u16)
    ensures
        pounds_unheld(magnitude) == nearest_half_down(magnitude as nat * 220462, 100000),
        kilograms_of(magnitude) == nearest_half_up(magnitude as nat * 453592, 1000000),
{
    lemma_nearest_half_down(magnitude as nat * 220462, 100000);
    lemma_nearest_half_up(magnitude as nat * 453592, 1000000);
}

/// A magnitude in pounds is a whole number nearest to 2.20462 times the
/// kilograms, unless that is more than a magnitude can hold: then it is the
/// largest magnitude.
pub proof fn lemma_pounds_nearest(kilograms: u16)
    ensures
        kilograms <= LAST_EXACT_KILOGRAMS ==> pounds_of(kilograms) == pounds_unheld(kilograms),
        kilograms <= LAST_EXACT_KILOGRAMS ==> -50000 <= pounds_of(kilograms) * 100000 - kilograms
            * 220462 <= 50000,
        kilograms > LAST_EXACT_KILOGRAMS ==> pounds_of(kilograms) == u16::MAX,
{
}

/// A magnitude in kilograms is a whole number nearest to 0.453592 times the
/// pounds, and never more than `LAST_EXACT_KILOGRAMS`.
pub proof fn lemma_kilograms_nearest(pounds: u16)
    ensures
        -500000 <= kilograms_of(pounds) * 1000000 - pounds * 453592 <= 500000,
        kilograms_of(pounds) <= LAST_EXACT_KILOGRAMS,
{
}

/// Kilograms that are converted to pounds and back are the same kilograms,
/// as long as the pounds fit a magnitude.
pub proof fn lemma_kilograms_round_trip(kilograms: u16)
    requires
        kilograms <= LAST_EXACT_KILOGRAMS,
    ensures
        kilograms_of(pounds_of(kilograms)) == kilograms,
{
}

/// Nothing is nothing in every unit: zero times any ratio rounds to zero.
pub proof fn lemma_zero_stays_zero(denominator: nat)
    requires
        denominator > 0,
    ensures
        nearest_half_up(0, denominator) == 0,
        nearest_half_down(0, denominator) == 0,
        pounds_of(0) == 0,
        kilograms_of(0) == 0,
{
    lemma_nearest_half_up(0, denominator);
    lemma_nearest_half_down(0, denominator);
    let up = nearest_half_up(0, denominator);
    let down = nearest_half_down(0, denominator);
    assert(up == 0) by (nonlinear_arith)
        requires
            denominator > 0,
            2 * up * denominator <= denominator,
    ;
    assert(down == 0) by (nonlinear_arith)
        requires
            denominator > 0,
            2 * down * denominator < denominator,
    ;
}

/// More kilograms are never fewer pounds, and more pounds never fewer kilograms.
pub proof fn lemma_conversion_keeps_order(lighter: u16, heavier: u16)
    requires
        lighter <= heavier,
    ensures
        pounds_of(lighter) <= pounds_of(heavier),
        kilograms_of(lighter) <= kilograms_of(heavier),
{
}

} // verus!
