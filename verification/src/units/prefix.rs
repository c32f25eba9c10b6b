//! Prefixes of the units.

use vstd::prelude::*;

verus! {

/// Standard decimal prefixes, from femto to peta.
#[derive(Copy, Clone, Debug, PartialEq, Eq, Structural)]
pub enum Standard {
    Femto,
    Pico,
    Nano,
    Micro,
    Milli,
    Base,
    Kilo,
    Mega,
    Giga,
    Tera,
    Peta,
}

/// Calendar units of time.
#[derive(Copy, Clone, Debug, PartialEq, Eq, Structural)]
pub enum Calendar {
    Second,
    Minute,
    Hour,
    Day,
    Week,
    Month,
    Year,
}

} // verus!

verus! {

/// Standard prefix of a value whose decimal exponent, the floor of the
/// base-ten logarithm of its magnitude, is `e`: the exponents go by groups of
/// three; from fifteen to seventeen the prefix is still tera, and outside
/// that range the value is written without prefix.
pub open spec fn standard_of_exponent(e: int) -> Standard {
    if -15 <= e <= -13 {
        Standard::Femto
    } else if -12 <= e <= -10 {
        Standard::Pico
    } else if -9 <= e <= -7 {
        Standard::Nano
    } else if -6 <= e <= -4 {
        Standard::Micro
    } else if -3 <= e <= -1 {
        Standard::Milli
    } else if 0 <= e <= 2 {
        Standard::Base
    } else if 3 <= e <= 5 {
        Standard::Kilo
    } else if 6 <= e <= 8 {
        Standard::Mega
    } else if 9 <= e <= 11 {
        Standard::Giga
    } else if 12 <= e <= 17 {
        Standard::Tera
    } else {
        Standard::Base
    }
}

impl Standard {
    /// The prefix of a value of decimal exponent `e`.
    pub fn from_exponent(e: i32) -> (p: Standard)
        ensures
            p == standard_of_exponent(e as int),
    {
        match e {
            -13 | -14 | -15 => Standard::Femto,
            -10 | -11 | -12 => Standard::Pico,
            -7 | -8 | -9 => Standard::Nano,
            -4 | -5 | -6 => Standard::Micro,
            -1 | -2 | -3 => Standard::Milli,
            0 | 1 | 2 => Standard::Base,
            3 | 4 | 5 => Standard::Kilo,
            6 | 7 | 8 => Standard::Mega,
            9 | 10 | 11 => Standard::Giga,
            12 | 13 | 14 => Standard::Tera,
            15 | 16 | 17 => Standard::Tera,
            _ => Standard::Base,
        }
    }
}

} // verus!

verus! {

/// Rank of a prefix, from femto to peta.
pub open spec fn standard_rank(p: Standard) -> int {
    match p {
        Standard::Femto => 0,
        Standard::Pico => 1,
        Standard::Nano => 2,
        Standard::Micro => 3,
        Standard::Milli => 4,
        Standard::Base => 5,
        Standard::Kilo => 6,
        Standard::Mega => 7,
        Standard::Giga => 8,
        Standard::Tera => 9,
        Standard::Peta => 10,
    }
}

/// Prefixes go by whole groups of three exponents, each group taking the
/// prefix after that of the group below, the exponents from zero to two being
/// written without prefix; from twelve to seventeen the prefix is tera, and
/// any other exponent is written without prefix.
pub proof fn lemma_prefix_groups(e: int)
    ensures
        -15 <= e <= 11 ==> standard_of_exponent(e) == standard_of_exponent(3 * (e / 3)),
        -15 <= e <= 8 ==> standard_rank(standard_of_exponent(e + 3)) == standard_rank(
            standard_of_exponent(e),
        ) + 1,
        -15 <= e <= 11 ==> standard_rank(standard_of_exponent(e)) == e / 3 + 5,
        12 <= e <= 17 ==> standard_of_exponent(e) == Standard::Tera,
        e < -15 || e > 17 ==> standard_of_exponent(e) == Standard::Base,
{
}

} // verus!
