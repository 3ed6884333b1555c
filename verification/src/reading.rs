//! Readings with a fraction, and the digits that are shown of them.
use vstd::prelude::*;
use vstd::string::StringExecFns;
use crate::text;

verus! {

/// How many bytes a tenth of a megabyte has.
pub const TENTH: u128 = 100_000;

/// Up to this many bytes, a speed that is reckoned in 64-bit floating point rounds to a tenth of a
/// megabyte that is nearest to it; of more bytes floating point keeps too few digits.
pub const EXACT_BYTES: u64 = 0x10_0000_0000_0000;

/// A number rounded to a whole one. A number below zero stays one even if nothing is left of it.
#[derive(Clone, Copy, Debug)]
pub enum Rounded {
    Number { negative: bool, magnitude: u128 },
    Infinity { negative: bool },
    NotANumber,
}

/// A reading with a fraction (a percentage, a temperature): its value, which is judged, and the
/// value rounded, which is shown.
#[derive(Clone, Copy, Debug)]
pub struct Reading<V> {
    pub value: V,
    pub rounded: Rounded,
}

/// The traffic since the refresh before: in bytes, and rounded to tenths of a megabyte, which are
/// shown.
#[derive(Clone, Copy, Debug, PartialEq, Eq)]
pub struct Speed {
    pub bytes: u64,
    pub tenths: u64,
}

/// `bytes` is within half a tenth of a megabyte of `tenths`: no other number of tenths is nearer.
pub open spec fn is_nearest(bytes: u64, tenths: u64) -> bool {
    tenths * TENTH <= bytes + TENTH / 2 && bytes <= tenths * TENTH + TENTH / 2
}

/// `tenths` is what `bytes` may be rounded to.
pub open spec fn may_round(bytes: u64, tenths: u64) -> bool {
    bytes <= EXACT_BYTES ==> is_nearest(bytes, tenths)
}

/// The text of a rounded number.
pub open spec fn rounded_text(rounded: Rounded) -> Seq<char> {
    match rounded {
        Rounded::Number { negative, magnitude } => if negative {
            "-"@ + text::decimal_digits(magnitude as nat)
        } else {
            text::decimal_digits(magnitude as nat)
        },
        Rounded::Infinity { negative } => if negative {
            "-inf"@
        } else {
            "inf"@
        },
        Rounded::NotANumber => "NaN"@,
    }
}

/// The text of a number of tenths: the whole part, a point, and one digit.
pub open spec fn tenths_text(tenths: u64) -> Seq<char> {
    text::decimal_digits((tenths / 10) as nat) + "."@ + text::decimal_digits((tenths % 10) as nat)
}

/// Whether `bytes` may be rounded to `tenths`.
pub fn rounds_to(bytes: u64, tenths: u64) -> (yes: bool)
    ensures
        yes == may_round(bytes, tenths),
{
    let exact: u128 = bytes as u128;
    let rounded: u128 = tenths as u128 * TENTH;
    let half: u128 = TENTH / 2;
    bytes > EXACT_BYTES || (rounded <= exact + half && exact <= rounded + half)
}

/// Writes a rounded number.
pub fn write_rounded(rounded: Rounded) -> (written: String)
    ensures
        written@ == rounded_text(rounded),
{
    match rounded {
        Rounded::Number { negative, magnitude } => {
            if negative {
                "-".to_owned().concat(text::decimal(magnitude).as_str())
            } else {
                text::decimal(magnitude)
            }
        },
        Rounded::Infinity { negative } => {
            if negative {
                "-inf".to_owned()
            } else {
                "inf".to_owned()
            }
        },
        Rounded::NotANumber => "NaN".to_owned(),
    }
}

/// Writes a number of tenths.
pub fn write_tenths(tenths: u64) -> (written: String)
    ensures
        written@ == tenths_text(tenths),
{
    let digit = text::decimal((tenths % 10) as u128);
    text::decimal((tenths / 10) as u128).concat(".").concat(digit.as_str())
}

} // verus!
