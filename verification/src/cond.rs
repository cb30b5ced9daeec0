//! Condition codes: the 4-bit field in the top nibble of every
//! conventionally-ordered instruction word that gates execution.

use crate::error::{AssemblerError, AssemblerErrorView};
use crate::text::{chars2, eq_ci, eq_ci_chars, str_to_chars};
use vstd::prelude::*;

verus! {

/// The sixteen named condition codes.
#[derive(Clone, Copy, Debug, Eq, PartialEq, Structural)]
pub enum Cond {
    EQ,
    NE,
    CS,
    CC,
    MI,
    PL,
    VS,
    VC,
    HI,
    LS,
    GE,
    LT,
    GT,
    LE,
    AL,
    NV,
}

/// The 4-bit numeric code of a condition.
pub open spec fn cond_code(c: Cond) -> u8 {
    match c {
        Cond::EQ => 0x00,
        Cond::NE => 0x01,
        Cond::CS => 0x02,
        Cond::CC => 0x03,
        Cond::MI => 0x04,
        Cond::PL => 0x05,
        Cond::VS => 0x06,
        Cond::VC => 0x07,
        Cond::HI => 0x08,
        Cond::LS => 0x09,
        Cond::GE => 0x0A,
        Cond::LT => 0x0B,
        Cond::GT => 0x0C,
        Cond::LE => 0x0D,
        Cond::AL => 0x0E,
        Cond::NV => 0x0F,
    }
}

/// The two-letter name of a condition, in lower case.
pub open spec fn cond_name(c: Cond) -> Seq<char> {
    match c {
        Cond::EQ => seq!['e', 'q'],
        Cond::NE => seq!['n', 'e'],
        Cond::CS => seq!['c', 's'],
        Cond::CC => seq!['c', 'c'],
        Cond::MI => seq!['m', 'i'],
        Cond::PL => seq!['p', 'l'],
        Cond::VS => seq!['v', 's'],
        Cond::VC => seq!['v', 'c'],
        Cond::HI => seq!['h', 'i'],
        Cond::LS => seq!['l', 's'],
        Cond::GE => seq!['g', 'e'],
        Cond::LT => seq!['l', 't'],
        Cond::GT => seq!['g', 't'],
        Cond::LE => seq!['l', 'e'],
        Cond::AL => seq!['a', 'l'],
        Cond::NV => seq!['n', 'v'],
    }
}

/// Look a condition suffix up in the condition table.  Suffix letters
/// match their name regardless of case; an unrecognized suffix yields
/// `None`.
pub open spec fn spec_cond_of_suffix(s: Seq<char>) -> Option<Cond> {
    if eq_ci(s, cond_name(Cond::EQ)) {
        Some(Cond::EQ)
    } else if eq_ci(s, cond_name(Cond::NE)) {
        Some(Cond::NE)
    } else if eq_ci(s, cond_name(Cond::CS)) {
        Some(Cond::CS)
    } else if eq_ci(s, cond_name(Cond::CC)) {
        Some(Cond::CC)
    } else if eq_ci(s, cond_name(Cond::MI)) {
        Some(Cond::MI)
    } else if eq_ci(s, cond_name(Cond::PL)) {
        Some(Cond::PL)
    } else if eq_ci(s, cond_name(Cond::VS)) {
        Some(Cond::VS)
    } else if eq_ci(s, cond_name(Cond::VC)) {
        Some(Cond::VC)
    } else if eq_ci(s, cond_name(Cond::HI)) {
        Some(Cond::HI)
    } else if eq_ci(s, cond_name(Cond::LS)) {
        Some(Cond::LS)
    } else if eq_ci(s, cond_name(Cond::GE)) {
        Some(Cond::GE)
    } else if eq_ci(s, cond_name(Cond::LT)) {
        Some(Cond::LT)
    } else if eq_ci(s, cond_name(Cond::GT)) {
        Some(Cond::GT)
    } else if eq_ci(s, cond_name(Cond::LE)) {
        Some(Cond::LE)
    } else if eq_ci(s, cond_name(Cond::AL)) {
        Some(Cond::AL)
    } else if eq_ci(s, cond_name(Cond::NV)) {
        Some(Cond::NV)
    } else {
        None
    }
}

/// Look a condition suffix up in the condition table.
pub(crate) fn cond_of_suffix(s: &Vec<char>) -> (r: Option<Cond>)
    ensures
        r == spec_cond_of_suffix(s@),
{
    if eq_ci_chars(s, &chars2('e', 'q')) {
        Some(Cond::EQ)
    } else if eq_ci_chars(s, &chars2('n', 'e')) {
        Some(Cond::NE)
    } else if eq_ci_chars(s, &chars2('c', 's')) {
        Some(Cond::CS)
    } else if eq_ci_chars(s, &chars2('c', 'c')) {
        Some(Cond::CC)
    } else if eq_ci_chars(s, &chars2('m', 'i')) {
        Some(Cond::MI)
    } else if eq_ci_chars(s, &chars2('p', 'l')) {
        Some(Cond::PL)
    } else if eq_ci_chars(s, &chars2('v', 's')) {
        Some(Cond::VS)
    } else if eq_ci_chars(s, &chars2('v', 'c')) {
        Some(Cond::VC)
    } else if eq_ci_chars(s, &chars2('h', 'i')) {
        Some(Cond::HI)
    } else if eq_ci_chars(s, &chars2('l', 's')) {
        Some(Cond::LS)
    } else if eq_ci_chars(s, &chars2('g', 'e')) {
        Some(Cond::GE)
    } else if eq_ci_chars(s, &chars2('l', 't')) {
        Some(Cond::LT)
    } else if eq_ci_chars(s, &chars2('g', 't')) {
        Some(Cond::GT)
    } else if eq_ci_chars(s, &chars2('l', 'e')) {
        Some(Cond::LE)
    } else if eq_ci_chars(s, &chars2('a', 'l')) {
        Some(Cond::AL)
    } else if eq_ci_chars(s, &chars2('n', 'v')) {
        Some(Cond::NV)
    } else {
        None
    }
}

impl Cond {
    /// Parse a condition suffix.  Returns `BadCondition` when the text
    /// names no condition.
    pub fn try_from(s: &str) -> (r: Result<Cond, AssemblerError>)
        ensures
            match r {
                Ok(c) => spec_cond_of_suffix(s@) == Some(c),
                Err(e) => spec_cond_of_suffix(s@) is None && e@
                    == AssemblerErrorView::BadCondition(s@),
            },
    {
        let v = str_to_chars(s);
        match cond_of_suffix(&v) {
            Some(c) => Ok(c),
            None => Err(AssemblerError::BadCondition(s.to_owned())),
        }
    }

    /// The 4-bit numeric code of this condition.
    pub fn code(self) -> (r: u8)
        ensures
            r == cond_code(self),
    {
        match self {
            Cond::EQ => 0x00,
            Cond::NE => 0x01,
            Cond::CS => 0x02,
            Cond::CC => 0x03,
            Cond::MI => 0x04,
            Cond::PL => 0x05,
            Cond::VS => 0x06,
            Cond::VC => 0x07,
            Cond::HI => 0x08,
            Cond::LS => 0x09,
            Cond::GE => 0x0A,
            Cond::LT => 0x0B,
            Cond::GT => 0x0C,
            Cond::LE => 0x0D,
            Cond::AL => 0x0E,
            Cond::NV => 0x0F,
        }
    }
}

} // verus!
