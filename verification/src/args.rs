//! What a caller chooses for a patch: a region, a country code, and the
//! overrides that stand for them.

use vstd::prelude::*;
use vstd::string::StrSliceExecFns;
use crate::patch::{NavigationCommandLocator, RegisterOverride};

verus! {

/// Media region codes.
#[derive(Clone, Copy, Debug, PartialEq, Eq, Structural)]
pub enum Region {
    /// North America, South America, U.S. territories, Japan, South Korea,
    /// Taiwan, and other areas of Southeast Asia.
    A,
    /// Europe, Africa, Middle East, Australia, and New Zealand.
    B,
    /// Asia, except for Japan, Korea, Taiwan, and other areas of Southeast
    /// Asia.
    C,
}

/// The player-specific register that holds the country.
pub const PSR_COUNTRY: u8 = 19;

/// The player-specific register that holds the region.
pub const PSR_REGION: u8 = 20;

/// Whether a string is a country code: two upper-case ASCII letters.
pub open spec fn is_country_code(s: Seq<char>) -> bool {
    &&& s.len() == 2
    &&& 'A' <= s[0] <= 'Z'
    &&& 'A' <= s[1] <= 'Z'
}

/// The message for a string that is no country code.
pub open spec fn country_error() -> Seq<char> {
    "country must be an uppercase ISO 3166-1 alpha-2 code, e.g. 'US' or 'JP'"@
}

/// The constant written in place of the country register: the two letters
/// in the low two bytes, under the two high bytes of a reference to that
/// register, which stay as they are.
pub open spec fn country_value(s: Seq<char>) -> u32 {
    (0x8000_0000 + (s[0] as u32) * 0x100 + (s[1] as u32)) as u32
}

impl Region {
    /// The number of this region: 0 for A, 1 for B, 2 for C.
    pub open spec fn spec_code(self) -> u32 {
        match self {
            Region::A => 0,
            Region::B => 1,
            Region::C => 2,
        }
    }

    /// The number of this region: 0 for A, 1 for B, 2 for C.
    pub fn code(&self) -> (r: u32)
        ensures
            r == self.spec_code(),
    {
        match self {
            Region::A => 0,
            Region::B => 1,
            Region::C => 2,
        }
    }

    /// The override that makes reads of the region register return this
    /// region's number.
    pub fn region_override(&self) -> (r: RegisterOverride)
        ensures
            r == (RegisterOverride { register: PSR_REGION, value: self.spec_code() }),
    {
        RegisterOverride { register: PSR_REGION, value: self.code() }
    }
}

/// Accepts a country code: exactly two upper-case ASCII letters. Any other
/// string is refused with a message that says what is expected.
pub fn parse_country(s: &str) -> (r: Result<String, String>)
    ensures
        match r {
            Ok(code) => is_country_code(s@) && code@ == s@,
            Err(message) => !is_country_code(s@) && message@ == country_error(),
        },
{
    if s.unicode_len() == 2 {
        let first = s.get_char(0);
        let second = s.get_char(1);
        if 'A' <= first && first <= 'Z' && 'A' <= second && second <= 'Z' {
            return Ok(s.to_owned());
        }
    }
    Err("country must be an uppercase ISO 3166-1 alpha-2 code, e.g. 'US' or 'JP'".to_owned())
}

/// The number that a run of decimal digits stands for.
pub open spec fn decimal_value(digits: Seq<char>) -> nat
    decreases digits.len(),
{
    if digits.len() == 0 {
        0
    } else {
        decimal_value(digits.drop_last()) * 10 + (digits.last() as u32 - 0x30) as nat
    }
}

/// A number's text without the `+` it may start with.
pub open spec fn unsigned_part(s: Seq<char>) -> Seq<char> {
    if s.len() > 0 && s[0] == '+' {
        s.skip(1)
    } else {
        s
    }
}

/// The 16-bit number that a text stands for: an optional `+`, then one or
/// more decimal digits and nothing else, with a value of at most 65535.
pub open spec fn u16_of_text(s: Seq<char>) -> Option<u16> {
    let digits = unsigned_part(s);
    if digits.len() > 0 && (forall|i: int|
        0 <= i < digits.len() ==> '0' <= #[trigger] digits[i] <= '9') && decimal_value(digits)
        <= 0xffff {
        Some(decimal_value(digits) as u16)
    } else {
        None
    }
}

/// Whether `first` and `second` are what stands before and after the first
/// comma of `s`.
pub open spec fn splits_at_comma(s: Seq<char>, first: Seq<char>, second: Seq<char>) -> bool {
    s == first + seq![','] + second && !first.contains(',')
}

/// `std::num::ParseIntError`, the error of `str::parse` for an integer. It
/// is carried through as it comes; nothing is claimed of what it holds.
#[verifier::external_type_specification]
#[verifier::external_body]
pub struct ExParseIntError(std::num::ParseIntError);

/// Why a string is no place of a command.
#[derive(Debug, PartialEq, Eq)]
pub enum NavigationCommandLocatorParseError {
    /// The string holds no comma.
    MissingComma,
    /// What stands before the first comma is no 16-bit number.
    InvalidMovieObjectIndex(std::num::ParseIntError),
    /// What stands after the first comma is no 16-bit number.
    InvalidNavigationCommandIndex(std::num::ParseIntError),
}

/// `str::split_once` with a comma as the delimiter. It splits at the first
/// comma and returns what stands before and after it, or `None` where the
/// string holds no comma.
#[verifier::external_body]
fn split_once_comma<'a>(s: &'a str) -> (r: Option<(&'a str, &'a str)>)
    ensures
        match r {
            Some((first, second)) => splits_at_comma(s@, first@, second@),
            None => !s@.contains(','),
        },
{
    s.split_once(',')
}

/// `str::parse` for `u16`. It accepts an optional `+` followed by decimal
/// digits only, at least one, whose value fits 16 bits, and returns that
/// value; anything else is an error.
#[verifier::external_body]
fn parse_u16(s: &str) -> (r: Result<u16, std::num::ParseIntError>)
    ensures
        match r {
            Ok(v) => u16_of_text(s@) == Some(v),
            Err(_) => u16_of_text(s@) is None,
        },
{
    s.parse::<u16>()
}

/// Reads the place of a command from a movie object index, a comma, and a
/// navigation command index, both from 0.
///
/// The string is split at its first comma. The result is the error for a
/// missing comma, else that for the part before it if that is no 16-bit
/// number, else that for the part after it, else the place.
pub fn parse_locator(s: &str) -> (r: Result<
    NavigationCommandLocator,
    NavigationCommandLocatorParseError,
>)
    ensures
        match r {
            Ok(l) => exists|a: Seq<char>, b: Seq<char>|
                #[trigger] splits_at_comma(s@, a, b) && u16_of_text(a) == Some(
                    l.movie_object_index,
                ) && u16_of_text(b) == Some(l.navigation_command_index),
            Err(NavigationCommandLocatorParseError::MissingComma) => !s@.contains(','),
            Err(NavigationCommandLocatorParseError::InvalidMovieObjectIndex(_)) => exists|
                a: Seq<char>,
                b: Seq<char>,
            | #[trigger] splits_at_comma(s@, a, b) && u16_of_text(a) is None,
            Err(NavigationCommandLocatorParseError::InvalidNavigationCommandIndex(_)) => exists|
                a: Seq<char>,
                b: Seq<char>,
            |
                #[trigger] splits_at_comma(s@, a, b) && u16_of_text(a) is Some && u16_of_text(b)
                    is None,
        },
{
    let (first, second) = match split_once_comma(s) {
        Some(parts) => parts,
        None => {
            return Err(NavigationCommandLocatorParseError::MissingComma);
        },
    };
    assert(splits_at_comma(s@, first@, second@));
    let movie_object_index = match parse_u16(first) {
        Ok(v) => v,
        Err(e) => {
            return Err(NavigationCommandLocatorParseError::InvalidMovieObjectIndex(e));
        },
    };
    let navigation_command_index = match parse_u16(second) {
        Ok(v) => v,
        Err(e) => {
            return Err(NavigationCommandLocatorParseError::InvalidNavigationCommandIndex(e));
        },
    };
    Ok(NavigationCommandLocator { movie_object_index, navigation_command_index })
}

/// The override that makes reads of the country register return a country
/// code, or `None` for a string that is no country code.
pub fn country_override(s: &str) -> (r: Option<RegisterOverride>)
    ensures
        r == if is_country_code(s@) {
            Some(RegisterOverride { register: PSR_COUNTRY, value: country_value(s@) })
        } else {
            None
        },
{
    if s.unicode_len() != 2 {
        return None;
    }
    let first = s.get_char(0);
    let second = s.get_char(1);
    if 'A' <= first && first <= 'Z' && 'A' <= second && second <= 'Z' {
        let value: u32 = 0x8000_0000 + (first as u32) * 0x100 + (second as u32);
        Some(RegisterOverride { register: PSR_COUNTRY, value })
    } else {
        None
    }
}

} // verus!
