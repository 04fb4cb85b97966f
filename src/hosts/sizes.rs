//! Byte ceilings: named presets and a custom value.
use vstd::prelude::*;

verus! {

#[verifier::external_type_specification]
#[verifier::external_body]
pub struct ExParseIntError(std::num::ParseIntError);

/// What `str::trim` leaves of a string: the characters between the leading
/// and the trailing Unicode white space.
pub uninterp spec fn trimmed(s: Seq<char>) -> Seq<char>;

/// Relies on `str::trim`: leading and trailing white space removed.
#[verifier::external_body]
fn trim(s: &str) -> (r: &str)
    ensures
        r@ == trimmed(s@),
{
    s.trim()
}

pub open spec fn is_digit(c: char) -> bool {
    '0' <= c && c <= '9'
}

/// The number written by a string of decimal digits.
pub open spec fn digits_value(s: Seq<char>) -> nat
    decreases s.len(),
{
    if s.len() == 0 {
        0
    } else {
        digits_value(s.drop_last()) * 10 + ((s.last() as u32) - ('0' as u32)) as nat
    }
}

/// The digits of an unsigned decimal: the text after an optional `+`.
pub open spec fn unsigned_digits(s: Seq<char>) -> Seq<char> {
    if s.len() > 0 && s[0] == '+' {
        s.drop_first()
    } else {
        s
    }
}

/// `s` is an optional `+` and one or more decimal digits.
pub open spec fn is_unsigned_decimal(s: Seq<char>) -> bool {
    let d = unsigned_digits(s);
    d.len() > 0 && forall|i: int| 0 <= i < d.len() ==> is_digit(#[trigger] d[i])
}

/// `s` reads as a `usize`: an unsigned decimal whose value fits.
pub open spec fn parses_as_usize(s: Seq<char>) -> bool {
    is_unsigned_decimal(s) && digits_value(unsigned_digits(s)) <= usize::MAX
}

/// Relies on `str::parse::<usize>`, which reads an optional `+` followed by
/// decimal digits and fails on anything else or on a value out of range.
#[verifier::external_body]
fn parse_usize(s: &str) -> (r: Result<usize, std::num::ParseIntError>)
    ensures
        r is Ok <==> parses_as_usize(s@),
        r is Ok ==> r->Ok_0 as nat == digits_value(unsigned_digits(s@)),
{
    s.parse::<usize>()
}

pub enum Size {
    MB50,
    MB100,
    MB125,
    MB128,
    MB200,
    MB250,
    MB300,
    MB500,
    GB1,
    GB2,
    GB5,
    GB10,
    GB15,
    GB20,
    GB25,
    GB50,
    GB100,
    GB150,
    GB200,
    GB250,
    GB300,
    GB500,
    Custom(usize),
}

impl Size {
    /// The ceiling in bytes (decimal units: a megabyte is 10^6 bytes).
    pub open spec fn bytes(&self) -> int {
        match self {
            Size::MB50 => 50_000_000,
            Size::MB100 => 100_000_000,
            Size::MB125 => 125_000_000,
            Size::MB128 => 128_000_000,
            Size::MB200 => 200_000_000,
            Size::MB250 => 250_000_000,
            Size::MB300 => 300_000_000,
            Size::MB500 => 500_000_000,
            Size::GB1 => 1_000_000_000,
            Size::GB2 => 2_000_000_000,
            Size::GB5 => 5_000_000_000,
            Size::GB10 => 10_000_000_000,
            Size::GB15 => 15_000_000_000,
            Size::GB20 => 20_000_000_000,
            Size::GB25 => 25_000_000_000,
            Size::GB50 => 50_000_000_000,
            Size::GB100 => 100_000_000_000,
            Size::GB150 => 150_000_000_000,
            Size::GB200 => 200_000_000_000,
            Size::GB250 => 250_000_000_000,
            Size::GB300 => 300_000_000_000,
            Size::GB500 => 500_000_000_000,
            Size::Custom(v) => *v as int,
        }
    }

    pub fn value(&self) -> (r: u64)
        ensures
            r as int == self.bytes(),
    {
        match self {
            Size::MB50 => 50_000_000,
            Size::MB100 => 100_000_000,
            Size::MB125 => 125_000_000,
            Size::MB128 => 128_000_000,
            Size::MB200 => 200_000_000,
            Size::MB250 => 250_000_000,
            Size::MB300 => 300_000_000,
            Size::MB500 => 500_000_000,
            Size::GB1 => 1_000_000_000,
            Size::GB2 => 2_000_000_000,
            Size::GB5 => 5_000_000_000,
            Size::GB10 => 10_000_000_000,
            Size::GB15 => 15_000_000_000,
            Size::GB20 => 20_000_000_000,
            Size::GB25 => 25_000_000_000,
            Size::GB50 => 50_000_000_000,
            Size::GB100 => 100_000_000_000,
            Size::GB150 => 150_000_000_000,
            Size::GB200 => 200_000_000_000,
            Size::GB250 => 250_000_000_000,
            Size::GB300 => 300_000_000_000,
            Size::GB500 => 500_000_000_000,
            Size::Custom(v) => *v as u64,
        }
    }

    /// A custom ceiling read from a decimal with no surrounding white space.
    pub fn from_decimal(s: &str) -> (r: Result<Size, std::num::ParseIntError>)
        ensures
            r is Ok <==> parses_as_usize(s@),
            r matches Ok(size) ==> size matches Size::Custom(v) && v as nat == digits_value(
                unsigned_digits(s@),
            ),
    {
        match parse_usize(s) {
            Ok(v) => Ok(Size::Custom(v)),
            Err(e) => Err(e),
        }
    }

    /// A custom ceiling read from a decimal, ignoring surrounding white space.
    pub fn custom_from_str(s: &str) -> (r: Result<Size, std::num::ParseIntError>)
        ensures
            r is Ok <==> parses_as_usize(trimmed(s@)),
            r matches Ok(size) ==> size matches Size::Custom(v) && v as nat == digits_value(
                unsigned_digits(trimmed(s@)),
            ),
    {
        Size::from_decimal(trim(s))
    }

    pub fn is_exceeded_by(&self, val: usize) -> (r: bool)
        ensures
            r == (val as int > self.bytes()),
    {
        val as u64 > self.value()
    }
}

} // verus!
