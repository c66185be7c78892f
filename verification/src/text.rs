//! Small helpers on strings.

use vstd::prelude::*;
use vstd::string::*;

verus! {

/// Whether two strings hold the same characters.
pub fn str_eq(a: &str, b: &str) -> (same: bool)
    ensures
        same == (a@ == b@),
{
    let x = a.to_owned();
    let y = b.to_owned();
    x == y
}

/// The value of a decimal digit.
pub open spec fn digit_value(c: char) -> Option<int> {
    if '0' <= c && c <= '9' {
        Some(c as int - '0' as int)
    } else {
        None
    }
}

/// The number that a run of decimal digits writes; zero for no digits, and
/// none where a character is no digit.
pub open spec fn digits_value(s: Seq<char>) -> Option<int>
    decreases s.len(),
{
    if s.len() == 0 {
        Some(0)
    } else {
        match (digits_value(s.drop_last()), digit_value(s.last())) {
            (Some(high), Some(low)) => Some(10 * high + low),
            _ => None,
        }
    }
}

/// What a text means as a number up to `max`: an optional plus sign, then
/// at least one decimal digit, the whole no greater than `max`.
pub open spec fn spec_parse_decimal(s: Seq<char>, max: int) -> Option<int> {
    let digits = if s.len() > 0 && s[0] == '+' {
        s.drop_first()
    } else {
        s
    };
    if digits.len() == 0 {
        None
    } else {
        match digits_value(digits) {
            Some(v) if v <= max => Some(v),
            _ => None,
        }
    }
}

/// What a text means as an 8-bit number.
pub open spec fn spec_parse_u8(s: Seq<char>) -> Option<u8> {
    match spec_parse_decimal(s, 255) {
        Some(v) => Some(v as u8),
        None => None,
    }
}

/// What a text means as a 32-bit number.
pub open spec fn spec_parse_u32(s: Seq<char>) -> Option<u32> {
    match spec_parse_decimal(s, 0xFFFF_FFFF) {
        Some(v) => Some(v as u32),
        None => None,
    }
}

proof fn lemma_digits_prefix(s: Seq<char>, n: int)
    requires
        0 <= n <= s.len(),
        digits_value(s) is Some,
    ensures
        digits_value(s.subrange(0, n)) is Some,
        digits_value(s.subrange(0, n))->Some_0 >= 0,
        digits_value(s.subrange(0, n))->Some_0 <= digits_value(s)->Some_0,
    decreases s.len(),
{
    if n == s.len() {
        assert(s.subrange(0, n) =~= s);
        lemma_digits_nonnegative(s);
    } else {
        assert(s.drop_last().subrange(0, n) =~= s.subrange(0, n));
        lemma_digits_prefix(s.drop_last(), n);
        lemma_digits_nonnegative(s.drop_last());
    }
}

proof fn lemma_digits_nonnegative(s: Seq<char>)
    requires
        digits_value(s) is Some,
    ensures
        digits_value(s)->Some_0 >= 0,
    decreases s.len(),
{
    if s.len() > 0 {
        lemma_digits_nonnegative(s.drop_last());
    }
}

/// Parses a number in decimal that is no greater than `max`.
pub fn parse_decimal(s: &str, max: u32) -> (parsed: Option<u32>)
    ensures
        match parsed {
            Some(v) => spec_parse_decimal(s@, max as int) == Some(v as int),
            None => spec_parse_decimal(s@, max as int).is_none(),
        },
{
    let n: usize = s.unicode_len();
    let mut first: usize = 0;
    if n > 0 && s.get_char(0) == '+' {
        first = 1;
    }
    if first == n {
        return None;
    }
    let ghost digits = s@.subrange(first as int, n as int);
    assert(digits =~= if s@.len() > 0 && s@[0] == '+' {
        s@.drop_first()
    } else {
        s@
    });
    let over: u64 = max as u64 + 1;
    let mut i: usize = first;
    let mut value: u64 = 0;
    while i < n
        invariant
            first <= i <= n,
            n == s@.len(),
            first < n,
            over == max + 1,
            digits == s@.subrange(first as int, n as int),
            digits == (if s@.len() > 0 && s@[0] == '+' {
                s@.drop_first()
            } else {
                s@
            }),
            value <= over,
            digits_value(digits.subrange(0, i - first)) matches Some(v) && v >= 0 && (if v <= max {
                value == v
            } else {
                value == over
            }),
        decreases n - i,
    {
        let c: char = s.get_char(i);
        let ghost before = digits.subrange(0, i - first);
        let ghost upto = digits.subrange(0, i - first + 1);
        assert(upto.drop_last() =~= before);
        assert(upto.last() == c);
        if c < '0' || c > '9' {
            proof {
                assert(digit_value(c) is None);
                assert(digits_value(upto) is None);
                if digits_value(digits) is Some {
                    lemma_digits_prefix(digits, i - first + 1);
                }
            }
            return None;
        }
        let d: u64 = (c as u32 - '0' as u32) as u64;
        let next: u64 = value * 10 + d;
        value = if next > max as u64 {
            over
        } else {
            next
        };
        i += 1;
    }
    assert(digits.subrange(0, n - first) =~= digits);
    if value <= max as u64 {
        Some(value as u32)
    } else {
        None
    }
}

/// Parses an 8-bit number in decimal.
pub fn parse_u8(s: &str) -> (parsed: Option<u8>)
    ensures
        parsed == spec_parse_u8(s@),
{
    match parse_decimal(s, 255) {
        Some(v) => Some(v as u8),
        None => None,
    }
}

/// Parses a 32-bit number in decimal.
pub fn parse_u32(s: &str) -> (parsed: Option<u32>)
    ensures
        parsed == spec_parse_u32(s@),
{
    parse_decimal(s, u32::MAX)
}

/// Accepts the text of one SPI pin: an 8-bit number. Any other text is
/// refused with a message that quotes it.
pub fn spi_pins_validate(dio: &str) -> (checked: Result<(), String>)
    ensures
        match checked {
            Ok(_) => spec_parse_u8(dio@).is_some(),
            Err(msg) => spec_parse_u8(dio@).is_none() && msg@ == "Invalid DIO value "@ + dio@
                + ", must be an unsigned 8-bit integer"@,
        },
{
    match parse_u8(dio) {
        Some(_) => Ok(()),
        None => Err(
            String::from_str("Invalid DIO value ").concat(dio).concat(
                ", must be an unsigned 8-bit integer",
            ),
        ),
    }
}

/// Accepts the text of an offset or a length: a 32-bit number.
pub fn is_zero_or_positive(val: &str) -> (checked: Result<(), String>)
    ensures
        match checked {
            Ok(_) => spec_parse_u32(val@).is_some(),
            Err(msg) => spec_parse_u32(val@).is_none() && msg@
                == "Value must be a zero or positive integer"@,
        },
{
    match parse_u32(val) {
        Some(_) => Ok(()),
        None => Err("Value must be a zero or positive integer".to_owned()),
    }
}

/// The text of one decimal digit.
pub open spec fn decimal_digit(d: usize) -> &'static str {
    match d {
        0 => "0",
        1 => "1",
        2 => "2",
        3 => "3",
        4 => "4",
        5 => "5",
        6 => "6",
        7 => "7",
        8 => "8",
        _ => "9",
    }
}

/// A number in decimal, without leading zeros.
pub open spec fn decimal_text(n: usize) -> Seq<char>
    decreases n,
{
    if n < 10 {
        decimal_digit(n)@
    } else {
        decimal_text(n / 10) + decimal_digit(n % 10)@
    }
}

fn decimal_digit_text(d: usize) -> (text: &'static str)
    requires
        d < 10,
    ensures
        text == decimal_digit(d),
{
    match d {
        0 => "0",
        1 => "1",
        2 => "2",
        3 => "3",
        4 => "4",
        5 => "5",
        6 => "6",
        7 => "7",
        8 => "8",
        _ => "9",
    }
}

/// Writes a number in decimal, without leading zeros.
pub fn to_decimal(n: usize) -> (text: String)
    ensures
        text@ == decimal_text(n),
    decreases n,
{
    if n < 10 {
        decimal_digit_text(n).to_owned()
    } else {
        to_decimal(n / 10).concat(decimal_digit_text(n % 10))
    }
}

} // verus!
