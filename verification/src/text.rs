//! Text primitives the library builds on: what std's integer parsers accept,
//! lower-case hexadecimal rendering, and string equality.
use std::num::ParseIntError;
use std::str::FromStr;
use vstd::prelude::*;

verus! {

/// The value of one digit character in the given radix, the way std reads
/// digits: `0-9`, then `a-z` / `A-Z` for the values 10 to 35.
pub open spec fn digit_value(c: char, radix: nat) -> Option<nat> {
    let code: u32 = c as u32;
    let v: int = if 48 <= code <= 57 {
        code - 48
    } else if 97 <= code <= 122 {
        code - 97 + 10
    } else if 65 <= code <= 90 {
        code - 65 + 10
    } else {
        36
    };
    if v < radix {
        Some(v as nat)
    } else {
        None
    }
}

/// The value of a run of digits (most significant first); `None` as soon as
/// one character is not a digit of the radix. The empty run is worth 0.
pub open spec fn digits_value(s: Seq<char>, radix: nat) -> Option<nat>
    decreases s.len(),
{
    if s.len() == 0 {
        Some(0)
    } else {
        match (digits_value(s.drop_last(), radix), digit_value(s.last(), radix)) {
            (Some(p), Some(d)) => Some(p * radix + d),
            _ => None,
        }
    }
}

/// What std's unsigned parsers read from `s`: an optional `+` followed by at
/// least one digit, and nothing else. The bound of the target type is
/// checked separately.
pub open spec fn unsigned_text_value(s: Seq<char>, radix: nat) -> Option<nat> {
    let digits = if s.len() > 0 && s[0] == '+' {
        s.drop_first()
    } else {
        s
    };
    if digits.len() == 0 {
        None
    } else {
        digits_value(digits, radix)
    }
}

/// `s` holds an unsigned number of the radix that is at most `max`.
pub open spec fn parses_within(s: Seq<char>, radix: nat, max: nat) -> bool {
    &&& unsigned_text_value(s, radix) is Some
    &&& unsigned_text_value(s, radix)->0 <= max
}

/// The character of a hexadecimal digit, in upper or lower case.
pub open spec fn hex_char_in_case(d: nat, upper: bool) -> char {
    if d < 10 {
        (48 + d) as char
    } else if upper {
        (65 + d - 10) as char
    } else {
        (97 + d - 10) as char
    }
}

/// The last `count` hexadecimal digits of `n` in the given case, most
/// significant first, zero padded: what `{:0count$x}` or `{:0count$X}`
/// prints for `n < 16^count`.
pub open spec fn hex_digits_in_case(n: nat, count: nat, upper: bool) -> Seq<char>
    decreases count,
{
    if count == 0 {
        Seq::empty()
    } else {
        hex_digits_in_case(n / 16, (count - 1) as nat, upper).push(hex_char_in_case(n % 16, upper))
    }
}

/// The character std prints for a lower-case hexadecimal digit.
pub open spec fn lower_hex_char(d: nat) -> char {
    hex_char_in_case(d, false)
}

/// The last `count` lower-case hexadecimal digits of `n`, zero padded.
pub open spec fn lower_hex_digits(n: nat, count: nat) -> Seq<char> {
    hex_digits_in_case(n, count, false)
}

/// `u64::from_str_radix`: std's documentation says that the text must be an
/// optional `+` followed by digits of the radix only, and that a value out of
/// the range of `u64` is an error. This states exactly that.
pub assume_specification[ u64::from_str_radix ](src: &str, radix: u32) -> (res: Result<
    u64,
    ParseIntError,
>)
    requires
        2 <= radix <= 36,
    ensures
        res is Ok <==> parses_within(src@, radix as nat, u64::MAX as nat),
        res matches Ok(v) ==> v == unsigned_text_value(src@, radix as nat)->0,
;

/// `u64::from_str` (what `str::parse::<u64>` runs): decimal digits with an
/// optional `+`, within the range of `u64`, as its documentation says.
pub assume_specification[ <u64 as FromStr>::from_str ](src: &str) -> (res: Result<
    u64,
    ParseIntError,
>)
    ensures
        res is Ok <==> parses_within(src@, 10, u64::MAX as nat),
        res matches Ok(v) ==> v == unsigned_text_value(src@, 10)->0,
;

/// `usize::from_str` (what `str::parse::<usize>` runs): decimal digits with
/// an optional `+`, within the range of `usize`, as its documentation says.
pub assume_specification[ <usize as FromStr>::from_str ](src: &str) -> (res: Result<
    usize,
    ParseIntError,
>)
    ensures
        res is Ok <==> parses_within(src@, 10, usize::MAX as nat),
        res matches Ok(v) ==> v == unsigned_text_value(src@, 10)->0,
;

/// `str == str`: equal exactly when the two hold the same characters.
pub assume_specification[ <str as PartialEq>::eq ](a: &str, b: &str) -> (res: bool)
    ensures
        res == (a@ == b@),
;

/// `String::push`: appends one character.
pub assume_specification[ String::push ](s: &mut String, ch: char)
    ensures
        final(s)@ == old(s)@.push(ch),
;

/// std's `ParseIntError`, carried as it is.
#[verifier::external_type_specification]
#[verifier::external_body]
pub struct ExParseIntError(ParseIntError);

/// The character of a hexadecimal digit.
pub fn lower_hex_char_of(d: u64) -> (c: char)
    requires
        d < 16,
    ensures
        c == lower_hex_char(d as nat),
{
    if d < 10 {
        ((d as u8) + 48u8) as char
    } else {
        ((d as u8) + 87u8) as char
    }
}

/// Appends the last `count` hexadecimal digits of `n`, zero padded.
pub fn push_lower_hex(out: &mut String, n: u64, count: usize)
    ensures
        final(out)@ == old(out)@ + lower_hex_digits(n as nat, count as nat),
    decreases count,
{
    if count > 0 {
        push_lower_hex(out, n / 16, count - 1);
        out.push(lower_hex_char_of(n % 16));
    }
}

} // verus!
