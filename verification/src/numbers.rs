//! Decimal integer parsing with the rules and messages of the standard library.
use vstd::prelude::*;

use crate::text::{chars_of, owned};

verus! {

/// Whether a character is an ASCII decimal digit.
pub open spec fn is_digit(c: char) -> bool {
    '0' <= c && c <= '9'
}

/// Value of an ASCII decimal digit.
pub open spec fn digit_value(c: char) -> int {
    (c as int) - ('0' as int)
}

/// Reasons a decimal integer fails to parse.
#[derive(Debug, PartialEq, Eq, Structural, Clone, Copy)]
pub enum IntErrorKind {
    Empty,
    InvalidDigit,
    PosOverflow,
    NegOverflow,
}

/// Left-to-right scan of the digits `s[k..]`, starting from the magnitude `acc`;
/// the magnitude may not exceed `limit`.
pub open spec fn scan_digits(s: Seq<char>, k: int, acc: int, limit: int) -> Result<int, IntErrorKind>
    decreases s.len() - k,
{
    if k < 0 || k >= s.len() {
        Ok(acc)
    } else if !is_digit(s[k]) {
        Err(IntErrorKind::InvalidDigit)
    } else if acc * 10 + digit_value(s[k]) > limit {
        Err(IntErrorKind::PosOverflow)
    } else {
        scan_digits(s, k + 1, acc * 10 + digit_value(s[k]), limit)
    }
}

/// Result of parsing an unsigned decimal integer no greater than `max`.
pub open spec fn spec_parse_unsigned(s: Seq<char>, max: int) -> Result<int, IntErrorKind> {
    if s.len() == 0 {
        Err(IntErrorKind::Empty)
    } else if s.len() == 1 && (s[0] == '+' || s[0] == '-') {
        Err(IntErrorKind::InvalidDigit)
    } else if s[0] == '+' {
        scan_digits(s, 1, 0, max)
    } else {
        scan_digits(s, 0, 0, max)
    }
}

/// Result of parsing a signed decimal integer within `[-(max + 1), max]`.
pub open spec fn spec_parse_signed(s: Seq<char>, max: int) -> Result<int, IntErrorKind> {
    if s.len() == 0 {
        Err(IntErrorKind::Empty)
    } else if s.len() == 1 && (s[0] == '+' || s[0] == '-') {
        Err(IntErrorKind::InvalidDigit)
    } else if s[0] == '-' {
        match scan_digits(s, 1, 0, max + 1) {
            Ok(v) => Ok(-v),
            Err(IntErrorKind::PosOverflow) => Err(IntErrorKind::NegOverflow),
            Err(e) => Err(e),
        }
    } else if s[0] == '+' {
        scan_digits(s, 1, 0, max)
    } else {
        scan_digits(s, 0, 0, max)
    }
}

/// Message shown for an integer parsing failure.
pub open spec fn spec_int_error_message(k: IntErrorKind) -> Seq<char> {
    match k {
        IntErrorKind::Empty => "cannot parse integer from empty string"@,
        IntErrorKind::InvalidDigit => "invalid digit found in string"@,
        IntErrorKind::PosOverflow => "number too large to fit in target type"@,
        IntErrorKind::NegOverflow => "number too small to fit in target type"@,
    }
}

/// Message shown for an integer parsing failure.
pub fn int_error_message(k: IntErrorKind) -> (s: String)
    ensures
        s@ == spec_int_error_message(k),
{
    match k {
        IntErrorKind::Empty => owned("cannot parse integer from empty string"),
        IntErrorKind::InvalidDigit => owned("invalid digit found in string"),
        IntErrorKind::PosOverflow => owned("number too large to fit in target type"),
        IntErrorKind::NegOverflow => owned("number too small to fit in target type"),
    }
}

proof fn lemma_scan_step(s: Seq<char>, k: int, acc: int, limit: int)
    requires
        0 <= k < s.len(),
        is_digit(s[k]),
        acc * 10 + digit_value(s[k]) <= limit,
    ensures
        scan_digits(s, k, acc, limit) == scan_digits(s, k + 1, acc * 10 + digit_value(s[k]), limit),
{
}

/// Scans the digits `s[start..]` into a magnitude of at most `limit`.
fn scan(s: &[char], start: usize, limit: u64) -> (r: Result<u64, IntErrorKind>)
    requires
        start <= s@.len(),
    ensures
        match r {
            Ok(v) => scan_digits(s@, start as int, 0, limit as int) == Ok::<int, IntErrorKind>(v as int),
            Err(e) => scan_digits(s@, start as int, 0, limit as int) == Err::<int, IntErrorKind>(e),
        },
        r matches Ok(v) ==> v <= limit,
{
    let mut acc: u64 = 0;
    let mut k = start;
    while k < s.len()
        invariant
            start <= k <= s@.len(),
            acc <= limit,
            scan_digits(s@, start as int, 0, limit as int) == scan_digits(s@, k as int, acc as int, limit as int),
        decreases s.len() - k,
    {
        let c = s[k];
        if !('0' <= c && c <= '9') {
            return Err(IntErrorKind::InvalidDigit);
        }
        let d: u64 = (c as u32 - '0' as u32) as u64;
        assert(d as int == digit_value(c));
        if d > limit || acc > (limit - d) / 10 {
            assert(acc * 10 + d > limit) by (nonlinear_arith)
                requires d > limit || acc > (limit - d) / 10, d <= 9, acc >= 0;
            return Err(IntErrorKind::PosOverflow);
        }
        assert(acc * 10 + d <= limit) by (nonlinear_arith)
            requires acc <= (limit - d) / 10, d <= 9;
        proof { lemma_scan_step(s@, k as int, acc as int, limit as int); }
        acc = acc * 10 + d;
        k = k + 1;
    }
    Ok(acc)
}

/// Parses an unsigned decimal integer.
pub fn parse_u64(s: &str) -> (r: Result<u64, IntErrorKind>)
    ensures
        match r {
            Ok(v) => spec_parse_unsigned(s@, u64::MAX as int) == Ok::<int, IntErrorKind>(v as int),
            Err(e) => spec_parse_unsigned(s@, u64::MAX as int) == Err::<int, IntErrorKind>(e),
        },
{
    let c = chars_of(s);
    if c.len() == 0 {
        return Err(IntErrorKind::Empty);
    }
    if c.len() == 1 && (c[0] == '+' || c[0] == '-') {
        return Err(IntErrorKind::InvalidDigit);
    }
    let start: usize = if c[0] == '+' { 1 } else { 0 };
    scan(c.as_slice(), start, u64::MAX)
}

/// Parses a signed decimal integer.
pub fn parse_i64(s: &str) -> (r: Result<i64, IntErrorKind>)
    ensures
        match r {
            Ok(v) => spec_parse_signed(s@, i64::MAX as int) == Ok::<int, IntErrorKind>(v as int),
            Err(e) => spec_parse_signed(s@, i64::MAX as int) == Err::<int, IntErrorKind>(e),
        },
{
    let c = chars_of(s);
    if c.len() == 0 {
        return Err(IntErrorKind::Empty);
    }
    if c.len() == 1 && (c[0] == '+' || c[0] == '-') {
        return Err(IntErrorKind::InvalidDigit);
    }
    if c[0] == '-' {
        match scan(c.as_slice(), 1, 9223372036854775808u64) {
            Ok(m) => {
                if m == 9223372036854775808u64 {
                    Ok(i64::MIN)
                } else {
                    Ok(-(m as i64))
                }
            },
            Err(IntErrorKind::PosOverflow) => Err(IntErrorKind::NegOverflow),
            Err(e) => Err(e),
        }
    } else {
        let start: usize = if c[0] == '+' { 1 } else { 0 };
        match scan(c.as_slice(), start, 9223372036854775807u64) {
            Ok(m) => Ok(m as i64),
            Err(e) => Err(e),
        }
    }
}

/// Parses an unsigned decimal integer of machine word size.
pub fn parse_usize(s: &str) -> (r: Result<usize, IntErrorKind>)
    ensures
        match r {
            Ok(v) => spec_parse_unsigned(s@, usize::MAX as int) == Ok::<int, IntErrorKind>(v as int),
            Err(e) => spec_parse_unsigned(s@, usize::MAX as int) == Err::<int, IntErrorKind>(e),
        },
{
    let c = chars_of(s);
    if c.len() == 0 {
        return Err(IntErrorKind::Empty);
    }
    if c.len() == 1 && (c[0] == '+' || c[0] == '-') {
        return Err(IntErrorKind::InvalidDigit);
    }
    let start: usize = if c[0] == '+' { 1 } else { 0 };
    match scan(c.as_slice(), start, usize::MAX as u64) {
        Ok(m) => Ok(m as usize),
        Err(e) => Err(e),
    }
}

} // verus!
