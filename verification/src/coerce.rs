//! Numbers that a document may have written as text.

use vstd::prelude::*;
use vstd::string::*;
use crate::error::{error_at, ConfigErrorKind, ConfigErrorView, ConfigParsingError};
use crate::path::ConfigPath;

verus! {

/// A value that the document holds either as a quoted text or as a bare
/// integer.
#[derive(Debug)]
pub enum StrOrInt {
    Str(String),
    Int(i64),
}

/// Whether `c` is one of the digits `0` to `9`.
pub open spec fn is_digit(c: char) -> bool {
    '0' <= c && c <= '9'
}

/// The number that a run of decimal digits denotes.
pub open spec fn digits_value(s: Seq<char>) -> nat
    decreases s.len(),
{
    if s.len() == 0 {
        0
    } else {
        10 * digits_value(s.drop_last()) + (s.last() as u32 - '0' as u32) as nat
    }
}

/// Whether a text is made of decimal digits alone.
pub open spec fn all_digits(s: Seq<char>) -> bool {
    forall|i: int| 0 <= i < s.len() ==> is_digit(#[trigger] s[i])
}

/// A text without its leading `+`, if it has one.
pub open spec fn unsigned_part(s: Seq<char>) -> Seq<char> {
    if s.len() > 0 && s[0] == '+' {
        s.drop_first()
    } else {
        s
    }
}

/// The number that a text denotes: an optional `+`, then one or more
/// decimal digits and nothing else.
pub open spec fn decimal_value(s: Seq<char>) -> Option<nat> {
    let digits = unsigned_part(s);
    if digits.len() > 0 && all_digits(digits) {
        Some(digits_value(digits))
    } else {
        None
    }
}

/// The number that a text denotes, if it is at most `max`.
pub open spec fn bounded_decimal(s: Seq<char>, max: nat) -> Option<nat> {
    match decimal_value(s) {
        Some(v) => if v <= max { Some(v) } else { None },
        None => None,
    }
}

/// The more digits of a number are read, the larger the number read so
/// far.
pub proof fn lemma_digits_value_grows(s: Seq<char>, n: int)
    requires
        0 <= n <= s.len(),
    ensures
        digits_value(s.take(n)) <= digits_value(s),
    decreases s.len() - n,
{
    if n < s.len() {
        lemma_digits_value_grows(s, n + 1);
        assert(s.take(n + 1).drop_last() =~= s.take(n));
    } else {
        assert(s.take(n) =~= s);
    }
}

/// Reads a number in decimal notation that is at most `max`: an
/// optional `+`, then one or more digits and nothing else.
pub fn parse_decimal(s: &str, max: u32) -> (r: Option<u32>)
    ensures
        match r {
            Some(v) => bounded_decimal(s@, max as nat) == Some(v as nat),
            None => bounded_decimal(s@, max as nat) is None,
        },
{
    let ghost digits = unsigned_part(s@);
    if !s.is_ascii() {
        proof {
            let i = choose|i: int| 0 <= i < s@.len() && !('\0' <= #[trigger] s@[i] <= '\u{7f}');
            let c = s@[i];
            assert(!is_digit(c));
            assert(c != '+');
            if s@[0] == '+' {
                assert(digits[i - 1] == s@[i]);
            } else {
                assert(digits[i] == s@[i]);
            }
        }
        return None;
    }
    let n = s.unicode_len();
    // 43 is the code of `+`, 48 to 57 are the codes of the digits.
    let start: usize = if n > 0 && s.get_ascii(0) == 43 {
        1
    } else {
        0
    };
    assert(digits.len() == n - start);
    if start == n {
        return None;
    }
    let mut acc: u64 = 0;
    let mut i: usize = start;
    while i < n
        invariant
            start <= i <= n,
            n == s@.len(),
            s.is_ascii(),
            digits == unsigned_part(s@),
            digits.len() == n - start,
            forall|j: int| 0 <= j < digits.len() ==> digits[j] == s@[start + j],
            forall|j: int| 0 <= j < i - start ==> is_digit(#[trigger] digits[j]),
            acc == digits_value(digits.take(i - start)),
            acc <= max,
        decreases n - i,
    {
        let b = s.get_ascii(i);
        let ghost c = digits[i - start];
        assert(c == s@[i as int]);
        if b < 48 || b > 57 {
            assert(!is_digit(c));
            return None;
        }
        assert(is_digit(c));
        let next = acc * 10 + (b - 48) as u64;
        proof {
            let read = digits.take(i - start + 1);
            assert(read.drop_last() =~= digits.take(i - start));
            assert(read.last() == c);
            assert(next == digits_value(read));
        }
        if next > max as u64 {
            proof {
                lemma_digits_value_grows(digits, i - start + 1);
            }
            return None;
        }
        acc = next;
        i += 1;
    }
    assert(digits.take(n - start) =~= digits);
    Some(acc as u32)
}

impl StrOrInt {
    /// The integer that the value denotes, if it denotes one.
    pub open spec fn denoted(self) -> Option<int> {
        match self {
            StrOrInt::Str(s) => match decimal_value(s@) {
                Some(v) => Some(v as int),
                None => None,
            },
            StrOrInt::Int(i) => Some(i as int),
        }
    }

    /// The integer that the value denotes, if it lies between 0 and `max`.
    pub open spec fn coerced(self, max: int) -> Option<int> {
        match self.denoted() {
            Some(v) => if 0 <= v <= max { Some(v) } else { None },
            None => None,
        }
    }

    /// The value as a `u32`; `None` for a text that is no number and for
    /// a number out of range.
    pub fn to_u32(&self) -> (r: Option<u32>)
        ensures
            match r {
                Some(v) => self.coerced(u32::MAX as int) == Some(v as int),
                None => self.coerced(u32::MAX as int) is None,
            },
    {
        match self {
            StrOrInt::Str(s) => parse_decimal(s.as_str(), u32::MAX),
            StrOrInt::Int(i) => {
                if 0 <= *i && *i <= 0xffff_ffff {
                    Some(*i as u32)
                } else {
                    None
                }
            },
        }
    }

    /// The value as a `u16`; `None` for a text that is no number and for
    /// a number out of range.
    pub fn to_u16(&self) -> (r: Option<u16>)
        ensures
            match r {
                Some(v) => self.coerced(u16::MAX as int) == Some(v as int),
                None => self.coerced(u16::MAX as int) is None,
            },
    {
        match self {
            StrOrInt::Str(s) => match parse_decimal(s.as_str(), 0xffff) {
                Some(v) => Some(v as u16),
                None => None,
            },
            StrOrInt::Int(i) => {
                if 0 <= *i && *i <= 0xffff {
                    Some(*i as u16)
                } else {
                    None
                }
            },
        }
    }
}

/// The number that a field denotes, if the field is there and denotes
/// one between 0 and `max`.
pub open spec fn coerced_field(field: Option<StrOrInt>, max: int) -> Option<int> {
    match field {
        Some(v) => v.coerced(max),
        None => None,
    }
}

/// The defects of a numeric field: none if it is absent or denotes a
/// number between 0 and `max`, one otherwise.
pub open spec fn coercion_errors(field: Option<StrOrInt>, max: int, path: Seq<Seq<char>>, message: Seq<char>) -> Seq<
    ConfigErrorView,
> {
    if field is Some && coerced_field(field, max) is None {
        seq![error_at(path, ConfigErrorKind::InvalidValue, message)]
    } else {
        Seq::empty()
    }
}

/// The number between 0 and `max` that a field denotes, or `default`
/// where the field is absent or denotes none.
pub open spec fn coerced_or(field: Option<StrOrInt>, max: int, default: int) -> int {
    match coerced_field(field, max) {
        Some(v) => v,
        None => default,
    }
}

/// Coerces the field `name` of the record at `cwp` to a `u32`. A field
/// that is present and cannot be coerced is recorded in `err`.
pub fn coerce_u32(
    err: &mut ConfigParsingError,
    field: &Option<StrOrInt>,
    cwp: &ConfigPath,
    name: &str,
    message: &str,
) -> (r: Option<u32>)
    ensures
        final(err)@ == old(err)@ + coercion_errors(*field, u32::MAX as int, cwp@.push(name@), message@),
        match r {
            Some(v) => coerced_field(*field, u32::MAX as int) == Some(v as int),
            None => coerced_field(*field, u32::MAX as int) is None,
        },
{
    let r = match field {
        Some(v) => {
            let r = v.to_u32();
            if r.is_none() {
                err.report(cwp, name, ConfigErrorKind::InvalidValue, message);
            }
            r
        },
        None => None,
    };
    assert(err@ =~= old(err)@ + coercion_errors(*field, u32::MAX as int, cwp@.push(name@), message@));
    r
}

/// Coerces the field `name` of the record at `cwp` to a `u16`. A field
/// that is present and cannot be coerced is recorded in `err`.
pub fn coerce_u16(
    err: &mut ConfigParsingError,
    field: &Option<StrOrInt>,
    cwp: &ConfigPath,
    name: &str,
    message: &str,
) -> (r: Option<u16>)
    ensures
        final(err)@ == old(err)@ + coercion_errors(*field, u16::MAX as int, cwp@.push(name@), message@),
        match r {
            Some(v) => coerced_field(*field, u16::MAX as int) == Some(v as int),
            None => coerced_field(*field, u16::MAX as int) is None,
        },
{
    let r = match field {
        Some(v) => {
            let r = v.to_u16();
            if r.is_none() {
                err.report(cwp, name, ConfigErrorKind::InvalidValue, message);
            }
            r
        },
        None => None,
    };
    assert(err@ =~= old(err)@ + coercion_errors(*field, u16::MAX as int, cwp@.push(name@), message@));
    r
}

/// A text and a bare integer that denote the same number are coerced to
/// the same value, whatever the bound.
pub proof fn lemma_text_and_integer_agree(s: String, i: i64, max: int)
    requires
        StrOrInt::Str(s).denoted() == Some(i as int),
    ensures
        StrOrInt::Str(s).coerced(max) == StrOrInt::Int(i).coerced(max),
{
}

} // verus!
