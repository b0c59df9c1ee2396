//! Client configuration.
//!
//! The client takes one optional numeric argument: a frame-size multiplier
//! in kibibytes. A missing or unparsable argument falls back to the
//! default of sixteen — the lenient default is deliberate, not an error.
//! The client also enlarges both flow-control windows to a gibibyte and
//! issues a fixed request shape for a fixed number of cycles.

use vstd::prelude::*;

verus! {

/// Default frame-size multiplier, in kibibytes.
pub const DEFAULT_FRAME_SIZE_MULTIPLIER: u32 = 16;

/// Bytes in one kibibyte.
pub const KIBIBYTE: u32 = 1024;

/// How many sequential request cycles a run performs.
pub const DEFAULT_CYCLE_COUNT: u64 = 2000;

/// Initial window size the client asks for, per stream and per
/// connection: one gibibyte.
pub const CLIENT_WINDOW_SIZE: u32 = 1024 * 1024 * 1024;

/// The one resource every request asks for.
pub fn request_target() -> (s: &'static str)
    ensures
        s@ == "http://localhost/"@,
{
    "http://localhost/"
}

/// An ASCII decimal digit.
pub open spec fn is_ascii_digit(b: u8) -> bool {
    48 <= b <= 57
}

/// Every byte is an ASCII decimal digit.
pub open spec fn all_ascii_digits(s: Seq<u8>) -> bool {
    forall|j: int| 0 <= j < s.len() ==> is_ascii_digit(s[j])
}

/// Value of a string of ASCII decimal digits, most significant first.
pub open spec fn decimal_value(s: Seq<u8>) -> int
    decreases s.len(),
{
    if s.len() == 0 {
        0
    } else {
        decimal_value(s.drop_last()) * 10 + (s.last() - 48)
    }
}

/// What parsing an unsigned decimal number out of `s` yields: the digits
/// may follow one optional plus sign, and the value must fit the result
/// type; anything else is a parse failure.
pub open spec fn spec_parse_u32(s: Seq<u8>) -> Option<u32> {
    let digits = if s.len() >= 1 && s[0] == 43 {
        s.drop_first()
    } else {
        s
    };
    if digits.len() >= 1 && all_ascii_digits(digits) && decimal_value(digits) <= u32::MAX {
        Some(decimal_value(digits) as u32)
    } else {
        None::<u32>
    }
}

/// The frame-size multiplier an argument stands for: its parsed value, or
/// the default when it does not parse.
pub open spec fn spec_multiplier_of(s: Seq<u8>) -> u32 {
    match spec_parse_u32(s) {
        Some(v) => v,
        None => DEFAULT_FRAME_SIZE_MULTIPLIER,
    }
}

/// A digit string's value is never negative.
pub proof fn lemma_decimal_value_nonneg(s: Seq<u8>)
    requires
        all_ascii_digits(s),
    ensures
        decimal_value(s) >= 0,
    decreases s.len(),
{
    if s.len() > 0 {
        assert(all_ascii_digits(s.drop_last()));
        lemma_decimal_value_nonneg(s.drop_last());
    }
}

/// Reading one more digit multiplies the value by ten and adds the digit.
pub proof fn lemma_decimal_value_take_succ(s: Seq<u8>, i: int)
    requires
        0 <= i < s.len(),
    ensures
        decimal_value(s.take(i + 1)) == decimal_value(s.take(i)) * 10 + (s[i] - 48),
{
    assert(s.take(i + 1).drop_last() =~= s.take(i));
    assert(s.take(i + 1).last() == s[i]);
}

/// A digit string is worth at least any prefix of itself: later digits
/// only grow the value.
pub proof fn lemma_decimal_value_take_le(s: Seq<u8>, i: int)
    requires
        all_ascii_digits(s),
        0 <= i <= s.len(),
    ensures
        decimal_value(s.take(i)) <= decimal_value(s),
    decreases s.len() - i,
{
    if i < s.len() {
        lemma_decimal_value_take_succ(s, i);
        lemma_decimal_value_nonneg(s.take(i));
        assert(decimal_value(s.take(i)) * 10 >= decimal_value(s.take(i))) by (nonlinear_arith)
            requires
                decimal_value(s.take(i)) >= 0,
        ;
        lemma_decimal_value_take_le(s, i + 1);
    } else {
        assert(s.take(i) =~= s);
    }
}

/// Parses an unsigned decimal number (an optional plus sign, then digits).
/// Returns its value exactly when the text is such a number and the value
/// fits; anything else — empty text, a stray byte, a value too large —
/// is `None`.
pub fn parse_u32(text: &Vec<u8>) -> (r: Option<u32>)
    ensures
        r == spec_parse_u32(text@),
{
    let offset: usize = if text.len() >= 1 && text[0] == 43 {
        1
    } else {
        0
    };
    let ghost digits: Seq<u8> = if offset == 1 {
        text@.drop_first()
    } else {
        text@
    };
    proof {
        assert(digits =~= text@.subrange(offset as int, text@.len() as int));
    }
    if text.len() == offset {
        return None;
    }
    let mut value: u32 = 0;
    let mut i: usize = offset;
    proof {
        assert(digits.take(0) =~= Seq::<u8>::empty());
    }
    while i < text.len()
        invariant
            offset <= i <= text@.len(),
            offset <= 1,
            (offset == 1) == (text@.len() >= 1 && text@[0] == 43),
            text@.len() > offset,
            digits =~= text@.subrange(offset as int, text@.len() as int),
            all_ascii_digits(digits.take(i - offset)),
            value == decimal_value(digits.take(i - offset)),
        decreases text@.len() - i,
    {
        let b = text[i];
        proof {
            lemma_decimal_value_take_succ(digits, i - offset);
            assert(digits[i - offset] == text@[i as int]);
        }
        if b < 48 || b > 57 {
            // A byte that is no digit: the argument does not parse.
            proof {
                assert(!all_ascii_digits(digits)) by {
                    if all_ascii_digits(digits) {
                        assert(is_ascii_digit(digits[i - offset]));
                    }
                }
            }
            return None;
        }
        let digit = (b - 48) as u32;
        if value > (u32::MAX - digit) / 10 {
            // The value has outgrown the result type; more digits only
            // grow it further, so the argument does not parse.
            proof {
                assert(value * 10 + digit > u32::MAX) by (nonlinear_arith)
                    requires
                        value > (u32::MAX - digit) / 10,
                        0 <= digit <= 9,
                        value >= 0,
                ;
                if offset == 1 {
                    assert(digits =~= text@.drop_first());
                } else {
                    assert(digits =~= text@);
                }
                if all_ascii_digits(digits) {
                    lemma_decimal_value_take_le(digits, i - offset + 1);
                }
            }
            return None;
        }
        value = value * 10 + digit;
        i = i + 1;
    }
    proof {
        assert(digits.take(digits.len() as int) =~= digits);
    }
    Some(value)
}

/// The frame-size multiplier, in kibibytes, taken from the optional
/// program argument: the argument's value when it parses as an unsigned
/// decimal number, the default of sixteen when it is absent or does not.
pub fn frame_size_multiplier(arg: Option<&Vec<u8>>) -> (m: u32)
    ensures
        arg matches Some(text) ==> m == spec_multiplier_of(text@),
        arg is None ==> m == DEFAULT_FRAME_SIZE_MULTIPLIER,
{
    match arg {
        Some(text) => match parse_u32(text) {
            Some(v) => v,
            None => DEFAULT_FRAME_SIZE_MULTIPLIER,
        },
        None => DEFAULT_FRAME_SIZE_MULTIPLIER,
    }
}

/// The negotiated maximum frame size in bytes: the multiplier scaled to
/// kibibytes. Computed in a wider type, so every multiplier has an exact
/// product.
pub fn frame_size_bytes(multiplier: u32) -> (r: u64)
    ensures
        r == multiplier * KIBIBYTE,
{
    (multiplier as u64) * 1024
}

} // verus!
