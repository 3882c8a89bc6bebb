//! Decoding of the hexadecimal quantities in which a node's answers come.

use vstd::prelude::*;

verus! {

/// Why a quantity could not be decoded.
#[derive(Debug, Clone, Copy, PartialEq, Eq, Structural)]
pub enum QuantityError {
    /// The text does not start with `0x`.
    MissingPrefix,
    /// Nothing follows the prefix.
    NoDigits,
    /// A character after the prefix is not a hexadecimal digit.
    InvalidDigit,
    /// The value does not fit in the integer asked for.
    TooLarge,
}

/// Value of a hexadecimal digit, either case.
pub open spec fn hex_digit(c: char) -> Option<int> {
    if '0' <= c && c <= '9' {
        Some(c as int - '0' as int)
    } else if 'a' <= c && c <= 'f' {
        Some(c as int - 'a' as int + 10)
    } else if 'A' <= c && c <= 'F' {
        Some(c as int - 'A' as int + 10)
    } else {
        None
    }
}

/// Every character is a hexadecimal digit.
pub open spec fn all_hex(digits: Seq<char>) -> bool {
    forall|i: int| 0 <= i < digits.len() ==> (#[trigger] hex_digit(digits[i])) is Some
}

/// The number that the digits spell, most significant first.
pub open spec fn hex_value(digits: Seq<char>) -> int
    decreases digits.len(),
{
    if digits.len() == 0 {
        0
    } else {
        hex_value(digits.drop_last()) * 16 + hex_digit(digits.last()).unwrap_or(0)
    }
}

/// The text starts with `0x`.
pub open spec fn has_prefix(s: Seq<char>) -> bool {
    s.len() >= 2 && s[0] == '0' && s[1] == 'x'
}

/// What decoding `s` into an integer of at most `max` gives.
pub open spec fn quantity_of(s: Seq<char>, max: int) -> Result<int, QuantityError> {
    if !has_prefix(s) {
        Err(QuantityError::MissingPrefix)
    } else if s.len() == 2 {
        Err(QuantityError::NoDigits)
    } else if !all_hex(s.skip(2)) {
        Err(QuantityError::InvalidDigit)
    } else if hex_value(s.skip(2)) > max {
        Err(QuantityError::TooLarge)
    } else {
        Ok(hex_value(s.skip(2)))
    }
}

proof fn lemma_hex_value_nonneg(digits: Seq<char>)
    requires
        all_hex(digits),
    ensures
        hex_value(digits) >= 0,
    decreases digits.len(),
{
    if digits.len() > 0 {
        let init = digits.drop_last();
        assert(all_hex(init)) by {
            assert forall|i: int| 0 <= i < init.len() implies (#[trigger] hex_digit(init[i])) is Some by {
                assert(init[i] == digits[i]);
            }
        }
        lemma_hex_value_nonneg(init);
        assert(hex_digit(digits[digits.len() - 1]) is Some);
    }
}

/// Once a prefix of the digits is past `max`, so is the whole.
proof fn lemma_hex_value_grows(digits: Seq<char>, i: int)
    requires
        all_hex(digits),
        0 <= i <= digits.len(),
    ensures
        hex_value(digits.take(i)) <= hex_value(digits),
    decreases digits.len() - i,
{
    if i < digits.len() {
        lemma_hex_value_grows(digits, i + 1);
        let p = digits.take(i + 1);
        assert(p.drop_last() =~= digits.take(i));
        assert(hex_digit(digits[i]) is Some);
        assert(all_hex(digits.take(i))) by {
            assert forall|k: int| 0 <= k < digits.take(i).len() implies (#[trigger] hex_digit(
                digits.take(i)[k],
            )) is Some by {
                assert(digits.take(i)[k] == digits[k]);
            }
        }
        lemma_hex_value_nonneg(digits.take(i));
    } else {
        assert(digits.take(i) =~= digits);
    }
}

/// Value of one hexadecimal digit.
pub fn hex_digit_of(c: char) -> (r: Option<u8>)
    ensures
        match r {
            Some(v) => hex_digit(c) == Some(v as int),
            None => hex_digit(c) is None,
        },
{
    if '0' <= c && c <= '9' {
        Some((c as u32 - '0' as u32) as u8)
    } else if 'a' <= c && c <= 'f' {
        Some((c as u32 - 'a' as u32 + 10) as u8)
    } else if 'A' <= c && c <= 'F' {
        Some((c as u32 - 'A' as u32 + 10) as u8)
    } else {
        None
    }
}

/// Decodes a `0x`-prefixed hexadecimal quantity into a `u128`.
pub fn decode_quantity(s: &str) -> (r: Result<u128, QuantityError>)
    ensures
        match r {
            Ok(v) => quantity_of(s@, u128::MAX as int) == Ok::<int, QuantityError>(v as int),
            Err(e) => quantity_of(s@, u128::MAX as int) == Err::<int, QuantityError>(e),
        },
{
    let n = s.unicode_len();
    if n < 2 || s.get_char(0) != '0' || s.get_char(1) != 'x' {
        return Err(QuantityError::MissingPrefix);
    }
    if n == 2 {
        return Err(QuantityError::NoDigits);
    }
    assert(has_prefix(s@));
    let ghost digits = s@.skip(2);
    let mut i: usize = 2;
    while i < n
        invariant
            2 <= i <= n,
            n == s@.len(),
            n > 2,
            has_prefix(s@),
            digits == s@.skip(2),
            forall|k: int| 0 <= k < i - 2 ==> (#[trigger] hex_digit(digits[k])) is Some,
        decreases n - i,
    {
        let c = s.get_char(i);
        assert(c == digits[i - 2]);
        if hex_digit_of(c).is_none() {
            assert(!all_hex(digits));
            return Err(QuantityError::InvalidDigit);
        }
        i += 1;
    }
    assert(all_hex(digits));
    let mut value: u128 = 0;
    let mut j: usize = 2;
    assert(digits.take(0) =~= Seq::<char>::empty());
    while j < n
        invariant
            2 <= j <= n,
            n == s@.len(),
            n > 2,
            has_prefix(s@),
            digits == s@.skip(2),
            all_hex(digits),
            value as int == hex_value(digits.take(j - 2)),
        decreases n - j,
    {
        let c = s.get_char(j);
        assert(c == digits[j - 2]);
        let d = match hex_digit_of(c) {
            Some(d) => d,
            None => 0,
        };
        let ghost next = digits.take(j - 1);
        assert(next.drop_last() =~= digits.take(j - 2));
        assert(next.last() == c);
        if value > (u128::MAX - d as u128) / 16 {
            proof {
                lemma_hex_value_grows(digits, j - 1);
                assert(hex_value(next) == value * 16 + d);
                assert(value * 16 + d > u128::MAX) by (nonlinear_arith)
                    requires
                        value > (u128::MAX - d) / 16,
                        0 <= d < 16,
                ;
                assert(hex_value(digits) > u128::MAX);
                assert(has_prefix(s@));
            }
            return Err(QuantityError::TooLarge);
        }
        assert(value * 16 + d <= u128::MAX) by (nonlinear_arith)
            requires
                value <= (u128::MAX - d) / 16,
                0 <= d < 16,
        ;
        value = value * 16 + d as u128;
        j += 1;
    }
    assert(digits.take(n - 2) =~= digits);
    Ok(value)
}

/// Decodes a `0x`-prefixed hexadecimal quantity into a `u64`.
pub fn decode_quantity_u64(s: &str) -> (r: Result<u64, QuantityError>)
    ensures
        match r {
            Ok(v) => quantity_of(s@, u64::MAX as int) == Ok::<int, QuantityError>(v as int),
            Err(e) => quantity_of(s@, u64::MAX as int) == Err::<int, QuantityError>(e),
        },
{
    match decode_quantity(s) {
        Ok(v) => if v > u64::MAX as u128 {
            Err(QuantityError::TooLarge)
        } else {
            Ok(v as u64)
        },
        Err(QuantityError::TooLarge) => Err(QuantityError::TooLarge),
        Err(e) => Err(e),
    }
}

} // verus!
