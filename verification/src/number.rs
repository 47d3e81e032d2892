//! Decimal numbers in the fields of a reply.

use vstd::prelude::*;
use crate::error::NumericFault;
use crate::reply::{digit_value, is_digit};

verus! {

/// The byte `+`.
pub const PLUS: u8 = 0x2b;

/// Whether every byte of `s` is an ASCII digit.
pub open spec fn all_digits(s: Seq<u8>) -> bool {
    forall|i: int| 0 <= i < s.len() ==> is_digit(#[trigger] s[i])
}

/// The digits of `s` read as a decimal number; the empty string reads as 0.
pub open spec fn decimal_value(s: Seq<u8>) -> nat
    decreases s.len(),
{
    if s.len() == 0 {
        0
    } else {
        decimal_value(s.drop_last()) * 10 + digit_value(s.last())
    }
}

/// A field as one half of a port number: an optional `+`, then at least one
/// digit, the whole no greater than `u16::MAX`. Zeros in front are allowed.
pub open spec fn port_part(field: Seq<u8>) -> Result<u16, NumericFault> {
    if field.len() == 0 {
        Err(NumericFault::Empty)
    } else {
        let digits = if field[0] == PLUS {
            field.skip(1)
        } else {
            field
        };
        if digits.len() == 0 || !all_digits(digits) {
            Err(NumericFault::InvalidDigit)
        } else if decimal_value(digits) > u16::MAX {
            Err(NumericFault::Overflow)
        } else {
            Ok(decimal_value(digits) as u16)
        }
    }
}

/// A field as one octet of an IPv4 address: one to three digits, no zero in
/// front of another digit, and no greater than 255.
pub open spec fn octet(field: Seq<u8>) -> Option<u8> {
    if 1 <= field.len() <= 3 && all_digits(field) && (field.len() == 1 || field[0] != '0' as u8)
        && decimal_value(field) <= u8::MAX {
        Some(decimal_value(field) as u8)
    } else {
        None
    }
}

/// The digit for a number below ten.
pub open spec fn digit_of(n: nat) -> u8
    recommends
        n < 10,
{
    ('0' as u8 + n) as u8
}

/// `n` written in decimal, without zeros in front.
pub open spec fn decimal(n: nat) -> Seq<u8>
    decreases n,
{
    if n < 10 {
        seq![digit_of(n)]
    } else {
        decimal(n / 10).push(digit_of(n % 10))
    }
}

/// A number written in decimal reads back as itself; what is written is
/// digits only, starts with a zero only for zero, and is no longer than the
/// number is large.
pub proof fn lemma_decimal(n: nat)
    ensures
        all_digits(decimal(n)),
        decimal_value(decimal(n)) == n,
        decimal(n).len() >= 1,
        n >= 1 ==> decimal(n)[0] != '0' as u8,
        n < 10 ==> decimal(n).len() == 1,
        n < 100 ==> decimal(n).len() <= 2,
        n < 1000 ==> decimal(n).len() <= 3,
    decreases n,
{
    if n < 10 {
        let text = decimal(n);
        assert(text.drop_last() =~= Seq::<u8>::empty());
        assert(decimal_value(text.drop_last()) == 0);
        assert(decimal_value(text) == decimal_value(text.drop_last()) * 10 + digit_value(
            text.last(),
        ));
    } else {
        let front = decimal(n / 10);
        lemma_decimal(n / 10);
        let text = decimal(n);
        assert(text.drop_last() =~= front);
        assert(text[0] == front[0]);
        assert forall|i: int| 0 <= i < text.len() implies is_digit(#[trigger] text[i]) by {
            if i < front.len() {
                assert(text[i] == front[i]);
            }
        }
    }
}

/// An octet written in decimal reads back as that octet.
pub proof fn lemma_octet_of_decimal(value: u8)
    ensures
        octet(decimal(value as nat)) == Some(value),
{
    lemma_decimal(value as nat);
}

/// A number up to `u16::MAX` written in decimal reads back as one half of a
/// port.
pub proof fn lemma_port_part_of_decimal(value: u16)
    ensures
        port_part(decimal(value as nat)) == Ok::<u16, NumericFault>(value),
{
    lemma_decimal(value as nat);
    assert(is_digit(decimal(value as nat)[0]));
}

/// Reads one half of a port number.
pub fn parse_port_part(field: &[u8]) -> (part: Result<u16, NumericFault>)
    ensures
        part == port_part(field@),
{
    if field.len() == 0 {
        return Err(NumericFault::Empty);
    }
    let start: usize = if field[0] == PLUS {
        1
    } else {
        0
    };
    if start == field.len() {
        return Err(NumericFault::InvalidDigit);
    }
    let ghost digits = field@.skip(start as int);
    assert(start == 0 ==> digits =~= field@);
    let zero: u8 = '0' as u8;
    let nine: u8 = '9' as u8;
    let mut value: u32 = 0;
    let mut over: bool = false;
    let mut i: usize = start;
    assert(digits.take(0) =~= Seq::<u8>::empty());
    while i < field.len()
        invariant
            start <= i <= field.len(),
            digits == field@.skip(start as int),
            digits == if field@[0] == PLUS {
                field@.skip(1)
            } else {
                field@
            },
            digits.len() > 0,
            zero == '0' as u8,
            nine == '9' as u8,
            all_digits(digits.take(i - start)),
            !over ==> value == decimal_value(digits.take(i - start)) && value <= u16::MAX,
            over ==> decimal_value(digits.take(i - start)) > u16::MAX,
        decreases field.len() - i,
    {
        let b: u8 = field[i];
        assert(digits[i - start] == b);
        if b < zero || b > nine {
            return Err(NumericFault::InvalidDigit);
        }
        proof {
            let next = digits.take(i - start + 1);
            assert(next.drop_last() =~= digits.take(i - start));
            assert(next.last() == b);
            assert forall|k: int| 0 <= k < next.len() implies is_digit(#[trigger] next[k]) by {
                if k < next.len() - 1 {
                    assert(digits.take(i - start)[k] == next[k]);
                }
            }
        }
        if !over {
            value = value * 10 + (b - zero) as u32;
            if value > 0xffff {
                over = true;
            }
        }
        i += 1;
    }
    assert(digits.take(i - start) =~= digits);
    if over {
        Err(NumericFault::Overflow)
    } else {
        Ok(value as u16)
    }
}

/// Reads one octet of an IPv4 address.
pub fn parse_octet(field: &[u8]) -> (value: Option<u8>)
    ensures
        value == octet(field@),
{
    let len = field.len();
    if len == 0 || len > 3 {
        return None;
    }
    let zero: u8 = '0' as u8;
    let nine: u8 = '9' as u8;
    let mut value: u16 = 0;
    let mut i: usize = 0;
    assert(field@.take(0) =~= Seq::<u8>::empty());
    while i < len
        invariant
            i <= len <= 3,
            len == field.len(),
            zero == '0' as u8,
            nine == '9' as u8,
            all_digits(field@.take(i as int)),
            value == decimal_value(field@.take(i as int)),
            i == 0 ==> value == 0,
            i == 1 ==> value <= 9,
            i == 2 ==> value <= 99,
            i == 3 ==> value <= 999,
        decreases len - i,
    {
        let b: u8 = field[i];
        if b < zero || b > nine {
            return None;
        }
        proof {
            let next = field@.take(i + 1);
            assert(next.drop_last() =~= field@.take(i as int));
            assert(next.last() == b);
            assert forall|k: int| 0 <= k < next.len() implies is_digit(#[trigger] next[k]) by {
                if k < next.len() - 1 {
                    assert(field@.take(i as int)[k] == next[k]);
                }
            }
        }
        value = value * 10 + (b - zero) as u16;
        i += 1;
    }
    assert(field@.take(len as int) =~= field@);
    if len > 1 && field[0] == zero {
        return None;
    }
    if value > 255 {
        return None;
    }
    Some(value as u8)
}

} // verus!
