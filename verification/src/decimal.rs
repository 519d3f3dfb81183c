//! Decimal digits of a small number, written into a byte buffer.

use vstd::prelude::*;

verus! {

/// The ASCII code of the digit zero.
pub const ASCII_ZERO: u8 = 48;

/// How many decimal digits `value` has.
pub open spec fn digit_count(value: nat) -> nat
    decreases value,
{
    if value < 10 {
        1
    } else {
        1 + digit_count(value / 10)
    }
}

/// The decimal digits of `value` in ASCII, most significant first, without
/// leading zeros.
pub open spec fn decimal_digits(value: nat) -> Seq<u8>
    decreases value,
{
    if value < 10 {
        seq![(ASCII_ZERO + value) as u8]
    } else {
        decimal_digits(value / 10).push((ASCII_ZERO + value % 10) as u8)
    }
}

/// Every number has as many decimal digits as [`digit_count`] says, each of
/// them an ASCII digit, and a number that fits in a byte has at most three.
pub proof fn lemma_decimal_digits_shape(value: nat)
    ensures
        decimal_digits(value).len() == digit_count(value),
        value <= u8::MAX ==> digit_count(value) <= 3,
        forall|i: int|
            0 <= i < decimal_digits(value).len() ==> ASCII_ZERO <= #[trigger] decimal_digits(
                value,
            )[i] <= ASCII_ZERO + 9,
    decreases value,
{
    reveal_with_fuel(digit_count, 3);
    if value >= 10 {
        lemma_decimal_digits_shape(value / 10);
    }
}

/// Writes the decimal digits of `value` to the front of `buffer` and returns
/// the part of the buffer behind them, untouched.
pub fn print(buffer: &mut [u8], value: u8) -> (rest: &mut [u8])
    requires
        old(buffer)@.len() >= digit_count(value as nat),
    ensures
        rest@ == old(buffer)@.skip(digit_count(value as nat) as int),
        final(buffer)@ == decimal_digits(value as nat) + final(rest)@,
{
    proof {
        reveal_with_fuel(digit_count, 3);
        reveal_with_fuel(decimal_digits, 3);
    }
    let mut used: usize = 0;
    if value >= 100 {
        buffer[used] = ASCII_ZERO + value / 100;
        used += 1;
    }
    if value >= 10 {
        buffer[used] = ASCII_ZERO + (value / 10) % 10;
        used += 1;
    }
    buffer[used] = ASCII_ZERO + value % 10;
    used += 1;
    assert(buffer@.take(used as int) =~= decimal_digits(value as nat));
    assert(buffer@.skip(used as int) =~= old(buffer)@.skip(used as int));
    let (_, rest) = buffer.split_at_mut(used);
    rest
}

} // verus!
