//! The arithmetic of the processor, stated over the integers: what each
//! operation yields and which flags it raises.
//!
//! Results wrap to their width; flags are stated from the unwrapped sums
//! and differences, so a carry is literally "the sum did not fit".

use vstd::prelude::*;
use crate::memory::{lemma_wrap, wrap16, wrap8};
use crate::registers::FlagsRegister;

verus! {

/// A byte result together with the flags it leaves.
pub type ByteResult = (u8, FlagsRegister);

/// A word result together with the flags it leaves.
pub type WordResult = (u16, FlagsRegister);

/// `1` for a set bit, `0` for a clear one.
pub open spec fn bit_value(bit: bool) -> int {
    if bit {
        1
    } else {
        0
    }
}

/// The weight of bit `n` of a byte, `2^n`.
pub open spec fn bit_weight(n: u8) -> int
    recommends
        n < 8,
{
    if n == 0 {
        1
    } else if n == 1 {
        2
    } else if n == 2 {
        4
    } else if n == 3 {
        8
    } else if n == 4 {
        16
    } else if n == 5 {
        32
    } else if n == 6 {
        64
    } else {
        128
    }
}

/// Whether bit `n` of `value` is set.
pub open spec fn bit_is_set(value: u8, n: u8) -> bool
    recommends
        n < 8,
{
    value as int / bit_weight(n) % 2 == 1
}

/// The byte offset of a relative jump or stack adjustment, read as a
/// signed number from -128 to 127.
pub open spec fn signed_offset(byte: u8) -> int {
    if byte < 128 {
        byte as int
    } else {
        byte as int - 256
    }
}

/// `a + operand + carry_in`. Half-carry is raised when the low nibbles of
/// `a` and `operand` sum beyond `0xF`; carry when the whole sum is beyond
/// `0xFF`.
pub open spec fn add8(a: u8, operand: u8, carry_in: bool) -> ByteResult {
    let sum = a + operand + bit_value(carry_in);
    (
        wrap8(sum),
        FlagsRegister {
            zero: wrap8(sum) == 0,
            subtract: false,
            half_carry: a % 16 + operand % 16 > 0xF,
            carry: sum > 0xFF,
        },
    )
}

/// `a - operand - carry_in`. Half-carry is raised when the low nibble of
/// `operand` exceeds that of `a`; carry when the whole difference is
/// negative.
pub open spec fn sub8(a: u8, operand: u8, carry_in: bool) -> ByteResult {
    let difference = a - operand - bit_value(carry_in);
    (
        wrap8(difference),
        FlagsRegister {
            zero: wrap8(difference) == 0,
            subtract: true,
            half_carry: a % 16 < operand % 16,
            carry: difference < 0,
        },
    )
}

/// Bitwise and.
pub open spec fn and8(a: u8, operand: u8) -> ByteResult {
    (
        a & operand,
        FlagsRegister { zero: a & operand == 0, subtract: false, half_carry: true, carry: false },
    )
}

/// Bitwise or.
pub open spec fn or8(a: u8, operand: u8) -> ByteResult {
    (
        a | operand,
        FlagsRegister { zero: a | operand == 0, subtract: false, half_carry: false, carry: false },
    )
}

/// Bitwise exclusive or.
pub open spec fn xor8(a: u8, operand: u8) -> ByteResult {
    (
        a ^ operand,
        FlagsRegister { zero: a ^ operand == 0, subtract: false, half_carry: false, carry: false },
    )
}

/// `value + 1`; the carry flag is kept.
pub open spec fn inc8(value: u8, flags: FlagsRegister) -> ByteResult {
    (
        wrap8(value + 1),
        FlagsRegister {
            zero: wrap8(value + 1) == 0,
            subtract: false,
            half_carry: value % 16 == 0xF,
            carry: flags.carry,
        },
    )
}

/// `value - 1`; the carry flag is kept.
pub open spec fn dec8(value: u8, flags: FlagsRegister) -> ByteResult {
    (
        wrap8(value - 1),
        FlagsRegister {
            zero: wrap8(value - 1) == 0,
            subtract: true,
            half_carry: value % 16 == 0,
            carry: flags.carry,
        },
    )
}

/// `hl + operand` on words. Half-carry is the carry out of bit 11, carry
/// the carry out of bit 15; the zero flag is kept.
pub open spec fn add16(hl: u16, operand: u16, flags: FlagsRegister) -> WordResult {
    (
        wrap16(hl + operand),
        FlagsRegister {
            zero: flags.zero,
            subtract: false,
            half_carry: hl % 0x1000 + operand % 0x1000 > 0xFFF,
            carry: hl + operand > 0xFFFF,
        },
    )
}

/// `sp` plus the signed `offset`. Both flags come from the unsigned sum of
/// the low byte of `sp` and `offset`: half-carry is its carry out of bit 3,
/// carry its carry out of bit 7. Zero and subtract are cleared.
pub open spec fn add_offset(sp: u16, offset: u8) -> WordResult {
    (
        wrap16(sp + signed_offset(offset)),
        FlagsRegister {
            zero: false,
            subtract: false,
            half_carry: sp % 16 + offset % 16 > 0xF,
            carry: sp % 256 + offset > 0xFF,
        },
    )
}

/// The flags after a rotate or shift of the full-register kind.
pub open spec fn shifted(result: u8, carry: bool) -> ByteResult {
    (result, FlagsRegister { zero: result == 0, subtract: false, half_carry: false, carry })
}

/// Rotate left: bit 7 goes to the carry and to bit 0.
pub open spec fn rlc8(value: u8) -> ByteResult {
    shifted(wrap8(2 * value + value / 128), value >= 128)
}

/// Rotate left through the carry: the old carry enters at bit 0.
pub open spec fn rl8(value: u8, carry_in: bool) -> ByteResult {
    shifted(wrap8(2 * value + bit_value(carry_in)), value >= 128)
}

/// Rotate right: bit 0 goes to the carry and to bit 7.
pub open spec fn rrc8(value: u8) -> ByteResult {
    shifted((value / 2 + 128 * (value % 2)) as u8, value % 2 == 1)
}

/// Rotate right through the carry: the old carry enters at bit 7.
pub open spec fn rr8(value: u8, carry_in: bool) -> ByteResult {
    shifted((value / 2 + 128 * bit_value(carry_in)) as u8, value % 2 == 1)
}

/// Shift left: bit 7 goes to the carry, bit 0 becomes zero.
pub open spec fn sla8(value: u8) -> ByteResult {
    shifted(wrap8(2 * value), value >= 128)
}

/// Arithmetic shift right: bit 0 goes to the carry, bit 7 stays.
pub open spec fn sra8(value: u8) -> ByteResult {
    shifted((value / 2 + 128 * (value / 128)) as u8, value % 2 == 1)
}

/// Logical shift right: bit 0 goes to the carry, bit 7 becomes zero.
pub open spec fn srl8(value: u8) -> ByteResult {
    shifted((value / 2) as u8, value % 2 == 1)
}

/// Exchange of the two nibbles.
pub open spec fn swap8(value: u8) -> ByteResult {
    shifted((value % 16 * 16 + value / 16) as u8, false)
}

/// The accumulator form of a rotate: as the full-register form, but the
/// zero flag is cleared whatever the result.
pub open spec fn accumulator_form(result: ByteResult) -> ByteResult {
    (result.0, FlagsRegister { zero: false, ..result.1 })
}

/// `value` with bit `n` set.
pub open spec fn set_bit(value: u8, n: u8) -> u8
    recommends
        n < 8,
{
    if bit_is_set(value, n) {
        value
    } else {
        (value + bit_weight(n)) as u8
    }
}

/// `value` with bit `n` cleared.
pub open spec fn reset_bit(value: u8, n: u8) -> u8
    recommends
        n < 8,
{
    if bit_is_set(value, n) {
        (value - bit_weight(n)) as u8
    } else {
        value
    }
}

/// The flags after a test of bit `n`: zero tells that the bit is clear,
/// and the carry is kept.
pub open spec fn test_bit(value: u8, n: u8, flags: FlagsRegister) -> FlagsRegister
    recommends
        n < 8,
{
    FlagsRegister {
        zero: !bit_is_set(value, n),
        subtract: false,
        half_carry: true,
        carry: flags.carry,
    }
}

/// The amount that the decimal adjustment adds to the accumulator after an
/// addition, or takes from it after a subtraction.
pub open spec fn daa_correction(a: u8, flags: FlagsRegister) -> int {
    if flags.subtract {
        (if flags.half_carry { 0x06int } else { 0 }) + (if flags.carry { 0x60int } else { 0 })
    } else {
        (if flags.half_carry || a % 16 > 9 { 0x06int } else { 0 })
            + (if flags.carry || a > 0x99 { 0x60int } else { 0 })
    }
}

/// Decimal adjustment of the accumulator: after an addition the carry is
/// raised when it was set or `a` is beyond `0x99`; after a subtraction it
/// is kept. Half-carry is cleared, zero tells of the result.
pub open spec fn daa8(a: u8, flags: FlagsRegister) -> ByteResult {
    let adjusted = if flags.subtract {
        wrap8(a - daa_correction(a, flags))
    } else {
        wrap8(a + daa_correction(a, flags))
    };
    (
        adjusted,
        FlagsRegister {
            zero: adjusted == 0,
            subtract: flags.subtract,
            half_carry: false,
            carry: flags.carry || (!flags.subtract && a > 0x99),
        },
    )
}

/// Complement of the accumulator; subtract and half-carry are raised.
pub open spec fn cpl8(a: u8, flags: FlagsRegister) -> ByteResult {
    ((255 - a) as u8, FlagsRegister { subtract: true, half_carry: true, ..flags })
}

/// Doubling a byte: what wraps away is bit 7, and what stays is twice the
/// low seven bits.
pub proof fn lemma_double(value: u8)
    ensures
        wrap8(2 * value) == 2 * (value % 128),
        wrap8(2 * value + 1) == 2 * (value % 128) + 1,
        wrap8(2 * value + value / 128) == 2 * (value % 128) + value / 128,
        value / 128 == bit_value(value >= 128),
{
    let top: int = if value >= 128 {
        1
    } else {
        0
    };
    vstd::arithmetic::div_mod::lemma_fundamental_div_mod_converse(
        value as int,
        128,
        top,
        value - 128 * top,
    );
    lemma_wrap(2 * value);
    lemma_wrap(2 * value + 1);
}

/// How the masks and shifts of the arithmetic read over the integers.
pub proof fn lemma_byte_bits(value: u8)
    by (bit_vector)
    ensures
        value & 0xF == value % 16,
        value & 0x7F == value % 128,
        value & 0x80 == (value / 128) * 128,
        (value & 0x80 != 0) == (value >= 128),
        value & 0x1 == value % 2,
        value >> 7 == value / 128,
        value >> 1 == value / 2,
        value >> 4 == value / 16,
        !value == 255 - value,
{
}

/// Setting and clearing the bits of a mask, over the integers.
pub proof fn lemma_bit_mask(value: u8, mask: u8)
    by (bit_vector)
    ensures
        value & mask == 0 ==> (value | mask) == value + mask && value & !mask == value,
        value & mask == mask ==> (value | mask) == value && value & !mask == value - mask,
{
}

/// How the mask of each bit position reads over the integers.
pub proof fn lemma_bit_weights(value: u8)
    by (bit_vector)
    ensures
        value & 0x01 == 0 || value & 0x01 == 0x01,
        value & 0x02 == 0 || value & 0x02 == 0x02,
        value & 0x04 == 0 || value & 0x04 == 0x04,
        value & 0x08 == 0 || value & 0x08 == 0x08,
        value & 0x10 == 0 || value & 0x10 == 0x10,
        value & 0x20 == 0 || value & 0x20 == 0x20,
        value & 0x40 == 0 || value & 0x40 == 0x40,
        value & 0x80 == 0 || value & 0x80 == 0x80,
        (value & 0x01 != 0) == (value % 2 == 1),
        (value & 0x02 != 0) == (value / 2 % 2 == 1),
        (value & 0x04 != 0) == (value / 4 % 2 == 1),
        (value & 0x08 != 0) == (value / 8 % 2 == 1),
        (value & 0x10 != 0) == (value / 16 % 2 == 1),
        (value & 0x20 != 0) == (value / 32 % 2 == 1),
        (value & 0x40 != 0) == (value / 64 % 2 == 1),
        (value & 0x80 != 0) == (value / 128 % 2 == 1),
{
}

/// A bit is set in the conjunction of two bytes iff it is set in both.
pub proof fn lemma_common_bits(x: u8, y: u8)
    by (bit_vector)
    ensures
        ((x & y) & 0x01 != 0) == (x & 0x01 != 0 && y & 0x01 != 0),
        ((x & y) & 0x02 != 0) == (x & 0x02 != 0 && y & 0x02 != 0),
        ((x & y) & 0x04 != 0) == (x & 0x04 != 0 && y & 0x04 != 0),
        ((x & y) & 0x08 != 0) == (x & 0x08 != 0 && y & 0x08 != 0),
        ((x & y) & 0x10 != 0) == (x & 0x10 != 0 && y & 0x10 != 0),
{
}

/// How the masks of the 16-bit addition read over the integers.
pub proof fn lemma_word_bits(value: u16)
    by (bit_vector)
    ensures
        value & 0xFFF == value % 0x1000,
        value & 0xFF == value % 0x100,
        value & 0xF == value % 0x10,
{
}

/// Whether both nibbles of a byte are decimal digits.
pub open spec fn is_packed_decimal(byte: u8) -> bool {
    byte as int / 16 <= 9 && byte as int % 16 <= 9
}

/// The number from 0 to 99 that a packed decimal byte stands for.
pub open spec fn decimal_value(byte: u8) -> int {
    byte as int / 16 * 10 + byte as int % 16
}

/// The decimal adjustment after the addition of two packed decimal bytes
/// gives the packed decimal sum: its value is the sum of the two values,
/// less 100 where the carry is raised.
pub proof fn lemma_daa_after_add(x: u8, y: u8)
    requires
        is_packed_decimal(x),
        is_packed_decimal(y),
    ensures
        ({
            let (sum, flags) = add8(x, y, false);
            let (adjusted, after) = daa8(sum, flags);
            let total = decimal_value(x) + decimal_value(y);
            &&& is_packed_decimal(adjusted)
            &&& after.carry == (total >= 100)
            &&& decimal_value(adjusted) == if total >= 100 {
                total - 100
            } else {
                total
            }
        }),
{
    let low = x as int % 16 + y as int % 16;
    let high = x as int / 16 + y as int / 16;
    let (sum, flags) = add8(x, y, false);
    lemma_binary_sum(low, high, sum as int, flags.half_carry, flags.carry);
    let up: int = if low >= 10 {
        1
    } else {
        0
    };
    let carry: int = if high + up >= 10 {
        1
    } else {
        0
    };
    assert(daa_correction(sum, flags) == 6 * up + 0x60 * carry);
    lemma_adjusted_digits(low, high, sum as int, daa8(sum, flags).0 as int);
}

/// The binary sum of two packed decimal bytes, in terms of the sums of
/// their low and high digits: which corrections the adjustment applies.
proof fn lemma_binary_sum(low: int, high: int, sum: int, half: bool, carry: bool)
    requires
        0 <= low <= 18,
        0 <= high <= 18,
        sum == (16 * high + low) % 256,
        half == (low > 15),
        carry == (16 * high + low > 255),
    ensures
        (half || sum % 16 > 9) == (low >= 10),
        (carry || sum > 0x99) == (high + (if low >= 10 {
            1int
        } else {
            0
        }) >= 10),
{
    let s = 16 * high + low;
    let wrapped: int = if s > 255 {
        1
    } else {
        0
    };
    let over: int = if low > 15 {
        1
    } else {
        0
    };
    vstd::arithmetic::div_mod::lemma_fundamental_div_mod_converse(s, 256, wrapped, s - 256 * wrapped);
    vstd::arithmetic::div_mod::lemma_fundamental_div_mod_converse(
        sum,
        16,
        high + over - 16 * wrapped,
        low - 16 * over,
    );
}

/// The digits of the adjusted sum.
proof fn lemma_adjusted_digits(low: int, high: int, sum: int, adjusted: int)
    requires
        0 <= low <= 18,
        0 <= high <= 18,
        sum == (16 * high + low) % 256,
        adjusted == (sum + 6 * (if low >= 10 {
            1int
        } else {
            0
        }) + 0x60 * (if high + (if low >= 10 {
            1int
        } else {
            0
        }) >= 10 {
            1int
        } else {
            0
        })) % 256,
    ensures
        ({
            let up: int = if low >= 10 {
                1
            } else {
                0
            };
            let carry: int = if high + up >= 10 {
                1
            } else {
                0
            };
            &&& adjusted / 16 == high + up - 10 * carry
            &&& adjusted % 16 == low - 10 * up
        }),
{
    let up: int = if low >= 10 {
        1
    } else {
        0
    };
    let carry: int = if high + up >= 10 {
        1
    } else {
        0
    };
    let s = 16 * high + low;
    let wrapped: int = if s > 255 {
        1
    } else {
        0
    };
    vstd::arithmetic::div_mod::lemma_fundamental_div_mod_converse(s, 256, wrapped, s - 256 * wrapped);
    let digits = 16 * (high + up - 10 * carry) + (low - 10 * up);
    vstd::arithmetic::div_mod::lemma_fundamental_div_mod_converse(
        sum + 6 * up + 0x60 * carry,
        256,
        carry - wrapped,
        digits,
    );
    vstd::arithmetic::div_mod::lemma_fundamental_div_mod_converse(
        digits,
        16,
        high + up - 10 * carry,
        low - 10 * up,
    );
}

/// The mask of bit `n` of a byte.
pub fn bit_mask(n: u8) -> (mask: u8)
    ensures
        mask == bit_weight(n),
{
    match n {
        0 => 0x01,
        1 => 0x02,
        2 => 0x04,
        3 => 0x08,
        4 => 0x10,
        5 => 0x20,
        6 => 0x40,
        _ => 0x80,
    }
}

/// Tests bit `n` of a byte.
pub fn has_bit(value: u8, n: u8) -> (set: bool)
    ensures
        set == bit_is_set(value, n),
{
    proof {
        lemma_bit_weights(value);
    }
    value & bit_mask(n) != 0
}

/// `value` with bit `n` set.
pub fn put_bit(value: u8, n: u8) -> (result: u8)
    ensures
        result == set_bit(value, n),
{
    let mask = bit_mask(n);
    proof {
        lemma_bit_weights(value);
        lemma_bit_mask(value, mask);
    }
    value | mask
}

/// `value` with bit `n` cleared.
pub fn clear_bit(value: u8, n: u8) -> (result: u8)
    ensures
        result == reset_bit(value, n),
{
    let mask = bit_mask(n);
    proof {
        lemma_bit_weights(value);
        lemma_bit_mask(value, mask);
    }
    value & !mask
}

/// The value that a flag adds to a sum.
pub fn flag_bit(flag: bool) -> (bit: u8)
    ensures
        bit == bit_value(flag),
{
    if flag {
        1
    } else {
        0
    }
}

/// Adds two bytes and a carry.
pub fn add_bytes(a: u8, operand: u8, carry_in: bool) -> (result: ByteResult)
    ensures
        result == add8(a, operand, carry_in),
{
    let sum: u16 = a as u16 + operand as u16 + flag_bit(carry_in) as u16;
    proof {
        lemma_byte_bits(a);
        lemma_byte_bits(operand);
        lemma_word_bits(sum);
    }
    let wrapped = (sum & 0xFF) as u8;
    (
        wrapped,
        FlagsRegister {
            zero: wrapped == 0,
            subtract: false,
            half_carry: (a & 0xF) + (operand & 0xF) > 0xF,
            carry: sum > 0xFF,
        },
    )
}

/// Subtracts a byte and a carry from a byte.
pub fn sub_bytes(a: u8, operand: u8, carry_in: bool) -> (result: ByteResult)
    ensures
        result == sub8(a, operand, carry_in),
{
    let extra = flag_bit(carry_in);
    proof {
        lemma_byte_bits(a);
        lemma_byte_bits(operand);
        lemma_wrap(a - operand);
        lemma_wrap(a - operand - extra);
        lemma_wrap(wrap8(a - operand) - extra);
    }
    let wrapped = a.wrapping_sub(operand).wrapping_sub(extra);
    (
        wrapped,
        FlagsRegister {
            zero: wrapped == 0,
            subtract: true,
            half_carry: (a & 0xF) < (operand & 0xF),
            carry: (a as u16) < operand as u16 + extra as u16,
        },
    )
}

/// Increments a byte.
pub fn inc_byte(value: u8, flags: FlagsRegister) -> (result: ByteResult)
    ensures
        result == inc8(value, flags),
{
    proof {
        lemma_byte_bits(value);
        lemma_wrap(value + 1);
    }
    let wrapped = value.wrapping_add(1);
    (
        wrapped,
        FlagsRegister {
            zero: wrapped == 0,
            subtract: false,
            half_carry: (value & 0xF) == 0xF,
            carry: flags.carry,
        },
    )
}

/// Decrements a byte.
pub fn dec_byte(value: u8, flags: FlagsRegister) -> (result: ByteResult)
    ensures
        result == dec8(value, flags),
{
    proof {
        lemma_byte_bits(value);
        lemma_wrap(value - 1);
    }
    let wrapped = value.wrapping_sub(1);
    (
        wrapped,
        FlagsRegister {
            zero: wrapped == 0,
            subtract: true,
            half_carry: (value & 0xF) == 0,
            carry: flags.carry,
        },
    )
}

/// Adds two words.
pub fn add_words(hl: u16, operand: u16, flags: FlagsRegister) -> (result: WordResult)
    ensures
        result == add16(hl, operand, flags),
{
    proof {
        lemma_word_bits(hl);
        lemma_word_bits(operand);
        lemma_wrap(hl + operand);
    }
    (
        hl.wrapping_add(operand),
        FlagsRegister {
            zero: flags.zero,
            subtract: false,
            half_carry: (hl & 0xFFF) + (operand & 0xFFF) > 0xFFF,
            carry: hl as u32 + operand as u32 > 0xFFFF,
        },
    )
}

/// Adds a signed offset to a word, wrapping at 16 bits.
pub fn offset_word(base: u16, offset: u8) -> (result: u16)
    ensures
        result == wrap16(base + signed_offset(offset)),
{
    proof {
        lemma_wrap(base + signed_offset(offset));
    }
    if offset < 128 {
        base.wrapping_add(offset as u16)
    } else {
        base.wrapping_sub(256 - offset as u16)
    }
}

/// Adds a signed offset to a word, with the flags of the addition.
pub fn add_signed(base: u16, offset: u8) -> (result: WordResult)
    ensures
        result == add_offset(base, offset),
{
    proof {
        lemma_word_bits(base);
        lemma_byte_bits(offset);
    }
    (
        offset_word(base, offset),
        FlagsRegister {
            zero: false,
            subtract: false,
            half_carry: (base & 0xF) + ((offset & 0xF) as u16) > 0xF,
            carry: (base & 0xFF) + (offset as u16) > 0xFF,
        },
    )
}

/// The flags of a rotate or shift of the full-register kind.
fn shifted_flags(result: u8, carry: bool) -> (shifted_result: ByteResult)
    ensures
        shifted_result == shifted(result, carry),
{
    (result, FlagsRegister { zero: result == 0, subtract: false, half_carry: false, carry })
}

/// Rotates a byte left.
pub fn rlc(value: u8) -> (result: ByteResult)
    ensures
        result == rlc8(value),
{
    proof {
        lemma_byte_bits(value);
        lemma_double(value);
    }
    shifted_flags((value & 0x7F) * 2 + (value >> 7), value & 0x80 != 0)
}

/// Rotates a byte left through the carry.
pub fn rl(value: u8, carry_in: bool) -> (result: ByteResult)
    ensures
        result == rl8(value, carry_in),
{
    proof {
        lemma_byte_bits(value);
        lemma_double(value);
    }
    shifted_flags((value & 0x7F) * 2 + flag_bit(carry_in), value & 0x80 != 0)
}

/// Rotates a byte right.
pub fn rrc(value: u8) -> (result: ByteResult)
    ensures
        result == rrc8(value),
{
    proof {
        lemma_byte_bits(value);
    }
    shifted_flags((value >> 1) + (value & 0x1) * 0x80, value & 0x1 == 1)
}

/// Rotates a byte right through the carry.
pub fn rr(value: u8, carry_in: bool) -> (result: ByteResult)
    ensures
        result == rr8(value, carry_in),
{
    proof {
        lemma_byte_bits(value);
    }
    shifted_flags((value >> 1) + flag_bit(carry_in) * 0x80, value & 0x1 == 1)
}

/// Shifts a byte left.
pub fn sla(value: u8) -> (result: ByteResult)
    ensures
        result == sla8(value),
{
    proof {
        lemma_byte_bits(value);
        lemma_double(value);
    }
    shifted_flags((value & 0x7F) * 2, value & 0x80 != 0)
}

/// Shifts a byte right, keeping its sign bit.
pub fn sra(value: u8) -> (result: ByteResult)
    ensures
        result == sra8(value),
{
    proof {
        lemma_byte_bits(value);
    }
    shifted_flags((value >> 1) + (value & 0x80), value & 0x1 == 1)
}

/// Shifts a byte right.
pub fn srl(value: u8) -> (result: ByteResult)
    ensures
        result == srl8(value),
{
    proof {
        lemma_byte_bits(value);
    }
    shifted_flags(value >> 1, value & 0x1 == 1)
}

/// Exchanges the nibbles of a byte.
pub fn swap(value: u8) -> (result: ByteResult)
    ensures
        result == swap8(value),
{
    proof {
        lemma_byte_bits(value);
    }
    shifted_flags((value & 0xF) * 16 + (value >> 4), false)
}

/// Complements a byte.
pub fn cpl(a: u8, flags: FlagsRegister) -> (result: ByteResult)
    ensures
        result == cpl8(a, flags),
{
    proof {
        lemma_byte_bits(a);
    }
    (!a, FlagsRegister { zero: flags.zero, subtract: true, half_carry: true, carry: flags.carry })
}

/// Adjusts the accumulator to packed decimal after an addition or a
/// subtraction.
pub fn daa(a: u8, flags: FlagsRegister) -> (result: ByteResult)
    ensures
        result == daa8(a, flags),
{
    proof {
        lemma_byte_bits(a);
    }
    let low: u8 = if flags.half_carry || (!flags.subtract && (a & 0x0F) > 0x09) {
        0x06
    } else {
        0x00
    };
    let high: u8 = if flags.carry || (!flags.subtract && a > 0x99) {
        0x60
    } else {
        0x00
    };
    let correction: u8 = low + high;
    proof {
        lemma_wrap(a - correction);
        lemma_wrap(a + correction);
    }
    let adjusted = if flags.subtract {
        a.wrapping_sub(correction)
    } else {
        a.wrapping_add(correction)
    };
    (
        adjusted,
        FlagsRegister {
            zero: adjusted == 0,
            subtract: flags.subtract,
            half_carry: false,
            carry: high != 0,
        },
    )
}

} // verus!
