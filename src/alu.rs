//! Byte arithmetic of the instruction set: addition and subtraction with carry,
//! shifts and rotations. Every function here is pure.
use vstd::prelude::*;

verus! {

/// The carry flag as the number it adds.
pub open spec fn carry_value(carry: bool) -> int {
    if carry {
        1
    } else {
        0
    }
}

/// `a + m + carry`, computed without truncation.
pub open spec fn wide_sum(a: u8, m: u8, carry: bool) -> int {
    a + m + carry_value(carry)
}

/// The byte that ADC leaves in the accumulator.
pub open spec fn adc_value(a: u8, m: u8, carry: bool) -> u8 {
    (wide_sum(a, m, carry) % 256) as u8
}

/// The carry out of ADC: the widened sum does not fit in a byte.
pub open spec fn adc_carry(a: u8, m: u8, carry: bool) -> bool {
    wide_sum(a, m, carry) > 255
}

/// The overflow of ADC: the operand and the result agree in sign, and the result and
/// the accumulator before the addition do not.
pub open spec fn adc_overflow(a: u8, m: u8, carry: bool) -> bool {
    let r = adc_value(a, m, carry);
    (m ^ r) & (r ^ a) & 0x80 != 0
}

/// The two's complement of `m`: its bitwise complement plus one, wrapping, so that 0 stays 0.
pub open spec fn negated(m: u8) -> u8 {
    (!m).wrapping_add(1)
}

/// The byte that SBC leaves in the accumulator: ADC of the two's complement of the operand.
pub open spec fn sbc_value(a: u8, m: u8, carry: bool) -> u8 {
    adc_value(a, negated(m), carry)
}

/// The carry out of SBC: the carry out of that addition.
pub open spec fn sbc_carry(a: u8, m: u8, carry: bool) -> bool {
    adc_carry(a, negated(m), carry)
}

/// The overflow of SBC: the overflow of that addition.
pub open spec fn sbc_overflow(a: u8, m: u8, carry: bool) -> bool {
    adc_overflow(a, negated(m), carry)
}

/// `a` read as a two's-complement number.
pub open spec fn signed(a: u8) -> int {
    if a >= 0x80 {
        a - 256
    } else {
        a as int
    }
}

/// Adds `m` and the carry to `a`; returns the byte, the carry out and the overflow.
pub fn add_with_carry(a: u8, m: u8, carry: bool) -> (r: (u8, bool, bool))
    ensures
        r.0 == adc_value(a, m, carry),
        r.1 == adc_carry(a, m, carry),
        r.2 == adc_overflow(a, m, carry),
{
    let c: u16 = if carry {
        1
    } else {
        0
    };
    let sum: u16 = a as u16 + m as u16 + c;
    let value: u8 = (sum % 256) as u8;
    let overflow: bool = (m ^ value) & (value ^ a) & 0x80 != 0;
    (value, sum > 255, overflow)
}

/// Adds the two's complement of `m` and the carry to `a`; returns the byte, the carry out
/// and the overflow.
pub fn subtract_with_carry(a: u8, m: u8, carry: bool) -> (r: (u8, bool, bool))
    ensures
        r.0 == sbc_value(a, m, carry),
        r.1 == sbc_carry(a, m, carry),
        r.2 == sbc_overflow(a, m, carry),
{
    add_with_carry(a, (!m).wrapping_add(1), carry)
}

/// Shifts left by one; returns the byte and the bit shifted out of bit 7.
pub fn shift_left(v: u8) -> (r: (u8, bool))
    ensures
        r.0 == v << 1u8,
        r.1 == (v & 0x80 != 0),
{
    (v << 1u8, v & 0x80 != 0)
}

/// Shifts right by one; returns the byte and the bit shifted out of bit 0.
pub fn shift_right(v: u8) -> (r: (u8, bool))
    ensures
        r.0 == v >> 1u8,
        r.1 == (v & 1 != 0),
{
    (v >> 1u8, v & 1 != 0)
}

/// SBC leaves the accumulator minus the operand plus the carry, modulo 256. For a nonzero
/// operand the carry out is set exactly when that difference is not negative; for a zero
/// operand SBC adds only the carry.
pub proof fn lemma_sbc_subtracts(a: u8, m: u8, carry: bool)
    ensures
        sbc_value(a, m, carry) as int == (a - m + carry_value(carry)) % 256,
        m != 0 ==> sbc_carry(a, m, carry) == (a - m + carry_value(carry) >= 0),
        m == 0 ==> sbc_carry(a, m, carry) == adc_carry(a, 0, carry),
{
    assert(!m == 255 - m) by (bit_vector);
    if m == 0 {
        assert(negated(m) == 0);
    } else {
        assert(negated(m) == 256 - m);
    }
}

/// Overflow after ADC holds exactly when the signed sum leaves the range of a signed byte.
pub proof fn lemma_adc_overflow_is_signed_overflow(a: u8, m: u8, carry: bool)
    ensures
        adc_overflow(a, m, carry) == !(-128 <= signed(a) + signed(m) + carry_value(carry) <= 127),
{
    let c: u8 = if carry {
        1
    } else {
        0
    };
    let r = adc_value(a, m, carry);
    assert(r == ((a as u16 + m as u16 + c as u16) % 256) as u8);
    assert(((m ^ r) & (r ^ a) & 0x80 != 0) == !(-128 <= (if a >= 0x80 {
        a - 256
    } else {
        a as int
    }) + (if m >= 0x80 {
        m - 256
    } else {
        m as int
    }) + c <= 127)) by (bit_vector)
        requires
            c <= 1,
            r == ((a as u16 + m as u16 + c as u16) % 256) as u8,
    ;
}

/// SBC after ADC of the same operand cancels the operand: what is left is the accumulator
/// plus the carry into the addition plus the carry into the subtraction, modulo 256. With
/// the addition's own carry out fed into the subtraction, that is the accumulator plus both
/// carries; with no carry into either, it is the accumulator itself.
pub proof fn lemma_sbc_undoes_adc(a: u8, b: u8, carry: bool)
    ensures
        sbc_value(adc_value(a, b, carry), b, adc_carry(a, b, carry)) as int == (a + carry_value(
            carry,
        ) + carry_value(adc_carry(a, b, carry))) % 256,
        sbc_value(adc_value(a, b, carry), b, false) as int == (a + carry_value(carry)) % 256,
        sbc_value(adc_value(a, b, false), b, false) == a,
{
    let r = adc_value(a, b, carry);
    lemma_sbc_subtracts(r, b, adc_carry(a, b, carry));
    lemma_sbc_subtracts(r, b, false);
    lemma_sbc_subtracts(adc_value(a, b, false), b, false);
}

} // verus!
