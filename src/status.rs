//! The processor status word: bit masks and flag updates.
use vstd::prelude::*;

verus! {

/// Bit 0: the carry out of the last ADC or SBC, or, after a compare, that the operand was at
/// most the register.
pub const CARRY: u8 = 0b0000_0001;

/// Bit 1: the last result was zero.
pub const ZERO: u8 = 0b0000_0010;

/// Bit 2: maskable interrupts are disabled.
pub const INTERRUPT_DISABLE: u8 = 0b0000_0100;

/// Bit 3: decimal mode (recorded, but arithmetic stays binary).
pub const DECIMAL: u8 = 0b0000_1000;

/// Bit 4: set in the copy of the status word that PHP pushes.
pub const BREAK: u8 = 0b0001_0000;

/// Bit 5: unused by the hardware, forced set wherever the status word is pushed or pulled.
pub const UNUSED: u8 = 0b0010_0000;

/// Bit 6: signed overflow of the last addition or subtraction.
pub const OVERFLOW: u8 = 0b0100_0000;

/// Bit 7: bit 7 of the last result.
pub const NEGATIVE: u8 = 0b1000_0000;

/// Whether any bit of `mask` is set in `status`.
pub open spec fn has_flag(status: u8, mask: u8) -> bool {
    status & mask != 0
}

/// `status` with the bits of `mask` set when `on` holds and cleared otherwise.
pub open spec fn with_flag(status: u8, mask: u8, on: bool) -> u8 {
    if on {
        status | mask
    } else {
        status & !mask
    }
}

/// `status` with Zero and Negative describing `value`.
pub open spec fn with_zero_negative(status: u8, value: u8) -> u8 {
    with_flag(with_flag(status, ZERO, value == 0), NEGATIVE, value >= 0x80)
}

/// Sets or clears the bits of `mask` in `status`.
pub fn set_flag(status: u8, mask: u8, on: bool) -> (r: u8)
    ensures
        r == with_flag(status, mask, on),
{
    if on {
        status | mask
    } else {
        status & !mask
    }
}

/// Updates Zero and Negative from `value`, keeping every other bit of `status`.
pub fn update_zero_negative(status: u8, value: u8) -> (r: u8)
    ensures
        r == with_zero_negative(status, value),
{
    let s: u8 = set_flag(status, ZERO, value == 0);
    set_flag(s, NEGATIVE, value >= 0x80)
}

/// After an update from `value`, Zero is set exactly when `value` is 0, Negative exactly
/// when bit 7 of `value` is set, and the other six bits are kept.
pub proof fn lemma_zero_negative(status: u8, value: u8)
    ensures
        has_flag(with_zero_negative(status, value), ZERO) == (value == 0),
        has_flag(with_zero_negative(status, value), NEGATIVE) == (value & 0x80 != 0),
        with_zero_negative(status, value) & 0b0111_1101 == status & 0b0111_1101,
{
    assert(has_flag(with_zero_negative(status, value), ZERO) == (value == 0)) by (bit_vector);
    assert(has_flag(with_zero_negative(status, value), NEGATIVE) == (value & 0x80 != 0))
        by (bit_vector);
    assert(with_zero_negative(status, value) & 0b0111_1101 == status & 0b0111_1101)
        by (bit_vector);
}

} // verus!
