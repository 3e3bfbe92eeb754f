//! The status byte and the two condition flags that the machine defines.

use vstd::prelude::*;

verus! {

/// Bit 1 of the status byte: the last observed result was zero.
pub const ZERO_FLAG: u8 = 0b0000_0010;

/// Bit 7 of the status byte: the last observed result had its high bit set.
pub const NEGATIVE_FLAG: u8 = 0b1000_0000;

/// The bits of the status byte that no defined instruction writes.
pub const RESERVED_BITS: u8 = 0b0111_1101;

/// Whether the zero flag is set in `status`.
pub open spec fn zero_flag(status: u8) -> bool {
    (status & ZERO_FLAG) != 0
}

/// Whether the negative flag is set in `status`.
pub open spec fn negative_flag(status: u8) -> bool {
    (status & NEGATIVE_FLAG) != 0
}

/// Whether bit 7 of `value` is 1.
pub open spec fn sign_bit(value: u8) -> bool {
    (value & 0b1000_0000) != 0
}

/// The reserved part of `status`, with both condition flags masked out.
pub open spec fn reserved(status: u8) -> u8 {
    status & RESERVED_BITS
}

/// The status byte after `result` has been observed: the reserved bits of
/// `status` are kept, the zero flag tells whether `result` is zero, and the
/// negative flag is bit 7 of `result`.
pub open spec fn observed(status: u8, result: u8) -> u8 {
    let zero: u8 = if result == 0 { ZERO_FLAG } else { 0 };
    (status & RESERVED_BITS) | zero | (result & NEGATIVE_FLAG)
}

/// Bit 7 of a byte is 1 exactly when the byte is 128 or more.
pub proof fn lemma_sign_bit(value: u8)
    ensures
        sign_bit(value) <==> value >= 128,
{
    assert(sign_bit(value) <==> value >= 128) by (bit_vector);
}

/// `observed` decides every bit of the new status byte, whatever the old one
/// held: the zero flag is set exactly when `result` is zero, the negative
/// flag exactly when bit 7 of `result` is 1, and the reserved bits are those
/// of the old status byte.
pub proof fn lemma_observed(status: u8, result: u8)
    ensures
        zero_flag(observed(status, result)) <==> result == 0,
        negative_flag(observed(status, result)) <==> sign_bit(result),
        reserved(observed(status, result)) == reserved(status),
{
    assert(zero_flag(observed(status, result)) <==> result == 0) by (bit_vector);
    assert(negative_flag(observed(status, result)) <==> sign_bit(result)) by (bit_vector);
    assert(reserved(observed(status, result)) == reserved(status)) by (bit_vector);
}

} // verus!
