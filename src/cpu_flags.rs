use vstd::prelude::*;

verus! {

// Bit masks of the status register, bit 0 first: NV1B DIZC.
pub const CARRY: u8 = 0x01;

pub const ZERO: u8 = 0x02;

pub const INTERRUPT_DISABLE: u8 = 0x04;

pub const DECIMAL_MODE: u8 = 0x08;

/// No effect on the processor; set in the byte pushed by BRK and PHP.
pub const BREAK: u8 = 0x10;

/// No effect on the processor; always pushed as 1.
pub const UNUSED: u8 = 0x20;

pub const OVERFLOW: u8 = 0x40;

pub const NEGATIVE: u8 = 0x80;

/// Whether the bit of `mask` is set in `status`.
pub open spec fn has_flag(status: u8, mask: u8) -> bool {
    status & mask != 0
}

/// `status` with the bits of `mask` set when `on`, cleared otherwise.
pub open spec fn with_flag(status: u8, mask: u8, on: bool) -> u8 {
    if on {
        status | mask
    } else {
        status & !mask
    }
}

/// Status after a result has been produced: Zero and Negative follow it.
pub open spec fn with_zero_negative(status: u8, value: u8) -> u8 {
    with_flag(with_flag(status, ZERO, value == 0), NEGATIVE, value >= 0x80)
}

pub fn contains(status: u8, mask: u8) -> (r: bool)
    ensures
        r == has_flag(status, mask),
{
    status & mask != 0
}

pub fn set_flag(status: u8, mask: u8, on: bool) -> (r: u8)
    ensures
        r == with_flag(status, mask, on),
{
    if on {
        status | mask
    } else {
        status & !mask
    }
}

/// Setting one flag leaves the others as they were and reads back as set.
pub proof fn lemma_with_flag(status: u8, mask: u8, other: u8, on: bool)
    requires
        mask == CARRY || mask == ZERO || mask == INTERRUPT_DISABLE || mask == DECIMAL_MODE
            || mask == BREAK || mask == UNUSED || mask == OVERFLOW || mask == NEGATIVE,
        other == CARRY || other == ZERO || other == INTERRUPT_DISABLE || other == DECIMAL_MODE
            || other == BREAK || other == UNUSED || other == OVERFLOW || other == NEGATIVE,
    ensures
        has_flag(with_flag(status, mask, on), mask) == on,
        other != mask ==> has_flag(with_flag(status, mask, on), other) == has_flag(status, other),
{
    let r = with_flag(status, mask, on);
    assert(r == with_flag(status, mask, on));
    if on {
        assert(r == status | mask);
        assert((status | mask) & mask != 0) by (bit_vector)
            requires mask == 1u8 || mask == 2u8 || mask == 4u8 || mask == 8u8 || mask == 16u8
                || mask == 32u8 || mask == 64u8 || mask == 128u8;
        assert(other != mask ==> (((status | mask) & other != 0) == (status & other != 0))) by (bit_vector)
            requires mask == 1u8 || mask == 2u8 || mask == 4u8 || mask == 8u8 || mask == 16u8
                || mask == 32u8 || mask == 64u8 || mask == 128u8,
                other == 1u8 || other == 2u8 || other == 4u8 || other == 8u8 || other == 16u8
                || other == 32u8 || other == 64u8 || other == 128u8;
    } else {
        assert(r == status & !mask);
        assert((status & !mask) & mask == 0) by (bit_vector);
        assert(other != mask ==> (((status & !mask) & other != 0) == (status & other != 0))) by (bit_vector)
            requires mask == 1u8 || mask == 2u8 || mask == 4u8 || mask == 8u8 || mask == 16u8
                || mask == 32u8 || mask == 64u8 || mask == 128u8,
                other == 1u8 || other == 2u8 || other == 4u8 || other == 8u8 || other == 16u8
                || other == 32u8 || other == 64u8 || other == 128u8;
    }
}

} // verus!
