//! Interrupt source masks for the pending (IF) and enable (IE) registers,
//! in priority order, and the fixed service vectors.

use vstd::prelude::*;

verus! {

pub const VBLANK_I: u8 = 0b1;

pub const STAT_I: u8 = 0b10;

pub const TIMER_I: u8 = 0b100;

pub const SERIAL_I: u8 = 0b1000;

pub const JOYPAD_I: u8 = 0b10000;

pub const VBLANK_VECTOR: u16 = 0x0040;

pub const STAT_VECTOR: u16 = 0x0048;

pub const TIMER_VECTOR: u16 = 0x0050;

pub const SERIAL_VECTOR: u16 = 0x0058;

pub const JOYPAD_VECTOR: u16 = 0x0060;

/// Bit `i` of `x`, read arithmetically.
pub open spec fn spec_bit_u8(x: u8, i: u8) -> bool {
    x / spec_pow2_u8(i) % 2 == 1
}

pub open spec fn spec_pow2_u8(i: u8) -> u8 {
    if i == 0 {
        1
    } else if i == 1 {
        2
    } else if i == 2 {
        4
    } else if i == 3 {
        8
    } else if i == 4 {
        16
    } else if i == 5 {
        32
    } else if i == 6 {
        64
    } else {
        128
    }
}

pub open spec fn spec_pow2_16(i: u16) -> u16 {
    if i == 0 {
        1
    } else if i == 1 {
        2
    } else if i == 2 {
        4
    } else if i == 3 {
        8
    } else if i == 4 {
        16
    } else if i == 5 {
        32
    } else if i == 6 {
        64
    } else if i == 7 {
        128
    } else if i == 8 {
        256
    } else if i == 9 {
        512
    } else if i == 10 {
        1024
    } else if i == 11 {
        2048
    } else if i == 12 {
        4096
    } else if i == 13 {
        8192
    } else if i == 14 {
        16384
    } else {
        32768
    }
}

/// Bit `i` of a 16-bit word, read arithmetically.
pub open spec fn spec_bit_u16(x: u16, i: u16) -> bool {
    x / spec_pow2_16(i) % 2 == 1
}

/// ORing the serial source mask into a byte sets its pending bit.
pub proof fn lemma_or_sets_serial_bit(x: u8)
    ensures
        spec_bit_u8(x | SERIAL_I, 3),
{
    assert((x | 8u8) / 8 % 2 == 1) by (bit_vector);
}

/// Source `i` fires when its pending bit and its enable bit are both set.
pub open spec fn spec_pending_enabled(if_reg: u8, ie_reg: u8, i: u8) -> bool {
    spec_bit_u8(if_reg, i) && spec_bit_u8(ie_reg, i)
}

/// Some of the five interrupt sources is both pending and enabled.
pub open spec fn spec_any_pending(if_reg: u8, ie_reg: u8) -> bool {
    spec_pending_enabled(if_reg, ie_reg, 0) || spec_pending_enabled(if_reg, ie_reg, 1)
        || spec_pending_enabled(if_reg, ie_reg, 2) || spec_pending_enabled(if_reg, ie_reg, 3)
        || spec_pending_enabled(if_reg, ie_reg, 4)
}

/// Exact bit test used by the interrupt controller and the timer.
pub fn bit_u8(x: u8, i: u8) -> (r: bool)
    requires
        i < 8,
    ensures
        r == spec_bit_u8(x, i),
{
    let p: u8 = pow2_u8(i);
    x / p % 2 == 1
}

/// Whether some source is both pending and enabled.
pub fn any_pending(if_reg: u8, ie_reg: u8) -> (r: bool)
    ensures
        r == spec_any_pending(if_reg, ie_reg),
{
    (bit_u8(if_reg, 0) && bit_u8(ie_reg, 0)) || (bit_u8(if_reg, 1) && bit_u8(ie_reg, 1)) || (bit_u8(
        if_reg,
        2,
    ) && bit_u8(ie_reg, 2)) || (bit_u8(if_reg, 3) && bit_u8(ie_reg, 3)) || (bit_u8(if_reg, 4)
        && bit_u8(ie_reg, 4))
}

pub fn pow2_u8(i: u8) -> (r: u8)
    requires
        i < 8,
    ensures
        r == spec_pow2_u8(i),
        r >= 1,
{
    if i == 0 {
        1
    } else if i == 1 {
        2
    } else if i == 2 {
        4
    } else if i == 3 {
        8
    } else if i == 4 {
        16
    } else if i == 5 {
        32
    } else if i == 6 {
        64
    } else {
        128
    }
}

} // verus!
