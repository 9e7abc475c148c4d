//! Register numbering shared by the decoder and the execution engine, flag
//! bit positions, and the bus addresses of the interrupt and timer
//! registers.

use vstd::prelude::*;

verus! {

// 8-bit register indices as used by the instruction encoding; index 6
// addresses the byte at H:L instead of a register.
pub const B: u8 = 0x0;

pub const C: u8 = 0x1;

pub const D: u8 = 0x2;

pub const E: u8 = 0x3;

pub const H: u8 = 0x4;

pub const L: u8 = 0x5;

pub const A: u8 = 0x7;

pub const F: u8 = 0x8;

pub const READ_HL: u8 = 0x6;

// 16-bit register-pair indices. In the stack table index 3 is the stack
// pointer; in the push/pop table it is A:F.
pub const BC: u8 = 0x0;

pub const DE: u8 = 0x1;

pub const HL: u8 = 0x2;

pub const SP: u8 = 0x3;

pub const AF: u8 = 0x3;

// Flag bit positions inside the flag register.
pub const FLAG_Z: u8 = 7;

pub const FLAG_N: u8 = 6;

pub const FLAG_H: u8 = 5;

pub const FLAG_C: u8 = 4;

// Interrupt pending and enable registers on the bus.
pub const IF: u16 = 0xFF0F;

pub const IE: u16 = 0xFFFF;

// Timer registers on the bus.
pub const DIV: u16 = 0xFF04;

pub const TIMA: u16 = 0xFF05;

pub const TMA: u16 = 0xFF06;

pub const TAC: u16 = 0xFF07;

/// Fixed target addresses of the eight restart calls.
pub open spec fn spec_rst_vector(n: u8) -> u16 {
    ((n % 8) * 8) as u16
}

/// Restart vector for slot `n`: eight vectors 8 bytes apart from 0x0000.
pub fn rst_vector(n: u8) -> (r: u16)
    requires
        n < 8,
    ensures
        r == spec_rst_vector(n),
{
    n as u16 * 8
}

} // verus!
