//! Emulation core for a Game-Boy-class handheld: an SM83-style 8-bit CPU,
//! its 64 KiB bus with mirrored RAM and masked I/O registers, the interrupt
//! controller, and the scheduling loop that steps CPU and peripherals.

pub mod bytes;
pub mod console;
