//! Byte- and word-level helpers shared by the CPU core: nibble and bit
//! access, 8/16-bit arithmetic with the four SM83 flags (zero, subtract,
//! half-carry, carry), and byte/word packing.

use vstd::prelude::*;

verus! {

/// Flag byte layout: bit 7 zero, bit 6 subtract, bit 5 half-carry,
/// bit 4 carry; the low nibble of a flag byte is always zero.
pub open spec fn flag_z(f: u8) -> bool {
    f / 128 % 2 == 1
}

pub open spec fn flag_n(f: u8) -> bool {
    f / 64 % 2 == 1
}

pub open spec fn flag_h(f: u8) -> bool {
    f / 32 % 2 == 1
}

pub open spec fn flag_c(f: u8) -> bool {
    f / 16 % 2 == 1
}

/// The unique flag byte with the four flag bits as given and a zero
/// low nibble.
pub open spec fn mk_flags(z: bool, n: bool, h: bool, c: bool) -> u8 {
    ((if z { 128int } else { 0int }) + (if n { 64int } else { 0int }) + (if h { 32int } else {
        0int
    }) + (if c { 16int } else { 0int })) as u8
}

pub proof fn lemma_mk_flags(z: bool, n: bool, h: bool, c: bool)
    ensures
        flag_z(mk_flags(z, n, h, c)) == z,
        flag_n(mk_flags(z, n, h, c)) == n,
        flag_h(mk_flags(z, n, h, c)) == h,
        flag_c(mk_flags(z, n, h, c)) == c,
        mk_flags(z, n, h, c) % 16 == 0,
{
}

/// Every flag byte built by `mk_flags` has a zero low nibble.
pub proof fn lemma_mk_flags_all()
    ensures
        forall|z: bool, n: bool, h: bool, c: bool| (#[trigger] mk_flags(z, n, h, c)) % 16 == 0,
{
    assert forall|z: bool, n: bool, h: bool, c: bool| (#[trigger] mk_flags(z, n, h, c)) % 16
        == 0 by {
        lemma_mk_flags(z, n, h, c);
    }
}

/// The low nibble mask agrees with remainder by 16.
pub proof fn lemma_low_nibble_u8(x: u8)
    ensures
        x & 0xF == x % 16,
{
    assert(x & 0xF == x % 16) by (bit_vector);
}

/// Set or clear one bit of a byte.
pub open spec fn spec_set_bit(x: u8, bit: u8, value: bool) -> u8 {
    if value {
        x | (1u8 << bit)
    } else {
        x & !(1u8 << bit)
    }
}

pub fn set_bit(x: u8, bit: u8, value: bool) -> (r: u8)
    requires
        bit < 8,
    ensures
        r == spec_set_bit(x, bit, value),
{
    match value {
        true => x | (1u8 << bit),
        false => x & !(1u8 << bit),
    }
}

/// True when every bit of `y` is also set in `x`.
pub fn cmpbit(x: u8, y: u8) -> (r: bool)
    ensures
        r == (x & y == y),
{
    x & y == y
}

pub fn maskbits(x: u8, y: u8) -> (r: u8)
    ensures
        r == x & y,
{
    x & y
}

/// High byte of a 16-bit word.
pub fn high_u16(x: u16) -> (r: u8)
    ensures
        r == x / 256,
{
    (x / 256) as u8
}

/// Low byte of a 16-bit word.
pub fn low_u16(x: u16) -> (r: u8)
    ensures
        r == x % 256,
{
    (x % 256) as u8
}

/// High nibble of a byte.
pub fn high_u8(x: u8) -> (r: u8)
    ensures
        r == x / 16,
{
    x / 16
}

/// Low nibble of a byte.
pub fn low_u8(x: u8) -> (r: u8)
    ensures
        r == x % 16,
{
    x % 16
}

/// Whether bit `i` of a byte is set.
pub fn has_bit_u8(n: u8, i: u8) -> (r: bool)
    requires
        i < 8,
    ensures
        r == crate::console::interrupts::spec_bit_u8(n, i),
{
    proof {
        assert((n & (1u8 << i) != 0) == (n / (if i == 0 {
            1u8
        } else if i == 1 {
            2u8
        } else if i == 2 {
            4u8
        } else if i == 3 {
            8u8
        } else if i == 4 {
            16u8
        } else if i == 5 {
            32u8
        } else if i == 6 {
            64u8
        } else {
            128u8
        }) % 2 == 1)) by (bit_vector)
            requires
                i < 8,
        ;
    }
    n & (1u8 << i) != 0
}

/// Whether bit `i` of a word is set.
pub fn has_bit_u16(n: u16, i: u16) -> (r: bool)
    requires
        i < 16,
    ensures
        r == crate::console::interrupts::spec_bit_u16(n, i),
{
    proof {
        assert((n & (1u16 << i) != 0) == (n / (if i == 0 {
            1u16
        } else if i == 1 {
            2u16
        } else if i == 2 {
            4u16
        } else if i == 3 {
            8u16
        } else if i == 4 {
            16u16
        } else if i == 5 {
            32u16
        } else if i == 6 {
            64u16
        } else if i == 7 {
            128u16
        } else if i == 8 {
            256u16
        } else if i == 9 {
            512u16
        } else if i == 10 {
            1024u16
        } else if i == 11 {
            2048u16
        } else if i == 12 {
            4096u16
        } else if i == 13 {
            8192u16
        } else if i == 14 {
            16384u16
        } else {
            32768u16
        }) % 2 == 1)) by (bit_vector)
            requires
                i < 16,
        ;
    }
    n & (1u16 << i) != 0
}

/// Build a flag byte: zero flag from `result`, the other three as given.
pub fn make_flag(result: u8, n_flag: bool, half_c: bool, full_c: bool) -> (r: u8)
    ensures
        r == mk_flags(result == 0, n_flag, half_c, full_c),
{
    let z: u8 = if result == 0 { 128 } else { 0 };
    let n: u8 = if n_flag { 64 } else { 0 };
    let h: u8 = if half_c { 32 } else { 0 };
    let c: u8 = if full_c { 16 } else { 0 };
    z + n + h + c
}

/// Wrapping 16-bit signed addition; carry out of bit 7 and bit 3 of the
/// low bytes, the flag rule used for stack-pointer displacement adds.
pub fn i16_add(a: i16, b: i16) -> (r: (i16, bool, bool))
    ensures
        r.0 == (a + b + 32768) % 65536 - 32768,
        r.1 == ((a & 0xFF) + (b & 0xFF) > 0xFF),
        r.2 == ((a & 0xF) + (b & 0xF) > 0xF),
{
    let t: i32 = a as i32 + b as i32 + 32768 + 65536;
    let m: i32 = t % 65536;
    let result: i16 = (m - 32768) as i16;
    let low_carry: bool = (a & 0xFF) as i32 + (b & 0xFF) as i32 > 0xFF;
    let half_carry: bool = (a & 0xF) as i32 + (b & 0xF) as i32 > 0xF;
    proof {
        lemma_i16_low_masks(a);
        lemma_i16_low_masks(b);
        assert(t % 65536 == (a + b + 32768) % 65536) by (nonlinear_arith)
            requires
                t == a as i32 + b as i32 + 32768 + 65536,
        ;
    }
    (result, low_carry, half_carry)
}

proof fn lemma_i16_low_masks(a: i16)
    ensures
        0 <= a & 0xFF < 256,
        0 <= a & 0xF < 16,
{
    assert(0 <= a & 0xFF < 256) by (bit_vector);
    assert(0 <= a & 0xF < 16) by (bit_vector);
}

/// Wrapping 16-bit addition: result, carry out of bit 15, carry out of
/// bit 11.
pub fn u16_add(a: u16, b: u16) -> (r: (u16, bool, bool))
    ensures
        r.0 == (a + b) % 65536,
        r.1 == (a + b > 0xFFFF),
        r.2 == (a % 4096 + b % 4096 > 0xFFF),
{
    let sum: u32 = a as u32 + b as u32;
    let result: u16 = (sum % 65536) as u16;
    let full_c: bool = sum > 0xFFFF;
    let half_c: bool = a % 4096 + b % 4096 > 0xFFF;
    (result, full_c, half_c)
}

/// Wrapping 16-bit subtraction: result, borrow, borrow out of the low
/// nibble.
pub fn u16_sub(a: u16, b: u16) -> (r: (u16, bool, bool))
    ensures
        r.0 == (a + 65536 - b) % 65536,
        r.1 == (b > a),
        r.2 == (b % 16 > a % 16),
{
    let diff: u32 = a as u32 + 65536 - b as u32;
    let result: u16 = (diff % 65536) as u16;
    (result, b > a, b % 16 > a % 16)
}

/// Result and flag byte of 8-bit addition.
pub open spec fn spec_add8(a: u8, n: u8) -> (u8, u8) {
    (((a + n) % 256) as u8, mk_flags((a + n) % 256 == 0, false, a % 16 + n % 16 > 0xF, a + n > 0xFF))
}

/// Result and flag byte of 8-bit addition with carry-in.
pub open spec fn spec_adc8(a: u8, n: u8, c: u8) -> (u8, u8) {
    (
        ((a + n + c) % 256) as u8,
        mk_flags((a + n + c) % 256 == 0, false, a % 16 + n % 16 + c > 0xF, a + n + c > 0xFF),
    )
}

/// Result and flag byte of 8-bit subtraction.
pub open spec fn spec_sub8(a: u8, n: u8) -> (u8, u8) {
    (
        ((a + 256 - n) % 256) as u8,
        mk_flags((a + 256 - n) % 256 == 0, true, n % 16 > a % 16, n > a),
    )
}

/// Result and flag byte of 8-bit subtraction with borrow-in.
pub open spec fn spec_sbc8(a: u8, n: u8, c: u8) -> (u8, u8) {
    (
        ((a + 512 - n - c) % 256) as u8,
        mk_flags((a + 512 - n - c) % 256 == 0, true, n % 16 + c > a % 16, n + c > a),
    )
}

/// Result and flag byte of accumulator AND.
pub open spec fn spec_and8(a: u8, n: u8) -> (u8, u8) {
    ((a & n), mk_flags(a & n == 0, false, true, false))
}

/// Result and flag byte of accumulator OR.
pub open spec fn spec_or8(a: u8, n: u8) -> (u8, u8) {
    ((a | n), mk_flags(a | n == 0, false, false, false))
}

/// Result and flag byte of accumulator XOR.
pub open spec fn spec_xor8(a: u8, n: u8) -> (u8, u8) {
    ((a ^ n), mk_flags(a ^ n == 0, false, false, false))
}

/// 8-bit addition with the full SM83 flag computation.
/// The carry flag is set exactly when the unwidened sum exceeds 255, and
/// the half-carry flag exactly when the low nibbles sum past 0xF.
pub fn u8_add(a: u8, b: u8) -> (r: (u8, u8))
    ensures
        r == spec_add8(a, b),
        r.0 == (a + b) % 256,
        r.1 == mk_flags((a + b) % 256 == 0, false, a % 16 + b % 16 > 0xF, a + b > 0xFF),
        flag_c(r.1) == (a + b > 255),
        flag_h(r.1) == ((a & 0xF) + (b & 0xF) > 0xF),
        flag_n(r.1) == false,
        flag_z(r.1) == ((a + b) % 256 == 0),
{
    let sum: u16 = a as u16 + b as u16;
    let result: u8 = (sum % 256) as u8;
    let half_c: bool = a % 16 + b % 16 > 0xF;
    let full_c: bool = sum > 0xFF;
    proof {
        lemma_low_nibble_u8(a);
        lemma_low_nibble_u8(b);
        lemma_mk_flags(result == 0, false, half_c, full_c);
    }
    (result, make_flag(result, false, half_c, full_c))
}

/// 8-bit add with carry-in (0 or 1); flags as for `u8_add` with the
/// carry-in folded into both carry computations.
pub fn u8_addc(a: u8, b: u8, c: u8) -> (r: (u8, u8))
    requires
        c <= 1,
    ensures
        r == spec_adc8(a, b, c),
        r.0 == (a + b + c) % 256,
        r.1 == mk_flags(
            (a + b + c) % 256 == 0,
            false,
            a % 16 + b % 16 + c > 0xF,
            a + b + c > 0xFF,
        ),
{
    let sum: u16 = a as u16 + b as u16 + c as u16;
    let result: u8 = (sum % 256) as u8;
    let half_c: bool = a % 16 + b % 16 + c > 0xF;
    let full_c: bool = sum > 0xFF;
    proof {
        lemma_mk_flags(result == 0, false, half_c, full_c);
    }
    (result, make_flag(result, false, half_c, full_c))
}

/// 8-bit subtraction with the full SM83 flag computation.
/// The carry flag is set exactly when `b > a`, and the half-carry flag
/// exactly when the low nibble of `b` exceeds the low nibble of `a`.
pub fn u8_sub(a: u8, b: u8) -> (r: (u8, u8))
    ensures
        r == spec_sub8(a, b),
        r.0 == (a + 256 - b) % 256,
        r.1 == mk_flags((a + 256 - b) % 256 == 0, true, b % 16 > a % 16, b > a),
        flag_c(r.1) == (b > a),
        flag_h(r.1) == ((b & 0xF) > (a & 0xF)),
        flag_n(r.1) == true,
        flag_z(r.1) == (a == b),
{
    let diff: u16 = a as u16 + 256 - b as u16;
    let result: u8 = (diff % 256) as u8;
    let half_c: bool = b % 16 > a % 16;
    let full_c: bool = b > a;
    proof {
        lemma_low_nibble_u8(a);
        lemma_low_nibble_u8(b);
        lemma_mk_flags(result == 0, true, half_c, full_c);
    }
    (result, make_flag(result, true, half_c, full_c))
}

/// 8-bit subtract with borrow-in (0 or 1).
pub fn u8_subc(a: u8, b: u8, c: u8) -> (r: (u8, u8))
    requires
        c <= 1,
    ensures
        r == spec_sbc8(a, b, c),
        r.0 == (a + 512 - b - c) % 256,
        r.1 == mk_flags(
            (a + 512 - b - c) % 256 == 0,
            true,
            b % 16 + c > a % 16,
            b + c > a,
        ),
{
    let diff: u16 = a as u16 + 512 - b as u16 - c as u16;
    let result: u8 = (diff % 256) as u8;
    let half_c: bool = b % 16 + c > a % 16;
    let full_c: bool = b as u16 + c as u16 > a as u16;
    proof {
        lemma_mk_flags(result == 0, true, half_c, full_c);
    }
    (result, make_flag(result, true, half_c, full_c))
}

/// Bitwise AND of the accumulator with an operand; the half-carry flag is
/// always set, carry always clear.
pub fn u8_and(a: u8, b: u8) -> (r: (u8, u8))
    ensures
        r == spec_and8(a, b),
        r.0 == a & b,
        r.1 == mk_flags(a & b == 0, false, true, false),
{
    let result: u8 = a & b;
    (result, make_flag(result, false, true, false))
}

/// Bitwise XOR; all flags but zero are clear.
pub fn u8_xor(a: u8, b: u8) -> (r: (u8, u8))
    ensures
        r == spec_xor8(a, b),
        r.0 == a ^ b,
        r.1 == mk_flags(a ^ b == 0, false, false, false),
{
    let result: u8 = a ^ b;
    (result, make_flag(result, false, false, false))
}

/// Bitwise OR; all flags but zero are clear.
pub fn u8_or(a: u8, b: u8) -> (r: (u8, u8))
    ensures
        r == spec_or8(a, b),
        r.0 == a | b,
        r.1 == mk_flags(a | b == 0, false, false, false),
{
    let result: u8 = a | b;
    (result, make_flag(result, false, false, false))
}

/// Compare: the flags of `u8_sub`; the numeric result is discarded by the
/// caller.
pub fn u8_cmp(a: u8, b: u8) -> (r: (u8, u8))
    ensures
        r == spec_sub8(a, b),
        r.0 == (a + 256 - b) % 256,
        r.1 == mk_flags((a + 256 - b) % 256 == 0, true, b % 16 > a % 16, b > a),
{
    u8_sub(a, b)
}

/// Pack two bytes into a word, `msb` high.
pub fn u8_to_u16(msb: u8, lsb: u8) -> (r: u16)
    ensures
        r == msb * 256 + lsb,
{
    lsb as u16 + msb as u16 * 256
}

} // verus!
