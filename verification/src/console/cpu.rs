//! The SM83-style CPU core: register file, flag handling, the execution
//! engine applying decoded instructions to registers and bus, and the
//! interrupt controller protocol.

use vstd::prelude::*;

use crate::bytes::{
    flag_c, flag_h, flag_n, flag_z, high_u16, low_u16, mk_flags, set_bit, spec_adc8, spec_add8,
    spec_and8, spec_or8, spec_sbc8, spec_set_bit, spec_sub8, spec_xor8, u16_add, u16_sub, u8_add,
    u8_addc, u8_and, u8_cmp, u8_or, u8_sub, u8_subc, u8_to_u16, u8_xor,
};
use crate::console::instruction::{spec_decode, spec_decode_cb, wf_instr, Instruction};
use crate::console::interrupts::{
    any_pending,
    bit_u8, pow2_u8, spec_any_pending, spec_bit_u8, spec_pending_enabled, spec_pow2_u8, JOYPAD_VECTOR,
    SERIAL_VECTOR, STAT_VECTOR, TIMER_VECTOR, VBLANK_VECTOR,
};
use crate::console::memory::{spec_write, Memory};
use crate::console::regids::{rst_vector, spec_rst_vector, FLAG_C, FLAG_Z, IE, IF};

verus! {

/// The record surfaced when emulation stops on an opcode that locks up
/// the real hardware: the raw byte and the program counter just past it.
#[derive(Debug, Copy, Clone, PartialEq, Eq, Structural)]
pub struct Fault {
    pub opcode: u8,
    pub pc: u16,
}

/// The CPU register file and execution state.
pub struct SharpSM83 {
    pub a: u8,
    pub b: u8,
    pub c: u8,
    pub d: u8,
    pub e: u8,
    pub h: u8,
    pub l: u8,
    /// Flag register: bit 7 zero, bit 6 subtract, bit 5 half-carry,
    /// bit 4 carry; the low nibble always reads zero.
    pub f: u8,
    /// Interrupt master enable: 1 when interrupts may vector.
    pub ime: u8,
    pub pc: u16,
    pub sp: u16,
    pub stop: bool,
    pub halt: bool,
    pub instructions_executed: usize,
    /// How many reserved (harmless-undefined) opcodes were executed as
    /// no-ops; the diagnostic record for non-fatal undefined opcodes.
    pub undefined_seen: usize,
    /// Set when an illegal opcode aborted emulation.
    pub fault: Option<Fault>,
}

/// Program counter increment, wrapping at the top of the address space.
pub open spec fn spec_wrap_inc(x: u16) -> u16 {
    ((x + 1) % 65536) as u16
}

pub open spec fn spec_wrap_dec(x: u16) -> u16 {
    ((x + 65535) % 65536) as u16
}

pub open spec fn spec_word(msb: u8, lsb: u8) -> u16 {
    (msb * 256 + lsb) as u16
}

pub open spec fn spec_hi(x: u16) -> u8 {
    (x / 256) as u8
}

pub open spec fn spec_lo(x: u16) -> u8 {
    (x % 256) as u8
}

/// A signed 8-bit displacement added to a 16-bit value, wrapping.
pub open spec fn spec_offset_add(base: u16, e: u8) -> u16 {
    if e < 128 {
        ((base + e) % 65536) as u16
    } else {
        ((base + e + 0xFF00) % 65536) as u16
    }
}

/// The carry flag as a 0/1 carry-in operand.
pub open spec fn spec_carry_bit(f: u8) -> u8 {
    if flag_c(f) {
        1
    } else {
        0
    }
}

impl SharpSM83 {
    /// The flag register never holds anything in its low nibble.
    pub open spec fn wf(self) -> bool {
        self.f % 16 == 0
    }

    /// The reset state: every register zero, interrupts off, no fault.
    pub open spec fn spec_reset() -> SharpSM83 {
        SharpSM83 {
            a: 0,
            b: 0,
            c: 0,
            d: 0,
            e: 0,
            h: 0,
            l: 0,
            f: 0,
            ime: 0,
            pc: 0,
            sp: 0,
            stop: false,
            halt: false,
            instructions_executed: 0,
            undefined_seen: 0,
            fault: Option::None,
        }
    }
}

/// Internal register read: indices 0-5 are B,C,D,E,H,L; 7 is the
/// accumulator; 8 the flag register; anything else reads zero.
pub open spec fn spec_get_reg_int(cpu: SharpSM83, reg: u8) -> u8 {
    if reg == 0 {
        cpu.b
    } else if reg == 1 {
        cpu.c
    } else if reg == 2 {
        cpu.d
    } else if reg == 3 {
        cpu.e
    } else if reg == 4 {
        cpu.h
    } else if reg == 5 {
        cpu.l
    } else if reg == 7 {
        cpu.a
    } else if reg == 8 {
        cpu.f
    } else {
        0
    }
}

/// Internal register write; a write to the flag register masks out the
/// low nibble.
pub open spec fn spec_set_reg_int(cpu: SharpSM83, reg: u8, n: u8) -> SharpSM83 {
    if reg == 0 {
        SharpSM83 { b: n, ..cpu }
    } else if reg == 1 {
        SharpSM83 { c: n, ..cpu }
    } else if reg == 2 {
        SharpSM83 { d: n, ..cpu }
    } else if reg == 3 {
        SharpSM83 { e: n, ..cpu }
    } else if reg == 4 {
        SharpSM83 { h: n, ..cpu }
    } else if reg == 5 {
        SharpSM83 { l: n, ..cpu }
    } else if reg == 7 {
        SharpSM83 { a: n, ..cpu }
    } else if reg == 8 {
        SharpSM83 { f: (n / 16 * 16) as u8, ..cpu }
    } else {
        cpu
    }
}

/// Register-pair views of the 16-bit load/arithmetic table:
/// B:C, D:E, H:L, and the stack pointer.
pub open spec fn spec_rr(cpu: SharpSM83, rr: u8) -> u16 {
    if rr == 0 {
        spec_word(cpu.b, cpu.c)
    } else if rr == 1 {
        spec_word(cpu.d, cpu.e)
    } else if rr == 2 {
        spec_word(cpu.h, cpu.l)
    } else if rr == 3 {
        cpu.sp
    } else {
        0
    }
}

/// Register-pair views of the push/pop table: B:C, D:E, H:L, and A:F.
pub open spec fn spec_rr_int(cpu: SharpSM83, rr: u8) -> u16 {
    if rr == 3 {
        spec_word(cpu.a, cpu.f)
    } else {
        spec_rr(cpu, rr)
    }
}

pub open spec fn spec_set_rr(cpu: SharpSM83, rr: u8, nn: u16) -> SharpSM83 {
    if rr == 0 {
        SharpSM83 { b: spec_hi(nn), c: spec_lo(nn), ..cpu }
    } else if rr == 1 {
        SharpSM83 { d: spec_hi(nn), e: spec_lo(nn), ..cpu }
    } else if rr == 2 {
        SharpSM83 { h: spec_hi(nn), l: spec_lo(nn), ..cpu }
    } else if rr == 3 {
        SharpSM83 { sp: nn, ..cpu }
    } else {
        cpu
    }
}

/// Pair write of the push/pop table; popping into A:F masks the flag
/// low nibble.
pub open spec fn spec_set_rr_int(cpu: SharpSM83, rr: u8, nn: u16) -> SharpSM83 {
    if rr == 3 {
        SharpSM83 { a: spec_hi(nn), f: (spec_lo(nn) / 16 * 16) as u8, ..cpu }
    } else {
        spec_set_rr(cpu, rr, nn)
    }
}

/// Operand read of the 8-bit table: index 6 reads the byte at H:L.
pub open spec fn spec_get_reg(cpu: SharpSM83, mem: Seq<u8>, reg: u8) -> u8 {
    if reg == 6 {
        mem[spec_rr(cpu, 2) as int]
    } else if reg == 8 {
        0
    } else {
        spec_get_reg_int(cpu, reg)
    }
}

/// Operand write of the 8-bit table: index 6 stores through the bus at
/// H:L; the flag register is not addressable here.
pub open spec fn spec_set_reg(cpu: SharpSM83, mem: Seq<u8>, reg: u8, n: u8) -> (SharpSM83, Seq<
    u8,
>) {
    if reg == 6 {
        (cpu, spec_write(mem, spec_rr(cpu, 2), n))
    } else if reg == 8 {
        (cpu, mem)
    } else {
        (spec_set_reg_int(cpu, reg, n), mem)
    }
}

/// The address form of the 16-bit table used by indirect accumulator
/// loads: B:C, D:E, then H:L with post-increment, H:L with
/// post-decrement.
pub open spec fn spec_rr_addr(cpu: SharpSM83, rr: u8) -> (SharpSM83, u16) {
    if rr == 0 {
        (cpu, spec_rr(cpu, 0))
    } else if rr == 1 {
        (cpu, spec_rr(cpu, 1))
    } else if rr == 2 {
        let hl = spec_rr(cpu, 2);
        (spec_set_rr(cpu, 2, spec_wrap_inc(hl)), hl)
    } else if rr == 3 {
        let hl = spec_rr(cpu, 2);
        (spec_set_rr(cpu, 2, spec_wrap_dec(hl)), hl)
    } else {
        (cpu, 0)
    }
}

/// Condition codes in their 2-bit encoding: not-zero, zero, not-carry,
/// carry.
pub open spec fn spec_cc(cpu: SharpSM83, cc: u8) -> bool {
    if cc == 0 {
        !flag_z(cpu.f)
    } else if cc == 1 {
        flag_z(cpu.f)
    } else if cc == 2 {
        !flag_c(cpu.f)
    } else if cc == 3 {
        flag_c(cpu.f)
    } else {
        false
    }
}

/// One opcode/operand byte fetched at the program counter, which then
/// advances.
pub open spec fn spec_fetch(cpu: SharpSM83, mem: Seq<u8>) -> (SharpSM83, u8) {
    (SharpSM83 { pc: spec_wrap_inc(cpu.pc), ..cpu }, mem[cpu.pc as int])
}

/// A word pushed onto the stack: the stack pointer decrements before
/// each byte, high byte first, so the low byte ends at the lower
/// address.
pub open spec fn spec_push(cpu: SharpSM83, mem: Seq<u8>, value: u16) -> (SharpSM83, Seq<u8>) {
    let sp1 = spec_wrap_dec(cpu.sp);
    let m1 = spec_write(mem, sp1, spec_hi(value));
    let sp2 = spec_wrap_dec(sp1);
    let m2 = spec_write(m1, sp2, spec_lo(value));
    (SharpSM83 { sp: sp2, ..cpu }, m2)
}

/// A word popped from the stack: low byte first, the stack pointer
/// increments after each byte.
pub open spec fn spec_pop(cpu: SharpSM83, mem: Seq<u8>) -> (SharpSM83, u16) {
    let lsb = mem[cpu.sp as int];
    let sp1 = spec_wrap_inc(cpu.sp);
    let msb = mem[sp1 as int];
    let sp2 = spec_wrap_inc(sp1);
    (SharpSM83 { sp: sp2, ..cpu }, spec_word(msb, lsb))
}

/// A forced call: clear master enable, push the program counter, jump to
/// the vector.
pub open spec fn spec_int(cpu: SharpSM83, mem: Seq<u8>, vector: u16) -> (SharpSM83, Seq<u8>) {
    let cpu0 = SharpSM83 { ime: 0, ..cpu };
    let r = spec_push(cpu0, mem, cpu0.pc);
    (SharpSM83 { pc: vector, ..r.0 }, r.1)
}

impl SharpSM83 {
    pub fn is_interruptible(&self) -> (r: bool)
        ensures
            r == (self.ime == 1),
    {
        self.ime == 1
    }

    /// A CPU in its reset state: all registers zero, interrupts off.
    pub fn new() -> (r: SharpSM83)
        ensures
            r == SharpSM83::spec_reset(),
            r.wf(),
    {
        SharpSM83 {
            a: 0x00,
            b: 0x00,
            c: 0x00,
            d: 0x00,
            e: 0x00,
            h: 0x00,
            l: 0x00,
            f: 0x00,
            ime: 0,
            pc: 0x0000,
            sp: 0x0000,
            stop: false,
            halt: false,
            instructions_executed: 0,
            undefined_seen: 0,
            fault: Option::None,
        }
    }

    pub fn get_instr_executed(&self) -> (r: usize)
        ensures
            r == self.instructions_executed,
    {
        self.instructions_executed
    }

    /// Leave the stopped state; nothing else changes.
    pub fn reset(&mut self)
        ensures
            *final(self) == (SharpSM83 { stop: false, ..*old(self) }),
    {
        self.stop = false;
    }

    /// The flag register.
    pub fn get_flag(&self) -> (r: u8)
        ensures
            r == self.f,
    {
        self.f
    }

    /// One bit of the flag register, as 0 or 1.
    pub fn get_flag_bit(&self, flag_bit: u8) -> (r: u8)
        requires
            flag_bit < 8,
        ensures
            r == self.f / spec_pow2_u8(flag_bit) % 2,
            flag_bit == FLAG_C ==> r == spec_carry_bit(self.f),
    {
        let p: u8 = pow2_u8(flag_bit);
        self.f / p % 2
    }

    /// Overwrite all four flags; the low nibble stays zero.
    fn set_flags(&mut self, z: bool, n: bool, h: bool, c: bool)
        ensures
            *final(self) == (SharpSM83 { f: mk_flags(z, n, h, c), ..*old(self) }),
    {
        let zb: u8 = if z { 128 } else { 0 };
        let nb: u8 = if n { 64 } else { 0 };
        let hb: u8 = if h { 32 } else { 0 };
        let cb: u8 = if c { 16 } else { 0 };
        self.f = zb + nb + hb + cb;
    }

    /// Evaluate a condition code against the flag register.
    pub fn check_conditions(&self, cc: u8) -> (r: bool)
        ensures
            r == spec_cc(*self, cc),
    {
        let z: bool = self.f / 128 % 2 == 1;
        let c: bool = self.f / 16 % 2 == 1;
        if cc == 0 {
            !z
        } else if cc == 1 {
            z
        } else if cc == 2 {
            !c
        } else if cc == 3 {
            c
        } else {
            false
        }
    }

    /// Register view for indirect loads, with the post-increment and
    /// post-decrement H:L forms.
    pub fn get_reg_view_addr(&mut self, rr_key: u8) -> (r: u16)
        ensures
            *final(self) == spec_rr_addr(*old(self), rr_key).0,
            r == spec_rr_addr(*old(self), rr_key).1,
    {
        if rr_key == 0 {
            self.get_reg_view(0)
        } else if rr_key == 1 {
            self.get_reg_view(1)
        } else if rr_key == 2 {
            let hl: u16 = self.get_reg_view(2);
            self.set_rr(2, (((hl as u32) + 1) % 65536) as u16);
            hl
        } else if rr_key == 3 {
            let hl: u16 = self.get_reg_view(2);
            self.set_rr(2, (((hl as u32) + 65535) % 65536) as u16);
            hl
        } else {
            0
        }
    }

    /// Register-pair view or the stack pointer.
    pub fn get_reg_view(&self, rr_key: u8) -> (r: u16)
        ensures
            r == spec_rr(*self, rr_key),
    {
        if rr_key == 0 {
            u8_to_u16(self.b, self.c)
        } else if rr_key == 1 {
            u8_to_u16(self.d, self.e)
        } else if rr_key == 2 {
            u8_to_u16(self.h, self.l)
        } else if rr_key == 3 {
            self.sp
        } else {
            0
        }
    }

    /// Register-pair view of the push/pop table (A:F instead of the
    /// stack pointer).
    pub fn get_reg_view_int(&self, rr_key: u8) -> (r: u16)
        ensures
            r == spec_rr_int(*self, rr_key),
    {
        if rr_key == 3 {
            u8_to_u16(self.a, self.f)
        } else {
            self.get_reg_view(rr_key)
        }
    }

    /// Write a register pair or the stack pointer.
    fn set_rr(&mut self, rr_key: u8, nn: u16)
        ensures
            *final(self) == spec_set_rr(*old(self), rr_key, nn),
    {
        let hi: u8 = (nn / 256) as u8;
        let lo: u8 = (nn % 256) as u8;
        if rr_key == 0 {
            self.b = hi;
            self.c = lo;
        } else if rr_key == 1 {
            self.d = hi;
            self.e = lo;
        } else if rr_key == 2 {
            self.h = hi;
            self.l = lo;
        } else if rr_key == 3 {
            self.sp = nn;
        }
    }

    /// Write a register pair of the push/pop table.
    fn set_reg_view_int(&mut self, rr_key: u8, nn: u16)
        ensures
            *final(self) == spec_set_rr_int(*old(self), rr_key, nn),
    {
        if rr_key == 3 {
            self.a = (nn / 256) as u8;
            self.f = (nn % 256) as u8 / 16 * 16;
        } else {
            self.set_rr(rr_key, nn);
        }
    }

    /// Internal register read.
    pub fn get_reg_int(&self, reg: u8) -> (r: u8)
        ensures
            r == spec_get_reg_int(*self, reg),
    {
        if reg == 0 {
            self.b
        } else if reg == 1 {
            self.c
        } else if reg == 2 {
            self.d
        } else if reg == 3 {
            self.e
        } else if reg == 4 {
            self.h
        } else if reg == 5 {
            self.l
        } else if reg == 7 {
            self.a
        } else if reg == 8 {
            self.f
        } else {
            0
        }
    }

    /// Internal register write; the flag register keeps a zero low
    /// nibble.
    fn set_reg_int(&mut self, reg: u8, n: u8)
        ensures
            *final(self) == spec_set_reg_int(*old(self), reg, n),
    {
        if reg == 0 {
            self.b = n;
        } else if reg == 1 {
            self.c = n;
        } else if reg == 2 {
            self.d = n;
        } else if reg == 3 {
            self.e = n;
        } else if reg == 4 {
            self.h = n;
        } else if reg == 5 {
            self.l = n;
        } else if reg == 7 {
            self.a = n;
        } else if reg == 8 {
            self.f = n / 16 * 16;
        }
    }

    /// Operand read: registers, or the byte at H:L for index 6.
    pub fn get_reg(&self, reg: u8, memory: &Memory) -> (r: u8)
        requires
            reg == 6 ==> memory.wf(),
        ensures
            r == spec_get_reg(*self, memory@, reg),
    {
        if reg == 6 {
            let loc: u16 = self.get_reg_view(2);
            memory.read(loc)
        } else if reg == 8 {
            0
        } else {
            self.get_reg_int(reg)
        }
    }

    /// Operand write: registers, or a bus store at H:L for index 6.
    fn set_reg(&mut self, reg: u8, n: u8, memory: &mut Memory)
        requires
            reg == 6 ==> old(memory).wf(),
        ensures
            *final(self) == spec_set_reg(*old(self), old(memory)@, reg, n).0,
            final(memory)@ == spec_set_reg(*old(self), old(memory)@, reg, n).1,
            old(memory).wf() ==> final(memory).wf(),
    {
        if reg == 6 {
            let loc: u16 = self.get_reg_view(2);
            self.write(loc, n, memory);
        } else if reg == 8 {
        } else {
            self.set_reg_int(reg, n);
        }
    }

    /// One byte fetched at the program counter.
    fn fetch(&mut self, memory: &Memory) -> (r: u8)
        requires
            memory.wf(),
        ensures
            *final(self) == spec_fetch(*old(self), memory@).0,
            r == spec_fetch(*old(self), memory@).1,
    {
        let opcode: u8 = memory.read(self.pc);
        self.pc = (((self.pc as u32) + 1) % 65536) as u16;
        opcode
    }

    /// Store through the bus.
    fn write(&mut self, addr: u16, byte: u8, memory: &mut Memory)
        requires
            old(memory).wf(),
        ensures
            *final(self) == *old(self),
            final(memory).wf(),
            final(memory)@ == spec_write(old(memory)@, addr, byte),
    {
        memory.write(addr, byte);
    }

    /// Push a word, high byte first.
    fn push_word(&mut self, value: u16, memory: &mut Memory)
        requires
            old(memory).wf(),
        ensures
            *final(self) == spec_push(*old(self), old(memory)@, value).0,
            final(memory)@ == spec_push(*old(self), old(memory)@, value).1,
            final(memory).wf(),
    {
        let msb: u8 = high_u16(value);
        let lsb: u8 = low_u16(value);
        self.sp = (((self.sp as u32) + 65535) % 65536) as u16;
        self.write(self.sp, msb, memory);
        self.sp = (((self.sp as u32) + 65535) % 65536) as u16;
        self.write(self.sp, lsb, memory);
    }

    /// Pop a word, low byte first.
    fn pop_word(&mut self, memory: &Memory) -> (r: u16)
        requires
            memory.wf(),
        ensures
            *final(self) == spec_pop(*old(self), memory@).0,
            r == spec_pop(*old(self), memory@).1,
    {
        let lsb: u8 = memory.read(self.sp);
        self.sp = (((self.sp as u32) + 1) % 65536) as u16;
        let msb: u8 = memory.read(self.sp);
        self.sp = (((self.sp as u32) + 1) % 65536) as u16;
        u8_to_u16(msb, lsb)
    }

    /// Forced call to an interrupt vector.
    fn int_call(&mut self, vector: u16, memory: &mut Memory)
        requires
            old(memory).wf(),
        ensures
            *final(self) == spec_int(*old(self), old(memory)@, vector).0,
            final(memory)@ == spec_int(*old(self), old(memory)@, vector).1,
            final(memory).wf(),
    {
        self.ime = 0;
        let pc: u16 = self.pc;
        self.push_word(pc, memory);
        self.pc = vector;
    }
}

/// The small fixed set of opcodes that lock up the real silicon;
/// executing one is fatal to emulation.
pub open spec fn spec_illegal(op: u8) -> bool {
    op == 0xD3 || op == 0xE3 || op == 0xE4 || op == 0xF4 || op == 0xDB || op == 0xEB || op == 0xEC
        || op == 0xFC || op == 0xDD || op == 0xED || op == 0xFD
}

/// Instructions whose execution never touches the bus; they may run on a
/// bus of any size.
pub open spec fn spec_mem_free_instr(i: Instruction) -> bool {
    i == Instruction::NOP || i == Instruction::STOP || i == Instruction::HALT || i
        == Instruction::DI || i == Instruction::EI || i == Instruction::SCF || i == Instruction::CCF
        || i == Instruction::CPL || i == Instruction::DAA || i == Instruction::RLCA || i
        == Instruction::RLA || i == Instruction::RRCA || i == Instruction::RRA
}

pub open spec fn is_misc_instr(i: Instruction) -> bool {
    spec_mem_free_instr(i) || i == Instruction::LDSPwHL || i == Instruction::JPHL
}

pub open spec fn is_load8_instr(i: Instruction) -> bool {
    match i {
        Instruction::LDRwR(..) | Instruction::LDRwN(..) | Instruction::LDH(..)
            | Instruction::LDAwNNa(..) | Instruction::LDRRawA(..) | Instruction::LDAwRRa(..) => true,
        _ => false,
    }
}

pub open spec fn is_load16_instr(i: Instruction) -> bool {
    match i {
        Instruction::LDrrnn(..) | Instruction::LDNNawSP | Instruction::PUSHrr(..)
            | Instruction::POPrr(..) | Instruction::LDHLwSP => true,
        _ => false,
    }
}

pub open spec fn is_alu8_instr(i: Instruction) -> bool {
    match i {
        Instruction::Add(..) | Instruction::Adc(..) | Instruction::Sub(..) | Instruction::Sbc(..)
            | Instruction::And(..) | Instruction::Or(..) | Instruction::Xor(..)
            | Instruction::Cmp(..) | Instruction::Addn | Instruction::Adcn | Instruction::Subn
            | Instruction::Sbcn | Instruction::Andn | Instruction::Orn | Instruction::Xorn
            | Instruction::Cmpn | Instruction::IncR(..) | Instruction::DecR(..) => true,
        _ => false,
    }
}

pub open spec fn is_alu16_instr(i: Instruction) -> bool {
    match i {
        Instruction::AddSpE | Instruction::INCrr(..) | Instruction::DECrr(..)
            | Instruction::ADDHLrr(..) => true,
        _ => false,
    }
}

pub open spec fn is_jump_instr(i: Instruction) -> bool {
    match i {
        Instruction::JPnn | Instruction::JPccnn(..) | Instruction::JRe | Instruction::JRcce(..)
            | Instruction::CALLnn | Instruction::CALLccnn(..) | Instruction::RET
            | Instruction::RETcc(..) | Instruction::RETI | Instruction::RSTn(..)
            | Instruction::INTn(..) => true,
        _ => false,
    }
}

pub open spec fn is_prefix_instr(i: Instruction) -> bool {
    match i {
        Instruction::RLCr(..) | Instruction::RLr(..) | Instruction::RRCr(..)
            | Instruction::RRr(..) | Instruction::SLAr(..) | Instruction::SRAr(..)
            | Instruction::SRLr(..) | Instruction::SWAPr(..) | Instruction::BITnr { .. }
            | Instruction::RESnr { .. } | Instruction::SETnr { .. } => true,
        _ => false,
    }
}

/// Result and flag write-back shared by the eight accumulator ALU
/// operations; compare keeps the accumulator.
pub open spec fn spec_alu_res(cpu: SharpSM83, res: (u8, u8), keep_a: bool) -> SharpSM83 {
    if keep_a {
        SharpSM83 { f: res.1, ..cpu }
    } else {
        SharpSM83 { a: res.0, f: res.1, ..cpu }
    }
}

/// Call: fetch the 16-bit target low byte first; when taken, push the
/// return address and jump.
pub open spec fn spec_call(cpu: SharpSM83, mem: Seq<u8>, taken: bool) -> (SharpSM83, Seq<u8>) {
    let f1 = spec_fetch(cpu, mem);
    let f2 = spec_fetch(f1.0, mem);
    let nn = spec_word(f2.1, f1.1);
    if taken {
        let p = spec_push(f2.0, mem, f2.0.pc);
        (SharpSM83 { pc: nn, ..p.0 }, p.1)
    } else {
        (f2.0, mem)
    }
}

/// Return: when taken, pop the return address; return-and-enable also
/// sets the master enable.
pub open spec fn spec_ret(cpu: SharpSM83, mem: Seq<u8>, taken: bool, enable_ime: bool) -> (
    SharpSM83,
    Seq<u8>,
) {
    if taken {
        let p = spec_pop(cpu, mem);
        (SharpSM83 { pc: p.1, ime: if enable_ime { 1 } else { cpu.ime }, ..p.0 }, mem)
    } else {
        (cpu, mem)
    }
}

/// Write-back of the extended rotate/shift forms: the shifted value goes
/// to the operand, carry takes the bit shifted out, zero follows the
/// result.
pub open spec fn spec_shift_res(cpu: SharpSM83, mem: Seq<u8>, r: u8, res: u8, carry: bool) -> (
    SharpSM83,
    Seq<u8>,
) {
    let sr = spec_set_reg(cpu, mem, r, res);
    (SharpSM83 { f: mk_flags(res == 0, false, false, carry), ..sr.0 }, sr.1)
}

/// Semantics of the extended (0xCB) table: rotates, shifts, nibble swap,
/// and single-bit test/set/reset on a register or the byte at H:L.
pub open spec fn spec_execute_prefix(cpu: SharpSM83, mem: Seq<u8>, instr: Instruction) -> (
    SharpSM83,
    Seq<u8>,
) {
    match instr {
        Instruction::RLCr(r) => {
            let rv = spec_get_reg(cpu, mem, r);
            let b = rv / 128;
            spec_shift_res(cpu, mem, r, ((rv % 128) * 2 + b) as u8, b == 1)
        },
        Instruction::RLr(r) => {
            let rv = spec_get_reg(cpu, mem, r);
            let b = rv / 128;
            let c = spec_carry_bit(cpu.f);
            spec_shift_res(cpu, mem, r, ((rv % 128) * 2 + c) as u8, b == 1)
        },
        Instruction::SLAr(r) => {
            let rv = spec_get_reg(cpu, mem, r);
            let b = rv / 128;
            spec_shift_res(cpu, mem, r, ((rv % 128) * 2) as u8, b == 1)
        },
        Instruction::RRCr(r) => {
            let rv = spec_get_reg(cpu, mem, r);
            let b = rv % 2;
            spec_shift_res(cpu, mem, r, (rv / 2 + b * 128) as u8, b == 1)
        },
        Instruction::RRr(r) => {
            let rv = spec_get_reg(cpu, mem, r);
            let b = rv % 2;
            let c = spec_carry_bit(cpu.f);
            spec_shift_res(cpu, mem, r, (rv / 2 + c * 128) as u8, b == 1)
        },
        Instruction::SRAr(r) => {
            let rv = spec_get_reg(cpu, mem, r);
            let b = rv % 2;
            spec_shift_res(cpu, mem, r, (rv / 2 + (rv / 128) * 128) as u8, b == 1)
        },
        Instruction::SRLr(r) => {
            let rv = spec_get_reg(cpu, mem, r);
            let b = rv % 2;
            spec_shift_res(cpu, mem, r, (rv / 2) as u8, b == 1)
        },
        Instruction::SWAPr(r) => {
            let rv = spec_get_reg(cpu, mem, r);
            let sr = spec_set_reg(cpu, mem, r, ((rv % 16) * 16 + rv / 16) as u8);
            (SharpSM83 { f: mk_flags(rv == 0, false, false, false), ..sr.0 }, sr.1)
        },
        Instruction::BITnr { n, r } => {
            let rv = spec_get_reg(cpu, mem, r);
            (
                SharpSM83 { f: mk_flags(!spec_bit_u8(rv, n), false, true, flag_c(cpu.f)), ..cpu },
                mem,
            )
        },
        Instruction::RESnr { n, r } => {
            let rv = spec_get_reg(cpu, mem, r);
            spec_set_reg(cpu, mem, r, spec_set_bit(rv, n, false))
        },
        Instruction::SETnr { n, r } => {
            let rv = spec_get_reg(cpu, mem, r);
            spec_set_reg(cpu, mem, r, spec_set_bit(rv, n, true))
        },
        _ => (cpu, mem),
    }
}

/// Semantics of the bus-free miscellaneous instructions and the two
/// register-only transfers.
pub open spec fn spec_exec_misc(cpu: SharpSM83, instr: Instruction) -> SharpSM83 {
    match instr {
        Instruction::NOP => cpu,
        Instruction::STOP => SharpSM83 { stop: true, ..cpu },
        Instruction::HALT => SharpSM83 { halt: true, ..cpu },
        Instruction::DI => SharpSM83 { ime: 0, ..cpu },
        Instruction::EI => SharpSM83 { ime: 1, ..cpu },
        Instruction::DAA => {
            let n = flag_n(cpu.f);
            let hf = flag_h(cpu.f);
            let cf = flag_c(cpu.f);
            let corr1 = if hf || (!n && cpu.a % 16 > 9) {
                6int
            } else {
                0int
            };
            let c_new = cf || (!n && cpu.a > 0x99);
            let corr = if c_new {
                corr1 + 0x60
            } else {
                corr1
            };
            let value = if n {
                ((cpu.a + 256 - corr) % 256) as u8
            } else {
                ((cpu.a + corr) % 256) as u8
            };
            SharpSM83 { a: value, f: mk_flags(value == 0, n, false, c_new), ..cpu }
        },
        Instruction::SCF => SharpSM83 { f: mk_flags(flag_z(cpu.f), false, false, true), ..cpu },
        Instruction::CCF => SharpSM83 {
            f: mk_flags(flag_z(cpu.f), false, false, !flag_c(cpu.f)),
            ..cpu
        },
        Instruction::CPL => SharpSM83 {
            a: (255 - cpu.a) as u8,
            f: mk_flags(flag_z(cpu.f), true, true, flag_c(cpu.f)),
            ..cpu
        },
        Instruction::RLCA => {
            let b7 = cpu.a / 128;
            SharpSM83 {
                a: ((cpu.a % 128) * 2 + b7) as u8,
                f: mk_flags(false, false, false, b7 == 1),
                ..cpu
            }
        },
        Instruction::RLA => {
            let b7 = cpu.a / 128;
            let c = spec_carry_bit(cpu.f);
            SharpSM83 {
                a: ((cpu.a % 128) * 2 + c) as u8,
                f: mk_flags(false, false, false, b7 == 1),
                ..cpu
            }
        },
        Instruction::RRCA => {
            let b0 = cpu.a % 2;
            SharpSM83 {
                a: (cpu.a / 2 + b0 * 128) as u8,
                f: mk_flags(false, false, false, b0 == 1),
                ..cpu
            }
        },
        Instruction::RRA => {
            let b0 = cpu.a % 2;
            let c = spec_carry_bit(cpu.f);
            SharpSM83 {
                a: (cpu.a / 2 + c * 128) as u8,
                f: mk_flags(false, false, false, b0 == 1),
                ..cpu
            }
        },
        Instruction::LDSPwHL => SharpSM83 { sp: spec_rr(cpu, 2), ..cpu },
        Instruction::JPHL => SharpSM83 { pc: spec_rr(cpu, 2), ..cpu },
        _ => cpu,
    }
}

/// Semantics of the 8-bit load/store family.
pub open spec fn spec_exec_load8(cpu: SharpSM83, mem: Seq<u8>, instr: Instruction) -> (
    SharpSM83,
    Seq<u8>,
) {
    match instr {
        Instruction::LDRwR(r1, r2) => {
            let v = spec_get_reg(cpu, mem, r2);
            spec_set_reg(cpu, mem, r1, v)
        },
        Instruction::LDRwN(r) => {
            let f1 = spec_fetch(cpu, mem);
            spec_set_reg(f1.0, mem, r, f1.1)
        },
        Instruction::LDH(from, uses_n) => {
            let f1 = if uses_n {
                spec_fetch(cpu, mem)
            } else {
                (cpu, cpu.c)
            };
            let loc = (0xFF00 + f1.1) as u16;
            if from {
                (f1.0, spec_write(mem, loc, f1.0.a))
            } else {
                (SharpSM83 { a: mem[loc as int], ..f1.0 }, mem)
            }
        },
        Instruction::LDAwNNa(from) => {
            let f1 = spec_fetch(cpu, mem);
            let f2 = spec_fetch(f1.0, mem);
            let loc = spec_word(f2.1, f1.1);
            if from {
                (f2.0, spec_write(mem, loc, f2.0.a))
            } else {
                (SharpSM83 { a: mem[loc as int], ..f2.0 }, mem)
            }
        },
        Instruction::LDRRawA(rr) => {
            let ra = spec_rr_addr(cpu, rr);
            (ra.0, spec_write(mem, ra.1, ra.0.a))
        },
        Instruction::LDAwRRa(rr) => {
            let ra = spec_rr_addr(cpu, rr);
            (SharpSM83 { a: mem[ra.1 as int], ..ra.0 }, mem)
        },
        _ => (cpu, mem),
    }
}

/// Semantics of the 16-bit load/store and stack family.
pub open spec fn spec_exec_load16(cpu: SharpSM83, mem: Seq<u8>, instr: Instruction) -> (
    SharpSM83,
    Seq<u8>,
) {
    match instr {
        Instruction::LDrrnn(rr) => {
            let f1 = spec_fetch(cpu, mem);
            let f2 = spec_fetch(f1.0, mem);
            (spec_set_rr(f2.0, rr, spec_word(f2.1, f1.1)), mem)
        },
        Instruction::LDNNawSP => {
            let f1 = spec_fetch(cpu, mem);
            let f2 = spec_fetch(f1.0, mem);
            let loc = spec_word(f2.1, f1.1);
            let m1 = spec_write(mem, loc, spec_lo(f2.0.sp));
            let m2 = spec_write(m1, spec_wrap_inc(loc), spec_hi(f2.0.sp));
            (f2.0, m2)
        },
        Instruction::PUSHrr(rr) => spec_push(cpu, mem, spec_rr_int(cpu, rr)),
        Instruction::POPrr(rr) => {
            let p = spec_pop(cpu, mem);
            (spec_set_rr_int(p.0, rr, p.1), mem)
        },
        Instruction::LDHLwSP => {
            let f1 = spec_fetch(cpu, mem);
            let e = f1.1;
            let sp = f1.0.sp;
            let c1 = spec_set_rr(f1.0, 2, spec_offset_add(sp, e));
            (
                SharpSM83 {
                    f: mk_flags(false, false, sp % 16 + e % 16 > 0xF, sp % 256 + e > 0xFF),
                    ..c1
                },
                mem,
            )
        },
        _ => (cpu, mem),
    }
}

/// Semantics of the 8-bit accumulator ALU family and register inc/dec.
pub open spec fn spec_exec_alu8(cpu: SharpSM83, mem: Seq<u8>, instr: Instruction) -> (
    SharpSM83,
    Seq<u8>,
) {
    match instr {
        Instruction::IncR(r) => {
            let rv = spec_get_reg(cpu, mem, r);
            let result = ((rv + 1) % 256) as u8;
            let sr = spec_set_reg(cpu, mem, r, result);
            (
                SharpSM83 { f: mk_flags(result == 0, false, rv % 16 == 15, flag_c(cpu.f)), ..sr.0 },
                sr.1,
            )
        },
        Instruction::DecR(r) => {
            let rv = spec_get_reg(cpu, mem, r);
            let result = ((rv + 255) % 256) as u8;
            let sr = spec_set_reg(cpu, mem, r, result);
            (
                SharpSM83 { f: mk_flags(result == 0, true, rv % 16 == 0, flag_c(cpu.f)), ..sr.0 },
                sr.1,
            )
        },
        Instruction::Add(r) => (spec_alu_res(cpu, spec_add8(cpu.a, spec_get_reg(cpu, mem, r)), false), mem),
        Instruction::Sub(r) => (spec_alu_res(cpu, spec_sub8(cpu.a, spec_get_reg(cpu, mem, r)), false), mem),
        Instruction::And(r) => (spec_alu_res(cpu, spec_and8(cpu.a, spec_get_reg(cpu, mem, r)), false), mem),
        Instruction::Or(r) => (spec_alu_res(cpu, spec_or8(cpu.a, spec_get_reg(cpu, mem, r)), false), mem),
        Instruction::Adc(r) => (
            spec_alu_res(cpu, spec_adc8(cpu.a, spec_get_reg(cpu, mem, r), spec_carry_bit(cpu.f)), false),
            mem,
        ),
        Instruction::Sbc(r) => (
            spec_alu_res(cpu, spec_sbc8(cpu.a, spec_get_reg(cpu, mem, r), spec_carry_bit(cpu.f)), false),
            mem,
        ),
        Instruction::Xor(r) => (spec_alu_res(cpu, spec_xor8(cpu.a, spec_get_reg(cpu, mem, r)), false), mem),
        Instruction::Cmp(r) => (spec_alu_res(cpu, spec_sub8(cpu.a, spec_get_reg(cpu, mem, r)), true), mem),
        Instruction::Addn => {
            let f1 = spec_fetch(cpu, mem);
            (spec_alu_res(f1.0, spec_add8(cpu.a, f1.1), false), mem)
        },
        Instruction::Subn => {
            let f1 = spec_fetch(cpu, mem);
            (spec_alu_res(f1.0, spec_sub8(cpu.a, f1.1), false), mem)
        },
        Instruction::Andn => {
            let f1 = spec_fetch(cpu, mem);
            (spec_alu_res(f1.0, spec_and8(cpu.a, f1.1), false), mem)
        },
        Instruction::Orn => {
            let f1 = spec_fetch(cpu, mem);
            (spec_alu_res(f1.0, spec_or8(cpu.a, f1.1), false), mem)
        },
        Instruction::Adcn => {
            let f1 = spec_fetch(cpu, mem);
            (spec_alu_res(f1.0, spec_adc8(cpu.a, f1.1, spec_carry_bit(cpu.f)), false), mem)
        },
        Instruction::Sbcn => {
            let f1 = spec_fetch(cpu, mem);
            (spec_alu_res(f1.0, spec_sbc8(cpu.a, f1.1, spec_carry_bit(cpu.f)), false), mem)
        },
        Instruction::Xorn => {
            let f1 = spec_fetch(cpu, mem);
            (spec_alu_res(f1.0, spec_xor8(cpu.a, f1.1), false), mem)
        },
        Instruction::Cmpn => {
            let f1 = spec_fetch(cpu, mem);
            (spec_alu_res(f1.0, spec_sub8(cpu.a, f1.1), true), mem)
        },
        _ => (cpu, mem),
    }
}

/// Semantics of the 16-bit arithmetic family.
pub open spec fn spec_exec_alu16(cpu: SharpSM83, mem: Seq<u8>, instr: Instruction) -> (
    SharpSM83,
    Seq<u8>,
) {
    match instr {
        Instruction::AddSpE => {
            let f1 = spec_fetch(cpu, mem);
            let e = f1.1;
            let sp = f1.0.sp;
            (
                SharpSM83 {
                    sp: spec_offset_add(sp, e),
                    f: mk_flags(false, false, sp % 16 + e % 16 > 0xF, sp % 256 + e > 0xFF),
                    ..f1.0
                },
                mem,
            )
        },
        Instruction::INCrr(rr) => (spec_set_rr(cpu, rr, spec_wrap_inc(spec_rr(cpu, rr))), mem),
        Instruction::DECrr(rr) => (spec_set_rr(cpu, rr, spec_wrap_dec(spec_rr(cpu, rr))), mem),
        Instruction::ADDHLrr(rr) => {
            let v = spec_rr(cpu, rr);
            let hl = spec_rr(cpu, 2);
            let c1 = SharpSM83 {
                f: mk_flags(flag_z(cpu.f), false, hl % 4096 + v % 4096 > 0xFFF, hl + v > 0xFFFF),
                ..cpu
            };
            (spec_set_rr(c1, 2, ((hl + v) % 65536) as u16), mem)
        },
        _ => (cpu, mem),
    }
}

/// Semantics of jumps, calls, returns, restarts, and the forced
/// interrupt call.
pub open spec fn spec_exec_jump(cpu: SharpSM83, mem: Seq<u8>, instr: Instruction) -> (
    SharpSM83,
    Seq<u8>,
) {
    match instr {
        Instruction::JPnn => {
            let f1 = spec_fetch(cpu, mem);
            let f2 = spec_fetch(f1.0, mem);
            (SharpSM83 { pc: spec_word(f2.1, f1.1), ..f2.0 }, mem)
        },
        Instruction::JPccnn(cc) => {
            let f1 = spec_fetch(cpu, mem);
            let f2 = spec_fetch(f1.0, mem);
            if spec_cc(cpu, cc) {
                (SharpSM83 { pc: spec_word(f2.1, f1.1), ..f2.0 }, mem)
            } else {
                (f2.0, mem)
            }
        },
        Instruction::JRe => {
            let f1 = spec_fetch(cpu, mem);
            (SharpSM83 { pc: spec_offset_add(f1.0.pc, f1.1), ..f1.0 }, mem)
        },
        Instruction::JRcce(cc) => {
            let f1 = spec_fetch(cpu, mem);
            if spec_cc(cpu, cc) {
                (SharpSM83 { pc: spec_offset_add(f1.0.pc, f1.1), ..f1.0 }, mem)
            } else {
                (f1.0, mem)
            }
        },
        Instruction::CALLnn => spec_call(cpu, mem, true),
        Instruction::CALLccnn(cc) => spec_call(cpu, mem, spec_cc(cpu, cc)),
        Instruction::RSTn(n) => {
            let p = spec_push(cpu, mem, cpu.pc);
            (SharpSM83 { pc: spec_rst_vector(n), ..p.0 }, p.1)
        },
        Instruction::RET => spec_ret(cpu, mem, true, false),
        Instruction::RETcc(cc) => spec_ret(cpu, mem, spec_cc(cpu, cc), false),
        Instruction::RETI => spec_ret(cpu, mem, true, true),
        Instruction::INTn(nn) => spec_int(cpu, mem, nn),
        _ => (cpu, mem),
    }
}

/// The execution engine's transition relation: what one decoded
/// instruction does to the register file and the bus, and whether it
/// aborts emulation. Operand bytes are fetched at the program counter as
/// part of the instruction, low byte first for 16-bit immediates.
pub open spec fn spec_execute(cpu: SharpSM83, mem: Seq<u8>, instr: Instruction) -> (
    SharpSM83,
    Seq<u8>,
    Option<Fault>,
) {
    match instr {
        Instruction::ErrInstr { opcode } => {
            if spec_illegal(opcode) {
                (cpu, mem, Option::Some(Fault { opcode, pc: cpu.pc }))
            } else {
                (
                    SharpSM83 {
                        undefined_seen: if cpu.undefined_seen < usize::MAX {
                            (cpu.undefined_seen + 1) as usize
                        } else {
                            cpu.undefined_seen
                        },
                        ..cpu
                    },
                    mem,
                    Option::None,
                )
            }
        },
        Instruction::CB => {
            let f1 = spec_fetch(cpu, mem);
            let r = spec_execute_prefix(f1.0, mem, spec_decode_cb(f1.1));
            (r.0, r.1, Option::None)
        },
        _ => {
            let r = if is_misc_instr(instr) {
                (spec_exec_misc(cpu, instr), mem)
            } else if is_load8_instr(instr) {
                spec_exec_load8(cpu, mem, instr)
            } else if is_load16_instr(instr) {
                spec_exec_load16(cpu, mem, instr)
            } else if is_alu8_instr(instr) {
                spec_exec_alu8(cpu, mem, instr)
            } else if is_alu16_instr(instr) {
                spec_exec_alu16(cpu, mem, instr)
            } else if is_prefix_instr(instr) {
                spec_execute_prefix(cpu, mem, instr)
            } else {
                spec_exec_jump(cpu, mem, instr)
            };
            (r.0, r.1, Option::None)
        },
    }
}

/// A signed 8-bit displacement added to a 16-bit base, wrapping.
fn offset_add(base: u16, e: u8) -> (r: u16)
    ensures
        r == spec_offset_add(base, e),
{
    if e < 128 {
        (((base as u32) + e as u32) % 65536) as u16
    } else {
        (((base as u32) + e as u32 + 0xFF00) % 65536) as u16
    }
}

/// Membership in the fixed lock-up set.
fn is_illegal(opcode: u8) -> (r: bool)
    ensures
        r == spec_illegal(opcode),
{
    opcode == 0xD3 || opcode == 0xE3 || opcode == 0xE4 || opcode == 0xF4 || opcode == 0xDB
        || opcode == 0xEB || opcode == 0xEC || opcode == 0xFC || opcode == 0xDD || opcode == 0xED
        || opcode == 0xFD
}

impl SharpSM83 {
    /// Bus-free miscellaneous instructions.
    fn exec_misc(&mut self, instr: Instruction)
        ensures
            *final(self) == spec_exec_misc(*old(self), instr),
            old(self).wf() ==> final(self).wf(),
    {
        proof {
            crate::bytes::lemma_mk_flags_all();
        }
        match instr {
            Instruction::NOP => {},
            Instruction::STOP => {
                self.stop = true;
            },
            Instruction::HALT => {
                self.halt = true;
            },
            Instruction::DI => {
                self.ime = 0;
            },
            Instruction::EI => {
                self.ime = 1;
            },
            Instruction::DAA => {
                let n_flag: bool = self.f / 64 % 2 == 1;
                let h_flag: bool = self.f / 32 % 2 == 1;
                let c_flag: bool = self.f / 16 % 2 == 1;
                let mut correction: u8 = 0;
                if h_flag || (!n_flag && self.a % 16 > 0x9) {
                    correction = 6;
                }
                let set_c: bool = c_flag || (!n_flag && self.a > 0x99);
                if set_c {
                    correction = correction + 0x60;
                }
                let value: u8 = if n_flag {
                    (((self.a as u16) + 256 - correction as u16) % 256) as u8
                } else {
                    (((self.a as u16) + correction as u16) % 256) as u8
                };
                self.set_flags(value == 0, n_flag, false, set_c);
                self.a = value;
            },
            Instruction::SCF => {
                let z: bool = self.get_flag_bit(FLAG_Z) == 1;
                self.set_flags(z, false, false, true);
            },
            Instruction::CCF => {
                let z: bool = self.get_flag_bit(FLAG_Z) == 1;
                let c: bool = self.get_flag_bit(FLAG_C) == 1;
                self.set_flags(z, false, false, !c);
            },
            Instruction::CPL => {
                self.a = 255 - self.a;
                let z: bool = self.get_flag_bit(FLAG_Z) == 1;
                let c: bool = self.get_flag_bit(FLAG_C) == 1;
                self.set_flags(z, true, true, c);
            },
            Instruction::RLCA => {
                let b7: u8 = self.a / 128;
                self.a = self.a % 128 * 2 + b7;
                self.set_flags(false, false, false, b7 == 1);
            },
            Instruction::RLA => {
                let b7: u8 = self.a / 128;
                let cb: u8 = self.get_flag_bit(FLAG_C);
                self.a = self.a % 128 * 2 + cb;
                self.set_flags(false, false, false, b7 == 1);
            },
            Instruction::RRCA => {
                let b0: u8 = self.a % 2;
                self.a = self.a / 2 + b0 * 128;
                self.set_flags(false, false, false, b0 == 1);
            },
            Instruction::RRA => {
                let b0: u8 = self.a % 2;
                let cb: u8 = self.get_flag_bit(FLAG_C);
                self.a = self.a / 2 + cb * 128;
                self.set_flags(false, false, false, b0 == 1);
            },
            Instruction::LDSPwHL => {
                let hl: u16 = self.get_reg_view(2);
                self.sp = hl;
            },
            Instruction::JPHL => {
                let hl: u16 = self.get_reg_view(2);
                self.pc = hl;
            },
            _ => {},
        }
    }

    /// 8-bit load/store family.
    fn exec_load8(&mut self, instr: Instruction, memory: &mut Memory)
        requires
            old(memory).wf(),
            wf_instr(instr),
            is_load8_instr(instr),
        ensures
            *final(self) == spec_exec_load8(*old(self), old(memory)@, instr).0,
            final(memory)@ == spec_exec_load8(*old(self), old(memory)@, instr).1,
            final(memory).wf(),
            old(self).wf() ==> final(self).wf(),
    {
        match instr {
            Instruction::LDRwR(r1, r2) => {
                let v: u8 = self.get_reg(r2, memory);
                self.set_reg(r1, v, memory);
            },
            Instruction::LDRwN(r) => {
                let n: u8 = self.fetch(memory);
                self.set_reg(r, n, memory);
            },
            Instruction::LDH(from, uses_n) => {
                let off: u8 = if uses_n {
                    self.fetch(memory)
                } else {
                    self.get_reg_int(1)
                };
                let loc: u16 = u8_to_u16(0xFF, off);
                if from {
                    let av: u8 = self.get_reg_int(7);
                    self.write(loc, av, memory);
                } else {
                    let v: u8 = memory.read(loc);
                    self.set_reg_int(7, v);
                }
            },
            Instruction::LDAwNNa(from) => {
                let lsb: u8 = self.fetch(memory);
                let msb: u8 = self.fetch(memory);
                let loc: u16 = u8_to_u16(msb, lsb);
                if from {
                    let av: u8 = self.get_reg_int(7);
                    self.write(loc, av, memory);
                } else {
                    let v: u8 = memory.read(loc);
                    self.set_reg(7, v, memory);
                }
            },
            Instruction::LDRRawA(rr) => {
                let loc: u16 = self.get_reg_view_addr(rr);
                let av: u8 = self.get_reg_int(7);
                self.write(loc, av, memory);
            },
            Instruction::LDAwRRa(rr) => {
                let loc: u16 = self.get_reg_view_addr(rr);
                let v: u8 = memory.read(loc);
                self.set_reg(7, v, memory);
            },
            _ => {},
        }
    }

    /// 16-bit load/store and stack family.
    fn exec_load16(&mut self, instr: Instruction, memory: &mut Memory)
        requires
            old(memory).wf(),
            wf_instr(instr),
            is_load16_instr(instr),
        ensures
            *final(self) == spec_exec_load16(*old(self), old(memory)@, instr).0,
            final(memory)@ == spec_exec_load16(*old(self), old(memory)@, instr).1,
            final(memory).wf(),
            old(self).wf() ==> final(self).wf(),
    {
        proof {
            crate::bytes::lemma_mk_flags_all();
        }
        match instr {
            Instruction::LDrrnn(rr) => {
                let lsb: u8 = self.fetch(memory);
                let msb: u8 = self.fetch(memory);
                self.set_rr(rr, u8_to_u16(msb, lsb));
            },
            Instruction::LDNNawSP => {
                let lsb: u8 = self.fetch(memory);
                let msb: u8 = self.fetch(memory);
                let loc: u16 = u8_to_u16(msb, lsb);
                let lo: u8 = low_u16(self.sp);
                self.write(loc, lo, memory);
                let hi: u8 = high_u16(self.sp);
                let loc2: u16 = (((loc as u32) + 1) % 65536) as u16;
                self.write(loc2, hi, memory);
            },
            Instruction::PUSHrr(rr) => {
                let v: u16 = self.get_reg_view_int(rr);
                self.push_word(v, memory);
            },
            Instruction::POPrr(rr) => {
                let v: u16 = self.pop_word(memory);
                self.set_reg_view_int(rr, v);
            },
            Instruction::LDHLwSP => {
                let e: u8 = self.fetch(memory);
                let sp: u16 = self.sp;
                let hl: u16 = offset_add(sp, e);
                self.set_rr(2, hl);
                self.set_flags(
                    false,
                    false,
                    sp % 16 + (e % 16) as u16 > 0xF,
                    sp % 256 + e as u16 > 0xFF,
                );
            },
            _ => {},
        }
    }

    /// 8-bit accumulator arithmetic/logic and register inc/dec.
    #[verifier::rlimit(100)]
    fn exec_alu8(&mut self, instr: Instruction, memory: &mut Memory)
        requires
            old(memory).wf(),
            wf_instr(instr),
            is_alu8_instr(instr),
        ensures
            *final(self) == spec_exec_alu8(*old(self), old(memory)@, instr).0,
            final(memory)@ == spec_exec_alu8(*old(self), old(memory)@, instr).1,
            final(memory).wf(),
            old(self).wf() ==> final(self).wf(),
    {
        proof {
            crate::bytes::lemma_mk_flags_all();
        }
        match instr {
            Instruction::IncR(r) => {
                let rv: u8 = self.get_reg(r, memory);
                let result: u8 = (((rv as u16) + 1) % 256) as u8;
                self.set_reg(r, result, memory);
                let carry: bool = self.f / 16 % 2 == 1;
                self.set_flags(result == 0, false, rv % 16 == 15, carry);
            },
            Instruction::DecR(r) => {
                let rv: u8 = self.get_reg(r, memory);
                let result: u8 = (((rv as u16) + 255) % 256) as u8;
                self.set_reg(r, result, memory);
                let carry: bool = self.f / 16 % 2 == 1;
                self.set_flags(result == 0, true, rv % 16 == 0, carry);
            },
            _ => {
                let n: u8 = match instr {
                    Instruction::Addn | Instruction::Subn | Instruction::Andn | Instruction::Orn
                        | Instruction::Adcn | Instruction::Sbcn | Instruction::Xorn
                        | Instruction::Cmpn => self.fetch(memory),
                    Instruction::Add(r) | Instruction::Sub(r) | Instruction::And(r)
                        | Instruction::Or(r) | Instruction::Adc(r) | Instruction::Sbc(r)
                        | Instruction::Xor(r) | Instruction::Cmp(r) => self.get_reg(r, memory),
                    _ => 0,
                };
                let result: (u8, u8) = match instr {
                    Instruction::Add(_) | Instruction::Addn => u8_add(self.a, n),
                    Instruction::Sub(_) | Instruction::Subn => u8_sub(self.a, n),
                    Instruction::And(_) | Instruction::Andn => u8_and(self.a, n),
                    Instruction::Or(_) | Instruction::Orn => u8_or(self.a, n),
                    Instruction::Adc(_) | Instruction::Adcn => {
                        let cb: u8 = self.get_flag_bit(FLAG_C);
                        u8_addc(self.a, n, cb)
                    },
                    Instruction::Sbc(_) | Instruction::Sbcn => {
                        let cb: u8 = self.get_flag_bit(FLAG_C);
                        u8_subc(self.a, n, cb)
                    },
                    Instruction::Xor(_) | Instruction::Xorn => u8_xor(self.a, n),
                    _ => u8_cmp(self.a, n),
                };
                match instr {
                    Instruction::Cmp(_) | Instruction::Cmpn => {},
                    _ => self.a = result.0,
                }
                self.f = result.1;
            },
        }
    }

    /// 16-bit arithmetic: pair inc/dec, pair add to H:L, and the signed
    /// stack-pointer displacement add with its 8-bit flag rule.
    fn exec_alu16(&mut self, instr: Instruction, memory: &mut Memory)
        requires
            wf_instr(instr),
            is_alu16_instr(instr),
            instr == Instruction::AddSpE ==> old(memory).wf(),
        ensures
            *final(self) == spec_exec_alu16(*old(self), old(memory)@, instr).0,
            final(memory)@ == spec_exec_alu16(*old(self), old(memory)@, instr).1,
            *final(memory) == *old(memory),
            old(self).wf() ==> final(self).wf(),
    {
        proof {
            crate::bytes::lemma_mk_flags_all();
        }
        match instr {
            Instruction::AddSpE => {
                let e: u8 = self.fetch(memory);
                let sp: u16 = self.sp;
                self.sp = offset_add(sp, e);
                self.set_flags(
                    false,
                    false,
                    sp % 16 + (e % 16) as u16 > 0xF,
                    sp % 256 + e as u16 > 0xFF,
                );
            },
            Instruction::INCrr(rr) => {
                let v: u16 = self.get_reg_view(rr);
                let r2 = u16_add(v, 1);
                self.set_rr(rr, r2.0);
            },
            Instruction::DECrr(rr) => {
                let v: u16 = self.get_reg_view(rr);
                let r2 = u16_sub(v, 1);
                self.set_rr(rr, r2.0);
            },
            Instruction::ADDHLrr(rr) => {
                let v: u16 = self.get_reg_view(rr);
                let hl: u16 = self.get_reg_view(2);
                let r2 = u16_add(hl, v);
                let z: bool = self.f / 128 % 2 == 1;
                self.set_flags(z, false, r2.2, r2.1);
                self.set_rr(2, r2.0);
            },
            _ => {},
        }
    }

    /// Control flow: jumps, calls, returns, restarts, and the forced
    /// interrupt call.
    fn exec_jump(&mut self, instr: Instruction, memory: &mut Memory)
        requires
            old(memory).wf(),
            wf_instr(instr),
            is_jump_instr(instr),
        ensures
            *final(self) == spec_exec_jump(*old(self), old(memory)@, instr).0,
            final(memory)@ == spec_exec_jump(*old(self), old(memory)@, instr).1,
            final(memory).wf(),
            old(self).wf() ==> final(self).wf(),
    {
        match instr {
            Instruction::JPnn => {
                let lsb: u8 = self.fetch(memory);
                let msb: u8 = self.fetch(memory);
                self.pc = u8_to_u16(msb, lsb);
            },
            Instruction::JPccnn(cc) => {
                let lsb: u8 = self.fetch(memory);
                let msb: u8 = self.fetch(memory);
                let nn: u16 = u8_to_u16(msb, lsb);
                if self.check_conditions(cc) {
                    self.pc = nn;
                }
            },
            Instruction::JRe => {
                let e: u8 = self.fetch(memory);
                self.pc = offset_add(self.pc, e);
            },
            Instruction::JRcce(cc) => {
                let e: u8 = self.fetch(memory);
                if self.check_conditions(cc) {
                    self.pc = offset_add(self.pc, e);
                }
            },
            Instruction::CALLnn | Instruction::CALLccnn(_) => {
                let lsb: u8 = self.fetch(memory);
                let msb: u8 = self.fetch(memory);
                let nn: u16 = u8_to_u16(msb, lsb);
                let taken: bool = match instr {
                    Instruction::CALLccnn(cc) => self.check_conditions(cc),
                    _ => true,
                };
                if taken {
                    let pc: u16 = self.pc;
                    self.push_word(pc, memory);
                    self.pc = nn;
                }
            },
            Instruction::RSTn(n) => {
                let pc: u16 = self.pc;
                self.push_word(pc, memory);
                self.pc = rst_vector(n);
            },
            Instruction::RET | Instruction::RETcc(_) | Instruction::RETI => {
                let taken: bool = match instr {
                    Instruction::RETcc(cc) => self.check_conditions(cc),
                    _ => true,
                };
                if taken {
                    let v: u16 = self.pop_word(memory);
                    match instr {
                        Instruction::RETI => self.ime = 1,
                        _ => {},
                    }
                    self.pc = v;
                }
            },
            Instruction::INTn(nn) => {
                self.int_call(nn, memory);
            },
            _ => {},
        }
    }

    /// Execute one instruction of the extended (0xCB) table.
    #[verifier::rlimit(100)]
    fn execute_prefix(&mut self, instr: Instruction, memory: &mut Memory)
        requires
            old(memory).wf(),
            wf_instr(instr),
        ensures
            *final(self) == spec_execute_prefix(*old(self), old(memory)@, instr).0,
            final(memory)@ == spec_execute_prefix(*old(self), old(memory)@, instr).1,
            final(memory).wf(),
            old(self).wf() ==> final(self).wf(),
    {
        proof {
            crate::bytes::lemma_mk_flags_all();
        }
        match instr {
            Instruction::RLCr(r) => {
                let rv: u8 = self.get_reg(r, memory);
                let b: u8 = rv / 128;
                self.shift_finish(r, rv % 128 * 2 + b, b == 1, memory);
            },
            Instruction::RLr(r) => {
                let rv: u8 = self.get_reg(r, memory);
                let b: u8 = rv / 128;
                let cb: u8 = self.get_flag_bit(FLAG_C);
                self.shift_finish(r, rv % 128 * 2 + cb, b == 1, memory);
            },
            Instruction::SLAr(r) => {
                let rv: u8 = self.get_reg(r, memory);
                let b: u8 = rv / 128;
                self.shift_finish(r, rv % 128 * 2, b == 1, memory);
            },
            Instruction::RRCr(r) => {
                let rv: u8 = self.get_reg(r, memory);
                let b: u8 = rv % 2;
                self.shift_finish(r, rv / 2 + b * 128, b == 1, memory);
            },
            Instruction::RRr(r) => {
                let rv: u8 = self.get_reg(r, memory);
                let b: u8 = rv % 2;
                let cb: u8 = self.get_flag_bit(FLAG_C);
                self.shift_finish(r, rv / 2 + cb * 128, b == 1, memory);
            },
            Instruction::SRAr(r) => {
                let rv: u8 = self.get_reg(r, memory);
                let b: u8 = rv % 2;
                self.shift_finish(r, rv / 2 + rv / 128 * 128, b == 1, memory);
            },
            Instruction::SRLr(r) => {
                let rv: u8 = self.get_reg(r, memory);
                let b: u8 = rv % 2;
                self.shift_finish(r, rv / 2, b == 1, memory);
            },
            Instruction::SWAPr(r) => {
                let rv: u8 = self.get_reg(r, memory);
                let res: u8 = rv % 16 * 16 + rv / 16;
                self.set_reg(r, res, memory);
                self.set_flags(rv == 0, false, false, false);
            },
            Instruction::BITnr { n, r } => {
                let rv: u8 = self.get_reg(r, memory);
                let bset: bool = bit_u8(rv, n);
                let carry: bool = self.f / 16 % 2 == 1;
                self.set_flags(!bset, false, true, carry);
            },
            Instruction::RESnr { n, r } => {
                let rv: u8 = self.get_reg(r, memory);
                let res: u8 = set_bit(rv, n, false);
                self.set_reg(r, res, memory);
            },
            Instruction::SETnr { n, r } => {
                let rv: u8 = self.get_reg(r, memory);
                let res: u8 = set_bit(rv, n, true);
                self.set_reg(r, res, memory);
            },
            _ => {},
        }
    }

    /// Shared write-back of the rotate/shift forms.
    fn shift_finish(&mut self, r: u8, res: u8, carry: bool, memory: &mut Memory)
        requires
            old(memory).wf(),
        ensures
            *final(self) == spec_shift_res(*old(self), old(memory)@, r, res, carry).0,
            final(memory)@ == spec_shift_res(*old(self), old(memory)@, r, res, carry).1,
            final(memory).wf(),
    {
        self.set_reg(r, res, memory);
        self.set_flags(res == 0, false, false, carry);
    }

    /// Apply one decoded instruction to the register file and the bus.
    ///
    /// Reserved-undefined opcodes are recorded and skipped; the fixed
    /// lock-up set stops emulation with a [`Fault`] and leaves CPU and
    /// bus untouched.
    #[verifier::rlimit(100)]
    pub fn execute(&mut self, instr: Instruction, memory: &mut Memory) -> (r: Result<(), Fault>)
        requires
            wf_instr(instr),
            old(memory).wf() || spec_mem_free_instr(instr),
        ensures
            *final(self) == spec_execute(*old(self), old(memory)@, instr).0,
            final(memory)@ == spec_execute(*old(self), old(memory)@, instr).1,
            (match spec_execute(*old(self), old(memory)@, instr).2 {
                Option::Some(ft) => r == Result::<(), Fault>::Err(ft),
                Option::None => r == Result::<(), Fault>::Ok(()),
            }),
            old(self).wf() ==> final(self).wf(),
            old(memory).wf() ==> final(memory).wf(),
    {
        match instr {
            Instruction::ErrInstr { opcode } => {
                if is_illegal(opcode) {
                    return Result::Err(Fault { opcode, pc: self.pc });
                }
                if self.undefined_seen < usize::MAX {
                    self.undefined_seen = self.undefined_seen + 1;
                }
                Result::Ok(())
            },
            Instruction::NOP | Instruction::STOP | Instruction::HALT | Instruction::DI
                | Instruction::EI | Instruction::DAA | Instruction::SCF | Instruction::CCF
                | Instruction::CPL | Instruction::RLCA | Instruction::RLA | Instruction::RRCA
                | Instruction::RRA | Instruction::LDSPwHL | Instruction::JPHL => {
                self.exec_misc(instr);
                Result::Ok(())
            },
            Instruction::LDRwR(..) | Instruction::LDRwN(..) | Instruction::LDH(..)
                | Instruction::LDAwNNa(..) | Instruction::LDRRawA(..) | Instruction::LDAwRRa(..) => {
                self.exec_load8(instr, memory);
                Result::Ok(())
            },
            Instruction::LDrrnn(..) | Instruction::LDNNawSP | Instruction::PUSHrr(..)
                | Instruction::POPrr(..) | Instruction::LDHLwSP => {
                self.exec_load16(instr, memory);
                Result::Ok(())
            },
            Instruction::Add(..) | Instruction::Adc(..) | Instruction::Sub(..)
                | Instruction::Sbc(..) | Instruction::And(..) | Instruction::Or(..)
                | Instruction::Xor(..) | Instruction::Cmp(..) | Instruction::Addn
                | Instruction::Adcn | Instruction::Subn | Instruction::Sbcn | Instruction::Andn
                | Instruction::Orn | Instruction::Xorn | Instruction::Cmpn | Instruction::IncR(..)
                | Instruction::DecR(..) => {
                self.exec_alu8(instr, memory);
                Result::Ok(())
            },
            Instruction::AddSpE | Instruction::INCrr(..) | Instruction::DECrr(..)
                | Instruction::ADDHLrr(..) => {
                self.exec_alu16(instr, memory);
                Result::Ok(())
            },
            Instruction::CB => {
                let cb_opcode: u8 = self.fetch(memory);
                let prefix_instr: Instruction = Instruction::decode_cb(cb_opcode);
                self.execute_prefix(prefix_instr, memory);
                Result::Ok(())
            },
            Instruction::RLCr(..) | Instruction::RLr(..) | Instruction::RRCr(..)
                | Instruction::RRr(..) | Instruction::SLAr(..) | Instruction::SRAr(..)
                | Instruction::SRLr(..) | Instruction::SWAPr(..) | Instruction::BITnr { .. }
                | Instruction::RESnr { .. } | Instruction::SETnr { .. } => {
                self.execute_prefix(instr, memory);
                Result::Ok(())
            },
            Instruction::JPnn | Instruction::JPccnn(..) | Instruction::JRe | Instruction::JRcce(..)
                | Instruction::CALLnn | Instruction::CALLccnn(..) | Instruction::RET
                | Instruction::RETcc(..) | Instruction::RETI | Instruction::RSTn(..)
                | Instruction::INTn(..) => {
                self.exec_jump(instr, memory);
                Result::Ok(())
            },
        }
    }
}

/// Fixed service vector of interrupt source `i`, in priority order.
pub open spec fn spec_vector_of(i: u8) -> u16 {
    if i == 0 {
        0x40
    } else if i == 1 {
        0x48
    } else if i == 2 {
        0x50
    } else if i == 3 {
        0x58
    } else {
        0x60
    }
}

/// Service interrupt source `i`: clear its pending bit, then make the
/// forced call to its vector.
pub open spec fn spec_service_one(cpu: SharpSM83, mem: Seq<u8>, i: u8) -> (SharpSM83, Seq<u8>) {
    let ifr = mem[IF as int];
    let m1 = spec_write(mem, IF, (ifr - spec_pow2_u8(i)) as u8);
    spec_int(cpu, m1, spec_vector_of(i))
}

/// The interrupt controller's scan: the first source, in fixed priority
/// order, that is both pending and enabled is serviced.
pub open spec fn spec_service(cpu: SharpSM83, mem: Seq<u8>) -> (SharpSM83, Seq<u8>) {
    let ifr = mem[IF as int];
    let ier = mem[IE as int];
    if spec_pending_enabled(ifr, ier, 0) {
        spec_service_one(cpu, mem, 0)
    } else if spec_pending_enabled(ifr, ier, 1) {
        spec_service_one(cpu, mem, 1)
    } else if spec_pending_enabled(ifr, ier, 2) {
        spec_service_one(cpu, mem, 2)
    } else if spec_pending_enabled(ifr, ier, 3) {
        spec_service_one(cpu, mem, 3)
    } else if spec_pending_enabled(ifr, ier, 4) {
        spec_service_one(cpu, mem, 4)
    } else {
        (cpu, mem)
    }
}

/// One scheduling dispatch: a stopped CPU does nothing; a halted CPU is
/// woken by any pending-and-enabled source; with master enable set a
/// pending-and-enabled source vectors and consumes the slot; otherwise
/// one instruction is fetched, decoded and executed. The result gives
/// the clock units consumed, or nothing when an illegal opcode aborted.
#[verifier::opaque]
pub open spec fn spec_run(cpu: SharpSM83, mem: Seq<u8>) -> (SharpSM83, Seq<u8>, Option<usize>) {
    if cpu.stop {
        (cpu, mem, Option::Some(0usize))
    } else {
        let cpu0 = if cpu.halt && spec_any_pending(mem[IF as int], mem[IE as int]) {
            SharpSM83 { halt: false, ..cpu }
        } else {
            cpu
        };
        if cpu0.ime == 1 && spec_any_pending(mem[IF as int], mem[IE as int]) {
            let s = spec_service(cpu0, mem);
            (s.0, s.1, Option::Some(4usize))
        } else if !cpu0.halt {
            let f1 = spec_fetch(cpu0, mem);
            let e = spec_execute(f1.0, mem, spec_decode(f1.1));
            match e.2 {
                Option::Some(ft) => (SharpSM83 { fault: Option::Some(ft), ..e.0 }, e.1, Option::None),
                Option::None => (
                    SharpSM83 {
                        instructions_executed: (e.0.instructions_executed + 1) as usize,
                        ..e.0
                    },
                    e.1,
                    Option::Some(4usize),
                ),
            }
        } else {
            (cpu0, mem, Option::Some(4usize))
        }
    }
}

/// One raw fetch/decode/execute step, without the interrupt controller
/// or the halt and stop states.
pub open spec fn spec_raw_run(cpu: SharpSM83, mem: Seq<u8>) -> (SharpSM83, Seq<u8>, Option<
    Fault,
>) {
    let f1 = spec_fetch(cpu, mem);
    spec_execute(f1.0, mem, spec_decode(f1.1))
}

/// No instruction changes the retirement counter or the recorded fault;
/// only the dispatch loop does.
proof fn lemma_set_reg_preserves(cpu: SharpSM83, mem: Seq<u8>, reg: u8, n: u8)
    ensures
        spec_set_reg(cpu, mem, reg, n).0.instructions_executed == cpu.instructions_executed,
        spec_set_reg(cpu, mem, reg, n).0.fault == cpu.fault,
{
}

proof fn lemma_shift_res_preserves(cpu: SharpSM83, mem: Seq<u8>, r: u8, res: u8, carry: bool)
    ensures
        spec_shift_res(cpu, mem, r, res, carry).0.instructions_executed
            == cpu.instructions_executed,
        spec_shift_res(cpu, mem, r, res, carry).0.fault == cpu.fault,
{
    lemma_set_reg_preserves(cpu, mem, r, res);
}

proof fn lemma_prefix_preserves(cpu: SharpSM83, mem: Seq<u8>, instr: Instruction)
    ensures
        spec_execute_prefix(cpu, mem, instr).0.instructions_executed == cpu.instructions_executed,
        spec_execute_prefix(cpu, mem, instr).0.fault == cpu.fault,
{
    match instr {
        Instruction::RLCr(r) => {
            let rv = spec_get_reg(cpu, mem, r);
            let b = rv / 128;
            lemma_shift_res_preserves(cpu, mem, r, ((rv % 128) * 2 + b) as u8, b == 1);
        },
        Instruction::RLr(r) => {
            let rv = spec_get_reg(cpu, mem, r);
            let b = rv / 128;
            let c = spec_carry_bit(cpu.f);
            lemma_shift_res_preserves(cpu, mem, r, ((rv % 128) * 2 + c) as u8, b == 1);
        },
        Instruction::SLAr(r) => {
            let rv = spec_get_reg(cpu, mem, r);
            let b = rv / 128;
            lemma_shift_res_preserves(cpu, mem, r, ((rv % 128) * 2) as u8, b == 1);
        },
        Instruction::RRCr(r) => {
            let rv = spec_get_reg(cpu, mem, r);
            let b = rv % 2;
            lemma_shift_res_preserves(cpu, mem, r, (rv / 2 + b * 128) as u8, b == 1);
        },
        Instruction::RRr(r) => {
            let rv = spec_get_reg(cpu, mem, r);
            let b = rv % 2;
            let c = spec_carry_bit(cpu.f);
            lemma_shift_res_preserves(cpu, mem, r, (rv / 2 + c * 128) as u8, b == 1);
        },
        Instruction::SRAr(r) => {
            let rv = spec_get_reg(cpu, mem, r);
            let b = rv % 2;
            lemma_shift_res_preserves(cpu, mem, r, (rv / 2 + (rv / 128) * 128) as u8, b == 1);
        },
        Instruction::SRLr(r) => {
            let rv = spec_get_reg(cpu, mem, r);
            let b = rv % 2;
            lemma_shift_res_preserves(cpu, mem, r, (rv / 2) as u8, b == 1);
        },
        Instruction::SWAPr(r) => {
            let rv = spec_get_reg(cpu, mem, r);
            lemma_set_reg_preserves(cpu, mem, r, ((rv % 16) * 16 + rv / 16) as u8);
        },
        Instruction::BITnr { n, r } => {
        },
        Instruction::RESnr { n, r } => {
            let rv = spec_get_reg(cpu, mem, r);
            lemma_set_reg_preserves(cpu, mem, r, spec_set_bit(rv, n, false));
        },
        Instruction::SETnr { n, r } => {
            let rv = spec_get_reg(cpu, mem, r);
            lemma_set_reg_preserves(cpu, mem, r, spec_set_bit(rv, n, true));
        },
        _ => {
        },
    }
}

proof fn lemma_misc_preserves(cpu: SharpSM83, instr: Instruction)
    ensures
        spec_exec_misc(cpu, instr).instructions_executed == cpu.instructions_executed,
        spec_exec_misc(cpu, instr).fault == cpu.fault,
{
}

proof fn lemma_load8_preserves(cpu: SharpSM83, mem: Seq<u8>, instr: Instruction)
    ensures
        spec_exec_load8(cpu, mem, instr).0.instructions_executed == cpu.instructions_executed,
        spec_exec_load8(cpu, mem, instr).0.fault == cpu.fault,
{
}

proof fn lemma_load16_preserves(cpu: SharpSM83, mem: Seq<u8>, instr: Instruction)
    ensures
        spec_exec_load16(cpu, mem, instr).0.instructions_executed == cpu.instructions_executed,
        spec_exec_load16(cpu, mem, instr).0.fault == cpu.fault,
{
}

proof fn lemma_alu8_preserves(cpu: SharpSM83, mem: Seq<u8>, instr: Instruction)
    ensures
        spec_exec_alu8(cpu, mem, instr).0.instructions_executed == cpu.instructions_executed,
        spec_exec_alu8(cpu, mem, instr).0.fault == cpu.fault,
{
}

proof fn lemma_alu16_preserves(cpu: SharpSM83, mem: Seq<u8>, instr: Instruction)
    ensures
        spec_exec_alu16(cpu, mem, instr).0.instructions_executed == cpu.instructions_executed,
        spec_exec_alu16(cpu, mem, instr).0.fault == cpu.fault,
{
}

proof fn lemma_jump_preserves(cpu: SharpSM83, mem: Seq<u8>, instr: Instruction)
    ensures
        spec_exec_jump(cpu, mem, instr).0.instructions_executed == cpu.instructions_executed,
        spec_exec_jump(cpu, mem, instr).0.fault == cpu.fault,
{
}

pub proof fn lemma_execute_preserves(cpu: SharpSM83, mem: Seq<u8>, instr: Instruction)
    ensures
        spec_execute(cpu, mem, instr).0.instructions_executed == cpu.instructions_executed,
        spec_execute(cpu, mem, instr).0.fault == cpu.fault,
{
    match instr {
        Instruction::ErrInstr { opcode } => {
        },
        Instruction::CB => {
            let f1 = spec_fetch(cpu, mem);
            lemma_prefix_preserves(f1.0, mem, spec_decode_cb(f1.1));
        },
        _ => {
            if is_misc_instr(instr) {
                lemma_misc_preserves(cpu, instr);
            } else if is_load8_instr(instr) {
                lemma_load8_preserves(cpu, mem, instr);
            } else if is_load16_instr(instr) {
                lemma_load16_preserves(cpu, mem, instr);
            } else if is_alu8_instr(instr) {
                lemma_alu8_preserves(cpu, mem, instr);
            } else if is_alu16_instr(instr) {
                lemma_alu16_preserves(cpu, mem, instr);
            } else if is_prefix_instr(instr) {
                lemma_prefix_preserves(cpu, mem, instr);
            } else {
                lemma_jump_preserves(cpu, mem, instr);
            }
        },
    }
}

impl SharpSM83 {
    /// Consult the interrupt controller: when master enable is on and a
    /// source is pending and enabled, the highest-priority one is
    /// serviced and `true` comes back; otherwise nothing changes.
    #[verifier::rlimit(100)]
    fn handle_interrupt(&mut self, memory: &mut Memory) -> (r: bool)
        requires
            old(memory).wf(),
        ensures
            r == spec_any_pending(old(memory)@[IF as int], old(memory)@[IE as int]),
            r ==> *final(self) == spec_service(*old(self), old(memory)@).0,
            r ==> final(memory)@ == spec_service(*old(self), old(memory)@).1,
            !r ==> *final(self) == *old(self),
            !r ==> final(memory)@ == old(memory)@,
            final(memory).wf(),
            old(self).wf() ==> final(self).wf(),
    {
        let if_reg: u8 = memory.read(IF);
        let ie_reg: u8 = memory.read(IE);
        if bit_u8(if_reg, 0) && bit_u8(ie_reg, 0) {
            proof {
                assert(if_reg / 1 % 2 == 1);
            }
            memory.write(IF, if_reg - 1);
            self.int_call(VBLANK_VECTOR, memory);
            return true;
        }
        if bit_u8(if_reg, 1) && bit_u8(ie_reg, 1) {
            proof {
                assert(if_reg / 2 % 2 == 1);
            }
            memory.write(IF, if_reg - 2);
            self.int_call(STAT_VECTOR, memory);
            return true;
        }
        if bit_u8(if_reg, 2) && bit_u8(ie_reg, 2) {
            proof {
                assert(if_reg / 4 % 2 == 1);
            }
            memory.write(IF, if_reg - 4);
            self.int_call(TIMER_VECTOR, memory);
            return true;
        }
        if bit_u8(if_reg, 3) && bit_u8(ie_reg, 3) {
            proof {
                assert(if_reg / 8 % 2 == 1);
            }
            memory.write(IF, if_reg - 8);
            self.int_call(SERIAL_VECTOR, memory);
            return true;
        }
        if bit_u8(if_reg, 4) && bit_u8(ie_reg, 4) {
            proof {
                assert(if_reg / 16 % 2 == 1);
            }
            memory.write(IF, if_reg - 16);
            self.int_call(JOYPAD_VECTOR, memory);
            return true;
        }
        false
    }

    /// One scheduling dispatch, as [`spec_run`] describes: interrupt
    /// service, or one fetched and executed instruction, or nothing for
    /// a stopped or still-halted CPU. Returns the clock units consumed,
    /// or `None` after an illegal opcode stopped emulation (the fault is
    /// recorded on the CPU).
    pub fn run(&mut self, memory: &mut Memory) -> (r: Option<usize>)
        requires
            old(self).wf(),
            old(memory).wf(),
            old(self).instructions_executed < usize::MAX,
        ensures
            *final(self) == spec_run(*old(self), old(memory)@).0,
            final(memory)@ == spec_run(*old(self), old(memory)@).1,
            r == spec_run(*old(self), old(memory)@).2,
            r == Option::Some(0usize) || r == Option::Some(4usize) || r == Option::None::<usize>,
            old(self).instructions_executed <= final(self).instructions_executed <= old(
                self,
            ).instructions_executed + 1,
            final(self).wf(),
            final(memory).wf(),
    {
        proof {
            reveal(spec_run);
        }
        if self.stop {
            return Option::Some(0);
        }
        if self.halt {
            let if_reg: u8 = memory.read(IF);
            let ie_reg: u8 = memory.read(IE);
            if any_pending(if_reg, ie_reg) {
                self.halt = false;
            }
        }
        let handled: bool = if self.ime == 1 {
            self.handle_interrupt(memory)
        } else {
            false
        };
        if handled {
        } else if !self.halt {
            let opcode: u8 = self.fetch(memory);
            let instr: Instruction = Instruction::decode(opcode);
            let ghost pre: SharpSM83 = *self;
            let res: Result<(), Fault> = self.execute(instr, memory);
            proof {
                lemma_execute_preserves(pre, old(memory)@, instr);
            }
            match res {
                Result::Ok(()) => {
                    self.instructions_executed = self.instructions_executed + 1;
                },
                Result::Err(ft) => {
                    self.fault = Option::Some(ft);
                    return Option::None;
                },
            }
        }
        Option::Some(4)
    }

    /// One raw fetch/decode/execute step, bypassing the interrupt
    /// controller and the halt and stop states.
    pub fn raw_run(&mut self, memory: &mut Memory) -> (r: Result<(), Fault>)
        requires
            old(memory).wf(),
        ensures
            *final(self) == spec_raw_run(*old(self), old(memory)@).0,
            final(memory)@ == spec_raw_run(*old(self), old(memory)@).1,
            (match spec_raw_run(*old(self), old(memory)@).2 {
                Option::Some(ft) => r == Result::<(), Fault>::Err(ft),
                Option::None => r == Result::<(), Fault>::Ok(()),
            }),
            final(memory).wf(),
            old(self).wf() ==> final(self).wf(),
    {
        let opcode: u8 = self.fetch(memory);
        let instr: Instruction = Instruction::decode(opcode);
        self.execute(instr, memory)
    }
}

/// Writing a pair view back to itself changes nothing; for A:F the
/// masked low nibble is already zero on a well-formed CPU.
proof fn lemma_set_rr_int_self(cpu: SharpSM83, rr: u8)
    requires
        cpu.wf(),
        rr < 4,
    ensures
        spec_set_rr_int(cpu, rr, spec_rr_int(cpu, rr)) == cpu,
{
}

/// Push/pop round trip: pushing a register pair and immediately popping
/// into the same pair restores the whole register file — the pair, the
/// stack pointer, the flags, and everything else. The two stack bytes
/// must not land on the input-select register, whose write masking
/// would alter the stored low nibble.
#[verifier::rlimit(100)]
#[verifier::spinoff_prover]
pub proof fn lemma_push_pop_roundtrip(cpu: SharpSM83, mem: Seq<u8>, rr: u8)
    requires
        cpu.wf(),
        rr < 4,
        mem.len() == 0x10000,
        spec_wrap_dec(cpu.sp) != 0xFF00,
        spec_wrap_dec(spec_wrap_dec(cpu.sp)) != 0xFF00,
    ensures
        ({
            let s1 = spec_execute(cpu, mem, Instruction::PUSHrr(rr));
            let s2 = spec_execute(s1.0, s1.1, Instruction::POPrr(rr));
            s2.0 == cpu
        }),
{
    let v = spec_rr_int(cpu, rr);
    let hi = spec_hi(v);
    let lo = spec_lo(v);
    let sp1 = spec_wrap_dec(cpu.sp);
    let sp2 = spec_wrap_dec(sp1);
    let m1 = spec_write(mem, sp1, hi);
    let m2 = spec_write(m1, sp2, lo);
    assert(sp1 == (sp2 + 1) % 65536);
    assert(sp2 != sp1);
    crate::console::memory::lemma_write_readback(mem, sp1, hi);
    crate::console::memory::lemma_write_readback(m1, sp2, lo);
    crate::console::memory::lemma_write_preserves(m1, sp2, lo, sp1);
    assert(m1.len() == 0x10000);
    assert(m2.len() == 0x10000);
    assert(m1[sp1 as int] == hi);
    assert(m2[sp1 as int] == hi);
    assert(m2[sp2 as int] == lo);
    let s1 = spec_execute(cpu, mem, Instruction::PUSHrr(rr));
    assert(s1.0.sp == sp2);
    assert(s1.1 == m2);
    assert(spec_wrap_inc(sp2) == sp1);
    assert(spec_wrap_inc(sp1) == cpu.sp);
    let p = spec_pop(s1.0, s1.1);
    assert(p.1 == spec_word(hi, lo));
    assert(spec_word(hi, lo) == v);
    assert(p.0.sp == cpu.sp);
    assert(p.0 == cpu);
    lemma_set_rr_int_self(cpu, rr);
    let s2 = spec_execute(s1.0, s1.1, Instruction::POPrr(rr));
    assert(s2.0 == spec_set_rr_int(p.0, rr, v));
}

/// Idempotence boundary of the accumulator complement: two consecutive
/// complement-accumulator instructions restore the original accumulator
/// value, and both leave the subtract and half-carry flags set.
pub proof fn lemma_cpl_involution(cpu: SharpSM83, mem: Seq<u8>)
    ensures
        ({
            let s1 = spec_execute(cpu, mem, Instruction::CPL);
            let s2 = spec_execute(s1.0, s1.1, Instruction::CPL);
            &&& s2.0.a == cpu.a
            &&& flag_n(s1.0.f) && flag_h(s1.0.f)
            &&& flag_n(s2.0.f) && flag_h(s2.0.f)
            &&& s1.1 == mem && s2.1 == mem
        }),
{
    let s1 = spec_execute(cpu, mem, Instruction::CPL);
    crate::bytes::lemma_mk_flags(flag_z(cpu.f), true, true, flag_c(cpu.f));
    crate::bytes::lemma_mk_flags(flag_z(s1.0.f), true, true, flag_c(s1.0.f));
}

/// The controller's scan, when vertical-sync is pending and enabled:
/// it wins, the vector is taken, master enable clears, the return
/// address goes onto the stack high byte first, a pending bit it did
/// not service stays set, and the enable register is untouched. The
/// stack-byte clauses are guarded against the two addresses whose own
/// write rules would alter them.
#[verifier::rlimit(100)]
#[verifier::spinoff_prover]
proof fn lemma_service_priority(cpu: SharpSM83, mem: Seq<u8>)
    requires
        mem.len() == 0x10000,
        spec_pending_enabled(mem[IF as int], mem[IE as int], 0),
        spec_pending_enabled(mem[IF as int], mem[IE as int], 2),
        spec_wrap_dec(cpu.sp) != IF,
        spec_wrap_dec(spec_wrap_dec(cpu.sp)) != IF,
    ensures
        spec_service(cpu, mem).0.pc == 0x40,
        spec_service(cpu, mem).0.ime == 0,
        spec_service(cpu, mem).0.sp == spec_wrap_dec(spec_wrap_dec(cpu.sp)),
        spec_service(cpu, mem).0.instructions_executed == cpu.instructions_executed,
        spec_bit_u8(spec_service(cpu, mem).1[IF as int], 2),
        spec_wrap_dec(cpu.sp) != 0xFF00 && spec_wrap_dec(spec_wrap_dec(cpu.sp)) != 0xFF00
            ==> spec_service(cpu, mem).1[spec_wrap_dec(cpu.sp) as int] == spec_hi(cpu.pc)
            && spec_service(cpu, mem).1[spec_wrap_dec(spec_wrap_dec(cpu.sp)) as int] == spec_lo(
            cpu.pc,
        ),
        spec_wrap_dec(cpu.sp) != IE && spec_wrap_dec(spec_wrap_dec(cpu.sp)) != IE
            ==> spec_service(cpu, mem).1[IE as int] == mem[IE as int],
{
    let ifr = mem[IF as int];
    assert(ifr % 2 == 1);
    assert(ifr / 4 % 2 == 1);
    let cleared = (ifr - 1) as u8;
    assert(cleared / 4 == ifr / 4);
    let m1 = spec_write(mem, IF, cleared);
    crate::console::memory::lemma_write_readback(mem, IF, cleared);
    assert(m1[IF as int] == cleared);
    assert(m1.len() == 0x10000);
    let sp1 = spec_wrap_dec(cpu.sp);
    let sp2 = spec_wrap_dec(sp1);
    assert(sp1 == (sp2 + 1) % 65536);
    assert(sp2 != sp1);
    let m2 = spec_write(m1, sp1, spec_hi(cpu.pc));
    let m3 = spec_write(m2, sp2, spec_lo(cpu.pc));
    crate::console::memory::lemma_write_preserves(m1, sp1, spec_hi(cpu.pc), IF);
    crate::console::memory::lemma_write_preserves(m2, sp2, spec_lo(cpu.pc), IF);
    assert(m2[IF as int] == cleared);
    assert(m3[IF as int] == cleared);
    if sp1 != 0xFF00 && sp2 != 0xFF00 {
        crate::console::memory::lemma_write_readback(m1, sp1, spec_hi(cpu.pc));
        crate::console::memory::lemma_write_readback(m2, sp2, spec_lo(cpu.pc));
        crate::console::memory::lemma_write_preserves(m2, sp2, spec_lo(cpu.pc), sp1);
        assert(m3[sp1 as int] == spec_hi(cpu.pc));
        assert(m3[sp2 as int] == spec_lo(cpu.pc));
    }
    if sp1 != IE && sp2 != IE {
        crate::console::memory::lemma_write_preserves(mem, IF, cleared, IE);
        crate::console::memory::lemma_write_preserves(m1, sp1, spec_hi(cpu.pc), IE);
        crate::console::memory::lemma_write_preserves(m2, sp2, spec_lo(cpu.pc), IE);
        assert(m3[IE as int] == mem[IE as int]);
    }
    assert(spec_service(cpu, mem).1 == m3);
}

/// Interrupt priority: when vertical-sync and timer-overflow are both
/// pending and both enabled with master enable set, the next dispatch
/// services vertical-sync — it vectors to 0x0040, clears master enable,
/// consumes a full dispatch slot — and the timer-overflow pending bit is
/// still set afterwards. The pushed return address must not land on the
/// pending-flags register itself.
#[verifier::rlimit(100)]
#[verifier::spinoff_prover]
pub proof fn lemma_interrupt_priority(cpu: SharpSM83, mem: Seq<u8>)
    requires
        mem.len() == 0x10000,
        !cpu.stop,
        cpu.ime == 1,
        spec_pending_enabled(mem[IF as int], mem[IE as int], 0),
        spec_pending_enabled(mem[IF as int], mem[IE as int], 2),
        spec_wrap_dec(cpu.sp) != IF,
        spec_wrap_dec(spec_wrap_dec(cpu.sp)) != IF,
    ensures
        ({
            let r = spec_run(cpu, mem);
            let sp1 = spec_wrap_dec(cpu.sp);
            let sp2 = spec_wrap_dec(sp1);
            &&& r.0.pc == 0x40
            &&& r.0.ime == 0
            &&& r.0.sp == sp2
            &&& r.0.instructions_executed == cpu.instructions_executed
            &&& spec_bit_u8(r.1[IF as int], 2)
            &&& r.2 == Option::Some(4usize)
            &&& (sp1 != 0xFF00 && sp2 != 0xFF00 ==> r.1[sp1 as int] == spec_hi(cpu.pc))
            &&& (sp1 != 0xFF00 && sp2 != 0xFF00 ==> r.1[sp2 as int] == spec_lo(cpu.pc))
            &&& (sp1 != IE && sp2 != IE ==> r.1[IE as int] == mem[IE as int])
        }),
{
    reveal(spec_run);
    let cpu0 = if cpu.halt && spec_any_pending(mem[IF as int], mem[IE as int]) {
        SharpSM83 { halt: false, ..cpu }
    } else {
        cpu
    };
    assert(spec_any_pending(mem[IF as int], mem[IE as int]));
    lemma_service_priority(cpu0, mem);
    let r = spec_run(cpu, mem);
    assert(r.0 == spec_service(cpu0, mem).0);
    assert(r.1 == spec_service(cpu0, mem).1);
}

} // verus!
