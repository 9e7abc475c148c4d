//! The instruction decoder: a pure mapping from an opcode byte to a tagged
//! instruction value, using the octal bit-field decomposition of the
//! SM83 encoding (block in bits 7-6, operand selectors in bits 5-3 and
//! 2-0), with the irregular single-byte opcodes carved out first.
//! A second table decodes the byte after the 0xCB escape.

use vstd::prelude::*;

verus! {

#[derive(Debug, Copy, Clone, PartialEq, Eq, Structural)]
pub enum Instruction {
    // 8-bit loads; register index 6 addresses the byte at H:L.
    LDRwN(u8),
    LDRwR(u8, u8),
    /// High-page load: to memory when the first flag is set, immediate
    /// offset (instead of register C) when the second is set.
    LDH(bool, bool),
    /// Absolute 16-bit addressed accumulator load; to memory when the
    /// flag is set.
    LDAwNNa(bool),
    LDRRawA(u8),
    LDAwRRa(u8),
    // 16-bit loads
    LDrrnn(u8),
    LDNNawSP,
    PUSHrr(u8),
    POPrr(u8),
    LDHLwSP,
    LDSPwHL,
    // 8-bit arithmetic and logic on the accumulator
    Add(u8),
    Adc(u8),
    Sub(u8),
    Sbc(u8),
    And(u8),
    Or(u8),
    Xor(u8),
    Cmp(u8),
    IncR(u8),
    DecR(u8),
    Addn,
    Subn,
    Andn,
    Orn,
    Adcn,
    Sbcn,
    Xorn,
    Cmpn,
    // accumulator adjust and flag operations
    DAA,
    SCF,
    CCF,
    CPL,
    // 16-bit arithmetic
    ADDHLrr(u8),
    AddSpE,
    INCrr(u8),
    DECrr(u8),
    // rotates and shifts
    RLCA,
    RLA,
    RRCA,
    RRA,
    CB,
    RLCr(u8),
    RLr(u8),
    RRCr(u8),
    RRr(u8),
    SLAr(u8),
    SWAPr(u8),
    SRAr(u8),
    SRLr(u8),
    // single-bit operations of the extended table
    BITnr { n: u8, r: u8 },
    SETnr { n: u8, r: u8 },
    RESnr { n: u8, r: u8 },
    // misc control
    NOP,
    HALT,
    STOP,
    DI,
    EI,
    /// Forced call to an interrupt vector; produced by the interrupt
    /// controller, never by decode.
    INTn(u16),
    // jumps, calls, returns
    JPnn,
    JPHL,
    JPccnn(u8),
    JRe,
    JRcce(u8),
    CALLnn,
    CALLccnn(u8),
    RET,
    RETcc(u8),
    RETI,
    RSTn(u8),
    /// An opcode matched by no rule, carrying the raw byte.
    ErrInstr { opcode: u8 },
}

/// Every operand index produced by decoding is in range for the table it
/// selects.
pub open spec fn wf_instr(i: Instruction) -> bool {
    match i {
        Instruction::LDRwN(r) => r < 8,
        Instruction::LDRwR(r1, r2) => r1 < 8 && r2 < 8,
        Instruction::LDRRawA(rr) => rr < 4,
        Instruction::LDAwRRa(rr) => rr < 4,
        Instruction::LDrrnn(rr) => rr < 4,
        Instruction::PUSHrr(rr) => rr < 4,
        Instruction::POPrr(rr) => rr < 4,
        Instruction::Add(r) => r < 8,
        Instruction::Adc(r) => r < 8,
        Instruction::Sub(r) => r < 8,
        Instruction::Sbc(r) => r < 8,
        Instruction::And(r) => r < 8,
        Instruction::Or(r) => r < 8,
        Instruction::Xor(r) => r < 8,
        Instruction::Cmp(r) => r < 8,
        Instruction::IncR(r) => r < 8,
        Instruction::DecR(r) => r < 8,
        Instruction::ADDHLrr(rr) => rr < 4,
        Instruction::INCrr(rr) => rr < 4,
        Instruction::DECrr(rr) => rr < 4,
        Instruction::RLCr(r) => r < 8,
        Instruction::RLr(r) => r < 8,
        Instruction::RRCr(r) => r < 8,
        Instruction::RRr(r) => r < 8,
        Instruction::SLAr(r) => r < 8,
        Instruction::SWAPr(r) => r < 8,
        Instruction::SRAr(r) => r < 8,
        Instruction::SRLr(r) => r < 8,
        Instruction::BITnr { n, r } => n < 8 && r < 8,
        Instruction::SETnr { n, r } => n < 8 && r < 8,
        Instruction::RESnr { n, r } => n < 8 && r < 8,
        Instruction::JPccnn(cc) => cc < 4,
        Instruction::JRcce(cc) => cc < 4,
        Instruction::CALLccnn(cc) => cc < 4,
        Instruction::RETcc(cc) => cc < 4,
        Instruction::RSTn(n) => n < 8,
        _ => true,
    }
}

/// The primary decode table, written over the octal fields
/// x = opcode / 64, y = opcode / 8 % 8, z = opcode % 8, p = y / 2,
/// q = y % 2, cc = y % 4.
pub open spec fn spec_decode(opcode: u8) -> Instruction {
    let op_x = opcode / 64;
    let op_y = opcode / 8 % 8;
    let op_z = opcode % 8;
    let op_p = op_y / 2;
    let cc = op_y % 4;
    let op_q = op_y % 2;
    if opcode == 0x00 {
        Instruction::NOP
    } else if opcode == 0x10 {
        Instruction::STOP
    } else if opcode == 0x76 {
        Instruction::HALT
    } else if opcode == 0xF3 {
        Instruction::DI
    } else if opcode == 0xFB {
        Instruction::EI
    } else if op_x == 1 {
        Instruction::LDRwR(op_y, op_z)
    } else if op_x == 0 && op_z == 6 {
        Instruction::LDRwN(op_y)
    } else if op_x == 3 && (op_y == 6 || op_y == 4) && (op_z == 0 || op_z == 2) {
        Instruction::LDH(op_y == 4, op_z == 0)
    } else if op_x == 3 && op_y % 2 == 1 && op_y / 4 == 1 && op_z == 2 {
        Instruction::LDAwNNa(op_y == 5)
    } else if op_x == 0 && op_z == 2 {
        if op_q == 1 {
            Instruction::LDAwRRa(op_p)
        } else {
            Instruction::LDRRawA(op_p)
        }
    } else if op_x == 0 && op_q == 0 && op_z == 1 {
        Instruction::LDrrnn(op_p)
    } else if opcode == 0x08 {
        Instruction::LDNNawSP
    } else if opcode == 0xF9 {
        Instruction::LDSPwHL
    } else if opcode == 0xF8 {
        Instruction::LDHLwSP
    } else if op_x == 3 && op_q == 0 && op_z == 5 {
        Instruction::PUSHrr(op_p)
    } else if op_x == 3 && op_q == 0 && op_z == 1 {
        Instruction::POPrr(op_p)
    } else if op_x == 2 && op_q == 0 {
        if op_p == 0 {
            Instruction::Add(op_z)
        } else if op_p == 1 {
            Instruction::Sub(op_z)
        } else if op_p == 2 {
            Instruction::And(op_z)
        } else {
            Instruction::Or(op_z)
        }
    } else if op_x == 2 && op_q == 1 {
        if op_p == 0 {
            Instruction::Adc(op_z)
        } else if op_p == 1 {
            Instruction::Sbc(op_z)
        } else if op_p == 2 {
            Instruction::Xor(op_z)
        } else {
            Instruction::Cmp(op_z)
        }
    } else if op_x == 3 && op_z == 6 {
        if op_y == 0 {
            Instruction::Addn
        } else if op_y == 1 {
            Instruction::Adcn
        } else if op_y == 2 {
            Instruction::Subn
        } else if op_y == 3 {
            Instruction::Sbcn
        } else if op_y == 4 {
            Instruction::Andn
        } else if op_y == 5 {
            Instruction::Xorn
        } else if op_y == 6 {
            Instruction::Orn
        } else {
            Instruction::Cmpn
        }
    } else if op_x == 0 && op_z == 4 {
        Instruction::IncR(op_y)
    } else if op_x == 0 && op_z == 5 {
        Instruction::DecR(op_y)
    } else if opcode == 0xE8 {
        Instruction::AddSpE
    } else if op_x == 0 && op_q == 1 && op_z == 1 {
        Instruction::ADDHLrr(op_p)
    } else if op_x == 0 && op_q == 0 && op_z == 3 {
        Instruction::INCrr(op_p)
    } else if op_x == 0 && op_q == 1 && op_z == 3 {
        Instruction::DECrr(op_p)
    } else if opcode == 0x27 {
        Instruction::DAA
    } else if opcode == 0x37 {
        Instruction::SCF
    } else if opcode == 0x2F {
        Instruction::CPL
    } else if opcode == 0x3F {
        Instruction::CCF
    } else if opcode == 0x07 {
        Instruction::RLCA
    } else if opcode == 0x17 {
        Instruction::RLA
    } else if opcode == 0x0F {
        Instruction::RRCA
    } else if opcode == 0x1F {
        Instruction::RRA
    } else if opcode == 0xCB {
        Instruction::CB
    } else if opcode == 0xC3 {
        Instruction::JPnn
    } else if opcode == 0xE9 {
        Instruction::JPHL
    } else if op_x == 3 && op_y / 4 == 0 && op_z == 2 {
        Instruction::JPccnn(cc)
    } else if opcode == 0x18 {
        Instruction::JRe
    } else if op_x == 0 && op_y / 4 == 1 && op_z == 0 {
        Instruction::JRcce(cc)
    } else if opcode == 0xCD {
        Instruction::CALLnn
    } else if op_x == 3 && op_y / 4 == 0 && op_z == 4 {
        Instruction::CALLccnn(cc)
    } else if opcode == 0xC9 {
        Instruction::RET
    } else if op_x == 3 && op_y / 4 == 0 && op_z == 0 {
        Instruction::RETcc(cc)
    } else if opcode == 0xD9 {
        Instruction::RETI
    } else if op_x == 3 && op_z == 7 {
        Instruction::RSTn(op_y)
    } else {
        Instruction::ErrInstr { opcode }
    }
}

/// The extended table behind the 0xCB escape: rotates and shifts for
/// x = 0, bit test for x = 1, bit reset for x = 2, bit set for x = 3.
pub open spec fn spec_decode_cb(opcode: u8) -> Instruction {
    let op_x = opcode / 64;
    let op_y = opcode / 8 % 8;
    let op_z = opcode % 8;
    if op_x == 0 {
        if op_y == 0 {
            Instruction::RLCr(op_z)
        } else if op_y == 1 {
            Instruction::RRCr(op_z)
        } else if op_y == 2 {
            Instruction::RLr(op_z)
        } else if op_y == 3 {
            Instruction::RRr(op_z)
        } else if op_y == 4 {
            Instruction::SLAr(op_z)
        } else if op_y == 5 {
            Instruction::SRAr(op_z)
        } else if op_y == 6 {
            Instruction::SWAPr(op_z)
        } else {
            Instruction::SRLr(op_z)
        }
    } else if op_x == 1 {
        Instruction::BITnr { n: op_y, r: op_z }
    } else if op_x == 2 {
        Instruction::RESnr { n: op_y, r: op_z }
    } else {
        Instruction::SETnr { n: op_y, r: op_z }
    }
}

impl Instruction {
    /// Decode one opcode byte of the primary table.
    pub fn decode(opcode: u8) -> (r: Instruction)
        ensures
            r == spec_decode(opcode),
            wf_instr(r),
    {
        let op_x: u8 = opcode / 64;
        let op_y: u8 = opcode / 8 % 8;
        let op_z: u8 = opcode % 8;
        let op_p: u8 = op_y / 2;
        let cc: u8 = op_y % 4;
        let op_q: u8 = op_y % 2;
        if opcode == 0x00 {
            Instruction::NOP
        } else if opcode == 0x10 {
            Instruction::STOP
        } else if opcode == 0x76 {
            Instruction::HALT
        } else if opcode == 0xF3 {
            Instruction::DI
        } else if opcode == 0xFB {
            Instruction::EI
        } else if op_x == 1 {
            Instruction::LDRwR(op_y, op_z)
        } else if op_x == 0 && op_z == 6 {
            Instruction::LDRwN(op_y)
        } else if op_x == 3 && (op_y == 6 || op_y == 4) && (op_z == 0 || op_z == 2) {
            Instruction::LDH(op_y == 4, op_z == 0)
        } else if op_x == 3 && op_y % 2 == 1 && op_y / 4 == 1 && op_z == 2 {
            Instruction::LDAwNNa(op_y == 5)
        } else if op_x == 0 && op_z == 2 {
            if op_q == 1 {
                Instruction::LDAwRRa(op_p)
            } else {
                Instruction::LDRRawA(op_p)
            }
        } else if op_x == 0 && op_q == 0 && op_z == 1 {
            Instruction::LDrrnn(op_p)
        } else if opcode == 0x08 {
            Instruction::LDNNawSP
        } else if opcode == 0xF9 {
            Instruction::LDSPwHL
        } else if opcode == 0xF8 {
            Instruction::LDHLwSP
        } else if op_x == 3 && op_q == 0 && op_z == 5 {
            Instruction::PUSHrr(op_p)
        } else if op_x == 3 && op_q == 0 && op_z == 1 {
            Instruction::POPrr(op_p)
        } else if op_x == 2 && op_q == 0 {
            if op_p == 0 {
                Instruction::Add(op_z)
            } else if op_p == 1 {
                Instruction::Sub(op_z)
            } else if op_p == 2 {
                Instruction::And(op_z)
            } else {
                Instruction::Or(op_z)
            }
        } else if op_x == 2 && op_q == 1 {
            if op_p == 0 {
                Instruction::Adc(op_z)
            } else if op_p == 1 {
                Instruction::Sbc(op_z)
            } else if op_p == 2 {
                Instruction::Xor(op_z)
            } else {
                Instruction::Cmp(op_z)
            }
        } else if op_x == 3 && op_z == 6 {
            if op_y == 0 {
                Instruction::Addn
            } else if op_y == 1 {
                Instruction::Adcn
            } else if op_y == 2 {
                Instruction::Subn
            } else if op_y == 3 {
                Instruction::Sbcn
            } else if op_y == 4 {
                Instruction::Andn
            } else if op_y == 5 {
                Instruction::Xorn
            } else if op_y == 6 {
                Instruction::Orn
            } else {
                Instruction::Cmpn
            }
        } else if op_x == 0 && op_z == 4 {
            Instruction::IncR(op_y)
        } else if op_x == 0 && op_z == 5 {
            Instruction::DecR(op_y)
        } else if opcode == 0xE8 {
            Instruction::AddSpE
        } else if op_x == 0 && op_q == 1 && op_z == 1 {
            Instruction::ADDHLrr(op_p)
        } else if op_x == 0 && op_q == 0 && op_z == 3 {
            Instruction::INCrr(op_p)
        } else if op_x == 0 && op_q == 1 && op_z == 3 {
            Instruction::DECrr(op_p)
        } else if opcode == 0x27 {
            Instruction::DAA
        } else if opcode == 0x37 {
            Instruction::SCF
        } else if opcode == 0x2F {
            Instruction::CPL
        } else if opcode == 0x3F {
            Instruction::CCF
        } else if opcode == 0x07 {
            Instruction::RLCA
        } else if opcode == 0x17 {
            Instruction::RLA
        } else if opcode == 0x0F {
            Instruction::RRCA
        } else if opcode == 0x1F {
            Instruction::RRA
        } else if opcode == 0xCB {
            Instruction::CB
        } else if opcode == 0xC3 {
            Instruction::JPnn
        } else if opcode == 0xE9 {
            Instruction::JPHL
        } else if op_x == 3 && op_y / 4 == 0 && op_z == 2 {
            Instruction::JPccnn(cc)
        } else if opcode == 0x18 {
            Instruction::JRe
        } else if op_x == 0 && op_y / 4 == 1 && op_z == 0 {
            Instruction::JRcce(cc)
        } else if opcode == 0xCD {
            Instruction::CALLnn
        } else if op_x == 3 && op_y / 4 == 0 && op_z == 4 {
            Instruction::CALLccnn(cc)
        } else if opcode == 0xC9 {
            Instruction::RET
        } else if op_x == 3 && op_y / 4 == 0 && op_z == 0 {
            Instruction::RETcc(cc)
        } else if opcode == 0xD9 {
            Instruction::RETI
        } else if op_x == 3 && op_z == 7 {
            Instruction::RSTn(op_y)
        } else {
            Instruction::ErrInstr { opcode }
        }
    }

    /// Decode the byte that follows the 0xCB escape.
    pub fn decode_cb(opcode: u8) -> (r: Instruction)
        ensures
            r == spec_decode_cb(opcode),
            wf_instr(r),
    {
        let op_x: u8 = opcode / 64;
        let op_y: u8 = opcode / 8 % 8;
        let op_z: u8 = opcode % 8;
        if op_x == 0 {
            if op_y == 0 {
                Instruction::RLCr(op_z)
            } else if op_y == 1 {
                Instruction::RRCr(op_z)
            } else if op_y == 2 {
                Instruction::RLr(op_z)
            } else if op_y == 3 {
                Instruction::RRr(op_z)
            } else if op_y == 4 {
                Instruction::SLAr(op_z)
            } else if op_y == 5 {
                Instruction::SRAr(op_z)
            } else if op_y == 6 {
                Instruction::SWAPr(op_z)
            } else {
                Instruction::SRLr(op_z)
            }
        } else if op_x == 1 {
            Instruction::BITnr { n: op_y, r: op_z }
        } else if op_x == 2 {
            Instruction::RESnr { n: op_y, r: op_z }
        } else {
            Instruction::SETnr { n: op_y, r: op_z }
        }
    }
}

} // verus!
