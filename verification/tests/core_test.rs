use cassowary_gb::bytes::{has_bit_u16, has_bit_u8, u8_add, u8_sub};
use cassowary_gb::console::apu::Apu;
use cassowary_gb::console::cpu::{Fault, SharpSM83};
use cassowary_gb::console::instruction::Instruction;
use cassowary_gb::console::joypad::KeyInput;
use cassowary_gb::console::memory::{Memory, MEM_SIZE};
use cassowary_gb::console::ppu::{mix_bytes, Tile, PPU};
use cassowary_gb::console::regids::{A, B, HL, SP};
use cassowary_gb::console::timer::HTimer;
use cassowary_gb::console::GBIO;

fn machine(program: &[u8]) -> (SharpSM83, Memory) {
    let cpu = SharpSM83::new();
    let mut memory = Memory::new(MEM_SIZE);
    for (i, byte) in program.iter().enumerate() {
        memory.write(i as u16, *byte);
    }
    (cpu, memory)
}

#[test]
fn scenario_load_add() {
    // LD A,0x05; LD B,0x03; ADD B
    let (mut cpu, mut memory) = machine(&[0x3E, 0x05, 0x06, 0x03, 0x80]);
    cpu.raw_run(&mut memory).unwrap();
    cpu.raw_run(&mut memory).unwrap();
    cpu.raw_run(&mut memory).unwrap();
    assert_eq!(cpu.get_reg_int(A), 0x08);
    assert_eq!(cpu.get_flag(), 0x00);
}

#[test]
fn scenario_push_pop() {
    // LD SP,0x7FFF; LD BC,0x0813; PUSH BC; POP HL
    let (mut cpu, mut memory) = machine(&[0x31, 0xFF, 0x7F, 0x01, 0x13, 0x08, 0xC5, 0xE1]);
    cpu.raw_run(&mut memory).unwrap();
    cpu.raw_run(&mut memory).unwrap();
    cpu.raw_run(&mut memory).unwrap();
    cpu.raw_run(&mut memory).unwrap();
    assert_eq!(cpu.get_reg_view(HL), 0x0813);
    assert_eq!(cpu.get_reg_view(SP), 0x7FFF);
}

#[test]
fn scenario_extended_decode() {
    assert_eq!(Instruction::decode(0xCB), Instruction::CB);
    assert_eq!(Instruction::decode_cb(0x00), Instruction::RLCr(B));
    assert_eq!(Instruction::decode(0x00), Instruction::NOP);
}

#[test]
fn scenario_relative_jump() {
    let (mut cpu, mut memory) = machine(&[]);
    memory.write(0x0200, 0x18);
    memory.write(0x0201, 0x03);
    cpu.pc = 0x0200;
    cpu.raw_run(&mut memory).unwrap();
    assert_eq!(cpu.pc, 0x0200 + 2 + 3);
}

#[test]
fn mirror_echo() {
    let mut memory = Memory::new(MEM_SIZE);
    memory.write(0xC123, 0xAB);
    assert_eq!(memory.read(0xE123), 0xAB);
    assert_eq!(memory.read(0xC123), 0xAB);
    memory.write(0xE250, 0x77);
    assert_eq!(memory.read(0xC250), 0x77);
    memory.write(0xDDFF, 0x5A);
    assert_eq!(memory.read(0xFDFF), 0x5A);
    // one past the window is a plain store
    memory.write(0xDE00, 0x11);
    assert_eq!(memory.read(0xFE00), 0x00);
}

#[test]
fn dma_copy() {
    let mut memory = Memory::new(MEM_SIZE);
    for k in 0..160u16 {
        memory.write(0x1200 + k, (k % 251) as u8 + 1);
    }
    memory.write(0xFF46, 0x12);
    assert_eq!(memory.read(0xFF46), 0x12);
    for k in 0..160u16 {
        assert_eq!(memory.read(0xFE00 + k), (k % 251) as u8 + 1);
    }
}

#[test]
fn joyp_masked_write() {
    let mut memory = Memory::new(MEM_SIZE);
    // only the upper nibble of the input-select register is writable
    memory.write(0xFF00, 0xCF);
    assert_eq!(memory.read(0xFF00), 0xC0);
}

#[test]
fn illegal_opcode_faults() {
    let (mut cpu, mut memory) = machine(&[0xD3]);
    let r = cpu.raw_run(&mut memory);
    assert_eq!(r, Err(Fault { opcode: 0xD3, pc: 1 }));

    let (mut cpu, mut memory) = machine(&[0xED]);
    let r = cpu.run(&mut memory);
    assert_eq!(r, None);
    assert_eq!(cpu.fault, Some(Fault { opcode: 0xED, pc: 1 }));
}

#[test]
fn reserved_opcode_is_recorded_noop() {
    let (mut cpu, mut memory) = machine(&[]);
    // a reserved byte outside the lock-up set is skipped with a record
    let r = cpu.execute(Instruction::ErrInstr { opcode: 0x01 }, &mut memory);
    assert_eq!(r, Ok(()));
    assert_eq!(cpu.undefined_seen, 1);
    assert_eq!(cpu.pc, 0);
}

#[test]
fn interrupt_priority_scenario() {
    let (mut cpu, mut memory) = machine(&[]);
    memory.write(0xFF0F, 0b101); // vertical-sync and timer-overflow pending
    memory.write(0xFFFF, 0b101); // both enabled
    cpu.ime = 1;
    cpu.sp = 0xC100;
    cpu.pc = 0x1234;
    let r = cpu.run(&mut memory);
    assert_eq!(r, Some(4));
    assert_eq!(cpu.pc, 0x0040);
    assert_eq!(cpu.ime, 0);
    assert_eq!(memory.read(0xFF0F), 0b100); // timer-overflow still pending
    // the return address was pushed high byte first
    assert_eq!(memory.read(0xC0FF), 0x12);
    assert_eq!(memory.read(0xC0FE), 0x34);
}

#[test]
fn halted_cpu_wakes_on_pending_enabled() {
    let (mut cpu, mut memory) = machine(&[0x00]);
    cpu.halt = true;
    memory.write(0xFF0F, 0b1);
    memory.write(0xFFFF, 0b1);
    let r = cpu.run(&mut memory);
    assert_eq!(r, Some(4));
    assert!(!cpu.halt);
    // master enable was clear, so it executed the instruction instead
    // of vectoring
    assert_eq!(cpu.pc, 1);
}

#[test]
fn timer_overflow_requests_interrupt() {
    let mut memory = Memory::new(MEM_SIZE);
    let mut timer = HTimer::new();
    memory.write(0xFF05, 0xFF); // counter about to wrap
    memory.write(0xFF06, 0xAB); // modulo
    memory.write(0xFF07, 0b100); // enabled, slowest cadence
    timer.tima_dots = 999;
    timer.update(false, &mut memory);
    assert_eq!(memory.read(0xFF05), 0xAB);
    assert_eq!(memory.read(0xFF0F) & 0b100, 0b100);
}

#[test]
fn daa_adjusts_to_bcd() {
    // LD A,0x15; ADD 0x27; DAA -> packed BCD 0x42
    let (mut cpu, mut memory) = machine(&[0x3E, 0x15, 0xC6, 0x27, 0x27]);
    cpu.raw_run(&mut memory).unwrap();
    cpu.raw_run(&mut memory).unwrap();
    cpu.raw_run(&mut memory).unwrap();
    assert_eq!(cpu.get_reg_int(A), 0x42);
    assert_eq!(cpu.get_flag(), 0x00);
}

#[test]
fn mix_bytes_decodes_rows() {
    let row = mix_bytes(0x3C, 0x7E);
    assert_eq!(row, vec![0, 2, 3, 3, 3, 3, 2, 0]);
    let tile = Tile::new([
        0x3C, 0x7E, 0x42, 0x42, 0x42, 0x42, 0x42, 0x42, 0x7E, 0x5E, 0x7E, 0x0A, 0x7C, 0x56, 0x38,
        0x7C,
    ]);
    assert_eq!(tile.pixels.len(), 64);
    assert_eq!(&tile.pixels[0..8], &[0, 2, 3, 3, 3, 3, 2, 0]);
    // row 1: low 0x42, high 0x42 -> bits 6 and 1 set in both planes
    assert_eq!(&tile.pixels[8..16], &[0, 3, 0, 0, 0, 0, 3, 0]);
}

#[test]
fn serial_transfer_hands_byte_to_host() {
    let mut memory = Memory::new(MEM_SIZE);
    let mut io = GBIO::new();
    memory.write(0xFF01, 0x41);
    memory.write(0xFF02, 0x81);
    let sent = io.update(&mut memory, &KeyInput::released());
    assert_eq!(sent, Some(0x41));
    assert_eq!(memory.read(0xFF02), 0x01);
    assert_eq!(memory.read(0xFF01), 0xFF);
}

#[test]
fn ppu_line_counter_cycles() {
    let mut memory = Memory::new(MEM_SIZE);
    let mut ppu = PPU::new();
    for _ in 0..153 {
        ppu.update(&mut memory);
    }
    assert!(ppu.is_ready());
    ppu.update(&mut memory);
    assert!(!ppu.is_ready());
    assert_eq!(memory.read(0xFF44), 0);
}

#[test]
fn apu_accumulates_samples() {
    let mut memory = Memory::new(MEM_SIZE);
    let mut apu = Apu::new();
    memory.write(0xFF12, 0xF0); // volume nibble
    apu.update(&mut memory);
    assert_eq!(apu.channel1, vec![0x00]); // volume reads back as nibble 0
    memory.write(0xFF12, 0x0F);
    apu.update(&mut memory);
    assert_eq!(apu.channel1, vec![0x00, 0x0F]);
    let sound = apu.get_sound();
    assert_eq!(sound.data.len(), 64);
    assert!(apu.channel1.is_empty());
    assert!(apu.channel3.is_empty());
}

#[test]
fn add_carry_flags() {
    // carry is set exactly when the widened sum passes 255
    let (r, f) = u8_add(0xFF, 0x01);
    assert_eq!(r, 0x00);
    assert_eq!(f, 0b1011_0000);
    let (r, f) = u8_add(0x7F, 0x01);
    assert_eq!(r, 0x80);
    assert_eq!(f, 0b0010_0000);
    let (r, f) = u8_add(0x12, 0x34);
    assert_eq!(r, 0x46);
    assert_eq!(f, 0b0000_0000);
}

#[test]
fn sub_borrow_flags() {
    // carry is set exactly when the subtrahend is larger
    let (r, f) = u8_sub(0x10, 0x20);
    assert_eq!(r, 0xF0);
    assert_eq!(f, 0b0101_0000);
    let (r, f) = u8_sub(0x21, 0x13);
    assert_eq!(r, 0x0E);
    assert_eq!(f, 0b0110_0000);
    let (r, f) = u8_sub(0x42, 0x42);
    assert_eq!(r, 0x00);
    assert_eq!(f, 0b1100_0000);
}

#[test]
fn bit_probes() {
    assert!(has_bit_u8(0b1000_0001, 0));
    assert!(has_bit_u8(0b1000_0001, 7));
    assert!(!has_bit_u8(0b1000_0001, 3));
    assert!(has_bit_u16(0x8001, 0));
    assert!(has_bit_u16(0x8001, 15));
    assert!(!has_bit_u16(0x8001, 8));
}

#[test]
fn serial_idle_sends_nothing() {
    let mut memory = Memory::new(MEM_SIZE);
    let mut io = GBIO::new();
    memory.write(0xFF01, 0x41);
    memory.write(0xFF02, 0x80);
    let sent = io.update(&mut memory, &KeyInput::released());
    assert_eq!(sent, None);
    assert_eq!(memory.read(0xFF01), 0x41);
    assert_eq!(memory.read(0xFF02), 0x80);
}

#[test]
fn complement_twice_restores() {
    let (mut cpu, mut memory) = machine(&[0x3E, 0x5A, 0x2F, 0x2F]);
    cpu.raw_run(&mut memory).unwrap();
    cpu.raw_run(&mut memory).unwrap();
    assert_eq!(cpu.get_reg_int(A), 0xA5);
    assert_eq!(cpu.get_flag(), 0b0110_0000);
    cpu.raw_run(&mut memory).unwrap();
    assert_eq!(cpu.get_reg_int(A), 0x5A);
    assert_eq!(cpu.get_flag(), 0b0110_0000);
}
