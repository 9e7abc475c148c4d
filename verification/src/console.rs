//! The console: bus, CPU, peripherals, and the scheduler that advances
//! them in lockstep. [`GameBoy`] is the headless driver a host uses:
//! `step` runs one scheduling iteration, `run` a fixed number of them,
//! and the small assembler-style loader seeds programs for tests.

pub mod apu;
pub mod cpu;
pub mod instruction;
pub mod interrupts;
pub mod joypad;
pub mod memory;
pub mod ppu;
pub mod regids;
pub mod timer;

use vstd::prelude::*;

use crate::console::cpu::{spec_run, SharpSM83};
use crate::console::interrupts::{lemma_or_sets_serial_bit, spec_bit_u8, SERIAL_I};
use crate::console::joypad::{Joypad, KeyInput};
use crate::console::joypad::spec_joypad_update;
use crate::console::memory::{spec_load, spec_write, Memory, MEM_SIZE};
use crate::console::regids::IF;
use crate::console::ppu::PPU;
use crate::console::timer::{spec_timer_tick, HTimer};

verus! {

/// Host pacing hint: nanoseconds per scheduler slot for real-time play.
pub const CLOCK_RATE_NANOS: u64 = 238;

/// The peripherals that share the bus with the CPU: input, timer,
/// video.
pub struct GBIO {
    pub timer: HTimer,
    pub joypad: Joypad,
    pub ppu: PPU,
}

impl GBIO {
    pub fn new() -> (r: GBIO)
        ensures
            r.ppu.wf(),
            r.timer == (HTimer { div_dots: 0, tima_dots: 0, div: 0, tima: 0, tma: 0, tac: 0xf8u8 }),
            r.ppu.ly == 0,
            r.ppu.dots == 0,
    {
        GBIO { timer: HTimer::new(), joypad: Joypad::default(), ppu: PPU::new() }
    }

    /// One peripheral slot: input, timer, then video, each through the
    /// bus contract; finally the serial port. Exactly when the
    /// serial-control register held the transfer-start value, the data
    /// byte is handed back to the host, the serial interrupt is
    /// requested, and the port is reset. None of the three peripherals
    /// touches the two serial registers, so the incoming bytes decide.
    pub fn update(&mut self, memory: &mut Memory, keys: &KeyInput) -> (r: Option<u8>)
        requires
            old(memory).wf(),
            old(self).ppu.wf(),
        ensures
            final(memory).wf(),
            final(self).ppu.wf(),
            final(self).joypad == spec_joypad_update(old(self).joypad, old(memory)@, *keys).0,
            final(self).timer == spec_timer_tick(
                old(self).timer,
                spec_joypad_update(old(self).joypad, old(memory)@, *keys).1,
                false,
            ).0,
            final(self).ppu.ly == ((old(self).ppu.ly + 1) % 154) as u8,
            (r == Option::<u8>::None) <==> old(memory)@[0xFF02] != 0x81,
            r matches Option::Some(b) ==> b == old(memory)@[0xFF01],
            r matches Option::Some(b) ==> final(memory)@[0xFF02] == 0x01 && final(memory)@[0xFF01]
                == 0xFF,
            r matches Option::Some(b) ==> spec_bit_u8(final(memory)@[IF as int], 3),
    {
        let ghost m0: Seq<u8> = memory@;
        let ghost timer0: crate::console::timer::HTimer = self.timer;
        self.joypad.update(memory, keys);
        let ghost m1: Seq<u8> = memory@;
        proof {
            assert(m1[0xFF01] == m0[0xFF01]);
            assert(m1[0xFF02] == m0[0xFF02]);
        }
        self.timer.update(false, memory);
        proof {
            crate::console::timer::lemma_timer_tick_preserves(timer0, m1, false, 0xFF01);
            crate::console::timer::lemma_timer_tick_preserves(timer0, m1, false, 0xFF02);
            assert(memory@[0xFF01] == m0[0xFF01]);
            assert(memory@[0xFF02] == m0[0xFF02]);
        }
        self.ppu.update(memory);
        proof {
            assert(memory@[0xFF01] == m0[0xFF01]);
            assert(memory@[0xFF02] == m0[0xFF02]);
        }
        if memory.read(0xFF02) == 0x81 {
            let ghost m2: Seq<u8> = memory@;
            memory.request_interrupt(SERIAL_I);
            proof {
                lemma_or_sets_serial_bit(m2[IF as int]);
            }
            memory.write_io(0xFF02, 0x01);
            let b: u8 = memory.read(0xFF01);
            memory.write_io(0xFF01, 0xFF);
            Option::Some(b)
        } else {
            Option::None
        }
    }
}

/// The whole machine with its headless driver state: an instruction
/// budget, a write cursor for seeding programs, and the two cycle
/// counters that keep CPU dispatch at its one-in-four-slots cadence.
pub struct GameBoy {
    pub gamepack: Memory,
    pub cpu: SharpSM83,
    pub io: GBIO,
    pub log_memory: bool,
    /// Whether the boot ROM is still mapped; the host swaps it out.
    pub boot: bool,
    /// The driver budget: `start` dispatches until this many
    /// instructions have retired.
    pub instr_count: usize,
    /// Where the next seeded program byte goes.
    pub cursor: u16,
    pub clock_cycles: usize,
    pub cpu_cycles: usize,
}

impl GameBoy {
    /// A full-size bus, a well-formed CPU, a full frame buffer.
    pub open spec fn wf(&self) -> bool {
        &&& self.gamepack.wf()
        &&& self.io.ppu.wf()
        &&& self.cpu.wf()
    }

    pub fn new(log_memory: bool) -> (r: GameBoy)
        ensures
            r.wf(),
            r.cpu == SharpSM83::spec_reset(),
            r.gamepack@ == crate::console::memory::spec_initial_mem(MEM_SIZE as nat),
            r.log_memory == log_memory,
            r.instr_count == 0,
            r.cursor == 0,
            r.clock_cycles == 0,
            r.cpu_cycles == 0,
            r.boot == true,
    {
        GameBoy {
            gamepack: Memory::new(MEM_SIZE),
            cpu: SharpSM83::new(),
            io: GBIO::new(),
            log_memory,
            boot: true,
            instr_count: 0,
            cursor: 0,
            clock_cycles: 0,
            cpu_cycles: 0,
        }
    }

    /// A machine for headless tests: as [`GameBoy::new`], without
    /// memory logging.
    pub fn new_test() -> (r: GameBoy)
        ensures
            r.wf(),
            r.cpu == SharpSM83::spec_reset(),
            r.gamepack@ == crate::console::memory::spec_initial_mem(MEM_SIZE as nat),
            r.instr_count == 0,
            r.cursor == 0,
            r.clock_cycles == 0,
            r.cpu_cycles == 0,
    {
        GameBoy::new(false)
    }

    /// Reset the CPU and the driver counters; the bus keeps its
    /// contents.
    pub fn init(&mut self)
        ensures
            final(self).cpu == SharpSM83::spec_reset(),
            final(self).gamepack == old(self).gamepack,
            final(self).io == old(self).io,
            final(self).instr_count == 0,
            final(self).cursor == 0,
            final(self).clock_cycles == 0,
            final(self).cpu_cycles == 0,
            final(self).boot == old(self).boot,
            final(self).log_memory == old(self).log_memory,
    {
        self.cpu = SharpSM83::new();
        self.instr_count = 0;
        self.cursor = 0;
        self.clock_cycles = 0;
        self.cpu_cycles = 0;
    }

    /// Record whether the boot ROM is still mapped.
    pub fn set_boot(&mut self, boot: bool)
        ensures
            *final(self) == (GameBoy { boot, ..*old(self) }),
    {
        self.boot = boot;
    }

    /// Set the driver budget.
    pub fn set_run_count(&mut self, n: usize)
        ensures
            *final(self) == (GameBoy { instr_count: n, ..*old(self) }),
    {
        self.instr_count = n;
    }

    /// Allow one more instruction to retire before `start` pauses.
    pub fn inc_instr_count(&mut self)
        requires
            old(self).instr_count < usize::MAX,
        ensures
            *final(self) == (GameBoy {
                instr_count: (old(self).instr_count + 1) as usize,
                ..*old(self)
            }),
    {
        self.instr_count = self.instr_count + 1;
    }

    /// Seed one program byte at the cursor, which advances.
    pub fn write(&mut self, byte: u8)
        requires
            old(self).wf(),
        ensures
            final(self).wf(),
            final(self).gamepack@ == spec_write(old(self).gamepack@, old(self).cursor, byte),
            final(self).cursor == ((old(self).cursor + 1) % 65536) as u16,
            final(self).cpu == old(self).cpu,
            final(self).io == old(self).io,
            final(self).instr_count == old(self).instr_count,
    {
        let at: u16 = self.cursor;
        self.gamepack.write(at, byte);
        self.cursor = (((at as u32) + 1) % 65536) as u16;
    }

    /// Map a raw byte sequence into the bottom of the address space,
    /// through the bus write rules.
    pub fn load_memory(&mut self, data: &[u8])
        requires
            old(self).wf(),
            data@.len() <= 0x10000,
        ensures
            final(self).wf(),
            final(self).gamepack@ == spec_load(old(self).gamepack@, data@, data@.len() as int),
            final(self).cpu == old(self).cpu,
            final(self).io == old(self).io,
    {
        let mut i: usize = 0;
        while i < data.len()
            invariant
                self.gamepack.wf(),
                i <= data@.len(),
                data@.len() <= 0x10000,
                self.gamepack@ == spec_load(old(self).gamepack@, data@, i as int),
                *self == (GameBoy { gamepack: self.gamepack, ..*old(self) }),
            decreases data@.len() - i,
        {
            let byte: u8 = data[i];
            self.gamepack.write(i as u16, byte);
            i = i + 1;
        }
    }

    /// One scheduling iteration: when the CPU has consumed no more
    /// cycles than the clock has granted, dispatch once (interrupt
    /// service or one instruction) and charge the consumed cycles; then
    /// step the peripherals on the dispatched state and advance the
    /// clock. A serial byte sent this slot is handed back, exactly when
    /// the serial-control register held the transfer-start value.
    pub fn step(&mut self, keys: &KeyInput) -> (r: Option<u8>)
        requires
            old(self).wf(),
        ensures
            final(self).wf(),
            ({
                let dispatched = old(self).cpu_cycles == old(self).clock_cycles
                    && old(self).cpu.instructions_executed < usize::MAX;
                let mem1 = if dispatched {
                    spec_run(old(self).cpu, old(self).gamepack@).1
                } else {
                    old(self).gamepack@
                };
                &&& final(self).cpu == (if dispatched {
                    spec_run(old(self).cpu, old(self).gamepack@).0
                } else {
                    old(self).cpu
                })
                &&& final(self).cpu_cycles == (if dispatched {
                    match spec_run(old(self).cpu, old(self).gamepack@).2 {
                        Option::Some(c) => if old(self).cpu_cycles <= usize::MAX - 4 {
                            (old(self).cpu_cycles + c) as usize
                        } else {
                            old(self).cpu_cycles
                        },
                        Option::None => old(self).cpu_cycles,
                    }
                } else {
                    old(self).cpu_cycles
                })
                &&& final(self).io.joypad == spec_joypad_update(old(self).io.joypad, mem1, *keys).0
                &&& final(self).io.timer == spec_timer_tick(
                    old(self).io.timer,
                    spec_joypad_update(old(self).io.joypad, mem1, *keys).1,
                    false,
                ).0
                &&& final(self).io.ppu.ly == ((old(self).io.ppu.ly + 1) % 154) as u8
                &&& ((r == Option::<u8>::None) <==> mem1[0xFF02] != 0x81)
                &&& (r matches Option::Some(b) ==> b == mem1[0xFF01])
            }),
            old(self).cpu.instructions_executed <= final(self).cpu.instructions_executed <= old(
                self,
            ).cpu.instructions_executed + 1,
            *final(self) == (GameBoy {
                gamepack: final(self).gamepack,
                cpu: final(self).cpu,
                io: final(self).io,
                clock_cycles: final(self).clock_cycles,
                cpu_cycles: final(self).cpu_cycles,
                ..*old(self)
            }),
            final(self).clock_cycles == (if old(self).clock_cycles < usize::MAX {
                (old(self).clock_cycles + 1) as usize
            } else {
                old(self).clock_cycles
            }),
    {
        if self.cpu_cycles == self.clock_cycles && self.cpu.instructions_executed < usize::MAX {
            let consumed: Option<usize> = self.cpu.run(&mut self.gamepack);
            match consumed {
                Option::Some(c) => {
                    if self.cpu_cycles <= usize::MAX - 4 {
                        self.cpu_cycles = self.cpu_cycles + c;
                    }
                },
                Option::None => {},
            }
        }
        let serial: Option<u8> = self.io.update(&mut self.gamepack, keys);
        if self.clock_cycles < usize::MAX {
            self.clock_cycles = self.clock_cycles + 1;
        }
        serial
    }

    /// Run exactly `n` scheduling iterations with no keys pressed: the
    /// clock advances by `n` (saturating), the video line counter by
    /// `n` modulo its frame, at most `n` instructions retire, and the
    /// driver bookkeeping is untouched.
    #[verifier::rlimit(100)]
    pub fn run(&mut self, n: usize)
        requires
            old(self).wf(),
        ensures
            final(self).wf(),
            *final(self) == (GameBoy {
                gamepack: final(self).gamepack,
                cpu: final(self).cpu,
                io: final(self).io,
                clock_cycles: final(self).clock_cycles,
                cpu_cycles: final(self).cpu_cycles,
                ..*old(self)
            }),
            final(self).clock_cycles == (if old(self).clock_cycles + n <= usize::MAX {
                (old(self).clock_cycles + n) as usize
            } else {
                usize::MAX
            }),
            final(self).io.ppu.ly == ((old(self).io.ppu.ly + n) % 154) as u8,
            old(self).cpu.instructions_executed <= final(self).cpu.instructions_executed <= old(
                self,
            ).cpu.instructions_executed + n,
    {
        let keys: KeyInput = KeyInput::released();
        let mut i: usize = 0;
        while i < n
            invariant
                self.wf(),
                i <= n,
                *self == (GameBoy {
                    gamepack: self.gamepack,
                    cpu: self.cpu,
                    io: self.io,
                    clock_cycles: self.clock_cycles,
                    cpu_cycles: self.cpu_cycles,
                    ..*old(self)
                }),
                self.clock_cycles == (if old(self).clock_cycles + i <= usize::MAX {
                    (old(self).clock_cycles + i) as usize
                } else {
                    usize::MAX
                }),
                self.io.ppu.ly == ((old(self).io.ppu.ly + i) % 154) as u8,
                old(self).cpu.instructions_executed <= self.cpu.instructions_executed <= old(
                    self,
                ).cpu.instructions_executed + i,
            decreases n - i,
        {
            let ghost ly_before: u8 = self.io.ppu.ly;
            let _serial: Option<u8> = self.step(&keys);
            proof {
                assert(self.io.ppu.ly == ((ly_before + 1) % 154) as u8);
                assert(((old(self).io.ppu.ly + i) % 154 + 1) % 154 == (old(self).io.ppu.ly + i + 1)
                    % 154);
            }
            i = i + 1;
        }
    }

    /// Drive the machine until the instruction budget is met, the CPU
    /// stops or faults, or a bounded number of slots per outstanding
    /// instruction has elapsed; the last clause says which of those
    /// caused the pause. Retirement never passes the budget.
    pub fn start(&mut self)
        requires
            old(self).wf(),
        ensures
            final(self).wf(),
            final(self).instr_count == old(self).instr_count,
            final(self).cursor == old(self).cursor,
            final(self).cpu.instructions_executed <= old(self).cpu.instructions_executed
                || final(self).cpu.instructions_executed <= old(self).instr_count,
            ({
                let executed0 = old(self).cpu.instructions_executed;
                let outstanding: int = if old(self).instr_count > executed0 {
                    old(self).instr_count - executed0
                } else {
                    0
                };
                let slot_bound: int = if outstanding < 100000 {
                    outstanding * 8 + 64
                } else {
                    800064int
                };
                ||| final(self).cpu.instructions_executed >= old(self).instr_count
                ||| final(self).cpu.stop
                ||| final(self).cpu.fault matches Option::Some(_)
                ||| final(self).clock_cycles >= old(self).clock_cycles + slot_bound
                ||| final(self).clock_cycles == usize::MAX
            }),
    {
        let keys: KeyInput = KeyInput::released();
        let executed: usize = self.cpu.get_instr_executed();
        let outstanding: usize = if self.instr_count > executed {
            self.instr_count - executed
        } else {
            0
        };
        let mut fuel: usize = if outstanding < 100000 {
            outstanding * 8 + 64
        } else {
            800064
        };
        let ghost fuel0: int = fuel as int;
        while fuel > 0
            invariant
                self.wf(),
                fuel <= fuel0,
                self.instr_count == old(self).instr_count,
                self.cursor == old(self).cursor,
                self.cpu.instructions_executed <= old(self).cpu.instructions_executed
                    || self.cpu.instructions_executed <= old(self).instr_count,
                self.clock_cycles >= old(self).clock_cycles + (fuel0 - fuel) || self.clock_cycles
                    == usize::MAX,
            ensures
                self.cpu.instructions_executed >= self.instr_count || self.cpu.stop || (
                self.cpu.fault matches Option::Some(_)) || self.clock_cycles >= old(
                    self,
                ).clock_cycles + fuel0 || self.clock_cycles == usize::MAX,
            decreases fuel,
        {
            if self.cpu.get_instr_executed() >= self.instr_count {
                break ;
            }
            if self.cpu.stop {
                break ;
            }
            match self.cpu.fault {
                Option::Some(_) => {
                    break ;
                },
                Option::None => {},
            }
            let _serial: Option<u8> = self.step(&keys);
            fuel = fuel - 1;
        }
    }

    /// Signal the machine to stop: the CPU enters its stopped state and
    /// `step` dispatches nothing further.
    pub fn stop(&mut self)
        ensures
            *final(self) == (GameBoy {
                cpu: (SharpSM83 { stop: true, ..old(self).cpu }),
                ..*old(self)
            }),
    {
        self.cpu.stop = true;
    }

    pub fn peek_cpu(&self) -> (r: &SharpSM83)
        ensures
            r == self.cpu,
    {
        &self.cpu
    }

    pub fn peek_memory(&self) -> (r: &Memory)
        ensures
            r == self.gamepack,
    {
        &self.gamepack
    }
}

} // verus!
