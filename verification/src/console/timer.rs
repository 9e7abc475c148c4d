//! The hardware timer: a divider that ticks at a fixed cadence and a
//! configurable counter that requests the timer-overflow interrupt when
//! it wraps, reloading from its modulo register. Both live in bus
//! registers and are stepped once per scheduler slot.

use vstd::prelude::*;

use crate::console::interrupts::{bit_u8, spec_bit_u8, TIMER_I};
use crate::console::memory::{spec_write, Memory};
use crate::console::regids::{DIV, IF, TAC, TIMA, TMA};

verus! {

/// Scheduler slots between counter increments, for each of the four
/// speed selections in the control register.
pub open spec fn spec_clock_speed(sel: u8) -> usize {
    if sel == 0 {
        256
    } else if sel == 1 {
        4
    } else if sel == 2 {
        16
    } else {
        64
    }
}

fn clock_speed(sel: u8) -> (r: usize)
    requires
        sel < 4,
    ensures
        r == spec_clock_speed(sel),
{
    if sel == 0 {
        256
    } else if sel == 1 {
        4
    } else if sel == 2 {
        16
    } else {
        64
    }
}

/// Slots between divider increments.
pub const DIV_SPEED: usize = 256;

pub struct HTimer {
    pub div_dots: usize,
    pub tima_dots: usize,
    pub div: u8,
    pub tima: u8,
    pub tma: u8,
    pub tac: u8,
}

/// The timer with its four registers re-read from the bus.
pub open spec fn spec_timer_loaded(t: HTimer, mem: Seq<u8>) -> HTimer {
    HTimer {
        div: mem[DIV as int],
        tima: mem[TIMA as int],
        tma: mem[TMA as int],
        tac: mem[TAC as int],
        ..t
    }
}

/// One timer step: registers are re-read from the bus; a stopped CPU
/// zeroes the divider; the divider increments once its cadence has
/// elapsed; when the counter's cadence has elapsed and the enable bit of
/// the control register is set, the counter increments — or, on
/// overflow, reloads from the modulo register and requests the
/// timer-overflow interrupt; the registers are written back.
pub open spec fn spec_timer_tick(t: HTimer, mem: Seq<u8>, stopped: bool) -> (HTimer, Seq<u8>) {
    let l = spec_timer_loaded(t, mem);
    let d0 = if stopped {
        HTimer { div: 0, ..l }
    } else {
        l
    };
    let d1 = if d0.div_dots >= DIV_SPEED && !stopped {
        HTimer { div: ((d0.div + 1) % 256) as u8, div_dots: 0, ..d0 }
    } else {
        d0
    };
    let speed = spec_clock_speed(d1.tac % 4);
    let stepped: (HTimer, Seq<u8>) = if d1.tima_dots >= speed {
        if spec_bit_u8(d1.tac, 2) {
            if d1.tima == 255 {
                (
                    HTimer { tima: d1.tma, tima_dots: 0, ..d1 },
                    mem.update(IF as int, mem[IF as int] | TIMER_I),
                )
            } else {
                (HTimer { tima: (d1.tima + 1) as u8, tima_dots: 0, ..d1 }, mem)
            }
        } else {
            (HTimer { tima_dots: 0, ..d1 }, mem)
        }
    } else {
        (d1, mem)
    };
    let d3 = HTimer {
        div_dots: if stepped.0.div_dots < usize::MAX {
            (stepped.0.div_dots + 1) as usize
        } else {
            stepped.0.div_dots
        },
        tima_dots: if stepped.0.tima_dots < usize::MAX {
            (stepped.0.tima_dots + 1) as usize
        } else {
            stepped.0.tima_dots
        },
        ..stepped.0
    };
    let m2 = spec_write(
        spec_write(spec_write(spec_write(stepped.1, DIV, d3.div), TIMA, d3.tima), TMA, d3.tma),
        TAC,
        d3.tac,
    );
    (d3, m2)
}

/// One timer step leaves every byte outside its four registers and the
/// pending-flags register unchanged.
pub proof fn lemma_timer_tick_preserves(t: HTimer, mem: Seq<u8>, stopped: bool, j: u16)
    requires
        mem.len() == 0x10000,
        j != DIV && j != TIMA && j != TMA && j != TAC && j != IF,
    ensures
        spec_timer_tick(t, mem, stopped).1.len() == 0x10000,
        spec_timer_tick(t, mem, stopped).1[j as int] == mem[j as int],
{
    let l = spec_timer_loaded(t, mem);
    let d0 = if stopped {
        HTimer { div: 0, ..l }
    } else {
        l
    };
    let d1 = if d0.div_dots >= DIV_SPEED && !stopped {
        HTimer { div: ((d0.div + 1) % 256) as u8, div_dots: 0, ..d0 }
    } else {
        d0
    };
    let speed = spec_clock_speed(d1.tac % 4);
    let stepped: (HTimer, Seq<u8>) = if d1.tima_dots >= speed {
        if spec_bit_u8(d1.tac, 2) {
            if d1.tima == 255 {
                (
                    HTimer { tima: d1.tma, tima_dots: 0, ..d1 },
                    mem.update(IF as int, mem[IF as int] | TIMER_I),
                )
            } else {
                (HTimer { tima: (d1.tima + 1) as u8, tima_dots: 0, ..d1 }, mem)
            }
        } else {
            (HTimer { tima_dots: 0, ..d1 }, mem)
        }
    } else {
        (d1, mem)
    };
    let d3 = spec_timer_tick(t, mem, stopped).0;
    assert(stepped.1.len() == 0x10000);
    assert(stepped.1[j as int] == mem[j as int]);
    let w1 = spec_write(stepped.1, DIV, d3.div);
    let w2 = spec_write(w1, TIMA, d3.tima);
    let w3 = spec_write(w2, TMA, d3.tma);
    crate::console::memory::lemma_write_preserves(stepped.1, DIV, d3.div, j);
    crate::console::memory::lemma_write_preserves(w1, TIMA, d3.tima, j);
    crate::console::memory::lemma_write_preserves(w2, TMA, d3.tma, j);
    crate::console::memory::lemma_write_preserves(w3, TAC, d3.tac, j);
}

impl HTimer {
    pub fn new() -> (r: HTimer)
        ensures
            r == (HTimer { div_dots: 0, tima_dots: 0, div: 0, tima: 0, tma: 0, tac: 0xf8u8 }),
    {
        HTimer { div_dots: 0, tima_dots: 0, div: 0, tima: 0u8, tma: 0u8, tac: 0xf8u8 }
    }

    /// Re-read the four timer registers from the bus.
    pub fn get_registers(&mut self, memory: &Memory)
        requires
            memory.wf(),
        ensures
            *final(self) == spec_timer_loaded(*old(self), memory@),
    {
        self.div = memory.read(DIV);
        self.tima = memory.read(TIMA);
        self.tma = memory.read(TMA);
        self.tac = memory.read(TAC);
    }

    /// Write the four timer registers back to the bus.
    pub fn set_registers(&mut self, memory: &mut Memory)
        requires
            old(memory).wf(),
        ensures
            *final(self) == *old(self),
            final(memory).wf(),
            final(memory)@ == spec_write(
                spec_write(
                    spec_write(spec_write(old(memory)@, DIV, old(self).div), TIMA, old(self).tima),
                    TMA,
                    old(self).tma,
                ),
                TAC,
                old(self).tac,
            ),
    {
        memory.write(DIV, self.div);
        memory.write(TIMA, self.tima);
        memory.write(TMA, self.tma);
        memory.write(TAC, self.tac);
    }

    /// One scheduler step of the timer, as [`spec_timer_tick`]
    /// describes.
    pub fn update(&mut self, stopped: bool, memory: &mut Memory)
        requires
            old(memory).wf(),
        ensures
            *final(self) == spec_timer_tick(*old(self), old(memory)@, stopped).0,
            final(memory)@ == spec_timer_tick(*old(self), old(memory)@, stopped).1,
            final(memory).wf(),
    {
        self.get_registers(memory);
        if stopped {
            self.div = 0;
        }
        if self.div_dots >= DIV_SPEED && !stopped {
            self.div = (((self.div as u16) + 1) % 256) as u8;
            self.div_dots = 0;
        }
        let clk_s: u8 = self.tac % 4;
        let speed: usize = clock_speed(clk_s);
        if self.tima_dots >= speed {
            let tima_en: bool = bit_u8(self.tac, 2);
            if tima_en {
                if self.tima == 255 {
                    self.tima = self.tma;
                    memory.request_interrupt(TIMER_I);
                } else {
                    self.tima = self.tima + 1;
                }
            }
            self.tima_dots = 0;
        }
        if self.div_dots < usize::MAX {
            self.div_dots = self.div_dots + 1;
        }
        if self.tima_dots < usize::MAX {
            self.tima_dots = self.tima_dots + 1;
        }
        self.set_registers(memory);
    }
}

} // verus!
