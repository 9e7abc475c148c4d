//! The audio peripheral: reads the square-wave and wave-channel
//! registers each step, applies the frequency sweep, and accumulates
//! sample bytes that the host's audio callback drains. The duty-cycle
//! fractions are dyadic, so the sample arithmetic is exact in integers.

use vstd::prelude::*;

use crate::console::memory::Memory;

verus! {

// Master control registers.
pub const NR52: u16 = 0xFF26;

pub const NR51: u16 = 0xFF25;

pub const NR50: u16 = 0xFF24;

// Channel 1 (square wave with sweep).
pub const NR10: u16 = 0xFF10;

pub const NR11: u16 = 0xFF11;

pub const NR12: u16 = 0xFF12;

pub const NR13: u16 = 0xFF13;

pub const NR14: u16 = 0xFF14;

// Channel 3 (wave pattern).
pub const NR30: u16 = 0xFF1B;

pub const NR31: u16 = 0xFF1C;

pub const NR32: u16 = 0xFF1D;

pub const NR33: u16 = 0xFF1E;

pub const NR34: u16 = 0xFF1F;

/// Start of the 16-byte wave pattern RAM.
pub const WAVE_START: u16 = 0xFF30;

pub open spec fn spec_pow2_u16(i: u8) -> u16 {
    if i == 0 {
        1
    } else if i == 1 {
        2
    } else if i == 2 {
        4
    } else if i == 3 {
        8
    } else if i == 4 {
        16
    } else if i == 5 {
        32
    } else if i == 6 {
        64
    } else {
        128
    }
}

fn pow2_u16(i: u8) -> (r: u16)
    requires
        i < 8,
    ensures
        r == spec_pow2_u16(i),
        1 <= r <= 128,
{
    if i == 0 {
        1
    } else if i == 1 {
        2
    } else if i == 2 {
        4
    } else if i == 3 {
        8
    } else if i == 4 {
        16
    } else if i == 5 {
        32
    } else if i == 6 {
        64
    } else {
        128
    }
}

/// The phase threshold: duty fraction (1/8, 1/4, 1/2 or 3/4 for the
/// four wave-duty selections) of the initial length, rounded down.
pub open spec fn spec_duty_phase(duty: u8, len: u16) -> u16 {
    if duty == 0 {
        len / 8
    } else if duty == 1 {
        len / 4
    } else if duty == 2 {
        len / 2
    } else {
        ((len * 3) / 4) as u16
    }
}

/// The swept period: the base period plus or minus its fraction
/// `1 / 2^step`, by the sweep direction bit.
pub open spec fn spec_swept_period(base: u16, direction: u8, step: u8) -> u16 {
    if direction == 0 {
        (base + base / spec_pow2_u16(step)) as u16
    } else {
        (base - base / spec_pow2_u16(step)) as u16
    }
}

pub struct Apu {
    pub period1: u16,
    pub volume1: u8,
    pub phase: u16,
    pub channel1: Vec<u8>,
    pub channel3: Vec<u8>,
    pub channel3_pos: u8,
    pub sweeping: bool,
}

/// A buffer of accumulated samples, drained from a fixed position by
/// the host's audio callback.
pub struct Sound {
    pub data: Vec<u8>,
    pub pos: usize,
}

impl Apu {
    pub fn new() -> (r: Apu)
        ensures
            r.period1 == 0,
            r.volume1 == 0,
            r.phase == 0,
            r.channel1@.len() == 0,
            r.channel3@.len() == 0,
            r.channel3_pos == 0,
            r.sweeping == false,
    {
        Apu {
            period1: 0,
            volume1: 0,
            phase: 0,
            channel1: Vec::new(),
            channel3: Vec::new(),
            channel3_pos: 0,
            sweeping: false,
        }
    }

    /// One step: read the channel-1 registers, apply the sweep, append
    /// one square-wave sample, and append the 32 wave-RAM nibble
    /// samples of channel 3. The bus is only read.
    pub fn update(&mut self, memory: &mut Memory)
        requires
            old(memory).wf(),
        ensures
            *final(memory) == *old(memory),
            final(memory).wf(),
            ({
                let mem = old(memory)@;
                let nr10 = mem[NR10 as int];
                let nr11 = mem[NR11 as int];
                let nr12 = mem[NR12 as int];
                let nr14 = mem[NR14 as int];
                let base = ((nr14 % 8) * 256 + mem[NR13 as int]) as u16;
                let period = spec_swept_period(base, nr10 % 2, nr10 % 8);
                let phase = spec_duty_phase(nr11 % 4, (nr11 % 32) as u16);
                let volume = nr12 % 16;
                let sample = if period <= phase {
                    volume
                } else {
                    0u8
                };
                &&& final(self).period1 == period
                &&& final(self).volume1 == volume
                &&& final(self).phase == phase
                &&& final(self).sweeping == true
                &&& final(self).channel3_pos == old(self).channel3_pos
                &&& final(self).channel1@ == old(self).channel1@.push(sample)
                &&& final(self).channel3@.len() == old(self).channel3@.len() + 32
                &&& (forall|k: int|
                    0 <= k < old(self).channel3@.len() ==> final(self).channel3@[k] == old(
                        self,
                    ).channel3@[k])
                &&& (forall|k: int|
                    0 <= k < 32 ==> #[trigger] final(self).channel3@[old(self).channel3@.len() + k]
                        == mem[0xFF30 + k / 2] % 16)
            }),
    {
        self.sweeping = true;
        let nr10: u8 = memory.read(NR10);
        let direction: u8 = nr10 % 2;
        let individual_step: u8 = nr10 % 8;

        let nr11: u8 = memory.read(NR11);
        let wave_duty: u8 = nr11 % 4;
        let initial_length: u8 = nr11 % 32;

        let nr12: u8 = memory.read(NR12);
        let initial_volume: u8 = nr12 % 16;

        let period_low: u8 = memory.read(NR13);
        let nr14: u8 = memory.read(NR14);
        let period_high: u8 = nr14 % 8;

        self.volume1 = initial_volume;
        let base: u16 = period_high as u16 * 256 + period_low as u16;

        let pow: u16 = pow2_u16(individual_step);
        let frac: u16 = base / pow;
        proof {
            assert(frac <= base) by (nonlinear_arith)
                requires
                    1 <= pow,
                    0 <= base,
                    frac == base / pow,
            ;
        }
        self.period1 = if direction == 0 {
            base + frac
        } else {
            base - frac
        };

        self.phase = if wave_duty == 0 {
            initial_length as u16 / 8
        } else if wave_duty == 1 {
            initial_length as u16 / 4
        } else if wave_duty == 2 {
            initial_length as u16 / 2
        } else {
            initial_length as u16 * 3 / 4
        };
        if self.sweeping {
            let x: u8 = if self.period1 <= self.phase {
                self.volume1
            } else {
                0
            };
            self.channel1.push(x);
        }

        let mut i: u16 = 0;
        let ghost base_len: int = self.channel3@.len() as int;
        let ghost pre: Apu = *self;
        while i < 16
            invariant
                i <= 16,
                memory.wf(),
                *memory == *old(memory),
                self.period1 == pre.period1,
                self.volume1 == pre.volume1,
                self.phase == pre.phase,
                self.sweeping == pre.sweeping,
                self.channel3_pos == pre.channel3_pos,
                self.channel1@ == pre.channel1@,
                base_len == pre.channel3@.len(),
                base_len >= 0,
                self.channel3@.len() == base_len + 2 * i,
                forall|k: int| 0 <= k < base_len ==> self.channel3@[k] == pre.channel3@[k],
                forall|k: int|
                    0 <= k < 2 * i ==> #[trigger] self.channel3@[base_len + k] == memory@[0xFF30 + k
                        / 2] % 16,
            decreases 16 - i,
        {
            let ghost prev: Seq<u8> = self.channel3@;
            let x: u8 = memory.read(WAVE_START + i);
            self.channel3.push(x % 16);
            self.channel3.push(x % 16);
            proof {
                let mid = prev.push(x % 16);
                let cur = self.channel3@;
                assert(cur == mid.push(x % 16));
                assert(prev.len() == base_len + 2 * (i as int));
                assert forall|k: int|
                    0 <= k < 2 * (i as int) + 2 implies #[trigger] cur[base_len + k] == memory@[
                    0xFF30 + k / 2] % 16 by {
                    if k < 2 * (i as int) {
                        assert(mid[base_len + k] == prev[base_len + k]);
                        assert(cur[base_len + k] == mid[base_len + k]);
                    } else if k == 2 * (i as int) {
                        assert(k / 2 == i as int);
                        assert(mid[base_len + k] == x % 16);
                        assert(cur[base_len + k] == mid[base_len + k]);
                    } else {
                        assert(k / 2 == i as int);
                        assert(cur[base_len + k] == x % 16);
                    }
                };
            }
            i = i + 1;
        }
    }

    /// Drain the accumulated wave-channel samples into a playable
    /// buffer; both channel buffers are emptied.
    pub fn get_sound(&mut self) -> (r: Sound)
        ensures
            r.data@ == old(self).channel3@,
            r.pos == 0,
            final(self).channel1@.len() == 0,
            final(self).channel3@.len() == 0,
            final(self).period1 == old(self).period1,
            final(self).volume1 == old(self).volume1,
            final(self).phase == old(self).phase,
    {
        let data3: Vec<u8> = self.get_channel3_copy();
        self.channel1.clear();
        self.channel3.clear();
        Sound { data: data3, pos: 0 }
    }

    /// A copy of the wave-channel sample buffer.
    fn get_channel3_copy(&self) -> (r: Vec<u8>)
        ensures
            r@ == self.channel3@,
    {
        let mut out: Vec<u8> = Vec::new();
        let mut i: usize = 0;
        while i < self.channel3.len()
            invariant
                i <= self.channel3@.len(),
                i == out@.len(),
                forall|k: int| 0 <= k < i ==> out@[k] == self.channel3@[k],
            decreases self.channel3@.len() - i,
        {
            out.push(self.channel3[i]);
            i = i + 1;
        }
        proof {
            assert(out@ =~= self.channel3@);
        }
        out
    }
}

} // verus!
