//! The bus: a flat byte-addressable store covering the whole 64 KiB
//! address map, with the three special write rules of the platform —
//! mirrored working RAM, the single-shot object-attribute-memory copy
//! trigger, and the half-writable input-select register.

use vstd::prelude::*;

use crate::console::regids::IF;

verus! {

pub const KBIT: usize = 1024;

pub const KBYTE: usize = 8192;

pub const BYTE: usize = 8;

/// Full size of the address space.
pub const MEM_SIZE: usize = 0x10000;

/// The low working-RAM window; a write to it is mirrored 0x2000 higher.
pub const ECHO_LO_START: u16 = 0xC000;

pub const ECHO_LO_END: u16 = 0xDDFF;

/// The echo window; a write to it is mirrored 0x2000 lower.
pub const ECHO_HI_START: u16 = 0xE000;

pub const ECHO_HI_END: u16 = 0xFDFF;

/// Distance between a working-RAM byte and its echo.
pub const ECHO_OFFSET: u16 = 0x2000;

/// Writing this register stores the byte and copies 160 bytes from
/// `byte << 8` into object-attribute memory.
pub const DMA: u16 = 0xFF46;

/// Object-attribute memory window filled by the copy.
pub const OAM_START: u16 = 0xFE00;

pub const OAM_LEN: u16 = 160;

/// Input-select register: only the upper nibble is CPU-writable; the lower
/// nibble reflects live input state.
pub const JOYP: u16 = 0xFF00;

pub struct Memory {
    data: Vec<u8>,
}

impl View for Memory {
    type V = Seq<u8>;

    closed spec fn view(&self) -> Seq<u8> {
        self.data@
    }
}

/// Contents of a freshly built store: all zero, but the input-select
/// register starts with neither selection bit active.
pub open spec fn spec_initial_mem(size: nat) -> Seq<u8> {
    Seq::new(size, |i: int| if i == 0xFF00 && size > 0xFF00 { 0b00110000u8 } else { 0u8 })
}

/// The 160-byte object-attribute-memory copy: the window at 0xFE00 takes
/// the bytes at `source << 8`; everything else is unchanged.
#[verifier::opaque]
pub open spec fn spec_dma(mem: Seq<u8>, source: u8) -> Seq<u8> {
    Seq::new(
        mem.len(),
        |i: int|
            if 0xFE00 <= i < 0xFE00 + 160 {
                mem[source * 256 + (i - 0xFE00)]
            } else {
                mem[i]
            },
    )
}

/// What one bus write stores, with the special rules applied in order:
/// mirrored working RAM, the object-attribute-memory copy trigger, the
/// masked input-select register, then a plain store.
#[verifier::opaque]
pub open spec fn spec_write(mem: Seq<u8>, addr: u16, byte: u8) -> Seq<u8> {
    if 0xC000 <= addr <= 0xDDFF {
        mem.update(addr as int, byte).update(addr + 0x2000, byte)
    } else if 0xE000 <= addr <= 0xFDFF {
        mem.update(addr - 0x2000, byte).update(addr as int, byte)
    } else if addr == 0xFF46 {
        spec_dma(mem.update(addr as int, byte), byte)
    } else if addr == 0xFF00 {
        mem.update(addr as int, (byte / 16 * 16 + mem[addr as int] % 16) as u8)
    } else {
        mem.update(addr as int, byte)
    }
}

/// A byte sequence mapped into the bottom of the address space, one bus
/// write per byte, in order.
pub open spec fn spec_load(mem: Seq<u8>, data: Seq<u8>, n: int) -> Seq<u8>
    decreases n,
{
    if n <= 0 {
        mem
    } else {
        spec_write(spec_load(mem, data, n - 1), (n - 1) as u16, data[n - 1])
    }
}

impl Memory {
    /// A store of full size, on which every 16-bit address is in range.
    pub open spec fn wf(&self) -> bool {
        self@.len() == 0x10000
    }

    pub fn new(size: usize) -> (r: Memory)
        ensures
            r@ == spec_initial_mem(size as nat),
            r@.len() == size,
            size == MEM_SIZE ==> r.wf(),
    {
        let mut data: Vec<u8> = Vec::new();
        let mut i: usize = 0;
        while i < size
            invariant
                i == data@.len(),
                i <= size,
                forall|j: int| 0 <= j < i ==> data@[j] == 0u8,
            decreases size - i,
        {
            data.push(0u8);
            i = i + 1;
        }
        if size > 0xFF00 {
            data[0xFF00] = 0b00110000u8;
        }
        let r = Memory { data };
        proof {
            assert(r@ =~= spec_initial_mem(size as nat));
        }
        r
    }

    /// A copy of the whole store.
    pub fn get_data(&self) -> (r: Vec<u8>)
        ensures
            r@ == self@,
    {
        let mut out: Vec<u8> = Vec::new();
        let mut i: usize = 0;
        while i < self.data.len()
            invariant
                i == out@.len(),
                i <= self.data@.len(),
                out@ == self.data@.subrange(0, i as int),
                self@ == self.data@,
            decreases self.data@.len() - i,
        {
            out.push(self.data[i]);
            proof {
                assert(out@ =~= self.data@.subrange(0, i + 1));
            }
            i = i + 1;
        }
        proof {
            assert(out@ =~= self@);
        }
        out
    }

    /// Raw read, used by peripherals on their own registers.
    pub fn read_io(&self, addr: u16) -> (r: u8)
        requires
            addr < self@.len(),
        ensures
            r == self@[addr as int],
    {
        self.data[addr as usize]
    }

    /// Bus read: no side effects, always the stored byte.
    pub fn read(&self, addr: u16) -> (r: u8)
        requires
            addr < self@.len(),
        ensures
            r == self@[addr as int],
    {
        self.data[addr as usize]
    }

    /// Bus write, applying the mirroring and masking rules of
    /// [`spec_write`].
    pub fn write(&mut self, addr: u16, byte: u8)
        requires
            old(self).wf(),
        ensures
            final(self).wf(),
            final(self)@ == spec_write(old(self)@, addr, byte),
    {
        proof {
            reveal(spec_write);
        }
        if 0xC000 <= addr && addr <= 0xDDFF {
            self.data[addr as usize] = byte;
            self.data[(addr + 0x2000) as usize] = byte;
        } else if 0xE000 <= addr && addr <= 0xFDFF {
            self.data[(addr - 0x2000) as usize] = byte;
            self.data[addr as usize] = byte;
        } else if addr == 0xFF46 {
            self.data[addr as usize] = byte;
            self.dma_transfer(byte);
        } else if addr == 0xFF00 {
            let old_v: u8 = self.data[addr as usize];
            self.data[addr as usize] = byte / 16 * 16 + old_v % 16;
        } else {
            self.data[addr as usize] = byte;
        }
    }

    /// Raw write, used by peripherals on their own registers: no
    /// mirroring or masking.
    pub fn write_io(&mut self, addr: u16, byte: u8)
        requires
            addr < old(self)@.len(),
        ensures
            final(self)@ == old(self)@.update(addr as int, byte),
            final(self)@.len() == old(self)@.len(),
    {
        self.data[addr as usize] = byte;
    }

    /// The single-shot block copy into object-attribute memory.
    fn dma_transfer(&mut self, source: u8)
        requires
            old(self).wf(),
        ensures
            final(self).wf(),
            final(self)@ == spec_dma(old(self)@, source),
    {
        proof {
            reveal(spec_dma);
        }
        let src: u16 = source as u16 * 256;
        let mut i: u16 = 0;
        while i < 160
            invariant
                self@.len() == 0x10000,
                i <= 160,
                src == source * 256,
                forall|j: int|
                    0 <= j < 0x10000 && !(0xFE00 <= j < 0xFE00 + i) ==> self@[j] == old(self)@[j],
                forall|j: int|
                    0xFE00 <= j < 0xFE00 + i ==> self@[j] == old(self)@[src + (j - 0xFE00)],
            decreases 160 - i,
        {
            proof {
                assert(src + i < 0x10000);
                assert(!(0xFE00 <= src + i < 0xFE00 + i));
            }
            let byte: u8 = self.data[(src + i) as usize];
            self.data[(0xFE00 + i) as usize] = byte;
            i = i + 1;
        }
        proof {
            assert(self@ =~= spec_dma(old(self)@, source));
        }
    }

    /// OR one source bit into the pending-flags register; usable by any
    /// peripheral that holds the bus.
    pub fn request_interrupt(&mut self, interrupt: u8)
        requires
            old(self).wf(),
        ensures
            final(self).wf(),
            final(self)@ == old(self)@.update(IF as int, old(self)@[IF as int] | interrupt),
    {
        let if_old: u8 = self.read(IF);
        let if_new: u8 = if_old | interrupt;
        self.write(IF, if_new);
        proof {
            reveal(spec_write);
        }
    }
}


/// Mirrored-RAM invariant: a byte stored through the bus anywhere in the
/// low working-RAM window is read back unchanged at its echo address
/// 0x2000 higher, and a store into the echo window is read back at the
/// low address; both windows also read back the byte at the written
/// address itself.
pub proof fn lemma_echo_mirror(mem: Seq<u8>, addr: u16, v: u8)
    requires
        mem.len() == 0x10000,
    ensures
        0xC000 <= addr <= 0xDDFF ==> spec_write(mem, addr, v)[addr + 0x2000] == v,
        0xC000 <= addr <= 0xDDFF ==> spec_write(mem, addr, v)[addr as int] == v,
        0xE000 <= addr <= 0xFDFF ==> spec_write(mem, addr, v)[addr - 0x2000] == v,
        0xE000 <= addr <= 0xFDFF ==> spec_write(mem, addr, v)[addr as int] == v,
{
    reveal(spec_write);
}

/// A bus write leaves the written byte readable at the written address
/// (everywhere but the masked input-select register), and keeps the
/// store at full size.
pub proof fn lemma_write_readback(mem: Seq<u8>, addr: u16, v: u8)
    requires
        mem.len() == 0x10000,
        addr != 0xFF00,
    ensures
        spec_write(mem, addr, v).len() == 0x10000,
        spec_write(mem, addr, v)[addr as int] == v,
{
    reveal(spec_write);
    reveal(spec_dma);
}

/// A bus write touches nothing outside the written address, its echo
/// partner, and — for the copy trigger — the object-attribute window.
pub proof fn lemma_write_preserves(mem: Seq<u8>, addr: u16, v: u8, j: u16)
    requires
        mem.len() == 0x10000,
        j != addr,
        !(0xC000 <= addr <= 0xDDFF && j == addr + 0x2000),
        !(0xE000 <= addr <= 0xFDFF && j == addr - 0x2000),
        !(addr == 0xFF46 && 0xFE00 <= j < 0xFEA0),
    ensures
        spec_write(mem, addr, v).len() == 0x10000,
        spec_write(mem, addr, v)[j as int] == mem[j as int],
{
    reveal(spec_write);
    reveal(spec_dma);
}

} // verus!
