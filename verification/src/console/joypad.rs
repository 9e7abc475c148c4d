//! The input peripheral: turns the pressed-key state handed in by the
//! host into the live lower nibble of the input-select register, and
//! requests the input-change interrupt when a nibble changes. Which
//! nibble is visible follows the selection bits the program wrote.

use vstd::prelude::*;

use crate::console::interrupts::{bit_u8, spec_bit_u8, JOYPAD_I};
use crate::console::memory::{Memory, JOYP};
use crate::console::regids::IF;

verus! {

/// The pressed state of the eight keys, as plain values; the host maps
/// its own input events onto this.
#[derive(Debug, Clone, Copy, PartialEq, Eq, Structural)]
pub struct KeyInput {
    pub a: bool,
    pub b: bool,
    pub select: bool,
    pub start: bool,
    pub down: bool,
    pub up: bool,
    pub left: bool,
    pub right: bool,
}

impl KeyInput {
    /// No key pressed.
    pub fn released() -> (r: KeyInput)
        ensures
            r == (KeyInput {
                a: false,
                b: false,
                select: false,
                start: false,
                down: false,
                up: false,
                left: false,
                right: false,
            }),
    {
        KeyInput {
            a: false,
            b: false,
            select: false,
            start: false,
            down: false,
            up: false,
            left: false,
            right: false,
        }
    }
}

pub struct Joypad {
    pub start: bool,
    pub select: bool,
    pub b: bool,
    pub a: bool,
    pub down: bool,
    pub up: bool,
    pub left: bool,
    pub right: bool,
    pub buttons: u8,
    pub dpad: u8,
}

impl Default for Joypad {
    /// All keys released and both cached nibbles zero.
    fn default() -> (r: Joypad)
        ensures
            r == (Joypad {
                start: false,
                select: false,
                b: false,
                a: false,
                down: false,
                up: false,
                left: false,
                right: false,
                buttons: 0,
                dpad: 0,
            }),
    {
        Joypad {
            start: false,
            select: false,
            b: false,
            a: false,
            down: false,
            up: false,
            left: false,
            right: false,
            buttons: 0,
            dpad: 0,
        }
    }
}

/// Button nibble: a bit is clear while its key is held.
pub open spec fn spec_buttons_bin(a: bool, b: bool, select: bool, start: bool) -> u8 {
    ((if !a { 1int } else { 0int }) + (if !b { 2int } else { 0int }) + (if !select {
        4int
    } else {
        0int
    }) + (if !start { 8int } else { 0int })) as u8
}

/// Direction-pad nibble: a bit is clear while its key is held.
pub open spec fn spec_dpad_bin(right: bool, left: bool, up: bool, down: bool) -> u8 {
    ((if !right { 1int } else { 0int }) + (if !left { 2int } else { 0int }) + (if !up {
        4int
    } else {
        0int
    }) + (if !down { 8int } else { 0int })) as u8
}

/// One input step: the register's lower nibble takes the selected
/// nibble (all ones when neither is selected, the OR of live bits
/// otherwise), and a changed nibble requests the input-change
/// interrupt.
pub open spec fn spec_joypad_update(j: Joypad, mem: Seq<u8>, keys: KeyInput) -> (Joypad, Seq<u8>) {
    let buttons = spec_buttons_bin(keys.a, keys.b, keys.select, keys.start);
    let dpad = spec_dpad_bin(keys.right, keys.left, keys.up, keys.down);
    let joyp = mem[JOYP as int];
    let sel_buttons = !spec_bit_u8(joyp, 5);
    let sel_dpad = !spec_bit_u8(joyp, 4);
    let d0 = joyp & 0xF0;
    let d1 = if sel_buttons {
        d0 | buttons
    } else {
        d0
    };
    let d2 = if sel_dpad {
        d1 | dpad
    } else {
        d1
    };
    let data = if !sel_dpad && !sel_buttons {
        d2 | 0x0F
    } else {
        d2
    };
    let m1 = if j.dpad != dpad {
        mem.update(IF as int, mem[IF as int] | JOYPAD_I)
    } else {
        mem
    };
    let m2 = if j.buttons != buttons {
        m1.update(IF as int, m1[IF as int] | JOYPAD_I)
    } else {
        m1
    };
    let j2 = Joypad {
        a: keys.a,
        b: keys.b,
        select: keys.select,
        start: keys.start,
        down: keys.down,
        up: keys.up,
        left: keys.left,
        right: keys.right,
        buttons,
        dpad,
    };
    (j2, m2.update(JOYP as int, data))
}

impl Joypad {
    /// One scheduler step of the input peripheral, as
    /// [`spec_joypad_update`] describes.
    #[verifier::rlimit(100)]
    pub fn update(&mut self, memory: &mut Memory, keys: &KeyInput)
        requires
            old(memory).wf(),
        ensures
            *final(self) == spec_joypad_update(*old(self), old(memory)@, *keys).0,
            final(memory)@ == spec_joypad_update(*old(self), old(memory)@, *keys).1,
            final(memory).wf(),
    {
        self.a = keys.a;
        self.b = keys.b;
        self.select = keys.select;
        self.start = keys.start;
        self.down = keys.down;
        self.up = keys.up;
        self.left = keys.left;
        self.right = keys.right;

        let joyp: u8 = memory.read(JOYP);
        let sel_buttons: bool = !bit_u8(joyp, 5);
        let sel_dpad: bool = !bit_u8(joyp, 4);

        let dpad: u8 = self.dpad_to_bin();
        let buttons: u8 = self.buttons_to_bin();

        let mut data: u8 = joyp & 0xF0;
        if sel_buttons {
            data = data | buttons;
        }
        if sel_dpad {
            data = data | dpad;
        }
        if !sel_dpad && !sel_buttons {
            data = data | 0x0F;
        }

        if self.dpad != dpad {
            memory.request_interrupt(JOYPAD_I);
            self.dpad = dpad;
        }
        if self.buttons != buttons {
            memory.request_interrupt(JOYPAD_I);
            self.buttons = buttons;
        }
        memory.write_io(JOYP, data);
    }

    /// The live button nibble for the current key state.
    pub fn buttons_to_bin(&self) -> (r: u8)
        ensures
            r == spec_buttons_bin(self.a, self.b, self.select, self.start),
    {
        let mut input: u8 = 0;
        if !self.a {
            input = input + 1;
        }
        if !self.b {
            input = input + 2;
        }
        if !self.select {
            input = input + 4;
        }
        if !self.start {
            input = input + 8;
        }
        input
    }

    /// The live direction-pad nibble for the current key state.
    pub fn dpad_to_bin(&self) -> (r: u8)
        ensures
            r == spec_dpad_bin(self.right, self.left, self.up, self.down),
    {
        let mut input: u8 = 0;
        if !self.right {
            input = input + 1;
        }
        if !self.left {
            input = input + 2;
        }
        if !self.up {
            input = input + 4;
        }
        if !self.down {
            input = input + 8;
        }
        input
    }
}

} // verus!
