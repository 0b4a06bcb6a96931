//! The sizes of the machine, its font, and its abstract state.

use vstd::prelude::*;

use crate::memory::overwritten;

verus! {

/// Width of the display, in pixels.
pub const SCREEN_WIDTH: usize = 64;

/// Height of the display, in pixels.
pub const SCREEN_HEIGHT: usize = 32;

/// Number of pixels of the display.
pub const SCREEN_SIZE: usize = 2048;

/// Number of bytes of memory.
pub const RAM_SIZE: usize = 4096;

/// Number of general registers.
pub const NUM_REGS: usize = 16;

/// Number of return addresses that the call stack holds.
pub const STACK_SIZE: usize = 16;

/// Number of keys of the keypad.
pub const NUM_KEYS: usize = 16;

/// Address at which programs are loaded and start.
pub const START_ADDR: u16 = 0x200;

/// Number of bytes of the built-in font.
pub const FONTSET_SIZE: usize = 80;

/// The built-in font: sixteen glyphs of five bytes each, for the hexadecimal
/// digits in order. Each byte is one row of a glyph, its high four bits the
/// pixels from left to right.
pub const FONTSET: [u8; FONTSET_SIZE] = [
    0xF0, 0x90, 0x90, 0x90, 0xF0,
    0x20, 0x60, 0x20, 0x20, 0x70,
    0xF0, 0x10, 0xF0, 0x80, 0xF0,
    0xF0, 0x10, 0xF0, 0x10, 0xF0,
    0x90, 0x90, 0xF0, 0x10, 0x10,
    0xF0, 0x80, 0xF0, 0x10, 0xF0,
    0xF0, 0x80, 0xF0, 0x90, 0xF0,
    0xF0, 0x10, 0x20, 0x40, 0x40,
    0xF0, 0x90, 0xF0, 0x90, 0xF0,
    0xF0, 0x90, 0xF0, 0x10, 0xF0,
    0xF0, 0x90, 0xF0, 0x90, 0x90,
    0xE0, 0x90, 0xE0, 0x90, 0xE0,
    0xF0, 0x80, 0x80, 0x80, 0xF0,
    0xE0, 0x90, 0x90, 0x90, 0xE0,
    0xF0, 0x80, 0xF0, 0x80, 0xF0,
    0xF0, 0x80, 0xF0, 0x80, 0x80,
];

/// The abstract state of a machine: every field of it as a plain value.
///
/// Memory, display, registers, stack and keypad are sequences; the display is
/// stored row by row, the pixel in column `x` of row `y` at `x + 64 * y`.
#[verifier::ext_equal]
pub struct State {
    /// Program counter.
    pub pc: u16,
    /// Memory.
    pub ram: Seq<u8>,
    /// Display, `true` for a lit pixel.
    pub screen: Seq<bool>,
    /// General registers; the last one doubles as the flag register.
    pub v: Seq<u8>,
    /// Index register.
    pub i: u16,
    /// Number of return addresses on the stack.
    pub sp: u16,
    /// Stack slots; those below `sp` are in use.
    pub stack: Seq<u16>,
    /// Keypad, `true` for a key held down.
    pub keys: Seq<bool>,
    /// Delay timer.
    pub dt: u8,
    /// Sound timer.
    pub st: u8,
}

impl State {
    /// Every part has its fixed size and the stack pointer is within the
    /// stack.
    pub open spec fn wf(self) -> bool {
        &&& self.ram.len() == RAM_SIZE
        &&& self.screen.len() == SCREEN_SIZE
        &&& self.v.len() == NUM_REGS
        &&& self.stack.len() == STACK_SIZE
        &&& self.keys.len() == NUM_KEYS
        &&& self.sp <= STACK_SIZE
    }

    /// The state of a machine that was just built: the font at the start of
    /// memory, the program counter at the start address, all else zero.
    pub open spec fn fresh() -> State {
        State {
            pc: START_ADDR,
            ram: overwritten(Seq::new(RAM_SIZE as nat, |a: int| 0u8), 0, FONTSET@),
            screen: Seq::new(SCREEN_SIZE as nat, |p: int| false),
            v: Seq::new(NUM_REGS as nat, |k: int| 0u8),
            i: 0,
            sp: 0,
            stack: Seq::new(STACK_SIZE as nat, |k: int| 0u16),
            keys: Seq::new(NUM_KEYS as nat, |k: int| false),
            dt: 0,
            st: 0,
        }
    }

    /// The state after `data` was copied into memory from the start address
    /// on.
    pub open spec fn loaded(self, data: Seq<u8>) -> State {
        State { ram: overwritten(self.ram, START_ADDR as int, data), ..self }
    }

    /// The state after both timers counted down once, each stopping at zero.
    pub open spec fn timers_ticked(self) -> State {
        State {
            dt: if self.dt > 0 { (self.dt - 1) as u8 } else { 0 },
            st: if self.st > 0 { (self.st - 1) as u8 } else { 0 },
            ..self
        }
    }

    /// The state after key `idx` was pressed or released.
    pub open spec fn key_set(self, idx: int, pressed: bool) -> State {
        State { keys: self.keys.update(idx, pressed), ..self }
    }
}

} // verus!
