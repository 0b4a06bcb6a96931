//! A verified interpreter core for the CHIP-8 virtual machine.
//!
//! The machine is a fixed 4 KiB memory, sixteen 8-bit registers, a
//! sixteen-entry call stack, two countdown timers, a 64x32 monochrome display
//! and a sixteen-key keypad. A host drives it tick by tick: each tick fetches
//! one 16-bit instruction and executes it.
//!
//! What a tick does is defined once, as mathematics, by [`State::step`] on the
//! abstract [`State`] of a machine; [`Emu::tick`] is proved to compute exactly
//! that. The module `laws` states consequences of the definition that hold of
//! every machine.

pub mod alu;
pub mod display;
pub mod error;
pub mod instruction;
pub mod keymap;
pub mod keypad;
pub mod laws;
pub mod machine;
pub mod memory;
pub mod render;
mod rng;
pub mod semantics;
pub mod state;

pub use error::Error;
pub use instruction::{decode, Instruction};
pub use keymap::{key2btn, Key};
pub use machine::Emu;
pub use render::draw_screen;
pub use state::{State, SCREEN_HEIGHT, SCREEN_WIDTH};
