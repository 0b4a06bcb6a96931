//! The ways in which a tick can fail.

use vstd::prelude::*;

verus! {

/// Why a tick stopped without completing its instruction.
#[derive(Clone, Copy, Debug, PartialEq, Eq, Structural)]
pub enum Error {
    /// The program counter does not leave room for a whole instruction
    /// inside memory.
    OutOfBoundsFetch,
    /// A call was made with all sixteen stack entries in use.
    StackOverflow,
    /// A return was made with no call outstanding.
    StackUnderflow,
    /// The fetched word matches no instruction.
    UnknownOpcode,
    /// An instruction addressed memory through the index register past the
    /// end of memory.
    OutOfBoundsAccess,
    /// A key instruction named a key code that the keypad does not have.
    InvalidKey,
}

} // verus!
