//! What a tick does, as a function on abstract states.
//!
//! A tick fetches the word at the program counter, moves the counter past
//! it, decodes the word and executes the instruction. `step` gives the state
//! that results and `outcome` tells whether the tick succeeds; the functions
//! before them define the parts.

use vstd::prelude::*;

use crate::alu::{bcd_digits, flag};
use crate::display::{sprite_at, sprite_collides, sprite_drawn};
use crate::error::Error;
use crate::instruction::{decode_spec, Instruction};
use crate::keypad::{any_key_down, lowest_key_down};
use crate::memory::overwritten;
use crate::state::{State, NUM_KEYS, RAM_SIZE, SCREEN_SIZE, STACK_SIZE};

verus! {

impl State {
    /// A whole instruction lies inside memory at the program counter.
    pub open spec fn can_fetch(self) -> bool {
        self.pc + 1 < RAM_SIZE
    }

    /// The instruction word at the program counter, high byte first.
    pub open spec fn opcode(self) -> u16 {
        (self.ram[self.pc as int] * 256 + self.ram[self.pc + 1]) as u16
    }

    /// The state with the program counter moved past one instruction.
    pub open spec fn advanced(self) -> State {
        State { pc: (self.pc + 2) as u16, ..self }
    }

    /// The state with the program counter moved back by one instruction.
    pub open spec fn rewound(self) -> State {
        State { pc: (self.pc - 2) as u16, ..self }
    }

    /// The state with the next instruction skipped if `cond` holds.
    pub open spec fn skip_if(self, cond: bool) -> State {
        if cond {
            self.advanced()
        } else {
            self
        }
    }

    /// The state with register `x` set to `val`.
    pub open spec fn with_reg(self, x: u8, val: u8) -> State {
        State { v: self.v.update(x as int, val), ..self }
    }

    /// The state with register `x` set to `val` and then the flag register
    /// to `flag(set)`. Where `x` is the flag register itself, the flag wins.
    pub open spec fn with_reg_and_flag(self, x: u8, val: u8, set: bool) -> State {
        State { v: self.v.update(x as int, val).update(15, flag(set)), ..self }
    }

    /// The sprite of `n` rows at the index register.
    pub open spec fn sprite(self, n: u8) -> Seq<u8> {
        sprite_at(self.ram, self.i as int, n as int)
    }

    /// The state after the sprite of `n` rows at the index register was
    /// drawn at the position held in registers `x` and `y`: every pixel under
    /// a set bit of the sprite is flipped, and the flag register tells
    /// whether one of them was lit before.
    pub open spec fn drawn(self, x: u8, y: u8, n: u8) -> State {
        let vx = self.v[x as int];
        let vy = self.v[y as int];
        State {
            screen: sprite_drawn(self.screen, self.sprite(n), vx, vy),
            v: self.v.update(15, flag(sprite_collides(self.screen, self.sprite(n), vx, vy))),
            ..self
        }
    }

    /// The state after the wait for a key, the instruction already fetched:
    /// with a key down, register `x` takes the lowest code that is down;
    /// with none, the program counter goes back onto the instruction, so
    /// that the next tick runs it again.
    pub open spec fn key_awaited(self, x: u8) -> State {
        if any_key_down(self.keys) {
            self.with_reg(x, lowest_key_down(self.keys) as u8)
        } else {
            self.rewound()
        }
    }

    /// The state with the decimal digits of register `x` stored at the index
    /// register: hundreds, tens, ones.
    pub open spec fn bcd_stored(self, x: u8) -> State {
        State {
            ram: overwritten(self.ram, self.i as int, bcd_digits(self.v[x as int])),
            ..self
        }
    }

    /// The state with registers 0 to `x` stored at the index register.
    pub open spec fn regs_stored(self, x: u8) -> State {
        State { ram: overwritten(self.ram, self.i as int, self.v.subrange(0, x + 1)), ..self }
    }

    /// The state with registers 0 to `x` loaded from the index register.
    pub open spec fn regs_loaded(self, x: u8) -> State {
        State {
            v: overwritten(self.v, 0, self.ram.subrange(self.i as int, self.i + x + 1)),
            ..self
        }
    }

    /// The error that stops `instr` in this state, if one does. The state
    /// is that after the fetch.
    pub open spec fn fault(self, instr: Instruction) -> Option<Error> {
        match instr {
            Instruction::Return => if self.sp == 0 {
                Some(Error::StackUnderflow)
            } else {
                None
            },
            Instruction::Call { .. } => if self.sp >= STACK_SIZE {
                Some(Error::StackOverflow)
            } else {
                None
            },
            Instruction::Draw { n, .. } => if n > 0 && self.i + n > RAM_SIZE {
                Some(Error::OutOfBoundsAccess)
            } else {
                None
            },
            Instruction::SkipKeyDown { x } | Instruction::SkipKeyUp { x } => if self.v[x as int]
                >= NUM_KEYS {
                Some(Error::InvalidKey)
            } else {
                None
            },
            Instruction::Bcd { .. } => if self.i + 3 > RAM_SIZE {
                Some(Error::OutOfBoundsAccess)
            } else {
                None
            },
            Instruction::Store { x } | Instruction::Load { x } => if self.i + x + 1 > RAM_SIZE {
                Some(Error::OutOfBoundsAccess)
            } else {
                None
            },
            _ => None,
        }
    }

    /// The state after `instr` ran to its end, with `rnd` as the random
    /// byte. The state is that after the fetch, and `instr` does not fault
    /// in it.
    pub open spec fn apply(self, instr: Instruction, rnd: u8) -> State {
        match instr {
            Instruction::Nop => self,
            Instruction::ClearScreen => State {
                screen: Seq::new(SCREEN_SIZE as nat, |p: int| false),
                ..self
            },
            Instruction::Return => State {
                pc: self.stack[self.sp - 1],
                sp: (self.sp - 1) as u16,
                ..self
            },
            Instruction::Jump { addr } => State { pc: addr, ..self },
            Instruction::Call { addr } => State {
                pc: addr,
                stack: self.stack.update(self.sp as int, self.pc),
                sp: (self.sp + 1) as u16,
                ..self
            },
            Instruction::SkipEqImm { x, nn } => self.skip_if(self.v[x as int] == nn),
            Instruction::SkipNeImm { x, nn } => self.skip_if(self.v[x as int] != nn),
            Instruction::SkipEqReg { x, y } => self.skip_if(self.v[x as int] == self.v[y as int]),
            Instruction::LoadImm { x, nn } => self.with_reg(x, nn),
            Instruction::AddImm { x, nn } => self.with_reg(x, ((self.v[x as int] + nn) % 256) as u8),
            Instruction::Move { x, y } => self.with_reg(x, self.v[y as int]),
            Instruction::Or { x, y } => self.with_reg(x, self.v[x as int] | self.v[y as int]),
            Instruction::And { x, y } => self.with_reg(x, self.v[x as int] & self.v[y as int]),
            Instruction::Xor { x, y } => self.with_reg(x, self.v[x as int] ^ self.v[y as int]),
            Instruction::Add { x, y } => {
                let sum = self.v[x as int] + self.v[y as int];
                self.with_reg_and_flag(x, (sum % 256) as u8, sum < 256)
            },
            Instruction::Sub { x, y } => {
                let diff = self.v[x as int] - self.v[y as int];
                self.with_reg_and_flag(x, (diff % 256) as u8, diff >= 0)
            },
            Instruction::ShiftRight { x } => {
                let val = self.v[x as int];
                self.with_reg_and_flag(x, val / 2, val % 2 == 1)
            },
            Instruction::SubFrom { x, y } => {
                let diff = self.v[y as int] - self.v[x as int];
                self.with_reg_and_flag(x, (diff % 256) as u8, diff >= 0)
            },
            Instruction::ShiftLeft { x } => {
                let val = self.v[x as int];
                self.with_reg_and_flag(x, ((val * 2) % 256) as u8, val >= 128)
            },
            Instruction::SkipNeReg { x, y } => self.skip_if(self.v[x as int] != self.v[y as int]),
            Instruction::LoadIndex { addr } => State { i: addr, ..self },
            Instruction::JumpOffset { addr } => State { pc: (self.v[0] + addr) as u16, ..self },
            Instruction::Random { x, nn } => self.with_reg(x, rnd & nn),
            Instruction::Draw { x, y, n } => self.drawn(x, y, n),
            Instruction::SkipKeyDown { x } => self.skip_if(self.keys[self.v[x as int] as int]),
            Instruction::SkipKeyUp { x } => self.skip_if(!self.keys[self.v[x as int] as int]),
            Instruction::ReadDelay { x } => self.with_reg(x, self.dt),
            Instruction::WaitKey { x } => self.key_awaited(x),
            Instruction::SetDelay { x } => State { dt: self.v[x as int], ..self },
            Instruction::SetSound { x } => State { st: self.v[x as int], ..self },
            Instruction::AddIndex { x } => State {
                i: ((self.i + self.v[x as int]) % 65536) as u16,
                ..self
            },
            Instruction::Glyph { x } => State { i: (self.v[x as int] * 5) as u16, ..self },
            Instruction::Bcd { x } => self.bcd_stored(x),
            Instruction::Store { x } => self.regs_stored(x),
            Instruction::Load { x } => self.regs_loaded(x),
        }
    }

    /// The state after `instr` was executed, the instruction already
    /// fetched: unchanged where it faults, as `apply` says where it does
    /// not.
    pub open spec fn executed(self, instr: Instruction, rnd: u8) -> State {
        if self.fault(instr) is Some {
            self
        } else {
            self.apply(instr, rnd)
        }
    }

    /// What the next tick reports: the error that stops it, or success.
    pub open spec fn outcome(self) -> Result<(), Error> {
        if !self.can_fetch() {
            Err(Error::OutOfBoundsFetch)
        } else {
            match decode_spec(self.opcode()) {
                None => Err(Error::UnknownOpcode),
                Some(instr) => match self.advanced().fault(instr) {
                    Some(e) => Err(e),
                    None => Ok(()),
                },
            }
        }
    }

    /// The state after the next tick, with `rnd` as the random byte.
    ///
    /// Where no instruction can be fetched, nothing changes. Otherwise the
    /// program counter moves past the instruction first; where the
    /// instruction is unknown or faults, that is all that changes.
    pub open spec fn step(self, rnd: u8) -> State {
        if !self.can_fetch() {
            self
        } else {
            match decode_spec(self.opcode()) {
                None => self.advanced(),
                Some(instr) => self.advanced().executed(instr, rnd),
            }
        }
    }

    /// The state after one tick for each byte of `rnds`, in order, each
    /// tick with its byte as the random byte.
    pub open spec fn run(self, rnds: Seq<u8>) -> State
        decreases rnds.len(),
    {
        if rnds.len() == 0 {
            self
        } else {
            self.step(rnds[0]).run(rnds.drop_first())
        }
    }

    /// The next tick draws a random byte.
    pub open spec fn draws_random(self) -> bool {
        self.can_fetch() && decode_spec(self.opcode()) matches Some(Instruction::Random { .. })
    }
}

} // verus!
