//! The machine itself: its state in fixed arrays, and the operations of the
//! host on it.

use vstd::prelude::*;

use crate::alu::{add_bytes, offset_address, shift_left, shift_right, sub_bytes, to_bcd};
use crate::display::draw_sprite;
use crate::error::Error;
use crate::instruction::{decode, Instruction};
use crate::keypad::{first_key_down, lowest_key_down_is_unique};
use crate::memory::{copy_bytes, overwritten};
use crate::rng::random_byte;
use crate::state::{
    State, FONTSET, FONTSET_SIZE, NUM_KEYS, NUM_REGS, RAM_SIZE, SCREEN_SIZE, STACK_SIZE,
    START_ADDR,
};

verus! {

/// A CHIP-8 machine.
///
/// Its abstract state is its view, `self@`, a [`State`]. The stack pointer
/// never leaves the stack: that is an invariant of the type, so no operation
/// asks its caller for it.
pub struct Emu {
    pc: u16,
    ram: [u8; RAM_SIZE],
    screen: [bool; SCREEN_SIZE],
    v_reg: [u8; NUM_REGS],
    i_reg: u16,
    sp: u16,
    stack: [u16; STACK_SIZE],
    keys: [bool; NUM_KEYS],
    dt: u8,
    st: u8,
}

impl View for Emu {
    type V = State;

    closed spec fn view(&self) -> State {
        State {
            pc: self.pc,
            ram: self.ram@,
            screen: self.screen@,
            v: self.v_reg@,
            i: self.i_reg,
            sp: self.sp,
            stack: self.stack@,
            keys: self.keys@,
            dt: self.dt,
            st: self.st,
        }
    }
}

/// A memory that holds the font at its start and zeros after it.
fn fresh_memory() -> (ram: [u8; RAM_SIZE])
    ensures
        ram@ == State::fresh().ram,
{
    let mut ram = [0u8; RAM_SIZE];
    copy_bytes(&mut ram, 0, &FONTSET, 0, FONTSET_SIZE);
    ram
}

impl Emu {
    #[verifier::type_invariant]
    spec fn stack_pointer_in_stack(self) -> bool {
        self.sp <= STACK_SIZE
    }

    /// The view leaves nothing out: two machines with the same abstract
    /// state are equal field by field.
    pub proof fn view_is_faithful(self, other: Emu)
        requires
            self@ == other@,
        ensures
            self == other,
    {
        assert(self.ram =~= other.ram);
        assert(self.screen =~= other.screen);
        assert(self.v_reg =~= other.v_reg);
        assert(self.stack =~= other.stack);
        assert(self.keys =~= other.keys);
    }

    /// Builds a machine in its initial state.
    pub fn new() -> (emu: Emu)
        ensures
            emu@ == State::fresh(),
            emu@.wf(),
    {
        Emu {
            pc: START_ADDR,
            ram: fresh_memory(),
            screen: [false; SCREEN_SIZE],
            v_reg: [0; NUM_REGS],
            i_reg: 0,
            sp: 0,
            stack: [0; STACK_SIZE],
            keys: [false; NUM_KEYS],
            dt: 0,
            st: 0,
        }
    }

    /// Copies a program into memory, from the start address on. Nothing
    /// else changes.
    ///
    /// The program has to fit between the start address and the end of
    /// memory.
    pub fn load(&mut self, data: &[u8])
        requires
            data@.len() <= RAM_SIZE - START_ADDR,
        ensures
            final(self)@ == old(self)@.loaded(data@),
            final(self)@.wf(),
    {
        proof {
            use_type_invariant(&*self);
        }
        let start = START_ADDR as usize;
        let mut k: usize = 0;
        while k < data.len()
            invariant
                self.sp <= STACK_SIZE,
                start == START_ADDR,
                k <= data@.len() <= RAM_SIZE - START_ADDR,
                self@ == (State { ram: self@.ram, ..old(self)@ }),
                self.ram@ == overwritten(old(self).ram@, start as int, data@.take(k as int)),
            decreases data@.len() - k,
        {
            self.ram[start + k] = data[k];
            k += 1;
        }
    }

    /// Puts the machine back into its initial state, whatever it went
    /// through before.
    pub fn reset(&mut self)
        ensures
            final(self)@ == State::fresh(),
            final(self)@.wf(),
    {
        proof {
            use_type_invariant(&*self);
        }
        self.pc = START_ADDR;
        self.ram = fresh_memory();
        self.screen = [false; SCREEN_SIZE];
        self.v_reg = [0; NUM_REGS];
        self.i_reg = 0;
        self.sp = 0;
        self.stack = [0; STACK_SIZE];
        self.keys = [false; NUM_KEYS];
        self.dt = 0;
        self.st = 0;
    }

    /// Runs one instruction: fetches the word at the program counter,
    /// decodes it and executes it. The instruction `Cxnn` draws its random
    /// byte from the `rand` crate.
    ///
    /// The result is `outcome()` of the old state, and the new state is
    /// `step(rnd)` of the old one for the byte `rnd` that was drawn. On an
    /// error the program counter has moved past the instruction, unless
    /// none could be fetched, and nothing else has changed.
    pub fn tick(&mut self) -> (res: Result<(), Error>)
        ensures
            res == old(self)@.outcome(),
            exists|rnd: u8| final(self)@ == #[trigger] old(self)@.step(rnd),
            final(self)@.wf(),
    {
        let res = match self.fetch() {
            Ok(op) => match decode(op) {
                Some(instr) => {
                    let rnd = match instr {
                        Instruction::Random { .. } => random_byte(),
                        _ => 0,
                    };
                    let res = self.execute(instr, rnd);
                    assert(self@ == old(self)@.step(rnd));
                    res
                },
                None => {
                    assert(self@ == old(self)@.step(0));
                    Err(Error::UnknownOpcode)
                },
            },
            Err(e) => {
                assert(self@ == old(self)@.step(0));
                Err(e)
            },
        };
        proof {
            use_type_invariant(&*self);
        }
        res
    }

    /// Runs one instruction with `rnd` as the random byte: fetches the word
    /// at the program counter, decodes it and executes it.
    ///
    /// Only the instruction `Cxnn` looks at `rnd`. With it fixed, the tick
    /// is a function of the machine's state: the new state is `step(rnd)`
    /// of the old one, and the result its `outcome()`.
    pub fn tick_with(&mut self, rnd: u8) -> (res: Result<(), Error>)
        ensures
            res == old(self)@.outcome(),
            final(self)@ == old(self)@.step(rnd),
            final(self)@.wf(),
    {
        let res = match self.fetch() {
            Ok(op) => match decode(op) {
                Some(instr) => self.execute(instr, rnd),
                None => Err(Error::UnknownOpcode),
            },
            Err(e) => Err(e),
        };
        proof {
            use_type_invariant(&*self);
        }
        res
    }

    /// Counts both timers down once; a timer at zero stays there.
    pub fn tick_timers(&mut self)
        ensures
            final(self)@ == old(self)@.timers_ticked(),
            final(self)@.wf(),
    {
        proof {
            use_type_invariant(&*self);
        }
        if self.dt > 0 {
            self.dt -= 1;
        }
        if self.st > 0 {
            self.st -= 1;
        }
    }

    /// The display, row by row: the pixel in column `x` of row `y` is at
    /// `x + 64 * y`.
    pub fn get_display(&self) -> (display: &[bool])
        ensures
            display@ == self@.screen,
            display@.len() == SCREEN_SIZE,
    {
        &self.screen
    }

    /// Records that key `idx` is now held down, or now released.
    pub fn key_pressed(&mut self, idx: usize, pressed: bool)
        requires
            idx < NUM_KEYS,
        ensures
            final(self)@ == old(self)@.key_set(idx as int, pressed),
            final(self)@.wf(),
    {
        proof {
            use_type_invariant(&*self);
        }
        self.keys[idx] = pressed;
    }

    /// The program counter.
    pub fn program_counter(&self) -> (pc: u16)
        ensures
            pc == self@.pc,
    {
        self.pc
    }

    /// The index register.
    pub fn index_register(&self) -> (i: u16)
        ensures
            i == self@.i,
    {
        self.i_reg
    }

    /// The sixteen general registers, the flag register last.
    pub fn registers(&self) -> (v: &[u8])
        ensures
            v@ == self@.v,
            v@.len() == NUM_REGS,
    {
        &self.v_reg
    }

    /// The whole memory.
    pub fn memory(&self) -> (ram: &[u8])
        ensures
            ram@ == self@.ram,
            ram@.len() == RAM_SIZE,
    {
        &self.ram
    }

    /// The number of calls that have not returned yet.
    pub fn stack_depth(&self) -> (depth: usize)
        ensures
            depth == self@.sp,
            depth <= STACK_SIZE,
    {
        proof {
            use_type_invariant(self);
        }
        self.sp as usize
    }

    /// The delay timer.
    pub fn delay_timer(&self) -> (dt: u8)
        ensures
            dt == self@.dt,
    {
        self.dt
    }

    /// The sound timer; the host sounds its tone while it is not zero.
    pub fn sound_timer(&self) -> (st: u8)
        ensures
            st == self@.st,
    {
        self.st
    }

    /// Reads the instruction word at the program counter, high byte first,
    /// and moves the counter past it. Fails, changing nothing, where the
    /// word does not lie inside memory.
    fn fetch(&mut self) -> (r: Result<u16, Error>)
        ensures
            match r {
                Ok(op) => {
                    &&& old(self)@.can_fetch()
                    &&& op == old(self)@.opcode()
                    &&& final(self)@ == old(self)@.advanced()
                },
                Err(e) => {
                    &&& !old(self)@.can_fetch()
                    &&& e == Error::OutOfBoundsFetch
                    &&& final(self)@ == old(self)@
                },
            },
    {
        proof {
            use_type_invariant(&*self);
        }
        if self.pc as usize + 1 >= RAM_SIZE {
            return Err(Error::OutOfBoundsFetch);
        }
        let fst_byte = self.ram[self.pc as usize] as u16;
        let snd_byte = self.ram[self.pc as usize + 1] as u16;
        let op = (fst_byte << 8) | snd_byte;
        assert(op == fst_byte * 256 + snd_byte) by (bit_vector)
            requires
                op == (fst_byte << 8) | snd_byte,
                fst_byte < 256,
                snd_byte < 256,
        ;
        self.pc += 2;
        Ok(op)
    }

    /// Puts a return address on the stack. Fails, changing nothing, where
    /// the stack is full.
    fn push(&mut self, val: u16) -> (r: Result<(), Error>)
        ensures
            match r {
                Ok(()) => {
                    &&& old(self)@.sp < STACK_SIZE
                    &&& final(self)@ == (State {
                        stack: old(self)@.stack.update(old(self)@.sp as int, val),
                        sp: (old(self)@.sp + 1) as u16,
                        ..old(self)@
                    })
                },
                Err(e) => {
                    &&& old(self)@.sp >= STACK_SIZE
                    &&& e == Error::StackOverflow
                    &&& final(self)@ == old(self)@
                },
            },
    {
        proof {
            use_type_invariant(&*self);
        }
        if self.sp as usize >= STACK_SIZE {
            return Err(Error::StackOverflow);
        }
        self.stack[self.sp as usize] = val;
        self.sp += 1;
        Ok(())
    }

    /// Takes the last return address off the stack. Fails, changing
    /// nothing, where the stack is empty.
    fn pop(&mut self) -> (r: Result<u16, Error>)
        ensures
            match r {
                Ok(val) => {
                    &&& old(self)@.sp > 0
                    &&& val == old(self)@.stack[old(self)@.sp - 1]
                    &&& final(self)@ == (State { sp: (old(self)@.sp - 1) as u16, ..old(self)@ })
                },
                Err(e) => {
                    &&& old(self)@.sp == 0
                    &&& e == Error::StackUnderflow
                    &&& final(self)@ == old(self)@
                },
            },
    {
        proof {
            use_type_invariant(&*self);
        }
        if self.sp == 0 {
            return Err(Error::StackUnderflow);
        }
        self.sp -= 1;
        Ok(self.stack[self.sp as usize])
    }

    /// Moves the program counter past the next instruction if `cond` holds.
    fn skip_if(&mut self, cond: bool)
        requires
            old(self)@.pc <= RAM_SIZE,
        ensures
            final(self)@ == old(self)@.skip_if(cond),
    {
        proof {
            use_type_invariant(&*self);
        }
        if cond {
            self.pc += 2;
        }
    }

    /// Sets register `x` to `val`.
    fn set_reg(&mut self, x: u8, val: u8)
        requires
            x < 16,
        ensures
            final(self)@ == old(self)@.with_reg(x, val),
    {
        proof {
            use_type_invariant(&*self);
        }
        self.v_reg[x as usize] = val;
    }

    /// Sets register `x` to `val`, then the flag register to 1 if `set`
    /// holds and to 0 if not.
    fn set_reg_and_flag(&mut self, x: u8, val: u8, set: bool)
        requires
            x < 16,
        ensures
            final(self)@ == old(self)@.with_reg_and_flag(x, val, set),
    {
        proof {
            use_type_invariant(&*self);
        }
        self.v_reg[x as usize] = val;
        self.v_reg[0xF] = if set {
            1
        } else {
            0
        };
    }

    /// Draws the sprite of `n` rows at the index register at the position
    /// held in registers `x` and `y`, and records in the flag register
    /// whether a lit pixel went out.
    fn draw(&mut self, x: u8, y: u8, n: u8)
        requires
            x < 16,
            y < 16,
            n < 16,
            n > 0 ==> old(self)@.i + n <= RAM_SIZE,
        ensures
            final(self)@ == old(self)@.drawn(x, y, n),
    {
        proof {
            use_type_invariant(&*self);
        }
        let vx = self.v_reg[x as usize];
        let vy = self.v_reg[y as usize];
        let collision = if n > 0 {
            draw_sprite(&mut self.screen, &self.ram, self.i_reg as usize, n as usize, vx, vy)
        } else {
            false
        };
        self.v_reg[0xF] = if collision {
            1
        } else {
            0
        };
    }

    /// Executes an instruction that was fetched, with `rnd` as the random
    /// byte for the instruction that wants one. Where the instruction
    /// faults, the machine is left as it was.
    fn execute(&mut self, instr: Instruction, rnd: u8) -> (r: Result<(), Error>)
        requires
            instr.wf(),
            2 <= old(self)@.pc <= RAM_SIZE,
        ensures
            r == match old(self)@.fault(instr) {
                Some(e) => Err::<(), Error>(e),
                None => Ok(()),
            },
            final(self)@ == old(self)@.executed(instr, rnd),
    {
        proof {
            use_type_invariant(&*self);
        }
        match instr {
            Instruction::Nop => {},
            Instruction::ClearScreen => {
                self.screen = [false; SCREEN_SIZE];
            },
            Instruction::Return => {
                match self.pop() {
                    Ok(addr) => {
                        self.pc = addr;
                    },
                    Err(e) => {
                        return Err(e);
                    },
                }
            },
            Instruction::Jump { addr } => {
                self.pc = addr;
            },
            Instruction::Call { addr } => {
                match self.push(self.pc) {
                    Ok(()) => {
                        self.pc = addr;
                    },
                    Err(e) => {
                        return Err(e);
                    },
                }
            },
            Instruction::SkipEqImm { x, nn } => {
                self.skip_if(self.v_reg[x as usize] == nn);
            },
            Instruction::SkipNeImm { x, nn } => {
                self.skip_if(self.v_reg[x as usize] != nn);
            },
            Instruction::SkipEqReg { x, y } => {
                self.skip_if(self.v_reg[x as usize] == self.v_reg[y as usize]);
            },
            Instruction::LoadImm { x, nn } => {
                self.set_reg(x, nn);
            },
            Instruction::AddImm { x, nn } => {
                let (sum, _) = add_bytes(self.v_reg[x as usize], nn);
                self.set_reg(x, sum);
            },
            Instruction::Move { x, y } => {
                self.set_reg(x, self.v_reg[y as usize]);
            },
            Instruction::Or { x, y } => {
                self.set_reg(x, self.v_reg[x as usize] | self.v_reg[y as usize]);
            },
            Instruction::And { x, y } => {
                self.set_reg(x, self.v_reg[x as usize] & self.v_reg[y as usize]);
            },
            Instruction::Xor { x, y } => {
                self.set_reg(x, self.v_reg[x as usize] ^ self.v_reg[y as usize]);
            },
            Instruction::Add { x, y } => {
                let (sum, fit) = add_bytes(self.v_reg[x as usize], self.v_reg[y as usize]);
                self.set_reg_and_flag(x, sum, fit);
            },
            Instruction::Sub { x, y } => {
                let (diff, fit) = sub_bytes(self.v_reg[x as usize], self.v_reg[y as usize]);
                self.set_reg_and_flag(x, diff, fit);
            },
            Instruction::ShiftRight { x } => {
                let (half, dropped) = shift_right(self.v_reg[x as usize]);
                self.set_reg_and_flag(x, half, dropped);
            },
            Instruction::SubFrom { x, y } => {
                let (diff, fit) = sub_bytes(self.v_reg[y as usize], self.v_reg[x as usize]);
                self.set_reg_and_flag(x, diff, fit);
            },
            Instruction::ShiftLeft { x } => {
                let (double, dropped) = shift_left(self.v_reg[x as usize]);
                self.set_reg_and_flag(x, double, dropped);
            },
            Instruction::SkipNeReg { x, y } => {
                self.skip_if(self.v_reg[x as usize] != self.v_reg[y as usize]);
            },
            Instruction::LoadIndex { addr } => {
                self.i_reg = addr;
            },
            Instruction::JumpOffset { addr } => {
                self.pc = self.v_reg[0] as u16 + addr;
            },
            Instruction::Random { x, nn } => {
                self.set_reg(x, rnd & nn);
            },
            Instruction::Draw { x, y, n } => {
                if n > 0 && self.i_reg as usize + n as usize > RAM_SIZE {
                    return Err(Error::OutOfBoundsAccess);
                }
                self.draw(x, y, n);
            },
            Instruction::SkipKeyDown { x } => {
                let key = self.v_reg[x as usize] as usize;
                if key >= NUM_KEYS {
                    return Err(Error::InvalidKey);
                }
                self.skip_if(self.keys[key]);
            },
            Instruction::SkipKeyUp { x } => {
                let key = self.v_reg[x as usize] as usize;
                if key >= NUM_KEYS {
                    return Err(Error::InvalidKey);
                }
                self.skip_if(!self.keys[key]);
            },
            Instruction::ReadDelay { x } => {
                self.set_reg(x, self.dt);
            },
            Instruction::WaitKey { x } => {
                match first_key_down(&self.keys) {
                    Some(key) => {
                        proof {
                            lowest_key_down_is_unique(self.keys@, key as int);
                        }
                        self.set_reg(x, key);
                    },
                    None => {
                        self.pc -= 2;
                    },
                }
            },
            Instruction::SetDelay { x } => {
                self.dt = self.v_reg[x as usize];
            },
            Instruction::SetSound { x } => {
                self.st = self.v_reg[x as usize];
            },
            Instruction::AddIndex { x } => {
                self.i_reg = offset_address(self.i_reg, self.v_reg[x as usize]);
            },
            Instruction::Glyph { x } => {
                self.i_reg = self.v_reg[x as usize] as u16 * 5;
            },
            Instruction::Bcd { x } => {
                let at = self.i_reg as usize;
                if at + 3 > RAM_SIZE {
                    return Err(Error::OutOfBoundsAccess);
                }
                let digits = to_bcd(self.v_reg[x as usize]);
                copy_bytes(&mut self.ram, at, &digits, 0, 3);
            },
            Instruction::Store { x } => {
                let at = self.i_reg as usize;
                let count = x as usize + 1;
                if at + count > RAM_SIZE {
                    return Err(Error::OutOfBoundsAccess);
                }
                copy_bytes(&mut self.ram, at, &self.v_reg, 0, count);
            },
            Instruction::Load { x } => {
                let at = self.i_reg as usize;
                let count = x as usize + 1;
                if at + count > RAM_SIZE {
                    return Err(Error::OutOfBoundsAccess);
                }
                copy_bytes(&mut self.v_reg, 0, &self.ram, at, count);
            },
        }
        Ok(())
    }
}

} // verus!
