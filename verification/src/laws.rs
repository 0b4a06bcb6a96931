//! Laws of the machine: what holds of every state, proved from the
//! definition of a tick.

use vstd::prelude::*;

use crate::alu::flag;
use crate::display::{draw_twice_collides_second_time, draw_twice_restores, sprite_covers};
use crate::error::Error;
use crate::instruction::{
    decode_spec, digits_of_word, word_with_address, word_with_byte, Instruction,
};
use crate::keypad::{any_key_down, is_lowest_key_down, lowest_key_down_is_unique};
use crate::state::{State, NUM_KEYS, RAM_SIZE, SCREEN_SIZE, STACK_SIZE};

verus! {

/// The initial state is well formed.
pub proof fn fresh_is_wf()
    ensures
        State::fresh().wf(),
{
}

/// A tick keeps a state well formed, whatever it executes and however it
/// ends: no part changes its size and the stack pointer stays within the
/// stack.
pub proof fn step_preserves_wf(s: State, rnd: u8)
    requires
        s.wf(),
    ensures
        s.step(rnd).wf(),
{
}

/// However many ticks pass, a well-formed state stays well formed.
pub proof fn run_preserves_wf(s: State, rnds: Seq<u8>)
    requires
        s.wf(),
    ensures
        s.run(rnds).wf(),
    decreases rnds.len(),
{
    if rnds.len() > 0 {
        step_preserves_wf(s, rnds[0]);
        run_preserves_wf(s.step(rnds[0]), rnds.drop_first());
    }
}

/// Loading a program, counting the timers down and setting a key keep a
/// state well formed.
pub proof fn host_operations_preserve_wf(s: State, data: Seq<u8>, idx: int, pressed: bool)
    requires
        s.wf(),
        0 <= idx < NUM_KEYS,
    ensures
        s.loaded(data).wf(),
        s.timers_ticked().wf(),
        s.key_set(idx, pressed).wf(),
{
}

/// Each error comes on exactly the states that its name tells of.
pub proof fn errors_are_exact(s: State)
    requires
        s.wf(),
    ensures
        s.outcome() == Err::<(), Error>(Error::OutOfBoundsFetch) <==> s.pc + 1 >= RAM_SIZE,
        s.outcome() == Err::<(), Error>(Error::UnknownOpcode) <==> s.can_fetch() && decode_spec(
            s.opcode(),
        ) is None,
        s.outcome() == Err::<(), Error>(Error::StackOverflow) <==> s.can_fetch() && s.sp
            == STACK_SIZE && decode_spec(s.opcode()) matches Some(Instruction::Call { .. }),
        s.outcome() == Err::<(), Error>(Error::StackUnderflow) <==> s.can_fetch() && s.sp == 0
            && decode_spec(s.opcode()) == Some(Instruction::Return),
        s.outcome() == Err::<(), Error>(Error::InvalidKey) <==> s.can_fetch() && match decode_spec(
            s.opcode(),
        ) {
            Some(Instruction::SkipKeyDown { x }) | Some(Instruction::SkipKeyUp { x }) => s.v[x as int]
                >= NUM_KEYS,
            _ => false,
        },
        s.outcome() == Err::<(), Error>(Error::OutOfBoundsAccess) <==> s.can_fetch()
            && match decode_spec(s.opcode()) {
            Some(Instruction::Draw { n, .. }) => n > 0 && s.i + n > RAM_SIZE,
            Some(Instruction::Bcd { .. }) => s.i + 3 > RAM_SIZE,
            Some(Instruction::Store { x }) | Some(Instruction::Load { x }) => s.i + x + 1
                > RAM_SIZE,
            _ => false,
        },
{
}

/// A tick that fails changes nothing but the program counter: it has moved
/// past the instruction, unless none could be fetched.
pub proof fn failed_tick_only_moves_pc(s: State, rnd: u8)
    requires
        s.outcome() is Err,
    ensures
        s.step(rnd) == if s.can_fetch() {
            s.advanced()
        } else {
            s
        },
{
}

/// A tick never writes to the keypad: the keys are the host's to set.
pub proof fn step_leaves_keypad(s: State, rnd: u8)
    ensures
        s.step(rnd).keys == s.keys,
{
}

/// Only `Fx15` sets the delay timer and only `Fx18` the sound timer: a tick
/// on any other instruction leaves the timer as it was.
pub proof fn only_timer_instructions_set_timers(s: State, rnd: u8)
    ensures
        s.step(rnd).dt != s.dt ==> s.can_fetch() && decode_spec(s.opcode()) matches Some(
            Instruction::SetDelay { .. },
        ),
        s.step(rnd).st != s.st ==> s.can_fetch() && decode_spec(s.opcode()) matches Some(
            Instruction::SetSound { .. },
        ),
{
}

/// Only calls and returns reach the stack: a tick on any other instruction
/// leaves the stack and its pointer as they were.
pub proof fn only_calls_and_returns_reach_stack(s: State, rnd: u8)
    ensures
        s.step(rnd).sp != s.sp || s.step(rnd).stack != s.stack ==> s.can_fetch() && (decode_spec(
            s.opcode(),
        ) matches Some(Instruction::Call { .. }) || decode_spec(s.opcode()) == Some(
            Instruction::Return,
        )),
{
}

/// Only `Fx33` and `Fx55` write to memory: a tick on any other instruction
/// leaves every byte as it was.
pub proof fn only_stores_write_memory(s: State, rnd: u8)
    ensures
        s.step(rnd).ram != s.ram ==> s.can_fetch() && (decode_spec(s.opcode()) matches Some(
            Instruction::Bcd { .. },
        ) || decode_spec(s.opcode()) matches Some(Instruction::Store { .. })),
{
}

/// Only `00E0` and `Dxyn` write to the display: a tick on any other
/// instruction leaves every pixel as it was.
pub proof fn only_clear_and_draw_write_display(s: State, rnd: u8)
    ensures
        s.step(rnd).screen != s.screen ==> s.can_fetch() && (decode_spec(s.opcode()) == Some(
            Instruction::ClearScreen,
        ) || decode_spec(s.opcode()) matches Some(Instruction::Draw { .. })),
{
}

/// Only `Annn`, `Fx1E` and `Fx29` set the index register: a tick on any
/// other instruction leaves it as it was.
pub proof fn only_index_instructions_set_index(s: State, rnd: u8)
    ensures
        s.step(rnd).i != s.i ==> s.can_fetch() && (decode_spec(s.opcode()) matches Some(
            Instruction::LoadIndex { .. },
        ) || decode_spec(s.opcode()) matches Some(Instruction::AddIndex { .. }) || decode_spec(
            s.opcode(),
        ) matches Some(Instruction::Glyph { .. })),
{
}

/// Only the instruction `Cxnn` depends on the random byte: any other tick
/// ends in the same state whatever the byte.
pub proof fn step_ignores_unused_random_byte(s: State, rnd1: u8, rnd2: u8)
    requires
        !s.draws_random(),
    ensures
        s.step(rnd1) == s.step(rnd2),
{
}

/// `6xnn` sets register `x` to exactly `nn`, moves on to the next
/// instruction and changes nothing else.
pub proof fn load_immediate_sets_register(s: State, x: u8, nn: u8, rnd: u8)
    requires
        s.wf(),
        s.can_fetch(),
        x < 16,
        s.opcode() == 0x6000 + 256 * x + nn,
    ensures
        s.outcome() is Ok,
        s.step(rnd) == (State { pc: (s.pc + 2) as u16, v: s.v.update(x as int, nn), ..s }),
        s.step(rnd).v[x as int] == nn,
{
    word_with_byte(s.opcode(), 6, x, nn);
}

/// `7xnn` adds `nn` to register `x` modulo 256 and changes no other
/// register, the flag register included.
pub proof fn add_immediate_wraps(s: State, x: u8, nn: u8, rnd: u8)
    requires
        s.wf(),
        s.can_fetch(),
        x < 16,
        s.opcode() == 0x7000 + 256 * x + nn,
    ensures
        s.outcome() is Ok,
        s.step(rnd).v[x as int] == (s.v[x as int] + nn) % 256,
        forall|k: int| 0 <= k < 16 && k != x ==> s.step(rnd).v[k] == s.v[k],
{
    word_with_byte(s.opcode(), 7, x, nn);
}

/// `8xy4` adds register `y` to register `x` modulo 256; the flag register
/// becomes 1 if the sum fit in a byte and 0 if it did not. Where `x` is the
/// flag register itself, it holds the flag afterwards, not the sum.
pub proof fn add_registers_flags_overflow(s: State, x: u8, y: u8, rnd: u8)
    requires
        s.wf(),
        s.can_fetch(),
        x < 16,
        y < 16,
        s.opcode() == 0x8004 + 256 * x + 16 * y,
    ensures
        s.outcome() is Ok,
        x != 15 ==> s.step(rnd).v[x as int] == (s.v[x as int] + s.v[y as int]) % 256,
        s.step(rnd).v[15] == flag(s.v[x as int] + s.v[y as int] <= 255),
{
    digits_of_word(s.opcode(), 8, x, y, 4);
}

/// `8xy5` subtracts register `y` from register `x` modulo 256; the flag
/// register becomes 1 if nothing was borrowed and 0 if something was. Where
/// `x` is the flag register itself, it holds the flag afterwards, not the
/// difference.
pub proof fn sub_registers_flags_borrow(s: State, x: u8, y: u8, rnd: u8)
    requires
        s.wf(),
        s.can_fetch(),
        x < 16,
        y < 16,
        s.opcode() == 0x8005 + 256 * x + 16 * y,
    ensures
        s.outcome() is Ok,
        x != 15 ==> s.step(rnd).v[x as int] == (s.v[x as int] - s.v[y as int]) % 256,
        s.step(rnd).v[15] == flag(s.v[x as int] >= s.v[y as int]),
{
    digits_of_word(s.opcode(), 8, x, y, 5);
}

/// A call succeeds exactly while the stack has a free entry; on a full
/// stack it fails with `StackOverflow`.
pub proof fn call_needs_free_stack_entry(s: State, addr: u16)
    requires
        s.wf(),
        s.can_fetch(),
        addr < 4096,
        s.opcode() == 0x2000 + addr,
    ensures
        s.sp < STACK_SIZE ==> s.outcome() is Ok,
        s.sp == STACK_SIZE ==> s.outcome() == Err::<(), Error>(Error::StackOverflow),
{
    word_with_address(s.opcode(), 2, addr);
}

/// A return fails with `StackUnderflow` exactly when no call is
/// outstanding.
pub proof fn return_needs_outstanding_call(s: State)
    requires
        s.wf(),
        s.can_fetch(),
        s.opcode() == 0x00EE,
    ensures
        s.sp > 0 ==> s.outcome() is Ok,
        s.sp == 0 ==> s.outcome() == Err::<(), Error>(Error::StackUnderflow),
{
    digits_of_word(0x00EE, 0, 0, 0xE, 0xE);
}

/// A call to a subroutine that returns at once comes back to the
/// instruction after the call: after the two ticks the program counter is
/// two past where it was, the stack pointer is what it was, and only the
/// stack slot that held the return address may differ.
pub proof fn call_then_return_resumes_after_call(s: State, addr: u16, rnd1: u8, rnd2: u8)
    requires
        s.wf(),
        s.can_fetch(),
        s.sp < STACK_SIZE,
        addr + 1 < RAM_SIZE,
        s.opcode() == 0x2000 + addr,
        s.ram[addr as int] == 0x00,
        s.ram[addr + 1] == 0xEE,
    ensures
        s.outcome() is Ok,
        s.step(rnd1).pc == addr,
        s.step(rnd1).sp == s.sp + 1,
        s.step(rnd1).outcome() is Ok,
        s.step(rnd1).step(rnd2) == (State {
            pc: (s.pc + 2) as u16,
            stack: s.stack.update(s.sp as int, (s.pc + 2) as u16),
            ..s
        }),
{
    word_with_address(s.opcode(), 2, addr);
    assert(s.step(rnd1).opcode() == 0x00EE);
    digits_of_word(0x00EE, 0, 0, 0xE, 0xE);
}

/// `00E0` switches every pixel off, whatever was drawn before, and changes
/// nothing but the display and the program counter.
pub proof fn clear_screen_blanks_display(s: State, rnd: u8)
    requires
        s.wf(),
        s.can_fetch(),
        s.opcode() == 0x00E0,
    ensures
        s.outcome() is Ok,
        forall|p: int| 0 <= p < SCREEN_SIZE ==> !s.step(rnd).screen[p],
        s.step(rnd) == (State { screen: s.step(rnd).screen, ..s.advanced() }),
{
    digits_of_word(0x00E0, 0, 0, 0xE, 0);
}

/// Drawing a sprite twice in a row at the same place restores the display.
///
/// The two draws are two ticks on the same instruction word `Dxyn`. The
/// position registers are not the flag register, which a draw overwrites.
pub proof fn draw_twice_restores_display(s: State, x: u8, y: u8, n: u8, rnd1: u8, rnd2: u8)
    requires
        s.wf(),
        s.can_fetch(),
        x < 15,
        y < 15,
        n < 16,
        s.i + n <= RAM_SIZE,
        s.opcode() == 0xD000 + 256 * x + 16 * y + n,
        s.step(rnd1).can_fetch(),
        s.step(rnd1).opcode() == s.opcode(),
    ensures
        s.outcome() is Ok,
        s.step(rnd1).outcome() is Ok,
        s.step(rnd1).step(rnd2).screen == s.screen,
{
    digits_of_word(s.opcode(), 0xD, x, y, n);
    draw_twice_restores(s.screen, s.sprite(n), s.v[x as int], s.v[y as int]);
}

/// Drawing a sprite twice in a row over pixels that are off: the first draw
/// lights exactly the pixels under the sprite's set bits and clears the
/// flag register; the second puts them out again and, where the sprite has
/// a set bit at all, sets the flag register to 1.
pub proof fn draw_twice_on_unlit_pixels(s: State, x: u8, y: u8, n: u8, rnd1: u8, rnd2: u8)
    requires
        s.wf(),
        s.can_fetch(),
        x < 15,
        y < 15,
        n < 16,
        s.i + n <= RAM_SIZE,
        s.opcode() == 0xD000 + 256 * x + 16 * y + n,
        s.step(rnd1).can_fetch(),
        s.step(rnd1).opcode() == s.opcode(),
        forall|p: int|
            0 <= p < SCREEN_SIZE && #[trigger] sprite_covers(
                s.sprite(n),
                s.v[x as int],
                s.v[y as int],
                p,
            ) ==> !s.screen[p],
    ensures
        s.step(rnd1).v[15] == 0,
        forall|p: int|
            0 <= p < SCREEN_SIZE ==> s.step(rnd1).screen[p] == (s.screen[p] || sprite_covers(
                s.sprite(n),
                s.v[x as int],
                s.v[y as int],
                p,
            )),
        s.step(rnd1).step(rnd2).screen == s.screen,
        s.step(rnd1).step(rnd2).v[15] == flag(
            exists|p: int|
                0 <= p < SCREEN_SIZE && #[trigger] sprite_covers(
                    s.sprite(n),
                    s.v[x as int],
                    s.v[y as int],
                    p,
                ),
        ),
{
    draw_twice_restores_display(s, x, y, n, rnd1, rnd2);
    digits_of_word(s.opcode(), 0xD, x, y, n);
    draw_twice_collides_second_time(s.screen, s.sprite(n), s.v[x as int], s.v[y as int]);
}

/// `Fx0A` with no key down holds the machine in place: however many ticks
/// pass, each succeeds and leaves the state as it was, the program counter
/// on the instruction.
pub proof fn wait_key_holds_without_key(s: State, x: u8, rnds: Seq<u8>)
    requires
        s.wf(),
        s.can_fetch(),
        x < 16,
        s.opcode() == 0xF00A + 256 * x,
        !any_key_down(s.keys),
    ensures
        s.outcome() is Ok,
        s.run(rnds) == s,
    decreases rnds.len(),
{
    digits_of_word(s.opcode(), 0xF, x, 0, 0xA);
    if rnds.len() > 0 {
        wait_key_holds_without_key(s, x, rnds.drop_first());
    }
}

/// `Fx0A` with a key down stores the lowest code that is down in register
/// `x` and moves on to the next instruction.
pub proof fn wait_key_takes_lowest_key(s: State, x: u8, k: int, rnd: u8)
    requires
        s.wf(),
        s.can_fetch(),
        x < 16,
        s.opcode() == 0xF00A + 256 * x,
        is_lowest_key_down(s.keys, k),
    ensures
        s.outcome() is Ok,
        s.step(rnd) == (State { pc: (s.pc + 2) as u16, v: s.v.update(x as int, k as u8), ..s }),
{
    digits_of_word(s.opcode(), 0xF, x, 0, 0xA);
    lowest_key_down_is_unique(s.keys, k);
}

/// A machine that waits in `Fx0A` with no key down goes on as soon as one
/// key is pressed: the next tick stores that key's code in register `x`.
pub proof fn wait_key_resumes_on_press(s: State, x: u8, k: int, rnd: u8)
    requires
        s.wf(),
        s.can_fetch(),
        x < 16,
        s.opcode() == 0xF00A + 256 * x,
        !any_key_down(s.keys),
        0 <= k < NUM_KEYS,
    ensures
        s.key_set(k, true).outcome() is Ok,
        s.key_set(k, true).step(rnd).v[x as int] == k,
        s.key_set(k, true).step(rnd).pc == s.pc + 2,
{
    wait_key_takes_lowest_key(s.key_set(k, true), x, k, rnd);
}

} // verus!
