//! The instruction set: what the 16-bit words of a program mean.

use vstd::arithmetic::div_mod::lemma_fundamental_div_mod_converse;
use vstd::prelude::*;

verus! {

/// One instruction of the machine, with its operands taken apart.
///
/// In an instruction word of four hexadecimal digits, `x` is the second
/// digit and `y` the third, both naming registers; `n` is the last digit,
/// `nn` the low byte and `addr` the low twelve bits.
#[derive(Clone, Copy, Debug, PartialEq, Eq, Structural)]
pub enum Instruction {
    /// `0000`: do nothing.
    Nop,
    /// `00E0`: switch every pixel off.
    ClearScreen,
    /// `00EE`: return from a subroutine.
    Return,
    /// `1nnn`: jump to `addr`.
    Jump { addr: u16 },
    /// `2nnn`: call the subroutine at `addr`.
    Call { addr: u16 },
    /// `3xnn`: skip the next instruction if `v[x] == nn`.
    SkipEqImm { x: u8, nn: u8 },
    /// `4xnn`: skip the next instruction if `v[x] != nn`.
    SkipNeImm { x: u8, nn: u8 },
    /// `5xy0`: skip the next instruction if `v[x] == v[y]`.
    SkipEqReg { x: u8, y: u8 },
    /// `6xnn`: set `v[x]` to `nn`.
    LoadImm { x: u8, nn: u8 },
    /// `7xnn`: add `nn` to `v[x]`, wrapping, flag untouched.
    AddImm { x: u8, nn: u8 },
    /// `8xy0`: set `v[x]` to `v[y]`.
    Move { x: u8, y: u8 },
    /// `8xy1`: set `v[x]` to `v[x] | v[y]`.
    Or { x: u8, y: u8 },
    /// `8xy2`: set `v[x]` to `v[x] & v[y]`.
    And { x: u8, y: u8 },
    /// `8xy3`: set `v[x]` to `v[x] ^ v[y]`.
    Xor { x: u8, y: u8 },
    /// `8xy4`: add `v[y]` to `v[x]`, wrapping; the flag tells whether the sum
    /// fit.
    Add { x: u8, y: u8 },
    /// `8xy5`: subtract `v[y]` from `v[x]`, wrapping; the flag tells whether
    /// nothing was borrowed.
    Sub { x: u8, y: u8 },
    /// `8xy6`: shift `v[x]` right by one; the flag takes the bit that fell
    /// off. The digit `y` is ignored.
    ShiftRight { x: u8 },
    /// `8xy7`: set `v[x]` to `v[y] - v[x]`, wrapping; the flag tells whether
    /// nothing was borrowed.
    SubFrom { x: u8, y: u8 },
    /// `8xyE`: shift `v[x]` left by one; the flag takes the bit that fell
    /// off. The digit `y` is ignored.
    ShiftLeft { x: u8 },
    /// `9xy0`: skip the next instruction if `v[x] != v[y]`.
    SkipNeReg { x: u8, y: u8 },
    /// `Annn`: set the index register to `addr`.
    LoadIndex { addr: u16 },
    /// `Bnnn`: jump to `addr + v[0]`.
    JumpOffset { addr: u16 },
    /// `Cxnn`: set `v[x]` to a random byte masked by `nn`.
    Random { x: u8, nn: u8 },
    /// `Dxyn`: draw the `n`-row sprite at the index register at the
    /// position `(v[x], v[y])`; the flag tells whether a lit pixel went out.
    Draw { x: u8, y: u8, n: u8 },
    /// `Ex9E`: skip the next instruction if key `v[x]` is down.
    SkipKeyDown { x: u8 },
    /// `ExA1`: skip the next instruction if key `v[x]` is up.
    SkipKeyUp { x: u8 },
    /// `Fx07`: set `v[x]` to the delay timer.
    ReadDelay { x: u8 },
    /// `Fx0A`: wait for a key and store its code in `v[x]`.
    WaitKey { x: u8 },
    /// `Fx15`: set the delay timer to `v[x]`.
    SetDelay { x: u8 },
    /// `Fx18`: set the sound timer to `v[x]`.
    SetSound { x: u8 },
    /// `Fx1E`: add `v[x]` to the index register, wrapping.
    AddIndex { x: u8 },
    /// `Fx29`: point the index register at the font glyph for `v[x]`.
    Glyph { x: u8 },
    /// `Fx33`: store the three decimal digits of `v[x]` at the index
    /// register.
    Bcd { x: u8 },
    /// `Fx55`: store `v[0]` to `v[x]` at the index register.
    Store { x: u8 },
    /// `Fx65`: load `v[0]` to `v[x]` from the index register.
    Load { x: u8 },
}

/// The first hexadecimal digit of an instruction word.
pub open spec fn digit1(op: u16) -> u8 {
    (op / 4096) as u8
}

/// The second hexadecimal digit of an instruction word.
pub open spec fn digit2(op: u16) -> u8 {
    ((op / 256) % 16) as u8
}

/// The third hexadecimal digit of an instruction word.
pub open spec fn digit3(op: u16) -> u8 {
    ((op / 16) % 16) as u8
}

/// The last hexadecimal digit of an instruction word.
pub open spec fn digit4(op: u16) -> u8 {
    (op % 16) as u8
}

/// The low byte of an instruction word.
pub open spec fn low_byte(op: u16) -> u8 {
    (op % 256) as u8
}

/// The low twelve bits of an instruction word.
pub open spec fn low_twelve(op: u16) -> u16 {
    op % 4096
}

/// The instruction that the word `op` encodes, if it encodes one.
pub open spec fn decode_spec(op: u16) -> Option<Instruction> {
    let x = digit2(op);
    let y = digit3(op);
    let n = digit4(op);
    let nn = low_byte(op);
    let addr = low_twelve(op);
    match (digit1(op), x, y, n) {
        (0, 0, 0, 0) => Some(Instruction::Nop),
        (0, 0, 0xE, 0) => Some(Instruction::ClearScreen),
        (0, 0, 0xE, 0xE) => Some(Instruction::Return),
        (1, _, _, _) => Some(Instruction::Jump { addr }),
        (2, _, _, _) => Some(Instruction::Call { addr }),
        (3, _, _, _) => Some(Instruction::SkipEqImm { x, nn }),
        (4, _, _, _) => Some(Instruction::SkipNeImm { x, nn }),
        (5, _, _, 0) => Some(Instruction::SkipEqReg { x, y }),
        (6, _, _, _) => Some(Instruction::LoadImm { x, nn }),
        (7, _, _, _) => Some(Instruction::AddImm { x, nn }),
        (8, _, _, 0) => Some(Instruction::Move { x, y }),
        (8, _, _, 1) => Some(Instruction::Or { x, y }),
        (8, _, _, 2) => Some(Instruction::And { x, y }),
        (8, _, _, 3) => Some(Instruction::Xor { x, y }),
        (8, _, _, 4) => Some(Instruction::Add { x, y }),
        (8, _, _, 5) => Some(Instruction::Sub { x, y }),
        (8, _, _, 6) => Some(Instruction::ShiftRight { x }),
        (8, _, _, 7) => Some(Instruction::SubFrom { x, y }),
        (8, _, _, 0xE) => Some(Instruction::ShiftLeft { x }),
        (9, _, _, 0) => Some(Instruction::SkipNeReg { x, y }),
        (0xA, _, _, _) => Some(Instruction::LoadIndex { addr }),
        (0xB, _, _, _) => Some(Instruction::JumpOffset { addr }),
        (0xC, _, _, _) => Some(Instruction::Random { x, nn }),
        (0xD, _, _, _) => Some(Instruction::Draw { x, y, n }),
        (0xE, _, 9, 0xE) => Some(Instruction::SkipKeyDown { x }),
        (0xE, _, 0xA, 1) => Some(Instruction::SkipKeyUp { x }),
        (0xF, _, 0, 7) => Some(Instruction::ReadDelay { x }),
        (0xF, _, 0, 0xA) => Some(Instruction::WaitKey { x }),
        (0xF, _, 1, 5) => Some(Instruction::SetDelay { x }),
        (0xF, _, 1, 8) => Some(Instruction::SetSound { x }),
        (0xF, _, 1, 0xE) => Some(Instruction::AddIndex { x }),
        (0xF, _, 2, 9) => Some(Instruction::Glyph { x }),
        (0xF, _, 3, 3) => Some(Instruction::Bcd { x }),
        (0xF, _, 5, 5) => Some(Instruction::Store { x }),
        (0xF, _, 6, 5) => Some(Instruction::Load { x }),
        _ => None,
    }
}

impl Instruction {
    /// The operands are within what an instruction word can hold: register
    /// numbers and row counts below sixteen, addresses below 4096.
    pub open spec fn wf(self) -> bool {
        match self {
            Instruction::Nop | Instruction::ClearScreen | Instruction::Return => true,
            Instruction::Jump { addr }
            | Instruction::Call { addr }
            | Instruction::LoadIndex { addr }
            | Instruction::JumpOffset { addr } => addr < 4096,
            Instruction::SkipEqImm { x, .. }
            | Instruction::SkipNeImm { x, .. }
            | Instruction::LoadImm { x, .. }
            | Instruction::AddImm { x, .. }
            | Instruction::Random { x, .. }
            | Instruction::ShiftRight { x }
            | Instruction::ShiftLeft { x }
            | Instruction::SkipKeyDown { x }
            | Instruction::SkipKeyUp { x }
            | Instruction::ReadDelay { x }
            | Instruction::WaitKey { x }
            | Instruction::SetDelay { x }
            | Instruction::SetSound { x }
            | Instruction::AddIndex { x }
            | Instruction::Glyph { x }
            | Instruction::Bcd { x }
            | Instruction::Store { x }
            | Instruction::Load { x } => x < 16,
            Instruction::SkipEqReg { x, y }
            | Instruction::Move { x, y }
            | Instruction::Or { x, y }
            | Instruction::And { x, y }
            | Instruction::Xor { x, y }
            | Instruction::Add { x, y }
            | Instruction::Sub { x, y }
            | Instruction::SubFrom { x, y }
            | Instruction::SkipNeReg { x, y } => x < 16 && y < 16,
            Instruction::Draw { x, y, n } => x < 16 && y < 16 && n < 16,
        }
    }
}

/// The hexadecimal digits that a word was put together from are the digits
/// that it is taken apart into.
pub proof fn digits_of_word(op: u16, d1: u8, d2: u8, d3: u8, d4: u8)
    requires
        d1 < 16,
        d2 < 16,
        d3 < 16,
        d4 < 16,
        op == 4096 * d1 + 256 * d2 + 16 * d3 + d4,
    ensures
        digit1(op) == d1,
        digit2(op) == d2,
        digit3(op) == d3,
        digit4(op) == d4,
        low_byte(op) == 16 * d3 + d4,
        low_twelve(op) == 256 * d2 + 16 * d3 + d4,
{
    let w = op as int;
    lemma_fundamental_div_mod_converse(w, 4096, d1 as int, 256 * d2 + 16 * d3 + d4);
    lemma_fundamental_div_mod_converse(w, 256, 16 * d1 + d2, 16 * d3 + d4);
    lemma_fundamental_div_mod_converse(w, 16, 256 * d1 + 16 * d2 + d3, d4 as int);
    lemma_fundamental_div_mod_converse(16 * d1 + d2, 16, d1 as int, d2 as int);
    lemma_fundamental_div_mod_converse(256 * d1 + 16 * d2 + d3, 16, 16 * d1 + d2, d3 as int);
}

/// A word put together from a leading digit, a register digit and a byte
/// is taken apart into them.
pub proof fn word_with_byte(op: u16, d1: u8, x: u8, nn: u8)
    requires
        d1 < 16,
        x < 16,
        op == 4096 * d1 + 256 * x + nn,
    ensures
        digit1(op) == d1,
        digit2(op) == x,
        low_byte(op) == nn,
{
    let w = op as int;
    lemma_fundamental_div_mod_converse(w, 4096, d1 as int, 256 * x + nn);
    lemma_fundamental_div_mod_converse(w, 256, 16 * d1 + x, nn as int);
    lemma_fundamental_div_mod_converse(16 * d1 + x, 16, d1 as int, x as int);
}

/// A word put together from a leading digit and an address is taken apart
/// into them.
pub proof fn word_with_address(op: u16, d1: u8, addr: u16)
    requires
        d1 < 16,
        addr < 4096,
        op == 4096 * d1 + addr,
    ensures
        digit1(op) == d1,
        low_twelve(op) == addr,
{
    lemma_fundamental_div_mod_converse(op as int, 4096, d1 as int, addr as int);
}

/// Every decoded instruction has its operands in range.
pub proof fn decoded_is_wf(op: u16)
    ensures
        decode_spec(op) matches Some(instr) ==> instr.wf(),
{
}

/// Takes an instruction word apart.
///
/// Returns `None` exactly for the words that encode no instruction.
pub fn decode(op: u16) -> (r: Option<Instruction>)
    ensures
        r == decode_spec(op),
        r matches Some(instr) ==> instr.wf(),
{
    let d1 = ((op & 0xF000) >> 12) as u8;
    let x = ((op & 0x0F00) >> 8) as u8;
    let y = ((op & 0x00F0) >> 4) as u8;
    let n = (op & 0x000F) as u8;
    let nn = (op & 0x00FF) as u8;
    let addr = op & 0x0FFF;
    proof {
        assert((op & 0xF000) >> 12 == op / 4096) by (bit_vector);
        assert((op & 0x0F00) >> 8 == (op / 256) % 16) by (bit_vector);
        assert((op & 0x00F0) >> 4 == (op / 16) % 16) by (bit_vector);
        assert(op & 0x000F == op % 16) by (bit_vector);
        assert(op & 0x00FF == op % 256) by (bit_vector);
        assert(op & 0x0FFF == op % 4096) by (bit_vector);
    }
    match (d1, x, y, n) {
        (0, 0, 0, 0) => Some(Instruction::Nop),
        (0, 0, 0xE, 0) => Some(Instruction::ClearScreen),
        (0, 0, 0xE, 0xE) => Some(Instruction::Return),
        (1, _, _, _) => Some(Instruction::Jump { addr }),
        (2, _, _, _) => Some(Instruction::Call { addr }),
        (3, _, _, _) => Some(Instruction::SkipEqImm { x, nn }),
        (4, _, _, _) => Some(Instruction::SkipNeImm { x, nn }),
        (5, _, _, 0) => Some(Instruction::SkipEqReg { x, y }),
        (6, _, _, _) => Some(Instruction::LoadImm { x, nn }),
        (7, _, _, _) => Some(Instruction::AddImm { x, nn }),
        (8, _, _, 0) => Some(Instruction::Move { x, y }),
        (8, _, _, 1) => Some(Instruction::Or { x, y }),
        (8, _, _, 2) => Some(Instruction::And { x, y }),
        (8, _, _, 3) => Some(Instruction::Xor { x, y }),
        (8, _, _, 4) => Some(Instruction::Add { x, y }),
        (8, _, _, 5) => Some(Instruction::Sub { x, y }),
        (8, _, _, 6) => Some(Instruction::ShiftRight { x }),
        (8, _, _, 7) => Some(Instruction::SubFrom { x, y }),
        (8, _, _, 0xE) => Some(Instruction::ShiftLeft { x }),
        (9, _, _, 0) => Some(Instruction::SkipNeReg { x, y }),
        (0xA, _, _, _) => Some(Instruction::LoadIndex { addr }),
        (0xB, _, _, _) => Some(Instruction::JumpOffset { addr }),
        (0xC, _, _, _) => Some(Instruction::Random { x, nn }),
        (0xD, _, _, _) => Some(Instruction::Draw { x, y, n }),
        (0xE, _, 9, 0xE) => Some(Instruction::SkipKeyDown { x }),
        (0xE, _, 0xA, 1) => Some(Instruction::SkipKeyUp { x }),
        (0xF, _, 0, 7) => Some(Instruction::ReadDelay { x }),
        (0xF, _, 0, 0xA) => Some(Instruction::WaitKey { x }),
        (0xF, _, 1, 5) => Some(Instruction::SetDelay { x }),
        (0xF, _, 1, 8) => Some(Instruction::SetSound { x }),
        (0xF, _, 1, 0xE) => Some(Instruction::AddIndex { x }),
        (0xF, _, 2, 9) => Some(Instruction::Glyph { x }),
        (0xF, _, 3, 3) => Some(Instruction::Bcd { x }),
        (0xF, _, 5, 5) => Some(Instruction::Store { x }),
        (0xF, _, 6, 5) => Some(Instruction::Load { x }),
        _ => None,
    }
}

} // verus!
