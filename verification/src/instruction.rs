//! The instruction set: one variant per instruction, carrying exactly the
//! operands that its encoding has room for, and the word that encodes it.
use vstd::prelude::*;
use crate::operand::{Address, Const4, Const8, Var};

verus! {

/// Number of 16-bit words.
pub const WORD_LIMIT: u32 = 0x1_0000;

/// A decoded instruction.
#[derive(Clone, Copy, Debug, PartialEq, Eq, Structural)]
pub enum Instruction {
    /// `00EE`: return from the current subroutine.
    Return,
    /// `00E0`: clear the display.
    ClearScreen,
    /// `0nnn`: call the machine-code routine at `nnn`.
    CallMachineRoutine(Address),
    /// `1nnn`: jump to `nnn`.
    Jump(Address),
    /// `2nnn`: call the subroutine at `nnn`.
    CallSubroutine(Address),
    /// `3xkk`: skip the next instruction if `Vx == kk`.
    SkipIfEqualConst(Var, Const8),
    /// `4xkk`: skip the next instruction if `Vx != kk`.
    SkipIfNotEqualConst(Var, Const8),
    /// `5xy0`: skip the next instruction if `Vx == Vy`.
    SkipIfEqual(Var, Var),
    /// `6xkk`: set `Vx` to `kk`.
    SetConst(Var, Const8),
    /// `7xkk`: add `kk` to `Vx`.
    AddConst(Var, Const8),
    /// `8xy0`: set `Vx` to `Vy`.
    SetReg(Var, Var),
    /// `8xy1`: set `Vx` to `Vx | Vy`.
    Or(Var, Var),
    /// `8xy2`: set `Vx` to `Vx & Vy`.
    And(Var, Var),
    /// `8xy3`: set `Vx` to `Vx ^ Vy`.
    Xor(Var, Var),
    /// `8xy4`: add `Vy` to `Vx`.
    AddReg(Var, Var),
    /// `8xy5`: subtract `Vy` from `Vx`.
    SubReg(Var, Var),
    /// `8xy6`: shift right by one bit.
    ShiftRight(Var, Var),
    /// `8xy7`: set `Vx` to `Vy - Vx`.
    SubRegReverse(Var, Var),
    /// `8xyE`: shift left by one bit.
    ShiftLeft(Var, Var),
    /// `9xy0`: skip the next instruction if `Vx != Vy`.
    SkipIfNotEqual(Var, Var),
    /// `Annn`: set the index register to `nnn`.
    SetIndex(Address),
    /// `Bnnn`: jump to `nnn` plus an offset held in a register.
    JumpWithOffset(Address),
    /// `Cxkk`: set `Vx` to a random byte masked with `kk`.
    Random(Var, Const8),
    /// `Dxyn`: draw a sprite of height `n` at `(Vx, Vy)`.
    Draw(Var, Var, Const4),
    /// `Ex9E`: skip the next instruction if the key in `Vx` is pressed.
    KeyPressed(Var),
    /// `ExA1`: skip the next instruction if the key in `Vx` is not pressed.
    KeyNotPressed(Var),
    /// `Fx07`: set `Vx` to the delay timer.
    GetTimer(Var),
    /// `Fx0A`: wait for a key press and store the key in `Vx`.
    AwaitKey(Var),
    /// `Fx15`: set the delay timer to `Vx`.
    SetDelayTimer(Var),
    /// `Fx18`: set the sound timer to `Vx`.
    SetSoundTimer(Var),
    /// `Fx1E`: add `Vx` to the index register.
    IAdd(Var),
    /// `Fx29`: point the index register at the sprite of the digit in `Vx`.
    ISetSprite(Var),
    /// `Fx33`: store the decimal digits of `Vx` at the index register.
    StoreBCD(Var),
    /// `Fx55`: store `V0` to `Vx` in memory at the index register.
    RegDump(Var),
    /// `Fx65`: load `V0` to `Vx` from memory at the index register.
    RegLoad(Var),
}

/// Outcome of decoding a word that encodes no instruction.
#[derive(Clone, Copy, Debug, PartialEq, Eq)]
pub enum DecodeFailure {
    /// No instruction has this encoding; the four nibbles of the word are
    /// carried along, most significant first.
    Unrecognized([u8; 4]),
}

/// The word `0xGxkk`: group nibble `g`, register `x`, constant `kk`.
pub open spec fn word_xkk(g: nat, x: Var, kk: Const8) -> nat {
    g * 0x1000 + x@ * 0x100 + kk@
}

/// The word `0xGxyn`: group nibble `g`, registers `x` and `y`, last nibble
/// `n`.
pub open spec fn word_xyn(g: nat, x: Var, y: Var, n: nat) -> nat {
    g * 0x1000 + x@ * 0x100 + y@ * 0x10 + n
}

/// The word `0xGxkk` with a fixed low byte `kk`.
pub open spec fn word_x(g: nat, x: Var, kk: nat) -> nat {
    g * 0x1000 + x@ * 0x100 + kk
}

impl Instruction {
    /// Every operand is in range.
    pub open spec fn wf(self) -> bool {
        match self {
            Instruction::Return | Instruction::ClearScreen => true,
            Instruction::CallMachineRoutine(a)
            | Instruction::Jump(a)
            | Instruction::CallSubroutine(a)
            | Instruction::SetIndex(a)
            | Instruction::JumpWithOffset(a) => a.wf(),
            Instruction::SkipIfEqualConst(x, kk)
            | Instruction::SkipIfNotEqualConst(x, kk)
            | Instruction::SetConst(x, kk)
            | Instruction::AddConst(x, kk)
            | Instruction::Random(x, kk) => x.wf() && kk.wf(),
            Instruction::SkipIfEqual(x, y)
            | Instruction::SetReg(x, y)
            | Instruction::Or(x, y)
            | Instruction::And(x, y)
            | Instruction::Xor(x, y)
            | Instruction::AddReg(x, y)
            | Instruction::SubReg(x, y)
            | Instruction::ShiftRight(x, y)
            | Instruction::SubRegReverse(x, y)
            | Instruction::ShiftLeft(x, y)
            | Instruction::SkipIfNotEqual(x, y) => x.wf() && y.wf(),
            Instruction::Draw(x, y, n) => x.wf() && y.wf() && n.wf(),
            Instruction::KeyPressed(x)
            | Instruction::KeyNotPressed(x)
            | Instruction::GetTimer(x)
            | Instruction::AwaitKey(x)
            | Instruction::SetDelayTimer(x)
            | Instruction::SetSoundTimer(x)
            | Instruction::IAdd(x)
            | Instruction::ISetSprite(x)
            | Instruction::StoreBCD(x)
            | Instruction::RegDump(x)
            | Instruction::RegLoad(x) => x.wf(),
        }
    }

    /// The 16-bit word that the instruction is written as.
    pub open spec fn encoding(self) -> nat {
        match self {
            Instruction::Return => 0x00EE,
            Instruction::ClearScreen => 0x00E0,
            Instruction::CallMachineRoutine(a) => a@,
            Instruction::Jump(a) => 0x1000 + a@,
            Instruction::CallSubroutine(a) => 0x2000 + a@,
            Instruction::SkipIfEqualConst(x, kk) => word_xkk(0x3, x, kk),
            Instruction::SkipIfNotEqualConst(x, kk) => word_xkk(0x4, x, kk),
            Instruction::SkipIfEqual(x, y) => word_xyn(0x5, x, y, 0x0),
            Instruction::SetConst(x, kk) => word_xkk(0x6, x, kk),
            Instruction::AddConst(x, kk) => word_xkk(0x7, x, kk),
            Instruction::SetReg(x, y) => word_xyn(0x8, x, y, 0x0),
            Instruction::Or(x, y) => word_xyn(0x8, x, y, 0x1),
            Instruction::And(x, y) => word_xyn(0x8, x, y, 0x2),
            Instruction::Xor(x, y) => word_xyn(0x8, x, y, 0x3),
            Instruction::AddReg(x, y) => word_xyn(0x8, x, y, 0x4),
            Instruction::SubReg(x, y) => word_xyn(0x8, x, y, 0x5),
            Instruction::ShiftRight(x, y) => word_xyn(0x8, x, y, 0x6),
            Instruction::SubRegReverse(x, y) => word_xyn(0x8, x, y, 0x7),
            Instruction::ShiftLeft(x, y) => word_xyn(0x8, x, y, 0xE),
            Instruction::SkipIfNotEqual(x, y) => word_xyn(0x9, x, y, 0x0),
            Instruction::SetIndex(a) => 0xA000 + a@,
            Instruction::JumpWithOffset(a) => 0xB000 + a@,
            Instruction::Random(x, kk) => word_xkk(0xC, x, kk),
            Instruction::Draw(x, y, n) => word_xyn(0xD, x, y, n@),
            Instruction::KeyPressed(x) => word_x(0xE, x, 0x9E),
            Instruction::KeyNotPressed(x) => word_x(0xE, x, 0xA1),
            Instruction::GetTimer(x) => word_x(0xF, x, 0x07),
            Instruction::AwaitKey(x) => word_x(0xF, x, 0x0A),
            Instruction::SetDelayTimer(x) => word_x(0xF, x, 0x15),
            Instruction::SetSoundTimer(x) => word_x(0xF, x, 0x18),
            Instruction::IAdd(x) => word_x(0xF, x, 0x1E),
            Instruction::ISetSprite(x) => word_x(0xF, x, 0x29),
            Instruction::StoreBCD(x) => word_x(0xF, x, 0x33),
            Instruction::RegDump(x) => word_x(0xF, x, 0x55),
            Instruction::RegLoad(x) => word_x(0xF, x, 0x65),
        }
    }

    /// Whether `word` is read as this instruction.
    ///
    /// A word is read as the well-formed instruction that is written as
    /// that word. The one exception: a call to a machine-code routine at
    /// `0x0E0` or `0x0EE` is written like `ClearScreen` or `Return`, and
    /// those two words are read as the latter.
    ///
    /// Seen from the dispatch table, this says that the row of this kind of
    /// instruction matches the nibbles of `word`, and that the nibbles which
    /// the row leaves open are the operands of this instruction.
    pub open spec fn is_read_from(self, word: nat) -> bool {
        &&& self.wf()
        &&& self.encoding() == word
        &&& self is CallMachineRoutine ==> word != 0x00E0 && word != 0x00EE
    }
}

} // verus!
