//! Decoding: from the two bytes of a word to the instruction it encodes.
//!
//! A word is split into its four nibbles `n0 n1 n2 n3`, most significant
//! first. The leading nibble selects a group of instructions; where a group
//! holds several, the trailing nibbles tell them apart. A quartet that the
//! table does not list is reported as a failure that carries the quartet.
use vstd::prelude::*;
use crate::instruction::{DecodeFailure, Instruction};
use crate::operand::{is_nibble, Address, Const4, Const8, Var};

verus! {

/// The high nibble of a byte.
pub open spec fn high_nibble(b: u8) -> u8 {
    b / 0x10
}

/// The low nibble of a byte.
pub open spec fn low_nibble(b: u8) -> u8 {
    b % 0x10
}

/// The four nibbles of the word whose high byte is `hi` and whose low byte
/// is `lo`, most significant first.
pub open spec fn quartet_of(hi: u8, lo: u8) -> [u8; 4] {
    [high_nibble(hi), low_nibble(hi), high_nibble(lo), low_nibble(lo)]
}

/// Whether each of the four values is a nibble.
pub open spec fn is_quartet(q: [u8; 4]) -> bool {
    is_nibble(q[0]) && is_nibble(q[1]) && is_nibble(q[2]) && is_nibble(q[3])
}

/// The word whose nibbles, most significant first, are `q`.
pub open spec fn word_of(q: [u8; 4]) -> nat {
    (q[0] * 0x1000 + q[1] * 0x100 + q[2] * 0x10 + q[3]) as nat
}

/// The big-endian word whose high byte is `hi` and whose low byte is `lo`.
pub open spec fn word_of_bytes(hi: u8, lo: u8) -> nat {
    (hi * 0x100 + lo) as nat
}

/// The dispatch table: the instruction listed for the quartet `q`, or
/// `None` where the table lists nothing.
///
/// With `x`, `y`, `n`, `kk` and `nnn` for the operands that the nibbles
/// after the first can be read as, each group is one arm. In group 0 the two
/// fixed words come before the arm that takes every other address.
pub open spec fn instruction_at(q: [u8; 4]) -> Option<Instruction> {
    let x = Var::spec_from_nibble(q[1]);
    let y = Var::spec_from_nibble(q[2]);
    let n = Const4::spec_from_nibble(q[3]);
    let kk = Const8::spec_from_nibbles(q[2], q[3]);
    let nnn = Address::spec_from_nibbles(q[1], q[2], q[3]);
    match q[0] {
        0x0 => match (q[1], q[2], q[3]) {
            (0x0, 0xE, 0xE) => Some(Instruction::Return),
            (0x0, 0xE, 0x0) => Some(Instruction::ClearScreen),
            _ => Some(Instruction::CallMachineRoutine(nnn)),
        },
        0x1 => Some(Instruction::Jump(nnn)),
        0x2 => Some(Instruction::CallSubroutine(nnn)),
        0x3 => Some(Instruction::SkipIfEqualConst(x, kk)),
        0x4 => Some(Instruction::SkipIfNotEqualConst(x, kk)),
        0x5 => match q[3] {
            0x0 => Some(Instruction::SkipIfEqual(x, y)),
            _ => None,
        },
        0x6 => Some(Instruction::SetConst(x, kk)),
        0x7 => Some(Instruction::AddConst(x, kk)),
        0x8 => match q[3] {
            0x0 => Some(Instruction::SetReg(x, y)),
            0x1 => Some(Instruction::Or(x, y)),
            0x2 => Some(Instruction::And(x, y)),
            0x3 => Some(Instruction::Xor(x, y)),
            0x4 => Some(Instruction::AddReg(x, y)),
            0x5 => Some(Instruction::SubReg(x, y)),
            0x6 => Some(Instruction::ShiftRight(x, y)),
            0x7 => Some(Instruction::SubRegReverse(x, y)),
            0xE => Some(Instruction::ShiftLeft(x, y)),
            _ => None,
        },
        0x9 => match q[3] {
            0x0 => Some(Instruction::SkipIfNotEqual(x, y)),
            _ => None,
        },
        0xA => Some(Instruction::SetIndex(nnn)),
        0xB => Some(Instruction::JumpWithOffset(nnn)),
        0xC => Some(Instruction::Random(x, kk)),
        0xD => Some(Instruction::Draw(x, y, n)),
        0xE => match (q[2], q[3]) {
            (0x9, 0xE) => Some(Instruction::KeyPressed(x)),
            (0xA, 0x1) => Some(Instruction::KeyNotPressed(x)),
            _ => None,
        },
        0xF => match (q[2], q[3]) {
            (0x0, 0x7) => Some(Instruction::GetTimer(x)),
            (0x0, 0xA) => Some(Instruction::AwaitKey(x)),
            (0x1, 0x5) => Some(Instruction::SetDelayTimer(x)),
            (0x1, 0x8) => Some(Instruction::SetSoundTimer(x)),
            (0x1, 0xE) => Some(Instruction::IAdd(x)),
            (0x2, 0x9) => Some(Instruction::ISetSprite(x)),
            (0x3, 0x3) => Some(Instruction::StoreBCD(x)),
            (0x5, 0x5) => Some(Instruction::RegDump(x)),
            (0x6, 0x5) => Some(Instruction::RegLoad(x)),
            _ => None,
        },
        _ => None,
    }
}

/// What decoding the quartet `q` gives: the instruction that the table
/// lists for it, or else a failure that carries `q`.
pub open spec fn spec_decode_nibbles(q: [u8; 4]) -> Result<Instruction, DecodeFailure> {
    match instruction_at(q) {
        Some(i) => Ok(i),
        None => Err(DecodeFailure::Unrecognized(q)),
    }
}

/// What decoding the word with high byte `hi` and low byte `lo` gives.
pub open spec fn spec_decode(hi: u8, lo: u8) -> Result<Instruction, DecodeFailure> {
    spec_decode_nibbles(quartet_of(hi, lo))
}

/// Splits a two-byte, big-endian word into its four nibbles, most
/// significant first.
pub fn split_nibbles(opcode: &[u8]) -> (q: [u8; 4])
    requires
        opcode@.len() == 2,
    ensures
        q == quartet_of(opcode@[0], opcode@[1]),
        is_quartet(q),
{
    let hi: u8 = opcode[0];
    let lo: u8 = opcode[1];
    assert((hi & 0xF0) >> 4 == hi / 0x10 && hi & 0x0F == hi % 0x10) by (bit_vector);
    assert((lo & 0xF0) >> 4 == lo / 0x10 && lo & 0x0F == lo % 0x10) by (bit_vector);
    [(hi & 0xF0) >> 4, hi & 0x0F, (lo & 0xF0) >> 4, lo & 0x0F]
}

/// Decodes a quartet of nibbles.
///
/// Returns the instruction that the dispatch table lists for `q`, with its
/// operands read from the nibbles after the first, or `Unrecognized`
/// carrying `q` when the table lists none.
pub fn decode_nibbles(q: [u8; 4]) -> (r: Result<Instruction, DecodeFailure>)
    requires
        is_quartet(q),
    ensures
        r == spec_decode_nibbles(q),
        r matches Ok(i) ==> i.is_read_from(word_of(q)),
{
    match (q[0], q[1], q[2], q[3]) {
        (0x0, 0x0, 0xE, 0xE) => Ok(Instruction::Return),
        (0x0, 0x0, 0xE, 0x0) => Ok(Instruction::ClearScreen),
        (0x0, n1, n2, n3) => Ok(Instruction::CallMachineRoutine(Address::from_nibbles(n1, n2, n3))),
        (0x1, n1, n2, n3) => Ok(Instruction::Jump(Address::from_nibbles(n1, n2, n3))),
        (0x2, n1, n2, n3) => Ok(Instruction::CallSubroutine(Address::from_nibbles(n1, n2, n3))),
        (0x3, x, n2, n3) => Ok(
            Instruction::SkipIfEqualConst(Var::from_nibble(x), Const8::from_nibbles(n2, n3)),
        ),
        (0x4, x, n2, n3) => Ok(
            Instruction::SkipIfNotEqualConst(Var::from_nibble(x), Const8::from_nibbles(n2, n3)),
        ),
        (0x5, x, y, 0x0) => Ok(Instruction::SkipIfEqual(Var::from_nibble(x), Var::from_nibble(y))),
        (0x6, x, n2, n3) => Ok(
            Instruction::SetConst(Var::from_nibble(x), Const8::from_nibbles(n2, n3)),
        ),
        (0x7, x, n2, n3) => Ok(
            Instruction::AddConst(Var::from_nibble(x), Const8::from_nibbles(n2, n3)),
        ),
        (0x8, x, y, 0x0) => Ok(Instruction::SetReg(Var::from_nibble(x), Var::from_nibble(y))),
        (0x8, x, y, 0x1) => Ok(Instruction::Or(Var::from_nibble(x), Var::from_nibble(y))),
        (0x8, x, y, 0x2) => Ok(Instruction::And(Var::from_nibble(x), Var::from_nibble(y))),
        (0x8, x, y, 0x3) => Ok(Instruction::Xor(Var::from_nibble(x), Var::from_nibble(y))),
        (0x8, x, y, 0x4) => Ok(Instruction::AddReg(Var::from_nibble(x), Var::from_nibble(y))),
        (0x8, x, y, 0x5) => Ok(Instruction::SubReg(Var::from_nibble(x), Var::from_nibble(y))),
        (0x8, x, y, 0x6) => Ok(Instruction::ShiftRight(Var::from_nibble(x), Var::from_nibble(y))),
        (0x8, x, y, 0x7) => Ok(
            Instruction::SubRegReverse(Var::from_nibble(x), Var::from_nibble(y)),
        ),
        (0x8, x, y, 0xE) => Ok(Instruction::ShiftLeft(Var::from_nibble(x), Var::from_nibble(y))),
        (0x9, x, y, 0x0) => Ok(
            Instruction::SkipIfNotEqual(Var::from_nibble(x), Var::from_nibble(y)),
        ),
        (0xA, n1, n2, n3) => Ok(Instruction::SetIndex(Address::from_nibbles(n1, n2, n3))),
        (0xB, n1, n2, n3) => Ok(Instruction::JumpWithOffset(Address::from_nibbles(n1, n2, n3))),
        (0xC, x, n2, n3) => Ok(
            Instruction::Random(Var::from_nibble(x), Const8::from_nibbles(n2, n3)),
        ),
        (0xD, x, y, n) => Ok(
            Instruction::Draw(Var::from_nibble(x), Var::from_nibble(y), Const4::from_nibble(n)),
        ),
        (0xE, x, 0x9, 0xE) => Ok(Instruction::KeyPressed(Var::from_nibble(x))),
        (0xE, x, 0xA, 0x1) => Ok(Instruction::KeyNotPressed(Var::from_nibble(x))),
        (0xF, x, 0x0, 0x7) => Ok(Instruction::GetTimer(Var::from_nibble(x))),
        (0xF, x, 0x0, 0xA) => Ok(Instruction::AwaitKey(Var::from_nibble(x))),
        (0xF, x, 0x1, 0x5) => Ok(Instruction::SetDelayTimer(Var::from_nibble(x))),
        (0xF, x, 0x1, 0x8) => Ok(Instruction::SetSoundTimer(Var::from_nibble(x))),
        (0xF, x, 0x1, 0xE) => Ok(Instruction::IAdd(Var::from_nibble(x))),
        (0xF, x, 0x2, 0x9) => Ok(Instruction::ISetSprite(Var::from_nibble(x))),
        (0xF, x, 0x3, 0x3) => Ok(Instruction::StoreBCD(Var::from_nibble(x))),
        (0xF, x, 0x5, 0x5) => Ok(Instruction::RegDump(Var::from_nibble(x))),
        (0xF, x, 0x6, 0x5) => Ok(Instruction::RegLoad(Var::from_nibble(x))),
        _ => Err(DecodeFailure::Unrecognized(q)),
    }
}

/// Decodes one instruction from the two bytes of a big-endian word.
///
/// Every word has an outcome: the instruction that the dispatch table lists
/// for its nibbles, or `Unrecognized` carrying the nibbles.
pub fn decode(opcode: &[u8]) -> (r: Result<Instruction, DecodeFailure>)
    requires
        opcode@.len() == 2,
    ensures
        r == spec_decode(opcode@[0], opcode@[1]),
        r matches Ok(i) ==> i.is_read_from(word_of_bytes(opcode@[0], opcode@[1])),
{
    decode_nibbles(split_nibbles(opcode))
}

} // verus!
