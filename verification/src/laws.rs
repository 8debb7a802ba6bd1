//! What holds of decoding as a whole: it reads every word as the one
//! instruction that is written as that word, and fails exactly on the words
//! that no instruction is written as.
use vstd::prelude::*;
use crate::decode::{
    instruction_at, is_quartet, quartet_of, spec_decode, word_of, word_of_bytes,
};
use crate::instruction::{DecodeFailure, Instruction, WORD_LIMIT};
use crate::operand::{Address, Const4, Const8, Var};

verus! {

/// The operands built from the nibbles of a quartet are well formed and
/// stand for those nibbles.
proof fn lemma_operands_at(q: [u8; 4])
    requires
        is_quartet(q),
    ensures
        Var::spec_from_nibble(q[1]).wf(),
        Var::spec_from_nibble(q[1])@ == q[1],
        Var::spec_from_nibble(q[2]).wf(),
        Var::spec_from_nibble(q[2])@ == q[2],
        Const4::spec_from_nibble(q[3]).wf(),
        Const4::spec_from_nibble(q[3])@ == q[3],
        Const8::spec_from_nibbles(q[2], q[3]).wf(),
        Const8::spec_from_nibbles(q[2], q[3])@ == q[2] * 0x10 + q[3],
        Address::spec_from_nibbles(q[1], q[2], q[3]).wf(),
        Address::spec_from_nibbles(q[1], q[2], q[3])@ == q[1] * 0x100 + q[2] * 0x10 + q[3],
{
    Var::lemma_from_nibble(q[1]);
    Var::lemma_from_nibble(q[2]);
    Const4::lemma_from_nibble(q[3]);
    Const8::lemma_from_nibbles(q[2], q[3]);
    Address::lemma_from_nibbles(q[1], q[2], q[3]);
}

/// The nibbles of a word are nibbles, and the word is big-endian: its
/// value is `256 * hi + lo`.
pub proof fn lemma_quartet_of(hi: u8, lo: u8)
    ensures
        is_quartet(quartet_of(hi, lo)),
        word_of(quartet_of(hi, lo)) == word_of_bytes(hi, lo),
{
}

/// Whatever instruction the table lists for a quartet is well formed and is
/// read from the word with those nibbles.
pub proof fn lemma_decode_sound(q: [u8; 4])
    requires
        is_quartet(q),
    ensures
        instruction_at(q) matches Some(i) ==> i.is_read_from(word_of(q)),
{
    lemma_operands_at(q);
}

/// An instruction that is read from a word is the one that the table lists
/// for the nibbles of that word.
pub proof fn lemma_decode_complete(i: Instruction, q: [u8; 4])
    requires
        is_quartet(q),
        i.is_read_from(word_of(q)),
    ensures
        instruction_at(q) == Some(i),
{
    lemma_operands_at(q);
    let x = Var::spec_from_nibble(q[1]);
    let y = Var::spec_from_nibble(q[2]);
    let n = Const4::spec_from_nibble(q[3]);
    let kk = Const8::spec_from_nibbles(q[2], q[3]);
    let nnn = Address::spec_from_nibbles(q[1], q[2], q[3]);
    match i {
        Instruction::Return | Instruction::ClearScreen => {},
        Instruction::CallMachineRoutine(a)
        | Instruction::Jump(a)
        | Instruction::CallSubroutine(a)
        | Instruction::SetIndex(a)
        | Instruction::JumpWithOffset(a) => {
            Address::lemma_view_injective(a, nnn);
        },
        Instruction::SkipIfEqualConst(vx, c)
        | Instruction::SkipIfNotEqualConst(vx, c)
        | Instruction::SetConst(vx, c)
        | Instruction::AddConst(vx, c)
        | Instruction::Random(vx, c) => {
            Var::lemma_view_injective(vx, x);
            Const8::lemma_view_injective(c, kk);
        },
        Instruction::SkipIfEqual(vx, vy)
        | Instruction::SetReg(vx, vy)
        | Instruction::Or(vx, vy)
        | Instruction::And(vx, vy)
        | Instruction::Xor(vx, vy)
        | Instruction::AddReg(vx, vy)
        | Instruction::SubReg(vx, vy)
        | Instruction::ShiftRight(vx, vy)
        | Instruction::SubRegReverse(vx, vy)
        | Instruction::ShiftLeft(vx, vy)
        | Instruction::SkipIfNotEqual(vx, vy) => {
            Var::lemma_view_injective(vx, x);
            Var::lemma_view_injective(vy, y);
        },
        Instruction::Draw(vx, vy, h) => {
            Var::lemma_view_injective(vx, x);
            Var::lemma_view_injective(vy, y);
            Const4::lemma_view_injective(h, n);
        },
        Instruction::KeyPressed(vx)
        | Instruction::KeyNotPressed(vx)
        | Instruction::GetTimer(vx)
        | Instruction::AwaitKey(vx)
        | Instruction::SetDelayTimer(vx)
        | Instruction::SetSoundTimer(vx)
        | Instruction::IAdd(vx)
        | Instruction::ISetSprite(vx)
        | Instruction::StoreBCD(vx)
        | Instruction::RegDump(vx)
        | Instruction::RegLoad(vx) => {
            Var::lemma_view_injective(vx, x);
        },
    }
}

/// The encoding of a well-formed instruction fits in sixteen bits.
pub proof fn lemma_encoding_is_word(i: Instruction)
    requires
        i.wf(),
    ensures
        i.encoding() < WORD_LIMIT,
{
}

/// Every 16-bit word has a quartet of nibbles; the result is that quartet.
proof fn quartet_with_word(word: nat) -> (q: [u8; 4])
    requires
        word < WORD_LIMIT,
    ensures
        is_quartet(q),
        word_of(q) == word,
{
    [
        (word / 0x1000) as u8,
        (word / 0x100 % 0x10) as u8,
        (word / 0x10 % 0x10) as u8,
        (word % 0x10) as u8,
    ]
}

/// No word is read as two instructions: instructions of different kinds, or
/// of one kind with different operands, are never read from the same word.
/// So no two rows of the dispatch table match the same quartet.
pub proof fn lemma_read_unique(i: Instruction, j: Instruction, word: nat)
    requires
        i.is_read_from(word),
        j.is_read_from(word),
    ensures
        i == j,
{
    lemma_encoding_is_word(i);
    let q = quartet_with_word(word);
    lemma_decode_complete(i, q);
    lemma_decode_complete(j, q);
}

/// Decoding is total, and each word has exactly one outcome. Either the
/// word is decoded to an instruction, and then that instruction is the only
/// one that is read from the word; or decoding fails with the nibbles of the
/// word, and then no instruction at all is read from it.
pub proof fn lemma_decode_total(hi: u8, lo: u8)
    ensures
        (match spec_decode(hi, lo) {
            Ok(i) => {
                &&& i.is_read_from(word_of_bytes(hi, lo))
                &&& forall|j: Instruction| j.is_read_from(word_of_bytes(hi, lo)) ==> j == i
            },
            Err(e) => {
                &&& e == DecodeFailure::Unrecognized(quartet_of(hi, lo))
                &&& forall|j: Instruction| !j.is_read_from(word_of_bytes(hi, lo))
            },
        }),
{
    let q = quartet_of(hi, lo);
    let word = word_of_bytes(hi, lo);
    lemma_quartet_of(hi, lo);
    lemma_decode_sound(q);
    assert forall|j: Instruction| j.is_read_from(word) implies instruction_at(q) == Some(j) by {
        lemma_decode_complete(j, q);
    }
}

} // verus!
