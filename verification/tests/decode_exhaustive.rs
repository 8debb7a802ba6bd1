use chip8::decode::decode;
use chip8::{Address, Const8, DecodeFailure, Instruction, Var};

fn reg(x: &Var) -> u16 {
    x.index() as u16
}

fn xkk(group: u16, x: &Var, kk: &Const8) -> u16 {
    group << 12 | reg(x) << 8 | kk.value() as u16
}

fn xyn(group: u16, x: &Var, y: &Var, n: u16) -> u16 {
    group << 12 | reg(x) << 8 | reg(y) << 4 | n
}

fn nnn(group: u16, a: &Address) -> u16 {
    group << 12 | a.offset() as u16
}

/// The word that an instruction is written as, worked out from its operands.
fn encode(instruction: &Instruction) -> u16 {
    match instruction {
        Instruction::Return => 0x00EE,
        Instruction::ClearScreen => 0x00E0,
        Instruction::CallMachineRoutine(a) => nnn(0x0, a),
        Instruction::Jump(a) => nnn(0x1, a),
        Instruction::CallSubroutine(a) => nnn(0x2, a),
        Instruction::SkipIfEqualConst(x, kk) => xkk(0x3, x, kk),
        Instruction::SkipIfNotEqualConst(x, kk) => xkk(0x4, x, kk),
        Instruction::SkipIfEqual(x, y) => xyn(0x5, x, y, 0x0),
        Instruction::SetConst(x, kk) => xkk(0x6, x, kk),
        Instruction::AddConst(x, kk) => xkk(0x7, x, kk),
        Instruction::SetReg(x, y) => xyn(0x8, x, y, 0x0),
        Instruction::Or(x, y) => xyn(0x8, x, y, 0x1),
        Instruction::And(x, y) => xyn(0x8, x, y, 0x2),
        Instruction::Xor(x, y) => xyn(0x8, x, y, 0x3),
        Instruction::AddReg(x, y) => xyn(0x8, x, y, 0x4),
        Instruction::SubReg(x, y) => xyn(0x8, x, y, 0x5),
        Instruction::ShiftRight(x, y) => xyn(0x8, x, y, 0x6),
        Instruction::SubRegReverse(x, y) => xyn(0x8, x, y, 0x7),
        Instruction::ShiftLeft(x, y) => xyn(0x8, x, y, 0xE),
        Instruction::SkipIfNotEqual(x, y) => xyn(0x9, x, y, 0x0),
        Instruction::SetIndex(a) => nnn(0xA, a),
        Instruction::JumpWithOffset(a) => nnn(0xB, a),
        Instruction::Random(x, kk) => xkk(0xC, x, kk),
        Instruction::Draw(x, y, n) => xyn(0xD, x, y, n.value() as u16),
        Instruction::KeyPressed(x) => 0xE09E | reg(x) << 8,
        Instruction::KeyNotPressed(x) => 0xE0A1 | reg(x) << 8,
        Instruction::GetTimer(x) => 0xF007 | reg(x) << 8,
        Instruction::AwaitKey(x) => 0xF00A | reg(x) << 8,
        Instruction::SetDelayTimer(x) => 0xF015 | reg(x) << 8,
        Instruction::SetSoundTimer(x) => 0xF018 | reg(x) << 8,
        Instruction::IAdd(x) => 0xF01E | reg(x) << 8,
        Instruction::ISetSprite(x) => 0xF029 | reg(x) << 8,
        Instruction::StoreBCD(x) => 0xF033 | reg(x) << 8,
        Instruction::RegDump(x) => 0xF055 | reg(x) << 8,
        Instruction::RegLoad(x) => 0xF065 | reg(x) << 8,
    }
}

/// The rows of the dispatch table as (mask, bits): a row matches a word
/// when the word has the row's bits under the row's mask. The third row is
/// the fallback of group 0 and matches only what the two rows before it do
/// not.
const ROWS: [(u16, u16); 35] = [
    (0xFFFF, 0x00EE),
    (0xFFFF, 0x00E0),
    (0xF000, 0x0000),
    (0xF000, 0x1000),
    (0xF000, 0x2000),
    (0xF000, 0x3000),
    (0xF000, 0x4000),
    (0xF00F, 0x5000),
    (0xF000, 0x6000),
    (0xF000, 0x7000),
    (0xF00F, 0x8000),
    (0xF00F, 0x8001),
    (0xF00F, 0x8002),
    (0xF00F, 0x8003),
    (0xF00F, 0x8004),
    (0xF00F, 0x8005),
    (0xF00F, 0x8006),
    (0xF00F, 0x8007),
    (0xF00F, 0x800E),
    (0xF00F, 0x9000),
    (0xF000, 0xA000),
    (0xF000, 0xB000),
    (0xF000, 0xC000),
    (0xF000, 0xD000),
    (0xF0FF, 0xE09E),
    (0xF0FF, 0xE0A1),
    (0xF0FF, 0xF007),
    (0xF0FF, 0xF00A),
    (0xF0FF, 0xF015),
    (0xF0FF, 0xF018),
    (0xF0FF, 0xF01E),
    (0xF0FF, 0xF029),
    (0xF0FF, 0xF033),
    (0xF0FF, 0xF055),
    (0xF0FF, 0xF065),
];

fn row_matches(row: usize, word: u16) -> bool {
    let (mask, bits) = ROWS[row];
    let fits = word & mask == bits;
    if row == 2 {
        fits && word != 0x00EE && word != 0x00E0
    } else {
        fits
    }
}

fn matching_rows(word: u16) -> Vec<usize> {
    (0..ROWS.len()).filter(|&row| row_matches(row, word)).collect()
}

/// The row that an instruction belongs to.
fn row_of(instruction: &Instruction) -> usize {
    let word = encode(instruction);
    let rows = matching_rows(word);
    assert_eq!(rows.len(), 1, "word {:#06x}", word);
    rows[0]
}

fn bytes_of(word: u16) -> [u8; 2] {
    [(word >> 8) as u8, (word & 0xFF) as u8]
}

#[test]
fn every_word_has_one_outcome() {
    let mut decoded: u32 = 0;
    let mut failed: u32 = 0;
    for word in 0u16..=0xFFFF {
        match decode(&bytes_of(word)) {
            Ok(_) => decoded += 1,
            Err(DecodeFailure::Unrecognized(_)) => failed += 1,
        }
    }
    assert_eq!(decoded + failed, 0x1_0000);
    assert_eq!(decoded, 48048);
    assert_eq!(failed, 17488);
}

#[test]
fn every_decoded_instruction_is_written_as_its_word() {
    for word in 0u16..=0xFFFF {
        if let Ok(instruction) = decode(&bytes_of(word)) {
            assert_eq!(encode(&instruction), word, "word {:#06x}", word);
        }
    }
}

#[test]
fn every_failure_carries_the_nibbles_of_its_word() {
    for word in 0u16..=0xFFFF {
        if let Err(DecodeFailure::Unrecognized(q)) = decode(&bytes_of(word)) {
            let expected = [
                (word >> 12) as u8,
                ((word >> 8) & 0xF) as u8,
                ((word >> 4) & 0xF) as u8,
                (word & 0xF) as u8,
            ];
            assert_eq!(q, expected, "word {:#06x}", word);
        }
    }
}

#[test]
fn no_word_matches_two_rows() {
    for word in 0u16..=0xFFFF {
        assert!(matching_rows(word).len() <= 1, "word {:#06x}", word);
    }
}

#[test]
fn a_word_decodes_exactly_when_one_row_matches() {
    for word in 0u16..=0xFFFF {
        let rows = matching_rows(word);
        match decode(&bytes_of(word)) {
            Ok(instruction) => {
                assert_eq!(rows.len(), 1, "word {:#06x}", word);
                assert_eq!(row_of(&instruction), rows[0], "word {:#06x}", word);
            }
            Err(_) => assert!(rows.is_empty(), "word {:#06x}", word),
        }
    }
}

#[test]
fn distinct_words_decode_to_distinct_instructions() {
    let mut previous: Option<Instruction> = None;
    for word in 0u16..=0xFFFF {
        if let Ok(instruction) = decode(&bytes_of(word)) {
            if let Some(earlier) = previous {
                assert_ne!(earlier, instruction, "word {:#06x}", word);
            }
            previous = Some(instruction);
        }
    }
}

#[test]
fn every_row_is_reached() {
    let mut reached = [false; 35];
    for word in 0u16..=0xFFFF {
        if let Ok(instruction) = decode(&bytes_of(word)) {
            reached[row_of(&instruction)] = true;
        }
    }
    assert!(reached.iter().all(|&hit| hit));
}
