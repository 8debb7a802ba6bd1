use chip8::decode::{decode, decode_nibbles, split_nibbles};
use chip8::{Address, Const4, Const8, DecodeFailure, Instruction, Var};

#[test]
fn clear_screen_word() {
    assert_eq!(decode(&[0x00, 0xE0]), Ok(Instruction::ClearScreen));
}

#[test]
fn return_word() {
    assert_eq!(decode(&[0x00, 0xEE]), Ok(Instruction::Return));
}

#[test]
fn jump_carries_its_address() {
    assert_eq!(decode(&[0x12, 0x34]), Ok(Instruction::Jump(Address::from_offset(0x234))));
}

#[test]
fn set_const_carries_register_and_byte() {
    assert_eq!(
        decode(&[0x60, 0xFF]),
        Ok(Instruction::SetConst(Var::from_nibble(0), Const8::from_nibbles(0xF, 0xF)))
    );
    match decode(&[0x60, 0xFF]) {
        Ok(Instruction::SetConst(x, kk)) => {
            assert_eq!(x.index(), 0);
            assert_eq!(kk.value(), 0xFF);
        }
        other => panic!("unexpected outcome: {:?}", other),
    }
}

#[test]
fn add_reg_from_bytes() {
    assert_eq!(
        decode(&[0x81, 0x24]),
        Ok(Instruction::AddReg(Var::from_nibble(1), Var::from_nibble(2)))
    );
}

#[test]
fn add_reg_from_nibbles() {
    assert_eq!(
        decode_nibbles([0x8, 0x1, 0x2, 0x4]),
        Ok(Instruction::AddReg(Var::from_nibble(1), Var::from_nibble(2)))
    );
}

#[test]
fn draw_carries_two_registers_and_a_height() {
    assert_eq!(
        decode(&[0xD1, 0x2F]),
        Ok(Instruction::Draw(Var::from_nibble(1), Var::from_nibble(2), Const4::from_nibble(0xF)))
    );
    match decode(&[0xD1, 0x2F]) {
        Ok(Instruction::Draw(x, y, n)) => {
            assert_eq!(x.index(), 1);
            assert_eq!(y.index(), 2);
            assert_eq!(n.value(), 0xF);
        }
        other => panic!("unexpected outcome: {:?}", other),
    }
}

#[test]
fn all_ones_is_unrecognized() {
    assert_eq!(
        decode(&[0xFF, 0xFF]),
        Err(DecodeFailure::Unrecognized([0xF, 0xF, 0xF, 0xF]))
    );
}

#[test]
fn split_nibbles_is_most_significant_first() {
    assert_eq!(split_nibbles(&[0x12, 0x34]), [0x1, 0x2, 0x3, 0x4]);
    assert_eq!(split_nibbles(&[0xF0, 0x0F]), [0xF, 0x0, 0x0, 0xF]);
    assert_eq!(split_nibbles(&[0x00, 0x00]), [0, 0, 0, 0]);
    assert_eq!(split_nibbles(&[0xFF, 0xFF]), [0xF, 0xF, 0xF, 0xF]);
}

#[test]
fn decode_agrees_with_decode_nibbles_on_every_word() {
    for word in 0u32..0x1_0000 {
        let bytes = [(word >> 8) as u8, (word & 0xFF) as u8];
        assert_eq!(decode(&bytes), decode_nibbles(split_nibbles(&bytes)));
    }
}

#[test]
fn decode_is_repeatable() {
    for bytes in [[0x00u8, 0xE0], [0x12, 0x34], [0xFF, 0xFF], [0x8A, 0xBE]] {
        assert_eq!(decode(&bytes), decode(&bytes));
    }
}
