use mipsdecode::Instruction;
use mipsdecode::RegisterIndex;
use mipsdecode::instruction::encode_itype;
use mipsdecode::instruction::encode_jtype;
use mipsdecode::instruction::encode_rtype;

#[test]
fn fields_are_bounded_on_the_all_ones_word() {
    let i = Instruction(0xFFFFFFFF);
    assert_eq!(i.function(), 63);
    assert_eq!(i.subfunction(), 63);
    assert_eq!(i.cop_opcode(), 31);
    assert_eq!(i.s(), RegisterIndex(31));
    assert_eq!(i.t(), RegisterIndex(31));
    assert_eq!(i.d(), RegisterIndex(31));
    assert_eq!(i.imm(), 0xFFFF);
    assert_eq!(i.shift(), 31);
    assert_eq!(i.imm_jump(), 0x3FFFFFF);
}

#[test]
fn fields_pick_their_own_bit_ranges() {
    // function = 0x2A, s = 1, t = 2, d = 3, shift = 4, subfunction = 5
    let w = (0x2A << 26) | (1 << 21) | (2 << 16) | (3 << 11) | (4 << 6) | 5;
    let i = Instruction(w);
    assert_eq!(i.function(), 0x2A);
    assert_eq!(i.s(), RegisterIndex(1));
    assert_eq!(i.t(), RegisterIndex(2));
    assert_eq!(i.d(), RegisterIndex(3));
    assert_eq!(i.shift(), 4);
    assert_eq!(i.subfunction(), 5);
    assert_eq!(i.imm(), (3 << 11) | (4 << 6) | 5);
    assert_eq!(i.imm_jump(), w & 0x3FFFFFF);
}

#[test]
fn cop_opcode_shares_the_s_field_range() {
    let i = Instruction(0x40A16000);
    assert_eq!(i.cop_opcode(), i.s().0);
}

#[test]
fn sign_extension_boundary_cases() {
    assert_eq!(Instruction(0x00000000).imm_se(), 0);
    assert_eq!(Instruction(0x00007FFF).imm_se(), 32767);
    assert_eq!(Instruction(0x00008000).imm_se(), 0xFFFF8000);
    assert_eq!(Instruction(0x0000FFFF).imm_se(), 0xFFFFFFFF);
}

#[test]
fn sign_extension_ignores_high_word_bits() {
    assert_eq!(Instruction(0xABCD8001).imm_se(), 0xFFFF8001);
    assert_eq!(Instruction(0xABCD0001).imm_se(), 1);
}

#[test]
fn encoders_build_the_expected_words() {
    assert_eq!(encode_itype(0x0F, 0, 1, 1).0, 0x3C010001);
    assert_eq!(encode_rtype(0x20, 2, 3, 1, 0).0, 0x00430820);
    assert_eq!(encode_jtype(0x02, 0x10).0, 0x08000010);
}

#[test]
fn encoded_fields_extract_back() {
    let i = encode_rtype(0x2B, 30, 29, 28, 17);
    assert_eq!(i.function(), 0);
    assert_eq!(i.s(), RegisterIndex(30));
    assert_eq!(i.t(), RegisterIndex(29));
    assert_eq!(i.d(), RegisterIndex(28));
    assert_eq!(i.shift(), 17);
    assert_eq!(i.subfunction(), 0x2B);

    let i = encode_itype(0x0D, 7, 8, 0xBEEF);
    assert_eq!(i.function(), 0x0D);
    assert_eq!(i.s(), RegisterIndex(7));
    assert_eq!(i.t(), RegisterIndex(8));
    assert_eq!(i.imm(), 0xBEEF);

    let i = encode_jtype(0x03, 0x3ABCDEF);
    assert_eq!(i.function(), 0x03);
    assert_eq!(i.imm_jump(), 0x3ABCDEF);
}

#[test]
fn word_text_is_eight_hex_digits() {
    assert_eq!(Instruction(0xDEADBEEF).text(), "deadbeef");
    assert_eq!(Instruction(0x00000001).text(), "00000001");
}
