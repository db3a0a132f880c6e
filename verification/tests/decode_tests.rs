use mipsdecode::Instruction;
use mipsdecode::RegisterIndex;
use mipsdecode::decoder::Decoded;
use mipsdecode::decoder::Operand;
use mipsdecode::decoder::decode;

fn known(d: &Decoded) -> (&'static str, Vec<Operand>) {
    match d {
        Decoded::Known { mnemonic, operands } => (mnemonic, operands.clone()),
        Decoded::Unknown { word } => panic!("expected a known instruction, got unknown {word:#010x}"),
    }
}

#[test]
fn zero_word_is_the_zero_encoded_shift() {
    let d = decode(Instruction(0x00000000));
    let (mnemonic, operands) = known(&d);
    assert_eq!(mnemonic, "sll");
    assert_eq!(
        operands,
        vec![
            Operand::Reg(RegisterIndex(0)),
            Operand::Reg(RegisterIndex(0)),
            Operand::Shamt(0),
        ]
    );
    assert_eq!(d.text(), "sll $0, $0, 0");
}

#[test]
fn lui_word_decodes_with_target_and_immediate() {
    let d = decode(Instruction(0x3C010001));
    let (mnemonic, operands) = known(&d);
    assert_eq!(mnemonic, "lui");
    assert_eq!(operands, vec![Operand::Reg(RegisterIndex(1)), Operand::UImm(1)]);
    assert_eq!(d.text(), "lui $1, 0x1");
}

#[test]
fn add_operands_are_ordered_d_s_t() {
    // function == 0, subfunction == 0x20, s = 2, t = 3, d = 1
    let d = decode(Instruction(0x00430820));
    let (mnemonic, operands) = known(&d);
    assert_eq!(mnemonic, "add");
    assert_eq!(
        operands,
        vec![
            Operand::Reg(RegisterIndex(1)),
            Operand::Reg(RegisterIndex(2)),
            Operand::Reg(RegisterIndex(3)),
        ]
    );
    assert_eq!(d.text(), "add $1, $2, $3");
}

#[test]
fn shift_renders_amount_in_decimal() {
    // sll $1, $2, 4
    let d = decode(Instruction(0x00020900));
    assert_eq!(d.text(), "sll $1, $2, 4");
}

#[test]
fn jump_register_takes_source_only() {
    let d = decode(Instruction(0x03E00008));
    assert_eq!(d.text(), "jr $31");
}

#[test]
fn syscall_and_break_have_no_operands() {
    assert_eq!(decode(Instruction(0x0000000C)).text(), "syscall");
    assert_eq!(decode(Instruction(0x0000000D)).text(), "break");
}

#[test]
fn hi_lo_moves() {
    assert_eq!(decode(Instruction(0x00002810)).text(), "mfhi $5");
    assert_eq!(decode(Instruction(0x00A00011)).text(), "mthi $5");
    assert_eq!(decode(Instruction(0x00002812)).text(), "mflo $5");
    assert_eq!(decode(Instruction(0x00A00013)).text(), "mtlo $5");
}

#[test]
fn jumps_render_the_raw_target_field_in_hex() {
    assert_eq!(decode(Instruction(0x08000010)).text(), "j 0x10");
    assert_eq!(decode(Instruction(0x0C000010)).text(), "jal 0x10");
}

#[test]
fn branches_render_signed_offsets() {
    // beq $1, $2, -1
    assert_eq!(decode(Instruction(0x1022FFFF)).text(), "beq $1, $2, -1");
    // bne $1, $2, 16
    assert_eq!(decode(Instruction(0x14220010)).text(), "bne $1, $2, 16");
    // blez $3, 8 and bgtz $3, 8
    assert_eq!(decode(Instruction(0x18600008)).text(), "blez $3, 8");
    assert_eq!(decode(Instruction(0x1C600008)).text(), "bgtz $3, 8");
}

#[test]
fn regimm_branches_dispatch_on_the_t_field() {
    assert_eq!(decode(Instruction(0x04600010)).text(), "bltz $3, 16");
    assert_eq!(decode(Instruction(0x04610010)).text(), "bgez $3, 16");
    assert_eq!(decode(Instruction(0x04700010)).text(), "bltzal $3, 16");
    assert_eq!(decode(Instruction(0x04710010)).text(), "bgezal $3, 16");
}

#[test]
fn immediate_arithmetic_is_signed_logic_is_hex() {
    // addiu $1, $2, -32768
    assert_eq!(decode(Instruction(0x24418000)).text(), "addiu $1, $2, -32768");
    // addi $1, $2, 1
    assert_eq!(decode(Instruction(0x20410001)).text(), "addi $1, $2, 1");
    // slti / sltiu
    assert_eq!(decode(Instruction(0x28410002)).text(), "slti $1, $2, 2");
    assert_eq!(decode(Instruction(0x2C410002)).text(), "sltiu $1, $2, 2");
    // andi $1, $2, 0xff
    assert_eq!(decode(Instruction(0x304100FF)).text(), "andi $1, $2, 0xff");
    // ori $1, $2, 0xf0f
    assert_eq!(decode(Instruction(0x34410F0F)).text(), "ori $1, $2, 0xf0f");
    // xori $1, $2, 0x1
    assert_eq!(decode(Instruction(0x38410001)).text(), "xori $1, $2, 0x1");
}

#[test]
fn loads_and_stores_render_offset_base() {
    // lw $1, -4($2)
    assert_eq!(decode(Instruction(0x8C41FFFC)).text(), "lw $1, -4($2)");
    // sw $1, 8($2)
    assert_eq!(decode(Instruction(0xAC410008)).text(), "sw $1, 8($2)");
    assert_eq!(decode(Instruction(0x80410008)).text(), "lb $1, 8($2)");
    assert_eq!(decode(Instruction(0x90410008)).text(), "lbu $1, 8($2)");
    assert_eq!(decode(Instruction(0x84410008)).text(), "lh $1, 8($2)");
    assert_eq!(decode(Instruction(0x94410008)).text(), "lhu $1, 8($2)");
    assert_eq!(decode(Instruction(0xA0410008)).text(), "sb $1, 8($2)");
    assert_eq!(decode(Instruction(0xA4410008)).text(), "sh $1, 8($2)");
}

#[test]
fn coprocessor_moves_name_cop_registers() {
    assert_eq!(decode(Instruction(0x40016000)).text(), "mfc0 $1, $cop12");
    assert_eq!(decode(Instruction(0x40816000)).text(), "mtc0 $1, $cop12");
    assert_eq!(decode(Instruction(0x42000010)).text(), "rfe");
}

#[test]
fn unknown_subfunction_under_function_zero() {
    let d = decode(Instruction(0x00000001));
    assert_eq!(d, Decoded::Unknown { word: 0x00000001 });
    assert_eq!(d.text(), "unknown 0x00000001");
}

#[test]
fn unknown_regimm_branch_variant() {
    let d = decode(Instruction(0x04020000));
    assert_eq!(d, Decoded::Unknown { word: 0x04020000 });
}

#[test]
fn unknown_coprocessor_combinations() {
    // cop_opcode 5 is unassigned
    let d = decode(Instruction(0x40A00000));
    assert_eq!(d, Decoded::Unknown { word: 0x40A00000 });
    // cop_opcode 0x10 without the return-from-exception subfunction
    let d = decode(Instruction(0x42000000));
    assert_eq!(d, Decoded::Unknown { word: 0x42000000 });
}

#[test]
fn unknown_top_level_function() {
    let d = decode(Instruction(0xFC000000));
    assert_eq!(d, Decoded::Unknown { word: 0xFC000000 });
    assert_eq!(d.text(), "unknown 0xfc000000");
}

#[test]
fn decoding_never_panics_on_a_sweep_of_patterns() {
    // every dispatch branch, with varied field bits, decodes to some outcome
    for f in 0u32..64 {
        for low in [0u32, 1, 2, 0x10, 0x3f] {
            let w = (f << 26) | (0x1F << 21) | (3 << 16) | (7 << 11) | low;
            let _ = decode(Instruction(w)).text();
        }
    }
}
