//! The decoder: classify an instruction word and render it as assembly text.
//!
//! Decoding dispatches on the `function` field. `function == 0` selects the
//! register-register family, further dispatched on `subfunction`; `function
//! == 1` selects the register-conditional branches, dispatched on the `t`
//! field; the coprocessor-zero family is dispatched on `cop_opcode`; every
//! other `function` value directly names an immediate or jump instruction.
//! A combination that names no assigned instruction decodes to the distinct
//! [`Decoded::Unknown`] outcome — never a panic — carrying the raw word.

use vstd::prelude::*;

use crate::instruction::Instruction;
use crate::instruction::RegisterIndex;
use crate::instruction::spec_cop_opcode;
use crate::instruction::spec_d;
use crate::instruction::spec_function;
use crate::instruction::spec_imm;
use crate::instruction::spec_imm_jump;
use crate::instruction::spec_imm_se;
use crate::instruction::spec_s;
use crate::instruction::spec_shift;
use crate::instruction::spec_subfunction;
use crate::instruction::spec_t;
use crate::render::dec_digits;
use crate::render::dec_string;
use crate::render::hex_digits;
use crate::render::hex_fixed;
use crate::render::hex_string;
use crate::render::hex8_string;
use crate::render::signed_digits;
use crate::render::signed_string;

verus! {

/// One operand of a decoded instruction, with its formatting convention.
#[derive(Clone, Copy, PartialEq, Eq, Debug)]
pub enum Operand {
    /// A general-purpose register, rendered `$n` in decimal.
    Reg(RegisterIndex),
    /// A coprocessor register, rendered `$copn` in decimal.
    CopReg(RegisterIndex),
    /// An unsigned 16-bit immediate, rendered in hexadecimal.
    UImm(u32),
    /// A sign-extended immediate, rendered as a signed decimal.
    SImm(u32),
    /// A shift amount, rendered in decimal.
    Shamt(u32),
    /// The raw 26-bit target field of a jump, rendered in hexadecimal.
    Target(u32),
    /// A memory reference, rendered `offset($base)` with a signed offset.
    Mem { offset: u32, base: RegisterIndex },
}

/// The outcome of decoding one word: a mnemonic with its ordered operands,
/// or the unknown-instruction marker carrying the raw word.
#[derive(PartialEq, Eq, Debug)]
pub enum Decoded {
    Known { mnemonic: &'static str, operands: Vec<Operand> },
    Unknown { word: u32 },
}

/// The mathematical model of a decoding outcome: the mnemonic as a character
/// sequence and the operands as a sequence.
pub enum DecodedView {
    Known { mnemonic: Seq<char>, operands: Seq<Operand> },
    Unknown { word: u32 },
}

impl View for Decoded {
    type V = DecodedView;

    open spec fn view(&self) -> DecodedView {
        match self {
            Decoded::Known { mnemonic, operands } => DecodedView::Known {
                mnemonic: mnemonic@,
                operands: operands@,
            },
            Decoded::Unknown { word } => DecodedView::Unknown { word: *word },
        }
    }
}

/// A known outcome with no operands.
pub open spec fn known0(m: Seq<char>) -> DecodedView {
    DecodedView::Known { mnemonic: m, operands: seq![] }
}

/// A known outcome with one operand.
pub open spec fn known1(m: Seq<char>, a: Operand) -> DecodedView {
    DecodedView::Known { mnemonic: m, operands: seq![a] }
}

/// A known outcome with two operands.
pub open spec fn known2(m: Seq<char>, a: Operand, b: Operand) -> DecodedView {
    DecodedView::Known { mnemonic: m, operands: seq![a, b] }
}

/// A known outcome with three operands.
pub open spec fn known3(m: Seq<char>, a: Operand, b: Operand, c: Operand) -> DecodedView {
    DecodedView::Known { mnemonic: m, operands: seq![a, b, c] }
}

/// The decode table of the `function == 0` (register-register) family.
pub open spec fn spec_decode_special(w: u32) -> DecodedView {
    let sub = spec_subfunction(w);
    let rs = Operand::Reg(RegisterIndex(spec_s(w)));
    let rt = Operand::Reg(RegisterIndex(spec_t(w)));
    let rd = Operand::Reg(RegisterIndex(spec_d(w)));
    let sa = Operand::Shamt(spec_shift(w));
    if sub == 0x00 {
        known3("sll"@, rd, rt, sa)
    } else if sub == 0x02 {
        known3("srl"@, rd, rt, sa)
    } else if sub == 0x03 {
        known3("sra"@, rd, rt, sa)
    } else if sub == 0x04 {
        known3("sllv"@, rd, rt, rs)
    } else if sub == 0x06 {
        known3("srlv"@, rd, rt, rs)
    } else if sub == 0x07 {
        known3("srav"@, rd, rt, rs)
    } else if sub == 0x08 {
        known1("jr"@, rs)
    } else if sub == 0x09 {
        known2("jalr"@, rd, rs)
    } else if sub == 0x0c {
        known0("syscall"@)
    } else if sub == 0x0d {
        known0("break"@)
    } else if sub == 0x10 {
        known1("mfhi"@, rd)
    } else if sub == 0x11 {
        known1("mthi"@, rs)
    } else if sub == 0x12 {
        known1("mflo"@, rd)
    } else if sub == 0x13 {
        known1("mtlo"@, rs)
    } else if sub == 0x18 {
        known2("mult"@, rs, rt)
    } else if sub == 0x19 {
        known2("multu"@, rs, rt)
    } else if sub == 0x1a {
        known2("div"@, rs, rt)
    } else if sub == 0x1b {
        known2("divu"@, rs, rt)
    } else if sub == 0x20 {
        known3("add"@, rd, rs, rt)
    } else if sub == 0x21 {
        known3("addu"@, rd, rs, rt)
    } else if sub == 0x22 {
        known3("sub"@, rd, rs, rt)
    } else if sub == 0x23 {
        known3("subu"@, rd, rs, rt)
    } else if sub == 0x24 {
        known3("and"@, rd, rs, rt)
    } else if sub == 0x25 {
        known3("or"@, rd, rs, rt)
    } else if sub == 0x26 {
        known3("xor"@, rd, rs, rt)
    } else if sub == 0x27 {
        known3("nor"@, rd, rs, rt)
    } else if sub == 0x2a {
        known3("slt"@, rd, rs, rt)
    } else if sub == 0x2b {
        known3("sltu"@, rd, rs, rt)
    } else {
        DecodedView::Unknown { word: w }
    }
}

/// The decode table of the `function == 1` (register-conditional branch)
/// family, dispatched on the `t` field.
pub open spec fn spec_decode_regimm(w: u32) -> DecodedView {
    let t = spec_t(w);
    let rs = Operand::Reg(RegisterIndex(spec_s(w)));
    let off = Operand::SImm(spec_imm_se(w));
    if t == 0x00 {
        known2("bltz"@, rs, off)
    } else if t == 0x01 {
        known2("bgez"@, rs, off)
    } else if t == 0x10 {
        known2("bltzal"@, rs, off)
    } else if t == 0x11 {
        known2("bgezal"@, rs, off)
    } else {
        DecodedView::Unknown { word: w }
    }
}

/// The decode table of the coprocessor-zero family, dispatched on
/// `cop_opcode` (and, for the return-from-exception form, `subfunction`).
pub open spec fn spec_decode_cop0(w: u32) -> DecodedView {
    let cop = spec_cop_opcode(w);
    let rt = Operand::Reg(RegisterIndex(spec_t(w)));
    let cd = Operand::CopReg(RegisterIndex(spec_d(w)));
    if cop == 0x00 {
        known2("mfc0"@, rt, cd)
    } else if cop == 0x04 {
        known2("mtc0"@, rt, cd)
    } else if cop == 0x10 && spec_subfunction(w) == 0x10 {
        known0("rfe"@)
    } else {
        DecodedView::Unknown { word: w }
    }
}

/// The decode table of the remaining `function` values: jumps, branches,
/// immediate arithmetic and logic, and loads and stores.
pub open spec fn spec_decode_immediate(w: u32) -> DecodedView {
    let f = spec_function(w);
    let rs = Operand::Reg(RegisterIndex(spec_s(w)));
    let rt = Operand::Reg(RegisterIndex(spec_t(w)));
    let uimm = Operand::UImm(spec_imm(w));
    let simm = Operand::SImm(spec_imm_se(w));
    let target = Operand::Target(spec_imm_jump(w));
    let mem = Operand::Mem { offset: spec_imm_se(w), base: RegisterIndex(spec_s(w)) };
    if f == 0x02 {
        known1("j"@, target)
    } else if f == 0x03 {
        known1("jal"@, target)
    } else if f == 0x04 {
        known3("beq"@, rs, rt, simm)
    } else if f == 0x05 {
        known3("bne"@, rs, rt, simm)
    } else if f == 0x06 {
        known2("blez"@, rs, simm)
    } else if f == 0x07 {
        known2("bgtz"@, rs, simm)
    } else if f == 0x08 {
        known3("addi"@, rt, rs, simm)
    } else if f == 0x09 {
        known3("addiu"@, rt, rs, simm)
    } else if f == 0x0a {
        known3("slti"@, rt, rs, simm)
    } else if f == 0x0b {
        known3("sltiu"@, rt, rs, simm)
    } else if f == 0x0c {
        known3("andi"@, rt, rs, uimm)
    } else if f == 0x0d {
        known3("ori"@, rt, rs, uimm)
    } else if f == 0x0e {
        known3("xori"@, rt, rs, uimm)
    } else if f == 0x0f {
        known2("lui"@, rt, uimm)
    } else if f == 0x20 {
        known2("lb"@, rt, mem)
    } else if f == 0x21 {
        known2("lh"@, rt, mem)
    } else if f == 0x23 {
        known2("lw"@, rt, mem)
    } else if f == 0x24 {
        known2("lbu"@, rt, mem)
    } else if f == 0x25 {
        known2("lhu"@, rt, mem)
    } else if f == 0x28 {
        known2("sb"@, rt, mem)
    } else if f == 0x29 {
        known2("sh"@, rt, mem)
    } else if f == 0x2b {
        known2("sw"@, rt, mem)
    } else {
        DecodedView::Unknown { word: w }
    }
}

/// The full decode table: dispatch on the `function` field first.
pub open spec fn spec_decode(w: u32) -> DecodedView {
    let f = spec_function(w);
    if f == 0x00 {
        spec_decode_special(w)
    } else if f == 0x01 {
        spec_decode_regimm(w)
    } else if f == 0x10 {
        spec_decode_cop0(w)
    } else {
        spec_decode_immediate(w)
    }
}

/// The `subfunction` values assigned in the register-register family.
pub open spec fn recognized_special(sub: u32) -> bool {
    sub == 0x00 || sub == 0x02 || sub == 0x03 || sub == 0x04 || sub == 0x06 || sub == 0x07
        || sub == 0x08 || sub == 0x09 || sub == 0x0c || sub == 0x0d || sub == 0x10 || sub == 0x11
        || sub == 0x12 || sub == 0x13 || sub == 0x18 || sub == 0x19 || sub == 0x1a || sub == 0x1b
        || sub == 0x20 || sub == 0x21 || sub == 0x22 || sub == 0x23 || sub == 0x24 || sub == 0x25
        || sub == 0x26 || sub == 0x27 || sub == 0x2a || sub == 0x2b
}

/// The `t`-field values assigned in the register-conditional branch family.
pub open spec fn recognized_regimm(t: u32) -> bool {
    t == 0x00 || t == 0x01 || t == 0x10 || t == 0x11
}

/// The coprocessor-zero combinations assigned an instruction.
pub open spec fn recognized_cop0(w: u32) -> bool {
    spec_cop_opcode(w) == 0x00 || spec_cop_opcode(w) == 0x04 || (spec_cop_opcode(w) == 0x10
        && spec_subfunction(w) == 0x10)
}

/// The `function` values that directly name an immediate or jump instruction.
pub open spec fn recognized_immediate(f: u32) -> bool {
    f == 0x02 || f == 0x03 || f == 0x04 || f == 0x05 || f == 0x06 || f == 0x07 || f == 0x08
        || f == 0x09 || f == 0x0a || f == 0x0b || f == 0x0c || f == 0x0d || f == 0x0e || f == 0x0f
        || f == 0x20 || f == 0x21 || f == 0x23 || f == 0x24 || f == 0x25 || f == 0x28 || f == 0x29
        || f == 0x2b
}

/// Whether the word's opcode combination names an assigned instruction.
pub open spec fn recognized(w: u32) -> bool {
    let f = spec_function(w);
    if f == 0x00 {
        recognized_special(spec_subfunction(w))
    } else if f == 0x01 {
        recognized_regimm(spec_t(w))
    } else if f == 0x10 {
        recognized_cop0(w)
    } else {
        recognized_immediate(f)
    }
}

/// A word decodes to the unknown outcome exactly when its opcode combination
/// is unassigned, and the unknown outcome always carries the word itself.
pub proof fn lemma_unknown_iff_unrecognized(w: u32)
    ensures
        spec_decode(w) is Unknown <==> !recognized(w),
        spec_decode(w) is Unknown ==> spec_decode(w)->Unknown_word == w,
{
}

fn build0(m: &'static str) -> (d: Decoded)
    ensures
        d@ == known0(m@),
{
    let operands: Vec<Operand> = Vec::new();
    proof {
        assert(operands@ =~= seq![]);
    }
    Decoded::Known { mnemonic: m, operands }
}

fn build1(m: &'static str, a: Operand) -> (d: Decoded)
    ensures
        d@ == known1(m@, a),
{
    let mut operands: Vec<Operand> = Vec::new();
    operands.push(a);
    proof {
        assert(operands@ =~= seq![a]);
    }
    Decoded::Known { mnemonic: m, operands }
}

fn build2(m: &'static str, a: Operand, b: Operand) -> (d: Decoded)
    ensures
        d@ == known2(m@, a, b),
{
    let mut operands: Vec<Operand> = Vec::new();
    operands.push(a);
    operands.push(b);
    proof {
        assert(operands@ =~= seq![a, b]);
    }
    Decoded::Known { mnemonic: m, operands }
}

fn build3(m: &'static str, a: Operand, b: Operand, c: Operand) -> (d: Decoded)
    ensures
        d@ == known3(m@, a, b, c),
{
    let mut operands: Vec<Operand> = Vec::new();
    operands.push(a);
    operands.push(b);
    operands.push(c);
    proof {
        assert(operands@ =~= seq![a, b, c]);
    }
    Decoded::Known { mnemonic: m, operands }
}

/// Decode a word of the register-register family (`function == 0`).
fn decode_special(ins: Instruction) -> (d: Decoded)
    requires
        spec_function(ins@) == 0,
    ensures
        d@ == spec_decode_special(ins@),
{
    let rs = Operand::Reg(ins.s());
    let rt = Operand::Reg(ins.t());
    let rd = Operand::Reg(ins.d());
    let sa = Operand::Shamt(ins.shift());
    match ins.subfunction() {
        0x00 => build3("sll", rd, rt, sa),
        0x02 => build3("srl", rd, rt, sa),
        0x03 => build3("sra", rd, rt, sa),
        0x04 => build3("sllv", rd, rt, rs),
        0x06 => build3("srlv", rd, rt, rs),
        0x07 => build3("srav", rd, rt, rs),
        0x08 => build1("jr", rs),
        0x09 => build2("jalr", rd, rs),
        0x0c => build0("syscall"),
        0x0d => build0("break"),
        0x10 => build1("mfhi", rd),
        0x11 => build1("mthi", rs),
        0x12 => build1("mflo", rd),
        0x13 => build1("mtlo", rs),
        0x18 => build2("mult", rs, rt),
        0x19 => build2("multu", rs, rt),
        0x1a => build2("div", rs, rt),
        0x1b => build2("divu", rs, rt),
        0x20 => build3("add", rd, rs, rt),
        0x21 => build3("addu", rd, rs, rt),
        0x22 => build3("sub", rd, rs, rt),
        0x23 => build3("subu", rd, rs, rt),
        0x24 => build3("and", rd, rs, rt),
        0x25 => build3("or", rd, rs, rt),
        0x26 => build3("xor", rd, rs, rt),
        0x27 => build3("nor", rd, rs, rt),
        0x2a => build3("slt", rd, rs, rt),
        0x2b => build3("sltu", rd, rs, rt),
        _ => Decoded::Unknown { word: ins.0 },
    }
}

/// Decode a word of the register-conditional branch family (`function == 1`).
fn decode_regimm(ins: Instruction) -> (d: Decoded)
    requires
        spec_function(ins@) == 1,
    ensures
        d@ == spec_decode_regimm(ins@),
{
    let rs = Operand::Reg(ins.s());
    let off = Operand::SImm(ins.imm_se());
    match ins.t().0 {
        0x00 => build2("bltz", rs, off),
        0x01 => build2("bgez", rs, off),
        0x10 => build2("bltzal", rs, off),
        0x11 => build2("bgezal", rs, off),
        _ => Decoded::Unknown { word: ins.0 },
    }
}

/// Decode a word of the coprocessor-zero family (`function == 0x10`).
fn decode_cop0(ins: Instruction) -> (d: Decoded)
    requires
        spec_function(ins@) == 0x10,
    ensures
        d@ == spec_decode_cop0(ins@),
{
    let rt = Operand::Reg(ins.t());
    let cd = Operand::CopReg(ins.d());
    match ins.cop_opcode() {
        0x00 => build2("mfc0", rt, cd),
        0x04 => build2("mtc0", rt, cd),
        0x10 => {
            if ins.subfunction() == 0x10 {
                build0("rfe")
            } else {
                Decoded::Unknown { word: ins.0 }
            }
        },
        _ => Decoded::Unknown { word: ins.0 },
    }
}

/// Decode a word whose `function` field directly names an immediate or jump
/// instruction.
fn decode_immediate(ins: Instruction) -> (d: Decoded)
    requires
        spec_function(ins@) != 0x00,
        spec_function(ins@) != 0x01,
        spec_function(ins@) != 0x10,
    ensures
        d@ == spec_decode_immediate(ins@),
{
    let rs = Operand::Reg(ins.s());
    let rt = Operand::Reg(ins.t());
    let uimm = Operand::UImm(ins.imm());
    let simm = Operand::SImm(ins.imm_se());
    let target = Operand::Target(ins.imm_jump());
    let mem = Operand::Mem { offset: ins.imm_se(), base: ins.s() };
    match ins.function() {
        0x02 => build1("j", target),
        0x03 => build1("jal", target),
        0x04 => build3("beq", rs, rt, simm),
        0x05 => build3("bne", rs, rt, simm),
        0x06 => build2("blez", rs, simm),
        0x07 => build2("bgtz", rs, simm),
        0x08 => build3("addi", rt, rs, simm),
        0x09 => build3("addiu", rt, rs, simm),
        0x0a => build3("slti", rt, rs, simm),
        0x0b => build3("sltiu", rt, rs, simm),
        0x0c => build3("andi", rt, rs, uimm),
        0x0d => build3("ori", rt, rs, uimm),
        0x0e => build3("xori", rt, rs, uimm),
        0x0f => build2("lui", rt, uimm),
        0x20 => build2("lb", rt, mem),
        0x21 => build2("lh", rt, mem),
        0x23 => build2("lw", rt, mem),
        0x24 => build2("lbu", rt, mem),
        0x25 => build2("lhu", rt, mem),
        0x28 => build2("sb", rt, mem),
        0x29 => build2("sh", rt, mem),
        0x2b => build2("sw", rt, mem),
        _ => Decoded::Unknown { word: ins.0 },
    }
}

/// Decode one instruction word. Total: an unassigned opcode combination
/// yields the unknown outcome carrying the raw word, never a panic.
pub fn decode(ins: Instruction) -> (d: Decoded)
    ensures
        d@ == spec_decode(ins@),
        d@ is Unknown <==> !recognized(ins@),
        d@ is Unknown ==> d@->Unknown_word == ins@,
{
    proof {
        lemma_unknown_iff_unrecognized(ins@);
    }
    let f = ins.function();
    if f == 0x00 {
        decode_special(ins)
    } else if f == 0x01 {
        decode_regimm(ins)
    } else if f == 0x10 {
        decode_cop0(ins)
    } else {
        decode_immediate(ins)
    }
}

/// The mnemonic of each assigned `subfunction` value of the three-register
/// arithmetic, logic and comparison instructions.
pub open spec fn alu_mnemonic(sub: u32) -> Seq<char> {
    if sub == 0x20 {
        "add"@
    } else if sub == 0x21 {
        "addu"@
    } else if sub == 0x22 {
        "sub"@
    } else if sub == 0x23 {
        "subu"@
    } else if sub == 0x24 {
        "and"@
    } else if sub == 0x25 {
        "or"@
    } else if sub == 0x26 {
        "xor"@
    } else if sub == 0x27 {
        "nor"@
    } else if sub == 0x2a {
        "slt"@
    } else {
        "sltu"@
    }
}

/// Round trip by construction: the register-register word that a reference
/// encoder builds from an arithmetic, logic or comparison instruction's
/// fields decodes back to exactly that mnemonic, with its operands ordered
/// destination, source, target.
pub proof fn lemma_alu_round_trip(sub: u32, s: u32, t: u32, d: u32)
    requires
        s < 32,
        t < 32,
        d < 32,
        sub == 0x20 || sub == 0x21 || sub == 0x22 || sub == 0x23 || sub == 0x24 || sub == 0x25
            || sub == 0x26 || sub == 0x27 || sub == 0x2a || sub == 0x2b,
    ensures
        spec_decode(crate::instruction::spec_encode_rtype(sub, s, t, d, 0)) == known3(
            alu_mnemonic(sub),
            Operand::Reg(RegisterIndex(d)),
            Operand::Reg(RegisterIndex(s)),
            Operand::Reg(RegisterIndex(t)),
        ),
{
    crate::instruction::lemma_rtype_round_trip(sub, s, t, d, 0);
}

/// Round trip by construction: the register-immediate word that a reference
/// encoder builds for the immediate-load instruction decodes back to the
/// immediate-load mnemonic with the target register and the unsigned
/// immediate, whatever the unused source field holds.
pub proof fn lemma_lui_round_trip(s: u32, t: u32, imm: u32)
    requires
        s < 32,
        t < 32,
        imm < 0x10000,
    ensures
        spec_decode(crate::instruction::spec_encode_itype(0x0f, s, t, imm)) == known2(
            "lui"@,
            Operand::Reg(RegisterIndex(t)),
            Operand::UImm(imm),
        ),
{
    crate::instruction::lemma_itype_round_trip(0x0f, s, t, imm);
}

/// Round trip by construction: the jump word that a reference encoder builds
/// from a target field decodes back to the unconditional jump with exactly
/// that target.
pub proof fn lemma_jump_round_trip(target: u32)
    requires
        target < 0x4000000,
    ensures
        spec_decode(crate::instruction::spec_encode_jtype(0x02, target)) == known1(
            "j"@,
            Operand::Target(target),
        ),
{
    crate::instruction::lemma_jtype_round_trip(0x02, target);
}

/// The textual rendering of one operand.
pub open spec fn operand_text(op: Operand) -> Seq<char> {
    match op {
        Operand::Reg(r) => "$"@ + dec_digits(r.0 as nat),
        Operand::CopReg(r) => "$cop"@ + dec_digits(r.0 as nat),
        Operand::UImm(v) => "0x"@ + hex_digits(v as nat),
        Operand::SImm(v) => signed_digits(v),
        Operand::Shamt(v) => dec_digits(v as nat),
        Operand::Target(t) => "0x"@ + hex_digits(t as nat),
        Operand::Mem { offset, base } => signed_digits(offset) + "($"@ + dec_digits(base.0 as nat)
            + ")"@,
    }
}

/// The textual rendering of an operand list, separated by `", "`.
pub open spec fn operands_text(ops: Seq<Operand>) -> Seq<char>
    decreases ops.len(),
{
    if ops.len() == 0 {
        Seq::empty()
    } else if ops.len() == 1 {
        operand_text(ops[0])
    } else {
        operand_text(ops[0]) + ", "@ + operands_text(ops.skip(1))
    }
}

/// The textual rendering of a decoding outcome: the mnemonic followed by its
/// operands, or the raw word in hexadecimal annotated as unknown.
pub open spec fn decoded_text(d: DecodedView) -> Seq<char> {
    match d {
        DecodedView::Known { mnemonic, operands } => if operands.len() == 0 {
            mnemonic
        } else {
            mnemonic + " "@ + operands_text(operands)
        },
        DecodedView::Unknown { word } => "unknown 0x"@ + hex_fixed(word as nat, 8),
    }
}

fn operand_string(op: Operand) -> (r: String)
    ensures
        r@ == operand_text(op),
{
    match op {
        Operand::Reg(reg) => {
            let mut r = String::from_str("$");
            r.append(dec_string(reg.0).as_str());
            r
        },
        Operand::CopReg(reg) => {
            let mut r = String::from_str("$cop");
            r.append(dec_string(reg.0).as_str());
            r
        },
        Operand::UImm(v) => {
            let mut r = String::from_str("0x");
            r.append(hex_string(v).as_str());
            r
        },
        Operand::SImm(v) => signed_string(v),
        Operand::Shamt(v) => dec_string(v),
        Operand::Target(t) => {
            let mut r = String::from_str("0x");
            r.append(hex_string(t).as_str());
            r
        },
        Operand::Mem { offset, base } => {
            let mut r = signed_string(offset);
            r.append("($");
            r.append(dec_string(base.0).as_str());
            r.append(")");
            r
        },
    }
}

fn operands_string(ops: &Vec<Operand>, from: usize) -> (r: String)
    requires
        from <= ops@.len(),
    ensures
        r@ == operands_text(ops@.skip(from as int)),
    decreases ops@.len() - from,
{
    if from == ops.len() {
        proof {
            assert(ops@.skip(from as int) =~= Seq::<Operand>::empty());
        }
        String::new()
    } else if from + 1 == ops.len() {
        proof {
            assert(ops@.skip(from as int)[0] == ops@[from as int]);
        }
        operand_string(ops[from])
    } else {
        proof {
            assert(ops@.skip(from as int)[0] == ops@[from as int]);
            assert(ops@.skip(from as int).skip(1) =~= ops@.skip(from as int + 1));
        }
        let mut r = operand_string(ops[from]);
        r.append(", ");
        r.append(operands_string(ops, from + 1).as_str());
        r
    }
}

impl Decoded {
    /// Render the decoding outcome as one line of assembly text.
    pub fn text(&self) -> (r: String)
        ensures
            r@ == decoded_text(self@),
    {
        match self {
            Decoded::Known { mnemonic, operands } => {
                if operands.len() == 0 {
                    (*mnemonic).to_owned()
                } else {
                    proof {
                        assert(operands@.skip(0) =~= operands@);
                    }
                    let mut r = (*mnemonic).to_owned();
                    r.append(" ");
                    r.append(operands_string(operands, 0).as_str());
                    r
                }
            },
            Decoded::Unknown { word } => {
                let mut r = String::from_str("unknown 0x");
                r.append(hex8_string(*word).as_str());
                r
            },
        }
    }
}

} // verus!
