//! The instruction word model: a 32-bit word and its named bit fields.
//!
//! Every accessor is pure and total: any 32-bit value is a valid word to
//! extract fields from, since extraction never inspects whether the opcode is
//! assigned. Each accessor's result is bounded by its field's bit width.

use vstd::prelude::*;

verus! {

/// A raw 32-bit instruction word. Two instances with the same value are
/// interchangeable: the type carries no state beyond the word itself.
#[derive(Clone, Copy, PartialEq, Eq, Structural)]
pub struct Instruction(pub u32);

/// Index of one of the 32 general-purpose registers, always in `[0, 31]`.
/// Produced by extracting a register field from an instruction word.
#[derive(Clone, Copy, PartialEq, Eq, Debug, Structural)]
pub struct RegisterIndex(pub u32);

impl View for Instruction {
    type V = u32;

    open spec fn view(&self) -> u32 {
        self.0
    }
}

impl RegisterIndex {
    /// A register index is meaningful only when it fits in the 5-bit field.
    pub open spec fn is_valid(self) -> bool {
        self.0 < 32
    }
}

/// Bits `[31:26]`: the primary opcode selecting the instruction family.
pub open spec fn spec_function(w: u32) -> u32 {
    w >> 26
}

/// Bits `[5:0]`: the secondary opcode within the `function == 0` family.
pub open spec fn spec_subfunction(w: u32) -> u32 {
    w & 0x3f
}

/// Bits `[25:21]` read as a coprocessor opcode (same range as `s`).
pub open spec fn spec_cop_opcode(w: u32) -> u32 {
    (w >> 21) & 0x1f
}

/// Bits `[25:21]`: the source register index.
pub open spec fn spec_s(w: u32) -> u32 {
    (w >> 21) & 0x1f
}

/// Bits `[20:16]`: the target register index.
pub open spec fn spec_t(w: u32) -> u32 {
    (w >> 16) & 0x1f
}

/// Bits `[15:11]`: the destination register index.
pub open spec fn spec_d(w: u32) -> u32 {
    (w >> 11) & 0x1f
}

/// Bits `[15:0]`: the unsigned immediate.
pub open spec fn spec_imm(w: u32) -> u32 {
    w & 0xffff
}

/// The 16-bit immediate widened to 32 bits while preserving its
/// two's-complement sign: values at or above `0x8000` gain high bits.
pub open spec fn spec_imm_se(w: u32) -> u32 {
    if w & 0xffff < 0x8000 {
        w & 0xffff
    } else {
        (w & 0xffff) | 0xffff0000
    }
}

/// Bits `[10:6]`: the shift amount of the shift instructions.
pub open spec fn spec_shift(w: u32) -> u32 {
    (w >> 6) & 0x1f
}

/// Bits `[25:0]`: the target field of the unconditional jumps.
pub open spec fn spec_imm_jump(w: u32) -> u32 {
    w & 0x3ffffff
}

/// The numeric value of the low 16 bits of `w` read as a signed
/// two's-complement 16-bit integer.
pub open spec fn signed16(w: u32) -> int {
    if w & 0xffff < 0x8000 {
        (w & 0xffff) as int
    } else {
        (w & 0xffff) - 0x10000
    }
}

impl Instruction {
    /// Return bits `[31:26]` of the instruction.
    pub fn function(self) -> (r: u32)
        ensures
            r == spec_function(self@),
            r < 64,
    {
        let Instruction(op) = self;
        proof {
            assert(op >> 26 < 64) by (bit_vector);
        }
        op >> 26
    }

    /// Return bits `[5:0]` of the instruction.
    pub fn subfunction(self) -> (r: u32)
        ensures
            r == spec_subfunction(self@),
            r < 64,
    {
        let Instruction(op) = self;
        proof {
            assert(op & 0x3f < 64) by (bit_vector);
        }
        op & 0x3f
    }

    /// Return the coprocessor opcode in bits `[25:21]`.
    pub fn cop_opcode(self) -> (r: u32)
        ensures
            r == spec_cop_opcode(self@),
            r < 32,
    {
        let Instruction(op) = self;
        proof {
            assert((op >> 21) & 0x1f < 32) by (bit_vector);
        }
        (op >> 21) & 0x1f
    }

    /// Return the register index in bits `[25:21]`.
    pub fn s(self) -> (r: RegisterIndex)
        ensures
            r.0 == spec_s(self@),
            r.is_valid(),
    {
        let Instruction(op) = self;
        proof {
            assert((op >> 21) & 0x1f < 32) by (bit_vector);
        }
        RegisterIndex((op >> 21) & 0x1f)
    }

    /// Return the register index in bits `[20:16]`.
    pub fn t(self) -> (r: RegisterIndex)
        ensures
            r.0 == spec_t(self@),
            r.is_valid(),
    {
        let Instruction(op) = self;
        proof {
            assert((op >> 16) & 0x1f < 32) by (bit_vector);
        }
        RegisterIndex((op >> 16) & 0x1f)
    }

    /// Return the register index in bits `[15:11]`.
    pub fn d(self) -> (r: RegisterIndex)
        ensures
            r.0 == spec_d(self@),
            r.is_valid(),
    {
        let Instruction(op) = self;
        proof {
            assert((op >> 11) & 0x1f < 32) by (bit_vector);
        }
        RegisterIndex((op >> 11) & 0x1f)
    }

    /// Return the immediate value in bits `[15:0]`.
    pub fn imm(self) -> (r: u32)
        ensures
            r == spec_imm(self@),
            r < 0x10000,
    {
        let Instruction(op) = self;
        proof {
            assert(op & 0xffff < 0x10000) by (bit_vector);
        }
        op & 0xffff
    }

    /// Return the immediate value in bits `[15:0]` as a sign-extended
    /// 32-bit value.
    pub fn imm_se(self) -> (r: u32)
        ensures
            r == spec_imm_se(self@),
    {
        let Instruction(op) = self;
        let v = op & 0xffff;
        proof {
            assert(op & 0xffff < 0x8000 ==> op & 0xffff == spec_imm_se(op)) by (bit_vector);
            assert(op & 0xffff >= 0x8000 ==> (op & 0xffff) | 0xffff0000 == spec_imm_se(op))
                by (bit_vector);
        }
        if v < 0x8000 {
            v
        } else {
            v | 0xffff0000
        }
    }

    /// Return the shift amount stored in bits `[10:6]`.
    pub fn shift(self) -> (r: u32)
        ensures
            r == spec_shift(self@),
            r < 32,
    {
        let Instruction(op) = self;
        proof {
            assert((op >> 6) & 0x1f < 32) by (bit_vector);
        }
        (op >> 6) & 0x1f
    }

    /// Return the jump target stored in bits `[25:0]`.
    pub fn imm_jump(self) -> (r: u32)
        ensures
            r == spec_imm_jump(self@),
            r < 0x4000000,
    {
        let Instruction(op) = self;
        proof {
            assert(op & 0x3ffffff < 0x4000000) by (bit_vector);
        }
        op & 0x3ffffff
    }

    /// Render the raw word as eight hexadecimal digits.
    pub fn text(self) -> (r: String)
        ensures
            r@ == crate::render::hex_fixed(self@ as nat, 8),
    {
        crate::render::hex8_string(self.0)
    }
}

/// The sign-extension law: `imm_se` returns exactly the 16-bit immediate
/// reinterpreted as a signed two's-complement integer and then widened to 32
/// bits, i.e. represented modulo `2^32` in the unsigned domain.
pub proof fn lemma_imm_se_is_sign_extension(w: u32)
    ensures
        signed16(w) >= 0 ==> spec_imm_se(w) == signed16(w),
        signed16(w) < 0 ==> spec_imm_se(w) == signed16(w) + 0x100000000,
        -0x8000 <= signed16(w) < 0x8000,
        spec_imm_se(w) % 0x10000 == spec_imm(w),
{
    assert(w & 0xffff < 0x8000 ==> (w & 0xffff) % 0x10000 == w & 0xffff) by (bit_vector);
    assert(w & 0xffff >= 0x8000 ==> w & 0xffff < 0x10000
        && ((w & 0xffff) | 0xffff0000) == (w & 0xffff) + 0xffff0000) by (bit_vector);
    if w & 0xffff >= 0x8000 {
        assert((spec_imm_se(w)) % 0x10000 == spec_imm(w));
    }
}

/// Field extraction is injective over the register-register layout: the six
/// fields of an R-type word jointly determine the word, so two words that
/// agree on all of them are equal.
pub proof fn lemma_rtype_fields_determine_word(w: u32)
    ensures
        w == spec_function(w) * 0x4000000 + spec_s(w) * 0x200000 + spec_t(w) * 0x10000
            + spec_d(w) * 0x800 + spec_shift(w) * 0x40 + spec_subfunction(w),
{
    assert(w == (w >> 26) * 0x4000000 + ((w >> 21) & 0x1f) * 0x200000 + ((w >> 16) & 0x1f)
        * 0x10000 + ((w >> 11) & 0x1f) * 0x800 + ((w >> 6) & 0x1f) * 0x40 + (w & 0x3f))
        by (bit_vector);
}

/// Field extraction is injective over the register-immediate layout: the
/// `function`, `s`, `t` and `imm` fields jointly determine the word.
pub proof fn lemma_itype_fields_determine_word(w: u32)
    ensures
        w == spec_function(w) * 0x4000000 + spec_s(w) * 0x200000 + spec_t(w) * 0x10000
            + spec_imm(w),
{
    assert(w == (w >> 26) * 0x4000000 + ((w >> 21) & 0x1f) * 0x200000 + ((w >> 16) & 0x1f)
        * 0x10000 + (w & 0xffff)) by (bit_vector);
}

/// Field extraction is injective over the jump layout: the `function` and
/// `imm_jump` fields jointly determine the word.
pub proof fn lemma_jtype_fields_determine_word(w: u32)
    ensures
        w == spec_function(w) * 0x4000000 + spec_imm_jump(w),
{
    assert(w == (w >> 26) * 0x4000000 + (w & 0x3ffffff)) by (bit_vector);
}

/// The word built from the register-register (R-type) fields.
pub open spec fn spec_encode_rtype(sub: u32, s: u32, t: u32, d: u32, sh: u32) -> u32 {
    (s << 21) | (t << 16) | (d << 11) | (sh << 6) | sub
}

/// The word built from the register-immediate (I-type) fields.
pub open spec fn spec_encode_itype(op: u32, s: u32, t: u32, imm: u32) -> u32 {
    (op << 26) | (s << 21) | (t << 16) | imm
}

/// The word built from the jump (J-type) fields.
pub open spec fn spec_encode_jtype(op: u32, target: u32) -> u32 {
    (op << 26) | target
}

/// Building an R-type word from in-range fields and extracting the fields
/// again returns exactly the fields that went in.
pub proof fn lemma_rtype_round_trip(sub: u32, s: u32, t: u32, d: u32, sh: u32)
    requires
        sub < 64,
        s < 32,
        t < 32,
        d < 32,
        sh < 32,
    ensures
        spec_function(spec_encode_rtype(sub, s, t, d, sh)) == 0,
        spec_s(spec_encode_rtype(sub, s, t, d, sh)) == s,
        spec_t(spec_encode_rtype(sub, s, t, d, sh)) == t,
        spec_d(spec_encode_rtype(sub, s, t, d, sh)) == d,
        spec_shift(spec_encode_rtype(sub, s, t, d, sh)) == sh,
        spec_subfunction(spec_encode_rtype(sub, s, t, d, sh)) == sub,
{
    let w = spec_encode_rtype(sub, s, t, d, sh);
    assert(sub < 64 && s < 32 && t < 32 && d < 32 && sh < 32 ==> {
        let v = (s << 21) | (t << 16) | (d << 11) | (sh << 6) | sub;
        (v >> 26) == 0 && ((v >> 21) & 0x1f) == s && ((v >> 16) & 0x1f) == t && ((v >> 11)
            & 0x1f) == d && ((v >> 6) & 0x1f) == sh && (v & 0x3f) == sub
    }) by (bit_vector);
}

/// Building an I-type word from in-range fields and extracting the fields
/// again returns exactly the fields that went in.
pub proof fn lemma_itype_round_trip(op: u32, s: u32, t: u32, imm: u32)
    requires
        op < 64,
        s < 32,
        t < 32,
        imm < 0x10000,
    ensures
        spec_function(spec_encode_itype(op, s, t, imm)) == op,
        spec_s(spec_encode_itype(op, s, t, imm)) == s,
        spec_t(spec_encode_itype(op, s, t, imm)) == t,
        spec_imm(spec_encode_itype(op, s, t, imm)) == imm,
{
    assert(op < 64 && s < 32 && t < 32 && imm < 0x10000 ==> {
        let v = (op << 26) | (s << 21) | (t << 16) | imm;
        (v >> 26) == op && ((v >> 21) & 0x1f) == s && ((v >> 16) & 0x1f) == t && (v & 0xffff)
            == imm
    }) by (bit_vector);
}

/// Building a J-type word from in-range fields and extracting the fields
/// again returns exactly the fields that went in.
pub proof fn lemma_jtype_round_trip(op: u32, target: u32)
    requires
        op < 64,
        target < 0x4000000,
    ensures
        spec_function(spec_encode_jtype(op, target)) == op,
        spec_imm_jump(spec_encode_jtype(op, target)) == target,
{
    assert(op < 64 && target < 0x4000000 ==> {
        let v = (op << 26) | target;
        (v >> 26) == op && (v & 0x3ffffff) == target
    }) by (bit_vector);
}

/// Build the R-type word with the given fields.
pub fn encode_rtype(sub: u32, s: u32, t: u32, d: u32, sh: u32) -> (w: Instruction)
    requires
        sub < 64,
        s < 32,
        t < 32,
        d < 32,
        sh < 32,
    ensures
        w@ == spec_encode_rtype(sub, s, t, d, sh),
{
    Instruction((s << 21u32) | (t << 16u32) | (d << 11u32) | (sh << 6u32) | sub)
}

/// Build the I-type word with the given fields.
pub fn encode_itype(op: u32, s: u32, t: u32, imm: u32) -> (w: Instruction)
    requires
        op < 64,
        s < 32,
        t < 32,
        imm < 0x10000,
    ensures
        w@ == spec_encode_itype(op, s, t, imm),
{
    Instruction((op << 26u32) | (s << 21u32) | (t << 16u32) | imm)
}

/// Build the J-type word with the given fields.
pub fn encode_jtype(op: u32, target: u32) -> (w: Instruction)
    requires
        op < 64,
        target < 0x4000000,
    ensures
        w@ == spec_encode_jtype(op, target),
{
    Instruction((op << 26u32) | target)
}

/// The one intended aliasing in the layout: the coprocessor opcode occupies
/// the same bit range `[25:21]` as the `s` register field, so the two
/// accessors agree on every word.
pub proof fn lemma_cop_opcode_aliases_s(w: u32)
    ensures
        spec_cop_opcode(w) == spec_s(w),
{
}

} // verus!
