//! Operand fields of the R, I, S, B, U and J instruction formats. Immediates are
//! extracted without sign extension.
use vstd::prelude::*;

verus! {

/// Destination register field, bits 7..12.
pub open spec fn rd_of(code: u32) -> u32 {
    (code >> 7) & 0x1f
}

/// First source register field, bits 15..20.
pub open spec fn rs1_of(code: u32) -> u32 {
    (code >> 15) & 0x1f
}

/// Second source register field, bits 20..25.
pub open spec fn rs2_of(code: u32) -> u32 {
    (code >> 20) & 0x1f
}

/// I-type immediate (12 bits), also the CSR number of a CSR instruction.
pub open spec fn imm_i_of(code: u32) -> u32 {
    (code >> 20) & 0xfff
}

/// S-type immediate (12 bits).
pub open spec fn imm_s_of(code: u32) -> u32 {
    ((code >> 7) & 0x1f) | ((code >> 25) & 0x7f) << 5
}

/// B-type immediate (13 bits, bit 0 zero).
pub open spec fn imm_b_of(code: u32) -> u32 {
    ((code >> 31) & 0x1) << 12 | ((code >> 7) & 0x1) << 11 | ((code >> 25) & 0x3f) << 5 | ((code
        >> 8) & 0xf) << 1
}

/// U-type immediate (32 bits, already shifted left by 12).
pub open spec fn imm_u_of(code: u32) -> u32 {
    (code >> 12) << 12
}

/// J-type immediate (21 bits, bit 0 zero).
pub open spec fn imm_j_of(code: u32) -> u32 {
    ((code >> 31) & 0x1) << 20 | ((code >> 12) & 0xff) << 12 | ((code >> 20) & 0x1) << 11 | ((code
        >> 21) & 0x3ff) << 1
}

/// Register fields are below 32 and the I-type immediate below 4096.
pub proof fn lemma_field_bounds(code: u32)
    ensures
        rd_of(code) < 32,
        rs1_of(code) < 32,
        rs2_of(code) < 32,
        imm_i_of(code) < 4096,
{
    assert(rd_of(code) < 32 && rs1_of(code) < 32 && rs2_of(code) < 32 && imm_i_of(code) < 4096)
        by (bit_vector);
}

/// Destination register.
pub fn rd(code: u32) -> (r: u8)
    ensures
        r == rd_of(code),
        r < 32,
{
    proof {
        lemma_field_bounds(code);
    }
    ((code >> 7) & 0x1f) as u8
}

/// First source register.
pub fn rs1(code: u32) -> (r: u8)
    ensures
        r == rs1_of(code),
        r < 32,
{
    proof {
        lemma_field_bounds(code);
    }
    ((code >> 15) & 0x1f) as u8
}

/// Second source register.
pub fn rs2(code: u32) -> (r: u8)
    ensures
        r == rs2_of(code),
        r < 32,
{
    proof {
        lemma_field_bounds(code);
    }
    ((code >> 20) & 0x1f) as u8
}

/// I-type immediate.
pub fn imm_i(code: u32) -> (r: u32)
    ensures
        r == imm_i_of(code),
        r < 4096,
{
    proof {
        lemma_field_bounds(code);
    }
    (code >> 20) & 0xfff
}

/// S-type immediate.
pub fn imm_s(code: u32) -> (r: u32)
    ensures
        r == imm_s_of(code),
{
    ((code >> 7) & 0x1f) | ((code >> 25) & 0x7f) << 5
}

/// B-type immediate.
pub fn imm_b(code: u32) -> (r: u32)
    ensures
        r == imm_b_of(code),
{
    ((code >> 31) & 0x1) << 12 | ((code >> 7) & 0x1) << 11 | ((code >> 25) & 0x3f) << 5 | ((code
        >> 8) & 0xf) << 1
}

/// U-type immediate.
pub fn imm_u(code: u32) -> (r: u32)
    ensures
        r == imm_u_of(code),
{
    (code >> 12) << 12
}

/// J-type immediate.
pub fn imm_j(code: u32) -> (r: u32)
    ensures
        r == imm_j_of(code),
{
    ((code >> 31) & 0x1) << 20 | ((code >> 12) & 0xff) << 12 | ((code >> 20) & 0x1) << 11 | ((code
        >> 21) & 0x3ff) << 1
}

} // verus!
