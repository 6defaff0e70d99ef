//! The values that integer, multiply/divide and 32-bit-word instructions compute.
use crate::isa::decode::Opcode;
use crate::isa::format::{imm_i_of, imm_u_of};
use crate::isa::{sext, spec_sext};
use crate::{RegT, XLen};
use vstd::prelude::*;
use vstd::wrapping::{i128_specs, i64_specs, u128_specs, u64_specs};

verus! {

/// The instructions whose effect is to write a computed value to `rd` and move
/// on to the next instruction.
pub open spec fn is_alu(op: Opcode) -> bool {
    match op {
        Opcode::Lui | Opcode::Auipc | Opcode::Addi | Opcode::Slti | Opcode::Sltiu | Opcode::Xori
        | Opcode::Ori | Opcode::Andi | Opcode::Slli | Opcode::Srli | Opcode::Srai | Opcode::Add
        | Opcode::Sub | Opcode::Sll | Opcode::Slt | Opcode::Sltu | Opcode::Xor | Opcode::Srl
        | Opcode::Sra | Opcode::Or | Opcode::And | Opcode::Mul | Opcode::Mulh | Opcode::Mulhsu
        | Opcode::Mulhu | Opcode::Div | Opcode::Divu | Opcode::Rem | Opcode::Remu | Opcode::Addiw
        | Opcode::Slliw | Opcode::Srliw | Opcode::Sraiw | Opcode::Addw | Opcode::Subw
        | Opcode::Sllw | Opcode::Srlw | Opcode::Sraw | Opcode::Mulw | Opcode::Divw | Opcode::Divuw
        | Opcode::Remw | Opcode::Remuw => true,
        _ => false,
    }
}

/// The instructions that only exist with 64-bit registers.
pub open spec fn needs_xlen64(op: Opcode) -> bool {
    match op {
        Opcode::Lwu | Opcode::Ld | Opcode::Sd | Opcode::Addiw | Opcode::Slliw | Opcode::Srliw
        | Opcode::Sraiw | Opcode::Addw | Opcode::Subw | Opcode::Sllw | Opcode::Srlw | Opcode::Sraw
        | Opcode::Mulw | Opcode::Divw | Opcode::Divuw | Opcode::Remw | Opcode::Remuw => true,
        _ => false,
    }
}

/// Whether `op` only exists with 64-bit registers.
pub fn requires_xlen64(op: Opcode) -> (r: bool)
    ensures
        r == needs_xlen64(op),
{
    match op {
        Opcode::Lwu | Opcode::Ld | Opcode::Sd | Opcode::Addiw | Opcode::Slliw | Opcode::Srliw
        | Opcode::Sraiw | Opcode::Addw | Opcode::Subw | Opcode::Sllw | Opcode::Srlw | Opcode::Sraw
        | Opcode::Mulw | Opcode::Divw | Opcode::Divuw | Opcode::Remw | Opcode::Remuw => true,
        _ => false,
    }
}

/// The sign-extended I-type immediate.
pub open spec fn imm12(code: u32) -> RegT {
    spec_sext(imm_i_of(code) as u64, 12)
}

/// The sign-extended U-type immediate.
pub open spec fn imm32(code: u32) -> RegT {
    spec_sext(imm_u_of(code) as u64, 32)
}

/// The upper `len` bits of the product of two 128-bit values, truncated to 64 bits.
pub open spec fn high_signed(a: i128, b: i128, len: u32) -> RegT {
    i128_specs::wrapping_shr(i128_specs::wrapping_mul(a, b), len) as u64
}

/// The upper `len` bits of the unsigned product of two 128-bit values.
pub open spec fn high_unsigned(a: u128, b: u128, len: u32) -> RegT {
    u128_specs::wrapping_shr(u128_specs::wrapping_mul(a, b), len) as u64
}

/// Signed division of 64-bit values: all ones for a zero divisor, the dividend
/// itself (wrapped) for `MIN / -1`, otherwise the quotient rounded toward zero.
pub open spec fn div_signed(a: RegT, b: RegT) -> RegT {
    if b == 0 {
        0xffff_ffff_ffff_ffff
    } else {
        match (a as i64).checked_div(b as i64) {
            Some(q) => q as u64,
            None => 0x8000_0000_0000_0000,
        }
    }
}

/// Signed remainder of 64-bit values: the dividend for a zero divisor, 0 for
/// `MIN % -1`, otherwise the remainder with the dividend's sign.
pub open spec fn rem_signed(a: RegT, b: RegT) -> RegT {
    if b == 0 {
        a
    } else {
        match (a as i64).checked_rem(b as i64) {
            Some(r) => r as u64,
            None => 0,
        }
    }
}

/// Signed division of the low 32-bit words, as an unsigned 32-bit pattern.
pub open spec fn div_word(a: RegT, b: RegT) -> RegT {
    if b as u32 == 0 {
        0xffff_ffff
    } else {
        match (a as u32 as i32).checked_div(b as u32 as i32) {
            Some(q) => q as u32 as u64,
            None => 0x8000_0000,
        }
    }
}

/// Signed remainder of the low 32-bit words, as an unsigned 32-bit pattern.
pub open spec fn rem_word(a: RegT, b: RegT) -> RegT {
    if b as u32 == 0 {
        a & 0xffff_ffff
    } else {
        match (a as u32 as i32).checked_rem(b as u32 as i32) {
            Some(r) => r as u32 as u64,
            None => 0,
        }
    }
}

/// The value that instruction `op` with encoding `code` writes to `rd`, given the
/// values `a` of `rs1` and `b` of `rs2`, the PC and the register width. Every
/// result is masked to XLEN; the word forms sign-extend a 32-bit result.
pub open spec fn alu_value(op: Opcode, code: u32, a: RegT, b: RegT, pc: RegT, xlen: XLen) -> RegT {
    let m = xlen.spec_mask();
    let sm = xlen.spec_shamt_mask();
    let len = xlen.bit_len() as u32;
    let ishamt = imm_i_of(code) & sm;
    let rshamt = (b as u32) & sm;
    let wshamt = (b as u32) & 0x1f;
    let iwshamt = imm_i_of(code) & 0x1f;
    let lo = a & 0xffff_ffff;
    let blo = b & 0xffff_ffff;
    match op {
        Opcode::Lui => imm32(code) & m,
        Opcode::Auipc => u64_specs::wrapping_add(pc, imm32(code)) & m,
        Opcode::Addi => u64_specs::wrapping_add(a, imm12(code)) & m,
        Opcode::Slti => if (a as i64) < (imm12(code) as i64) { 1 } else { 0 },
        Opcode::Sltiu => if a < imm12(code) { 1 } else { 0 },
        Opcode::Xori => (a ^ imm12(code)) & m,
        Opcode::Ori => (a | imm12(code)) & m,
        Opcode::Andi => (a & imm12(code)) & m,
        Opcode::Slli => u64_specs::wrapping_shl(a, ishamt) & m,
        Opcode::Srli => u64_specs::wrapping_shr(a, ishamt) & m,
        Opcode::Srai => (i64_specs::wrapping_shr(a as i64, ishamt) as u64) & m,
        Opcode::Add => u64_specs::wrapping_add(a, b) & m,
        Opcode::Sub => u64_specs::wrapping_sub(a, b) & m,
        Opcode::Sll => u64_specs::wrapping_shl(a, rshamt) & m,
        Opcode::Slt => if (a as i64) < (b as i64) { 1 } else { 0 },
        Opcode::Sltu => if a < b { 1 } else { 0 },
        Opcode::Xor => (a ^ b) & m,
        Opcode::Srl => u64_specs::wrapping_shr(a, rshamt) & m,
        Opcode::Sra => (i64_specs::wrapping_shr(a as i64, rshamt) as u64) & m,
        Opcode::Or => (a | b) & m,
        Opcode::And => (a & b) & m,
        Opcode::Mul => u64_specs::wrapping_mul(a, b) & m,
        Opcode::Mulh => high_signed(a as i64 as i128, b as i64 as i128, len) & m,
        Opcode::Mulhsu => high_unsigned(a as i64 as i128 as u128, b as u128, len) & m,
        Opcode::Mulhu => high_unsigned(a as u128, b as u128, len) & m,
        Opcode::Div => div_signed(a, b) & m,
        Opcode::Divu => (if b == 0 { 0xffff_ffff_ffff_ffff } else { a / b }) & m,
        Opcode::Rem => rem_signed(a, b) & m,
        Opcode::Remu => (if b == 0 { a } else { a % b }) & m,
        Opcode::Addiw => spec_sext(u64_specs::wrapping_add(a, imm12(code)), 32) & m,
        Opcode::Slliw => spec_sext(u64_specs::wrapping_shl(a, iwshamt), 32) & m,
        Opcode::Srliw => spec_sext(u64_specs::wrapping_shr(lo, iwshamt), 32) & m,
        Opcode::Sraiw => spec_sext(u64_specs::wrapping_shr(lo, iwshamt), (32 - iwshamt) as u64) & m,
        Opcode::Addw => spec_sext(u64_specs::wrapping_add(a, b), 32) & m,
        Opcode::Subw => spec_sext(u64_specs::wrapping_sub(a, b), 32) & m,
        Opcode::Sllw => spec_sext(u64_specs::wrapping_shl(a, wshamt), 32) & m,
        Opcode::Srlw => spec_sext(u64_specs::wrapping_shr(lo, wshamt), 32) & m,
        Opcode::Sraw => spec_sext(u64_specs::wrapping_shr(lo, wshamt), (32 - wshamt) as u64) & m,
        Opcode::Mulw => spec_sext(u64_specs::wrapping_mul(a, b), 32) & m,
        Opcode::Divw => spec_sext(div_word(a, b), 32) & m,
        Opcode::Divuw => spec_sext(if blo == 0 { 0xffff_ffff } else { lo / blo }, 32) & m,
        Opcode::Remw => spec_sext(rem_word(a, b), 32) & m,
        Opcode::Remuw => spec_sext(if blo == 0 { lo } else { lo % blo }, 32) & m,
        _ => 0,
    }
}

/// Computes the value that an integer, multiply/divide or word instruction writes
/// to `rd`.
pub fn alu(op: Opcode, code: u32, a: RegT, b: RegT, pc: RegT, xlen: XLen) -> (r: RegT)
    requires
        is_alu(op),
    ensures
        r == alu_value(op, code, a, b, pc, xlen),
{
    let m = xlen.mask();
    let sm = xlen.shamt_mask();
    let len = xlen.len() as u32;
    let imm = crate::isa::format::imm_i(code);
    let ishamt = imm & sm;
    let rshamt = (b as u32) & sm;
    let wshamt = (b as u32) & 0x1f;
    let iwshamt = imm & 0x1f;
    let lo = a & 0xffff_ffff;
    let blo = b & 0xffff_ffff;
    proof {
        assert(iwshamt <= 0x1f && wshamt <= 0x1f) by (bit_vector)
            requires
                iwshamt == imm & 0x1f,
                wshamt == (b as u32) & 0x1f,
        ;
    }
    match op {
        Opcode::Lui => sext(crate::isa::format::imm_u(code) as u64, 32) & m,
        Opcode::Auipc => pc.wrapping_add(sext(crate::isa::format::imm_u(code) as u64, 32)) & m,
        Opcode::Addi => a.wrapping_add(sext(imm as u64, 12)) & m,
        Opcode::Slti => if (a as i64) < (sext(imm as u64, 12) as i64) { 1 } else { 0 },
        Opcode::Sltiu => if a < sext(imm as u64, 12) { 1 } else { 0 },
        Opcode::Xori => (a ^ sext(imm as u64, 12)) & m,
        Opcode::Ori => (a | sext(imm as u64, 12)) & m,
        Opcode::Andi => (a & sext(imm as u64, 12)) & m,
        Opcode::Slli => a.wrapping_shl(ishamt) & m,
        Opcode::Srli => a.wrapping_shr(ishamt) & m,
        Opcode::Srai => ((a as i64).wrapping_shr(ishamt) as u64) & m,
        Opcode::Add => a.wrapping_add(b) & m,
        Opcode::Sub => a.wrapping_sub(b) & m,
        Opcode::Sll => a.wrapping_shl(rshamt) & m,
        Opcode::Slt => if (a as i64) < (b as i64) { 1 } else { 0 },
        Opcode::Sltu => if a < b { 1 } else { 0 },
        Opcode::Xor => (a ^ b) & m,
        Opcode::Srl => a.wrapping_shr(rshamt) & m,
        Opcode::Sra => ((a as i64).wrapping_shr(rshamt) as u64) & m,
        Opcode::Or => (a | b) & m,
        Opcode::And => (a & b) & m,
        Opcode::Mul => a.wrapping_mul(b) & m,
        Opcode::Mulh => {
            let p = (a as i64 as i128).wrapping_mul(b as i64 as i128);
            (p.wrapping_shr(len) as u64) & m
        },
        Opcode::Mulhsu => {
            let p = (a as i64 as i128 as u128).wrapping_mul(b as u128);
            (p.wrapping_shr(len) as u64) & m
        },
        Opcode::Mulhu => {
            let p = (a as u128).wrapping_mul(b as u128);
            (p.wrapping_shr(len) as u64) & m
        },
        Opcode::Div => {
            let q: u64 = if b == 0 {
                0xffff_ffff_ffff_ffff
            } else {
                match (a as i64).checked_div(b as i64) {
                    Some(q) => q as u64,
                    None => 0x8000_0000_0000_0000,
                }
            };
            q & m
        },
        Opcode::Divu => (if b == 0 { 0xffff_ffff_ffff_ffff } else { a / b }) & m,
        Opcode::Rem => {
            let r: u64 = if b == 0 {
                a
            } else {
                match (a as i64).checked_rem(b as i64) {
                    Some(r) => r as u64,
                    None => 0,
                }
            };
            r & m
        },
        Opcode::Remu => (if b == 0 { a } else { a % b }) & m,
        Opcode::Addiw => sext(a.wrapping_add(sext(imm as u64, 12)), 32) & m,
        Opcode::Slliw => sext(a.wrapping_shl(iwshamt), 32) & m,
        Opcode::Srliw => sext(lo.wrapping_shr(iwshamt), 32) & m,
        Opcode::Sraiw => sext(lo.wrapping_shr(iwshamt), (32 - iwshamt) as usize) & m,
        Opcode::Addw => sext(a.wrapping_add(b), 32) & m,
        Opcode::Subw => sext(a.wrapping_sub(b), 32) & m,
        Opcode::Sllw => sext(a.wrapping_shl(wshamt), 32) & m,
        Opcode::Srlw => sext(lo.wrapping_shr(wshamt), 32) & m,
        Opcode::Sraw => sext(lo.wrapping_shr(wshamt), (32 - wshamt) as usize) & m,
        Opcode::Mulw => sext(a.wrapping_mul(b), 32) & m,
        Opcode::Divw => {
            let q: u64 = if b as u32 == 0 {
                0xffff_ffff
            } else {
                match (a as u32 as i32).checked_div(b as u32 as i32) {
                    Some(q) => q as u32 as u64,
                    None => 0x8000_0000,
                }
            };
            sext(q, 32) & m
        },
        Opcode::Divuw => sext(if blo == 0 { 0xffff_ffff } else { lo / blo }, 32) & m,
        Opcode::Remw => {
            let r: u64 = if b as u32 == 0 {
                lo
            } else {
                match (a as u32 as i32).checked_rem(b as u32 as i32) {
                    Some(r) => r as u32 as u64,
                    None => 0,
                }
            };
            sext(r, 32) & m
        },
        Opcode::Remuw => sext(if blo == 0 { lo } else { lo % blo }, 32) & m,
        _ => 0,
    }
}

/// Every value an integer, multiply/divide or word instruction writes fits in
/// XLEN: the bits above XLEN are zero.
pub proof fn lemma_alu_fits_xlen(op: Opcode, code: u32, a: RegT, b: RegT, pc: RegT, xlen: XLen)
    requires
        is_alu(op),
    ensures
        alu_value(op, code, a, b, pc, xlen) & !xlen.spec_mask() == 0,
{
    let m = xlen.spec_mask();
    let v = alu_value(op, code, a, b, pc, xlen);
    assert(forall|x: u64, y: u64| #[trigger] ((x & y) & !y) == 0) by (bit_vector);
    assert((1u64 & !m) == 0 && (0u64 & !m) == 0) by (bit_vector)
        requires
            m == 0xffff_ffffu64 || m == 0xffff_ffff_ffff_ffffu64,
    ;
}

/// Division by zero: DIV, DIVU, DIVW and DIVUW give all ones at XLEN; REM and
/// REMU give the dividend and REMUW the dividend's low word sign-extended.
pub proof fn lemma_division_by_zero(code: u32, a: RegT, pc: RegT, xlen: XLen)
    ensures
        alu_value(Opcode::Div, code, a, 0, pc, xlen) == xlen.spec_mask(),
        alu_value(Opcode::Divu, code, a, 0, pc, xlen) == xlen.spec_mask(),
        xlen == XLen::X64 ==> alu_value(Opcode::Divw, code, a, 0, pc, xlen) == xlen.spec_mask(),
        xlen == XLen::X64 ==> alu_value(Opcode::Divuw, code, a, 0, pc, xlen) == xlen.spec_mask(),
        alu_value(Opcode::Rem, code, a, 0, pc, xlen) == a & xlen.spec_mask(),
        alu_value(Opcode::Remu, code, a, 0, pc, xlen) == a & xlen.spec_mask(),
        alu_value(Opcode::Remuw, code, a, 0, pc, xlen) == spec_sext(a & 0xffff_ffff, 32) & xlen.spec_mask(),
{
    let m = xlen.spec_mask();
    assert(0xffff_ffff_ffff_ffffu64 & m == m) by (bit_vector);
    assert(0u64 & 0xffff_ffffu64 == 0 && 0u64 as u32 == 0) by (bit_vector);
    assert(spec_sext(0xffff_ffff, 32) == 0xffff_ffff_ffff_ffffu64) by (bit_vector);
}

/// With 64-bit registers, SLL, SRL and SRA read only the low six bits of `rs2`.
pub proof fn lemma_shift_amount(code: u32, a: RegT, b: RegT, pc: RegT)
    ensures
        alu_value(Opcode::Sll, code, a, b, pc, XLen::X64) == alu_value(Opcode::Sll, code, a, b & 0x3f, pc, XLen::X64),
        alu_value(Opcode::Srl, code, a, b, pc, XLen::X64) == alu_value(Opcode::Srl, code, a, b & 0x3f, pc, XLen::X64),
        alu_value(Opcode::Sra, code, a, b, pc, XLen::X64) == alu_value(Opcode::Sra, code, a, b & 0x3f, pc, XLen::X64),
{
    assert((b as u32) & 0x3f == ((b & 0x3f) as u32) & 0x3f) by (bit_vector);
}

} // verus!
