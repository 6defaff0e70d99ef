//! The effect of each instruction on the hart state and, through the MMU, on
//! memory and devices.
use crate::bits::{bit_of, field_of, with_bit, with_field};
use crate::cpu::CpuStatus;
use crate::device::Width;
use crate::isa::alu::{alu, alu_value, imm12, is_alu, needs_xlen64, requires_xlen64};
use crate::isa::decode::{Insn, Opcode};
use crate::isa::format::{
    imm_b, imm_b_of, imm_i, imm_i_of, imm_j, imm_j_of, imm_s, imm_s_of, rd, rd_of, rs1, rs1_of,
    rs2, rs2_of,
};
use crate::isa::{sext, spec_sext};
use crate::mmu::Mmu;
use crate::register::csrs::{csr_after_write, MEPC, MSTATUS, SEPC, SSTATUS};
use crate::trap::Exception;
use crate::{PrivilegeMode, RegT, XLen};
use vstd::prelude::*;
use vstd::wrapping::u64_specs::wrapping_add;

verus! {

/// The address of the next instruction.
pub open spec fn next_pc(pc: RegT) -> RegT {
    wrapping_add(pc, 4)
}

/// The registers after writing `v` to register `rd`; a write to x0 is dropped.
pub open spec fn regs_after(xs: Seq<RegT>, rd: u32, v: RegT) -> Seq<RegT> {
    if rd == 0 {
        xs
    } else {
        xs.update(rd as int, v)
    }
}

/// `new` is `old` with `v` written to `rd` and the PC on the next instruction.
pub open spec fn wrote_rd(old: CpuStatus, new: CpuStatus, rd: u32, v: RegT) -> bool {
    &&& new.wf()
    &&& new.privilege == old.privilege
    &&& new.csrs == old.csrs
    &&& new.pc == next_pc(old.pc)
    &&& new.xs@ == regs_after(old.xs@, rd, v)
}

/// `new` is `old` with only the PC moved to `pc`.
pub open spec fn moved_to(old: CpuStatus, new: CpuStatus, pc: RegT) -> bool {
    &&& new.wf()
    &&& new.privilege == old.privilege
    &&& new.csrs == old.csrs
    &&& new.xs == old.xs
    &&& new.pc == pc
}

/// The value of the first source register of `code`.
pub open spec fn src1(s: CpuStatus, code: u32) -> RegT {
    s.xs.spec_reg(rs1_of(code) as int)
}

/// The value of the second source register of `code`.
pub open spec fn src2(s: CpuStatus, code: u32) -> RegT {
    s.xs.spec_reg(rs2_of(code) as int)
}

/// Reads source register `id`.
fn read_reg(state: &CpuStatus, id: u8) -> (r: RegT)
    requires
        state.wf(),
        id < 32,
    ensures
        r == state.xs.spec_reg(id as int),
{
    state.xs.reg(id)
}

/// Writes `v` to `rd` and moves the PC to the next instruction.
fn retire(state: &mut CpuStatus, rd: u8, v: RegT)
    requires
        old(state).wf(),
        rd < 32,
    ensures
        wrote_rd(*old(state), *final(state), rd as u32, v),
{
    state.xs.set_reg(rd, v);
    state.pc = state.pc.wrapping_add(4);
}

/// The effect of an integer, multiply/divide or word instruction.
pub open spec fn alu_executed(
    insn: Insn,
    old: CpuStatus,
    new: CpuStatus,
    xlen: XLen,
    r: Result<(), Exception>,
) -> bool {
    if needs_xlen64(insn.op) && xlen == XLen::X32 {
        r == Err::<(), Exception>(Exception::InstructionFault) && new == old
    } else {
        r == Ok::<(), Exception>(()) && wrote_rd(
            old,
            new,
            rd_of(insn.code),
            alu_value(insn.op, insn.code, src1(old, insn.code), src2(old, insn.code), old.pc, xlen),
        )
    }
}

/// Executes an integer, multiply/divide or word instruction.
pub fn exec_alu(insn: Insn, state: &mut CpuStatus, xlen: XLen) -> (r: Result<(), Exception>)
    requires
        is_alu(insn.op),
        old(state).wf(),
    ensures
        alu_executed(insn, *old(state), *final(state), xlen, r),
{
    if requires_xlen64(insn.op) && xlen == XLen::X32 {
        return Err(Exception::InstructionFault);
    }
    let a = read_reg(state, rs1(insn.code));
    let b = read_reg(state, rs2(insn.code));
    let v = alu(insn.op, insn.code, a, b, state.pc, xlen);
    retire(state, rd(insn.code), v);
    Ok(())
}

/// The jumps: JAL and JALR.
pub open spec fn is_jump(op: Opcode) -> bool {
    op == Opcode::Jal || op == Opcode::Jalr
}

/// Where a jump goes: PC plus the J immediate for JAL (masked to XLEN); `rs1` plus
/// the I immediate with bit 0 cleared for JALR.
pub open spec fn jump_target(insn: Insn, s: CpuStatus, xlen: XLen) -> RegT {
    if insn.op == Opcode::Jal {
        wrapping_add(s.pc, spec_sext(imm_j_of(insn.code) as u64, 21)) & xlen.spec_mask()
    } else {
        wrapping_add(src1(s, insn.code), imm12(insn.code)) & !1u64
    }
}

/// The effect of a jump: `rd` gets the address of the next instruction, then the
/// PC moves to the target.
pub open spec fn jump_executed(insn: Insn, old: CpuStatus, new: CpuStatus, xlen: XLen) -> bool {
    &&& new.wf()
    &&& new.privilege == old.privilege
    &&& new.csrs == old.csrs
    &&& new.pc == jump_target(insn, old, xlen)
    &&& new.xs@ == regs_after(old.xs@, rd_of(insn.code), next_pc(old.pc) & xlen.spec_mask())
}

/// Executes JAL or JALR.
pub fn exec_jump(insn: Insn, state: &mut CpuStatus, xlen: XLen) -> (r: Result<(), Exception>)
    requires
        is_jump(insn.op),
        old(state).wf(),
    ensures
        r == Ok::<(), Exception>(()),
        jump_executed(insn, *old(state), *final(state), xlen),
{
    let link = state.pc.wrapping_add(4) & xlen.mask();
    let target = if insn.op == Opcode::Jal {
        state.pc.wrapping_add(sext(imm_j(insn.code) as u64, 21)) & xlen.mask()
    } else {
        let a = read_reg(state, rs1(insn.code));
        a.wrapping_add(sext(imm_i(insn.code) as u64, 12)) & !1u64
    };
    state.xs.set_reg(rd(insn.code), link);
    state.pc = target;
    Ok(())
}

/// The conditional branches.
pub open spec fn is_branch(op: Opcode) -> bool {
    match op {
        Opcode::Beq | Opcode::Bne | Opcode::Blt | Opcode::Bge | Opcode::Bltu | Opcode::Bgeu => true,
        _ => false,
    }
}

/// Whether a branch is taken on source values `a` and `b`.
pub open spec fn branch_taken(op: Opcode, a: RegT, b: RegT) -> bool {
    match op {
        Opcode::Beq => a == b,
        Opcode::Bne => a != b,
        Opcode::Blt => (a as i64) < (b as i64),
        Opcode::Bge => (a as i64) >= (b as i64),
        Opcode::Bltu => a < b,
        _ => a >= b,
    }
}

/// Where a branch leaves the PC: PC plus the B immediate when taken, else the
/// next instruction.
pub open spec fn branch_target(insn: Insn, s: CpuStatus) -> RegT {
    if branch_taken(insn.op, src1(s, insn.code), src2(s, insn.code)) {
        wrapping_add(s.pc, spec_sext(imm_b_of(insn.code) as u64, 13))
    } else {
        next_pc(s.pc)
    }
}

/// Executes a conditional branch.
pub fn exec_branch(insn: Insn, state: &mut CpuStatus) -> (r: Result<(), Exception>)
    requires
        is_branch(insn.op),
        old(state).wf(),
    ensures
        r == Ok::<(), Exception>(()),
        moved_to(*old(state), *final(state), branch_target(insn, *old(state))),
{
    let a = read_reg(state, rs1(insn.code));
    let b = read_reg(state, rs2(insn.code));
    let taken = match insn.op {
        Opcode::Beq => a == b,
        Opcode::Bne => a != b,
        Opcode::Blt => (a as i64) < (b as i64),
        Opcode::Bge => (a as i64) >= (b as i64),
        Opcode::Bltu => a < b,
        _ => a >= b,
    };
    if taken {
        state.pc = state.pc.wrapping_add(sext(imm_b(insn.code) as u64, 13));
    } else {
        state.pc = state.pc.wrapping_add(4);
    }
    Ok(())
}

/// The loads.
pub open spec fn is_load(op: Opcode) -> bool {
    match op {
        Opcode::Lb | Opcode::Lh | Opcode::Lw | Opcode::Lbu | Opcode::Lhu | Opcode::Lwu
        | Opcode::Ld => true,
        _ => false,
    }
}

/// The width a load or store accesses.
pub open spec fn access_width(op: Opcode) -> Width {
    match op {
        Opcode::Lb | Opcode::Lbu | Opcode::Sb => Width::Byte,
        Opcode::Lh | Opcode::Lhu | Opcode::Sh => Width::Half,
        Opcode::Lw | Opcode::Lwu | Opcode::Sw => Width::Word,
        _ => Width::Double,
    }
}

/// The width a load or store accesses.
fn width_of(op: Opcode) -> (r: Width)
    ensures
        r == access_width(op),
{
    match op {
        Opcode::Lb | Opcode::Lbu | Opcode::Sb => Width::Byte,
        Opcode::Lh | Opcode::Lhu | Opcode::Sh => Width::Half,
        Opcode::Lw | Opcode::Lwu | Opcode::Sw => Width::Word,
        _ => Width::Double,
    }
}

/// The register value a load produces from the loaded bits: sign-extended for LB,
/// LH and LW, zero-extended otherwise.
pub open spec fn load_extend(op: Opcode, v: RegT, xlen: XLen) -> RegT {
    match op {
        Opcode::Lb => spec_sext(v, 8) & xlen.spec_mask(),
        Opcode::Lh => spec_sext(v, 16) & xlen.spec_mask(),
        Opcode::Lw => spec_sext(v, 32) & xlen.spec_mask(),
        _ => v,
    }
}

/// The virtual address of a load: `rs1` plus the I immediate.
pub open spec fn load_address(insn: Insn, s: CpuStatus) -> RegT {
    wrapping_add(src1(s, insn.code), imm12(insn.code))
}

/// The effect of a load: a failed access changes no hart state and returns its
/// exception; otherwise `rd` gets the extended value.
pub open spec fn load_executed(
    insn: Insn,
    old: CpuStatus,
    mmu: Mmu,
    new: CpuStatus,
    new_mmu: Mmu,
    xlen: XLen,
    r: Result<(), Exception>,
) -> bool {
    if needs_xlen64(insn.op) && xlen == XLen::X32 {
        r == Err::<(), Exception>(Exception::InstructionFault) && new == old && new_mmu == mmu
    } else {
        &&& Mmu::loaded(mmu, new_mmu, old, load_address(insn, old), access_width(insn.op))
        &&& match mmu.load_spec(old, load_address(insn, old), access_width(insn.op)) {
            Ok(v) => r == Ok::<(), Exception>(()) && wrote_rd(
                old,
                new,
                rd_of(insn.code),
                load_extend(insn.op, v, xlen),
            ),
            Err(e) => r == Err::<(), Exception>(e) && new == old,
        }
    }
}

/// Executes a load.
pub fn exec_load(insn: Insn, state: &mut CpuStatus, mmu: &mut Mmu, xlen: XLen) -> (r: Result<
    (),
    Exception,
>)
    requires
        is_load(insn.op),
        old(state).wf(),
        old(mmu).wf(),
    ensures
        load_executed(insn, *old(state), *old(mmu), *final(state), *final(mmu), xlen, r),
{
    if requires_xlen64(insn.op) && xlen == XLen::X32 {
        return Err(Exception::InstructionFault);
    }
    let a = read_reg(state, rs1(insn.code));
    let addr = a.wrapping_add(sext(imm_i(insn.code) as u64, 12));
    let w = width_of(insn.op);
    let data = mmu.load(state, addr, w)?;
    let value = match insn.op {
        Opcode::Lb => sext(data, 8) & xlen.mask(),
        Opcode::Lh => sext(data, 16) & xlen.mask(),
        Opcode::Lw => sext(data, 32) & xlen.mask(),
        _ => data,
    };
    retire(state, rd(insn.code), value);
    Ok(())
}

/// The stores.
pub open spec fn is_store(op: Opcode) -> bool {
    match op {
        Opcode::Sb | Opcode::Sh | Opcode::Sw | Opcode::Sd => true,
        _ => false,
    }
}

/// The virtual address of a store: `rs1` plus the S immediate.
pub open spec fn store_address(insn: Insn, s: CpuStatus) -> RegT {
    wrapping_add(src1(s, insn.code), spec_sext(imm_s_of(insn.code) as u64, 12))
}

/// The effect of a store: the low bytes of `rs2` go to memory through the MMU,
/// and the PC advances only when the store succeeds.
pub open spec fn store_executed(
    insn: Insn,
    old: CpuStatus,
    old_mmu: Mmu,
    new: CpuStatus,
    new_mmu: Mmu,
    xlen: XLen,
    r: Result<(), Exception>,
) -> bool {
    if needs_xlen64(insn.op) && xlen == XLen::X32 {
        r == Err::<(), Exception>(Exception::InstructionFault) && new == old && new_mmu == old_mmu
    } else {
        &&& Mmu::stored(
            old_mmu,
            new_mmu,
            old,
            store_address(insn, old),
            access_width(insn.op),
            src2(old, insn.code),
            r,
        )
        &&& r is Ok ==> moved_to(old, new, next_pc(old.pc))
        &&& r is Err ==> new == old
    }
}

/// Executes a store.
pub fn exec_store(insn: Insn, state: &mut CpuStatus, mmu: &mut Mmu, xlen: XLen) -> (r: Result<
    (),
    Exception,
>)
    requires
        is_store(insn.op),
        old(state).wf(),
        old(mmu).wf(),
    ensures
        store_executed(insn, *old(state), *old(mmu), *final(state), *final(mmu), xlen, r),
{
    if requires_xlen64(insn.op) && xlen == XLen::X32 {
        return Err(Exception::InstructionFault);
    }
    let a = read_reg(state, rs1(insn.code));
    let addr = a.wrapping_add(sext(imm_s(insn.code) as u64, 12));
    let data = read_reg(state, rs2(insn.code));
    let w = width_of(insn.op);
    mmu.store(state, addr, w, data)?;
    state.pc = state.pc.wrapping_add(4);
    Ok(())
}

/// The CSR instructions.
pub open spec fn is_csr(op: Opcode) -> bool {
    match op {
        Opcode::Csrrw | Opcode::Csrrs | Opcode::Csrrc | Opcode::Csrrwi | Opcode::Csrrsi
        | Opcode::Csrrci => true,
        _ => false,
    }
}

/// The operand of a CSR instruction: the 5-bit zero-extended immediate in the
/// `rs1` field for the `*I` forms, the value of `rs1` otherwise.
pub open spec fn csr_operand(insn: Insn, s: CpuStatus) -> RegT {
    match insn.op {
        Opcode::Csrrwi | Opcode::Csrrsi | Opcode::Csrrci => rs1_of(insn.code) as u64,
        _ => src1(s, insn.code),
    }
}

/// The value a CSR instruction writes back, given the old CSR value `t` and the
/// operand `x`: `x`, `t | x` or `t & !x`, masked to XLEN.
pub open spec fn csr_new_value(op: Opcode, t: RegT, x: RegT, xlen: XLen) -> RegT {
    match op {
        Opcode::Csrrw | Opcode::Csrrwi => x & xlen.spec_mask(),
        Opcode::Csrrs | Opcode::Csrrsi => (t | x) & xlen.spec_mask(),
        _ => (t & !x) & xlen.spec_mask(),
    }
}

/// The effect of a CSR instruction: `rd` gets the old CSR value (masked to XLEN)
/// and the CSR the new one, through the CSR write rules.
pub open spec fn csr_executed(insn: Insn, old: CpuStatus, new: CpuStatus, xlen: XLen) -> bool {
    let n = imm_i_of(insn.code) as int;
    let t = old.csrs@[n];
    &&& new.wf()
    &&& new.privilege == old.privilege
    &&& new.pc == next_pc(old.pc)
    &&& new.xs@ == regs_after(old.xs@, rd_of(insn.code), t & xlen.spec_mask())
    &&& new.csrs@ == csr_after_write(
        old.csrs@,
        n,
        csr_new_value(insn.op, t, csr_operand(insn, old), xlen),
    )
}

/// Executes a CSR instruction.
pub fn exec_csr(insn: Insn, state: &mut CpuStatus, xlen: XLen) -> (r: Result<(), Exception>)
    requires
        is_csr(insn.op),
        old(state).wf(),
    ensures
        r == Ok::<(), Exception>(()),
        csr_executed(insn, *old(state), *final(state), xlen),
{
    let n = imm_i(insn.code) as u16;
    let t = state.csrs.csr(n);
    let x: RegT = match insn.op {
        Opcode::Csrrwi | Opcode::Csrrsi | Opcode::Csrrci => rs1(insn.code) as u64,
        _ => read_reg(state, rs1(insn.code)),
    };
    let m = xlen.mask();
    let v = match insn.op {
        Opcode::Csrrw | Opcode::Csrrwi => x & m,
        Opcode::Csrrs | Opcode::Csrrsi => (t | x) & m,
        _ => (t & !x) & m,
    };
    state.csrs.set_csr(n, v);
    retire(state, rd(insn.code), t & m);
    Ok(())
}

/// The environment-call exception for a privilege level.
pub open spec fn env_call(p: PrivilegeMode) -> Exception {
    match p {
        PrivilegeMode::User => Exception::UserEnvCall,
        PrivilegeMode::Supervisor => Exception::SupervisorEnvCall,
        PrivilegeMode::Machine => Exception::MachineEnvCall,
    }
}

/// `mstatus` after MRET: MIE takes MPIE, MPIE is set, MPP becomes User.
pub open spec fn mret_status(ms: RegT) -> RegT {
    with_field(with_bit(with_bit(ms, 3, bit_of(ms, 7)), 7, true), 11, 13, 0)
}

/// `sstatus` after SRET: SIE takes SPIE, SPIE is set, SPP becomes User.
pub open spec fn sret_status(ss: RegT) -> RegT {
    with_bit(with_bit(with_bit(ss, 1, bit_of(ss, 5)), 5, true), 8, false)
}

/// The effect of a system instruction. ECALL and EBREAK raise their exceptions;
/// the fences and WFI only advance the PC; MRET and SRET return from a trap. LR.W
/// and SC.W have no semantics here and raise an illegal-instruction exception.
pub open spec fn system_executed(insn: Insn, old: CpuStatus, new: CpuStatus, r: Result<(), Exception>) -> bool {
    match insn.op {
        Opcode::Ecall => r == Err::<(), Exception>(env_call(old.privilege)) && new == old,
        Opcode::Ebreak => r == Err::<(), Exception>(Exception::Breakpoint) && new == old,
        Opcode::LrW | Opcode::ScW => r == Err::<(), Exception>(Exception::IllegalInstruction) && new
            == old,
        Opcode::Mret => {
            let ms = old.csrs@[MSTATUS as int];
            &&& r == Ok::<(), Exception>(())
            &&& new.wf()
            &&& new.xs == old.xs
            &&& new.pc == old.csrs@[MEPC as int]
            &&& new.privilege == PrivilegeMode::from_mpp_code(field_of(ms, 11, 13))
            &&& new.csrs@ == old.csrs@.update(MSTATUS as int, mret_status(ms))
        },
        Opcode::Sret => {
            let ss = old.csrs@[SSTATUS as int];
            &&& r == Ok::<(), Exception>(())
            &&& new.wf()
            &&& new.xs == old.xs
            &&& new.pc == old.csrs@[SEPC as int]
            &&& new.privilege == (if bit_of(ss, 8) {
                PrivilegeMode::Supervisor
            } else {
                PrivilegeMode::User
            })
            &&& new.csrs@ == old.csrs@.update(SSTATUS as int, sret_status(ss))
        },
        _ => r == Ok::<(), Exception>(()) && moved_to(old, new, next_pc(old.pc)),
    }
}

/// Executes a system instruction (anything not in the other classes).
pub fn exec_system(insn: Insn, state: &mut CpuStatus) -> (r: Result<(), Exception>)
    requires
        old(state).wf(),
    ensures
        system_executed(insn, *old(state), *final(state), r),
{
    match insn.op {
        Opcode::Ecall => match state.privilege {
            PrivilegeMode::User => Err(Exception::UserEnvCall),
            PrivilegeMode::Supervisor => Err(Exception::SupervisorEnvCall),
            PrivilegeMode::Machine => Err(Exception::MachineEnvCall),
        },
        Opcode::Ebreak => Err(Exception::Breakpoint),
        Opcode::LrW | Opcode::ScW => Err(Exception::IllegalInstruction),
        Opcode::Mret => {
            state.pc = state.csrs.mepc();
            let mut mstatus = state.csrs.mstatus();
            state.privilege = mstatus.mpp();
            let mpie = mstatus.mpie();
            mstatus.set_mie(mpie);
            mstatus.set_mpie(true);
            mstatus.set_mpp(PrivilegeMode::User);
            state.csrs.set_mstatus(mstatus.bits());
            Ok(())
        },
        Opcode::Sret => {
            state.pc = state.csrs.sepc();
            let mut sstatus = state.csrs.sstatus();
            state.privilege = sstatus.spp();
            let spie = sstatus.spie();
            sstatus.set_sie(spie);
            sstatus.set_spie(true);
            sstatus.set_spp(PrivilegeMode::User);
            state.csrs.set_sstatus(sstatus.bits());
            Ok(())
        },
        _ => {
            state.pc = state.pc.wrapping_add(4);
            Ok(())
        },
    }
}

/// The 32-bit atomic memory operations.
pub open spec fn is_amo(op: Opcode) -> bool {
    match op {
        Opcode::AmoswapW | Opcode::AmoaddW | Opcode::AmoxorW | Opcode::AmoandW | Opcode::AmoorW
        | Opcode::AmominW | Opcode::AmomaxW | Opcode::AmominuW | Opcode::AmomaxuW => true,
        _ => false,
    }
}

/// The word an AMO writes back, from the word `v` read and the value `src` of `rs2`.
pub open spec fn amo_value(op: Opcode, v: RegT, src: RegT) -> RegT {
    let s32 = src as u32;
    let v32 = v as u32;
    match op {
        Opcode::AmoswapW => s32 as u64,
        Opcode::AmoaddW => vstd::wrapping::u32_specs::wrapping_add(s32, v32) as u64,
        Opcode::AmoxorW => (s32 ^ v32) as u64,
        Opcode::AmoandW => (s32 & v32) as u64,
        Opcode::AmoorW => (s32 | v32) as u64,
        Opcode::AmominW => if (s32 as i32) < (v32 as i32) { s32 as u64 } else { v32 as u64 },
        Opcode::AmomaxW => if (s32 as i32) > (v32 as i32) { s32 as u64 } else { v32 as u64 },
        Opcode::AmominuW => (if src < v { src } else { v }) as u32 as u64,
        _ => (if src > v { src } else { v }) as u32 as u64,
    }
}

/// The effect of an AMO at the address in `rs1`: a misaligned address raises
/// LoadMisaligned; otherwise the word is read, the combined word written back,
/// and `rd` gets the word read, sign-extended. Nothing changes when a step fails.
pub open spec fn amo_executed(
    insn: Insn,
    old: CpuStatus,
    old_mmu: Mmu,
    new: CpuStatus,
    new_mmu: Mmu,
    xlen: XLen,
    r: Result<(), Exception>,
) -> bool {
    let addr = src1(old, insn.code);
    if addr % 4 != 0 {
        r == Err::<(), Exception>(Exception::LoadMisaligned) && new == old && new_mmu == old_mmu
    } else {
        match old_mmu.load_spec(old, addr, Width::Word) {
            Err(e) => r == Err::<(), Exception>(e) && new == old && new_mmu == old_mmu,
            Ok(v) => {
                &&& Mmu::stored(
                    old_mmu,
                    new_mmu,
                    old,
                    addr,
                    Width::Word,
                    amo_value(insn.op, v, src2(old, insn.code)),
                    r,
                )
                &&& r is Ok ==> wrote_rd(
                    old,
                    new,
                    rd_of(insn.code),
                    spec_sext(v, 32) & xlen.spec_mask(),
                )
                &&& r is Err ==> new == old
            },
        }
    }
}

/// Executes a 32-bit atomic memory operation.
pub fn exec_amo(insn: Insn, state: &mut CpuStatus, mmu: &mut Mmu, xlen: XLen) -> (r: Result<
    (),
    Exception,
>)
    requires
        is_amo(insn.op),
        old(state).wf(),
        old(mmu).wf(),
    ensures
        amo_executed(insn, *old(state), *old(mmu), *final(state), *final(mmu), xlen, r),
{
    let addr = read_reg(state, rs1(insn.code));
    let src = read_reg(state, rs2(insn.code));
    if addr % 4 != 0 {
        return Err(Exception::LoadMisaligned);
    }
    let v = mmu.load(state, addr, Width::Word)?;
    let s32 = src as u32;
    let v32 = v as u32;
    let new_value: u64 = match insn.op {
        Opcode::AmoswapW => s32 as u64,
        Opcode::AmoaddW => s32.wrapping_add(v32) as u64,
        Opcode::AmoxorW => (s32 ^ v32) as u64,
        Opcode::AmoandW => (s32 & v32) as u64,
        Opcode::AmoorW => (s32 | v32) as u64,
        Opcode::AmominW => if (s32 as i32) < (v32 as i32) { s32 as u64 } else { v32 as u64 },
        Opcode::AmomaxW => if (s32 as i32) > (v32 as i32) { s32 as u64 } else { v32 as u64 },
        Opcode::AmominuW => (if src < v { src } else { v }) as u32 as u64,
        _ => (if src > v { src } else { v }) as u32 as u64,
    };
    mmu.store(state, addr, Width::Word, new_value)?;
    retire(state, rd(insn.code), sext(v, 32) & xlen.mask());
    Ok(())
}

/// The effect of executing `insn`, by instruction class.
pub open spec fn executed(
    insn: Insn,
    old: CpuStatus,
    old_mmu: Mmu,
    new: CpuStatus,
    new_mmu: Mmu,
    xlen: XLen,
    r: Result<(), Exception>,
) -> bool {
    if is_alu(insn.op) {
        alu_executed(insn, old, new, xlen, r) && new_mmu == old_mmu
    } else if is_jump(insn.op) {
        r == Ok::<(), Exception>(()) && jump_executed(insn, old, new, xlen) && new_mmu == old_mmu
    } else if is_branch(insn.op) {
        r == Ok::<(), Exception>(()) && moved_to(old, new, branch_target(insn, old)) && new_mmu
            == old_mmu
    } else if is_load(insn.op) {
        load_executed(insn, old, old_mmu, new, new_mmu, xlen, r)
    } else if is_store(insn.op) {
        store_executed(insn, old, old_mmu, new, new_mmu, xlen, r)
    } else if is_csr(insn.op) {
        r == Ok::<(), Exception>(()) && csr_executed(insn, old, new, xlen) && new_mmu == old_mmu
    } else if is_amo(insn.op) {
        amo_executed(insn, old, old_mmu, new, new_mmu, xlen, r)
    } else {
        system_executed(insn, old, new, r) && new_mmu == old_mmu
    }
}

impl Insn {
    /// Executes the instruction on the hart state, with memory behind `mmu`.
    pub fn exec(&self, state: &mut CpuStatus, mmu: &mut Mmu, xlen: XLen) -> (r: Result<
        (),
        Exception,
    >)
        requires
            old(state).wf(),
            old(mmu).wf(),
        ensures
            final(state).wf(),
            final(mmu).wf(),
            final(mmu).xlen == old(mmu).xlen,
            executed(*self, *old(state), *old(mmu), *final(state), *final(mmu), xlen, r),
    {
        let insn = *self;
        match insn.op {
            Opcode::Lui | Opcode::Auipc | Opcode::Addi | Opcode::Slti | Opcode::Sltiu
            | Opcode::Xori | Opcode::Ori | Opcode::Andi | Opcode::Slli | Opcode::Srli
            | Opcode::Srai | Opcode::Add | Opcode::Sub | Opcode::Sll | Opcode::Slt | Opcode::Sltu
            | Opcode::Xor | Opcode::Srl | Opcode::Sra | Opcode::Or | Opcode::And | Opcode::Mul
            | Opcode::Mulh | Opcode::Mulhsu | Opcode::Mulhu | Opcode::Div | Opcode::Divu
            | Opcode::Rem | Opcode::Remu | Opcode::Addiw | Opcode::Slliw | Opcode::Srliw
            | Opcode::Sraiw | Opcode::Addw | Opcode::Subw | Opcode::Sllw | Opcode::Srlw
            | Opcode::Sraw | Opcode::Mulw | Opcode::Divw | Opcode::Divuw | Opcode::Remw
            | Opcode::Remuw => exec_alu(insn, state, xlen),
            Opcode::Jal | Opcode::Jalr => exec_jump(insn, state, xlen),
            Opcode::Beq | Opcode::Bne | Opcode::Blt | Opcode::Bge | Opcode::Bltu
            | Opcode::Bgeu => exec_branch(insn, state),
            Opcode::Lb | Opcode::Lh | Opcode::Lw | Opcode::Lbu | Opcode::Lhu | Opcode::Lwu
            | Opcode::Ld => exec_load(insn, state, mmu, xlen),
            Opcode::Sb | Opcode::Sh | Opcode::Sw | Opcode::Sd => exec_store(insn, state, mmu, xlen),
            Opcode::Csrrw | Opcode::Csrrs | Opcode::Csrrc | Opcode::Csrrwi | Opcode::Csrrsi
            | Opcode::Csrrci => exec_csr(insn, state, xlen),
            Opcode::AmoswapW | Opcode::AmoaddW | Opcode::AmoxorW | Opcode::AmoandW
            | Opcode::AmoorW | Opcode::AmominW | Opcode::AmomaxW | Opcode::AmominuW
            | Opcode::AmomaxuW => exec_amo(insn, state, mmu, xlen),
            _ => exec_system(insn, state),
        }
    }
}

/// After MRET: MIE holds the old MPIE, MPIE is set, MPP reads as User, the
/// privilege is the old MPP and the PC the old `mepc`.
pub proof fn lemma_mret(insn: Insn, old: CpuStatus, new: CpuStatus, r: Result<(), Exception>)
    requires
        insn.op == Opcode::Mret,
        old.wf(),
        system_executed(insn, old, new, r),
    ensures
        r is Ok,
        bit_of(new.csrs@[MSTATUS as int], 3) == bit_of(old.csrs@[MSTATUS as int], 7),
        bit_of(new.csrs@[MSTATUS as int], 7),
        PrivilegeMode::from_mpp_code(field_of(new.csrs@[MSTATUS as int], 11, 13))
            == PrivilegeMode::User,
        new.privilege == PrivilegeMode::from_mpp_code(field_of(old.csrs@[MSTATUS as int], 11, 13)),
        new.pc == old.csrs@[MEPC as int],
{
    let ms = old.csrs@[MSTATUS as int];
    let x = with_bit(with_bit(ms, 3, bit_of(ms, 7)), 7, true);
    crate::bits::lemma_with_bit(ms, 3, bit_of(ms, 7));
    crate::bits::lemma_with_bit(with_bit(ms, 3, bit_of(ms, 7)), 7, true);
    assert(bit_of(with_field(x, 11, 13, 0), 3) == bit_of(x, 3) && bit_of(with_field(x, 11, 13, 0), 7)
        == bit_of(x, 7) && field_of(with_field(x, 11, 13, 0), 11, 13) == 0) by (bit_vector);
}

/// After SRET: SIE holds the old SPIE, SPIE is set, SPP reads as User, the
/// privilege is the old SPP and the PC the old `sepc`.
pub proof fn lemma_sret(insn: Insn, old: CpuStatus, new: CpuStatus, r: Result<(), Exception>)
    requires
        insn.op == Opcode::Sret,
        old.wf(),
        system_executed(insn, old, new, r),
    ensures
        r is Ok,
        bit_of(new.csrs@[SSTATUS as int], 1) == bit_of(old.csrs@[SSTATUS as int], 5),
        bit_of(new.csrs@[SSTATUS as int], 5),
        !bit_of(new.csrs@[SSTATUS as int], 8),
        new.privilege == (if bit_of(old.csrs@[SSTATUS as int], 8) {
            PrivilegeMode::Supervisor
        } else {
            PrivilegeMode::User
        }),
        new.pc == old.csrs@[SEPC as int],
{
    let ss = old.csrs@[SSTATUS as int];
    let x1 = with_bit(ss, 1, bit_of(ss, 5));
    let x2 = with_bit(x1, 5, true);
    crate::bits::lemma_with_bit(ss, 1, bit_of(ss, 5));
    crate::bits::lemma_with_bit(x1, 5, true);
    crate::bits::lemma_with_bit(x2, 8, false);
}

/// CSRRW moves the old CSR value into `rd` and the value of `rs1` into the CSR,
/// both masked to XLEN (for a destination other than x0 and a CSR other than
/// `sie`, whose writes go to `mie`).
pub proof fn lemma_csrrw(insn: Insn, old: CpuStatus, new: CpuStatus, xlen: XLen)
    requires
        insn.op == Opcode::Csrrw,
        old.wf(),
        csr_executed(insn, old, new, xlen),
        rd_of(insn.code) != 0,
        imm_i_of(insn.code) != crate::register::csrs::SIE,
    ensures
        new.xs.spec_reg(rd_of(insn.code) as int) == old.csrs@[imm_i_of(insn.code) as int] & xlen.spec_mask(),
        new.csrs@[imm_i_of(insn.code) as int] == src1(old, insn.code) & xlen.spec_mask(),
{
    crate::isa::format::lemma_field_bounds(insn.code);
}

/// An AMO whose address in `rs1` is not a multiple of four raises
/// LoadMisaligned and changes nothing.
pub proof fn lemma_amo_misaligned(
    insn: Insn,
    old: CpuStatus,
    old_mmu: Mmu,
    new: CpuStatus,
    new_mmu: Mmu,
    xlen: XLen,
    r: Result<(), Exception>,
)
    requires
        is_amo(insn.op),
        src1(old, insn.code) % 4 != 0,
        executed(insn, old, old_mmu, new, new_mmu, xlen, r),
    ensures
        r == Err::<(), Exception>(Exception::LoadMisaligned),
        new == old,
        new_mmu == old_mmu,
{
}

/// Register 0 reads as zero after any instruction, whatever it wrote.
pub proof fn lemma_x0_after_exec(
    insn: Insn,
    old: CpuStatus,
    old_mmu: Mmu,
    new: CpuStatus,
    new_mmu: Mmu,
    xlen: XLen,
    r: Result<(), Exception>,
)
    requires
        executed(insn, old, old_mmu, new, new_mmu, xlen, r),
    ensures
        new.xs.spec_reg(0) == 0,
{
}

} // verus!
