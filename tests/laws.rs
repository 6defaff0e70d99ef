use rvsim::cpu::Cpu;
use rvsim::device::memory::Memory;
use rvsim::device::{Width, DRAM_BASE};
use rvsim::isa::alu::alu;
use rvsim::isa::decode::{Insn, Opcode};
use rvsim::isa::sext;
use rvsim::mmu::AccessType;
use rvsim::register::xs::Xs;
use rvsim::trap::Exception;
use rvsim::{PrivilegeMode, XLen};

fn cpu_with(words: &[u32]) -> Cpu {
    let mut bytes = Vec::new();
    for w in words {
        bytes.extend_from_slice(&w.to_le_bytes());
    }
    Cpu::new(XLen::X64, bytes, DRAM_BASE)
}

#[test]
fn register_zero_reads_zero() {
    let mut xs = Xs::new();
    xs.set_reg(0, 7);
    assert_eq!(xs.reg(0), 0);
    // addi x0, x0, 5
    let mut cpu = cpu_with(&[0x0050_0013]);
    cpu.one_step().unwrap();
    assert_eq!(cpu.state.xs.reg(0), 0);
}

#[test]
fn results_fit_in_xlen32() {
    let v = alu(Opcode::Add, 0, 0xffff_ffff, 1, 0, XLen::X32);
    assert_eq!(v, 0);
    let v = alu(Opcode::Sub, 0, 0, 1, 0, XLen::X32);
    assert_eq!(v, 0xffff_ffff);
    let v = alu(Opcode::Mul, 0, 0x1_0000, 0x1_0000, 0, XLen::X32);
    assert_eq!(v, 0);
}

#[test]
fn word_instructions_fault_on_xlen32() {
    let mut cpu = Cpu::new(XLen::X32, Vec::new(), DRAM_BASE);
    let insn = Insn { op: Opcode::Addw, code: 0x0000_003b };
    assert_eq!(insn.exec(&mut cpu.state, &mut cpu.mmu, XLen::X32), Err(Exception::InstructionFault));
}

#[test]
fn exception_delegation() {
    // ebreak from user mode without delegation goes to machine mode
    let mut cpu = cpu_with(&[0x0010_0073]);
    cpu.state.privilege = PrivilegeMode::User;
    cpu.state.csrs.set_mtvec(0x8000_2000);
    cpu.one_step().unwrap();
    assert_eq!(cpu.state.privilege, PrivilegeMode::Machine);
    assert_eq!(cpu.state.pc, 0x8000_2000);
    assert_eq!(cpu.state.csrs.mcause(), 3);
    assert_eq!(cpu.state.csrs.mstatus().mpp(), PrivilegeMode::User);
    // with medeleg bit 3 it goes to supervisor mode
    let mut cpu = cpu_with(&[0x0010_0073]);
    cpu.state.privilege = PrivilegeMode::User;
    cpu.state.csrs.set_medeleg(1 << 3);
    cpu.state.csrs.set_stvec(0x8000_3000);
    cpu.one_step().unwrap();
    assert_eq!(cpu.state.privilege, PrivilegeMode::Supervisor);
    assert_eq!(cpu.state.pc, 0x8000_3000);
    // delegation never applies in machine mode
    let mut cpu = cpu_with(&[0x0010_0073]);
    cpu.state.csrs.set_medeleg(1 << 3);
    cpu.state.csrs.set_mtvec(0x8000_2000);
    cpu.one_step().unwrap();
    assert_eq!(cpu.state.privilege, PrivilegeMode::Machine);
    assert_eq!(cpu.state.csrs.mepc(), DRAM_BASE);
}

#[test]
fn bare_translation_is_identity() {
    let cpu = cpu_with(&[]);
    for addr in [0u64, 0x1234, 0x8000_0000, u64::MAX] {
        assert_eq!(cpu.mmu.translate(&cpu.state, addr, AccessType::Load), Ok(addr));
        assert_eq!(cpu.mmu.translate(&cpu.state, addr, AccessType::Fetch), Ok(addr));
    }
}

#[test]
fn sign_extension() {
    assert_eq!(sext(0x800, 12), 0xffff_ffff_ffff_f800);
    assert_eq!(sext(0x7ff, 12), 0x7ff);
    assert_eq!(sext(0xffff_f7ff, 12), 0x7ff);
    assert_eq!(sext(0x8000_0000, 32), 0xffff_ffff_8000_0000);
    assert_eq!(sext(sext(0x1abc, 13), 13), sext(0x1abc, 13));
    assert_eq!(sext(0x1234, 64), 0x1234);
}

#[test]
fn csrrw_swaps() {
    // addi x1, x0, 0x123; csrrw x2, mscratch, x1
    let mut cpu = cpu_with(&[0x1230_0093, 0x3400_9173]);
    cpu.state.csrs.set_csr(0x340, 0x55);
    cpu.one_step().unwrap();
    cpu.one_step().unwrap();
    assert_eq!(cpu.state.xs.reg(2), 0x55);
    assert_eq!(cpu.state.csrs.csr(0x340), 0x123);
}

#[test]
fn sie_write_goes_through_mideleg() {
    let mut cpu = cpu_with(&[]);
    cpu.state.csrs.set_mideleg(0x222);
    cpu.state.csrs.set_mie(0x888);
    cpu.state.csrs.set_csr(0x104, 0xfff);
    assert_eq!(cpu.state.csrs.mie().bits(), 0x888 | 0x222);
    cpu.state.csrs.set_csr(0x104, 0);
    assert_eq!(cpu.state.csrs.mie().bits(), 0x888);
}

#[test]
fn load_then_store_keeps_memory() {
    let mut m = Memory::new_with_binary(0x1000, vec![1, 2, 3, 4, 5, 6, 7, 8, 9], 16);
    for (addr, w) in [(0x1000, Width::Byte), (0x1001, Width::Half), (0x1003, Width::Word), (0x1008, Width::Double)] {
        let before = m.data.clone();
        let v = m.read(addr, w).unwrap();
        m.write(addr, w, v).unwrap();
        assert_eq!(m.data, before);
    }
    assert_eq!(m.read(0x1001, Width::Half), Ok(0x0302));
    assert_eq!(m.read(0x1000, Width::Double), Ok(0x0807_0605_0403_0201));
    assert_eq!(m.read(0x100c, Width::Double), Err(Exception::LoadFault));
    assert_eq!(m.write(0x0fff, Width::Byte, 0), Err(Exception::StoreFault));
}

#[test]
fn division_by_zero() {
    let x = XLen::X64;
    assert_eq!(alu(Opcode::Div, 0, 7, 0, 0, x), u64::MAX);
    assert_eq!(alu(Opcode::Divu, 0, 7, 0, 0, x), u64::MAX);
    assert_eq!(alu(Opcode::Divw, 0, 7, 0, 0, x), u64::MAX);
    assert_eq!(alu(Opcode::Divuw, 0, 7, 0, 0, x), u64::MAX);
    assert_eq!(alu(Opcode::Rem, 0, 7, 0, 0, x), 7);
    assert_eq!(alu(Opcode::Remu, 0, 7, 0, 0, x), 7);
    assert_eq!(alu(Opcode::Remuw, 0, 7, 0, 0, x), 7);
    assert_eq!(alu(Opcode::Div, 0, (-7i64) as u64, 2, 0, x), (-3i64) as u64);
    assert_eq!(alu(Opcode::Rem, 0, (-7i64) as u64, 2, 0, x), (-1i64) as u64);
    assert_eq!(alu(Opcode::Div, 0, i64::MIN as u64, u64::MAX, 0, x), i64::MIN as u64);
    assert_eq!(alu(Opcode::Rem, 0, i64::MIN as u64, u64::MAX, 0, x), 0);
}

#[test]
fn shifts_use_low_six_bits() {
    let x = XLen::X64;
    assert_eq!(alu(Opcode::Sll, 0, 1, 65, 0, x), 2);
    assert_eq!(alu(Opcode::Srl, 0, 4, 0x41, 0, x), 2);
    assert_eq!(alu(Opcode::Sra, 0, 0x8000_0000_0000_0000, 0x7f, 0, x), u64::MAX);
    assert_eq!(alu(Opcode::Sll, 0, 1, 63, 0, x), 1 << 63);
}

#[test]
fn multiply_high() {
    let x = XLen::X64;
    assert_eq!(alu(Opcode::Mulhu, 0, u64::MAX, u64::MAX, 0, x), u64::MAX - 1);
    assert_eq!(alu(Opcode::Mulh, 0, u64::MAX, u64::MAX, 0, x), 0);
    assert_eq!(alu(Opcode::Mulh, 0, (-2i64) as u64, 3, 0, x), u64::MAX);
    assert_eq!(alu(Opcode::Mulhsu, 0, u64::MAX, 2, 0, x), u64::MAX);
}

#[test]
fn amo_misaligned() {
    let mut cpu = cpu_with(&[]);
    cpu.state.xs.set_reg(1, DRAM_BASE + 2);
    // amoadd.w x3, x2, (x1)
    let insn = Insn { op: Opcode::AmoaddW, code: 0x0020_a1af };
    assert_eq!(insn.exec(&mut cpu.state, &mut cpu.mmu, XLen::X64), Err(Exception::LoadMisaligned));
    let insn = Insn { op: Opcode::AmoswapW, code: 0x0820_a1af };
    assert_eq!(insn.exec(&mut cpu.state, &mut cpu.mmu, XLen::X64), Err(Exception::LoadMisaligned));
}

#[test]
fn amo_add_aligned() {
    let mut cpu = cpu_with(&[]);
    cpu.mmu.bus.write(DRAM_BASE + 0x100, Width::Word, 0xffff_fffe).unwrap();
    cpu.state.xs.set_reg(1, DRAM_BASE + 0x100);
    cpu.state.xs.set_reg(2, 5);
    let insn = Insn { op: Opcode::AmoaddW, code: 0x0020_a1af };
    assert_eq!(insn.exec(&mut cpu.state, &mut cpu.mmu, XLen::X64), Ok(()));
    assert_eq!(cpu.state.xs.reg(3), (-2i64) as u64);
    assert_eq!(cpu.mmu.bus.read(DRAM_BASE + 0x100, Width::Word), Ok(3));
}
