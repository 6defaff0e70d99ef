use rvsim::cpu::Cpu;
use rvsim::device::{Width, DRAM_BASE};
use rvsim::mmu::AccessType;
use rvsim::{PrivilegeMode, XLen};

fn program(words: &[u32]) -> Vec<u8> {
    let mut bytes = Vec::new();
    for w in words {
        bytes.extend_from_slice(&w.to_le_bytes());
    }
    bytes
}

fn cpu_with(words: &[u32]) -> Cpu {
    Cpu::new(XLen::X64, program(words), DRAM_BASE)
}

#[test]
fn addi_then_add() {
    // addi x1, x0, 5; add x2, x1, x1
    let mut cpu = cpu_with(&[0x0050_0093, 0x0010_8133]);
    assert_eq!(cpu.one_step(), Ok(()));
    assert_eq!(cpu.one_step(), Ok(()));
    assert_eq!(cpu.state.xs.reg(1), 5);
    assert_eq!(cpu.state.xs.reg(2), 10);
    assert_eq!(cpu.state.pc, DRAM_BASE + 8);
}

#[test]
fn branch_taken() {
    // beq x0, x0, +16
    let mut cpu = cpu_with(&[0x0000_0863]);
    assert_eq!(cpu.state.pc, 0x8000_0000);
    assert_eq!(cpu.one_step(), Ok(()));
    assert_eq!(cpu.state.pc, 0x8000_0010);
}

#[test]
fn branch_not_taken() {
    // addi x1, x0, 1; beq x0, x1, +16
    let mut cpu = cpu_with(&[0x0010_0093, 0x0010_0863]);
    cpu.one_step().unwrap();
    cpu.one_step().unwrap();
    assert_eq!(cpu.state.pc, 0x8000_0008);
}

#[test]
fn ecall_from_user() {
    let mut cpu = cpu_with(&[0x0000_0073]);
    cpu.state.privilege = PrivilegeMode::User;
    cpu.state.csrs.set_medeleg(1 << 8);
    cpu.state.csrs.set_stvec(0x8001_0000);
    assert_eq!(cpu.one_step(), Ok(()));
    assert_eq!(cpu.state.privilege, PrivilegeMode::Supervisor);
    assert_eq!(cpu.state.pc, 0x8001_0000);
    assert_eq!(cpu.state.csrs.scause(), 8);
    assert_eq!(cpu.state.csrs.sstatus().spp(), PrivilegeMode::User);
    assert_eq!(cpu.state.csrs.sepc(), DRAM_BASE);
}

#[test]
fn timer_interrupt() {
    // two nops
    let mut cpu = cpu_with(&[0x0000_0013, 0x0000_0013]);
    cpu.state.csrs.set_mie(1 << 7);
    cpu.state.csrs.set_mstatus(1 << 3);
    cpu.mmu.bus.clint.mtime = 1;
    cpu.mmu.bus.clint.mtimecmp = 1;
    cpu.state.csrs.set_mtvec(0x8000_1000);
    assert_eq!(cpu.one_step(), Ok(()));
    assert_eq!(cpu.state.pc, DRAM_BASE + 4);
    assert_eq!(cpu.one_step(), Ok(()));
    assert_eq!(cpu.state.pc, 0x8000_1000);
    assert_eq!(cpu.state.csrs.mcause(), (1u64 << 63) | 7);
    assert_eq!(cpu.state.csrs.mepc(), DRAM_BASE + 4);
    assert!(!cpu.state.csrs.mstatus().mie());
    assert!(cpu.state.csrs.mstatus().mpie());
}

#[test]
fn vectored_timer_interrupt() {
    let mut cpu = cpu_with(&[0x0000_0013, 0x0000_0013]);
    cpu.state.csrs.set_mie(1 << 7);
    cpu.state.csrs.set_mstatus(1 << 3);
    cpu.mmu.bus.clint.mtime = 1;
    cpu.mmu.bus.clint.mtimecmp = 1;
    cpu.state.csrs.set_mtvec(0x8000_1001);
    cpu.one_step().unwrap();
    cpu.one_step().unwrap();
    assert_eq!(cpu.state.pc, 0x8000_1000 + 4 * 7);
}

fn sv39_tables(cpu: &mut Cpu, vpn2: u64) {
    // root table at 0x8010_0000, then tables at 0x8010_1000 and 0x8010_2000
    let root = 0x8010_0000u64;
    let l1 = 0x8010_1000u64;
    let l0 = 0x8010_2000u64;
    cpu.mmu.bus.write(root + vpn2 * 8, Width::Double, ((l1 >> 12) << 10) | 1).unwrap();
    cpu.mmu.bus.write(l1, Width::Double, ((l0 >> 12) << 10) | 1).unwrap();
    // leaf mapping to PPN 0x80100 with V|R|W|X|U
    cpu.mmu.bus.write(l0, Width::Double, (0x80100 << 10) | 0x1f).unwrap();
    cpu.state.csrs.set_satp((8u64 << 60) | 0x80100);
}

#[test]
fn sv39_identity_mapped_walk() {
    let mut cpu = cpu_with(&[]);
    let vaddr = 0x2_0000_0000u64;
    sv39_tables(&mut cpu, (vaddr >> 30) & 0x1ff);
    let t = cpu.mmu.translate(&cpu.state, vaddr + 0x123, AccessType::Load);
    assert_eq!(t, Ok(0x8010_0000 | 0x123));
    cpu.mmu.bus.write(0x8010_0123, Width::Byte, 0xab).unwrap();
    assert_eq!(cpu.mmu.load(&cpu.state, vaddr + 0x123, Width::Byte), Ok(0xab));
}

#[test]
fn sv39_walk_from_vpn2_two() {
    let mut cpu = cpu_with(&[]);
    sv39_tables(&mut cpu, 2);
    let vaddr = 2u64 << 30;
    assert_eq!(cpu.mmu.translate(&cpu.state, vaddr + 8, AccessType::Store), Ok(0x8010_0008));
    assert_eq!(cpu.mmu.translate(&cpu.state, vaddr, AccessType::Fetch), Ok(0x8010_0000));
}

#[test]
fn sv39_unmapped_page_faults() {
    let mut cpu = cpu_with(&[]);
    sv39_tables(&mut cpu, 2);
    let vaddr = 3u64 << 30;
    assert_eq!(
        cpu.mmu.translate(&cpu.state, vaddr, AccessType::Load),
        Err(rvsim::trap::Exception::LoadPageFault)
    );
    assert_eq!(
        cpu.mmu.translate(&cpu.state, vaddr, AccessType::Fetch),
        Err(rvsim::trap::Exception::InstructionPageFault)
    );
}

#[test]
fn mret_round_trip() {
    // mret
    let mut cpu = cpu_with(&[0x3020_0073]);
    cpu.state.csrs.set_mepc(0x9000_0000);
    cpu.state.csrs.set_mstatus((0b01 << 11) | (1 << 7));
    assert_eq!(cpu.one_step(), Ok(()));
    assert_eq!(cpu.state.pc, 0x9000_0000);
    assert_eq!(cpu.state.privilege, PrivilegeMode::Supervisor);
    let ms = cpu.state.csrs.mstatus();
    assert!(ms.mie());
    assert!(ms.mpie());
    assert_eq!(ms.mpp(), PrivilegeMode::User);
}

#[test]
fn sret_round_trip() {
    // sret
    let mut cpu = cpu_with(&[0x1020_0073]);
    cpu.state.csrs.set_sepc(0x8000_0100);
    cpu.state.csrs.set_sstatus((1 << 8) | (1 << 5));
    cpu.one_step().unwrap();
    assert_eq!(cpu.state.pc, 0x8000_0100);
    assert_eq!(cpu.state.privilege, PrivilegeMode::Supervisor);
    let ss = cpu.state.csrs.sstatus();
    assert!(ss.sie());
    assert!(ss.spie());
    assert_eq!(ss.spp(), PrivilegeMode::User);
}

#[test]
fn illegal_instruction_is_fatal() {
    let mut cpu = cpu_with(&[0xffff_ffff]);
    assert_eq!(cpu.one_step(), Err(rvsim::trap::Exception::IllegalInstruction));
    assert_eq!(cpu.state.pc, DRAM_BASE);
}
