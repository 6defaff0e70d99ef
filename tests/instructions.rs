use rvsim::cpu::Cpu;
use rvsim::device::{Width, DRAM_BASE, UART_BASE};
use rvsim::isa::decode::InsnDecoder;
use rvsim::trap::Exception;
use rvsim::XLen;

fn cpu() -> Cpu {
    Cpu::new(XLen::X64, Vec::new(), DRAM_BASE)
}

fn run(cpu: &mut Cpu, code: u32) -> Result<(), Exception> {
    let insn = InsnDecoder::new().decode(code).expect("a known encoding");
    insn.exec(&mut cpu.state, &mut cpu.mmu, XLen::X64)
}

#[test]
fn lui_and_auipc() {
    let mut c = cpu();
    run(&mut c, 0x1234_52b7).unwrap();
    assert_eq!(c.state.xs.reg(5), 0x1234_5000);
    run(&mut c, 0x8000_02b7).unwrap();
    assert_eq!(c.state.xs.reg(5), 0xffff_ffff_8000_0000);
    let pc = c.state.pc;
    run(&mut c, 0x0000_1317).unwrap();
    assert_eq!(c.state.xs.reg(6), pc + 0x1000);
    assert_eq!(c.state.pc, pc + 4);
}

#[test]
fn jal_and_jalr() {
    let mut c = cpu();
    run(&mut c, 0x0080_00ef).unwrap();
    assert_eq!(c.state.pc, DRAM_BASE + 8);
    assert_eq!(c.state.xs.reg(1), DRAM_BASE + 4);
    c.state.xs.set_reg(1, DRAM_BASE + 0x41);
    run(&mut c, 0x0000_8067).unwrap();
    assert_eq!(c.state.pc, DRAM_BASE + 0x40);
    assert_eq!(c.state.xs.reg(0), 0);
}

#[test]
fn loads_extend() {
    let mut c = cpu();
    c.mmu.bus.write(DRAM_BASE + 0x100, Width::Word, 0x8765_4380).unwrap();
    c.state.xs.set_reg(1, DRAM_BASE);
    run(&mut c, 0x1000_8383).unwrap();
    assert_eq!(c.state.xs.reg(7), 0xffff_ffff_ffff_ff80);
    run(&mut c, 0x1000_c383).unwrap();
    assert_eq!(c.state.xs.reg(7), 0x80);
    c.state.xs.set_reg(1, 0x10);
    assert_eq!(run(&mut c, 0x1000_8383), Err(Exception::LoadFault));
}

#[test]
fn store_doubleword() {
    let mut c = cpu();
    c.state.xs.set_reg(1, DRAM_BASE);
    c.state.xs.set_reg(2, 0x0102_0304_0506_0708);
    run(&mut c, 0x0020_b423).unwrap();
    assert_eq!(c.mmu.bus.read(DRAM_BASE + 8, Width::Double), Ok(0x0102_0304_0506_0708));
    assert_eq!(c.mmu.bus.read(DRAM_BASE + 8, Width::Byte), Ok(0x08));
    assert_eq!(c.state.pc, DRAM_BASE + 4);
    c.state.xs.set_reg(1, 0x20);
    let pc = c.state.pc;
    assert_eq!(run(&mut c, 0x0020_b423), Err(Exception::StoreFault));
    assert_eq!(c.state.pc, pc);
}

#[test]
fn csr_immediate_set() {
    let mut c = cpu();
    c.state.csrs.set_csr(0x340, 0x10);
    run(&mut c, 0x3402_e1f3).unwrap();
    assert_eq!(c.state.xs.reg(3), 0x10);
    assert_eq!(c.state.csrs.csr(0x340), 0x15);
}

#[test]
fn addiw_sign_extends() {
    let mut c = cpu();
    c.state.xs.set_reg(1, 0);
    run(&mut c, 0xfff0_821b).unwrap();
    assert_eq!(c.state.xs.reg(4), u64::MAX);
    c.state.xs.set_reg(1, 0x8000_0000);
    run(&mut c, 0xfff0_821b).unwrap();
    assert_eq!(c.state.xs.reg(4), 0x7fff_ffff);
}

#[test]
fn uart_read_through_mmu() {
    let mut c = cpu();
    assert!(c.mmu.bus.uart.receive(b'q'));
    assert_eq!(c.mmu.load(&c.state, UART_BASE + 5, Width::Byte), Ok(0x21));
    assert_eq!(c.mmu.load(&c.state, UART_BASE, Width::Byte), Ok(b'q' as u64));
    assert_eq!(c.mmu.load(&c.state, UART_BASE + 5, Width::Byte), Ok(0x20));
}

#[test]
fn lr_sc_are_illegal() {
    let mut c = cpu();
    assert_eq!(run(&mut c, 0x1000_a1af), Err(Exception::IllegalInstruction));
    assert_eq!(run(&mut c, 0x1820_a1af), Err(Exception::IllegalInstruction));
}
