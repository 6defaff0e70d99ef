use rvsim::device::bus::Bus;
use rvsim::device::clint::Clint;
use rvsim::device::plic::Plic;
use rvsim::device::uart::Uart;
use rvsim::device::{Width, CLINT_BASE, DRAM_BASE, PLIC_BASE, UART_BASE, VIRTIO_BASE};
use rvsim::isa::cache::InsnDecoderWithLru;
use rvsim::isa::decode::{InsnDecoder, Opcode};
use rvsim::page::{PageTableEnty, VirtualAddress};
use rvsim::register::mstatus::Mstatus;
use rvsim::register::satp::{Mode, Satp};
use rvsim::register::xtvec::{TrapMode, Xtvec};
use rvsim::trap::{Exception, Interrupt};
use rvsim::{PrivilegeMode, XLen};

#[test]
fn decoder_recognises_patterns() {
    let d = InsnDecoder::new();
    assert_eq!(d.decode(0x0050_0093).unwrap().op, Opcode::Addi);
    assert_eq!(d.decode(0x0010_8133).unwrap().op, Opcode::Add);
    assert_eq!(d.decode(0x4010_8133).unwrap().op, Opcode::Sub);
    assert_eq!(d.decode(0x0000_0073).unwrap().op, Opcode::Ecall);
    assert_eq!(d.decode(0x0010_0073).unwrap().op, Opcode::Ebreak);
    assert_eq!(d.decode(0x3020_0073).unwrap().op, Opcode::Mret);
    assert_eq!(d.decode(0x1200_0073).unwrap().op, Opcode::SfenceVma);
    assert_eq!(d.decode(0x3400_9173).unwrap().op, Opcode::Csrrw);
    assert_eq!(d.decode(0x0020_a1af).unwrap().op, Opcode::AmoaddW);
    assert!(d.decode(0xffff_ffff).is_none());
    assert!(d.decode(0x0000_0000).is_none());
}

#[test]
fn cached_decoder_agrees() {
    let mut c = InsnDecoderWithLru::new(InsnDecoder::new());
    for _ in 0..2 {
        assert_eq!(c.decode(0x0050_0093).unwrap().op, Opcode::Addi);
        assert!(c.decode(0xffff_ffff).is_none());
    }
    for code in 0..300u32 {
        c.decode((code << 7) | 0x13);
    }
    assert_eq!(c.decode(0x0050_0093).unwrap().code, 0x0050_0093);
}

#[test]
fn clint_registers() {
    let mut c = Clint::new();
    c.write(CLINT_BASE + 0x4000, Width::Double, 0x1122_3344_5566_7788).unwrap();
    assert_eq!(c.mtimecmp, 0x1122_3344_5566_7788);
    assert_eq!(c.read(CLINT_BASE + 0x4004, Width::Word), Ok(0x1122_3344));
    c.write(CLINT_BASE + 0x4000, Width::Byte, 0xff).unwrap();
    assert_eq!(c.mtimecmp, 0x1122_3344_5566_77ff);
    c.write(CLINT_BASE, Width::Word, 1).unwrap();
    assert_eq!(c.msip, 1);
    assert_eq!(c.read(CLINT_BASE + 0xbff8, Width::Double), Ok(0));
    assert_eq!(c.read(CLINT_BASE + 0x100, Width::Word), Err(Exception::LoadFault));
    assert_eq!(c.write(CLINT_BASE + 0x4008, Width::Double, 1), Err(Exception::StoreFault));
}

#[test]
fn plic_pending_and_claim() {
    let mut p = Plic::new();
    p.write(PLIC_BASE + 0x2080, Width::Word, 1 << 10).unwrap();
    p.update_pending(10);
    assert_eq!(p.read(PLIC_BASE + 0x1000, Width::Word), Ok(1 << 10));
    assert_eq!(p.read(PLIC_BASE + 0x201004, Width::Word), Ok(10));
    p.write(PLIC_BASE + 0x201004, Width::Word, 10).unwrap();
    assert_eq!(p.read(PLIC_BASE + 0x1000, Width::Word), Ok(0));
    assert_eq!(p.read(PLIC_BASE + 0x201004, Width::Word), Ok(0));
    p.write(PLIC_BASE + 4, Width::Word, 7).unwrap();
    assert_eq!(p.read(PLIC_BASE + 4, Width::Word), Ok(7));
    assert_eq!(p.read(PLIC_BASE + 4, Width::Byte), Err(Exception::LoadFault));
    assert_eq!(p.read(PLIC_BASE + 2, Width::Word), Err(Exception::LoadFault));
    assert_eq!(p.write(PLIC_BASE + 0x201008, Width::Word, 1), Err(Exception::StoreFault));
}

#[test]
fn plic_pending_without_enable() {
    let mut p = Plic::new();
    p.update_pending(33);
    assert_eq!(p.read(PLIC_BASE + 0x1004, Width::Word), Ok(2));
    assert_eq!(p.read(PLIC_BASE + 0x201004, Width::Word), Ok(0));
}

#[test]
fn uart_receive_and_transmit() {
    let mut u = Uart::new();
    assert_eq!(u.read(UART_BASE + 5, Width::Byte), Ok(0x20));
    assert!(u.receive(b'a'));
    assert!(!u.receive(b'b'));
    assert!(u.is_interrupting());
    assert!(!u.is_interrupting());
    assert_eq!(u.read(UART_BASE, Width::Byte), Ok(b'a' as u64));
    u.after_read(UART_BASE, Width::Byte);
    assert_eq!(u.read(UART_BASE + 5, Width::Byte), Ok(0x20));
    assert!(u.receive(b'b'));
    u.write(UART_BASE, Width::Byte, b'x' as u64).unwrap();
    u.write(UART_BASE, Width::Byte, b'y' as u64).unwrap();
    assert_eq!(u.take_output(), vec![b'x', b'y']);
    assert!(u.take_output().is_empty());
    assert_eq!(u.read(UART_BASE, Width::Word), Err(Exception::LoadFault));
    assert_eq!(u.write(UART_BASE + 0x100, Width::Byte, 0), Err(Exception::StoreFault));
}

#[test]
fn bus_dispatch() {
    let mut b = Bus::new(vec![0x13, 0, 0, 0]);
    assert_eq!(b.read(DRAM_BASE, Width::Word), Ok(0x13));
    assert_eq!(b.read(0x10, Width::Word), Err(Exception::LoadFault));
    assert_eq!(b.write(0x10, Width::Word, 0), Err(Exception::StoreFault));
    assert_eq!(b.read(VIRTIO_BASE, Width::Word), Err(Exception::LoadFault));
    b.write(CLINT_BASE + 0xbff8, Width::Double, 42).unwrap();
    assert_eq!(b.clint.mtime, 42);
    b.uart.receive(b'z');
    assert_eq!(b.load(UART_BASE, Width::Byte), Ok(b'z' as u64));
    assert_eq!(b.read(UART_BASE + 5, Width::Byte), Ok(0x20));
}

#[test]
fn status_register_fields() {
    let mut m = Mstatus::from(0);
    m.set_mpp(PrivilegeMode::Machine);
    assert_eq!(m.bits(), 0b11 << 11);
    assert_eq!(m.mpp(), PrivilegeMode::Machine);
    m.set_mpp(PrivilegeMode::Supervisor);
    assert_eq!(m.mpp(), PrivilegeMode::Supervisor);
    m.set_mie(true);
    assert!(m.mie());
    assert_eq!(m.bits(), (0b01 << 11) | 8);
    assert!(Mstatus::from(1 << 63).sd());
}

#[test]
fn satp_fields() {
    let s = Satp::from((8u64 << 60) | (0x1234u64 << 44) | 0x80100);
    assert_eq!(s.mode(&XLen::X64), Some(Mode::Sv39));
    assert_eq!(s.asid(&XLen::X64), 0x1234);
    assert_eq!(s.ppn(&XLen::X64), 0x80100);
    assert_eq!(Satp::from(0).mode(&XLen::X64), Some(Mode::Bare));
    assert_eq!(Satp::from(5u64 << 60).mode(&XLen::X64), None);
    assert_eq!(Satp::from(1u64 << 31).mode(&XLen::X32), Some(Mode::Sv32));
}

#[test]
fn trap_vector_modes() {
    let t = Xtvec::from(0x8000_1001);
    assert_eq!(t.address(), 0x8000_1000);
    assert_eq!(t.trap_mode(), TrapMode::Vectored);
    assert_eq!(TrapMode::Vectored.trap_pc(0x8000_1000, 7, true), 0x8000_101c);
    assert_eq!(TrapMode::Vectored.trap_pc(0x8000_1000, 7, false), 0x8000_1000);
    assert_eq!(TrapMode::Direct.trap_pc(0x8000_1000, 7, true), 0x8000_1000);
    assert_eq!(Xtvec::from(0x8000_1000).trap_mode(), TrapMode::Direct);
}

#[test]
fn page_table_entry_fields() {
    let pte = PageTableEnty((0x80100 << 10) | 0x1f);
    assert!(pte.v() && pte.r() && pte.w() && pte.x() && pte.u());
    assert!(!pte.g() && !pte.a() && !pte.d());
    assert_eq!(pte.ppn(&Mode::Sv39), 0x80100);
    assert_eq!(pte.ppns(&Mode::Sv39), vec![0x100, 0, 2]);
    let va = VirtualAddress(0x2_0040_3123);
    assert_eq!(va.offset(), 0x123);
    assert_eq!(va.virtual_page_offsets(&Mode::Sv39), vec![3 << 3, 2 << 3, 8 << 3]);
}

#[test]
fn cause_codes() {
    assert_eq!(Exception::StorePageFault.code(), 15);
    assert_eq!(Exception::UserEnvCall.code(), 8);
    assert_eq!(Interrupt::MachineTimer.code(), 7);
    assert_eq!(Interrupt::SupervisorExternal.code(), 9);
    assert!(Exception::IllegalInstruction.is_fatal());
    assert!(!Exception::Breakpoint.is_fatal());
    assert!(!Exception::LoadPageFault.is_fatal());
}
