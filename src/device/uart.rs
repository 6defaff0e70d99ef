//! A minimal 16550 UART: one-byte accesses to a 256-byte register file, with a
//! receive holding register fed from outside and a transmit register whose bytes
//! are queued for output.
use crate::device::{Width, UART_BASE, UART_SIZE};
use crate::trap::Exception;
use vstd::prelude::*;

verus! {

/// The interrupt request number of the UART.
pub const UART_IRQ: u64 = 10;
/// Receive holding register (input bytes).
pub const UART_RHR: u64 = UART_BASE + 0;
/// Transmit holding register (output bytes).
pub const UART_THR: u64 = UART_BASE + 0;
/// Line status register.
pub const UART_LSR: u64 = UART_BASE + 5;
/// LSR bit set while the receive holding register holds an unread byte.
pub const UART_LSR_RX: u8 = 1;
/// LSR bit set while the transmitter can take a byte.
pub const UART_LSR_TX: u8 = 0x20;

/// The UART.
pub struct Uart {
    /// The register file.
    pub regs: Vec<u8>,
    /// Set when a byte arrives; cleared by `is_interrupting`.
    pub interrupting: bool,
    /// Bytes written to the transmit holding register, oldest first, not yet
    /// handed out by `take_output`.
    pub output: Vec<u8>,
}

/// The LSR index in the register file.
pub open spec fn lsr_index() -> int {
    (UART_LSR - UART_BASE) as int
}

impl Uart {
    /// The register file has its fixed size.
    pub open spec fn wf(&self) -> bool {
        self.regs@.len() == UART_SIZE
    }

    /// Whether `addr` names a register of the file.
    pub open spec fn in_range(addr: u64) -> bool {
        UART_BASE <= addr < UART_BASE + UART_SIZE
    }

    /// What a read of width `w` at `addr` returns.
    pub open spec fn read_spec(&self, addr: u64, w: Width) -> Result<u64, Exception> {
        if w == Width::Byte && Uart::in_range(addr) {
            Ok(self.regs@[addr - UART_BASE] as u64)
        } else {
            Err(Exception::LoadFault)
        }
    }

    /// An idle UART whose transmitter is ready.
    pub fn new() -> (r: Uart)
        ensures
            r.wf(),
            r.regs@ == Seq::new(UART_SIZE as nat, |i: int| 0u8).update(lsr_index(), UART_LSR_TX),
            !r.interrupting,
            r.output@.len() == 0,
    {
        let mut regs = vec![0u8; UART_SIZE as usize];
        regs.set((UART_LSR - UART_BASE) as usize, UART_LSR_TX);
        let r = Uart { regs, interrupting: false, output: Vec::new() };
        assert(r.regs@ =~= Seq::new(UART_SIZE as nat, |i: int| 0u8).update(lsr_index(), UART_LSR_TX));
        r
    }

    /// Reads the register at `addr`; only one-byte accesses are supported.
    pub fn read(&self, addr: u64, w: Width) -> (r: Result<u64, Exception>)
        requires
            self.wf(),
        ensures
            r == self.read_spec(addr, w),
    {
        if w != Width::Byte || addr < UART_BASE || addr - UART_BASE >= UART_SIZE {
            return Err(Exception::LoadFault);
        }
        Ok(self.regs[(addr - UART_BASE) as usize] as u64)
    }

    /// Applies the side effect of a read: taking the receive holding register
    /// clears the LSR receive bit, so that the next byte can arrive.
    pub fn after_read(&mut self, addr: u64, w: Width)
        requires
            old(self).wf(),
        ensures
            final(self).wf(),
            final(self).interrupting == old(self).interrupting,
            final(self).output == old(self).output,
            !(w == Width::Byte && addr == UART_RHR) ==> *final(self) == *old(self),
            final(self).regs@ == (if w == Width::Byte && addr == UART_RHR {
                old(self).regs@.update(lsr_index(), old(self).regs@[lsr_index()] & !UART_LSR_RX)
            } else {
                old(self).regs@
            }),
    {
        if w == Width::Byte && addr == UART_RHR {
            let i = (UART_LSR - UART_BASE) as usize;
            let lsr = self.regs[i] & !UART_LSR_RX;
            self.regs.set(i, lsr);
        }
    }

    /// Writes the register at `addr`; only one-byte accesses are supported. A byte
    /// written to the transmit holding register is queued for output.
    pub fn write(&mut self, addr: u64, w: Width, value: u64) -> (r: Result<(), Exception>)
        requires
            old(self).wf(),
        ensures
            final(self).wf(),
            r == (if w == Width::Byte && Uart::in_range(addr) {
                Ok(())
            } else {
                Err(Exception::StoreFault)
            }),
            final(self).interrupting == old(self).interrupting,
            r is Ok && addr == UART_THR ==> final(self).regs == old(self).regs
                && final(self).output@ == old(self).output@.push(value as u8),
            r is Ok && addr != UART_THR ==> final(self).output == old(self).output
                && final(self).regs@ == old(self).regs@.update(addr - UART_BASE, value as u8),
            r is Err ==> *final(self) == *old(self),
    {
        if w != Width::Byte || addr < UART_BASE || addr - UART_BASE >= UART_SIZE {
            return Err(Exception::StoreFault);
        }
        if addr == UART_THR {
            self.output.push(value as u8);
        } else {
            self.regs.set((addr - UART_BASE) as usize, value as u8);
        }
        Ok(())
    }

    /// Offers a received byte. It is taken, and an interrupt raised, only when the
    /// previous byte has been read; otherwise the caller offers it again later.
    pub fn receive(&mut self, byte: u8) -> (r: bool)
        requires
            old(self).wf(),
        ensures
            final(self).wf(),
            r == (old(self).regs@[lsr_index()] & UART_LSR_RX == 0),
            final(self).output == old(self).output,
            r ==> final(self).interrupting && final(self).regs@ == old(self).regs@.update(0, byte).update(
                lsr_index(),
                old(self).regs@[lsr_index()] | UART_LSR_RX,
            ),
            !r ==> *final(self) == *old(self),
    {
        let i = (UART_LSR - UART_BASE) as usize;
        if self.regs[i] & UART_LSR_RX != 0 {
            return false;
        }
        self.regs.set(0, byte);
        self.interrupting = true;
        let lsr = self.regs[i] | UART_LSR_RX;
        self.regs.set(i, lsr);
        true
    }

    /// Whether an interrupt is pending; the flag is cleared by the call, so each
    /// received byte is reported once.
    pub fn is_interrupting(&mut self) -> (r: bool)
        ensures
            r == old(self).interrupting,
            !final(self).interrupting,
            final(self).regs == old(self).regs,
            final(self).output == old(self).output,
    {
        let r = self.interrupting;
        self.interrupting = false;
        r
    }

    /// Hands out the queued output bytes, oldest first, and empties the queue.
    pub fn take_output(&mut self) -> (r: Vec<u8>)
        ensures
            r@ == old(self).output@,
            final(self).output@.len() == 0,
            final(self).regs == old(self).regs,
            final(self).interrupting == old(self).interrupting,
    {
        let mut out: Vec<u8> = Vec::new();
        std::mem::swap(&mut out, &mut self.output);
        out
    }
}

} // verus!
