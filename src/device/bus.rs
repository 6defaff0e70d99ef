//! The system bus: dispatches a physical address to the device mapped there.
use crate::device::clint::Clint;
use crate::device::memory::Memory;
use crate::device::plic::Plic;
use crate::device::uart::{lsr_index, Uart, UART_LSR_RX, UART_RHR};
use crate::device::{
    Width, CLINT_BASE, CLINT_END, DRAM_BASE, DRAM_END, DRAM_SIZE, PLIC_BASE, PLIC_END, UART_BASE,
    UART_END,
};
use crate::trap::Exception;
use vstd::prelude::*;

verus! {

/// The device an address is mapped to. The virtio range (`VIRTIO_BASE` to
/// `VIRTIO_END`) has no device here and behaves as unmapped.
#[derive(Clone, Copy, Debug, PartialEq, Eq, Structural)]
pub enum Target {
    Clint,
    Plic,
    Uart,
    Dram,
    Unmapped,
}

/// The device that `addr` is mapped to (all ranges inclusive).
pub open spec fn target_of(addr: u64) -> Target {
    if CLINT_BASE <= addr <= CLINT_END {
        Target::Clint
    } else if PLIC_BASE <= addr <= PLIC_END {
        Target::Plic
    } else if UART_BASE <= addr <= UART_END {
        Target::Uart
    } else if DRAM_BASE <= addr <= DRAM_END {
        Target::Dram
    } else {
        Target::Unmapped
    }
}

/// Finds the device that `addr` is mapped to.
pub fn target(addr: u64) -> (r: Target)
    ensures
        r == target_of(addr),
{
    if CLINT_BASE <= addr && addr <= CLINT_END {
        Target::Clint
    } else if PLIC_BASE <= addr && addr <= PLIC_END {
        Target::Plic
    } else if UART_BASE <= addr && addr <= UART_END {
        Target::Uart
    } else if DRAM_BASE <= addr && addr <= DRAM_END {
        Target::Dram
    } else {
        Target::Unmapped
    }
}

/// The bus and the devices it owns.
pub struct Bus {
    /// Main memory.
    pub memory: Memory,
    /// The core-local interruptor.
    pub clint: Clint,
    /// The platform-level interrupt controller.
    pub plic: Plic,
    /// The console UART.
    pub uart: Uart,
}

impl Bus {
    /// Memory is DRAM-sized at the DRAM base, and every device is well formed.
    pub open spec fn wf(&self) -> bool {
        &&& self.memory.dram_base == DRAM_BASE
        &&& self.memory.data@.len() == DRAM_SIZE
        &&& self.plic.wf()
        &&& self.uart.wf()
    }

    /// What a read of width `w` at physical address `addr` returns.
    pub open spec fn read_spec(&self, addr: u64, w: Width) -> Result<u64, Exception> {
        match target_of(addr) {
            Target::Clint => self.clint.read_spec(addr, w),
            Target::Plic => self.plic.read_spec(addr, w),
            Target::Uart => self.uart.read_spec(addr, w),
            Target::Dram => self.memory.read_spec(addr, w),
            Target::Unmapped => Err(Exception::LoadFault),
        }
    }

    /// Whether a write of width `w` at `addr` is accepted.
    pub open spec fn write_ok(&self, addr: u64, w: Width) -> bool {
        match target_of(addr) {
            Target::Clint => self.clint.writable(addr, w),
            Target::Plic => w == Width::Word && crate::device::plic::plic_reg(addr) is Some,
            Target::Uart => w == Width::Byte && Uart::in_range(addr),
            Target::Dram => crate::device::memory::in_memory(
                self.memory.dram_base,
                self.memory.data@.len(),
                addr,
                w.spec_bytes(),
            ),
            Target::Unmapped => false,
        }
    }

    /// How a load of width `w` at `addr` takes `old` to `new`: only a one-byte read
    /// of the UART's receive register has an effect, clearing the LSR receive bit.
    pub open spec fn loaded(old: Bus, new: Bus, addr: u64, w: Width) -> bool {
        &&& new.wf()
        &&& new.memory == old.memory
        &&& new.clint == old.clint
        &&& new.plic == old.plic
        &&& new.uart.interrupting == old.uart.interrupting
        &&& new.uart.output == old.uart.output
        &&& new.uart.regs@ == (if target_of(addr) == Target::Uart && w == Width::Byte && addr
            == UART_RHR {
            old.uart.regs@.update(lsr_index(), old.uart.regs@[lsr_index()] & !UART_LSR_RX)
        } else {
            old.uart.regs@
        })
        &&& !(target_of(addr) == Target::Uart && w == Width::Byte && addr == UART_RHR) ==> new == old
    }

    /// How a write of width `w` of `value` at `addr` takes `old` to `new`: only
    /// the device mapped there may change, and a refused write changes nothing.
    pub open spec fn written(old: Bus, new: Bus, addr: u64, w: Width, value: u64) -> bool {
        let t = target_of(addr);
        &&& new.wf()
        &&& t != Target::Clint ==> new.clint == old.clint
        &&& t != Target::Plic ==> new.plic == old.plic
        &&& t != Target::Uart ==> new.uart == old.uart
        &&& t != Target::Dram ==> new.memory == old.memory
        &&& t == Target::Clint ==> new.clint == old.clint.write_spec(addr, w, value)
        &&& t == Target::Dram ==> new.memory.dram_base == old.memory.dram_base
            && new.memory.data@ == (if old.write_ok(addr, w) {
            Memory::write_spec(old.memory.data@, DRAM_BASE, addr, w, value)
        } else {
            old.memory.data@
        })
        &&& t == Target::Plic && old.write_ok(addr, w) ==> Plic::written(
            old.plic,
            new.plic,
            crate::device::plic::plic_reg(addr)->Some_0,
            value,
        )
        &&& !old.write_ok(addr, w) ==> new == old
    }

    /// A bus with DRAM holding `binary` at its base and every device reset.
    pub fn new(binary: Vec<u8>) -> (r: Bus)
        requires
            binary@.len() <= DRAM_SIZE,
        ensures
            r.wf(),
            r.clint.msip == 0 && r.clint.mtimecmp == 0 && r.clint.mtime == 0,
            !r.uart.interrupting,
            r.uart.output@.len() == 0,
            forall|i: int| 0 <= i < binary@.len() ==> #[trigger] r.memory.data@[i] == binary@[i],
            forall|i: int|
                binary@.len() <= i < DRAM_SIZE ==> #[trigger] r.memory.data@[i] == 0,
    {
        Bus {
            memory: Memory::new_with_binary(DRAM_BASE, binary, DRAM_SIZE as usize),
            clint: Clint::new(),
            plic: Plic::new(),
            uart: Uart::new(),
        }
    }

    /// Reads `w` bytes at physical address `addr`, without side effects.
    pub fn read(&self, addr: u64, w: Width) -> (r: Result<u64, Exception>)
        requires
            self.wf(),
        ensures
            r == self.read_spec(addr, w),
    {
        match target(addr) {
            Target::Clint => self.clint.read(addr, w),
            Target::Plic => self.plic.read(addr, w),
            Target::Uart => self.uart.read(addr, w),
            Target::Dram => self.memory.read(addr, w),
            Target::Unmapped => Err(Exception::LoadFault),
        }
    }

    /// Reads `w` bytes at physical address `addr` and applies the read's side
    /// effect on the device: taking the UART's receive register clears its
    /// receive bit.
    pub fn load(&mut self, addr: u64, w: Width) -> (r: Result<u64, Exception>)
        requires
            old(self).wf(),
        ensures
            final(self).wf(),
            r == old(self).read_spec(addr, w),
            Bus::loaded(*old(self), *final(self), addr, w),
    {
        let r = self.read(addr, w);
        if target(addr) == Target::Uart {
            self.uart.after_read(addr, w);
        }
        r
    }

    /// Writes the low `w` bytes of `value` at physical address `addr`.
    pub fn write(&mut self, addr: u64, w: Width, value: u64) -> (r: Result<(), Exception>)
        requires
            old(self).wf(),
        ensures
            final(self).wf(),
            r == (if old(self).write_ok(addr, w) {
                Ok(())
            } else {
                Err(Exception::StoreFault)
            }),
            Bus::written(*old(self), *final(self), addr, w, value),
    {
        match target(addr) {
            Target::Clint => self.clint.write(addr, w, value),
            Target::Plic => self.plic.write(addr, w, value),
            Target::Uart => self.uart.write(addr, w, value),
            Target::Dram => self.memory.write(addr, w, value),
            Target::Unmapped => Err(Exception::StoreFault),
        }
    }
}

/// On a DRAM address, a read followed by a write of the value read leaves the
/// whole bus as it was, byte for byte.
pub proof fn lemma_bus_load_store_round_trip(b: Bus, addr: u64, w: Width)
    requires
        b.wf(),
        target_of(addr) == Target::Dram,
        b.read_spec(addr, w) is Ok,
    ensures
        b.write_ok(addr, w),
        Memory::write_spec(b.memory.data@, DRAM_BASE, addr, w, b.read_spec(addr, w)->Ok_0)
            == b.memory.data@,
{
    crate::device::memory::lemma_load_store_round_trip(b.memory, addr, w);
}

} // verus!
