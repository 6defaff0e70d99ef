//! The core-local interruptor (CLINT): `msip`, `mtimecmp` and `mtime`.
use crate::bits::with_bit;
use crate::cpu::CpuStatus;
use crate::device::{Width, CLINT_BASE};
use crate::register::csrs::MIP;
use crate::trap::Exception;
use vstd::prelude::*;

verus! {

/// The first address of `msip`, the machine software interrupt pending register.
pub const MSIP: u64 = CLINT_BASE;
/// The last address (inclusive) of the `msip` range.
pub const MSIP_END: u64 = MSIP + 0x4;
/// The first address of `mtimecmp`, the machine timer compare register.
pub const MTIMECMP: u64 = CLINT_BASE + 0x4000;
/// The last address (inclusive) of the `mtimecmp` range.
pub const MTIMECMP_END: u64 = MTIMECMP + 0x8;
/// The first address of `mtime`, the machine timer register.
pub const MTIME: u64 = CLINT_BASE + 0xbff8;
/// The last address (inclusive) of the `mtime` range.
pub const MTIME_END: u64 = MTIME + 0x8;

/// The core-local interruptor.
pub struct Clint {
    /// Machine software interrupt pending register.
    pub msip: u32,
    /// Machine timer compare register: a timer interrupt is pending while
    /// `mtime >= mtimecmp`.
    pub mtimecmp: u64,
    /// Machine timer register.
    pub mtime: u64,
}

/// `reg` with bytes `offset..offset + w` replaced by the low bytes of `value`.
pub open spec fn splice_bytes(reg: u64, offset: u64, w: Width, value: u64) -> u64 {
    (reg & !(w.spec_mask() << (8 * offset) as u64)) | ((value & w.spec_mask()) << (8 * offset) as u64)
}

impl Clint {
    /// The register an address falls in, as its current value and the byte offset
    /// of the address inside it.
    pub open spec fn locate(&self, addr: u64) -> Option<(u64, u64)> {
        if MSIP <= addr <= MSIP_END {
            Some((self.msip as u64, (addr - MSIP) as u64))
        } else if MTIMECMP <= addr <= MTIMECMP_END {
            Some((self.mtimecmp, (addr - MTIMECMP) as u64))
        } else if MTIME <= addr <= MTIME_END {
            Some((self.mtime, (addr - MTIME) as u64))
        } else {
            None
        }
    }

    /// What a read of width `w` at `addr` returns: the bytes of the register's
    /// little-endian encoding that start at the address.
    pub open spec fn read_spec(&self, addr: u64, w: Width) -> Result<u64, Exception> {
        match self.locate(addr) {
            Some((reg, offset)) => if offset + w.spec_bytes() <= 8 {
                Ok((reg >> (8 * offset) as u64) & w.spec_mask())
            } else {
                Err(Exception::LoadFault)
            },
            None => Err(Exception::LoadFault),
        }
    }

    /// Whether a write of width `w` at `addr` is accepted.
    pub open spec fn writable(&self, addr: u64, w: Width) -> bool {
        match self.locate(addr) {
            Some((reg, offset)) => offset + w.spec_bytes() <= 8,
            None => false,
        }
    }

    /// The state after a write of width `w` of `value` at `addr`; unchanged where
    /// the write is not accepted.
    pub open spec fn write_spec(&self, addr: u64, w: Width, value: u64) -> Clint {
        if self.writable(addr, w) {
            let (reg, offset) = self.locate(addr)->Some_0;
            let v = splice_bytes(reg, offset, w, value);
            if MSIP <= addr <= MSIP_END {
                Clint { msip: v as u32, ..*self }
            } else if MTIMECMP <= addr <= MTIMECMP_END {
                Clint { mtimecmp: v, ..*self }
            } else {
                Clint { mtime: v, ..*self }
            }
        } else {
            *self
        }
    }

    /// A CLINT with every register zero.
    pub fn new() -> (r: Clint)
        ensures
            r.msip == 0 && r.mtimecmp == 0 && r.mtime == 0,
    {
        Clint { msip: 0, mtime: 0, mtimecmp: 0 }
    }

    /// Reads `w` bytes at `addr`.
    pub fn read(&self, addr: u64, w: Width) -> (r: Result<u64, Exception>)
        ensures
            r == self.read_spec(addr, w),
    {
        let (reg, offset): (u64, u64) = if MSIP <= addr && addr <= MSIP_END {
            (self.msip as u64, addr - MSIP)
        } else if MTIMECMP <= addr && addr <= MTIMECMP_END {
            (self.mtimecmp, addr - MTIMECMP)
        } else if MTIME <= addr && addr <= MTIME_END {
            (self.mtime, addr - MTIME)
        } else {
            return Err(Exception::LoadFault);
        };
        if offset + w.bytes() > 8 {
            return Err(Exception::LoadFault);
        }
        Ok((reg >> (8 * offset)) & w.mask())
    }

    /// Writes the low `w` bytes of `value` at `addr` into the register there.
    pub fn write(&mut self, addr: u64, w: Width, value: u64) -> (r: Result<(), Exception>)
        ensures
            r == (if old(self).writable(addr, w) {
                Ok(())
            } else {
                Err(Exception::StoreFault)
            }),
            *final(self) == old(self).write_spec(addr, w, value),
    {
        let (reg, offset): (u64, u64) = if MSIP <= addr && addr <= MSIP_END {
            (self.msip as u64, addr - MSIP)
        } else if MTIMECMP <= addr && addr <= MTIMECMP_END {
            (self.mtimecmp, addr - MTIMECMP)
        } else if MTIME <= addr && addr <= MTIME_END {
            (self.mtime, addr - MTIME)
        } else {
            return Err(Exception::StoreFault);
        };
        if offset + w.bytes() > 8 {
            return Err(Exception::StoreFault);
        }
        let m = w.mask();
        let v = (reg & !(m << (8 * offset))) | ((value & m) << (8 * offset));
        if MSIP <= addr && addr <= MSIP_END {
            self.msip = v as u32;
        } else if MTIMECMP <= addr && addr <= MTIMECMP_END {
            self.mtimecmp = v;
        } else {
            self.mtime = v;
        }
        Ok(())
    }

    /// Advances `mtime` by one (wrapping), then posts the software interrupt in
    /// `mip` when `msip` bit 0 is set, and makes the machine timer interrupt
    /// pending exactly when `mtime >= mtimecmp`.
    pub fn increment(&mut self, state: &mut CpuStatus)
        requires
            old(state).wf(),
        ensures
            final(self).mtime == vstd::wrapping::u64_specs::wrapping_add(old(self).mtime, 1),
            final(self).mtimecmp == old(self).mtimecmp,
            final(self).msip == old(self).msip,
            final(state).wf(),
            final(state).privilege == old(state).privilege,
            final(state).pc == old(state).pc,
            final(state).xs == old(state).xs,
            final(state).csrs@ == old(state).csrs@.update(
                MIP as int,
                with_bit(
                    if old(self).msip & 1 != 0 {
                        with_bit(old(state).csrs@[MIP as int], 3, true)
                    } else {
                        old(state).csrs@[MIP as int]
                    },
                    7,
                    final(self).mtime >= final(self).mtimecmp,
                ),
            ),
    {
        self.mtime = self.mtime.wrapping_add(1);
        let mut mip = state.csrs.mip();
        if (self.msip & 1) != 0 {
            mip.set_msoft(true);
        }
        // The interrupt stays posted until mtimecmp becomes greater than mtime.
        if self.mtimecmp > self.mtime {
            mip.set_mtimer(false);
        }
        // It becomes pending whenever mtime is at least mtimecmp, both unsigned.
        if self.mtime >= self.mtimecmp {
            mip.set_mtimer(true);
        }
        state.csrs.set_mip(mip.bits());
    }
}

} // verus!
