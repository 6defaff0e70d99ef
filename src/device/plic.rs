//! The platform-level interrupt controller (PLIC), with two contexts.
use crate::device::{Width, PLIC_BASE};
use crate::trap::Exception;
use vstd::prelude::*;

verus! {

/// The first address of the source priorities: 1024 four-byte registers.
pub const SOURCE_PRIORITY: u64 = PLIC_BASE;
/// The last address (inclusive) of the source priorities.
pub const SOURCE_PRIORITY_END: u64 = PLIC_BASE + 0xfff;
/// The first address of the pending bits: 32 four-byte words.
pub const PENDING: u64 = PLIC_BASE + 0x1000;
/// The last address (inclusive) of the pending bits.
pub const PENDING_END: u64 = PLIC_BASE + 0x107f;
/// The first address of the enable bits: 32 words for each of two contexts.
pub const ENABLE: u64 = PLIC_BASE + 0x2000;
/// The last address (inclusive) of the enable bits.
pub const ENABLE_END: u64 = PLIC_BASE + 0x20ff;
/// The first address of the per-context threshold and claim/complete registers.
pub const THRESHOLD_AND_CLAIM: u64 = PLIC_BASE + 0x200000;
/// The last address (inclusive) of the threshold and claim/complete registers.
pub const THRESHOLD_AND_CLAIM_END: u64 = PLIC_BASE + 0x201007;
/// The size of each PLIC register in bytes.
pub const WORD_SIZE: u64 = 0x4;
/// The distance between the register blocks of two contexts.
pub const CONTEXT_OFFSET: u64 = 0x1000;
/// The number of interrupt sources.
pub const SOURCE_NUM: u64 = 1024;

/// A PLIC register, with its index in its array.
#[derive(Clone, Copy, Debug, PartialEq, Eq, Structural)]
pub enum PlicReg {
    Priority(u64),
    Pending(u64),
    Enable(u64),
    Threshold(u64),
    Claim(u64),
}

/// The register that a four-byte access at `addr` reaches, if any.
pub open spec fn plic_reg(addr: u64) -> Option<PlicReg> {
    if SOURCE_PRIORITY <= addr <= SOURCE_PRIORITY_END {
        if (addr - SOURCE_PRIORITY) % 4 == 0 {
            Some(PlicReg::Priority(((addr - SOURCE_PRIORITY) / 4) as u64))
        } else {
            None
        }
    } else if PENDING <= addr <= PENDING_END {
        if (addr - PENDING) % 4 == 0 {
            Some(PlicReg::Pending(((addr - PENDING) / 4) as u64))
        } else {
            None
        }
    } else if ENABLE <= addr <= ENABLE_END {
        if (addr - ENABLE) % 4 == 0 {
            Some(PlicReg::Enable(((addr - ENABLE) / 4) as u64))
        } else {
            None
        }
    } else if THRESHOLD_AND_CLAIM <= addr <= THRESHOLD_AND_CLAIM_END {
        let context = ((addr - THRESHOLD_AND_CLAIM) as u64 / CONTEXT_OFFSET) as u64;
        let offset = addr - THRESHOLD_AND_CLAIM - CONTEXT_OFFSET * context;
        if offset == 0 {
            Some(PlicReg::Threshold(context))
        } else if offset == 4 {
            Some(PlicReg::Claim(context))
        } else {
            None
        }
    } else {
        None
    }
}

/// Finds the register that a four-byte access at `addr` reaches.
pub fn locate(addr: u64) -> (r: Option<PlicReg>)
    ensures
        r == plic_reg(addr),
        r matches Some(PlicReg::Priority(i)) ==> i < 1024,
        r matches Some(PlicReg::Pending(i)) ==> i < 32,
        r matches Some(PlicReg::Enable(i)) ==> i < 64,
        r matches Some(PlicReg::Threshold(i)) ==> i < 2,
        r matches Some(PlicReg::Claim(i)) ==> i < 2,
{
    if SOURCE_PRIORITY <= addr && addr <= SOURCE_PRIORITY_END {
        if (addr - SOURCE_PRIORITY) % WORD_SIZE == 0 {
            Some(PlicReg::Priority((addr - SOURCE_PRIORITY) / WORD_SIZE))
        } else {
            None
        }
    } else if PENDING <= addr && addr <= PENDING_END {
        if (addr - PENDING) % WORD_SIZE == 0 {
            Some(PlicReg::Pending((addr - PENDING) / WORD_SIZE))
        } else {
            None
        }
    } else if ENABLE <= addr && addr <= ENABLE_END {
        if (addr - ENABLE) % WORD_SIZE == 0 {
            Some(PlicReg::Enable((addr - ENABLE) / WORD_SIZE))
        } else {
            None
        }
    } else if THRESHOLD_AND_CLAIM <= addr && addr <= THRESHOLD_AND_CLAIM_END {
        let context = (addr - THRESHOLD_AND_CLAIM) / CONTEXT_OFFSET;
        let offset = addr - THRESHOLD_AND_CLAIM - CONTEXT_OFFSET * context;
        if offset == 0 {
            Some(PlicReg::Threshold(context))
        } else if offset == 4 {
            Some(PlicReg::Claim(context))
        } else {
            None
        }
    } else {
        None
    }
}

/// The platform-level interrupt controller.
pub struct Plic {
    /// The priority of each interrupt source; 0 never interrupts.
    pub priority: Vec<u32>,
    /// Pending bits: source `i` is bit `i % 32` of word `i / 32`.
    pub pending: Vec<u32>,
    /// Enable bits, 32 words for context 0 followed by 32 for context 1.
    pub enable: Vec<u32>,
    /// The priority threshold of each context.
    pub threshold: Vec<u32>,
    /// The claimed interrupt of each context, or 0.
    pub claim: Vec<u32>,
}

/// Whether source `irq` is enabled for `context` in the enable words `enable`.
pub open spec fn enabled(enable: Seq<u32>, context: u64, irq: u64) -> bool {
    let i = irq % SOURCE_NUM;
    (enable[context * 32 + i / 32] >> (i % 32) as u32) & 1 == 1
}

impl Plic {
    /// Every array has its fixed size.
    pub open spec fn wf(&self) -> bool {
        &&& self.priority@.len() == 1024
        &&& self.pending@.len() == 32
        &&& self.enable@.len() == 64
        &&& self.threshold@.len() == 2
        &&& self.claim@.len() == 2
    }

    /// What a read of width `w` at `addr` returns.
    pub open spec fn read_spec(&self, addr: u64, w: Width) -> Result<u64, Exception> {
        if w != Width::Word {
            Err(Exception::LoadFault)
        } else {
            match plic_reg(addr) {
                Some(PlicReg::Priority(i)) => Ok(self.priority@[i as int] as u64),
                Some(PlicReg::Pending(i)) => Ok(self.pending@[i as int] as u64),
                Some(PlicReg::Enable(i)) => Ok(self.enable@[i as int] as u64),
                Some(PlicReg::Threshold(i)) => Ok(self.threshold@[i as int] as u64),
                Some(PlicReg::Claim(i)) => Ok(self.claim@[i as int] as u64),
                None => Err(Exception::LoadFault),
            }
        }
    }

    /// A PLIC with every register zero.
    pub fn new() -> (r: Plic)
        ensures
            r.wf(),
            forall|i: int| 0 <= i < 1024 ==> #[trigger] r.priority@[i] == 0,
            forall|i: int| 0 <= i < 32 ==> #[trigger] r.pending@[i] == 0,
            forall|i: int| 0 <= i < 64 ==> #[trigger] r.enable@[i] == 0,
            forall|i: int| 0 <= i < 2 ==> #[trigger] r.threshold@[i] == 0,
            forall|i: int| 0 <= i < 2 ==> #[trigger] r.claim@[i] == 0,
    {
        Plic {
            priority: vec![0; 1024],
            pending: vec![0; 32],
            enable: vec![0; 64],
            threshold: vec![0; 2],
            claim: vec![0; 2],
        }
    }

    /// Reads the register at `addr`; only four-byte accesses are supported.
    pub fn read(&self, addr: u64, w: Width) -> (r: Result<u64, Exception>)
        requires
            self.wf(),
        ensures
            r == self.read_spec(addr, w),
    {
        if w != Width::Word {
            return Err(Exception::LoadFault);
        }
        match locate(addr) {
            Some(PlicReg::Priority(i)) => Ok(self.priority[i as usize] as u64),
            Some(PlicReg::Pending(i)) => Ok(self.pending[i as usize] as u64),
            Some(PlicReg::Enable(i)) => Ok(self.enable[i as usize] as u64),
            Some(PlicReg::Threshold(i)) => Ok(self.threshold[i as usize] as u64),
            Some(PlicReg::Claim(i)) => Ok(self.claim[i as usize] as u64),
            None => Err(Exception::LoadFault),
        }
    }

    /// Writes the register at `addr`; only four-byte accesses are supported. A
    /// write to a claim/complete register completes the interrupt it names:
    /// that source's pending bit is cleared.
    pub fn write(&mut self, addr: u64, w: Width, value: u64) -> (r: Result<(), Exception>)
        requires
            old(self).wf(),
        ensures
            final(self).wf(),
            r == (if w == Width::Word && plic_reg(addr) is Some {
                Ok(())
            } else {
                Err(Exception::StoreFault)
            }),
            r is Err ==> *final(self) == *old(self),
            r is Ok ==> Plic::written(*old(self), *final(self), plic_reg(addr)->Some_0, value),
    {
        if w != Width::Word {
            return Err(Exception::StoreFault);
        }
        match locate(addr) {
            Some(PlicReg::Priority(i)) => self.priority.set(i as usize, value as u32),
            Some(PlicReg::Pending(i)) => self.pending.set(i as usize, value as u32),
            Some(PlicReg::Enable(i)) => self.enable.set(i as usize, value as u32),
            Some(PlicReg::Threshold(i)) => self.threshold.set(i as usize, value as u32),
            Some(PlicReg::Claim(_)) => self.clear_pending(value),
            None => return Err(Exception::StoreFault),
        }
        Ok(())
    }

    /// The state after a write of `value` to register `reg`.
    pub open spec fn written(old: Plic, new: Plic, reg: PlicReg, value: u64) -> bool {
        match reg {
            PlicReg::Priority(i) => (new == Plic { priority: new.priority, ..old })
                && new.priority@ == old.priority@.update(i as int, value as u32),
            PlicReg::Pending(i) => (new == Plic { pending: new.pending, ..old })
                && new.pending@ == old.pending@.update(i as int, value as u32),
            PlicReg::Enable(i) => (new == Plic { enable: new.enable, ..old })
                && new.enable@ == old.enable@.update(i as int, value as u32),
            PlicReg::Threshold(i) => (new == Plic { threshold: new.threshold, ..old })
                && new.threshold@ == old.threshold@.update(i as int, value as u32),
            PlicReg::Claim(i) => Plic::completed(old, new, value),
        }
    }

    /// The state after source `irq` raised its interrupt: its pending bit is set
    /// and it is offered as the claim of context 1.
    pub open spec fn pended(old: Plic, new: Plic, irq: u64) -> bool {
        &&& new.wf()
        &&& new.priority == old.priority
        &&& new.enable == old.enable
        &&& new.threshold == old.threshold
        &&& new.pending@ == old.pending@.update(
            (irq / 32) as int,
            old.pending@[(irq / 32) as int] | (1u32 << (irq % 32) as u32),
        )
        &&& new.claim@ == Plic::claim_after(old, irq)
    }

    /// The claim of context 1 after offering it `irq`.
    pub open spec fn claim_after(old: Plic, irq: u64) -> Seq<u32> {
        if enabled(old.enable@, 1, irq) || irq == 0 {
            old.claim@.update(1, irq as u32)
        } else {
            old.claim@
        }
    }

    /// The state after completing interrupt `irq`: its pending bit is cleared (a
    /// number past the last source clears nothing) and the claim of context 1 is
    /// reset to 0.
    pub open spec fn completed(old: Plic, new: Plic, irq: u64) -> bool {
        &&& new == Plic { pending: new.pending, claim: new.claim, ..old }
        &&& new.pending@ == (if irq < SOURCE_NUM {
            old.pending@.update(
                (irq / 32) as int,
                old.pending@[(irq / 32) as int] & !(1u32 << (irq % 32) as u32),
            )
        } else {
            old.pending@
        })
        &&& new.claim@ == old.claim@.update(1, 0)
    }

    /// Sets the pending bit of source `irq` and, where the source is enabled on
    /// context 1, makes it that context's claim.
    pub fn update_pending(&mut self, irq: u64)
        requires
            old(self).wf(),
            irq < SOURCE_NUM,
        ensures
            final(self).wf(),
            Plic::pended(*old(self), *final(self), irq),
    {
        let index = (irq / 32) as usize;
        let bit = (irq % 32) as u32;
        let p = self.pending[index] | (1u32 << bit);
        self.pending.set(index, p);
        self.update_claim(irq);
    }

    /// Clears the pending bit of source `irq` and resets the claim of context 1.
    fn clear_pending(&mut self, irq: u64)
        requires
            old(self).wf(),
        ensures
            final(self).wf(),
            Plic::completed(*old(self), *final(self), irq),
    {
        if irq < SOURCE_NUM {
            let index = (irq / 32) as usize;
            let bit = (irq % 32) as u32;
            let p = self.pending[index] & !(1u32 << bit);
            self.pending.set(index, p);
        }
        self.update_claim(0);
    }

    /// Makes `irq` the claim of context 1 where it is enabled there or is 0.
    fn update_claim(&mut self, irq: u64)
        requires
            old(self).wf(),
            irq < SOURCE_NUM,
        ensures
            final(self).wf(),
            final(self).priority == old(self).priority,
            final(self).pending == old(self).pending,
            final(self).enable == old(self).enable,
            final(self).threshold == old(self).threshold,
            final(self).claim@ == Plic::claim_after(*old(self), irq),
    {
        if self.is_enable(1, irq) || irq == 0 {
            self.claim.set(1, irq as u32);
        }
    }

    /// Whether source `irq` is enabled for `context`.
    fn is_enable(&self, context: u64, irq: u64) -> (r: bool)
        requires
            self.wf(),
            context < 2,
        ensures
            r == enabled(self.enable@, context, irq),
    {
        let i = irq % SOURCE_NUM;
        let index = i / 32;
        let offset = i % 32;
        ((self.enable[(context * 32 + index) as usize] >> (offset as u32)) & 1) == 1
    }
}

} // verus!
