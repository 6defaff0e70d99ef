//! The bank of 4096 control and status registers.
use crate::register::medeleg::Medeleg;
use crate::register::mideleg::Mideleg;
use crate::register::mie::Mie;
use crate::register::mip::Mip;
use crate::register::mstatus::Mstatus;
use crate::register::satp::Satp;
use crate::register::sstatus::Sstatus;
use crate::register::xtvec::Xtvec;
use crate::RegT;
use vstd::prelude::*;

verus! {

/// Number of CSR slots: a 12-bit index space.
pub const CSR_COUNT: usize = 4096;

/// CSR number of `sie`, whose writes reach `mie` through the `mideleg` mask.
pub const SIE: u16 = 0x104;

/// CSR number of `satp`.
pub const SATP: u16 = 0x180;

/// CSR number of `sstatus`.
pub const SSTATUS: u16 = 0x100;

/// CSR number of `mstatus`.
pub const MSTATUS: u16 = 0x300;

/// CSR number of `mip`.
pub const MIP: u16 = 0x344;

/// CSR number of `mie`.
pub const MIE: u16 = 0x304;

/// CSR number of `mideleg`.
pub const MIDELEG: u16 = 0x303;

/// CSR number of `medeleg`.
pub const MEDELEG: u16 = 0x302;

/// CSR number of `mtvec`.
pub const MTVEC: u16 = 0x305;

/// CSR number of `stvec`.
pub const STVEC: u16 = 0x105;

/// CSR number of `mtval`.
pub const MTVAL: u16 = 0x343;

/// CSR number of `stval`.
pub const STVAL: u16 = 0x143;

/// CSR number of `sepc`.
pub const SEPC: u16 = 0x141;

/// CSR number of `scause`.
pub const SCAUSE: u16 = 0x142;

/// CSR number of `mepc`.
pub const MEPC: u16 = 0x341;

/// CSR number of `mcause`.
pub const MCAUSE: u16 = 0x342;

/// CSR number of `time`.
pub const TIME: u16 = 0xc01;

/// The CSR contents after writing `value` to CSR `num`: a write to `sie`
/// replaces only the bits of `mie` that `mideleg` enables and keeps the rest;
/// any other write stores the value unchanged.
pub open spec fn csr_after_write(s: Seq<RegT>, num: int, value: RegT) -> Seq<RegT> {
    if num == SIE as int {
        let deleg = s[MIDELEG as int];
        s.update(MIE as int, (s[MIE as int] & !deleg) | (value & deleg))
    } else {
        s.update(num, value)
    }
}

/// The control and status registers.
pub struct Csrs {
    csrs: Vec<RegT>,
}

impl View for Csrs {
    type V = Seq<RegT>;

    closed spec fn view(&self) -> Seq<RegT> {
        self.csrs@
    }
}

impl Csrs {
    /// The bank holds exactly 4096 cells.
    pub open spec fn wf(&self) -> bool {
        self@.len() == CSR_COUNT
    }

    /// A bank with every CSR zero.
    pub fn new() -> (r: Csrs)
        ensures
            r.wf(),
            forall|i: int| 0 <= i < CSR_COUNT ==> #[trigger] r@[i] == 0,
    {
        Csrs { csrs: vec![0; CSR_COUNT] }
    }

    /// Reads CSR `csr_num` as raw bits.
    pub fn csr(&self, csr_num: u16) -> (r: RegT)
        requires
            self.wf(),
            csr_num < 4096,
        ensures
            r == self@[csr_num as int],
    {
        self.csrs[csr_num as usize]
    }

    /// Writes CSR `csr_num`; see `csr_after_write` for the `sie` rule.
    pub fn set_csr(&mut self, csr_num: u16, value: RegT)
        requires
            old(self).wf(),
            csr_num < 4096,
        ensures
            final(self).wf(),
            final(self)@ == csr_after_write(old(self)@, csr_num as int, value),
    {
        if csr_num == SIE {
            let mideleg = self.csrs[MIDELEG as usize];
            let mie = self.csrs[MIE as usize];
            self.csrs.set(MIE as usize, (mie & !mideleg) | (value & mideleg));
        } else {
            self.csrs.set(csr_num as usize, value);
        }
    }

    /// The `satp` CSR as a typed view.
    pub fn satp(&self) -> (r: Satp)
        requires
            self.wf(),
        ensures
            r@ == self@[SATP as int],
    {
        Satp::from(self.csrs[SATP as usize])
    }

    /// Writes the `satp` CSR.
    pub fn set_satp(&mut self, value: RegT)
        requires
            old(self).wf(),
        ensures
            final(self).wf(),
            final(self)@ == old(self)@.update(SATP as int, value),
    {
        self.set_csr(SATP, value);
    }

    /// The `sstatus` CSR as a typed view.
    pub fn sstatus(&self) -> (r: Sstatus)
        requires
            self.wf(),
        ensures
            r@ == self@[SSTATUS as int],
    {
        Sstatus::from(self.csrs[SSTATUS as usize])
    }

    /// Writes the `sstatus` CSR.
    pub fn set_sstatus(&mut self, value: RegT)
        requires
            old(self).wf(),
        ensures
            final(self).wf(),
            final(self)@ == old(self)@.update(SSTATUS as int, value),
    {
        self.set_csr(SSTATUS, value);
    }

    /// The `mstatus` CSR as a typed view.
    pub fn mstatus(&self) -> (r: Mstatus)
        requires
            self.wf(),
        ensures
            r@ == self@[MSTATUS as int],
    {
        Mstatus::from(self.csrs[MSTATUS as usize])
    }

    /// Writes the `mstatus` CSR.
    pub fn set_mstatus(&mut self, value: RegT)
        requires
            old(self).wf(),
        ensures
            final(self).wf(),
            final(self)@ == old(self)@.update(MSTATUS as int, value),
    {
        self.set_csr(MSTATUS, value);
    }

    /// The `mip` CSR as a typed view.
    pub fn mip(&self) -> (r: Mip)
        requires
            self.wf(),
        ensures
            r@ == self@[MIP as int],
    {
        Mip::from(self.csrs[MIP as usize])
    }

    /// Writes the `mip` CSR.
    pub fn set_mip(&mut self, value: RegT)
        requires
            old(self).wf(),
        ensures
            final(self).wf(),
            final(self)@ == old(self)@.update(MIP as int, value),
    {
        self.set_csr(MIP, value);
    }

    /// The `mie` CSR as a typed view.
    pub fn mie(&self) -> (r: Mie)
        requires
            self.wf(),
        ensures
            r@ == self@[MIE as int],
    {
        Mie::from(self.csrs[MIE as usize])
    }

    /// Writes the `mie` CSR.
    pub fn set_mie(&mut self, value: RegT)
        requires
            old(self).wf(),
        ensures
            final(self).wf(),
            final(self)@ == old(self)@.update(MIE as int, value),
    {
        self.set_csr(MIE, value);
    }

    /// The `mideleg` CSR as a typed view.
    pub fn mideleg(&self) -> (r: Mideleg)
        requires
            self.wf(),
        ensures
            r@ == self@[MIDELEG as int],
    {
        Mideleg::from(self.csrs[MIDELEG as usize])
    }

    /// Writes the `mideleg` CSR.
    pub fn set_mideleg(&mut self, value: RegT)
        requires
            old(self).wf(),
        ensures
            final(self).wf(),
            final(self)@ == old(self)@.update(MIDELEG as int, value),
    {
        self.set_csr(MIDELEG, value);
    }

    /// The `medeleg` CSR as a typed view.
    pub fn medeleg(&self) -> (r: Medeleg)
        requires
            self.wf(),
        ensures
            r@ == self@[MEDELEG as int],
    {
        Medeleg::from(self.csrs[MEDELEG as usize])
    }

    /// Writes the `medeleg` CSR.
    pub fn set_medeleg(&mut self, value: RegT)
        requires
            old(self).wf(),
        ensures
            final(self).wf(),
            final(self)@ == old(self)@.update(MEDELEG as int, value),
    {
        self.set_csr(MEDELEG, value);
    }

    /// The `mtvec` CSR as a typed view.
    pub fn mtvec(&self) -> (r: Xtvec)
        requires
            self.wf(),
        ensures
            r@ == self@[MTVEC as int],
    {
        Xtvec::from(self.csrs[MTVEC as usize])
    }

    /// Writes the `mtvec` CSR.
    pub fn set_mtvec(&mut self, value: RegT)
        requires
            old(self).wf(),
        ensures
            final(self).wf(),
            final(self)@ == old(self)@.update(MTVEC as int, value),
    {
        self.set_csr(MTVEC, value);
    }

    /// The `stvec` CSR as a typed view.
    pub fn stvec(&self) -> (r: Xtvec)
        requires
            self.wf(),
        ensures
            r@ == self@[STVEC as int],
    {
        Xtvec::from(self.csrs[STVEC as usize])
    }

    /// Writes the `stvec` CSR.
    pub fn set_stvec(&mut self, value: RegT)
        requires
            old(self).wf(),
        ensures
            final(self).wf(),
            final(self)@ == old(self)@.update(STVEC as int, value),
    {
        self.set_csr(STVEC, value);
    }

    /// The raw `mtval` CSR.
    pub fn mtval(&self) -> (r: RegT)
        requires
            self.wf(),
        ensures
            r == self@[MTVAL as int],
    {
        self.csrs[MTVAL as usize]
    }

    /// Writes the `mtval` CSR.
    pub fn set_mtval(&mut self, value: RegT)
        requires
            old(self).wf(),
        ensures
            final(self).wf(),
            final(self)@ == old(self)@.update(MTVAL as int, value),
    {
        self.set_csr(MTVAL, value);
    }

    /// The raw `stval` CSR.
    pub fn stval(&self) -> (r: RegT)
        requires
            self.wf(),
        ensures
            r == self@[STVAL as int],
    {
        self.csrs[STVAL as usize]
    }

    /// Writes the `stval` CSR.
    pub fn set_stval(&mut self, value: RegT)
        requires
            old(self).wf(),
        ensures
            final(self).wf(),
            final(self)@ == old(self)@.update(STVAL as int, value),
    {
        self.set_csr(STVAL, value);
    }

    /// The raw `sepc` CSR.
    pub fn sepc(&self) -> (r: RegT)
        requires
            self.wf(),
        ensures
            r == self@[SEPC as int],
    {
        self.csrs[SEPC as usize]
    }

    /// Writes the `sepc` CSR.
    pub fn set_sepc(&mut self, value: RegT)
        requires
            old(self).wf(),
        ensures
            final(self).wf(),
            final(self)@ == old(self)@.update(SEPC as int, value),
    {
        self.set_csr(SEPC, value);
    }

    /// The raw `scause` CSR.
    pub fn scause(&self) -> (r: RegT)
        requires
            self.wf(),
        ensures
            r == self@[SCAUSE as int],
    {
        self.csrs[SCAUSE as usize]
    }

    /// Writes the `scause` CSR.
    pub fn set_scause(&mut self, value: RegT)
        requires
            old(self).wf(),
        ensures
            final(self).wf(),
            final(self)@ == old(self)@.update(SCAUSE as int, value),
    {
        self.set_csr(SCAUSE, value);
    }

    /// The raw `mepc` CSR.
    pub fn mepc(&self) -> (r: RegT)
        requires
            self.wf(),
        ensures
            r == self@[MEPC as int],
    {
        self.csrs[MEPC as usize]
    }

    /// Writes the `mepc` CSR.
    pub fn set_mepc(&mut self, value: RegT)
        requires
            old(self).wf(),
        ensures
            final(self).wf(),
            final(self)@ == old(self)@.update(MEPC as int, value),
    {
        self.set_csr(MEPC, value);
    }

    /// The raw `mcause` CSR.
    pub fn mcause(&self) -> (r: RegT)
        requires
            self.wf(),
        ensures
            r == self@[MCAUSE as int],
    {
        self.csrs[MCAUSE as usize]
    }

    /// Writes the `mcause` CSR.
    pub fn set_mcause(&mut self, value: RegT)
        requires
            old(self).wf(),
        ensures
            final(self).wf(),
            final(self)@ == old(self)@.update(MCAUSE as int, value),
    {
        self.set_csr(MCAUSE, value);
    }

    /// The raw `time` CSR.
    pub fn time(&self) -> (r: RegT)
        requires
            self.wf(),
        ensures
            r == self@[TIME as int],
    {
        self.csrs[TIME as usize]
    }

    /// Writes the `time` CSR.
    pub fn set_time(&mut self, value: RegT)
        requires
            old(self).wf(),
        ensures
            final(self).wf(),
            final(self)@ == old(self)@.update(TIME as int, value),
    {
        self.set_csr(TIME, value);
    }
}

} // verus!
