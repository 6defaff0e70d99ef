//! The supervisor status register (sstatus).
use crate::bits::{bit_of, get_bit, set_bit, with_bit};
use crate::PrivilegeMode;
use crate::RegT;
use vstd::prelude::*;

verus! {

/// The supervisor status register (sstatus).
#[derive(Clone, Copy, Debug)]
pub struct Sstatus {
    bits: RegT,
}

impl View for Sstatus {
    type V = RegT;

    closed spec fn view(&self) -> RegT {
        self.bits
    }
}

impl From<RegT> for Sstatus {
    fn from(r: RegT) -> (s: Sstatus)
        ensures
            s@ == r,
    {
        Sstatus { bits: r }
    }
}

impl vstd::std_specs::convert::FromSpecImpl<RegT> for Sstatus {
    closed spec fn obeys_from_spec() -> bool {
        true
    }

    closed spec fn from_spec(r: RegT) -> Sstatus {
        Sstatus { bits: r }
    }
}

impl Sstatus {
    /// The contents of the register as raw bits.
    pub fn bits(&self) -> (r: RegT)
        ensures
            r == self@,
    {
        self.bits
    }

    /// Sets the supervisor interrupt-enable bit (SIE).
    pub fn set_sie(&mut self, v: bool)
        ensures
            final(self)@ == with_bit(old(self)@, 1, v),
    {
        self.bits = set_bit(self.bits, 1, v);
    }

    /// Sets the supervisor previous interrupt-enable bit (SPIE).
    pub fn set_spie(&mut self, v: bool)
        ensures
            final(self)@ == with_bit(old(self)@, 5, v),
    {
        self.bits = set_bit(self.bits, 5, v);
    }

    /// Sets the supervisor previous privilege bit (SPP, bit 8): clear for User,
    /// set otherwise.
    pub fn set_spp(&mut self, pm: PrivilegeMode)
        ensures
            final(self)@ == with_bit(old(self)@, 8, pm != PrivilegeMode::User),
    {
        if pm == PrivilegeMode::User {
            self.bits = set_bit(self.bits, 8, false);
        } else {
            self.bits = set_bit(self.bits, 8, true);
        }
    }

    /// User interrupt enable.
    pub fn uie(&self) -> (r: bool)
        ensures
            r == bit_of(self@, 0),
    {
        get_bit(self.bits, 0)
    }

    /// Supervisor interrupt enable.
    pub fn sie(&self) -> (r: bool)
        ensures
            r == bit_of(self@, 1),
    {
        get_bit(self.bits, 1)
    }

    /// User previous interrupt enable.
    pub fn upie(&self) -> (r: bool)
        ensures
            r == bit_of(self@, 4),
    {
        get_bit(self.bits, 4)
    }

    /// Supervisor previous interrupt enable.
    pub fn spie(&self) -> (r: bool)
        ensures
            r == bit_of(self@, 5),
    {
        get_bit(self.bits, 5)
    }

    /// Supervisor previous privilege mode (SPP, bit 8).
    pub fn spp(&self) -> (r: PrivilegeMode)
        ensures
            r == (if bit_of(self@, 8) {
                PrivilegeMode::Supervisor
            } else {
                PrivilegeMode::User
            }),
    {
        if get_bit(self.bits, 8) {
            PrivilegeMode::Supervisor
        } else {
            PrivilegeMode::User
        }
    }

    /// Permit supervisor user memory access (SUM).
    pub fn sum(&self) -> (r: bool)
        ensures
            r == bit_of(self@, 18),
    {
        get_bit(self.bits, 18)
    }

    /// Make executable readable (MXR).
    pub fn mxr(&self) -> (r: bool)
        ensures
            r == bit_of(self@, 19),
    {
        get_bit(self.bits, 19)
    }

    /// Some dirty state is present (SD, the most significant bit).
    pub fn sd(&self) -> (r: bool)
        ensures
            r == bit_of(self@, 63),
    {
        get_bit(self.bits, 63)
    }
}

} // verus!
