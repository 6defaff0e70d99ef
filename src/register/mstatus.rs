//! The machine status register (mstatus).
use crate::bits::{bit_of, field_of, get_bit, get_bits, low_mask, set_bit, set_bits, with_bit, with_field};
use crate::PrivilegeMode;
use crate::RegT;
use vstd::prelude::*;

verus! {

/// The machine status register (mstatus).
#[derive(Clone, Copy, Debug)]
pub struct Mstatus {
    bits: RegT,
}

impl View for Mstatus {
    type V = RegT;

    closed spec fn view(&self) -> RegT {
        self.bits
    }
}

impl From<RegT> for Mstatus {
    fn from(r: RegT) -> (s: Mstatus)
        ensures
            s@ == r,
    {
        Mstatus { bits: r }
    }
}

impl vstd::std_specs::convert::FromSpecImpl<RegT> for Mstatus {
    closed spec fn obeys_from_spec() -> bool {
        true
    }

    closed spec fn from_spec(r: RegT) -> Mstatus {
        Mstatus { bits: r }
    }
}

impl Mstatus {
    /// The contents of the register as raw bits.
    pub fn bits(&self) -> (r: RegT)
        ensures
            r == self@,
    {
        self.bits
    }

    /// Sets the machine interrupt-enable bit (MIE).
    pub fn set_mie(&mut self, v: bool)
        ensures
            final(self)@ == with_bit(old(self)@, 3, v),
    {
        self.bits = set_bit(self.bits, 3, v);
    }

    /// Sets the machine previous interrupt-enable bit (MPIE).
    pub fn set_mpie(&mut self, v: bool)
        ensures
            final(self)@ == with_bit(old(self)@, 7, v),
    {
        self.bits = set_bit(self.bits, 7, v);
    }

    /// Sets the machine previous privilege field (MPP, bits 11..13).
    pub fn set_mpp(&mut self, pm: PrivilegeMode)
        ensures
            final(self)@ == with_field(old(self)@, 11, 13, pm.mpp_code()),
    {
        proof {
            assert(low_mask(2) == 3) by (bit_vector);
        }
        let code: u64 = match pm {
            PrivilegeMode::User => 0,
            PrivilegeMode::Supervisor => 1,
            PrivilegeMode::Machine => 3,
        };
        self.bits = set_bits(self.bits, 11, 13, code);
    }

    /// User interrupt enable.
    pub fn uie(&self) -> (r: bool)
        ensures
            r == bit_of(self@, 0),
    {
        get_bit(self.bits, 0)
    }

    /// Supervisor interrupt enable.
    pub fn sie(&self) -> (r: bool)
        ensures
            r == bit_of(self@, 1),
    {
        get_bit(self.bits, 1)
    }

    /// Machine interrupt enable.
    pub fn mie(&self) -> (r: bool)
        ensures
            r == bit_of(self@, 3),
    {
        get_bit(self.bits, 3)
    }

    /// User previous interrupt enable.
    pub fn upie(&self) -> (r: bool)
        ensures
            r == bit_of(self@, 4),
    {
        get_bit(self.bits, 4)
    }

    /// Supervisor previous interrupt enable.
    pub fn spie(&self) -> (r: bool)
        ensures
            r == bit_of(self@, 5),
    {
        get_bit(self.bits, 5)
    }

    /// Machine previous interrupt enable.
    pub fn mpie(&self) -> (r: bool)
        ensures
            r == bit_of(self@, 7),
    {
        get_bit(self.bits, 7)
    }

    /// Supervisor previous privilege mode (SPP, bit 8).
    pub fn spp(&self) -> (r: PrivilegeMode)
        ensures
            r == (if bit_of(self@, 8) {
                PrivilegeMode::Supervisor
            } else {
                PrivilegeMode::User
            }),
    {
        if get_bit(self.bits, 8) {
            PrivilegeMode::Supervisor
        } else {
            PrivilegeMode::User
        }
    }

    /// Machine previous privilege mode (MPP, bits 11..13); the reserved
    /// encoding 0b10 reads as Machine.
    pub fn mpp(&self) -> (r: PrivilegeMode)
        ensures
            r == PrivilegeMode::from_mpp_code(field_of(self@, 11, 13)),
    {
        let code = get_bits(self.bits, 11, 13);
        if code == 0 {
            PrivilegeMode::User
        } else if code == 1 {
            PrivilegeMode::Supervisor
        } else {
            PrivilegeMode::Machine
        }
    }

    /// Permit supervisor user memory access (SUM).
    pub fn sum(&self) -> (r: bool)
        ensures
            r == bit_of(self@, 18),
    {
        get_bit(self.bits, 18)
    }

    /// Make executable readable (MXR).
    pub fn mxr(&self) -> (r: bool)
        ensures
            r == bit_of(self@, 19),
    {
        get_bit(self.bits, 19)
    }

    /// Trap virtual memory (TVM).
    pub fn tvm(&self) -> (r: bool)
        ensures
            r == bit_of(self@, 20),
    {
        get_bit(self.bits, 20)
    }

    /// Timeout wait (TW).
    pub fn tw(&self) -> (r: bool)
        ensures
            r == bit_of(self@, 21),
    {
        get_bit(self.bits, 21)
    }

    /// Trap SRET (TSR).
    pub fn tsr(&self) -> (r: bool)
        ensures
            r == bit_of(self@, 22),
    {
        get_bit(self.bits, 22)
    }

    /// Some dirty state is present (SD, the most significant bit).
    pub fn sd(&self) -> (r: bool)
        ensures
            r == bit_of(self@, 63),
    {
        get_bit(self.bits, 63)
    }
}

} // verus!
