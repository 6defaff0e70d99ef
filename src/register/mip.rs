//! The machine interrupt-pending register (mip).
use crate::bits::{bit_of, get_bit, set_bit, with_bit};
use crate::RegT;
use vstd::prelude::*;

verus! {

/// The machine interrupt-pending register (mip).
#[derive(Clone, Copy, Debug)]
pub struct Mip {
    bits: RegT,
}

impl View for Mip {
    type V = RegT;

    closed spec fn view(&self) -> RegT {
        self.bits
    }
}

impl From<RegT> for Mip {
    fn from(r: RegT) -> (s: Mip)
        ensures
            s@ == r,
    {
        Mip { bits: r }
    }
}

impl vstd::std_specs::convert::FromSpecImpl<RegT> for Mip {
    closed spec fn obeys_from_spec() -> bool {
        true
    }

    closed spec fn from_spec(r: RegT) -> Mip {
        Mip { bits: r }
    }
}

impl Mip {
    /// The contents of the register as raw bits.
    pub fn bits(&self) -> (r: RegT)
        ensures
            r == self@,
    {
        self.bits
    }

    /// Sets whether the machine software interrupt is pending.
    pub fn set_msoft(&mut self, v: bool)
        ensures
            final(self)@ == with_bit(old(self)@, 3, v),
    {
        self.bits = set_bit(self.bits, 3, v);
    }

    /// Sets whether the machine timer interrupt is pending.
    pub fn set_mtimer(&mut self, v: bool)
        ensures
            final(self)@ == with_bit(old(self)@, 7, v),
    {
        self.bits = set_bit(self.bits, 7, v);
    }

    /// Sets whether the supervisor external interrupt is pending.
    pub fn set_sext(&mut self, v: bool)
        ensures
            final(self)@ == with_bit(old(self)@, 9, v),
    {
        self.bits = set_bit(self.bits, 9, v);
    }

    /// Sets whether the machine external interrupt is pending.
    pub fn set_mext(&mut self, v: bool)
        ensures
            final(self)@ == with_bit(old(self)@, 11, v),
    {
        self.bits = set_bit(self.bits, 11, v);
    }

    /// Sets whether the supervisor software interrupt is pending.
    pub fn set_ssoft(&mut self, v: bool)
        ensures
            final(self)@ == with_bit(old(self)@, 1, v),
    {
        self.bits = set_bit(self.bits, 1, v);
    }

    /// Sets whether the supervisor timer interrupt is pending.
    pub fn set_stimer(&mut self, v: bool)
        ensures
            final(self)@ == with_bit(old(self)@, 5, v),
    {
        self.bits = set_bit(self.bits, 5, v);
    }

    /// User software interrupt is pending.
    pub fn usoft(&self) -> (r: bool)
        ensures
            r == bit_of(self@, 0),
    {
        get_bit(self.bits, 0)
    }

    /// Supervisor software interrupt is pending.
    pub fn ssoft(&self) -> (r: bool)
        ensures
            r == bit_of(self@, 1),
    {
        get_bit(self.bits, 1)
    }

    /// Machine software interrupt is pending.
    pub fn msoft(&self) -> (r: bool)
        ensures
            r == bit_of(self@, 3),
    {
        get_bit(self.bits, 3)
    }

    /// User timer interrupt is pending.
    pub fn utimer(&self) -> (r: bool)
        ensures
            r == bit_of(self@, 4),
    {
        get_bit(self.bits, 4)
    }

    /// Supervisor timer interrupt is pending.
    pub fn stimer(&self) -> (r: bool)
        ensures
            r == bit_of(self@, 5),
    {
        get_bit(self.bits, 5)
    }

    /// Machine timer interrupt is pending.
    pub fn mtimer(&self) -> (r: bool)
        ensures
            r == bit_of(self@, 7),
    {
        get_bit(self.bits, 7)
    }

    /// User external interrupt is pending.
    pub fn uext(&self) -> (r: bool)
        ensures
            r == bit_of(self@, 8),
    {
        get_bit(self.bits, 8)
    }

    /// Supervisor external interrupt is pending.
    pub fn sext(&self) -> (r: bool)
        ensures
            r == bit_of(self@, 9),
    {
        get_bit(self.bits, 9)
    }

    /// Machine external interrupt is pending.
    pub fn mext(&self) -> (r: bool)
        ensures
            r == bit_of(self@, 11),
    {
        get_bit(self.bits, 11)
    }
}

} // verus!
