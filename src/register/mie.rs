//! The machine interrupt-enable register (mie).
use crate::bits::{bit_of, get_bit};
use crate::RegT;
use vstd::prelude::*;

verus! {

/// The machine interrupt-enable register (mie).
#[derive(Clone, Copy, Debug)]
pub struct Mie {
    bits: RegT,
}

impl View for Mie {
    type V = RegT;

    closed spec fn view(&self) -> RegT {
        self.bits
    }
}

impl From<RegT> for Mie {
    fn from(r: RegT) -> (s: Mie)
        ensures
            s@ == r,
    {
        Mie { bits: r }
    }
}

impl vstd::std_specs::convert::FromSpecImpl<RegT> for Mie {
    closed spec fn obeys_from_spec() -> bool {
        true
    }

    closed spec fn from_spec(r: RegT) -> Mie {
        Mie { bits: r }
    }
}

impl Mie {
    /// The contents of the register as raw bits.
    pub fn bits(&self) -> (r: RegT)
        ensures
            r == self@,
    {
        self.bits
    }

    /// User software interrupt is enabled.
    pub fn usoft(&self) -> (r: bool)
        ensures
            r == bit_of(self@, 0),
    {
        get_bit(self.bits, 0)
    }

    /// Supervisor software interrupt is enabled.
    pub fn ssoft(&self) -> (r: bool)
        ensures
            r == bit_of(self@, 1),
    {
        get_bit(self.bits, 1)
    }

    /// Machine software interrupt is enabled.
    pub fn msoft(&self) -> (r: bool)
        ensures
            r == bit_of(self@, 3),
    {
        get_bit(self.bits, 3)
    }

    /// User timer interrupt is enabled.
    pub fn utimer(&self) -> (r: bool)
        ensures
            r == bit_of(self@, 4),
    {
        get_bit(self.bits, 4)
    }

    /// Supervisor timer interrupt is enabled.
    pub fn stimer(&self) -> (r: bool)
        ensures
            r == bit_of(self@, 5),
    {
        get_bit(self.bits, 5)
    }

    /// Machine timer interrupt is enabled.
    pub fn mtimer(&self) -> (r: bool)
        ensures
            r == bit_of(self@, 7),
    {
        get_bit(self.bits, 7)
    }

    /// User external interrupt is enabled.
    pub fn uext(&self) -> (r: bool)
        ensures
            r == bit_of(self@, 8),
    {
        get_bit(self.bits, 8)
    }

    /// Supervisor external interrupt is enabled.
    pub fn sext(&self) -> (r: bool)
        ensures
            r == bit_of(self@, 9),
    {
        get_bit(self.bits, 9)
    }

    /// Machine external interrupt is enabled.
    pub fn mext(&self) -> (r: bool)
        ensures
            r == bit_of(self@, 11),
    {
        get_bit(self.bits, 11)
    }
}

} // verus!
