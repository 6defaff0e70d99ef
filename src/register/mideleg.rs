//! The machine interrupt delegation register (mideleg): bit i delegates interrupt cause i.
use crate::bits::{bit_of, get_bit};
use crate::RegT;
use vstd::prelude::*;

verus! {

/// The machine interrupt delegation register (mideleg): bit i delegates interrupt cause i.
#[derive(Clone, Copy, Debug)]
pub struct Mideleg {
    bits: RegT,
}

impl View for Mideleg {
    type V = RegT;

    closed spec fn view(&self) -> RegT {
        self.bits
    }
}

impl From<RegT> for Mideleg {
    fn from(r: RegT) -> (s: Mideleg)
        ensures
            s@ == r,
    {
        Mideleg { bits: r }
    }
}

impl vstd::std_specs::convert::FromSpecImpl<RegT> for Mideleg {
    closed spec fn obeys_from_spec() -> bool {
        true
    }

    closed spec fn from_spec(r: RegT) -> Mideleg {
        Mideleg { bits: r }
    }
}

impl Mideleg {
    /// The contents of the register as raw bits.
    pub fn bits(&self) -> (r: RegT)
        ensures
            r == self@,
    {
        self.bits
    }

    /// User software interrupt is delegated.
    pub fn usoft(&self) -> (r: bool)
        ensures
            r == bit_of(self@, 0),
    {
        get_bit(self.bits, 0)
    }

    /// Supervisor software interrupt is delegated.
    pub fn ssoft(&self) -> (r: bool)
        ensures
            r == bit_of(self@, 1),
    {
        get_bit(self.bits, 1)
    }

    /// User timer interrupt is delegated.
    pub fn utimer(&self) -> (r: bool)
        ensures
            r == bit_of(self@, 4),
    {
        get_bit(self.bits, 4)
    }

    /// Supervisor timer interrupt is delegated.
    pub fn stimer(&self) -> (r: bool)
        ensures
            r == bit_of(self@, 5),
    {
        get_bit(self.bits, 5)
    }

    /// User external interrupt is delegated.
    pub fn uext(&self) -> (r: bool)
        ensures
            r == bit_of(self@, 8),
    {
        get_bit(self.bits, 8)
    }

    /// Supervisor external interrupt is delegated.
    pub fn sext(&self) -> (r: bool)
        ensures
            r == bit_of(self@, 9),
    {
        get_bit(self.bits, 9)
    }
}

} // verus!
