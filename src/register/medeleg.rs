//! The machine exception delegation register (medeleg): bit i delegates exception cause i.
use crate::bits::{bit_of, get_bit};
use crate::RegT;
use vstd::prelude::*;

verus! {

/// The machine exception delegation register (medeleg): bit i delegates exception cause i.
#[derive(Clone, Copy, Debug)]
pub struct Medeleg {
    bits: RegT,
}

impl View for Medeleg {
    type V = RegT;

    closed spec fn view(&self) -> RegT {
        self.bits
    }
}

impl From<RegT> for Medeleg {
    fn from(r: RegT) -> (s: Medeleg)
        ensures
            s@ == r,
    {
        Medeleg { bits: r }
    }
}

impl vstd::std_specs::convert::FromSpecImpl<RegT> for Medeleg {
    closed spec fn obeys_from_spec() -> bool {
        true
    }

    closed spec fn from_spec(r: RegT) -> Medeleg {
        Medeleg { bits: r }
    }
}

impl Medeleg {
    /// The contents of the register as raw bits.
    pub fn bits(&self) -> (r: RegT)
        ensures
            r == self@,
    {
        self.bits
    }

    /// Instruction address misaligned is delegated.
    pub fn instruction_misaligned(&self) -> (r: bool)
        ensures
            r == bit_of(self@, 0),
    {
        get_bit(self.bits, 0)
    }

    /// Instruction access fault is delegated.
    pub fn instruction_fault(&self) -> (r: bool)
        ensures
            r == bit_of(self@, 1),
    {
        get_bit(self.bits, 1)
    }

    /// Illegal instruction is delegated.
    pub fn illegal_instruction(&self) -> (r: bool)
        ensures
            r == bit_of(self@, 2),
    {
        get_bit(self.bits, 2)
    }

    /// Breakpoint is delegated.
    pub fn breakpoint(&self) -> (r: bool)
        ensures
            r == bit_of(self@, 3),
    {
        get_bit(self.bits, 3)
    }

    /// Load address misaligned is delegated.
    pub fn load_misaligned(&self) -> (r: bool)
        ensures
            r == bit_of(self@, 4),
    {
        get_bit(self.bits, 4)
    }

    /// Load access fault is delegated.
    pub fn load_fault(&self) -> (r: bool)
        ensures
            r == bit_of(self@, 5),
    {
        get_bit(self.bits, 5)
    }

    /// Store/AMO address misaligned is delegated.
    pub fn store_misaligned(&self) -> (r: bool)
        ensures
            r == bit_of(self@, 6),
    {
        get_bit(self.bits, 6)
    }

    /// Store/AMO access fault is delegated.
    pub fn store_fault(&self) -> (r: bool)
        ensures
            r == bit_of(self@, 7),
    {
        get_bit(self.bits, 7)
    }

    /// Environment call from U-mode is delegated.
    pub fn user_env_call(&self) -> (r: bool)
        ensures
            r == bit_of(self@, 8),
    {
        get_bit(self.bits, 8)
    }

    /// Environment call from S-mode is delegated.
    pub fn supervisor_env_call(&self) -> (r: bool)
        ensures
            r == bit_of(self@, 9),
    {
        get_bit(self.bits, 9)
    }

    /// Environment call from M-mode is delegated.
    pub fn machine_env_call(&self) -> (r: bool)
        ensures
            r == bit_of(self@, 11),
    {
        get_bit(self.bits, 11)
    }

    /// Instruction page fault is delegated.
    pub fn instruction_page_fault(&self) -> (r: bool)
        ensures
            r == bit_of(self@, 12),
    {
        get_bit(self.bits, 12)
    }

    /// Load page fault is delegated.
    pub fn load_page_fault(&self) -> (r: bool)
        ensures
            r == bit_of(self@, 13),
    {
        get_bit(self.bits, 13)
    }

    /// Store/AMO page fault is delegated.
    pub fn store_page_fault(&self) -> (r: bool)
        ensures
            r == bit_of(self@, 15),
    {
        get_bit(self.bits, 15)
    }
}

} // verus!
