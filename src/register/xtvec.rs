//! A trap-vector base-address register (mtvec or stvec).
use crate::bits::{};
use crate::RegT;
use vstd::prelude::*;
use vstd::wrapping::u64_specs::{wrapping_add, wrapping_mul};

verus! {

/// How a trap picks its entry point.
#[derive(Clone, Copy, Debug, PartialEq, Eq, Structural)]
pub enum TrapMode {
    /// Every trap enters at the base address.
    Direct,
    /// Interrupts enter at the base address plus four times their cause.
    Vectored,
}

/// The entry point of a trap: `base`, plus `4 * cause` (wrapping) for an interrupt
/// in vectored mode.
pub open spec fn spec_trap_pc(mode: TrapMode, base: RegT, cause: RegT, is_interrupt: bool) -> RegT {
    if is_interrupt && mode == TrapMode::Vectored {
        wrapping_add(base, wrapping_mul(cause, 4))
    } else {
        base
    }
}

impl TrapMode {
    /// The entry point of a trap with this mode.
    pub fn trap_pc(&self, base: RegT, cause: RegT, is_interrupt: bool) -> (r: RegT)
        ensures
            r == spec_trap_pc(*self, base, cause, is_interrupt),
    {
        if is_interrupt && *self == TrapMode::Vectored {
            base.wrapping_add(cause.wrapping_mul(4))
        } else {
            base
        }
    }
}

/// A trap-vector base-address register (mtvec or stvec).
#[derive(Clone, Copy, Debug)]
pub struct Xtvec {
    bits: RegT,
}

impl View for Xtvec {
    type V = RegT;

    closed spec fn view(&self) -> RegT {
        self.bits
    }
}

impl From<RegT> for Xtvec {
    fn from(r: RegT) -> (s: Xtvec)
        ensures
            s@ == r,
    {
        Xtvec { bits: r }
    }
}

impl vstd::std_specs::convert::FromSpecImpl<RegT> for Xtvec {
    closed spec fn obeys_from_spec() -> bool {
        true
    }

    closed spec fn from_spec(r: RegT) -> Xtvec {
        Xtvec { bits: r }
    }
}

impl Xtvec {
    /// The trap mode that the low two bits select: 0 is Direct, any other value
    /// Vectored.
    pub open spec fn spec_trap_mode(&self) -> TrapMode {
        if self@ & 3 == 0 {
            TrapMode::Direct
        } else {
            TrapMode::Vectored
        }
    }

    /// The contents of the register as raw bits.
    pub fn bits(&self) -> (r: RegT)
        ensures
            r == self@,
    {
        self.bits
    }

    /// The trap-vector base address: the register with its low two bits cleared.
    pub fn address(&self) -> (r: RegT)
        ensures
            r == self@ & !3u64,
    {
        let b = self.bits;
        proof {
            assert(b - (b & 3) == b & !3u64 && b & 3 <= b) by (bit_vector);
        }
        b - (b & 0b11)
    }

    /// The trap-vector mode.
    pub fn trap_mode(&self) -> (r: TrapMode)
        ensures
            r == self.spec_trap_mode(),
    {
        let mode = self.bits & 0b11;
        if mode == 0 {
            TrapMode::Direct
        } else {
            TrapMode::Vectored
        }
    }
}

} // verus!
