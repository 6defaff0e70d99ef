//! A RISC-V hart simulator core: registers and CSRs, trap delivery, an Sv32/Sv39
//! MMU over a memory-mapped device bus, and an RV64IMA instruction interpreter.
use vstd::prelude::*;

pub mod bits;
pub mod cpu;
pub mod device;
pub mod isa;
pub mod mmu;
pub mod page;
pub mod register;
pub mod trap;

verus! {

/// The raw contents of an integer register or CSR.
pub type RegT = u64;

/// A register value read as a two's-complement signed integer.
pub type SRegT = i64;

/// The privilege level a hart executes at.
#[derive(Debug, PartialEq, Eq, Clone, Copy, Structural)]
pub enum PrivilegeMode {
    User,
    Supervisor,
    Machine,
}

/// The native register width.
#[derive(Debug, PartialEq, Eq, Clone, Copy, Structural)]
pub enum XLen {
    X32,
    X64,
}

impl XLen {
    /// Width in bits.
    pub open spec fn bit_len(&self) -> nat {
        match self {
            XLen::X32 => 32,
            XLen::X64 => 64,
        }
    }

    /// The mask that keeps the low `bit_len` bits of a 64-bit value.
    pub open spec fn spec_mask(&self) -> u64 {
        match self {
            XLen::X32 => 0xffff_ffffu64,
            XLen::X64 => 0xffff_ffff_ffff_ffffu64,
        }
    }

    /// Width in bits.
    pub fn len(&self) -> (r: usize)
        ensures
            r == self.bit_len(),
    {
        match self {
            XLen::X32 => 32,
            XLen::X64 => 64,
        }
    }

    /// Width in bytes.
    pub fn size(&self) -> (r: usize)
        ensures
            r == self.bit_len() / 8,
    {
        match self {
            XLen::X32 => 4,
            XLen::X64 => 8,
        }
    }

    /// The mask applied to every result written to an integer register.
    pub fn mask(&self) -> (r: RegT)
        ensures
            r == self.spec_mask(),
    {
        match self {
            XLen::X32 => 0xffff_ffff,
            XLen::X64 => 0xffff_ffff_ffff_ffff,
        }
    }
}

} // verus!

verus! {

impl PrivilegeMode {
    /// The two-bit encoding of a privilege mode in `mstatus.MPP`.
    pub open spec fn mpp_code(&self) -> u64 {
        match self {
            PrivilegeMode::User => 0,
            PrivilegeMode::Supervisor => 1,
            PrivilegeMode::Machine => 3,
        }
    }

    /// The privilege mode that an `mstatus.MPP` field reads as.
    pub open spec fn from_mpp_code(code: u64) -> PrivilegeMode {
        if code == 0 {
            PrivilegeMode::User
        } else if code == 1 {
            PrivilegeMode::Supervisor
        } else {
            PrivilegeMode::Machine
        }
    }
}

} // verus!
