//! Trap causes: synchronous exceptions and asynchronous interrupts.
use crate::RegT;
use vstd::prelude::*;

verus! {

/// A trap: the single channel through which exceptions and interrupts reach the
/// trap engine.
#[derive(Debug, PartialEq, Eq, Clone, Copy, Structural)]
pub enum Trap {
    Interrupt(Interrupt),
    Exception(Exception),
}

/// An asynchronous interrupt.
#[derive(Debug, PartialEq, Eq, Clone, Copy, Structural)]
pub enum Interrupt {
    UserSoft,
    SupervisorSoft,
    MachineSoft,
    UserTimer,
    SupervisorTimer,
    MachineTimer,
    UserExternal,
    SupervisorExternal,
    MachineExternal,
    Unknown,
}

/// A synchronous exception.
#[derive(Debug, PartialEq, Eq, Clone, Copy, Structural)]
pub enum Exception {
    InstructionMisaligned,
    InstructionFault,
    IllegalInstruction,
    Breakpoint,
    LoadMisaligned,
    LoadFault,
    StoreMisaligned,
    StoreFault,
    UserEnvCall,
    SupervisorEnvCall,
    MachineEnvCall,
    InstructionPageFault,
    LoadPageFault,
    StorePageFault,
    Unknown,
}

impl From<Exception> for Trap {
    fn from(e: Exception) -> (r: Trap)
        ensures
            r == Trap::Exception(e),
    {
        Trap::Exception(e)
    }
}

impl vstd::std_specs::convert::FromSpecImpl<Exception> for Trap {
    open spec fn obeys_from_spec() -> bool {
        true
    }

    open spec fn from_spec(e: Exception) -> Trap {
        Trap::Exception(e)
    }
}

impl From<Interrupt> for Trap {
    fn from(i: Interrupt) -> (r: Trap)
        ensures
            r == Trap::Interrupt(i),
    {
        Trap::Interrupt(i)
    }
}

impl vstd::std_specs::convert::FromSpecImpl<Interrupt> for Trap {
    open spec fn obeys_from_spec() -> bool {
        true
    }

    open spec fn from_spec(i: Interrupt) -> Trap {
        Trap::Interrupt(i)
    }
}

impl Interrupt {
    /// The cause code of the interrupt, without the interrupt flag bit.
    pub open spec fn spec_code(&self) -> RegT {
        match self {
            Interrupt::UserSoft => 0,
            Interrupt::SupervisorSoft => 1,
            Interrupt::MachineSoft => 3,
            Interrupt::UserTimer => 4,
            Interrupt::SupervisorTimer => 5,
            Interrupt::MachineTimer => 7,
            Interrupt::UserExternal => 8,
            Interrupt::SupervisorExternal => 9,
            Interrupt::MachineExternal => 11,
            Interrupt::Unknown => 9999,
        }
    }

    /// The cause code of the interrupt, without the interrupt flag bit.
    pub fn code(&self) -> (r: RegT)
        ensures
            r == self.spec_code(),
    {
        match self {
            Interrupt::UserSoft => 0,
            Interrupt::SupervisorSoft => 1,
            Interrupt::MachineSoft => 3,
            Interrupt::UserTimer => 4,
            Interrupt::SupervisorTimer => 5,
            Interrupt::MachineTimer => 7,
            Interrupt::UserExternal => 8,
            Interrupt::SupervisorExternal => 9,
            Interrupt::MachineExternal => 11,
            Interrupt::Unknown => 9999,
        }
    }
}

impl Exception {
    /// The cause code of the exception.
    pub open spec fn spec_code(&self) -> RegT {
        match self {
            Exception::InstructionMisaligned => 0,
            Exception::InstructionFault => 1,
            Exception::IllegalInstruction => 2,
            Exception::Breakpoint => 3,
            Exception::LoadMisaligned => 4,
            Exception::LoadFault => 5,
            Exception::StoreMisaligned => 6,
            Exception::StoreFault => 7,
            Exception::UserEnvCall => 8,
            Exception::SupervisorEnvCall => 9,
            Exception::MachineEnvCall => 11,
            Exception::InstructionPageFault => 12,
            Exception::LoadPageFault => 13,
            Exception::StorePageFault => 15,
            Exception::Unknown => 8888,
        }
    }

    /// The exceptions that stop the simulator instead of being delivered.
    pub open spec fn spec_is_fatal(&self) -> bool {
        match self {
            Exception::InstructionFault
            | Exception::IllegalInstruction
            | Exception::InstructionMisaligned
            | Exception::LoadFault
            | Exception::StorePageFault
            | Exception::StoreMisaligned => true,
            _ => false,
        }
    }

    /// The cause code of the exception.
    pub fn code(&self) -> (r: RegT)
        ensures
            r == self.spec_code(),
    {
        match self {
            Exception::InstructionMisaligned => 0,
            Exception::InstructionFault => 1,
            Exception::IllegalInstruction => 2,
            Exception::Breakpoint => 3,
            Exception::LoadMisaligned => 4,
            Exception::LoadFault => 5,
            Exception::StoreMisaligned => 6,
            Exception::StoreFault => 7,
            Exception::UserEnvCall => 8,
            Exception::SupervisorEnvCall => 9,
            Exception::MachineEnvCall => 11,
            Exception::InstructionPageFault => 12,
            Exception::LoadPageFault => 13,
            Exception::StorePageFault => 15,
            Exception::Unknown => 8888,
        }
    }

    /// Whether the simulator stops on this exception rather than delivering it.
    pub fn is_fatal(&self) -> (r: bool)
        ensures
            r == self.spec_is_fatal(),
    {
        match self {
            Exception::InstructionFault
            | Exception::IllegalInstruction
            | Exception::InstructionMisaligned
            | Exception::LoadFault
            | Exception::StorePageFault
            | Exception::StoreMisaligned => true,
            _ => false,
        }
    }
}

} // verus!
