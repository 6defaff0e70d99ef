//! The supervisor address translation and protection register (satp).
use crate::bits::{bit_of, field_of, get_bit, get_bits};
use crate::XLen;
use crate::RegT;
use vstd::prelude::*;

verus! {

/// An address-translation scheme.
#[derive(Clone, Copy, Debug, PartialEq, Eq, Structural)]
pub enum Mode {
    /// No translation or protection.
    Bare,
    /// Page-based 32-bit virtual addressing.
    Sv32,
    /// Page-based 39-bit virtual addressing.
    Sv39,
    /// Page-based 48-bit virtual addressing.
    Sv48,
    /// Page-based 57-bit virtual addressing.
    Sv57,
    /// Page-based 64-bit virtual addressing.
    Sv64,
}

/// The scheme that a MODE field value selects, if it names one.
pub open spec fn mode_of_code(code: u64) -> Option<Mode> {
    if code == 0 {
        Some(Mode::Bare)
    } else if code == 1 {
        Some(Mode::Sv32)
    } else if code == 8 {
        Some(Mode::Sv39)
    } else if code == 9 {
        Some(Mode::Sv48)
    } else if code == 10 {
        Some(Mode::Sv57)
    } else if code == 11 {
        Some(Mode::Sv64)
    } else {
        None
    }
}

/// The MODE field of raw satp contents: bit 31 on XLEN=32, bits 60..64 on XLEN=64.
pub open spec fn satp_mode_code(bits: u64, xlen: XLen) -> u64 {
    match xlen {
        XLen::X32 => if bit_of(bits, 31) { 1 } else { 0 },
        XLen::X64 => field_of(bits, 60, 64),
    }
}

/// The root page-table PPN of raw satp contents.
pub open spec fn satp_ppn(bits: u64, xlen: XLen) -> u64 {
    match xlen {
        XLen::X32 => field_of(bits, 0, 22),
        XLen::X64 => field_of(bits, 0, 44),
    }
}

/// The supervisor address translation and protection register (satp).
#[derive(Clone, Copy, Debug)]
pub struct Satp {
    bits: RegT,
}

impl View for Satp {
    type V = RegT;

    closed spec fn view(&self) -> RegT {
        self.bits
    }
}

impl From<RegT> for Satp {
    fn from(r: RegT) -> (s: Satp)
        ensures
            s@ == r,
    {
        Satp { bits: r }
    }
}

impl vstd::std_specs::convert::FromSpecImpl<RegT> for Satp {
    closed spec fn obeys_from_spec() -> bool {
        true
    }

    closed spec fn from_spec(r: RegT) -> Satp {
        Satp { bits: r }
    }
}

impl Satp {
    /// The contents of the register as raw bits.
    pub fn bits(&self) -> (r: RegT)
        ensures
            r == self@,
    {
        self.bits
    }

    /// The current address-translation scheme, or `None` where the MODE field
    /// holds a reserved encoding.
    pub fn mode(&self, xlen: &XLen) -> (r: Option<Mode>)
        ensures
            r == mode_of_code(satp_mode_code(self@, *xlen)),
    {
        let code: u64 = match xlen {
            XLen::X32 => if get_bit(self.bits, 31) { 1 } else { 0 },
            XLen::X64 => get_bits(self.bits, 60, 64),
        };
        if code == 0 {
            Some(Mode::Bare)
        } else if code == 1 {
            Some(Mode::Sv32)
        } else if code == 8 {
            Some(Mode::Sv39)
        } else if code == 9 {
            Some(Mode::Sv48)
        } else if code == 10 {
            Some(Mode::Sv57)
        } else if code == 11 {
            Some(Mode::Sv64)
        } else {
            None
        }
    }

    /// The address space identifier.
    pub fn asid(&self, xlen: &XLen) -> (r: u64)
        ensures
            r == (match *xlen {
                XLen::X32 => field_of(self@, 22, 31),
                XLen::X64 => field_of(self@, 44, 60),
            }),
    {
        match xlen {
            XLen::X32 => get_bits(self.bits, 22, 31),
            XLen::X64 => get_bits(self.bits, 44, 60),
        }
    }

    /// The physical page number of the root page table.
    pub fn ppn(&self, xlen: &XLen) -> (r: u64)
        ensures
            r == satp_ppn(self@, *xlen),
    {
        match xlen {
            XLen::X32 => get_bits(self.bits, 0, 22),
            XLen::X64 => get_bits(self.bits, 0, 44),
        }
    }
}

} // verus!
