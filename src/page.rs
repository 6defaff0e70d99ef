//! Page-table entries and virtual addresses under Sv32 and Sv39.
use crate::bits::{bit_of, field_of, get_bit, get_bits};
use crate::register::satp::Mode;
use vstd::prelude::*;

verus! {

/// Whether a translation scheme has a page-table walk here.
pub open spec fn walkable(mode: Mode) -> bool {
    mode == Mode::Sv32 || mode == Mode::Sv39
}

/// A page-table entry.
#[derive(Clone, Copy, Debug)]
pub struct PageTableEnty(pub u64);

/// The PPN of an entry: bits 10.. under Sv32, bits 10..54 under Sv39.
pub open spec fn pte_ppn(pte: u64, mode: Mode) -> u64 {
    if mode == Mode::Sv32 {
        field_of(pte, 10, 64)
    } else {
        field_of(pte, 10, 54)
    }
}

/// The PPN parts of an entry: under Sv32 bits 10..20 and 20..32, under Sv39
/// bits 10..19, 19..28 and 28..54.
pub open spec fn pte_ppns(pte: u64, mode: Mode) -> Seq<u64> {
    if mode == Mode::Sv32 {
        seq![field_of(pte, 10, 20), field_of(pte, 20, 32)]
    } else {
        seq![field_of(pte, 10, 19), field_of(pte, 19, 28), field_of(pte, 28, 54)]
    }
}

/// The byte offsets of the entries that a virtual address selects in the page
/// table of each level: the VPN parts shifted left by 2 (Sv32) or 3 (Sv39).
pub open spec fn vpn_offsets(va: u64, mode: Mode) -> Seq<u64> {
    if mode == Mode::Sv32 {
        seq![field_of(va, 12, 21) << 2, field_of(va, 22, 31) << 2]
    } else {
        seq![field_of(va, 12, 21) << 3, field_of(va, 21, 30) << 3, field_of(va, 30, 39) << 3]
    }
}

/// The physical address that a leaf entry found at `level` gives a virtual
/// address: a 4 KiB page at level 0, a megapage (Sv32) or 2 MiB page (Sv39) at
/// level 1, and a 1 GiB page (Sv39) at level 2.
pub open spec fn leaf_address(pte: u64, mode: Mode, level: nat, va: u64) -> u64 {
    let vpos = vpn_offsets(va, mode);
    let ppns = pte_ppns(pte, mode);
    let offset = field_of(va, 0, 12);
    if level == 0 {
        (pte_ppn(pte, mode) << 12) | offset
    } else if level == 1 {
        if mode == Mode::Sv32 {
            (ppns[1] << 22) | (vpos[0] << 9) | offset
        } else {
            (ppns[2] << 30) | (ppns[1] << 21) | (vpos[0] << 9) | offset
        }
    } else {
        (ppns[2] << 30) | (vpos[1] << 18) | (vpos[0] << 9) | offset
    }
}

impl PageTableEnty {
    /// The physical page number; for a branch entry, that of the next table.
    pub fn ppn(&self, mode: &Mode) -> (r: u64)
        requires
            walkable(*mode),
        ensures
            r == pte_ppn(self.0, *mode),
    {
        match mode {
            Mode::Sv32 => get_bits(self.0, 10, 64),
            _ => get_bits(self.0, 10, 54),
        }
    }

    /// The parts of the physical page number, lowest first.
    pub fn ppns(&self, mode: &Mode) -> (r: Vec<u64>)
        requires
            walkable(*mode),
        ensures
            r@ == pte_ppns(self.0, *mode),
    {
        let r = match mode {
            Mode::Sv32 => vec![get_bits(self.0, 10, 20), get_bits(self.0, 20, 32)],
            _ => vec![get_bits(self.0, 10, 19), get_bits(self.0, 19, 28), get_bits(self.0, 28, 54)],
        };
        assert(r@ =~= pte_ppns(self.0, *mode));
        r
    }

    /// Valid: the rest of the entry means something.
    pub fn v(&self) -> (r: bool)
        ensures
            r == bit_of(self.0, 0),
    {
        get_bit(self.0, 0)
    }

    /// Readable.
    pub fn r(&self) -> (r: bool)
        ensures
            r == bit_of(self.0, 1),
    {
        get_bit(self.0, 1)
    }

    /// Writable.
    pub fn w(&self) -> (r: bool)
        ensures
            r == bit_of(self.0, 2),
    {
        get_bit(self.0, 2)
    }

    /// Executable.
    pub fn x(&self) -> (r: bool)
        ensures
            r == bit_of(self.0, 3),
    {
        get_bit(self.0, 3)
    }

    /// User: the page is accessible to user mode.
    pub fn u(&self) -> (r: bool)
        ensures
            r == bit_of(self.0, 4),
    {
        get_bit(self.0, 4)
    }

    /// Global: the mapping exists in every address space.
    pub fn g(&self) -> (r: bool)
        ensures
            r == bit_of(self.0, 5),
    {
        get_bit(self.0, 5)
    }

    /// Accessed since the bit was last cleared.
    pub fn a(&self) -> (r: bool)
        ensures
            r == bit_of(self.0, 6),
    {
        get_bit(self.0, 6)
    }

    /// Dirty: written since the bit was last cleared.
    pub fn d(&self) -> (r: bool)
        ensures
            r == bit_of(self.0, 7),
    {
        get_bit(self.0, 7)
    }
}

/// A virtual address.
#[derive(Clone, Copy, Debug)]
pub struct VirtualAddress(pub u64);

impl VirtualAddress {
    /// The byte offset of the selected entry in the page table of each level,
    /// lowest level first.
    pub fn virtual_page_offsets(&self, mode: &Mode) -> (r: Vec<u64>)
        requires
            walkable(*mode),
        ensures
            r@ == vpn_offsets(self.0, *mode),
    {
        let r = match mode {
            Mode::Sv32 => vec![get_bits(self.0, 12, 21) << 2, get_bits(self.0, 22, 31) << 2],
            _ => vec![
                get_bits(self.0, 12, 21) << 3,
                get_bits(self.0, 21, 30) << 3,
                get_bits(self.0, 30, 39) << 3,
            ],
        };
        assert(r@ =~= vpn_offsets(self.0, *mode));
        r
    }

    /// The offset inside the page: bits 0..12.
    pub fn offset(&self) -> (r: u64)
        ensures
            r == field_of(self.0, 0, 12),
    {
        get_bits(self.0, 0, 12)
    }
}

} // verus!
