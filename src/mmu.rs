//! The memory management unit: Sv32/Sv39 address translation in front of the bus.
use crate::bits::bit_of;
use crate::cpu::CpuStatus;
use crate::device::bus::{target_of, Bus, Target};
use crate::device::{Width, DRAM_SIZE};
use crate::page::{
    leaf_address, pte_ppn, vpn_offsets, walkable, PageTableEnty, VirtualAddress,
};
use crate::register::csrs::SATP;
use crate::register::satp::{mode_of_code, satp_mode_code, satp_ppn, Mode};
use crate::trap::Exception;
use crate::XLen;
use vstd::prelude::*;
use vstd::wrapping::u64_specs::wrapping_add;

verus! {

/// Page size (4 KiB).
pub const PAGE_SIZE: u64 = 4 * 1024;

/// The kind of memory access being translated.
#[derive(Clone, Copy, Debug, PartialEq, Eq, Structural)]
pub enum AccessType {
    Load,
    Store,
    Fetch,
}

/// The page fault that a failed translation of an access raises.
pub open spec fn page_fault(a: AccessType) -> Exception {
    match a {
        AccessType::Load => Exception::LoadPageFault,
        AccessType::Store => Exception::StorePageFault,
        AccessType::Fetch => Exception::InstructionPageFault,
    }
}

/// Whether a leaf entry grants an access: loads need R, stores W, fetches X.
pub open spec fn permits(pte: u64, a: AccessType) -> bool {
    match a {
        AccessType::Load => bit_of(pte, 1),
        AccessType::Store => bit_of(pte, 2),
        AccessType::Fetch => bit_of(pte, 3),
    }
}

/// The number of page-table levels of a walkable scheme.
pub open spec fn levels(mode: Mode) -> nat {
    if mode == Mode::Sv32 {
        2
    } else {
        3
    }
}

/// The walk from the table at `table`, at `level`: read the entry that the
/// virtual address selects; an invalid entry, or one writable but not readable,
/// faults; a readable or executable one is the leaf; any other points at the
/// table of the next level down, and there is none below level 0.
pub open spec fn walk(bus: Bus, mode: Mode, va: u64, table: u64, level: nat, a: AccessType) -> Result<
    u64,
    Exception,
>
    decreases level,
{
    match bus.read_spec(wrapping_add(table, vpn_offsets(va, mode)[level as int]), Width::Double) {
        Err(e) => Err(e),
        Ok(pte) => if !bit_of(pte, 0) || (!bit_of(pte, 1) && bit_of(pte, 2)) {
            Err(page_fault(a))
        } else if bit_of(pte, 1) || bit_of(pte, 3) {
            if permits(pte, a) {
                Ok(leaf_address(pte, mode, level, va))
            } else {
                Err(page_fault(a))
            }
        } else if level == 0 {
            Err(page_fault(a))
        } else {
            walk(bus, mode, va, pte_ppn(pte, mode) << 12, (level - 1) as nat, a)
        },
    }
}

/// The physical address an access of kind `a` to virtual address `va` reaches
/// under the satp contents `satp`: itself under Bare; the result of the walk from
/// the root table under Sv32 and Sv39; a page fault under any other scheme.
pub open spec fn translate_spec(bus: Bus, satp: u64, xlen: XLen, va: u64, a: AccessType) -> Result<
    u64,
    Exception,
> {
    match mode_of_code(satp_mode_code(satp, xlen)) {
        Some(Mode::Bare) => Ok(va),
        Some(m) => if walkable(m) {
            walk(bus, m, va, satp_ppn(satp, xlen) << 12, (levels(m) - 1) as nat, a)
        } else {
            Err(page_fault(a))
        },
        None => Err(page_fault(a)),
    }
}

/// The MMU and the bus behind it.
pub struct Mmu {
    /// The bus that physical addresses go to.
    pub bus: Bus,
    /// The register width, which selects the satp layout.
    pub xlen: XLen,
}

impl Mmu {
    /// The bus is well formed.
    pub open spec fn wf(&self) -> bool {
        self.bus.wf()
    }

    /// Where an access of kind `a` at `va` goes under the state's satp.
    pub open spec fn spec_translate(&self, state: CpuStatus, va: u64, a: AccessType) -> Result<
        u64,
        Exception,
    > {
        translate_spec(self.bus, state.csrs@[SATP as int], self.xlen, va, a)
    }

    /// What a load of width `w` at `va` returns.
    pub open spec fn load_spec(&self, state: CpuStatus, va: u64, w: Width) -> Result<u64, Exception> {
        match self.spec_translate(state, va, AccessType::Load) {
            Ok(p) => self.bus.read_spec(p, w),
            Err(e) => Err(e),
        }
    }

    /// How a load of width `w` at virtual address `va` takes `old` to `new`: a failed
    /// translation changes nothing; otherwise the bus load at the physical address
    /// decides.
    pub open spec fn loaded(old: Mmu, new: Mmu, state: CpuStatus, va: u64, w: Width) -> bool {
        &&& new.wf()
        &&& new.xlen == old.xlen
        &&& match old.spec_translate(state, va, AccessType::Load) {
            Ok(p) => Bus::loaded(old.bus, new.bus, p, w),
            Err(_) => new == old,
        }
        &&& w != Width::Byte ==> new == old
    }

    /// How a store of width `w` of `value` at virtual address `va` takes `old` to
    /// `new` with result `r`: a failed translation changes nothing and returns its
    /// fault; otherwise the bus write at the physical address decides.
    pub open spec fn stored(
        old: Mmu,
        new: Mmu,
        state: CpuStatus,
        va: u64,
        w: Width,
        value: u64,
        r: Result<(), Exception>,
    ) -> bool {
        &&& new.wf()
        &&& new.xlen == old.xlen
        &&& match old.spec_translate(state, va, AccessType::Store) {
            Ok(p) => {
                &&& r == (if old.bus.write_ok(p, w) {
                    Ok(())
                } else {
                    Err(Exception::StoreFault)
                })
                &&& Bus::written(old.bus, new.bus, p, w, value)
            },
            Err(e) => r == Err::<(), Exception>(e) && new == old,
        }
    }

    /// An MMU in front of a fresh bus whose DRAM holds `binary`.
    pub fn new(xlen: XLen, binary: Vec<u8>) -> (r: Mmu)
        requires
            binary@.len() <= DRAM_SIZE,
        ensures
            r.wf(),
            r.xlen == xlen,
            forall|i: int| 0 <= i < binary@.len() ==> #[trigger] r.bus.memory.data@[i] == binary@[i],
            forall|i: int|
                binary@.len() <= i < DRAM_SIZE ==> #[trigger] r.bus.memory.data@[i] == 0,
    {
        Mmu { bus: Bus::new(binary), xlen }
    }

    /// Loads `w` bytes from virtual address `addr`.
    pub fn load(&mut self, state: &CpuStatus, addr: u64, w: Width) -> (r: Result<u64, Exception>)
        requires
            old(self).wf(),
            state.wf(),
        ensures
            final(self).wf(),
            r == old(self).load_spec(*state, addr, w),
            Mmu::loaded(*old(self), *final(self), *state, addr, w),
    {
        let p = self.translate(state, addr, AccessType::Load)?;
        self.bus.load(p, w)
    }

    /// Stores the low `w` bytes of `value` at virtual address `addr`.
    pub fn store(&mut self, state: &CpuStatus, addr: u64, w: Width, value: u64) -> (r: Result<
        (),
        Exception,
    >)
        requires
            old(self).wf(),
            state.wf(),
        ensures
            final(self).wf(),
            final(self).xlen == old(self).xlen,
            Mmu::stored(*old(self), *final(self), *state, addr, w, value, r),
    {
        let p = self.translate(state, addr, AccessType::Store)?;
        self.bus.write(p, w, value)
    }

    /// Fetches the 32-bit instruction at virtual address `addr`.
    pub fn fetch(&self, state: &CpuStatus, addr: u64) -> (r: Result<u32, Exception>)
        requires
            self.wf(),
            state.wf(),
        ensures
            r == (match self.spec_translate(*state, addr, AccessType::Fetch) {
                Ok(p) => match self.bus.read_spec(p, Width::Word) {
                    Ok(v) => Ok(v as u32),
                    Err(e) => Err(e),
                },
                Err(e) => Err(e),
            }),
    {
        let p = self.translate(state, addr, AccessType::Fetch)?;
        let v = self.bus.read(p, Width::Word)?;
        Ok(v as u32)
    }

    /// Translates virtual address `addr` for an access of kind `a_type`.
    pub fn translate(&self, state: &CpuStatus, addr: u64, a_type: AccessType) -> (r: Result<
        u64,
        Exception,
    >)
        requires
            self.wf(),
            state.wf(),
        ensures
            r == self.spec_translate(*state, addr, a_type),
    {
        let satp = state.csrs.satp();
        let mode = match satp.mode(&self.xlen) {
            Some(m) => m,
            None => return Err(fault_of(a_type)),
        };
        if mode == Mode::Bare {
            return Ok(addr);
        }
        if mode != Mode::Sv32 && mode != Mode::Sv39 {
            return Err(fault_of(a_type));
        }
        let exception = fault_of(a_type);
        let mut page_table_addr = satp.ppn(&self.xlen) << 12;
        let v_addr = VirtualAddress(addr);
        let vpos = v_addr.virtual_page_offsets(&mode);
        let mut idx: usize = vpos.len() - 1;
        let ghost top = page_table_addr;
        loop
            invariant
                self.wf(),
                state.wf(),
                v_addr.0 == addr,
                walkable(mode),
                vpos@ == vpn_offsets(addr, mode),
                idx < vpos@.len(),
                vpos@.len() == levels(mode),
                exception == page_fault(a_type),
                translate_spec(self.bus, state.csrs@[SATP as int], self.xlen, addr, a_type) == walk(
                    self.bus,
                    mode,
                    addr,
                    page_table_addr,
                    idx as nat,
                    a_type,
                ),
            decreases idx,
        {
            let pte = PageTableEnty(
                self.bus.read(page_table_addr.wrapping_add(vpos[idx]), Width::Double)?,
            );
            if !pte.v() || (!pte.r() && pte.w()) {
                return Err(exception);
            }
            if pte.r() || pte.x() {
                let ok = match a_type {
                    AccessType::Load => pte.r(),
                    AccessType::Store => pte.w(),
                    AccessType::Fetch => pte.x(),
                };
                if !ok {
                    return Err(exception);
                }
                return Ok(physical_address(&pte, &mode, idx, &v_addr, &vpos));
            }
            if idx == 0 {
                return Err(exception);
            }
            idx = idx - 1;
            page_table_addr = pte.ppn(&mode) << 12;
        }
    }
}

/// The page fault for an access kind.
fn fault_of(a: AccessType) -> (r: Exception)
    ensures
        r == page_fault(a),
{
    match a {
        AccessType::Load => Exception::LoadPageFault,
        AccessType::Store => Exception::StorePageFault,
        AccessType::Fetch => Exception::InstructionPageFault,
    }
}

/// Composes the physical address from a leaf entry found at `level`.
fn physical_address(
    pte: &PageTableEnty,
    mode: &Mode,
    level: usize,
    va: &VirtualAddress,
    vpos: &Vec<u64>,
) -> (r: u64)
    requires
        walkable(*mode),
        level < levels(*mode),
        vpos@ == vpn_offsets(va.0, *mode),
    ensures
        r == leaf_address(pte.0, *mode, level as nat, va.0),
{
    let offset = va.offset();
    let ppns = pte.ppns(mode);
    if level == 0 {
        (pte.ppn(mode) << 12) | offset
    } else if level == 1 {
        if *mode == Mode::Sv32 {
            (ppns[1] << 22) | (vpos[0] << 9) | offset
        } else {
            (ppns[2] << 30) | (ppns[1] << 21) | (vpos[0] << 9) | offset
        }
    } else {
        (ppns[2] << 30) | (vpos[1] << 18) | (vpos[0] << 9) | offset
    }
}

/// Under the Bare scheme translation is the identity, for every access kind.
pub proof fn lemma_bare_is_identity(bus: Bus, satp: u64, xlen: XLen, va: u64, a: AccessType)
    requires
        mode_of_code(satp_mode_code(satp, xlen)) == Some(Mode::Bare),
    ensures
        translate_spec(bus, satp, xlen, va, a) == Ok::<u64, Exception>(va),
{
}

/// Two walks that both succeed reach the same physical address, whatever the
/// access kinds: permissions decide only whether a walk succeeds.
proof fn lemma_walks_agree(bus: Bus, mode: Mode, va: u64, table: u64, level: nat, a1: AccessType, a2: AccessType)
    requires
        walk(bus, mode, va, table, level, a1) is Ok,
        walk(bus, mode, va, table, level, a2) is Ok,
    ensures
        walk(bus, mode, va, table, level, a1) == walk(bus, mode, va, table, level, a2),
    decreases level,
{
    let pte_res = bus.read_spec(wrapping_add(table, vpn_offsets(va, mode)[level as int]), Width::Double);
    if let Ok(pte) = pte_res {
        if !(bit_of(pte, 1) || bit_of(pte, 3)) && level > 0 {
            lemma_walks_agree(bus, mode, va, pte_ppn(pte, mode) << 12, (level - 1) as nat, a1, a2);
        }
    }
}

/// Loading a width from a virtual address and storing the value loaded back to
/// the same address, where the store is allowed and reaches DRAM, leaves memory
/// byte for byte as it was.
pub proof fn lemma_mmu_load_store_round_trip(
    m: Mmu,
    s: CpuStatus,
    va: u64,
    w: Width,
    new: Mmu,
    r: Result<(), Exception>,
)
    requires
        m.wf(),
        m.load_spec(s, va, w) is Ok,
        m.spec_translate(s, va, AccessType::Store) is Ok,
        target_of(m.spec_translate(s, va, AccessType::Store)->Ok_0) == Target::Dram,
        Mmu::stored(m, new, s, va, w, m.load_spec(s, va, w)->Ok_0, r),
    ensures
        r is Ok,
        new.bus.memory.data@ == m.bus.memory.data@,
{
    let satp = s.csrs@[SATP as int];
    match mode_of_code(satp_mode_code(satp, m.xlen)) {
        Some(md) => if walkable(md) {
            lemma_walks_agree(
                m.bus,
                md,
                va,
                satp_ppn(satp, m.xlen) << 12,
                (levels(md) - 1) as nat,
                AccessType::Load,
                AccessType::Store,
            );
        },
        None => {},
    }
    let p = m.spec_translate(s, va, AccessType::Store)->Ok_0;
    crate::device::bus::lemma_bus_load_store_round_trip(m.bus, p, w);
}

} // verus!
