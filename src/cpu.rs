//! The hart: architectural state, the trap engine, and the step driver.
use crate::bits::{bit_of, with_bit, with_field};
use crate::device::plic::Plic;
use crate::device::uart::UART_IRQ;
use crate::device::{Width, DRAM_BASE, DRAM_SIZE};
use crate::isa::cache::InsnDecoderWithLru;
use crate::isa::decode::{spec_decode, Insn, InsnDecoder};
use crate::isa::exec::executed;
use crate::mmu::{AccessType, Mmu};
use crate::register::csrs::{
    Csrs, MCAUSE, MEDELEG, MEPC, MIDELEG, MIE, MIP, MSTATUS, MTVAL, MTVEC, SCAUSE, SEPC, SSTATUS,
    STVAL, STVEC, TIME,
};
use crate::register::xs::Xs;
use crate::register::xtvec::{spec_trap_pc, TrapMode};
use crate::trap::{Exception, Interrupt, Trap};
use crate::{PrivilegeMode, RegT, XLen};
use vstd::prelude::*;
use vstd::wrapping::u64_specs::wrapping_add;

verus! {

/// The architectural state of a hart.
pub struct CpuStatus {
    /// The current privilege level.
    pub privilege: PrivilegeMode,
    /// The integer registers.
    pub xs: Xs,
    /// The control and status registers.
    pub csrs: Csrs,
    /// The program counter.
    pub pc: RegT,
}

impl CpuStatus {
    /// The register file and the CSR bank have their fixed sizes.
    pub open spec fn wf(&self) -> bool {
        self.xs.wf() && self.csrs.wf()
    }

    /// Machine mode, every register and CSR zero, and the PC at `start_address`.
    pub fn new(start_address: u64) -> (r: CpuStatus)
        ensures
            r.wf(),
            r.privilege == PrivilegeMode::Machine,
            r.pc == start_address,
            forall|i: int| 0 <= i < 32 ==> #[trigger] r.xs@[i] == 0,
            forall|i: int| 0 <= i < 4096 ==> #[trigger] r.csrs@[i] == 0,
    {
        CpuStatus {
            privilege: PrivilegeMode::Machine,
            xs: Xs::new(),
            csrs: Csrs::new(),
            pc: start_address,
        }
    }

    /// Points the stack pointer (x2) at the end of DRAM and enters machine mode.
    pub fn reset(&mut self)
        requires
            old(self).wf(),
        ensures
            final(self).wf(),
            final(self).privilege == PrivilegeMode::Machine,
            final(self).xs@ == old(self).xs@.update(2, (DRAM_BASE + DRAM_SIZE) as u64),
            final(self).csrs == old(self).csrs,
            final(self).pc == old(self).pc,
    {
        self.xs.set_reg(2, DRAM_BASE + DRAM_SIZE);
        self.privilege = PrivilegeMode::Machine;
    }

    /// Sets the program counter.
    pub fn update_pc(&mut self, value: RegT)
        ensures
            final(self).pc == value,
            final(self).privilege == old(self).privilege,
            final(self).xs == old(self).xs,
            final(self).csrs == old(self).csrs,
    {
        self.pc = value;
    }
}

/// Whether bit `code` of a delegation register sends a trap to supervisor mode;
/// codes past the register's width are never delegated.
pub open spec fn delegated(deleg: RegT, code: RegT) -> bool {
    code < 64 && bit_of(deleg, code)
}

/// Whether a trap is an interrupt.
pub open spec fn is_interrupt(t: Trap) -> bool {
    t is Interrupt
}

/// The cause code of a trap, without the interrupt flag.
pub open spec fn trap_code(t: Trap) -> RegT {
    match t {
        Trap::Interrupt(i) => i.spec_code(),
        Trap::Exception(e) => e.spec_code(),
    }
}

/// The value written to `xcause`: the code, with the top bit of an XLEN-wide word
/// set for an interrupt.
pub open spec fn trap_cause(t: Trap, xlen: XLen) -> RegT {
    if is_interrupt(t) {
        (1u64 << (xlen.bit_len() - 1) as u64) | trap_code(t)
    } else {
        trap_code(t)
    }
}

/// The privilege level a trap is delivered to: supervisor when the hart is not in
/// machine mode and the delegation register (`mideleg` for interrupts, `medeleg`
/// for exceptions) has the trap's bit set; machine otherwise.
pub open spec fn trap_target(s: CpuStatus, t: Trap) -> PrivilegeMode {
    let deleg = if is_interrupt(t) {
        s.csrs@[MIDELEG as int]
    } else {
        s.csrs@[MEDELEG as int]
    };
    if s.privilege != PrivilegeMode::Machine && delegated(deleg, trap_code(t)) {
        PrivilegeMode::Supervisor
    } else {
        PrivilegeMode::Machine
    }
}

/// The trap mode that the low two bits of a trap-vector register select.
pub open spec fn tvec_mode(tvec: RegT) -> TrapMode {
    if tvec & 3 == 0 {
        TrapMode::Direct
    } else {
        TrapMode::Vectored
    }
}

/// `sstatus` on trap entry: SPIE takes SIE, SIE is cleared, SPP records whether
/// the trap came from above user mode.
pub open spec fn sstatus_on_trap(ss: RegT, from: PrivilegeMode) -> RegT {
    with_bit(with_bit(with_bit(ss, 5, bit_of(ss, 1)), 1, false), 8, from != PrivilegeMode::User)
}

/// `mstatus` on trap entry: MPIE takes MIE, MIE is cleared, MPP records the
/// privilege the trap came from.
pub open spec fn mstatus_on_trap(ms: RegT, from: PrivilegeMode) -> RegT {
    with_field(with_bit(with_bit(ms, 7, bit_of(ms, 3)), 3, false), 11, 13, from.mpp_code())
}

/// How delivering trap `t` takes the hart from `old` to `new`.
pub open spec fn trapped(old: CpuStatus, new: CpuStatus, t: Trap, xlen: XLen) -> bool {
    let cause = trap_cause(t, xlen);
    let c = old.csrs@;
    &&& new.wf()
    &&& new.xs == old.xs
    &&& new.privilege == trap_target(old, t)
    &&& if trap_target(old, t) == PrivilegeMode::Supervisor {
        let tvec = c[STVEC as int];
        &&& new.csrs@ == c.update(SEPC as int, old.pc).update(SCAUSE as int, cause).update(
            STVAL as int,
            0,
        ).update(SSTATUS as int, sstatus_on_trap(c[SSTATUS as int], old.privilege))
        &&& new.pc == spec_trap_pc(tvec_mode(tvec), tvec & !3u64, trap_code(t), is_interrupt(t))
    } else {
        let tvec = c[MTVEC as int];
        &&& new.csrs@ == c.update(MEPC as int, old.pc).update(MCAUSE as int, cause).update(
            MTVAL as int,
            0,
        ).update(MSTATUS as int, mstatus_on_trap(c[MSTATUS as int], old.privilege))
        &&& new.pc == spec_trap_pc(tvec_mode(tvec), tvec & !3u64, trap_code(t), is_interrupt(t))
    }
}

/// Whether interrupts are considered at the current privilege: SIE gates
/// supervisor mode, MIE machine mode, and user mode always considers them.
pub open spec fn interrupts_enabled(s: CpuStatus) -> bool {
    match s.privilege {
        PrivilegeMode::Supervisor => bit_of(s.csrs@[SSTATUS as int], 1),
        PrivilegeMode::Machine => bit_of(s.csrs@[MSTATUS as int], 3),
        PrivilegeMode::User => true,
    }
}

/// The interrupt taken from the pending-and-enabled set, highest priority first:
/// machine external, machine software, machine timer, supervisor external,
/// supervisor software, supervisor timer.
pub open spec fn pick_interrupt(pending: RegT) -> Option<Interrupt> {
    if bit_of(pending, 11) {
        Some(Interrupt::MachineExternal)
    } else if bit_of(pending, 3) {
        Some(Interrupt::MachineSoft)
    } else if bit_of(pending, 7) {
        Some(Interrupt::MachineTimer)
    } else if bit_of(pending, 9) {
        Some(Interrupt::SupervisorExternal)
    } else if bit_of(pending, 1) {
        Some(Interrupt::SupervisorSoft)
    } else if bit_of(pending, 5) {
        Some(Interrupt::SupervisorTimer)
    } else {
        None
    }
}

/// `mip` after folding in the UART's interrupt: SEXT is raised when the UART flag
/// was set.
pub open spec fn mip_with_external(mip: RegT, uart_flag: bool) -> RegT {
    if uart_flag {
        with_bit(mip, 9, true)
    } else {
        mip
    }
}

/// `mip` after taking interrupt `r`: its pending bit is cleared.
pub open spec fn mip_after_take(mip: RegT, r: Option<Interrupt>) -> RegT {
    match r {
        Some(i) => with_bit(mip, i.spec_code(), false),
        None => mip,
    }
}

/// The instruction-level result that a step result carries: an exception trap
/// becomes that exception.
pub open spec fn from_exception(r: Result<(), Trap>) -> Result<(), Exception> {
    match r {
        Ok(()) => Ok(()),
        Err(Trap::Exception(e)) => Err(e),
        Err(Trap::Interrupt(_)) => Err(Exception::Unknown),
    }
}

/// The hart: its state, its MMU (which owns the bus and devices) and its decoder.
pub struct Cpu {
    /// The architectural state.
    pub state: CpuStatus,
    /// The MMU in front of the bus.
    pub mmu: Mmu,
    /// The register width.
    pub xlen: XLen,
    /// The decoder with its cache.
    pub insn_decoder: InsnDecoderWithLru,
}

impl Cpu {
    /// Every part is well formed and the MMU uses the hart's register width.
    pub open spec fn wf(&self) -> bool {
        &&& self.state.wf()
        &&& self.mmu.wf()
        &&& self.mmu.xlen == self.xlen
        &&& self.decoder_wf()
    }

    /// The decoder and its cache are well formed.
    pub open spec fn decoder_wf(&self) -> bool {
        self.insn_decoder.wf()
    }

    /// What fetching at the current PC gives.
    pub open spec fn fetch_spec(&self) -> Result<u32, Exception> {
        match self.mmu.spec_translate(self.state, self.state.pc, AccessType::Fetch) {
            Ok(p) => match self.mmu.bus.read_spec(p, Width::Word) {
                Ok(v) => Ok(v as u32),
                Err(e) => Err(e),
            },
            Err(e) => Err(e),
        }
    }

    /// How the timer tick after each step takes `old` to `new`: `mtime` and the
    /// `time` CSR advance by one (wrapping), `mip.MSOFT` is raised when `msip` bit 0
    /// is set, and `mip.MTIMER` is set exactly when `mtime >= mtimecmp`.
    pub open spec fn ticked(old: Cpu, new: Cpu) -> bool {
        let clint = new.mmu.bus.clint;
        let mip = old.state.csrs@[MIP as int];
        let mip = if old.mmu.bus.clint.msip & 1 != 0 {
            with_bit(mip, 3, true)
        } else {
            mip
        };
        &&& new.wf()
        &&& new.xlen == old.xlen
        &&& new.state.xs == old.state.xs
        &&& new.state.pc == old.state.pc
        &&& new.state.privilege == old.state.privilege
        &&& clint.mtime == wrapping_add(old.mmu.bus.clint.mtime, 1)
        &&& clint.mtimecmp == old.mmu.bus.clint.mtimecmp
        &&& clint.msip == old.mmu.bus.clint.msip
        &&& new.mmu.bus.memory == old.mmu.bus.memory
        &&& new.mmu.bus.plic == old.mmu.bus.plic
        &&& new.mmu.bus.uart == old.mmu.bus.uart
        &&& new.state.csrs@ == old.state.csrs@.update(
            MIP as int,
            with_bit(mip, 7, clint.mtime >= clint.mtimecmp),
        ).update(TIME as int, wrapping_add(old.state.csrs@[TIME as int], 1))
    }

    /// The state right after the interrupt check of a step: `mip` has the UART's
    /// interrupt folded in, the UART flag is consumed, and the PLIC has the UART
    /// source pending when the flag was set; nothing else moved.
    pub open spec fn external_folded(old: Cpu, s: CpuStatus, m: Mmu) -> bool {
        let flag = old.mmu.bus.uart.interrupting;
        &&& s.wf()
        &&& m.wf()
        &&& m.xlen == old.mmu.xlen
        &&& s.xs == old.state.xs
        &&& s.pc == old.state.pc
        &&& s.privilege == old.state.privilege
        &&& s.csrs@ == old.state.csrs@.update(
            MIP as int,
            mip_with_external(old.state.csrs@[MIP as int], flag),
        )
        &&& m.bus.memory == old.mmu.bus.memory
        &&& m.bus.clint == old.mmu.bus.clint
        &&& m.bus.uart.regs == old.mmu.bus.uart.regs
        &&& m.bus.uart.output == old.mmu.bus.uart.output
        &&& !m.bus.uart.interrupting
        &&& flag ==> Plic::pended(old.mmu.bus.plic, m.bus.plic, UART_IRQ)
        &&& !flag ==> m.bus.plic == old.mmu.bus.plic
    }

    /// The outcome of executing one instruction at the PC (before any trap is
    /// delivered): a failed fetch or an undecodable encoding raises its exception;
    /// a pending enabled interrupt preempts the instruction; otherwise the
    /// instruction runs.
    pub open spec fn stepped(old: Cpu, new: Cpu, r: Result<(), Trap>) -> bool {
        &&& new.wf()
        &&& new.xlen == old.xlen
        &&& match old.fetch_spec() {
            Err(e) => r == Err::<(), Trap>(Trap::Exception(e)) && new.state == old.state && new.mmu
                == old.mmu,
            Ok(code) => match spec_decode(code) {
                None => r == Err::<(), Trap>(Trap::Exception(Exception::IllegalInstruction))
                    && new.state == old.state && new.mmu == old.mmu,
                Some(insn) => if !interrupts_enabled(old.state) {
                    executed(insn, old.state, old.mmu, new.state, new.mmu, old.xlen, from_exception(r))
                } else {
                    let mip = mip_with_external(
                        old.state.csrs@[MIP as int],
                        old.mmu.bus.uart.interrupting,
                    );
                    match pick_interrupt(mip & old.state.csrs@[MIE as int]) {
                        Some(i) => {
                            &&& r == Err::<(), Trap>(Trap::Interrupt(i))
                            &&& new.state.xs == old.state.xs
                            &&& new.state.pc == old.state.pc
                            &&& new.state.privilege == old.state.privilege
                            &&& new.state.csrs@ == old.state.csrs@.update(
                                MIP as int,
                                mip_after_take(mip, Some(i)),
                            )
                        },
                        None => exists|s: CpuStatus, m: Mmu|
                            Cpu::external_folded(old, s, m) && executed(
                                insn,
                                s,
                                m,
                                new.state,
                                new.mmu,
                                old.xlen,
                                from_exception(r),
                            ),
                    }
                },
            },
        }
    }

    /// A hart in machine mode at `start_address`, with `binary` at the DRAM base
    /// and the stack pointer at the end of DRAM.
    pub fn new(xlen: XLen, binary: Vec<u8>, start_address: u64) -> (r: Cpu)
        requires
            binary@.len() <= DRAM_SIZE,
        ensures
            r.wf(),
            r.xlen == xlen,
            r.state.privilege == PrivilegeMode::Machine,
            r.state.pc == start_address,
            r.state.xs.spec_reg(2) == DRAM_BASE + DRAM_SIZE,
            forall|i: int| 0 <= i < 32 && i != 2 ==> #[trigger] r.state.xs@[i] == 0,
            forall|i: int| 0 <= i < 4096 ==> #[trigger] r.state.csrs@[i] == 0,
            forall|i: int| 0 <= i < binary@.len() ==> #[trigger] r.mmu.bus.memory.data@[i] == binary@[i],
    {
        let mut cpu_status = CpuStatus::new(start_address);
        cpu_status.reset();
        Cpu {
            state: cpu_status,
            mmu: Mmu::new(xlen, binary),
            xlen: xlen,
            insn_decoder: InsnDecoderWithLru::new(InsnDecoder::new()),
        }
    }

    /// Fetches the instruction at the PC.
    pub fn fetch(&self) -> (r: Result<u32, Exception>)
        requires
            self.wf(),
        ensures
            r == self.fetch_spec(),
    {
        let pc = self.state.pc;
        self.mmu.fetch(&self.state, pc)
    }

    /// Decodes `code`; an encoding that no pattern matches is an illegal
    /// instruction.
    pub fn decode(&mut self, code: u32) -> (r: Result<Insn, Exception>)
        requires
            old(self).wf(),
        ensures
            final(self).wf(),
            final(self).state == old(self).state,
            final(self).mmu == old(self).mmu,
            final(self).xlen == old(self).xlen,
            r == (match spec_decode(code) {
                Some(i) => Ok(i),
                None => Err(Exception::IllegalInstruction),
            }),
    {
        match self.insn_decoder.decode(code) {
            Some(i) => Ok(i),
            None => Err(Exception::IllegalInstruction),
        }
    }

    /// Delivers a trap: picks the target privilege by delegation, records the PC,
    /// cause and a zero trap value, stacks the interrupt-enable and privilege
    /// fields of the status register, switches privilege, and jumps to the trap
    /// vector.
    pub fn handle_trap(&mut self, trap: Trap)
        requires
            old(self).wf(),
        ensures
            final(self).wf(),
            final(self).mmu == old(self).mmu,
            final(self).xlen == old(self).xlen,
            final(self).insn_decoder == old(self).insn_decoder,
            trapped(old(self).state, final(self).state, trap, old(self).xlen),
    {
        let (deleg, code, is_interrupt) = match trap {
            Trap::Interrupt(i) => (self.state.csrs.mideleg().bits(), i.code(), true),
            Trap::Exception(e) => (self.state.csrs.medeleg().bits(), e.code(), false),
        };
        let cause = if is_interrupt {
            (1u64 << ((self.xlen.len() - 1) as u64)) | code
        } else {
            code
        };
        let delegate = code < 64 && crate::bits::get_bit(deleg, code as usize);
        let next_privilege = if self.state.privilege != PrivilegeMode::Machine && delegate {
            PrivilegeMode::Supervisor
        } else {
            PrivilegeMode::Machine
        };
        let from = self.state.privilege;
        let pc = self.state.pc;
        let xtvec = if next_privilege == PrivilegeMode::Supervisor {
            self.state.csrs.set_sepc(pc);
            self.state.csrs.set_scause(cause);
            self.state.csrs.set_stval(0);
            let mut sstatus = self.state.csrs.sstatus();
            // The previous enable takes the current one, which is then cleared.
            let sie = sstatus.sie();
            sstatus.set_spie(sie);
            sstatus.set_sie(false);
            // SPP is clear for a trap from user mode and set otherwise.
            sstatus.set_spp(from);
            self.state.csrs.set_sstatus(sstatus.bits());
            self.state.csrs.stvec()
        } else {
            self.state.csrs.set_mepc(pc);
            self.state.csrs.set_mcause(cause);
            self.state.csrs.set_mtval(0);
            let mut mstatus = self.state.csrs.mstatus();
            let mie = mstatus.mie();
            mstatus.set_mpie(mie);
            mstatus.set_mie(false);
            mstatus.set_mpp(from);
            self.state.csrs.set_mstatus(mstatus.bits());
            self.state.csrs.mtvec()
        };
        let trap_pc = xtvec.trap_mode().trap_pc(xtvec.address(), code, is_interrupt);
        self.state.update_pc(trap_pc);
        self.state.privilege = next_privilege;
    }

    /// Folds the UART's interrupt into the PLIC and `mip.SEXT`. The UART flag is
    /// consumed by the check.
    pub fn check_external_interrupts(&mut self)
        requires
            old(self).wf(),
        ensures
            final(self).wf(),
            final(self).xlen == old(self).xlen,
            final(self).decoder_wf(),
            final(self).state.xs == old(self).state.xs,
            final(self).state.pc == old(self).state.pc,
            final(self).state.privilege == old(self).state.privilege,
            final(self).state.csrs@ == old(self).state.csrs@.update(
                MIP as int,
                mip_with_external(old(self).state.csrs@[MIP as int], old(self).mmu.bus.uart.interrupting),
            ),
            final(self).mmu.bus.memory == old(self).mmu.bus.memory,
            final(self).mmu.bus.clint == old(self).mmu.bus.clint,
            final(self).mmu.bus.uart.regs == old(self).mmu.bus.uart.regs,
            final(self).mmu.bus.uart.output == old(self).mmu.bus.uart.output,
            !final(self).mmu.bus.uart.interrupting,
            old(self).mmu.bus.uart.interrupting ==> Plic::pended(
                old(self).mmu.bus.plic,
                final(self).mmu.bus.plic,
                UART_IRQ,
            ),
            !old(self).mmu.bus.uart.interrupting ==> final(self).mmu.bus.plic == old(self).mmu.bus.plic,
    {
        if self.mmu.bus.uart.is_interrupting() {
            self.mmu.bus.plic.update_pending(UART_IRQ);
            let mut mip = self.state.csrs.mip();
            mip.set_sext(true);
            self.state.csrs.set_mip(mip.bits());
        } else {
            assert(self.state.csrs@ =~= old(self).state.csrs@.update(
                MIP as int,
                old(self).state.csrs@[MIP as int],
            ));
        }
    }

    /// Takes the highest-priority interrupt that is pending and enabled, if the
    /// current privilege considers interrupts at all, and clears its pending bit.
    pub fn take_interrupt(&mut self) -> (r: Option<Interrupt>)
        requires
            old(self).wf(),
        ensures
            final(self).wf(),
            final(self).xlen == old(self).xlen,
            final(self).decoder_wf(),
            !interrupts_enabled(old(self).state) ==> r is None && *final(self) == *old(self),
            interrupts_enabled(old(self).state) ==> ({
                let mip = mip_with_external(
                    old(self).state.csrs@[MIP as int],
                    old(self).mmu.bus.uart.interrupting,
                );
                &&& r == pick_interrupt(mip & old(self).state.csrs@[MIE as int])
                &&& final(self).state.csrs@ == old(self).state.csrs@.update(
                    MIP as int,
                    mip_after_take(mip, r),
                )
                &&& final(self).state.xs == old(self).state.xs
                &&& final(self).state.pc == old(self).state.pc
                &&& final(self).state.privilege == old(self).state.privilege
                &&& final(self).mmu.bus.memory == old(self).mmu.bus.memory
                &&& final(self).mmu.bus.clint == old(self).mmu.bus.clint
                &&& final(self).mmu.bus.uart.regs == old(self).mmu.bus.uart.regs
                &&& final(self).mmu.bus.uart.output == old(self).mmu.bus.uart.output
                &&& !final(self).mmu.bus.uart.interrupting
                &&& old(self).mmu.bus.uart.interrupting ==> Plic::pended(
                    old(self).mmu.bus.plic,
                    final(self).mmu.bus.plic,
                    UART_IRQ,
                )
                &&& !old(self).mmu.bus.uart.interrupting ==> final(self).mmu.bus.plic
                    == old(self).mmu.bus.plic
            }),
    {
        match self.state.privilege {
            PrivilegeMode::Supervisor => {
                if !self.state.csrs.sstatus().sie() {
                    return None;
                }
            },
            PrivilegeMode::Machine => {
                if !self.state.csrs.mstatus().mie() {
                    return None;
                }
            },
            _ => {},
        }
        self.check_external_interrupts();
        let mip = self.state.csrs.mip();
        let mie = self.state.csrs.mie();
        let pendings = crate::register::mip::Mip::from(mip.bits() & mie.bits());
        let mut mip = self.state.csrs.mip();
        let ret = if pendings.mext() {
            mip.set_mext(false);
            Some(Interrupt::MachineExternal)
        } else if pendings.msoft() {
            mip.set_msoft(false);
            Some(Interrupt::MachineSoft)
        } else if pendings.mtimer() {
            mip.set_mtimer(false);
            Some(Interrupt::MachineTimer)
        } else if pendings.sext() {
            mip.set_sext(false);
            Some(Interrupt::SupervisorExternal)
        } else if pendings.ssoft() {
            mip.set_ssoft(false);
            Some(Interrupt::SupervisorSoft)
        } else if pendings.stimer() {
            mip.set_stimer(false);
            Some(Interrupt::SupervisorTimer)
        } else {
            None
        };
        self.state.csrs.set_mip(mip.bits());
        ret
    }

    /// Advances the CLINT timer (which updates `mip`) and the `time` CSR, both
    /// wrapping.
    pub fn increment(&mut self)
        requires
            old(self).wf(),
        ensures
            final(self).wf(),
            final(self).xlen == old(self).xlen,
            final(self).decoder_wf(),
            Cpu::ticked(*old(self), *final(self)),
    {
        self.mmu.bus.clint.increment(&mut self.state);
        let time = self.state.csrs.time();
        self.state.csrs.set_time(time.wrapping_add(1));
    }

    /// Executes one instruction at the PC; see `stepped`.
    fn exec(&mut self) -> (r: Result<(), Trap>)
        requires
            old(self).wf(),
        ensures
            Cpu::stepped(*old(self), *final(self), r),
            r matches Err(Trap::Interrupt(i)) ==> i != Interrupt::Unknown,
    {
        let code = match self.fetch() {
            Ok(c) => c,
            Err(e) => return Err(Trap::Exception(e)),
        };
        let insn = match self.decode(code) {
            Ok(i) => i,
            Err(e) => return Err(Trap::Exception(e)),
        };
        let ghost before = *self;
        if let Some(interrupt) = self.take_interrupt() {
            return Err(Trap::Interrupt(interrupt));
        }
        let ghost s = self.state;
        let ghost m = self.mmu;
        let r = insn.exec(&mut self.state, &mut self.mmu, self.xlen);
        let rr = match r {
            Ok(()) => Ok(()),
            Err(e) => Err(Trap::Exception(e)),
        };
        proof {
            assert(from_exception(rr) == r);
            if interrupts_enabled(before.state) {
                assert(Cpu::external_folded(*old(self), s, m));
                assert(executed(insn, s, m, self.state, self.mmu, self.xlen, from_exception(rr)));
            }
        }
        rr
    }

    /// Runs one step: executes an instruction; stops on a fatal exception, which
    /// is returned undelivered; otherwise delivers any trap; then ticks the timer.
    pub fn one_step(&mut self) -> (r: Result<(), Exception>)
        requires
            old(self).wf(),
        ensures
            final(self).wf(),
            final(self).xlen == old(self).xlen,
            exists|mid: Cpu, t: Result<(), Trap>|
                Cpu::stepped(*old(self), mid, t) && Cpu::step_finished(mid, *final(self), t, r),
    {
        let t = self.exec();
        let ghost mid = *self;
        match t {
            Ok(()) => {},
            Err(trap) => {
                if let Trap::Exception(e) = trap {
                    if e.is_fatal() {
                        assert(Cpu::step_finished(mid, *self, t, Err(e)));
                        return Err(e);
                    }
                }
                self.handle_trap(trap);
            },
        }
        let ghost delivered = *self;
        self.increment();
        proof {
            if t is Err {
                assert(trapped(mid.state, delivered.state, t->Err_0, mid.xlen) && delivered.mmu
                    == mid.mmu && delivered.xlen == mid.xlen && delivered.insn_decoder
                    == mid.insn_decoder && Cpu::ticked(delivered, *self));
            }
            assert(Cpu::step_finished(mid, *self, t, Ok(())));
        }
        Ok(())
    }

    /// How a step ends once the instruction's outcome `t` is known: a fatal
    /// exception is returned and nothing more happens; any other trap is delivered;
    /// then, unless stopped, the timer ticks.
    pub open spec fn step_finished(mid: Cpu, new: Cpu, t: Result<(), Trap>, r: Result<(), Exception>) -> bool {
        match t {
            Ok(()) => r == Ok::<(), Exception>(()) && Cpu::ticked(mid, new),
            Err(trap) => if trap matches Trap::Exception(e) && e.spec_is_fatal() {
                r == Err::<(), Exception>(trap->Exception_0) && new == mid
            } else {
                &&& r == Ok::<(), Exception>(())
                &&& exists|d: Cpu|
                    trapped(mid.state, d.state, trap, mid.xlen) && d.mmu == mid.mmu && d.xlen
                        == mid.xlen && d.insn_decoder == mid.insn_decoder && Cpu::ticked(d, new)
            },
        }
    }
}

/// Outside machine mode, an exception goes to supervisor mode exactly when its
/// bit in `medeleg` is set, and to machine mode otherwise.
pub proof fn lemma_exception_delegation(old: CpuStatus, new: CpuStatus, e: Exception, xlen: XLen)
    requires
        old.privilege != PrivilegeMode::Machine,
        e.spec_code() < 64,
        trapped(old, new, Trap::Exception(e), xlen),
    ensures
        (new.privilege == PrivilegeMode::Supervisor) == bit_of(old.csrs@[MEDELEG as int], e.spec_code()),
        new.privilege != PrivilegeMode::Supervisor ==> new.privilege == PrivilegeMode::Machine,
{
}

/// A trap taken in machine mode enters at `mtvec & !3`, plus four times the cause
/// code (wrapping) for an interrupt when `mtvec` selects vectored mode.
pub proof fn lemma_trap_vector(old: CpuStatus, new: CpuStatus, t: Trap, xlen: XLen)
    requires
        trapped(old, new, t, xlen),
        trap_target(old, t) == PrivilegeMode::Machine,
    ensures
        tvec_mode(old.csrs@[MTVEC as int]) == TrapMode::Vectored && is_interrupt(t) ==> new.pc
            == wrapping_add(old.csrs@[MTVEC as int] & !3u64, vstd::wrapping::u64_specs::wrapping_mul(trap_code(t), 4)),
        tvec_mode(old.csrs@[MTVEC as int]) == TrapMode::Direct ==> new.pc == old.csrs@[MTVEC as int] & !3u64,
{
}

} // verus!
