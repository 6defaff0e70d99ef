//! The integer register file.
use crate::RegT;
use vstd::prelude::*;

verus! {

/// The 32 integer registers; register 0 reads as zero and ignores writes.
pub struct Xs {
    regs: Vec<RegT>,
}

impl View for Xs {
    type V = Seq<RegT>;

    closed spec fn view(&self) -> Seq<RegT> {
        self.regs@
    }
}

impl Xs {
    /// The register file holds exactly 32 cells.
    pub open spec fn wf(&self) -> bool {
        self@.len() == 32
    }

    /// The value that register `id` reads as.
    pub open spec fn spec_reg(&self, id: int) -> RegT {
        if id == 0 {
            0
        } else {
            self@[id]
        }
    }

    /// A register file with every register zero.
    pub fn new() -> (r: Xs)
        ensures
            r.wf(),
            forall|i: int| 0 <= i < 32 ==> #[trigger] r@[i] == 0,
    {
        Xs { regs: vec![0; 32] }
    }

    /// Reads register `id`.
    pub fn reg(&self, id: u8) -> (r: RegT)
        requires
            self.wf(),
            id < 32,
        ensures
            r == self.spec_reg(id as int),
    {
        if id == 0 {
            0
        } else {
            self.regs[id as usize]
        }
    }

    /// Writes register `id`; a write to register 0 is ignored.
    pub fn set_reg(&mut self, id: u8, value: RegT)
        requires
            old(self).wf(),
            id < 32,
        ensures
            final(self).wf(),
            final(self)@ == (if id == 0 {
                old(self)@
            } else {
                old(self)@.update(id as int, value)
            }),
    {
        if id != 0 {
            self.regs.set(id as usize, value);
        }
    }
}

/// Register 0 reads as zero in every register file, whatever was written to it.
pub proof fn lemma_zero_register(xs: Xs)
    ensures
        xs.spec_reg(0) == 0,
{
}

} // verus!
