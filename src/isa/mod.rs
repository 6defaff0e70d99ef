//! The instruction set: sign extension, operand fields, the pattern table and
//! decoder, and the semantics of each instruction.
use crate::bits::{bit_of, low_mask};
use crate::{RegT, XLen};
use vstd::prelude::*;

pub mod alu;
pub mod cache;
pub mod decode;
pub mod exec;
pub mod format;

verus! {

/// Width in bits of a register value.
pub fn reg_len() -> (r: usize)
    ensures
        r == 64,
{
    64
}

/// `value` sign-extended from its low `len` bits: the low `len` bits are kept and
/// every bit above them is a copy of bit `len - 1`.
pub open spec fn spec_sext(value: RegT, len: u64) -> RegT {
    if len >= 64 {
        value
    } else if bit_of(value, (len - 1) as u64) {
        (value & low_mask(len)) | !low_mask(len)
    } else {
        value & low_mask(len)
    }
}

/// Sign-extends the low `len` bits of `value` to a full register value.
pub fn sext(value: RegT, len: usize) -> (r: RegT)
    requires
        0 < len <= 64,
    ensures
        r == spec_sext(value, len as u64),
{
    if len == 64 {
        return value;
    }
    let l = len as u64;
    let sign = (value >> (l - 1)) & 0x1;
    proof {
        assert(1u64 << l >= 1) by (bit_vector)
            requires
                l < 64,
        ;
    }
    let mask = (1u64 << l) - 1;
    proof {
        assert(mask == low_mask(l) && ((sign == 0) == !bit_of(value, (l - 1) as u64)))
            by (bit_vector)
            requires
                0 < l < 64,
                sign == (value >> ((l - 1) as u64)) & 0x1,
                mask == ((1u64 << l) - 1) as u64,
        ;
    }
    if sign == 0 {
        value & mask
    } else {
        value & mask | !mask
    }
}

/// Sign extension from `w` bits keeps bits below `w`, copies bit `w - 1` into
/// every bit from `w` up, and changes nothing when applied a second time.
pub proof fn lemma_sext(x: RegT, w: u64)
    requires
        0 < w < 64,
    ensures
        forall|i: u64| i < w ==> #[trigger] bit_of(spec_sext(x, w), i) == bit_of(x, i),
        forall|i: u64|
            w <= i < 64 ==> #[trigger] bit_of(spec_sext(x, w), i) == bit_of(x, (w - 1) as u64),
        spec_sext(spec_sext(x, w), w) == spec_sext(x, w),
{
    let s = spec_sext(x, w);
    assert forall|i: u64| i < w implies #[trigger] bit_of(spec_sext(x, w), i) == bit_of(x, i) by {
        assert(bit_of(spec_sext(x, w), i) == bit_of(x, i)) by (bit_vector)
            requires
                0 < w < 64,
                i < w,
        ;
    }
    assert forall|i: u64| w <= i < 64 implies #[trigger] bit_of(spec_sext(x, w), i) == bit_of(
        x,
        (w - 1) as u64,
    ) by {
        assert(bit_of(spec_sext(x, w), i) == bit_of(x, (w - 1) as u64)) by (bit_vector)
            requires
                0 < w < 64,
                w <= i < 64,
        ;
    }
    assert(spec_sext(spec_sext(x, w), w) == spec_sext(x, w)) by (bit_vector)
        requires
            0 < w < 64,
    ;
}

impl XLen {
    /// The mask applied to a shift amount taken from a register or immediate.
    pub open spec fn spec_shamt_mask(&self) -> u32 {
        match self {
            XLen::X32 => 0x1f,
            XLen::X64 => 0x3f,
        }
    }

    /// The mask applied to a shift amount taken from a register or immediate.
    pub fn shamt_mask(&self) -> (r: u32)
        ensures
            r == self.spec_shamt_mask(),
    {
        match self {
            XLen::X32 => 0x1f,
            XLen::X64 => 0x3f,
        }
    }
}

} // verus!
