//! Bit and bit-field access on raw 64-bit register contents, through the
//! `bit_field` crate, with the facts about them that the register views use.
use bit_field::BitField;
use vstd::prelude::*;

verus! {

/// Bit `i` of `x`.
pub open spec fn bit_of(x: u64, i: u64) -> bool {
    (x >> i) & 1u64 == 1u64
}

/// `x` with bit `i` set to `v`.
pub open spec fn with_bit(x: u64, i: u64, v: bool) -> u64 {
    if v {
        x | (1u64 << i)
    } else {
        x & !(1u64 << i)
    }
}

/// A mask of the low `n` bits, for `n < 64`.
pub open spec fn low_mask(n: u64) -> u64 {
    ((1u64 << n) - 1u64) as u64
}

/// Bits `lo..hi` of `x`, shifted down to bit 0.
pub open spec fn field_of(x: u64, lo: u64, hi: u64) -> u64 {
    (x >> lo) & low_mask((hi - lo) as u64)
}

/// `x` with bits `lo..hi` replaced by `v`.
pub open spec fn with_field(x: u64, lo: u64, hi: u64, v: u64) -> u64 {
    (x & !(low_mask((hi - lo) as u64) << lo)) | (v << lo)
}

/// Relies on `BitField::get_bit` of bit_field: true iff bit `i` is set; it
/// asserts `i < 64`.
#[verifier::external_body]
pub(crate) fn get_bit(x: u64, i: usize) -> (r: bool)
    requires
        i < 64,
    ensures
        r == bit_of(x, i as u64),
{
    x.get_bit(i)
}

/// Relies on `BitField::set_bit` of bit_field: ORs in, or masks out, the bit
/// `1 << i`; it asserts `i < 64`.
#[verifier::external_body]
pub(crate) fn set_bit(x: u64, i: usize, v: bool) -> (r: u64)
    requires
        i < 64,
    ensures
        r == with_bit(x, i as u64, v),
{
    let mut y = x;
    y.set_bit(i, v);
    y
}

/// Relies on `BitField::get_bits` of bit_field: bits `lo..hi` shifted down to
/// bit 0; it asserts `lo < 64`, `hi <= 64` and `lo <= hi`.
#[verifier::external_body]
pub(crate) fn get_bits(x: u64, lo: usize, hi: usize) -> (r: u64)
    requires
        lo < hi,
        hi <= 64,
        hi - lo < 64,
    ensures
        r == field_of(x, lo as u64, hi as u64),
{
    x.get_bits(lo..hi)
}

/// Relies on `BitField::set_bits` of bit_field: clears bits `lo..hi` and ORs in
/// `v << lo`; it asserts that the range is valid and that `v` fits in it.
#[verifier::external_body]
pub(crate) fn set_bits(x: u64, lo: usize, hi: usize, v: u64) -> (r: u64)
    requires
        lo < hi,
        hi <= 64,
        hi - lo < 64,
        v <= low_mask((hi - lo) as u64),
    ensures
        r == with_field(x, lo as u64, hi as u64, v),
{
    let mut y = x;
    y.set_bits(lo..hi, v);
    y
}

/// Setting a bit leaves it with the new value and every other bit unchanged.
pub proof fn lemma_with_bit(x: u64, i: u64, v: bool)
    requires
        i < 64,
    ensures
        bit_of(with_bit(x, i, v), i) == v,
        forall|j: u64| j < 64 && j != i ==> #[trigger] bit_of(with_bit(x, i, v), j) == bit_of(x, j),
{
    assert(bit_of(with_bit(x, i, v), i) == v) by (bit_vector)
        requires
            i < 64,
    ;
    assert forall|j: u64| j < 64 && j != i implies #[trigger] bit_of(with_bit(x, i, v), j) == bit_of(
        x,
        j,
    ) by {
        assert(bit_of(with_bit(x, i, v), j) == bit_of(x, j)) by (bit_vector)
            requires
                i < 64,
                j < 64,
                j != i,
        ;
    }
}

} // verus!
