//! Memory-mapped devices and the bus that dispatches physical addresses to them.
use vstd::prelude::*;

pub mod bus;
pub mod clint;
pub mod memory;
pub mod plic;
pub mod uart;

verus! {

/// Default DRAM base.
pub const DRAM_BASE: u64 = 0x8000_0000;
/// Default DRAM size (128 MiB).
pub const DRAM_SIZE: u64 = 0x800_0000;
/// The last address of the DRAM range (inclusive).
pub const DRAM_END: u64 = DRAM_BASE + DRAM_SIZE;

/// The start address of the core-local interruptor (CLINT).
pub const CLINT_BASE: u64 = 0x200_0000;
/// The last address of the CLINT range (inclusive).
pub const CLINT_END: u64 = CLINT_BASE + 0x10000;

/// The start address of the platform-level interrupt controller (PLIC).
pub const PLIC_BASE: u64 = 0xc00_0000;
/// The last address of the PLIC range (inclusive).
pub const PLIC_END: u64 = PLIC_BASE + 0x208000;

/// The start address of the UART, as on the QEMU virt machine.
pub const UART_BASE: u64 = 0x1000_0000;
/// The size of the UART register file.
pub const UART_SIZE: u64 = 0x100;
/// The last address of the UART range (inclusive).
pub const UART_END: u64 = UART_BASE + 0x100;

/// The start address of the virtio block device.
pub const VIRTIO_BASE: u64 = 0x1000_1000;
/// The last address of the virtio range (inclusive).
pub const VIRTIO_END: u64 = VIRTIO_BASE + 0x1000;

/// The width of a memory access.
#[derive(Clone, Copy, Debug, PartialEq, Eq, Structural)]
pub enum Width {
    Byte,
    Half,
    Word,
    Double,
}

impl Width {
    /// Number of bytes accessed.
    pub open spec fn spec_bytes(&self) -> nat {
        match self {
            Width::Byte => 1,
            Width::Half => 2,
            Width::Word => 4,
            Width::Double => 8,
        }
    }

    /// The mask that keeps the low `spec_bytes` bytes of a value.
    pub open spec fn spec_mask(&self) -> u64 {
        match self {
            Width::Byte => 0xff,
            Width::Half => 0xffff,
            Width::Word => 0xffff_ffff,
            Width::Double => 0xffff_ffff_ffff_ffff,
        }
    }

    /// Number of bytes accessed.
    pub fn bytes(&self) -> (r: u64)
        ensures
            r == self.spec_bytes(),
    {
        match self {
            Width::Byte => 1,
            Width::Half => 2,
            Width::Word => 4,
            Width::Double => 8,
        }
    }

    /// The mask that keeps the low `bytes` bytes of a value.
    pub fn mask(&self) -> (r: u64)
        ensures
            r == self.spec_mask(),
    {
        match self {
            Width::Byte => 0xff,
            Width::Half => 0xffff,
            Width::Word => 0xffff_ffff,
            Width::Double => 0xffff_ffff_ffff_ffff,
        }
    }
}

/// Byte `k` (little-endian) of `v`.
pub open spec fn byte_of(v: u64, k: u64) -> u8 {
    ((v >> (8 * k) as u64) & 0xff) as u8
}

/// The little-endian value of the first `n` bytes of `s`, for `n` of 1, 2, 4 or 8.
pub open spec fn le_value(s: Seq<u8>, n: nat) -> u64 {
    if n == 1 {
        s[0] as u64
    } else if n == 2 {
        s[0] as u64 | (s[1] as u64) << 8
    } else if n == 4 {
        s[0] as u64 | (s[1] as u64) << 8 | (s[2] as u64) << 16 | (s[3] as u64) << 24
    } else {
        s[0] as u64 | (s[1] as u64) << 8 | (s[2] as u64) << 16 | (s[3] as u64) << 24 | (
        s[4] as u64) << 32 | (s[5] as u64) << 40 | (s[6] as u64) << 48 | (s[7] as u64) << 56
    }
}

/// Encoding a little-endian value back into bytes gives the bytes it was read from.
pub proof fn lemma_le_value_bytes(s: Seq<u8>, w: Width)
    requires
        s.len() >= w.spec_bytes(),
    ensures
        forall|k: int| 0 <= k < w.spec_bytes() ==> #[trigger] byte_of(le_value(s, w.spec_bytes()), k as u64) == s[k],
{
    let b0 = s[0];
    if w == Width::Byte {
        assert(byte_of(b0 as u64, 0) == b0) by (bit_vector);
    } else if w == Width::Half {
        let b1 = s[1];
        let v = b0 as u64 | (b1 as u64) << 8;
        assert(byte_of(v, 0) == b0 && byte_of(v, 1) == b1) by (bit_vector)
            requires
                v == b0 as u64 | (b1 as u64) << 8,
        ;
    } else if w == Width::Word {
        let (b1, b2, b3) = (s[1], s[2], s[3]);
        let v = b0 as u64 | (b1 as u64) << 8 | (b2 as u64) << 16 | (b3 as u64) << 24;
        assert(byte_of(v, 0) == b0 && byte_of(v, 1) == b1 && byte_of(v, 2) == b2 && byte_of(v, 3)
            == b3) by (bit_vector)
            requires
                v == b0 as u64 | (b1 as u64) << 8 | (b2 as u64) << 16 | (b3 as u64) << 24,
        ;
    } else {
        let (b1, b2, b3, b4, b5, b6, b7) = (s[1], s[2], s[3], s[4], s[5], s[6], s[7]);
        let v = b0 as u64 | (b1 as u64) << 8 | (b2 as u64) << 16 | (b3 as u64) << 24 | (b4 as u64)
            << 32 | (b5 as u64) << 40 | (b6 as u64) << 48 | (b7 as u64) << 56;
        assert(byte_of(v, 0) == b0 && byte_of(v, 1) == b1 && byte_of(v, 2) == b2 && byte_of(v, 3)
            == b3 && byte_of(v, 4) == b4 && byte_of(v, 5) == b5 && byte_of(v, 6) == b6 && byte_of(
            v,
            7,
        ) == b7) by (bit_vector)
            requires
                v == b0 as u64 | (b1 as u64) << 8 | (b2 as u64) << 16 | (b3 as u64) << 24 | (
                b4 as u64) << 32 | (b5 as u64) << 40 | (b6 as u64) << 48 | (b7 as u64) << 56,
        ;
    }
}

} // verus!
