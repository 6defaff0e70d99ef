//! DRAM: a byte array mapped at a base address.
use crate::device::{byte_of, le_value, Width};
use crate::trap::Exception;
use vstd::prelude::*;

verus! {

/// Main memory.
pub struct Memory {
    /// The bytes of memory, the first at `dram_base`.
    pub data: Vec<u8>,
    /// The physical address of `data[0]`.
    pub dram_base: u64,
}

/// Whether an access of `n` bytes at `addr` lies inside a memory of `len` bytes
/// mapped at `base`.
pub open spec fn in_memory(base: u64, len: nat, addr: u64, n: nat) -> bool {
    base <= addr && addr - base + n <= len
}

impl Memory {
    /// The value that a read of width `w` at `addr` returns.
    pub open spec fn read_spec(&self, addr: u64, w: Width) -> Result<u64, Exception> {
        if in_memory(self.dram_base, self.data@.len(), addr, w.spec_bytes()) {
            Ok(le_value(self.data@.subrange(addr - self.dram_base, self.data@.len() as int), w.spec_bytes()))
        } else {
            Err(Exception::LoadFault)
        }
    }

    /// The memory contents after a write of width `w` of `value` at `addr`: the
    /// low bytes of `value`, little-endian, replace the bytes written to.
    pub open spec fn write_spec(data: Seq<u8>, base: u64, addr: u64, w: Width, value: u64) -> Seq<u8> {
        Seq::new(
            data.len(),
            |i: int|
                if addr - base <= i < addr - base + w.spec_bytes() {
                    byte_of(value, (i - (addr - base)) as u64)
                } else {
                    data[i]
                },
        )
    }

    /// Reads `w` bytes at `addr`, little-endian.
    pub fn read(&self, addr: u64, w: Width) -> (r: Result<u64, Exception>)
        ensures
            r == self.read_spec(addr, w),
    {
        let n = w.bytes();
        if addr < self.dram_base || addr - self.dram_base > self.data.len() as u64 || (
        self.data.len() as u64) - (addr - self.dram_base) < n {
            return Err(Exception::LoadFault);
        }
        let i = (addr - self.dram_base) as usize;
        let d = &self.data;
        let v: u64 = match w {
            Width::Byte => d[i] as u64,
            Width::Half => d[i] as u64 | (d[i + 1] as u64) << 8,
            Width::Word => d[i] as u64 | (d[i + 1] as u64) << 8 | (d[i + 2] as u64) << 16 | (d[i
                + 3] as u64) << 24,
            Width::Double => d[i] as u64 | (d[i + 1] as u64) << 8 | (d[i + 2] as u64) << 16 | (d[i
                + 3] as u64) << 24 | (d[i + 4] as u64) << 32 | (d[i + 5] as u64) << 40 | (d[i
                + 6] as u64) << 48 | (d[i + 7] as u64) << 56,
        };
        Ok(v)
    }

    /// Writes the low `w` bytes of `value` at `addr`, little-endian.
    pub fn write(&mut self, addr: u64, w: Width, value: u64) -> (r: Result<(), Exception>)
        ensures
            r == (if in_memory(old(self).dram_base, old(self).data@.len(), addr, w.spec_bytes()) {
                Ok(())
            } else {
                Err(Exception::StoreFault)
            }),
            final(self).dram_base == old(self).dram_base,
            r is Err ==> *final(self) == *old(self),
            final(self).data@ == (if r is Ok {
                Memory::write_spec(old(self).data@, old(self).dram_base, addr, w, value)
            } else {
                old(self).data@
            }),
    {
        let n = w.bytes();
        if addr < self.dram_base || addr - self.dram_base > self.data.len() as u64 || (
        self.data.len() as u64) - (addr - self.dram_base) < n {
            return Err(Exception::StoreFault);
        }
        let i = (addr - self.dram_base) as usize;
        let ghost d0 = self.data@;
        let len = self.data.len();
        let mut k: u64 = 0;
        while k < n
            invariant
                len == d0.len(),
                n == w.spec_bytes(),
                k <= n,
                i + n <= d0.len(),
                i == addr - self.dram_base,
                self.data@.len() == d0.len(),
                forall|j: int|
                    0 <= j < d0.len() ==> #[trigger] self.data@[j] == (if i <= j < i + k {
                        byte_of(value, (j - i) as u64)
                    } else {
                        d0[j]
                    }),
            decreases n - k,
        {
            self.data.set(i + k as usize, #[verifier::truncate] (((value >> (8 * k)) & 0xff) as u8));
            k = k + 1;
        }
        assert(self.data@ =~= Memory::write_spec(d0, self.dram_base, addr, w, value));
        Ok(())
    }

    /// A memory of `cap` bytes mapped at `dram_base`, holding `binary` at its start
    /// and zeros after it.
    pub fn new_with_binary(dram_base: u64, binary: Vec<u8>, cap: usize) -> (r: Memory)
        requires
            binary@.len() <= cap,
        ensures
            r.dram_base == dram_base,
            r.data@.len() == cap,
            forall|i: int| 0 <= i < binary@.len() ==> #[trigger] r.data@[i] == binary@[i],
            forall|i: int| binary@.len() <= i < cap ==> #[trigger] r.data@[i] == 0,
    {
        let mut data: Vec<u8> = vec![0; cap];
        let mut k: usize = 0;
        while k < binary.len()
            invariant
                binary@.len() <= cap,
                k <= binary@.len(),
                data@.len() == cap,
                forall|i: int| 0 <= i < k ==> #[trigger] data@[i] == binary@[i],
                forall|i: int| k <= i < cap ==> #[trigger] data@[i] == 0,
            decreases binary@.len() - k,
        {
            data.set(k, binary[k]);
            k = k + 1;
        }
        Memory { data, dram_base }
    }
}

/// Reading a width at an address inside memory and writing the value read back to
/// the same place leaves memory byte for byte as it was.
pub proof fn lemma_load_store_round_trip(m: Memory, addr: u64, w: Width)
    requires
        in_memory(m.dram_base, m.data@.len(), addr, w.spec_bytes()),
    ensures
        m.read_spec(addr, w) is Ok,
        Memory::write_spec(m.data@, m.dram_base, addr, w, m.read_spec(addr, w)->Ok_0) == m.data@,
{
    let s = m.data@.subrange(addr - m.dram_base, m.data@.len() as int);
    crate::device::lemma_le_value_bytes(s, w);
    let v = m.read_spec(addr, w)->Ok_0;
    assert(Memory::write_spec(m.data@, m.dram_base, addr, w, v) =~= m.data@) by {
        assert forall|i: int| 0 <= i < m.data@.len() implies #[trigger] Memory::write_spec(
            m.data@,
            m.dram_base,
            addr,
            w,
            v,
        )[i] == m.data@[i] by {
            if addr - m.dram_base <= i < addr - m.dram_base + w.spec_bytes() {
                assert(s[i - (addr - m.dram_base)] == m.data@[i]);
            }
        }
    }
}

} // verus!
