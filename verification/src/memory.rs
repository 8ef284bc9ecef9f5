use vstd::prelude::*;

use crate::codec::{decode_i32, WasmString};
use crate::error::HostError;

verus! {

/// The bytes of `m` with `b` written over the range starting at `offset`.
pub open spec fn splice_bytes(m: Seq<u8>, offset: int, b: Seq<u8>) -> Seq<u8>
    recommends
        0 <= offset,
        offset + b.len() <= m.len(),
{
    m.subrange(0, offset) + b + m.subrange(offset + b.len(), m.len() as int)
}

/// A model of a module's linear memory: a flat byte array addressed by
/// 32-bit unsigned offsets. Every access is bounds-checked; an access outside
/// the current size fails with an out-of-bounds error and changes nothing.
pub struct LinearMemory {
    data: Vec<u8>,
}

impl View for LinearMemory {
    type V = Seq<u8>;

    closed spec fn view(&self) -> Seq<u8> {
        self.data@
    }
}

impl LinearMemory {
    /// A linear memory of `size` zeroed bytes.
    pub fn new(size: usize) -> (r: Self)
        ensures
            r@.len() == size,
            forall|j: int| 0 <= j < size ==> r@[j] == 0u8,
    {
        let mut data: Vec<u8> = Vec::new();
        while data.len() < size
            invariant
                data@.len() <= size,
                forall|j: int| 0 <= j < data@.len() ==> data@[j] == 0u8,
            decreases size - data@.len(),
        {
            data.push(0u8);
        }
        LinearMemory { data }
    }

    /// The current size of the memory in bytes.
    pub fn size(&self) -> (r: usize)
        ensures
            r == self@.len(),
    {
        self.data.len()
    }

    /// Writes `bytes` starting at `offset`. The write is the only mutator;
    /// it fails without change when `[offset, offset + bytes.len())` exceeds
    /// the current memory size (memory growth is out of scope).
    pub fn set(&mut self, offset: u32, bytes: &[u8]) -> (r: Result<(), HostError>)
        ensures
            offset + bytes@.len() <= old(self)@.len() ==> r == Ok::<(), HostError>(())
                && final(self)@ == splice_bytes(old(self)@, offset as int, bytes@),
            offset + bytes@.len() > old(self)@.len() ==> (r matches Err(e) && e matches
                HostError::OutOfBounds) && final(self)@ == old(self)@,
    {
        let n = bytes.len();
        let len = self.data.len();
        if n > len || (offset as usize) > len - n {
            return Err(HostError::OutOfBounds);
        }
        let base = offset as usize;
        let mut i: usize = 0;
        while i < n
            invariant
                n == bytes@.len(),
                base + n <= old(self)@.len(),
                base + n <= usize::MAX,
                i <= n,
                self@.len() == old(self)@.len(),
                forall|j: int| 0 <= j < base ==> self@[j] == old(self)@[j],
                forall|j: int| 0 <= j < i ==> self@[base + j] == bytes@[j],
                forall|j: int| base + n <= j < self@.len() ==> self@[j] == old(self)@[j],
            decreases n - i,
        {
            self.data.set(base + i, bytes[i]);
            i = i + 1;
        }
        proof {
            assert(final(self)@ =~= splice_bytes(old(self)@, offset as int, bytes@));
        }
        Ok(())
    }

    /// Returns a copy of the `len` bytes starting at `offset`, or an
    /// out-of-bounds error when the range exceeds the current memory size.
    pub fn get_range(&self, offset: u32, len: usize) -> (r: Result<Vec<u8>, HostError>)
        ensures
            offset + len <= self@.len() ==> (r matches Ok(v) && v@ == self@.subrange(
                offset as int,
                offset + len,
            )),
            offset + len > self@.len() ==> (r matches Err(e) && e matches HostError::OutOfBounds),
    {
        let size = self.data.len();
        if len > size || (offset as usize) > size - len {
            return Err(HostError::OutOfBounds);
        }
        let base = offset as usize;
        let mut out: Vec<u8> = Vec::new();
        let mut i: usize = 0;
        while i < len
            invariant
                base + len <= self@.len(),
                base + len <= usize::MAX,
                i <= len,
                out@ == self@.subrange(base as int, base + i),
            decreases len - i,
        {
            let b = self.data[base + i];
            out.push(b);
            proof {
                assert(out@ =~= self@.subrange(base as int, base + i + 1));
            }
            i = i + 1;
        }
        Ok(out)
    }

    /// Decodes the little-endian 32-bit value held at `offset`.
    pub fn get_value_i32(&self, offset: u32) -> (r: Result<i32, HostError>)
        ensures
            offset + 4 <= self@.len() ==> (r matches Ok(x) && x
                == vstd::bytes::spec_u32_from_le_bytes(
                self@.subrange(offset as int, offset + 4),
            ) as i32),
            offset + 4 > self@.len() ==> (r matches Err(e) && e matches HostError::OutOfBounds),
    {
        match self.get_range(offset, 4) {
            Ok(v) => Ok(decode_i32(v.as_slice())),
            Err(e) => Err(e),
        }
    }

    /// Decodes the null-terminated string starting at `offset`: the bytes up
    /// to the first zero byte or the end of memory, whichever comes first,
    /// leniently read as text.
    pub fn get_value_str(&self, offset: u32) -> (r: Result<WasmString, HostError>)
        ensures
            offset <= self@.len() ==> (r matches Ok(w) && w.0@ == WasmString::decode_spec(
                self@.skip(offset as int),
            )),
            offset <= self@.len() && vstd::utf8::valid_utf8(crate::codec::pre_nul(self@.skip(offset as int)))
                ==> (r matches Ok(w) && w.0@ == vstd::utf8::decode_utf8(
                crate::codec::pre_nul(self@.skip(offset as int)),
            )),
            offset > self@.len() ==> (r matches Err(e) && e matches HostError::OutOfBounds),
    {
        let size = self.data.len();
        if (offset as usize) > size {
            return Err(HostError::OutOfBounds);
        }
        let tail_len = size - (offset as usize);
        match self.get_range(offset, tail_len) {
            Ok(v) => {
                proof {
                    assert(v@ =~= self@.skip(offset as int));
                }
                WasmString::from_little_endian(v.as_slice())
            },
            Err(e) => Err(e),
        }
    }
}

} // verus!
