//! Linear memory: a byte array that grows in pages of 64 KiB up to an
//! optional maximum.
use vstd::prelude::*;
use crate::interpreter::error::Error;

verus! {

/// The size of a page in bytes.
pub const PAGE_SIZE: usize = 65536;

/// The largest number of pages that 32-bit addresses can reach.
pub const MAX_PAGES: u32 = 65536;

/// What a linear memory is, mathematically: its bytes and its cap in pages.
pub struct MemoryModel {
    pub bytes: Seq<u8>,
    pub maximum: Option<u32>,
}

impl MemoryModel {
    /// The length is a whole number of pages, within the cap and within
    /// what 32-bit addresses can reach.
    pub open spec fn wf(self) -> bool {
        &&& self.bytes.len() % (PAGE_SIZE as nat) == 0
        &&& self.pages() <= MAX_PAGES
        &&& self.maximum matches Some(m) ==> self.pages() <= m
    }

    /// The current size in pages.
    pub open spec fn pages(self) -> int {
        self.bytes.len() as int / (PAGE_SIZE as int)
    }

    /// Whether the `n` bytes from `address` on lie within the memory.
    pub open spec fn in_bounds(self, address: u32, n: int) -> bool {
        0 <= n && address + n <= self.bytes.len()
    }

    /// The `n` bytes from `address` on.
    pub open spec fn read(self, address: u32, n: int) -> Seq<u8> {
        self.bytes.subrange(address as int, address + n)
    }

    /// The memory after `data` has been stored from `address` on.
    pub open spec fn write(self, address: u32, data: Seq<u8>) -> MemoryModel {
        MemoryModel {
            bytes: Seq::new(
                self.bytes.len(),
                |i: int|
                    if address <= i < address + data.len() {
                        data[i - address]
                    } else {
                        self.bytes[i]
                    },
            ),
            maximum: self.maximum,
        }
    }

    /// Whether the memory may grow by `delta` pages: the new size is
    /// within `MAX_PAGES` and the cap, and its byte length is one that a
    /// `usize` holds.
    pub open spec fn can_grow(self, delta: u32) -> bool {
        &&& self.pages() + delta <= MAX_PAGES
        &&& self.maximum matches Some(m) ==> self.pages() + delta <= m
        &&& (self.pages() + delta) * PAGE_SIZE <= usize::MAX
    }

    /// What `grow_memory` by `delta` pages comes to: the memory after it,
    /// and the size before in pages, or -1 and the memory unchanged where
    /// it cannot grow so far.
    pub open spec fn grow(self, delta: u32) -> (MemoryModel, i32) {
        if self.can_grow(delta) {
            (self.grown(delta), self.pages() as i32)
        } else {
            (self, -1i32)
        }
    }

    /// The memory after it has grown by `delta` pages of zeros.
    pub open spec fn grown(self, delta: u32) -> MemoryModel {
        MemoryModel {
            bytes: self.bytes + Seq::new((delta * PAGE_SIZE) as nat, |i: int| 0u8),
            maximum: self.maximum,
        }
    }
}

/// A linear memory.
pub struct MemoryInstance {
    buffer: Vec<u8>,
    maximum: Option<u32>,
}

impl View for MemoryInstance {
    type V = MemoryModel;

    closed spec fn view(&self) -> MemoryModel {
        MemoryModel { bytes: self.buffer@, maximum: self.maximum }
    }
}

impl MemoryInstance {
    /// Whether this memory can be made on this machine: `min` pages
    /// within the cap, within `MAX_PAGES`, and with a byte length that a
    /// `usize` holds.
    pub open spec fn can_allocate(min: u32, max: Option<u32>) -> bool {
        &&& min <= MAX_PAGES
        &&& max matches Some(m) ==> min <= m
        &&& min * PAGE_SIZE <= usize::MAX
    }

    /// A memory of `min` pages of zeros that may grow up to `max` pages.
    /// Fails with `Error::Memory` where `can_allocate` does not hold.
    pub fn new(min: u32, max: Option<u32>) -> (r: Result<MemoryInstance, Error>)
        ensures
            Self::can_allocate(min, max) ==> r is Ok,
            !Self::can_allocate(min, max) ==> r == Err::<MemoryInstance, Error>(Error::Memory),
            r matches Ok(m) ==> {
                &&& m@.wf()
                &&& m@.maximum == max
                &&& m@.bytes == Seq::new((min * PAGE_SIZE) as nat, |i: int| 0u8)
            },
    {
        if min > MAX_PAGES {
            return Err(Error::Memory);
        }
        if let Some(m) = max {
            if min > m {
                return Err(Error::Memory);
            }
        }
        if (min as u64) * (PAGE_SIZE as u64) > usize::MAX as u64 {
            return Err(Error::Memory);
        }
        let length: usize = (min as usize) * PAGE_SIZE;
        let buffer: Vec<u8> = vec![0u8; length];
        assert(buffer@ =~= Seq::new((min * PAGE_SIZE) as nat, |i: int| 0u8));
        assert(length as int / (PAGE_SIZE as int) == min) by (nonlinear_arith)
            requires
                length == min * PAGE_SIZE,
                PAGE_SIZE == 65536,
        ;
        assert(length as int % (PAGE_SIZE as int) == 0) by (nonlinear_arith)
            requires
                length == min * PAGE_SIZE,
                PAGE_SIZE == 65536,
        ;
        Ok(MemoryInstance { buffer, maximum: max })
    }

    /// `current_memory`: the size in pages.
    pub fn size(&self) -> (r: u32)
        requires
            self@.wf(),
        ensures
            r == self@.pages(),
    {
        (self.buffer.len() / PAGE_SIZE) as u32
    }

    /// The `n` bytes from `address` on. Traps if they do not all lie
    /// within the memory.
    pub fn get(&self, address: u32, n: usize) -> (r: Result<Vec<u8>, Error>)
        ensures
            self@.in_bounds(address, n as int) ==> r is Ok && r->Ok_0@ == self@.read(address, n as int),
            !self@.in_bounds(address, n as int) ==> r == Err::<Vec<u8>, Error>(Error::Trap),
    {
        let length = self.buffer.len();
        if n > length || (address as u64) > (length - n) as u64 {
            return Err(Error::Trap);
        }
        let begin = address as usize;
        let mut out: Vec<u8> = Vec::new();
        let mut i: usize = 0;
        while i < n
            invariant
                i <= n,
                begin + n <= self.buffer.len(),
                out@ == self.buffer@.subrange(begin as int, begin + i),
            decreases n - i,
        {
            out.push(self.buffer[begin + i]);
            i = i + 1;
            assert(out@ =~= self.buffer@.subrange(begin as int, begin + i));
        }
        Ok(out)
    }

    /// Stores `data` from `address` on. Traps, and stores nothing, if the
    /// bytes would not all lie within the memory.
    pub fn set(&mut self, address: u32, data: &[u8]) -> (r: Result<(), Error>)
        ensures
            old(self)@.in_bounds(address, data@.len() as int) ==> r is Ok && final(self)@ == old(self)@.write(address, data@),
            !old(self)@.in_bounds(address, data@.len() as int) ==> r is Err && r->Err_0
                == Error::Trap && final(self)@ == old(self)@,
            old(self)@.wf() ==> final(self)@.wf(),
    {
        let length = self.buffer.len();
        let n = data.len();
        if n > length || (address as u64) > (length - n) as u64 {
            return Err(Error::Trap);
        }
        let begin = address as usize;
        let mut i: usize = 0;
        while i < n
            invariant
                i <= n,
                n == data@.len(),
                begin == address,
                begin + n <= self.buffer.len(),
                self.buffer.len() == old(self).buffer.len(),
                self.maximum == old(self).maximum,
                forall|j: int|
                    0 <= j < self.buffer.len() ==> self.buffer@[j] == (if begin <= j < begin + i {
                        data@[j - begin]
                    } else {
                        old(self).buffer@[j]
                    }),
            decreases n - i,
        {
            self.buffer.set(begin + i, data[i]);
            i = i + 1;
        }
        assert(self.buffer@ =~= old(self)@.write(address, data@).bytes);
        Ok(())
    }

    /// `grow_memory`: grows by `delta` pages of zeros and returns the
    /// size before, in pages; returns -1, and changes nothing, where the
    /// memory cannot grow so far.
    pub fn grow(&mut self, delta: u32) -> (r: i32)
        requires
            old(self)@.wf(),
        ensures
            final(self)@.wf(),
            (final(self)@, r) == old(self)@.grow(delta),
    {
        let pages = self.size();
        let total: u64 = pages as u64 + delta as u64;
        if total > MAX_PAGES as u64 {
            return -1;
        }
        if let Some(m) = self.maximum {
            if total > m as u64 {
                return -1;
            }
        }
        if total * (PAGE_SIZE as u64) > usize::MAX as u64 {
            return -1;
        }
        let length: usize = (total as usize) * PAGE_SIZE;
        let ghost before = self.buffer@;
        assert(before.len() == pages * PAGE_SIZE) by (nonlinear_arith)
            requires
                before.len() % (PAGE_SIZE as nat) == 0,
                pages == before.len() as int / (PAGE_SIZE as int),
                PAGE_SIZE == 65536,
        ;
        assert(length == before.len() + delta * PAGE_SIZE) by (nonlinear_arith)
            requires
                length == (pages + delta) * PAGE_SIZE,
                before.len() == pages * PAGE_SIZE,
        ;
        self.buffer.resize(length, 0u8);
        assert(self.buffer@ =~= before + Seq::new((delta * PAGE_SIZE) as nat, |i: int| 0u8)) by {
            assert(self.buffer@.len() == length);
            if length > before.len() {
                assert forall|i: int| 0 <= i < length implies self.buffer@[i] == (before + Seq::new(
                    (delta * PAGE_SIZE) as nat,
                    |i: int| 0u8,
                ))[i] by {
                    if i < before.len() {
                        assert(self.buffer@.subrange(0, before.len() as int)[i] == before[i]);
                    }
                }
            } else {
                assert(before.subrange(0, length as int) =~= before);
            }
        }
        assert(length as int / (PAGE_SIZE as int) == total) by (nonlinear_arith)
            requires
                length == total * PAGE_SIZE,
                PAGE_SIZE == 65536,
        ;
        assert(length as int % (PAGE_SIZE as int) == 0) by (nonlinear_arith)
            requires
                length == total * PAGE_SIZE,
                PAGE_SIZE == 65536,
        ;
        pages as i32
    }
}

} // verus!
