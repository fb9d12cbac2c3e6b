//! A read-only window of physical memory with seek-then-read-exact semantics.

use vstd::prelude::*;

verus! {

/// Failure of a single raw memory read.
#[derive(Clone, Copy, Debug, PartialEq, Eq, Structural)]
pub enum ReadError {
    /// The physical-memory device could not be opened.
    DeviceOpenFailure,
    /// The requested absolute address is not reachable in this window.
    SeekFailure,
    /// Fewer bytes than requested were available; no partial data is returned.
    ShortRead,
}

/// Whether `count` bytes starting at absolute address `addr` lie entirely
/// inside a window that starts at `base` and holds `mem`.
pub open spec fn range_readable(base: int, mem: Seq<u8>, addr: int, count: int) -> bool {
    base <= addr && addr + count <= base + mem.len()
}

/// The `count` bytes at absolute address `addr` of a window that starts at
/// `base` and holds `mem`.
pub open spec fn bytes_at(base: int, mem: Seq<u8>, addr: int, count: int) -> Seq<u8> {
    mem.subrange(addr - base, addr - base + count)
}

/// The error a read at absolute address `addr` reports when it cannot return
/// the full requested range: a seek past either edge of the window fails as
/// such, and a read that starts inside the window but runs off its end comes
/// back short.
pub open spec fn read_failure(base: int, mem: Seq<u8>, addr: int) -> ReadError {
    if addr < base || addr > base + mem.len() {
        ReadError::SeekFailure
    } else {
        ReadError::ShortRead
    }
}

/// A contiguous snapshot of physical memory: the bytes found at absolute
/// addresses `base ..` at the time the snapshot was taken.
pub struct PhysicalMemory {
    base: u64,
    data: Vec<u8>,
}

impl View for PhysicalMemory {
    type V = Seq<u8>;

    closed spec fn view(&self) -> Seq<u8> {
        self.data@
    }
}

impl PhysicalMemory {
    /// The lowest absolute address the window covers.
    pub closed spec fn base_spec(&self) -> int {
        self.base as int
    }

    /// Wraps the bytes read from absolute address `base` onward.
    pub fn new(base: u64, data: Vec<u8>) -> (m: PhysicalMemory)
        ensures
            m.base_spec() == base,
            m@ == data@,
    {
        PhysicalMemory { base, data }
    }

    /// Reads exactly `length` bytes at absolute address `address`, or fails:
    /// a buffer shorter than requested is never returned.
    pub fn read_physical(&self, address: u64, length: usize) -> (r: Result<Vec<u8>, ReadError>)
        ensures
            r is Ok <==> range_readable(self.base_spec(), self@, address as int, length as int),
            r matches Ok(buf) ==> buf@.len() == length,
            r matches Ok(buf) ==> buf@ == bytes_at(
                self.base_spec(),
                self@,
                address as int,
                length as int,
            ),
            r matches Err(e) ==> e == read_failure(self.base_spec(), self@, address as int),
    {
        if address < self.base {
            return Err(ReadError::SeekFailure);
        }
        let offset_wide: u64 = address - self.base;
        if offset_wide > self.data.len() as u64 {
            return Err(ReadError::SeekFailure);
        }
        let offset: usize = offset_wide as usize;
        if self.data.len() - offset < length {
            return Err(ReadError::ShortRead);
        }
        let mut buf: Vec<u8> = Vec::new();
        let mut i: usize = 0;
        while i < length
            invariant
                i <= length,
                offset + length <= self.data.len(),
                buf@ =~= self@.subrange(offset as int, offset + i),
            decreases length - i,
        {
            buf.push(self.data[offset + i]);
            i = i + 1;
        }
        Ok(buf)
    }
}

} // verus!
