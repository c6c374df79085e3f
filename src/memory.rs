//! Flat, byte-addressed guest memory starting at address 0, with
//! little-endian typed loads and stores.
use crate::error::MemoryError;
use vstd::prelude::*;

verus! {

/// The `n` bytes at `addr` all lie inside `m`.
pub open spec fn in_bounds(m: Seq<u8>, addr: u32, n: nat) -> bool {
    addr + n <= m.len()
}

/// The little-endian 16-bit value at `a`.
pub open spec fn read_u16(m: Seq<u8>, a: int) -> u16 {
    (m[a] + 256 * m[a + 1]) as u16
}

/// The little-endian 32-bit value at `a`.
pub open spec fn read_u32(m: Seq<u8>, a: int) -> u32 {
    (m[a] + 256 * m[a + 1] + 0x1_0000 * m[a + 2] + 0x100_0000 * m[a + 3]) as u32
}

/// `m` with the 16-bit value `v` stored little-endian at `a`.
pub open spec fn write_u16(m: Seq<u8>, a: int, v: u16) -> Seq<u8> {
    m.update(a, (v % 256) as u8).update(a + 1, (v / 256) as u8)
}

/// `m` with the 32-bit value `v` stored little-endian at `a`.
pub open spec fn write_u32(m: Seq<u8>, a: int, v: u32) -> Seq<u8> {
    m.update(a, (v % 256) as u8).update(a + 1, ((v / 256) % 256) as u8).update(
        a + 2,
        ((v / 0x1_0000) % 256) as u8,
    ).update(a + 3, (v / 0x100_0000) as u8)
}

/// The error for an access of `n` bytes at `addr` that leaves memory.
pub open spec fn out_of_bounds(addr: u32, n: u32) -> MemoryError {
    MemoryError::OutOfBounds { addr, size: n }
}

/// Guest memory: `len()` bytes at addresses `0..len()`.
pub struct Memory {
    bytes: Vec<u8>,
}

impl View for Memory {
    type V = Seq<u8>;

    closed spec fn view(&self) -> Seq<u8> {
        self.bytes@
    }
}

impl Memory {
    /// `size` bytes of zeroed memory.
    pub fn new(size: usize) -> (m: Memory)
        ensures
            m@ == Seq::new(size as nat, |i: int| 0u8),
    {
        let mut bytes: Vec<u8> = Vec::new();
        let mut i: usize = 0;
        while i < size
            invariant
                i <= size,
                bytes@ == Seq::new(i as nat, |j: int| 0u8),
            decreases size - i,
        {
            bytes.push(0);
            i = i + 1;
            assert(bytes@ =~= Seq::new(i as nat, |j: int| 0u8));
        }
        Memory { bytes }
    }

    /// Memory holding exactly `bytes`.
    pub fn from_bytes(bytes: Vec<u8>) -> (m: Memory)
        ensures
            m@ == bytes@,
    {
        Memory { bytes }
    }

    /// The size of memory in bytes.
    pub fn len(&self) -> (r: usize)
        ensures
            r == self@.len(),
    {
        self.bytes.len()
    }

    fn check(&self, addr: u32, n: u32) -> (r: Result<usize, MemoryError>)
        requires
            1 <= n <= 4,
        ensures
            r is Ok <==> in_bounds(self@, addr, n as nat),
            r is Ok ==> r->Ok_0 == addr,
            r is Err ==> r == Err::<usize, MemoryError>(out_of_bounds(addr, n)),
            self@.len() == self.bytes.len(),
    {
        let len = self.bytes.len();
        if (addr as usize) < len && len - (addr as usize) >= n as usize {
            Ok(addr as usize)
        } else {
            Err(MemoryError::OutOfBounds { addr, size: n })
        }
    }

    /// The byte at `addr`.
    pub fn load_u8(&self, addr: u32) -> (r: Result<u8, MemoryError>)
        ensures
            in_bounds(self@, addr, 1) ==> r == Ok::<u8, MemoryError>(self@[addr as int]),
            !in_bounds(self@, addr, 1) ==> r == Err::<u8, MemoryError>(out_of_bounds(addr, 1)),
    {
        match self.check(addr, 1) {
            Ok(a) => Ok(self.bytes[a]),
            Err(e) => Err(e),
        }
    }

    /// The little-endian 16-bit value at `addr`.
    pub fn load_u16(&self, addr: u32) -> (r: Result<u16, MemoryError>)
        ensures
            in_bounds(self@, addr, 2) ==> r == Ok::<u16, MemoryError>(read_u16(self@, addr as int)),
            !in_bounds(self@, addr, 2) ==> r == Err::<u16, MemoryError>(out_of_bounds(addr, 2)),
    {
        match self.check(addr, 2) {
            Ok(a) => Ok(self.bytes[a] as u16 + 256 * self.bytes[a + 1] as u16),
            Err(e) => Err(e),
        }
    }

    /// The little-endian 32-bit value at `addr`.
    pub fn load_u32(&self, addr: u32) -> (r: Result<u32, MemoryError>)
        ensures
            in_bounds(self@, addr, 4) ==> r == Ok::<u32, MemoryError>(read_u32(self@, addr as int)),
            !in_bounds(self@, addr, 4) ==> r == Err::<u32, MemoryError>(out_of_bounds(addr, 4)),
    {
        match self.check(addr, 4) {
            Ok(a) => Ok(self.bytes[a] as u32 + 256 * self.bytes[a + 1] as u32 + 0x1_0000
                * self.bytes[a + 2] as u32 + 0x100_0000 * self.bytes[a + 3] as u32),
            Err(e) => Err(e),
        }
    }

    /// Stores the byte `v` at `addr`.
    pub fn store_u8(&mut self, addr: u32, v: u8) -> (r: Result<(), MemoryError>)
        ensures
            in_bounds(old(self)@, addr, 1) ==> r is Ok && final(self)@ == old(self)@.update(
                addr as int,
                v,
            ),
            !in_bounds(old(self)@, addr, 1) ==> r == Err::<(), MemoryError>(out_of_bounds(addr, 1))
                && final(self)@ == old(self)@,
    {
        match self.check(addr, 1) {
            Ok(a) => {
                self.bytes.set(a, v);
                Ok(())
            },
            Err(e) => Err(e),
        }
    }

    /// Stores the 16-bit value `v` little-endian at `addr`.
    pub fn store_u16(&mut self, addr: u32, v: u16) -> (r: Result<(), MemoryError>)
        ensures
            in_bounds(old(self)@, addr, 2) ==> r is Ok && final(self)@ == write_u16(
                old(self)@,
                addr as int,
                v,
            ),
            !in_bounds(old(self)@, addr, 2) ==> r == Err::<(), MemoryError>(out_of_bounds(addr, 2))
                && final(self)@ == old(self)@,
    {
        match self.check(addr, 2) {
            Ok(a) => {
                self.bytes.set(a, (v % 256) as u8);
                self.bytes.set(a + 1, (v / 256) as u8);
                Ok(())
            },
            Err(e) => Err(e),
        }
    }

    /// Stores the 32-bit value `v` little-endian at `addr`.
    pub fn store_u32(&mut self, addr: u32, v: u32) -> (r: Result<(), MemoryError>)
        ensures
            in_bounds(old(self)@, addr, 4) ==> r is Ok && final(self)@ == write_u32(
                old(self)@,
                addr as int,
                v,
            ),
            !in_bounds(old(self)@, addr, 4) ==> r == Err::<(), MemoryError>(out_of_bounds(addr, 4))
                && final(self)@ == old(self)@,
    {
        match self.check(addr, 4) {
            Ok(a) => {
                self.bytes.set(a, (v % 256) as u8);
                self.bytes.set(a + 1, ((v / 256) % 256) as u8);
                self.bytes.set(a + 2, ((v / 0x1_0000) % 256) as u8);
                self.bytes.set(a + 3, (v / 0x100_0000) as u8);
                Ok(())
            },
            Err(e) => Err(e),
        }
    }

    /// Copies `data` into memory starting at `addr`.
    pub fn store_bytes(&mut self, addr: u32, data: &[u8]) -> (r: Result<(), MemoryError>)
        ensures
            addr + data@.len() <= old(self)@.len() ==> r is Ok && final(self)@ == old(self)@.subrange(
                0,
                addr as int,
            ) + data@ + old(self)@.subrange(addr + data@.len(), old(self)@.len() as int),
            addr + data@.len() > old(self)@.len() ==> r is Err && final(self)@ == old(self)@,
    {
        let len = self.bytes.len();
        if (addr as usize) > len || len - (addr as usize) < data.len() {
            return Err(MemoryError::OutOfBounds { addr, size: 0 });
        }
        let start = addr as usize;
        let mut i: usize = 0;
        while i < data.len()
            invariant
                start + data@.len() <= len,
                len == self.bytes@.len(),
                len == old(self)@.len(),
                i <= data@.len(),
                self.bytes@ == old(self)@.subrange(0, start as int) + data@.subrange(0, i as int)
                    + old(self)@.subrange(start + i, len as int),
            decreases data.len() - i,
        {
            self.bytes.set(start + i, data[i]);
            i = i + 1;
            assert(self.bytes@ =~= old(self)@.subrange(0, start as int) + data@.subrange(0, i as int)
                + old(self)@.subrange(start + i, len as int));
        }
        assert(data@.subrange(0, i as int) =~= data@);
        Ok(())
    }
}

} // verus!
