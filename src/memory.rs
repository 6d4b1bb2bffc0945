//! The flat 64 KiB memory the processor reads and writes.
use vstd::prelude::*;

use crate::EmulatorError;

verus! {

/// Size of the address space in bytes.
pub const MEMORY_SIZE: usize = 0x10000;

/// A byte-addressable store that backs every 16-bit address.
pub struct Memory {
    ram: [u8; 65536],
}

impl View for Memory {
    type V = Seq<u8>;

    closed spec fn view(&self) -> Seq<u8> {
        self.ram@
    }
}

/// Writes `data` into `mem` starting at `start`.
pub open spec fn loaded(mem: Seq<u8>, start: int, data: Seq<u8>) -> Seq<u8> {
    Seq::new(mem.len(), |i: int| if start <= i < start + data.len() { data[i - start] } else { mem[i] })
}

impl Memory {
    /// Memory with every byte zero.
    pub fn new() -> (m: Memory)
        ensures
            m@ == Seq::new(MEMORY_SIZE as nat, |i: int| 0u8),
    {
        let m = Memory { ram: [0u8; 65536] };
        assert(m@ =~= Seq::new(MEMORY_SIZE as nat, |i: int| 0u8));
        m
    }

    /// Number of bytes, always 65536.
    pub fn len(&self) -> (n: usize)
        ensures
            n == self@.len(),
            n == MEMORY_SIZE,
    {
        self.ram.len()
    }

    /// Reads the byte at `address`; every address is backed, so this never fails.
    pub fn read_byte(&self, address: u16) -> (r: crate::Result<u8>)
        ensures
            r == Ok::<u8, EmulatorError>(self@[address as int]),
            self@.len() == MEMORY_SIZE,
    {
        Ok(self.ram[address as usize])
    }

    /// Writes the byte at `address`; never fails.
    pub fn write_byte(&mut self, address: u16, value: u8) -> (r: crate::Result<()>)
        ensures
            r == Ok::<(), EmulatorError>(()),
            old(self)@.len() == MEMORY_SIZE,
            final(self)@ == old(self)@.update(address as int, value),
    {
        self.ram[address as usize] = value;
        Ok(())
    }

    /// Copies `data` to consecutive addresses from `address`; fails with
    /// `MemoryError(address)`, changing nothing, when the block would run past
    /// the end of the address space.
    pub fn load(&mut self, address: u16, data: &[u8]) -> (r: crate::Result<()>)
        ensures
            old(self)@.len() == MEMORY_SIZE,
            address + data@.len() > MEMORY_SIZE ==> r == Err::<(), EmulatorError>(
                EmulatorError::MemoryError(address),
            ) && final(self)@ == old(self)@,
            address + data@.len() <= MEMORY_SIZE ==> r == Ok::<(), EmulatorError>(())
                && final(self)@ == loaded(old(self)@, address as int, data@),
    {
        let start = address as usize;
        if data.len() > MEMORY_SIZE - start {
            return Err(EmulatorError::MemoryError(address));
        }
        let ghost before = self.ram@;
        let mut i: usize = 0;
        while i < data.len()
            invariant
                start + data@.len() <= MEMORY_SIZE,
                i <= data@.len(),
                self.ram@.len() == MEMORY_SIZE,
                before.len() == MEMORY_SIZE,
                forall|k: int|
                    0 <= k < MEMORY_SIZE ==> #[trigger] self.ram@[k] == (if start <= k < start + i {
                        data@[k - start]
                    } else {
                        before[k]
                    }),
            decreases data@.len() - i,
        {
            self.ram[start + i] = data[i];
            i = i + 1;
        }
        proof {
            assert(self.ram@ =~= loaded(before, start as int, data@));
        }
        Ok(())
    }
}

impl Default for Memory {
    fn default() -> (m: Memory)
        ensures
            m@ == Seq::new(MEMORY_SIZE as nat, |i: int| 0u8),
    {
        Memory::new()
    }
}

} // verus!
