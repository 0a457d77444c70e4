//! The console's main memory device: a fixed-capacity byte array bound to an
//! inclusive address range, with 16-bit addresses and 8-bit data.

use vstd::prelude::*;
use vstd::pervasive::VecAdditionalExecFns;

use crate::addressable::{AddressError, Addressable};
use crate::ram;
use crate::ram::RAM as _;

verus! {

/// A fixed-capacity memory device covering the inclusive address range
/// `[start, start + SIZE - 1]`. Accesses outside the bound are rejected with
/// an out-of-bounds fault; accesses inside it are translated to a zero-based
/// offset into the backing store.
pub struct RAM<const SIZE: usize> {
    /// Inclusive start and end addresses.
    start_addr: u16,
    end_addr: u16,
    mem: Vec<u8>,
}

impl<const SIZE: usize> Addressable for RAM<SIZE> {
    closed spec fn mapped(&self, addr: u16) -> bool {
        self.start_addr <= addr <= self.end_addr && addr - self.start_addr < self.mem@.len()
    }

    closed spec fn at(&self, addr: u16) -> u8 {
        self.mem@[addr - self.start_addr]
    }

    fn read_byte(&self, addr: u16) -> (r: Result<u8, AddressError>) {
        if addr < self.start_addr || addr > self.end_addr {
            return Err(AddressError::OutOfBounds(addr));
        }
        let offset = (addr - self.start_addr) as usize;
        if offset >= self.mem.len() {
            return Err(AddressError::OutOfBounds(addr));
        }
        Ok(self.mem[offset])
    }

    fn write_byte(&mut self, addr: u16, data: u8) -> (r: Result<(), AddressError>)
        ensures
            final(self).start() == old(self).start(),
            final(self).size() == old(self).size(),
            old(self).mapped(addr) ==> final(self).contents() == old(self).contents().update(
                addr - old(self).start(),
                data,
            ),
            !old(self).mapped(addr) ==> final(self).contents() == old(self).contents(),
    {
        if addr < self.start_addr || addr > self.end_addr {
            return Err(AddressError::OutOfBounds(addr));
        }
        let offset = (addr - self.start_addr) as usize;
        if offset >= self.mem.len() {
            return Err(AddressError::OutOfBounds(addr));
        }
        self.mem.set(offset, data);
        Ok(())
    }
}

impl<const SIZE: usize> ram::RAM for RAM<SIZE> {
    open spec fn capacity() -> nat {
        SIZE as nat
    }

    closed spec fn start(&self) -> u16 {
        self.start_addr
    }

    closed spec fn size(&self) -> nat {
        self.mem@.len()
    }

    closed spec fn contents(&self) -> Seq<u8> {
        self.mem@
    }

    proof fn contents_properties(&self) {
    }

    fn create(start: u16) -> (r: Self) {
        let mut mem: Vec<u8> = Vec::new();
        let mut i: usize = 0;
        while i < SIZE
            invariant
                i <= SIZE,
                mem@.len() == i,
                forall|j: int| 0 <= j < i ==> mem@[j] == 0,
            decreases SIZE - i,
        {
            mem.push(0);
            i = i + 1;
        }
        let end = start + ((SIZE - 1) as u16);
        let r = RAM { start_addr: start, end_addr: end, mem };
        proof {
            assert(r.contents() =~= Seq::new(SIZE as nat, |i: int| 0u8));
        }
        r
    }

    fn deep_copy(&self) -> (r: Vec<u8>) {
        let mut copy: Vec<u8> = Vec::new();
        let mut i: usize = 0;
        while i < self.mem.len()
            invariant
                i <= self.mem@.len(),
                copy@ == self.mem@.subrange(0, i as int),
            decreases self.mem@.len() - i,
        {
            copy.push(self.mem[i]);
            i = i + 1;
        }
        proof {
            assert(copy@ =~= self.mem@);
        }
        copy
    }
}

} // verus!
