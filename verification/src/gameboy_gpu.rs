//! The console's graphics peripheral: the owner of memory-mapped video RAM.
//! Byte accesses delegate to the video RAM; the rendering state machine is
//! out of scope, so elapsed time leaves the device unchanged.

use vstd::prelude::*;

use crate::addressable::{AddressError, Addressable};
use crate::gpu;
use crate::gameboy_ram::RAM;
use crate::ram::RAM as _;
use crate::timed::{CycleTime, Timed};

verus! {

/// A graphics peripheral owning one video-RAM device of `SIZE` bytes. Reads
/// and writes are routed to the video RAM unchanged; cycle notifications are
/// accepted but advance no state here.
pub struct GPU<const SIZE: usize> {
    pub vram: RAM<SIZE>,
}

impl<const SIZE: usize> Addressable for GPU<SIZE> {
    open spec fn mapped(&self, addr: u16) -> bool {
        self.vram.mapped(addr)
    }

    open spec fn at(&self, addr: u16) -> u8 {
        self.vram.at(addr)
    }

    fn read_byte(&self, addr: u16) -> (r: Result<u8, AddressError>) {
        self.vram.read_byte(addr)
    }

    fn write_byte(&mut self, addr: u16, data: u8) -> (r: Result<(), AddressError>)
        ensures
            final(self).vram.start() == old(self).vram.start(),
            final(self).vram.size() == old(self).vram.size(),
            old(self).mapped(addr) ==> final(self).vram.contents() == old(
                self,
            ).vram.contents().update(addr - old(self).vram.start(), data),
            !old(self).mapped(addr) ==> final(self).vram.contents() == old(self).vram.contents(),
    {
        self.vram.write_byte(addr, data)
    }
}

impl<const SIZE: usize> Timed for GPU<SIZE> {
    open spec fn advanced(self, time: CycleTime) -> Self {
        self
    }

    fn catchup(&mut self, time: CycleTime) {
    }
}

impl<const SIZE: usize> gpu::GPU for GPU<SIZE> {
    type Vram = RAM<SIZE>;

    open spec fn contents(&self) -> Seq<u8> {
        self.vram.contents()
    }

    fn create(vram: RAM<SIZE>) -> (r: Self)
        ensures
            r.vram == vram,
    {
        GPU { vram }
    }

    fn deep_copy(&self) -> (r: Vec<u8>) {
        self.vram.deep_copy()
    }
}

} // verus!
