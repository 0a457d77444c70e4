//! The console's bus: one main memory device and one graphics peripheral
//! composed into a single address space. Every access is tried against RAM
//! first; only on RAM's out-of-bounds rejection is it retried against the
//! peripheral, whose outcome is then propagated verbatim.

use vstd::prelude::*;

use crate::addressable::{AddressError, Addressable};
use crate::bus;
use crate::bus::CopyOf;
use crate::gameboy_gpu::GPU;
use crate::gameboy_ram::RAM;
use crate::gpu::GPU as _;
use crate::ram::RAM as _;
use crate::timed::{CycleTime, Timed};

verus! {

/// The bus over one memory device of `RS` bytes and one graphics peripheral
/// whose video RAM spans `VS` bytes. It owns both exclusively and delegates
/// rather than copies: RAM is tried first, the peripheral second, and if
/// both reject an address the access fails with an out-of-bounds fault
/// carrying that address.
pub struct Bus<const RS: usize, const VS: usize> {
    pub ram: RAM<RS>,
    pub gpu: GPU<VS>,
}

impl<const RS: usize, const VS: usize> Addressable for Bus<RS, VS> {
    open spec fn mapped(&self, addr: u16) -> bool {
        self.ram.mapped(addr) || self.gpu.mapped(addr)
    }

    open spec fn at(&self, addr: u16) -> u8 {
        if self.ram.mapped(addr) {
            self.ram.at(addr)
        } else {
            self.gpu.at(addr)
        }
    }

    fn read_byte(&self, addr: u16) -> (r: Result<u8, AddressError>) {
        match self.ram.read_byte(addr) {
            Ok(data) => Ok(data),
            Err(_) => self.gpu.read_byte(addr),
        }
    }

    fn write_byte(&mut self, addr: u16, data: u8) -> (r: Result<(), AddressError>)
        ensures
            final(self).ram.start() == old(self).ram.start(),
            final(self).ram.size() == old(self).ram.size(),
            final(self).gpu.vram.start() == old(self).gpu.vram.start(),
            final(self).gpu.vram.size() == old(self).gpu.vram.size(),
            old(self).ram.mapped(addr) ==> final(self).ram.contents() == old(
                self,
            ).ram.contents().update(addr - old(self).ram.start(), data) && final(self).gpu == old(
                self,
            ).gpu,
            !old(self).ram.mapped(addr) && old(self).gpu.mapped(addr) ==> final(self).ram == old(
                self,
            ).ram && final(self).gpu.vram.contents() == old(self).gpu.vram.contents().update(
                addr - old(self).gpu.vram.start(),
                data,
            ),
            !old(self).mapped(addr) ==> *final(self) == *old(self),
    {
        match self.ram.write_byte(addr, data) {
            Ok(()) => Ok(()),
            Err(_) => self.gpu.write_byte(addr, data),
        }
    }
}

impl<const RS: usize, const VS: usize> Timed for Bus<RS, VS> {
    open spec fn advanced(self, time: CycleTime) -> Self {
        Bus { gpu: self.gpu.advanced(time), ..self }
    }

    fn catchup(&mut self, time: CycleTime) {
        self.gpu.catchup(time);
    }
}

impl<const RS: usize, const VS: usize> bus::Bus for Bus<RS, VS> {
    type Ram = RAM<RS>;

    type Gpu = GPU<VS>;

    open spec fn ram_contents(&self) -> Seq<u8> {
        self.ram.contents()
    }

    fn create(ram: RAM<RS>, gpu: GPU<VS>) -> (r: Self)
        ensures
            r.ram == ram,
            r.gpu == gpu,
    {
        Bus { ram, gpu }
    }

    open spec fn vram_contents(&self) -> Seq<u8> {
        self.gpu.vram.contents()
    }

    fn copy_of(&self, target: CopyOf) -> (r: Vec<u8>) {
        match target {
            CopyOf::RAM => self.ram.deep_copy(),
            CopyOf::VRAM => self.gpu.deep_copy(),
        }
    }
}

/// The bus's two-tier fallback: an address the memory device maps resolves
/// to the memory device and never touches the peripheral's success path; an
/// address only the peripheral maps resolves to the peripheral; an address
/// neither maps is unmapped on the bus, so by the [`Addressable`] contract
/// both accesses fail with the out-of-bounds fault carrying that address.
pub proof fn lemma_bus_fallback<const RS: usize, const VS: usize>(bus: Bus<RS, VS>, addr: u16)
    ensures
        bus.ram.mapped(addr) ==> bus.mapped(addr) && bus.at(addr) == bus.ram.at(addr),
        !bus.ram.mapped(addr) && bus.gpu.mapped(addr) ==> bus.mapped(addr) && bus.at(addr)
            == bus.gpu.at(addr),
        !bus.ram.mapped(addr) && !bus.gpu.mapped(addr) ==> !bus.mapped(addr),
{
}

} // verus!
