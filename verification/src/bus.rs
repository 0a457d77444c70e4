//! The bus capability: one unified addressable and timed surface over a
//! memory device and a graphics peripheral, with a snapshot hook for
//! external inspection.

use vstd::prelude::*;

use crate::addressable::Addressable;
use crate::gpu::GPU;
use crate::ram::RAM;
use crate::timed::Timed;

verus! {

/// Selects which backing store [`Bus::copy_of`] snapshots: the main memory
/// device or the peripheral's video memory.
#[derive(Clone, Copy, PartialEq, Eq, Structural, Debug)]
pub enum CopyOf {
    RAM,
    VRAM,
}

/// A composition of addressable devices into one logical address space with
/// a defined fallback order, which also fans cycle notifications out to its
/// timed children and can snapshot either backing store for external
/// inspection.
pub trait Bus: Addressable + Timed {
    /// The memory device this bus routes to first.
    type Ram: RAM;

    /// The graphics peripheral this bus falls back to.
    type Gpu: GPU;

    /// The bytes of the main memory device's backing store.
    spec fn ram_contents(&self) -> Seq<u8>;

    /// The bytes of the peripheral's video memory backing store.
    spec fn vram_contents(&self) -> Seq<u8>;

    /// Takes ownership of the memory device and the peripheral. The bus
    /// maps exactly the union of their ranges; the memory device wins where
    /// both map an address, and the peripheral answers for addresses only it
    /// maps.
    fn create(ram: Self::Ram, gpu: Self::Gpu) -> (r: Self)
        ensures
            forall|a: u16| #[trigger] r.mapped(a) == (ram.mapped(a) || gpu.mapped(a)),
            forall|a: u16| ram.mapped(a) ==> r.at(a) == ram.at(a),
            forall|a: u16| !ram.mapped(a) && gpu.mapped(a) ==> #[trigger] r.at(a) == gpu.at(a),
            r.ram_contents() == ram.contents(),
            r.vram_contents() == gpu.contents(),
    ;

    /// Returns an independent snapshot (not a live view) of the selected
    /// backing store. The caller owns the returned copy outright; mutating
    /// the bus afterwards does not change it.
    fn copy_of(&self, target: CopyOf) -> (r: Vec<u8>)
        ensures
            r@ == (match target {
                CopyOf::RAM => self.ram_contents(),
                CopyOf::VRAM => self.vram_contents(),
            }),
    ;
}

} // verus!
