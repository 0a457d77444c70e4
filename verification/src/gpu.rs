//! The graphics-peripheral capability: a timed, addressable device owning
//! memory-mapped video memory, inspectable as an owned snapshot.

use vstd::prelude::*;

use crate::addressable::Addressable;
use crate::ram::RAM;
use crate::timed::Timed;

verus! {

/// A graphics peripheral: an [`Addressable`] and [`Timed`] device that owns
/// memory-mapped video memory. Rendering internals are out of scope; the
/// device is consumed through these contracts only.
pub trait GPU: Addressable + Timed {
    /// The memory device this peripheral uses as video RAM.
    type Vram: RAM;

    /// The bytes of the video memory backing store, in address order.
    spec fn contents(&self) -> Seq<u8>;

    /// Takes ownership of the video-RAM device. The peripheral exposes the
    /// video RAM's address range and bytes unchanged.
    fn create(vram: Self::Vram) -> (r: Self)
        ensures
            forall|a: u16| #[trigger] r.mapped(a) == vram.mapped(a),
            forall|a: u16| vram.mapped(a) ==> r.at(a) == vram.at(a),
            r.contents() == vram.contents(),
    ;

    /// Returns an independent, caller-owned snapshot of the video memory.
    /// The snapshot does not alias the device's live storage.
    fn deep_copy(&self) -> (r: Vec<u8>)
        ensures
            r@ == self.contents(),
    ;
}

} // verus!
