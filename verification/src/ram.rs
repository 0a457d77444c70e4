//! The memory-device capability: an addressable store over a contiguous
//! range, inspectable as an owned snapshot of its backing bytes.

use vstd::prelude::*;

use crate::addressable::Addressable;

verus! {

/// An untimed memory device: an [`Addressable`] store backed by a contiguous
/// run of bytes starting at [`start`](RAM::start), whose full backing store
/// can be copied out for external inspection.
pub trait RAM: Addressable {
    /// The fixed capacity of this device type, in bytes.
    spec fn capacity() -> nat;

    /// The first address of the device's configured range.
    spec fn start(&self) -> u16;

    /// The number of bytes in the backing store.
    spec fn size(&self) -> nat;

    /// The bytes of the backing store, in address order.
    spec fn contents(&self) -> Seq<u8>;

    /// The backing store holds one byte per offset, and the byte at offset
    /// `i` is the byte the device stores at address `start + i`.
    proof fn contents_properties(&self)
        ensures
            self.contents().len() == self.size(),
            forall|i: int|
                0 <= i < self.contents().len() && self.start() + i <= 0xFFFF
                    ==> self.contents()[i] == self.at((self.start() + i) as u16),
    ;

    /// Builds a zero-filled device whose range starts at `start` and spans
    /// the type's fixed capacity. The range must fit within the 16-bit
    /// address space.
    fn create(start: u16) -> (r: Self)
        requires
            1 <= Self::capacity(),
            start + Self::capacity() <= 0x10000,
        ensures
            r.start() == start,
            r.size() == Self::capacity(),
            forall|a: u16| #[trigger] r.mapped(a) <==> start <= a < start + Self::capacity(),
            forall|a: u16| r.mapped(a) ==> r.at(a) == 0,
            r.contents() == Seq::new(Self::capacity(), |i: int| 0u8),
    ;

    /// Returns an independent, caller-owned snapshot of the backing store.
    /// The snapshot does not alias the device's live storage.
    fn deep_copy(&self) -> (r: Vec<u8>)
        ensures
            r@ == self.contents(),
    ;
}

} // verus!
