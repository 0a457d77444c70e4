//! The address-space capability: uniform byte-level read and write over a
//! bounded range of a 16-bit address space, with explicit fault reporting.

use vstd::prelude::*;

verus! {

/// A fault raised by an address-space access. Every fault carries the
/// offending address so the caller can report location context.
#[derive(Clone, Copy, PartialEq, Eq, Structural, Debug)]
pub enum AddressError {
    /// The address fell outside every mapped range.
    OutOfBounds(u16),
    /// Decoding or operand resolution met an opcode or operand with no
    /// defined handling at this address.
    IllegalInstr(u16),
}

/// How a successful store of `data` at `addr` relates the device state
/// `post` to the state `pre` it was performed in: the stored address was
/// mapped, the mapped range is unchanged, the stored address holds the new
/// data, and every other address keeps its byte.
pub open spec fn wrote<A: Addressable>(pre: A, post: A, addr: u16, data: u8) -> bool {
    &&& pre.mapped(addr)
    &&& forall|a: u16| #[trigger] post.mapped(a) == pre.mapped(a)
    &&& post.at(addr) == data
    &&& forall|a: u16| a != addr && pre.mapped(a) ==> #[trigger] post.at(a) == pre.at(a)
}

/// Extends [`wrote`] to an optional store: with `None` the device is
/// unchanged, with `Some((addr, data))` a store of `data` at `addr` took
/// place.
pub open spec fn wrote_opt<A: Addressable>(pre: A, post: A, w: Option<(u16, u8)>) -> bool {
    match w {
        None => post == pre,
        Some((addr, data)) => wrote(pre, post, addr, data),
    }
}

/// Within a device's mapped range, stores round-trip: after a successful
/// write of `v` at `addr`, the address is still mapped and holds exactly
/// `v`, so the next read of `addr` yields `Ok(v)` by the contract of
/// [`Addressable::read_byte`]; every other mapped address is untouched.
pub proof fn lemma_write_read_round_trip<A: Addressable>(pre: A, post: A, addr: u16, v: u8)
    requires
        wrote(pre, post, addr, v),
    ensures
        post.mapped(addr),
        post.at(addr) == v,
        forall|a: u16|
            a != addr && pre.mapped(a) ==> #[trigger] post.mapped(a) && post.at(a) == pre.at(a),
{
}

/// The capability of exposing byte-level read/write over a bounded address
/// range with explicit fault reporting. Addresses are 16 bits wide and data
/// is 8 bits wide. A device is modeled by which addresses it maps
/// ([`mapped`](Addressable::mapped)) and the byte stored at each mapped
/// address ([`at`](Addressable::at)).
///
/// Both operations are side-effect-free on failure: no partial writes. No
/// operation blocks or retries internally; retry policy belongs to the
/// caller.
pub trait Addressable: Sized {
    /// Whether this device maps address `addr`.
    spec fn mapped(&self, addr: u16) -> bool;

    /// The byte this device stores at address `addr`; meaningful only where
    /// `addr` is mapped.
    spec fn at(&self, addr: u16) -> u8;

    /// Reads the byte at `addr`, or fails with `OutOfBounds(addr)` if this
    /// device does not map `addr`.
    fn read_byte(&self, addr: u16) -> (r: Result<u8, AddressError>)
        ensures
            r == (if self.mapped(addr) {
                Ok::<u8, AddressError>(self.at(addr))
            } else {
                Err::<u8, AddressError>(AddressError::OutOfBounds(addr))
            }),
    ;

    /// Writes `data` at `addr`, or fails with `OutOfBounds(addr)`, changing
    /// nothing, if this device does not map `addr`.
    fn write_byte(&mut self, addr: u16, data: u8) -> (r: Result<(), AddressError>)
        ensures
            old(self).mapped(addr) ==> r == Ok::<(), AddressError>(()) && (forall|a: u16|
                #[trigger] final(self).mapped(a) == old(self).mapped(a)) && final(self).at(addr)
                == data && (forall|a: u16|
                a != addr && old(self).mapped(a) ==> #[trigger] final(self).at(a) == old(
                    self,
                ).at(a)),
            !old(self).mapped(addr) ==> r == Err::<(), AddressError>(
                AddressError::OutOfBounds(addr),
            ) && *final(self) == *old(self),
    ;
}

} // verus!
