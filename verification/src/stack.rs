//! The composable block-device capability.
//!
//! Anything addressable as a block device implements [`Stack`]: the raw
//! memory-backed devices the pool allocates, and every transform layered on
//! top of one.  A stack reports a path, a size, and supports raw byte
//! reads and writes; releasing it tears its own mapping down first and its
//! upstream after, strictly reverse to construction.

use vstd::prelude::*;

use crate::bytes::splice;
use crate::sector::{Sector, SECTOR_BYTES};

pub mod flakey;
pub mod linear;
pub mod luks;

verus! {

/// A block-device capability.
///
/// The spec side models a stack by its byte `contents`, its size in
/// sectors, its path, and the order in which a release must tear the
/// nested mappings down (own mapping first, upstream after).
pub trait Stack: Sized {
    /// Well-formedness: sizes agree with contents and fit the machine.
    spec fn inv(&self) -> bool;

    /// The stack's address-space length in sectors.
    spec fn size_spec(&self) -> nat;

    /// The bytes currently visible through the stack's address space.
    spec fn contents(&self) -> Seq<u8>;

    /// The path under which the stack is addressable.
    spec fn path_spec(&self) -> Seq<char>;

    /// The paths torn down by a release, in release order: the stack's own
    /// path first, then its upstream's release order.
    spec fn release_order(&self) -> Seq<Seq<char>>;

    /// The facts every well-formed stack guarantees: contents span exactly
    /// `size * 512` bytes, that many bytes are addressable on this
    /// machine, and a release begins with the stack's own path.
    proof fn lemma_inv(&self)
        requires
            self.inv(),
        ensures
            self.contents().len() == self.size_spec() * (SECTOR_BYTES as nat),
            self.size_spec() * (SECTOR_BYTES as nat) <= usize::MAX,
            self.release_order().len() >= 1,
            self.release_order()[0] == self.path_spec();

    /// The OS-visible path of the device.
    fn path(&self) -> (p: String)
        requires
            self.inv(),
        ensures
            p@ == self.path_spec(),
    ;

    /// The device's size in sectors, as an independent query would report it.
    fn size(&self) -> (s: Sector)
        requires
            self.inv(),
        ensures
            s@ == self.size_spec(),
    ;

    /// Reads `len` bytes starting at byte offset `off`.  Reading may move
    /// internal state (a cache layer counts it) but never the contents.
    fn read_bytes(&mut self, off: usize, len: usize) -> (r: Vec<u8>)
        requires
            old(self).inv(),
            off + len <= old(self).contents().len(),
        ensures
            final(self).inv(),
            final(self).contents() == old(self).contents(),
            final(self).size_spec() == old(self).size_spec(),
            final(self).path_spec() == old(self).path_spec(),
            final(self).release_order() == old(self).release_order(),
            r@ == old(self).contents().subrange(off as int, off + len),
    ;

    /// Writes `data` starting at byte offset `off`; the rest of the
    /// contents is untouched.
    fn write_bytes(&mut self, off: usize, data: &[u8])
        requires
            old(self).inv(),
            off + data@.len() <= old(self).contents().len(),
        ensures
            final(self).inv(),
            final(self).contents() == splice(old(self).contents(), off as int, data@),
            final(self).size_spec() == old(self).size_spec(),
            final(self).path_spec() == old(self).path_spec(),
            final(self).release_order() == old(self).release_order(),
    ;

    /// Tears the stack down and reports the paths it deactivated, in
    /// order: the stack's own mapping is always deactivated before any
    /// device of its upstream.
    fn release(self) -> (order: Vec<String>)
        requires
            self.inv(),
        ensures
            order@.len() == self.release_order().len(),
            forall|i: int|
                0 <= i < order@.len() ==> (#[trigger] order@[i])@ == self.release_order()[i],
    ;
}

/// Deactivates a layer and then its upstream: the layer's own path is
/// reported first, the upstream's release order after it.
pub fn release_after<S: Stack>(path: String, inner: S) -> (order: Vec<String>)
    requires
        inner.inv(),
    ensures
        order@.len() == 1 + inner.release_order().len(),
        order@[0]@ == path@,
        forall|i: int|
            1 <= i < order@.len() ==> (#[trigger] order@[i])@ == inner.release_order()[i - 1],
{
    let mut order: Vec<String> = Vec::new();
    order.push(path);
    let mut rest = inner.release();
    order.append(&mut rest);
    order
}

/// A reserved, not-yet-loaded mapping node; every decorator consumes one
/// when it activates its table.
pub struct EmptyDMStack {}

impl EmptyDMStack {
    /// Reserves a fresh mapping node.
    pub fn new() -> EmptyDMStack {
        EmptyDMStack {  }
    }
}

} // verus!
