//! Raw sector-addressed block I/O against an open stack handle.

use vstd::prelude::*;

use crate::bytes::splice;
use crate::sector::{Sector, SECTOR_BYTES};
use crate::stack::Stack;

pub mod pattern;

verus! {

/// An open read/write handle on a stack.
pub struct BlockIO<S: Stack> {
    /// The stack the handle was opened on.
    pub dev: S,
}

/// Opens a stack for raw block I/O.  Opening performs no I/O and changes
/// nothing on the device.
pub fn open<S: Stack>(s: S) -> (rw: BlockIO<S>)
    requires
        s.inv(),
    ensures
        rw.dev == s,
{
    BlockIO { dev: s }
}

impl<S: Stack> BlockIO<S> {
    /// Writes `buf`, whose byte length must equal `len`, at `offset`.
    pub fn write(&mut self, buf: &Vec<u8>, offset: Sector, len: Sector)
        requires
            old(self).dev.inv(),
            buf@.len() == len@ * SECTOR_BYTES,
            offset@ + len@ <= old(self).dev.size_spec(),
        ensures
            final(self).dev.inv(),
            final(self).dev.contents() == splice(
                old(self).dev.contents(),
                offset@ * SECTOR_BYTES,
                buf@,
            ),
            final(self).dev.size_spec() == old(self).dev.size_spec(),
            final(self).dev.path_spec() == old(self).dev.path_spec(),
            final(self).dev.release_order() == old(self).dev.release_order(),
    {
        proof {
            self.dev.lemma_inv();
        }
        let off = offset.to_bytes();
        self.dev.write_bytes(off, buf.as_slice());
    }

    /// Reads `len` sectors at `offset` into `buf`, whose byte length must
    /// equal `len`.  The device's contents are unchanged.
    pub fn read(&mut self, buf: &mut Vec<u8>, offset: Sector, len: Sector)
        requires
            old(self).dev.inv(),
            old(buf)@.len() == len@ * SECTOR_BYTES,
            offset@ + len@ <= old(self).dev.size_spec(),
        ensures
            final(self).dev.inv(),
            final(buf)@ == old(self).dev.contents().subrange(
                offset@ * SECTOR_BYTES,
                offset@ * SECTOR_BYTES + len@ * SECTOR_BYTES,
            ),
            final(self).dev.contents() == old(self).dev.contents(),
            final(self).dev.size_spec() == old(self).dev.size_spec(),
            final(self).dev.path_spec() == old(self).dev.path_spec(),
            final(self).dev.release_order() == old(self).dev.release_order(),
    {
        proof {
            self.dev.lemma_inv();
        }
        let off = offset.to_bytes();
        let nbytes = len.to_bytes();
        let r = self.dev.read_bytes(off, nbytes);
        *buf = r;
    }

    /// Closes the handle and hands the stack back; no I/O happens.
    pub fn into_inner(self) -> (s: S)
        ensures
            s == self.dev,
    {
        self.dev
    }
}

/// Whether two byte buffers hold the same bytes.
pub fn bytes_equal(a: &Vec<u8>, b: &Vec<u8>) -> (r: bool)
    ensures
        r == (a@ == b@),
{
    if a.len() != b.len() {
        assert(a@ != b@);
        return false;
    }
    let n = a.len();
    let mut i: usize = 0;
    while i < n
        invariant
            n == a@.len() == b@.len(),
            0 <= i <= n,
            forall|j: int| 0 <= j < i ==> a@[j] == b@[j],
        decreases n - i,
    {
        if a[i] != b[i] {
            assert(a@ != b@);
            return false;
        }
        i = i + 1;
    }
    proof {
        assert(a@ =~= b@);
    }
    true
}

/// Writes a fixed fill at `offset`, reads the same range back, and
/// reports whether the bytes came back identical — which, over any
/// well-formed stack, they provably always do.
pub fn test_blk_rw<S: Stack>(s: &mut S, offset: Sector, len: Sector) -> (ok: bool)
    requires
        old(s).inv(),
        offset@ + len@ <= old(s).size_spec(),
    ensures
        ok == true,
        final(s).inv(),
        final(s).contents() == splice(
            old(s).contents(),
            offset@ * SECTOR_BYTES,
            Seq::new(len@ * (SECTOR_BYTES as nat), |i: int| 1u8),
        ),
        final(s).size_spec() == old(s).size_spec(),
        final(s).path_spec() == old(s).path_spec(),
        final(s).release_order() == old(s).release_order(),
{
    proof {
        s.lemma_inv();
    }
    let off = offset.to_bytes();
    let nbytes = len.to_bytes();
    let mut wbuf: Vec<u8> = Vec::new();
    wbuf.resize(nbytes, 1u8);
    proof {
        assert(wbuf@ =~= Seq::new(len@ * (SECTOR_BYTES as nat), |i: int| 1u8));
    }
    s.write_bytes(off, wbuf.as_slice());
    let rbuf = s.read_bytes(off, nbytes);
    proof {
        crate::bytes::lemma_splice_read_back(old(s).contents(), off as int, wbuf@);
    }
    bytes_equal(&wbuf, &rbuf)
}

} // verus!
