//! The linear remapping layer: a window of `len` sectors starting at
//! `offset` into a backing device, exposed as a device of its own.

use vstd::prelude::*;
use vstd::string::StringExecFns;

use crate::bytes::splice;
use crate::error::Error;
use crate::sector::{Sector, SECTOR_BYTES};
use crate::stack::{release_after, EmptyDMStack, Stack};

verus! {

/// The declarative parameters of a linear layer.
pub struct Table {
    /// The path of the backing device the table refers to.
    pub backing_dev: String,
    /// Where the window starts on the backing device.
    pub offset: Sector,
    /// The window's length; the layer reports exactly this size.
    pub len: Sector,
}

/// A linearly remapped layer over a backing stack.
pub struct Linear<S: Stack> {
    inner: S,
    path: String,
    offset: Sector,
    len: Sector,
}

impl<S: Stack> Linear<S> {
    /// Validates `table` against the backing device and activates the
    /// mapping on the reserved node.
    ///
    /// Fails with [`Error::Config`] when the table names a different
    /// device than the one handed in, or when `offset + len` overruns the
    /// backing device; the backing stack is then torn down by scope.
    pub fn new(dm: EmptyDMStack, table: Table, backing: S) -> (r: Result<Linear<S>, Error>)
        requires
            backing.inv(),
        ensures
            r is Ok <==> {
                &&& table.backing_dev@ == backing.path_spec()
                &&& table.offset@ + table.len@ <= backing.size_spec()
            },
            r matches Ok(l) ==> {
                &&& l.inv()
                &&& l.size_spec() == table.len@
                &&& l.contents() == backing.contents().subrange(
                    table.offset@ * SECTOR_BYTES,
                    (table.offset@ + table.len@) * SECTOR_BYTES,
                )
                &&& l.path_spec() == table.backing_dev@ + "-linear"@
                &&& l.release_order() == seq![l.path_spec()] + backing.release_order()
            },
            r is Err ==> r == Err::<Linear<S>, Error>(Error::Config),
    {
        proof {
            backing.lemma_inv();
        }
        let named = backing.path();
        if !table.backing_dev.eq(&named) {
            return Err(Error::Config);
        }
        let size = backing.size();
        if table.offset.0 > size.0 || table.len.0 > size.0 - table.offset.0 {
            return Err(Error::Config);
        }
        let mut path = table.backing_dev;
        path.append("-linear");
        let l = Linear { inner: backing, path, offset: table.offset, len: table.len };
        proof {
            assert(l.contents() =~= backing.contents().subrange(
                table.offset@ * SECTOR_BYTES,
                (table.offset@ + table.len@) * SECTOR_BYTES,
            ));
        }
        Ok(l)
    }

    /// The stack the layer was built over.
    pub closed spec fn upstream(self) -> S {
        self.inner
    }

    /// The first byte of the window on the backing device.
    spec fn base(&self) -> int {
        self.offset@ * SECTOR_BYTES
    }

    /// One past the last byte of the window on the backing device.
    spec fn limit(&self) -> int {
        (self.offset@ + self.len@) * SECTOR_BYTES
    }
}

/// Releasing a linear layer deactivates its own mapped device strictly
/// before any device of its upstream: its release order is its own path
/// followed by the upstream's entire release order.
pub proof fn lemma_linear_releases_downstream_first<S: Stack>(l: Linear<S>)
    ensures
        l.release_order() == seq![l.path_spec()] + l.upstream().release_order(),
{
}

impl<S: Stack> Stack for Linear<S> {
    closed spec fn inv(&self) -> bool {
        &&& self.inner.inv()
        &&& self.offset@ + self.len@ <= self.inner.size_spec()
    }

    closed spec fn size_spec(&self) -> nat {
        self.len@
    }

    closed spec fn contents(&self) -> Seq<u8> {
        self.inner.contents().subrange(self.base(), self.limit())
    }

    closed spec fn path_spec(&self) -> Seq<char> {
        self.path@
    }

    closed spec fn release_order(&self) -> Seq<Seq<char>> {
        seq![self.path@] + self.inner.release_order()
    }

    proof fn lemma_inv(&self) {
        self.inner.lemma_inv();
    }

    fn path(&self) -> (p: String) {
        self.path.clone()
    }

    fn size(&self) -> (s: Sector) {
        self.len
    }

    fn read_bytes(&mut self, off: usize, len: usize) -> (r: Vec<u8>) {
        proof {
            self.inner.lemma_inv();
        }
        let base = self.offset.to_bytes();
        let r = self.inner.read_bytes(base + off, len);
        proof {
            assert(r@ =~= old(self).contents().subrange(off as int, off + len));
        }
        r
    }

    fn write_bytes(&mut self, off: usize, data: &[u8]) {
        proof {
            self.inner.lemma_inv();
        }
        let base = self.offset.to_bytes();
        self.inner.write_bytes(base + off, data);
        proof {
            crate::bytes::lemma_splice_in_subrange(
                old(self).inner.contents(),
                old(self).base(),
                old(self).limit(),
                off as int,
                data@,
            );
            assert(old(self).inner.contents().subrange(old(self).base(), old(self).limit())
                =~= old(self).contents());
        }
    }

    fn release(self) -> (order: Vec<String>) {
        release_after(self.path, self.inner)
    }
}

} // verus!
