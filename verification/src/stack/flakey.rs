//! The fault-injection layer: the mapped device cycles between a fully
//! serving "up" window and a faulting "down" window on the configured
//! intervals.  The cycling itself happens underneath, on the framework's
//! clock; callers issuing I/O across a down window must tolerate the added
//! latency themselves.  Addressing is untransformed, so contents and size
//! are those of the backing device.

use vstd::prelude::*;
use vstd::string::StringExecFns;

use crate::error::Error;
use crate::stack::{release_after, EmptyDMStack, Stack};
use crate::sector::Sector;

verus! {

/// The declarative parameters of a fault-injection layer.
pub struct Table {
    /// The path of the backing device the table refers to.
    pub backing_dev: String,
    /// How many seconds the device serves I/O in each cycle.
    pub up_interval_sec: u64,
    /// How many seconds the device faults in each cycle.
    pub down_interval_sec: u64,
}

/// A fault-injecting layer over a backing stack.
pub struct Flakey<S: Stack> {
    inner: S,
    path: String,
    up_interval_sec: u64,
    down_interval_sec: u64,
}

impl<S: Stack> Flakey<S> {
    /// Validates `table` against the backing device and activates the
    /// mapping on the reserved node.
    ///
    /// Fails with [`Error::Config`] when the table names a different
    /// device than the one handed in.
    pub fn new(dm: EmptyDMStack, table: Table, backing: S) -> (r: Result<Flakey<S>, Error>)
        requires
            backing.inv(),
        ensures
            r is Ok <==> table.backing_dev@ == backing.path_spec(),
            r matches Ok(f) ==> {
                &&& f.inv()
                &&& f.size_spec() == backing.size_spec()
                &&& f.contents() == backing.contents()
                &&& f.path_spec() == table.backing_dev@ + "-flakey"@
                &&& f.release_order() == seq![f.path_spec()] + backing.release_order()
            },
            r is Err ==> r == Err::<Flakey<S>, Error>(Error::Config),
    {
        let named = backing.path();
        if !table.backing_dev.eq(&named) {
            return Err(Error::Config);
        }
        let mut path = table.backing_dev;
        path.append("-flakey");
        Ok(
            Flakey {
                inner: backing,
                path,
                up_interval_sec: table.up_interval_sec,
                down_interval_sec: table.down_interval_sec,
            },
        )
    }
}

impl<S: Stack> Flakey<S> {
    /// The stack the layer was built over.
    pub closed spec fn upstream(self) -> S {
        self.inner
    }
}

/// Releasing a fault-injection layer deactivates its own mapped device
/// strictly before any device of its upstream.
pub proof fn lemma_flakey_releases_downstream_first<S: Stack>(f: Flakey<S>)
    ensures
        f.release_order() == seq![f.path_spec()] + f.upstream().release_order(),
{
}

impl<S: Stack> Stack for Flakey<S> {
    closed spec fn inv(&self) -> bool {
        self.inner.inv()
    }

    closed spec fn size_spec(&self) -> nat {
        self.inner.size_spec()
    }

    closed spec fn contents(&self) -> Seq<u8> {
        self.inner.contents()
    }

    closed spec fn path_spec(&self) -> Seq<char> {
        self.path@
    }

    closed spec fn release_order(&self) -> Seq<Seq<char>> {
        seq![self.path@] + self.inner.release_order()
    }

    proof fn lemma_inv(&self) {
        self.inner.lemma_inv();
    }

    fn path(&self) -> (p: String) {
        self.path.clone()
    }

    fn size(&self) -> (s: Sector) {
        self.inner.size()
    }

    fn read_bytes(&mut self, off: usize, len: usize) -> (r: Vec<u8>) {
        self.inner.read_bytes(off, len)
    }

    fn write_bytes(&mut self, off: usize, data: &[u8]) {
        self.inner.write_bytes(off, data)
    }

    fn release(self) -> (order: Vec<String>) {
        release_after(self.path, self.inner)
    }
}

} // verus!
