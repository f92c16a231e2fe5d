//! The ephemeral device pool.
//!
//! [`env`] opens a pool; [`Env::alloc_device`] backs a device of exactly
//! the requested size with volatile memory, initially all zeroes, and
//! numbers it so that every device of one pool has a distinct path.  A
//! device's backing memory lives as long as its handle and is freed when
//! the handle is dropped, so every exit path releases what was allocated.

use vstd::prelude::*;
use vstd::slice::{slice_subrange, slice_to_vec};
use vstd::string::StringExecFns;

use crate::bytes::{splice, zeros};
use crate::error::Error;
use crate::sector::{Sector, SECTOR_BYTES};
use crate::stack::Stack;
use crate::strutil::{dec_seq, u64_to_dec};

verus! {

/// The path of the pool-allocated device numbered `id`.
pub open spec fn dev_path_spec(id: nat) -> Seq<char> {
    "mem-"@ + dec_seq(id)
}

/// A memory-backed block device of a fixed size, owned by whoever holds
/// the handle; its backing memory is freed when the handle is dropped.
pub struct RawBlk {
    path: String,
    size: Sector,
    data: Vec<u8>,
}

/// A pool of ephemeral backing devices.
pub struct Env {
    /// How many devices this pool has allocated; the next device is
    /// numbered with it.
    pub count: u64,
}

/// Opens a fresh device pool.
pub fn env() -> (e: Env)
    ensures
        e.count == 0,
{
    Env { count: 0 }
}

impl Env {
    /// Allocates a backing device of exactly `size` sectors, zero-filled.
    ///
    /// Fails with [`Error::Allocation`] when that many bytes are not
    /// addressable on this machine or the pool has run out of device
    /// numbers; otherwise the returned device reports exactly the
    /// requested size.
    pub fn alloc_device(&mut self, size: Sector) -> (r: Result<RawBlk, Error>)
        ensures
            r is Ok <==> (size@ * SECTOR_BYTES <= usize::MAX && old(self).count < u64::MAX),
            r matches Ok(d) ==> {
                &&& d.inv()
                &&& d.size_spec() == size@
                &&& d.contents() == zeros(size@ * (SECTOR_BYTES as nat))
                &&& d.path_spec() == dev_path_spec(old(self).count as nat)
                &&& final(self).count == old(self).count + 1
            },
            r is Err ==> r == Err::<RawBlk, Error>(Error::Allocation) && *final(self) == *old(
                self,
            ),
    {
        if size.0 > usize::MAX as u64 / SECTOR_BYTES || self.count == u64::MAX {
            return Err(Error::Allocation);
        }
        let nbytes: usize = (size.0 * SECTOR_BYTES) as usize;
        let mut data: Vec<u8> = Vec::new();
        data.resize(nbytes, 0u8);
        proof {
            assert(data@ =~= zeros(size@ * (SECTOR_BYTES as nat)));
        }
        let id = self.count;
        self.count = self.count + 1;
        let mut path = String::from_str("mem-");
        let digits = u64_to_dec(id);
        path.append(digits.as_str());
        Ok(RawBlk { path, size, data })
    }
}

impl Stack for RawBlk {
    closed spec fn inv(&self) -> bool {
        &&& self.data@.len() == self.size@ * (SECTOR_BYTES as nat)
        &&& self.size@ * (SECTOR_BYTES as nat) <= usize::MAX
    }

    closed spec fn size_spec(&self) -> nat {
        self.size@
    }

    closed spec fn contents(&self) -> Seq<u8> {
        self.data@
    }

    closed spec fn path_spec(&self) -> Seq<char> {
        self.path@
    }

    closed spec fn release_order(&self) -> Seq<Seq<char>> {
        seq![self.path@]
    }

    proof fn lemma_inv(&self) {
    }

    fn path(&self) -> (p: String) {
        self.path.clone()
    }

    fn size(&self) -> (s: Sector) {
        self.size
    }

    fn read_bytes(&mut self, off: usize, len: usize) -> (r: Vec<u8>) {
        let sl = slice_subrange(self.data.as_slice(), off, off + len);
        slice_to_vec(sl)
    }

    fn write_bytes(&mut self, off: usize, data: &[u8]) {
        let n = self.data.len();
        let dlen = data.len();
        let mut nd: Vec<u8> = Vec::new();
        nd.extend_from_slice(slice_subrange(self.data.as_slice(), 0, off));
        nd.extend_from_slice(data);
        nd.extend_from_slice(slice_subrange(self.data.as_slice(), off + dlen, n));
        proof {
            assert(nd@ =~= splice(self.data@, off as int, data@));
        }
        self.data = nd;
    }

    fn release(self) -> (order: Vec<String>) {
        let mut order: Vec<String> = Vec::new();
        order.push(self.path);
        order
    }
}

} // verus!
