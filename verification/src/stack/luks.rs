//! The encryption layer.
//!
//! The cipher itself runs underneath and is outside this harness's scope:
//! the layer exposes the plaintext view of the device.  What the harness
//! does enforce is the usage protocol: a device must be formatted once,
//! which stamps an on-disk header at its start, before a layer may be
//! constructed over it; the header's sectors are reserved, so the layer is
//! that much smaller than its backing device, and writes through the layer
//! can never clobber the header.

use vstd::prelude::*;
use vstd::string::StringExecFns;

use crate::bytes::splice;
use crate::error::Error;
use crate::sector::{Sector, SECTOR_BYTES};
use crate::stack::{release_after, Stack};

verus! {

/// How many sectors the on-disk header reserves at the start of a
/// formatted device.
pub const LUKS_HEADER_SECTORS: u64 = 4096;

/// The byte length of the on-disk header's magic stamp.
pub const LUKS_MAGIC_LEN: usize = 6;

/// The magic stamp a format writes at byte 0.
pub open spec fn luks_magic() -> Seq<u8> {
    seq![0x4Cu8, 0x55u8, 0x4Bu8, 0x53u8, 0xBAu8, 0xBEu8]
}

/// Whether a device's contents carry a valid header: room for the
/// reserved sectors and the magic stamp at byte 0.
pub open spec fn is_formatted(s: Seq<u8>) -> bool {
    &&& s.len() >= LUKS_HEADER_SECTORS * SECTOR_BYTES
    &&& s.subrange(0, LUKS_MAGIC_LEN as int) == luks_magic()
}

/// A device that was never formatted — its contents still the zeroes it
/// was allocated with — carries no header, so building an encryption
/// layer over it is refused with a configuration error before anything
/// is activated.
pub proof fn lemma_zeros_not_formatted(n: nat)
    ensures
        !is_formatted(crate::bytes::zeros(n)),
{
    if n >= LUKS_HEADER_SECTORS * SECTOR_BYTES {
        assert(crate::bytes::zeros(n).subrange(0, LUKS_MAGIC_LEN as int)[0] == 0u8);
        assert(luks_magic()[0] == 0x4Cu8);
    }
}

/// An encryption layer over a formatted backing stack.
pub struct Luks<S: Stack> {
    inner: S,
    path: String,
}

impl<S: Stack> Luks<S> {
    /// The one-time format of a raw device, before any layer is built over
    /// it: stamps the header at the device's start.
    ///
    /// Fails with [`Error::Config`] when the device is too small to hold
    /// the reserved header; the device is then left untouched.
    pub fn format(dev: &mut S) -> (r: Result<(), Error>)
        requires
            old(dev).inv(),
        ensures
            r is Ok <==> old(dev).size_spec() >= LUKS_HEADER_SECTORS,
            r is Err ==> r == Err::<(), Error>(Error::Config) && *final(dev) == *old(dev),
            r is Ok ==> {
                &&& final(dev).inv()
                &&& final(dev).contents() == splice(old(dev).contents(), 0, luks_magic())
                &&& is_formatted(final(dev).contents())
                &&& final(dev).size_spec() == old(dev).size_spec()
                &&& final(dev).path_spec() == old(dev).path_spec()
                &&& final(dev).release_order() == old(dev).release_order()
            },
    {
        proof {
            dev.lemma_inv();
        }
        let size = dev.size();
        if size.0 < LUKS_HEADER_SECTORS {
            return Err(Error::Config);
        }
        let mut magic: Vec<u8> = Vec::new();
        magic.push(0x4Cu8);
        magic.push(0x55u8);
        magic.push(0x4Bu8);
        magic.push(0x53u8);
        magic.push(0xBAu8);
        magic.push(0xBEu8);
        proof {
            assert(magic@ =~= luks_magic());
        }
        dev.write_bytes(0, magic.as_slice());
        proof {
            crate::bytes::lemma_splice_read_back(old(dev).contents(), 0, luks_magic());
        }
        Ok(())
    }

    /// Builds the layer over a backing device, which must have been
    /// formatted before; the reserved header sectors are not part of the
    /// layer's address space.
    ///
    /// Fails with [`Error::Config`] when the device was never formatted;
    /// nothing is activated in that case.
    pub fn new(backing: S) -> (r: Result<Luks<S>, Error>)
        requires
            backing.inv(),
        ensures
            r is Ok <==> is_formatted(backing.contents()),
            r matches Ok(l) ==> {
                &&& l.inv()
                &&& l.size_spec() == backing.size_spec() - LUKS_HEADER_SECTORS
                &&& l.contents() == backing.contents().skip(
                    LUKS_HEADER_SECTORS * SECTOR_BYTES,
                )
                &&& l.path_spec() == backing.path_spec() + "-crypt"@
                &&& l.release_order() == seq![l.path_spec()] + backing.release_order()
            },
            r is Err ==> r == Err::<Luks<S>, Error>(Error::Config),
    {
        proof {
            backing.lemma_inv();
        }
        let mut dev = backing;
        let size = dev.size();
        if size.0 < LUKS_HEADER_SECTORS {
            proof {
                assert(!is_formatted(backing.contents()));
            }
            return Err(Error::Config);
        }
        let head = dev.read_bytes(0, LUKS_MAGIC_LEN);
        let stamped = head[0] == 0x4Cu8 && head[1] == 0x55u8 && head[2] == 0x4Bu8 && head[3]
            == 0x53u8 && head[4] == 0xBAu8 && head[5] == 0xBEu8;
        if !stamped {
            proof {
                assert(backing.contents().subrange(0, LUKS_MAGIC_LEN as int) != luks_magic());
            }
            return Err(Error::Config);
        }
        proof {
            assert(backing.contents().subrange(0, LUKS_MAGIC_LEN as int) =~= luks_magic());
        }
        let named = dev.path();
        let mut path = named;
        path.append("-crypt");
        let l = Luks { inner: dev, path };
        proof {
            assert(l.contents() =~= backing.contents().skip(LUKS_HEADER_SECTORS * SECTOR_BYTES));
        }
        Ok(l)
    }

    /// The stack the layer was built over.
    pub closed spec fn upstream(self) -> S {
        self.inner
    }

    /// The first byte of the layer's window on the backing device.
    spec fn base(&self) -> int {
        LUKS_HEADER_SECTORS * SECTOR_BYTES
    }
}

/// Releasing an encryption layer deactivates its own mapped device
/// strictly before any device of its upstream.
pub proof fn lemma_luks_releases_downstream_first<S: Stack>(l: Luks<S>)
    ensures
        l.release_order() == seq![l.path_spec()] + l.upstream().release_order(),
{
}

impl<S: Stack> Stack for Luks<S> {
    closed spec fn inv(&self) -> bool {
        &&& self.inner.inv()
        &&& is_formatted(self.inner.contents())
        &&& self.inner.size_spec() >= LUKS_HEADER_SECTORS
    }

    closed spec fn size_spec(&self) -> nat {
        (self.inner.size_spec() - LUKS_HEADER_SECTORS) as nat
    }

    closed spec fn contents(&self) -> Seq<u8> {
        self.inner.contents().skip(LUKS_HEADER_SECTORS * SECTOR_BYTES)
    }

    closed spec fn path_spec(&self) -> Seq<char> {
        self.path@
    }

    closed spec fn release_order(&self) -> Seq<Seq<char>> {
        seq![self.path@] + self.inner.release_order()
    }

    proof fn lemma_inv(&self) {
        self.inner.lemma_inv();
    }

    fn path(&self) -> (p: String) {
        self.path.clone()
    }

    fn size(&self) -> (s: Sector) {
        proof {
            self.inner.lemma_inv();
        }
        let inner_size = self.inner.size();
        Sector(inner_size.0 - LUKS_HEADER_SECTORS)
    }

    fn read_bytes(&mut self, off: usize, len: usize) -> (r: Vec<u8>) {
        proof {
            self.inner.lemma_inv();
        }
        let base = (LUKS_HEADER_SECTORS * SECTOR_BYTES) as usize;
        let r = self.inner.read_bytes(base + off, len);
        proof {
            assert(r@ =~= old(self).contents().subrange(off as int, off + len));
        }
        r
    }

    fn write_bytes(&mut self, off: usize, data: &[u8]) {
        proof {
            self.inner.lemma_inv();
        }
        let base = (LUKS_HEADER_SECTORS * SECTOR_BYTES) as usize;
        self.inner.write_bytes(base + off, data);
        proof {
            let s = old(self).inner.contents();
            crate::bytes::lemma_splice_in_subrange(
                s,
                old(self).base(),
                s.len() as int,
                off as int,
                data@,
            );
            assert(s.subrange(old(self).base(), s.len() as int) =~= old(self).contents());
            crate::bytes::lemma_splice_frame(
                s,
                old(self).base() + off,
                data@,
                0,
                LUKS_MAGIC_LEN as int,
            );
            assert(splice(s, old(self).base() + off, data@).subrange(
                old(self).base(),
                s.len() as int,
            ) =~= splice(old(self).contents(), off as int, data@));
        }
    }

    fn release(self) -> (order: Vec<String>) {
        release_after(self.path, self.inner)
    }
}

} // verus!
