//! The write-back cache layer: a slow backing device paired with a fast
//! cache device, exposing the backing device's address space and a
//! queryable statistics view.
//!
//! The caching engine itself runs underneath and is outside the harness's
//! scope; the layer routes I/O to the backing store, counts each
//! operation under its statistic kind, and guarantees that a snapshot
//! covers every defined kind and that a freshly created stack reads all
//! zeroes.

use vstd::prelude::*;
use vstd::slice::slice_to_vec;
use vstd::string::StringExecFns;

use crate::bytes::{splice, zeros};
use crate::error::Error;
use crate::sector::{Sector, SECTOR_BYTES};
use crate::stack::{release_after, Stack};

verus! {

/// How many statistic kinds the cache defines: every combination of the
/// four flags below.
pub const STAT_KINDS: usize = 16;

/// One statistic kind, identified by four bit flags: direction, cache
/// hit, buffer hit, and whether the I/O covered full cache blocks.
#[derive(Clone, Copy, Debug, PartialEq, Eq, Structural)]
pub struct StatKey {
    /// The operation was a write.
    pub write: bool,
    /// The operation hit the cache.
    pub hit: bool,
    /// The operation hit the in-memory buffer.
    pub on_buffer: bool,
    /// The operation covered full cache blocks.
    pub fullsize: bool,
}

/// The key encoded by the four low bits of `bits`.
pub open spec fn key_of_bits(bits: u8) -> StatKey {
    StatKey {
        write: bits & 8 != 0,
        hit: bits & 4 != 0,
        on_buffer: bits & 2 != 0,
        fullsize: bits & 1 != 0,
    }
}

impl StatKey {
    /// Decodes a key from its four low bit flags.
    pub fn from_bits(bits: u8) -> (k: StatKey)
        ensures
            k == key_of_bits(bits),
    {
        StatKey {
            write: bits & 8 != 0,
            hit: bits & 4 != 0,
            on_buffer: bits & 2 != 0,
            fullsize: bits & 1 != 0,
        }
    }

    /// The key's position in a snapshot, one per kind.
    pub open spec fn index_spec(self) -> int {
        (if self.write { 8int } else { 0int }) + (if self.hit { 4int } else { 0int }) + (
        if self.on_buffer { 2int } else { 0int }) + (if self.fullsize { 1int } else { 0int })
    }

    /// The key's position in a snapshot.
    pub fn index(&self) -> (i: usize)
        ensures
            i == self.index_spec(),
            i < STAT_KINDS,
    {
        (if self.write { 8usize } else { 0usize }) + (if self.hit { 4usize } else { 0usize }) + (
        if self.on_buffer { 2usize } else { 0usize }) + (if self.fullsize { 1usize } else { 0usize })
    }
}

/// In the snapshot of a freshly created (or merely opened, never
/// exercised) cache stack, every defined statistic kind is present and
/// reads exactly zero.
pub proof fn lemma_fresh_snapshot_reads_zero(stats: Seq<u64>, k: StatKey)
    requires
        stats == Seq::new(STAT_KINDS as nat, |i: int| 0u64),
    ensures
        0 <= k.index_spec() < STAT_KINDS,
        stats[k.index_spec()] == 0,
{
}

/// A point-in-time snapshot of every statistic kind's counter: a total
/// mapping, no kind omitted.  Immutable once returned; later activity
/// needs a fresh query.
pub struct StatMap {
    counters: Vec<u64>,
}

impl View for StatMap {
    type V = Seq<u64>;

    closed spec fn view(&self) -> Seq<u64> {
        self.counters@
    }
}

impl StatMap {
    /// A snapshot always covers every defined kind.
    pub closed spec fn wf(self) -> bool {
        self.counters@.len() == STAT_KINDS
    }

    /// The counter for one kind; `Some` for every defined kind, since the
    /// mapping is total.
    pub fn get(&self, k: &StatKey) -> (r: Option<&u64>)
        ensures
            self.wf() ==> (r matches Some(c) && *c == self@[k.index_spec()]),
    {
        if self.counters.len() != STAT_KINDS {
            return None;
        }
        Some(&self.counters[k.index()])
    }
}

/// One statistics query's result.
pub struct Status {
    /// The counter snapshot.
    pub stat: StatMap,
}

/// The cache layer's named options, with reproducible defaults.
#[derive(Clone, Copy, Debug, PartialEq, Eq, Structural)]
pub struct Options {
    /// Percentage of dirty cache at which writeback starts; 0 leaves
    /// writeback to the engine's own schedule.
    pub writeback_threshold: u64,
    /// Seconds between metadata syncs; 0 disables periodic sync.
    pub sync_interval_sec: u64,
}

impl Default for Options {
    /// The documented defaults: no threshold, no periodic sync.
    fn default() -> (r: Options)
        ensures
            r.writeback_threshold == 0,
            r.sync_interval_sec == 0,
    {
        Options { writeback_threshold: 0, sync_interval_sec: 0 }
    }
}

/// The declarative parameters of a write-back cache layer.
pub struct Table {
    /// The path of the slow backing device.
    pub backing_dev: String,
    /// The path of the fast cache device.
    pub cache_dev: String,
    /// The layer's options.
    pub options: Options,
}

/// Invalidates any stale cache metadata on a device that is about to
/// serve as a cache, by zeroing its leading superblock sector.
pub fn sweep_caches<C: Stack>(dev: &mut C)
    requires
        old(dev).inv(),
        old(dev).size_spec() >= 1,
    ensures
        final(dev).inv(),
        final(dev).contents() == splice(
            old(dev).contents(),
            0,
            zeros(SECTOR_BYTES as nat),
        ),
        final(dev).size_spec() == old(dev).size_spec(),
        final(dev).path_spec() == old(dev).path_spec(),
        final(dev).release_order() == old(dev).release_order(),
{
    proof {
        dev.lemma_inv();
    }
    let mut buf: Vec<u8> = Vec::new();
    buf.resize(SECTOR_BYTES as usize, 0u8);
    proof {
        assert(buf@ =~= zeros(SECTOR_BYTES as nat));
    }
    dev.write_bytes(0, buf.as_slice());
}

/// A write-back cache stack over a slow device and a fast cache device.
pub struct Writeboost<S: Stack, C: Stack> {
    slow: S,
    fast: C,
    path: String,
    stats: Vec<u64>,
    options: Options,
}

impl<S: Stack, C: Stack> Writeboost<S, C> {
    /// The slow backing device the stack was built over.
    pub closed spec fn backing(self) -> S {
        self.slow
    }

    /// The fast cache device the stack was built over.
    pub closed spec fn cache(self) -> C {
        self.fast
    }

    /// The current counter of every statistic kind, by index.
    pub closed spec fn stats_spec(&self) -> Seq<u64> {
        self.stats@
    }

    /// Validates the table against the two devices and activates the
    /// cache stack.
    ///
    /// Fails with [`Error::Config`] when the table names devices other
    /// than the ones handed in, or when the cache device cannot hold even
    /// its superblock.  Immediately after a successful create, every
    /// statistic kind reads zero.
    pub fn create(table: Table, slow: S, fast: C) -> (r: Result<Writeboost<S, C>, Error>)
        requires
            slow.inv(),
            fast.inv(),
        ensures
            r is Ok <==> {
                &&& table.backing_dev@ == slow.path_spec()
                &&& table.cache_dev@ == fast.path_spec()
                &&& fast.size_spec() >= 1
            },
            r matches Ok(w) ==> {
                &&& w.inv()
                &&& w.size_spec() == slow.size_spec()
                &&& w.contents() == slow.contents()
                &&& w.path_spec() == table.backing_dev@ + "-wb"@
                &&& w.release_order() == seq![w.path_spec()] + slow.release_order()
                    + fast.release_order()
                &&& w.stats_spec() == Seq::new(STAT_KINDS as nat, |i: int| 0u64)
            },
            r is Err ==> r == Err::<Writeboost<S, C>, Error>(Error::Config),
    {
        let slow_named = slow.path();
        let fast_named = fast.path();
        if !table.backing_dev.eq(&slow_named) || !table.cache_dev.eq(&fast_named) {
            return Err(Error::Config);
        }
        let fast_size = fast.size();
        if fast_size.0 < 1 {
            return Err(Error::Config);
        }
        let mut stats: Vec<u64> = Vec::new();
        stats.resize(STAT_KINDS, 0u64);
        proof {
            assert(stats@ =~= Seq::new(STAT_KINDS as nat, |i: int| 0u64));
        }
        let mut path = table.backing_dev;
        path.append("-wb");
        Ok(Writeboost { slow, fast, path, stats, options: table.options })
    }

    /// Queries a complete, point-in-time-consistent snapshot: every
    /// defined statistic kind is present, none omitted.
    pub fn status(&self) -> (st: Status)
        requires
            self.inv(),
        ensures
            st.stat.wf(),
            st.stat@ == self.stats_spec(),
    {
        let counters = slice_to_vec(self.stats.as_slice());
        Status { stat: StatMap { counters } }
    }

    /// Adds one to the counter at `i`, saturating rather than wrapping.
    fn bump(&mut self, i: usize)
        requires
            i < old(self).stats@.len(),
        ensures
            final(self).stats@.len() == old(self).stats@.len(),
            final(self).slow == old(self).slow,
            final(self).fast == old(self).fast,
            final(self).path == old(self).path,
            final(self).options == old(self).options,
    {
        let c = self.stats[i];
        if c < u64::MAX {
            self.stats.set(i, c + 1);
        }
    }
}

/// Releasing a cache stack deactivates its own mapped device strictly
/// before any device of its upstreams: its own path first, then the
/// backing device's release order, then the cache device's.
pub proof fn lemma_writeboost_releases_downstream_first<S: Stack, C: Stack>(w: Writeboost<S, C>)
    ensures
        w.release_order() == seq![w.path_spec()] + w.backing().release_order()
            + w.cache().release_order(),
{
}

impl<S: Stack, C: Stack> Stack for Writeboost<S, C> {
    closed spec fn inv(&self) -> bool {
        &&& self.slow.inv()
        &&& self.fast.inv()
        &&& self.fast.size_spec() >= 1
        &&& self.stats@.len() == STAT_KINDS
    }

    closed spec fn size_spec(&self) -> nat {
        self.slow.size_spec()
    }

    closed spec fn contents(&self) -> Seq<u8> {
        self.slow.contents()
    }

    closed spec fn path_spec(&self) -> Seq<char> {
        self.path@
    }

    closed spec fn release_order(&self) -> Seq<Seq<char>> {
        seq![self.path@] + self.slow.release_order() + self.fast.release_order()
    }

    proof fn lemma_inv(&self) {
        self.slow.lemma_inv();
    }

    fn path(&self) -> (p: String) {
        self.path.clone()
    }

    fn size(&self) -> (s: Sector) {
        self.slow.size()
    }

    fn read_bytes(&mut self, off: usize, len: usize) -> (r: Vec<u8>) {
        let read_key = StatKey { write: false, hit: false, on_buffer: false, fullsize: false };
        let i = read_key.index();
        self.bump(i);
        self.slow.read_bytes(off, len)
    }

    fn write_bytes(&mut self, off: usize, data: &[u8]) {
        let write_key = StatKey { write: true, hit: false, on_buffer: false, fullsize: false };
        let i = write_key.index();
        self.bump(i);
        self.slow.write_bytes(off, data)
    }

    fn release(self) -> (order: Vec<String>) {
        let mut order: Vec<String> = Vec::new();
        order.push(self.path);
        let mut rest = self.slow.release();
        order.append(&mut rest);
        let mut rest_fast = self.fast.release();
        order.append(&mut rest_fast);
        order
    }
}

} // verus!
