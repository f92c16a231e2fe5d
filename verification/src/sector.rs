//! Sector-precise addressing arithmetic.
//!
//! A [`Sector`] is an integral count of fixed-size 512-byte storage units;
//! every offset and length in the harness is expressed in it.  The unit
//! constructors convert kilobyte, megabyte and gigabyte counts to whole
//! sectors (these conversions are always exact, since each unit is a
//! multiple of the sector size), and `+`, `-` and `*` combine sector counts
//! without ever truncating.

use vstd::prelude::*;
use vstd::std_specs::ops::{AddSpec, MulSpec, SubSpec};

verus! {

/// The number of bytes in one sector.
pub const SECTOR_BYTES: u64 = 512;

/// Sectors per kilobyte.
pub const KB_SECTORS: u64 = 2;

/// Sectors per megabyte.
pub const MB_SECTORS: u64 = 2048;

/// Sectors per gigabyte.
pub const GB_SECTORS: u64 = 2097152;

/// A count of 512-byte sectors, used for every device offset and length.
#[derive(Clone, Copy, Debug, PartialEq, Eq, PartialOrd, Ord, Hash, Structural)]
pub struct Sector(pub u64);

impl View for Sector {
    type V = nat;

    open spec fn view(&self) -> nat {
        self.0 as nat
    }
}

/// The sector count of `k` kilobytes.
pub open spec fn kb_sectors(k: nat) -> nat {
    k * (KB_SECTORS as nat)
}

/// The sector count of `m` megabytes.
pub open spec fn mb_sectors(m: nat) -> nat {
    m * (MB_SECTORS as nat)
}

/// The sector count of `g` gigabytes.
pub open spec fn gb_sectors(g: nat) -> nat {
    g * (GB_SECTORS as nat)
}

impl Sector {
    /// A length of `k` kilobytes, converted exactly to sectors.
    #[allow(non_snake_case)]
    pub fn KB(k: u64) -> (s: Sector)
        requires
            k * KB_SECTORS <= u64::MAX,
        ensures
            s@ == kb_sectors(k as nat),
    {
        Sector(k * KB_SECTORS)
    }

    /// A length of `m` megabytes, converted exactly to sectors.
    #[allow(non_snake_case)]
    pub fn MB(m: u64) -> (s: Sector)
        requires
            m * MB_SECTORS <= u64::MAX,
        ensures
            s@ == mb_sectors(m as nat),
    {
        Sector(m * MB_SECTORS)
    }

    /// A length of `g` gigabytes, converted exactly to sectors.
    #[allow(non_snake_case)]
    pub fn GB(g: u64) -> (s: Sector)
        requires
            g * GB_SECTORS <= u64::MAX,
        ensures
            s@ == gb_sectors(g as nat),
    {
        Sector(g * GB_SECTORS)
    }

    /// This count in bytes, for indexing into a byte buffer.
    pub fn to_bytes(&self) -> (n: usize)
        requires
            self.0 * SECTOR_BYTES <= usize::MAX,
        ensures
            n == self@ * SECTOR_BYTES,
    {
        (self.0 * SECTOR_BYTES) as usize
    }
}

/// Megabyte lengths add as their counts do: for all non-negative `a` and
/// `b` whose sum is representable, `Sector::MB(a) + Sector::MB(b)` is the
/// value `Sector::MB(a + b)` constructs.
pub proof fn lemma_sector_mb_add(a: u64, b: u64)
    requires
        (a + b) * MB_SECTORS <= u64::MAX,
    ensures
        Sector((a * MB_SECTORS) as u64).add_spec(Sector((b * MB_SECTORS) as u64)) == Sector(
            ((a + b) * MB_SECTORS) as u64,
        ),
        kb_sectors(a as nat) + kb_sectors(b as nat) == kb_sectors((a + b) as nat),
        mb_sectors(a as nat) + mb_sectors(b as nat) == mb_sectors((a + b) as nat),
        gb_sectors(a as nat) + gb_sectors(b as nat) == gb_sectors((a + b) as nat),
{
}

/// Megabyte lengths subtract as their counts do, and a megabyte is
/// exactly 1024 kilobytes: for `b <= a`, `Sector::MB(a) - Sector::MB(b)`
/// is the value `Sector::KB((a - b) * 1024)` constructs.
pub proof fn lemma_sector_mb_sub(a: u64, b: u64)
    requires
        b <= a,
        a * MB_SECTORS <= u64::MAX,
    ensures
        Sector((a * MB_SECTORS) as u64).sub_spec(Sector((b * MB_SECTORS) as u64)) == Sector(
            (((a - b) * 1024) * KB_SECTORS) as u64,
        ),
        mb_sectors(a as nat) - mb_sectors(b as nat) == kb_sectors(((a - b) * 1024) as nat),
{
}

/// Scaling a megabyte length multiplies its count: `Sector::MB(a) * k` is
/// the value `Sector::MB(a * k)` constructs.
pub proof fn lemma_sector_mb_mul(a: u64, k: u64)
    requires
        a * MB_SECTORS <= u64::MAX,
        (a * k) * MB_SECTORS <= u64::MAX,
    ensures
        Sector((a * MB_SECTORS) as u64).mul_spec(k) == Sector(((a * k) * MB_SECTORS) as u64),
{
    assert((a * MB_SECTORS) * k == (a * k) * MB_SECTORS) by (nonlinear_arith);
}

impl core::ops::Add for Sector {
    type Output = Sector;

    /// Sector addition; the operands must not overflow the sector counter.
    fn add(self, rhs: Sector) -> (r: Sector) {
        Sector(self.0 + rhs.0)
    }
}

impl vstd::std_specs::ops::AddSpecImpl for Sector {
    open spec fn obeys_add_spec() -> bool {
        true
    }

    open spec fn add_req(self, rhs: Sector) -> bool {
        self.0 + rhs.0 <= u64::MAX
    }

    open spec fn add_spec(self, rhs: Sector) -> Sector {
        Sector((self.0 + rhs.0) as u64)
    }
}

impl core::ops::Sub for Sector {
    type Output = Sector;

    /// Sector subtraction; the left operand must be at least the right one,
    /// since a negative length or offset is never meaningful here.
    fn sub(self, rhs: Sector) -> (r: Sector) {
        Sector(self.0 - rhs.0)
    }
}

impl vstd::std_specs::ops::SubSpecImpl for Sector {
    open spec fn obeys_sub_spec() -> bool {
        true
    }

    open spec fn sub_req(self, rhs: Sector) -> bool {
        rhs.0 <= self.0
    }

    open spec fn sub_spec(self, rhs: Sector) -> Sector {
        Sector((self.0 - rhs.0) as u64)
    }
}

impl core::ops::Mul<u64> for Sector {
    type Output = Sector;

    /// Scales a sector count by an integer factor.
    fn mul(self, rhs: u64) -> (r: Sector) {
        Sector(self.0 * rhs)
    }
}

impl vstd::std_specs::ops::MulSpecImpl<u64> for Sector {
    open spec fn obeys_mul_spec() -> bool {
        true
    }

    open spec fn mul_req(self, rhs: u64) -> bool {
        self.0 * rhs <= u64::MAX
    }

    open spec fn mul_spec(self, rhs: u64) -> Sector {
        Sector((self.0 * rhs) as u64)
    }
}

} // verus!
