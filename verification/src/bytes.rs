//! Byte-range arithmetic over device contents.
//!
//! A device's contents are modelled as a `Seq<u8>`; a write replaces one
//! range of that sequence and leaves the rest alone.  [`splice`] is that
//! replacement, and the lemmas here are the facts every layer needs: a
//! splice keeps the length, returns exactly the written bytes when the same
//! range is read back, and leaves bytes outside the range untouched.

use vstd::prelude::*;

verus! {

/// `s` with the range starting at `off` replaced by `d`.
pub open spec fn splice(s: Seq<u8>, off: int, d: Seq<u8>) -> Seq<u8>
    recommends
        0 <= off,
        off + d.len() <= s.len(),
{
    s.take(off) + d + s.skip(off + d.len())
}

/// Reading back exactly the range a write covered yields the written bytes.
pub proof fn lemma_splice_read_back(s: Seq<u8>, off: int, d: Seq<u8>)
    requires
        0 <= off,
        off + d.len() <= s.len(),
    ensures
        splice(s, off, d).subrange(off, off + d.len() as int) == d,
{
    assert(splice(s, off, d).subrange(off, off + d.len() as int) =~= d);
}

/// Bytes outside a written range are untouched by the write.
pub proof fn lemma_splice_frame(s: Seq<u8>, off: int, d: Seq<u8>, lo: int, hi: int)
    requires
        0 <= off,
        off + d.len() <= s.len(),
        0 <= lo <= hi <= s.len(),
        hi <= off || off + d.len() <= lo,
    ensures
        splice(s, off, d).subrange(lo, hi) == s.subrange(lo, hi),
{
    assert(splice(s, off, d).subrange(lo, hi) =~= s.subrange(lo, hi));
}

/// A splice inside a subrange is the subrange of the wider splice, shifted
/// by the subrange's start: this is how a linearly remapped layer's writes
/// relate to its backing device's.
pub proof fn lemma_splice_in_subrange(s: Seq<u8>, base: int, limit: int, off: int, d: Seq<u8>)
    requires
        0 <= base <= limit <= s.len(),
        0 <= off,
        base + off + d.len() <= limit,
    ensures
        splice(s, base + off, d).subrange(base, limit) == splice(
            s.subrange(base, limit),
            off,
            d,
        ),
        splice(s, base + off, d).len() == s.len(),
{
    assert(splice(s, base + off, d).subrange(base, limit) =~= splice(
        s.subrange(base, limit),
        off,
        d,
    ));
}

/// The all-zero contents a freshly allocated device starts with.
pub open spec fn zeros(n: nat) -> Seq<u8> {
    Seq::new(n, |i: int| 0u8)
}

} // verus!
