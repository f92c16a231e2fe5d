//! The pattern-driven I/O verification engine.
//!
//! A pattern sequence is a script of `Write`/`Read`/`Skip` steps that a
//! cursor walks forward through a device's address space, under a total
//! I/O budget.  Writes lay down a deterministic, length-dependent fill;
//! reads of a range that an earlier write covered exactly are checked
//! against that fill; skips move the cursor for free.  The whole engine is
//! specified by the step interpreter [`engine_step`] folded over the
//! script by [`engine_run`]: `submit` ends in exactly the state and
//! result the interpreter computes.

use vstd::prelude::*;

use crate::bytes::splice;
use crate::error::Error;
use crate::io::{bytes_equal, BlockIO};
use crate::sector::{Sector, SECTOR_BYTES};
use crate::stack::Stack;

verus! {

/// One scripted I/O step, with its length in sectors.
#[derive(Clone, Copy, Debug)]
pub enum Pattern {
    /// Write that many sectors of fill at the cursor.
    Write(Sector),
    /// Read that many sectors at the cursor and verify them.
    Read(Sector),
    /// Move the cursor forward without I/O.
    Skip(Sector),
}

/// The fill byte a write of `len` sectors lays down everywhere: length
/// dependent, so the content of a range is reproducible from the length
/// that was written over it.
pub open spec fn fill_byte(len: u64) -> u8 {
    (len % 251) as u8
}

/// The full fill buffer of a write of `len` sectors.
pub open spec fn fill_seq(len: u64) -> Seq<u8> {
    Seq::new((len as nat) * (SECTOR_BYTES as nat), |i: int| fill_byte(len))
}

/// Whether an earlier write covered exactly the range of `len` sectors at
/// `off`.
pub open spec fn has_record(recs: Seq<(u64, u64)>, off: u64, len: u64) -> bool {
    exists|i: int| 0 <= i < recs.len() && recs[i] == (off, len)
}

/// An engine state as the interpreter sees it: the cursor and consumed
/// budget in sectors, the ranges written so far, the device's bytes, and
/// the first fault hit, if any.
#[verifier::ext_equal]
pub struct EngineRun {
    /// The cursor, in sectors from the device's start.
    pub cursor: u64,
    /// How many sectors of I/O the script has consumed.
    pub consumed: u64,
    /// Every `(offset, length)` range a write has covered.
    pub recs: Seq<(u64, u64)>,
    /// The device's contents.
    pub mem: Seq<u8>,
    /// The first error the script ran into, if any.
    pub fault: Option<Error>,
}

/// One interpreter step.  A faulted state absorbs every further step; the
/// budget is checked before the bounds, and both before any I/O happens,
/// so a failing step leaves cursor, budget and contents untouched.
pub open spec fn engine_step(st: EngineRun, max: u64, p: Pattern) -> EngineRun {
    if st.fault is Some {
        st
    } else {
        match p {
            Pattern::Skip(l) => {
                if (st.cursor + l.0) * SECTOR_BYTES > st.mem.len() {
                    EngineRun { fault: Some(Error::Io), ..st }
                } else {
                    EngineRun { cursor: (st.cursor + l.0) as u64, ..st }
                }
            },
            Pattern::Write(l) => {
                if st.consumed + l.0 > max {
                    EngineRun { fault: Some(Error::BudgetExceeded), ..st }
                } else if (st.cursor + l.0) * SECTOR_BYTES > st.mem.len() {
                    EngineRun { fault: Some(Error::Io), ..st }
                } else {
                    EngineRun {
                        cursor: (st.cursor + l.0) as u64,
                        consumed: (st.consumed + l.0) as u64,
                        recs: st.recs.push((st.cursor, l.0)),
                        mem: splice(st.mem, st.cursor * SECTOR_BYTES, fill_seq(l.0)),
                        fault: None,
                    }
                }
            },
            Pattern::Read(l) => {
                if st.consumed + l.0 > max {
                    EngineRun { fault: Some(Error::BudgetExceeded), ..st }
                } else if (st.cursor + l.0) * SECTOR_BYTES > st.mem.len() {
                    EngineRun { fault: Some(Error::Io), ..st }
                } else if has_record(st.recs, st.cursor, l.0) && st.mem.subrange(
                    st.cursor * SECTOR_BYTES,
                    (st.cursor + l.0) * SECTOR_BYTES,
                ) != fill_seq(l.0) {
                    EngineRun { fault: Some(Error::Verification), ..st }
                } else {
                    EngineRun {
                        cursor: (st.cursor + l.0) as u64,
                        consumed: (st.consumed + l.0) as u64,
                        ..st
                    }
                }
            },
        }
    }
}

/// The interpreter folded over a whole script.
pub open spec fn engine_run(st: EngineRun, max: u64, pats: Seq<Pattern>) -> EngineRun
    decreases pats.len(),
{
    if pats.len() == 0 {
        st
    } else {
        engine_run(engine_step(st, max, pats[0]), max, pats.skip(1))
    }
}

/// Appending one step to a script runs the script and then the step.
pub proof fn lemma_run_push(st: EngineRun, max: u64, pats: Seq<Pattern>, p: Pattern)
    ensures
        engine_run(st, max, pats.push(p)) == engine_step(engine_run(st, max, pats), max, p),
    decreases pats.len(),
{
    reveal_with_fuel(engine_run, 3);
    if pats.len() == 0 {
        assert(pats.push(p)[0] == p);
        assert(pats.push(p).skip(1) =~= Seq::<Pattern>::empty());
    } else {
        assert(pats.push(p)[0] == pats[0]);
        assert(pats.push(p).skip(1) =~= pats.skip(1).push(p));
        lemma_run_push(engine_step(st, max, pats[0]), max, pats.skip(1), p);
    }
}

/// A faulted state absorbs any remaining script.
pub proof fn lemma_run_fault(st: EngineRun, max: u64, pats: Seq<Pattern>)
    requires
        st.fault is Some,
    ensures
        engine_run(st, max, pats) == st,
    decreases pats.len(),
{
    if pats.len() > 0 {
        lemma_run_fault(st, max, pats.skip(1));
    }
}

/// The engine never consumes more I/O than its budget: however a script
/// ends, the consumed counter stays within the configured maximum, since
/// an over-budget step faults with `BudgetExceeded` before it is issued.
pub proof fn lemma_engine_budget(st: EngineRun, max: u64, pats: Seq<Pattern>)
    requires
        st.consumed <= max,
    ensures
        engine_run(st, max, pats).consumed <= max,
    decreases pats.len(),
{
    if pats.len() > 0 {
        lemma_engine_budget(engine_step(st, max, pats[0]), max, pats.skip(1));
    }
}

/// A write–skip–read–skip script on a fresh engine always runs to
/// completion with no verification error, whenever its total I/O fits
/// the budget and the walked range fits the device: the read sees either
/// an unrecorded range (nothing to verify) or, when both lengths are
/// zero, exactly the empty fill it expects.
pub proof fn lemma_write_skip_read_skip_succeeds(mem: Seq<u8>, max: u64, a: u64, b: u64)
    requires
        a + a <= max,
        (a + b + a + b) * SECTOR_BYTES <= mem.len(),
        mem.len() <= usize::MAX,
    ensures
        ({
            let st = EngineRun {
                cursor: 0,
                consumed: 0,
                recs: Seq::<(u64, u64)>::empty(),
                mem,
                fault: None,
            };
            let script = seq![
                Pattern::Write(Sector(a)),
                Pattern::Skip(Sector(b)),
                Pattern::Read(Sector(a)),
                Pattern::Skip(Sector(b)),
            ];
            engine_run(st, max, script).fault is None
        }),
{
    reveal_with_fuel(engine_run, 6);
    let st = EngineRun {
        cursor: 0,
        consumed: 0,
        recs: Seq::<(u64, u64)>::empty(),
        mem,
        fault: None,
    };
    let script = seq![
        Pattern::Write(Sector(a)),
        Pattern::Skip(Sector(b)),
        Pattern::Read(Sector(a)),
        Pattern::Skip(Sector(b)),
    ];
    let s1 = engine_step(st, max, script[0]);
    let s2 = engine_step(s1, max, script[1]);
    let s3 = engine_step(s2, max, script[2]);
    let s4 = engine_step(s3, max, script[3]);
    assert(s1.fault is None && s1.cursor == a && s1.consumed == a);
    assert(s1.recs =~= seq![(0u64, a)]);
    assert(s1.mem.len() == mem.len());
    assert(s2.fault is None && s2.cursor == a + b);
    assert(s3.fault is None) by {
        if has_record(s2.recs, s2.cursor, a) {
            let i = choose|i: int| 0 <= i < s2.recs.len() && s2.recs[i] == (s2.cursor, a);
            assert(s2.recs[i] == (0u64, a));
            assert(a == 0 && b == 0);
            assert(s2.mem.subrange(0, 0) =~= fill_seq(0));
        }
    }
    assert(s4.fault is None);
    assert(script.skip(1).skip(1).skip(1).skip(1) =~= Seq::<Pattern>::empty());
    assert(script.skip(1).skip(1).skip(1) =~= script.subrange(3, 4));
    assert(script.skip(1).skip(1) =~= script.subrange(2, 4));
    assert(script.skip(1) =~= script.subrange(1, 4));
    assert(engine_run(st, max, script) == s4);
}

/// A script whose step `i` faults ends in exactly that faulted state.
pub proof fn lemma_script_faults_at(st0: EngineRun, max: u64, pats: Seq<Pattern>, i: int, pre: EngineRun)
    requires
        0 <= i < pats.len(),
        engine_run(st0, max, pats.take(i)) == pre,
        engine_step(pre, max, pats[i]).fault is Some,
    ensures
        engine_run(st0, max, pats) == engine_step(pre, max, pats[i]),
{
    assert(pats.take(i).push(pats[i]) =~= pats.take(i + 1));
    lemma_run_push(st0, max, pats.take(i), pats[i]);
    assert(pats.take(i + 1) + pats.skip(i + 1) =~= pats);
    lemma_run_split(st0, max, pats.take(i + 1), pats.skip(i + 1));
    lemma_run_fault(engine_step(pre, max, pats[i]), max, pats.skip(i + 1));
}

/// The scripted I/O engine: a cursor, a consumed-budget counter, and the
/// record of every range written, all of which persist across
/// submissions, so a later submission continues where the previous one
/// stopped.
pub struct PatternIO {
    /// The cursor, in sectors from the device's start.
    pub cursor: u64,
    /// How many sectors of I/O have been consumed.
    pub consumed: u64,
    /// The total I/O budget, in sectors.
    pub max_io: u64,
    /// Every `(offset, length)` range written so far.
    pub records: Vec<(u64, u64)>,
}

impl PatternIO {
    /// The engine's state as the interpreter sees it, over a device
    /// holding `mem`.
    pub open spec fn st(self, mem: Seq<u8>) -> EngineRun {
        EngineRun {
            cursor: self.cursor,
            consumed: self.consumed,
            recs: self.records@,
            mem,
            fault: None,
        }
    }

    /// The consumed counter never passes the budget.
    pub open spec fn wf(self) -> bool {
        self.consumed <= self.max_io
    }

    /// A fresh engine: cursor at the device's start, nothing consumed,
    /// nothing recorded, and an unlimited budget until one is configured.
    pub fn new() -> (e: PatternIO)
        ensures
            e.cursor == 0,
            e.consumed == 0,
            e.max_io == u64::MAX,
            e.records@ == Seq::<(u64, u64)>::empty(),
            e.wf(),
    {
        PatternIO { cursor: 0, consumed: 0, max_io: u64::MAX, records: Vec::new() }
    }

    /// Configures the total I/O budget; meant for a fresh engine.
    pub fn max_io_amount(self, max: Sector) -> (e: PatternIO)
        requires
            self.consumed == 0,
        ensures
            e.cursor == self.cursor,
            e.consumed == 0,
            e.max_io == max@,
            e.records@ == self.records@,
            e.wf(),
    {
        PatternIO { max_io: max.0, ..self }
    }

    /// Runs a script against an open handle, exactly as the interpreter
    /// [`engine_run`] describes: the cursor walks forward, writes lay
    /// down their fill, reads of exactly recorded ranges are verified,
    /// and the first over-budget, out-of-range or mismatching step stops
    /// the script with its error before issuing any I/O of its own.
    #[verifier::loop_isolation(false)]
    pub fn submit<S: Stack>(&mut self, rw: &mut BlockIO<S>, pats: &Vec<Pattern>) -> (r: Result<
        (),
        Error,
    >)
        requires
            old(rw).dev.inv(),
            old(self).wf(),
        ensures
            final(self).wf(),
            final(rw).dev.inv(),
            final(rw).dev.size_spec() == old(rw).dev.size_spec(),
            final(rw).dev.path_spec() == old(rw).dev.path_spec(),
            final(rw).dev.release_order() == old(rw).dev.release_order(),
            final(self).max_io == old(self).max_io,
            ({
                let run = engine_run(
                    old(self).st(old(rw).dev.contents()),
                    old(self).max_io,
                    pats@,
                );
                &&& final(rw).dev.contents() == run.mem
                &&& final(self).cursor == run.cursor
                &&& final(self).consumed == run.consumed
                &&& final(self).records@ == run.recs
                &&& r == (match run.fault {
                    Option::None => Ok::<(), Error>(()),
                    Option::Some(e) => Err::<(), Error>(e),
                })
            }),
    {
        proof {
            rw.dev.lemma_inv();
        }
        let ghost st0 = old(self).st(old(rw).dev.contents());
        let ghost max0 = old(self).max_io;
        let sz: u64 = rw.dev.size().0;
        let n = pats.len();
        let mut i: usize = 0;
        while i < n
            invariant
                0 <= i <= n,
                n == pats@.len(),
                rw.dev.inv(),
                self.wf(),
                self.max_io == max0,
                sz == rw.dev.size_spec(),
                rw.dev.size_spec() * SECTOR_BYTES <= usize::MAX,
                rw.dev.contents().len() == rw.dev.size_spec() * SECTOR_BYTES,
                rw.dev.size_spec() == old(rw).dev.size_spec(),
                rw.dev.path_spec() == old(rw).dev.path_spec(),
                rw.dev.release_order() == old(rw).dev.release_order(),
                engine_run(st0, max0, pats@.take(i as int)) == self.st(rw.dev.contents()),
            decreases n - i,
        {
            let ghost pre = self.st(rw.dev.contents());
            let ghost taken = pats@.take(i as int);
            proof {
                assert(taken.push(pats@[i as int]) =~= pats@.take(i as int + 1));
                lemma_run_push(st0, max0, taken, pats@[i as int]);
            }
            let p = pats[i];
            match p {
                Pattern::Skip(l) => {
                    if l.0 > sz || self.cursor > sz - l.0 {
                        proof {
                            assert(engine_step(pre, max0, p).fault == Some(Error::Io));
                            lemma_script_faults_at(st0, max0, pats@, i as int, pre);
                        }
                        return Err(Error::Io);
                    }
                    self.cursor = self.cursor + l.0;
                },
                Pattern::Write(l) => {
                    if l.0 > self.max_io - self.consumed {
                        proof {
                            assert(engine_step(pre, max0, p).fault == Some(Error::BudgetExceeded));
                            lemma_script_faults_at(st0, max0, pats@, i as int, pre);
                        }
                        return Err(Error::BudgetExceeded);
                    }
                    if l.0 > sz || self.cursor > sz - l.0 {
                        proof {
                            assert(engine_step(pre, max0, p).fault == Some(Error::Io));
                            lemma_script_faults_at(st0, max0, pats@, i as int, pre);
                        }
                        return Err(Error::Io);
                    }
                    let nbytes: usize = (l.0 * SECTOR_BYTES) as usize;
                    let mut buf: Vec<u8> = Vec::new();
                    buf.resize(nbytes, (l.0 % 251) as u8);
                    proof {
                        assert(buf@ =~= fill_seq(l.0));
                    }
                    rw.write(&buf, Sector(self.cursor), l);
                    self.records.push((self.cursor, l.0));
                    self.consumed = self.consumed + l.0;
                    self.cursor = self.cursor + l.0;
                },
                Pattern::Read(l) => {
                    if l.0 > self.max_io - self.consumed {
                        proof {
                            assert(engine_step(pre, max0, p).fault == Some(Error::BudgetExceeded));
                            lemma_script_faults_at(st0, max0, pats@, i as int, pre);
                        }
                        return Err(Error::BudgetExceeded);
                    }
                    if l.0 > sz || self.cursor > sz - l.0 {
                        proof {
                            assert(engine_step(pre, max0, p).fault == Some(Error::Io));
                            lemma_script_faults_at(st0, max0, pats@, i as int, pre);
                        }
                        return Err(Error::Io);
                    }
                    let nbytes: usize = (l.0 * SECTOR_BYTES) as usize;
                    let mut rbuf: Vec<u8> = Vec::new();
                    rbuf.resize(nbytes, 0u8);
                    rw.read(&mut rbuf, Sector(self.cursor), l);
                    let found = has_record_exec(&self.records, self.cursor, l.0);
                    if found {
                        let mut expected: Vec<u8> = Vec::new();
                        expected.resize(nbytes, (l.0 % 251) as u8);
                        proof {
                            assert(expected@ =~= fill_seq(l.0));
                        }
                        let ok = bytes_equal(&rbuf, &expected);
                        if !ok {
                            proof {
                                assert(engine_step(pre, max0, p).fault == Some(Error::Verification));
                                lemma_script_faults_at(st0, max0, pats@, i as int, pre);
                            }
                            return Err(Error::Verification);
                        }
                    }
                    self.consumed = self.consumed + l.0;
                    self.cursor = self.cursor + l.0;
                },
            }
            i = i + 1;
        }
        proof {
            assert(pats@.take(n as int) =~= pats@);
        }
        Ok(())
    }
}

/// Prefixing a script splits its run into the prefix's run and the rest.
pub proof fn lemma_run_split(st: EngineRun, max: u64, a: Seq<Pattern>, b: Seq<Pattern>)
    ensures
        engine_run(st, max, a + b) == engine_run(engine_run(st, max, a), max, b),
    decreases a.len(),
{
    if a.len() == 0 {
        assert(a + b =~= b);
    } else {
        assert((a + b)[0] == a[0]);
        assert((a + b).skip(1) =~= a.skip(1) + b);
        lemma_run_split(engine_step(st, max, a[0]), max, a.skip(1), b);
    }
}

/// Whether the records hold exactly the range of `len` sectors at `off`.
fn has_record_exec(recs: &Vec<(u64, u64)>, off: u64, len: u64) -> (found: bool)
    ensures
        found == has_record(recs@, off, len),
{
    let n = recs.len();
    let mut j: usize = 0;
    while j < n
        invariant
            0 <= j <= n,
            n == recs@.len(),
            forall|k: int| 0 <= k < j ==> recs@[k] != (off, len),
        decreases n - j,
    {
        let r = recs[j];
        if r.0 == off && r.1 == len {
            assert(recs@[j as int] == (off, len));
            return true;
        }
        j = j + 1;
    }
    false
}

} // verus!
