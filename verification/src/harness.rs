//! The latency harness: runs a configured number of timed lookups, one at a
//! time, and records each iteration's body, elapsed time and found flag, in
//! request order.

use vstd::prelude::*;
use crate::clock::MonotoneClock;

verus! {

/// What one timed lookup produced.
pub struct LookupRecord {
    /// The body the lookup returned.
    pub body: Vec<u8>,
    /// Wall-clock nanoseconds the lookup took.
    pub nanos: u64,
    /// Whether the key was found.
    pub found: bool,
}

/// How many iterations a requested count stands for: a negative count runs
/// none.
pub open spec fn iteration_count(iterations: i32) -> nat {
    if iterations <= 0 {
        0
    } else {
        iterations as nat
    }
}

/// Drives the timed iterations of one lookup test. The caller begins an
/// iteration, performs the lookup itself, and hands the outcome back; the
/// harness takes the clock readings and keeps the records.
pub struct Harness {
    target: usize,
    clock: MonotoneClock,
    starts: Vec<u64>,
    pending: Option<u64>,
    records: Vec<LookupRecord>,
}

impl Harness {
    /// The number of iterations the test was asked to run.
    pub closed spec fn target(&self) -> nat {
        self.target as nat
    }

    /// The start readings of the iterations begun so far.
    pub closed spec fn starts(&self) -> Seq<u64> {
        self.starts@
    }

    /// The start reading of an iteration that was begun and not yet finished.
    pub closed spec fn pending(&self) -> Option<u64> {
        self.pending
    }

    /// The records produced so far, in iteration order.
    pub closed spec fn recs(&self) -> Seq<LookupRecord> {
        self.records@
    }

    /// The clock's most recent reading, in nanoseconds since the run was set
    /// up.
    pub closed spec fn clock_last(&self) -> u64 {
        self.clock.last()
    }

    /// The harness bookkeeping invariant: iterations never outnumber the
    /// target, every begun iteration is accounted for, and start readings
    /// never decrease.
    pub closed spec fn wf(&self) -> bool {
        &&& self.records@.len() <= self.target
        &&& self.starts@.len() == self.records@.len() + (if self.pending is Some {
            1nat
        } else {
            0nat
        })
        &&& (forall|i: int, j: int|
            0 <= i <= j < self.starts@.len() ==> self.starts@[i] <= self.starts@[j])
        &&& (forall|i: int| 0 <= i < self.starts@.len() ==> self.starts@[i] <= self.clock.last())
        &&& match self.pending {
            Some(p) => p == self.starts@.last() && self.records@.len() < self.target,
            None => true,
        }
    }

    /// Set up a run of `iterations` timed lookups.
    pub fn new(iterations: i32) -> (h: Harness)
        ensures
            h.wf(),
            h.target() == iteration_count(iterations),
            h.recs() == Seq::<LookupRecord>::empty(),
            h.starts() == Seq::<u64>::empty(),
            h.pending() is None,
            h.clock_last() == 0,
    {
        let t: usize = if iterations <= 0 {
            0
        } else {
            iterations as usize
        };
        Harness {
            target: t,
            clock: MonotoneClock::new(),
            starts: Vec::new(),
            pending: None,
            records: Vec::new(),
        }
    }

    /// Whether every requested iteration has produced its record.
    pub fn done(&self) -> (r: bool)
        requires
            self.wf(),
        ensures
            r == (self.pending() is None && self.recs().len() == self.target()),
    {
        self.pending.is_none() && self.records.len() == self.target
    }

    /// Take the start reading of the next iteration: a fresh reading of the
    /// run's clock.
    pub fn begin_iteration(&mut self)
        requires
            old(self).wf(),
            old(self).pending() is None,
            old(self).recs().len() < old(self).target(),
        ensures
            final(self).wf(),
            final(self).target() == old(self).target(),
            final(self).recs() == old(self).recs(),
            final(self).starts().len() == old(self).starts().len() + 1,
            final(self).starts().drop_last() == old(self).starts(),
            final(self).pending() == Some(final(self).starts().last()),
            final(self).starts().last() == final(self).clock_last(),
            final(self).clock_last() >= old(self).clock_last(),
    {
        let start = self.clock.tick();
        self.starts.push(start);
        self.pending = Some(start);
        proof {
            assert(self.starts@.drop_last() =~= old(self).starts@);
        }
    }

    /// Take the end reading of the current iteration and record its outcome;
    /// the recorded time is that end reading minus the iteration's own start
    /// reading.
    pub fn finish_iteration(&mut self, body: Vec<u8>, found: bool)
        requires
            old(self).wf(),
            old(self).pending() is Some,
        ensures
            final(self).wf(),
            final(self).target() == old(self).target(),
            final(self).starts() == old(self).starts(),
            final(self).pending() is None,
            final(self).recs().len() == old(self).recs().len() + 1,
            final(self).recs().drop_last() == old(self).recs(),
            final(self).recs().last().body == body,
            final(self).recs().last().found == found,
            final(self).recs().last().nanos == final(self).clock_last() - old(
                self,
            ).starts().last(),
            final(self).clock_last() >= old(self).clock_last(),
    {
        let start = self.pending.unwrap();
        let now = self.clock.tick();
        proof {
            assert(old(self).starts@[old(self).starts@.len() - 1] <= old(self).clock.last());
        }
        let elapsed = now - start;
        self.records.push(LookupRecord { body, nanos: elapsed, found });
        self.pending = None;
        proof {
            assert(self.records@.drop_last() =~= old(self).records@);
        }
    }

    /// Hand the records over, in the order the iterations ran.
    pub fn results(self) -> (r: Vec<LookupRecord>)
        ensures
            r@ == self.recs(),
    {
        self.records
    }

    /// The start readings taken so far.
    pub fn start_times(&self) -> (r: &Vec<u64>)
        ensures
            r@ == self.starts(),
    {
        &self.starts
    }

    /// The number of iterations the test was asked to run.
    pub fn iterations_target(&self) -> (r: usize)
        ensures
            r == self.target(),
    {
        self.target
    }
}

/// What one lookup against the underlying store came to.
pub enum IterationEvent {
    /// The key was found, with this body.
    Found(Vec<u8>),
    /// The key was not found: a legitimate outcome, recorded rather than fatal.
    NotFound,
    /// The store itself failed; the run cannot stand for a measurement.
    StoreFailed,
}

/// Absorb the outcome of the current iteration: a found key is recorded with
/// its body, an absent key is recorded as not found with an empty body, and a
/// store failure leaves the harness as it is and asks the caller to abandon
/// the run. A recorded time is the clock's end reading minus the iteration's
/// own start reading.
pub fn record_outcome(h: &mut Harness, event: IterationEvent) -> (ok: bool)
    requires
        old(h).wf(),
        old(h).pending() is Some,
    ensures
        final(h).wf(),
        final(h).target() == old(h).target(),
        final(h).starts() == old(h).starts(),
        match event {
            IterationEvent::Found(body) => {
                &&& ok
                &&& final(h).pending() is None
                &&& final(h).recs().len() == old(h).recs().len() + 1
                &&& final(h).recs().drop_last() == old(h).recs()
                &&& final(h).recs().last().body == body
                &&& final(h).recs().last().found == true
                &&& final(h).recs().last().nanos == final(h).clock_last() - old(
                    h,
                ).starts().last()
                &&& final(h).clock_last() >= old(h).clock_last()
            },
            IterationEvent::NotFound => {
                &&& ok
                &&& final(h).pending() is None
                &&& final(h).recs().len() == old(h).recs().len() + 1
                &&& final(h).recs().drop_last() == old(h).recs()
                &&& final(h).recs().last().body@ == Seq::<u8>::empty()
                &&& final(h).recs().last().found == false
                &&& final(h).recs().last().nanos == final(h).clock_last() - old(
                    h,
                ).starts().last()
                &&& final(h).clock_last() >= old(h).clock_last()
            },
            IterationEvent::StoreFailed => !ok && *final(h) == *old(h),
        },
{
    match event {
        IterationEvent::Found(body) => {
            h.finish_iteration(body, true);
            true
        },
        IterationEvent::NotFound => {
            h.finish_iteration(Vec::new(), false);
            true
        },
        IterationEvent::StoreFailed => false,
    }
}

/// Law: a run never records more iterations than it was asked for; together
/// with `done`, a completed run holds exactly the requested number of
/// records, in the order the iterations ran.
pub proof fn lemma_record_count_bounded(h: Harness)
    requires
        h.wf(),
    ensures
        h.recs().len() <= h.target(),
{
}

/// Law: the start readings of a run's iterations never decrease: a later
/// iteration never starts before an earlier one. Elapsed times are unsigned,
/// so no recorded duration is negative.
pub proof fn lemma_starts_monotone(h: Harness)
    requires
        h.wf(),
    ensures
        forall|i: int, j: int| 0 <= i <= j < h.starts().len() ==> h.starts()[i] <= h.starts()[j],
{
}

} // verus!
