//! Horizon-crossing search: the decision core of the acquisition- and
//! loss-of-signal hunt.
//!
//! The search marches forward from a start instant in fixed steps, asking
//! its driver for the elevation sign at one instant at a time; on a sign
//! change matching the requested direction it refines the bracketing
//! interval by bisection. The driver owns the propagator: it answers each
//! `Evaluate` request with an `ElevationSample` and feeds it back through
//! `next`. Every answer is recorded, and a returned crossing instant is
//! proved to lie inside a recorded bracket, no wider than one march step,
//! whose ends straddle the horizon in the searched direction. The search
//! measure falls with every `Evaluate`, so any driver loop terminates.

use vstd::prelude::*;

verus! {

/// Maximum bisection refinements of one bracket.
pub const REFINE_MAX: u32 = 100;

/// Which horizon crossing is sought.
#[derive(PartialEq, Eq, Structural, Clone, Copy, Debug)]
pub enum Direction {
    /// Acquisition of signal: elevation crosses zero rising.
    Ascending,
    /// Loss of signal: elevation crosses zero falling.
    Descending,
}

/// The elevation sign just before a crossing of the given direction:
/// an ascending pass starts below the horizon.
pub open spec fn starts_below(dir: Direction) -> bool {
    dir is Ascending
}

/// What the driver reports of the elevation at a requested instant.
#[derive(PartialEq, Eq, Structural, Clone, Copy, Debug)]
pub struct ElevationSample {
    /// The elevation is negative.
    pub below_horizon: bool,
    /// The elevation magnitude is within the refinement tolerance.
    pub within_tolerance: bool,
}

/// What the search asks of or tells its driver after each sample.
#[derive(PartialEq, Eq, Structural, Clone, Copy, Debug)]
pub enum SearchStep {
    /// Evaluate the elevation at this instant, milliminutes from epoch.
    Evaluate { t_e3: i64 },
    /// A crossing lies at this instant, milliminutes from epoch.
    Found { t_e3: i64 },
    /// No crossing within the search horizon: the expected outcome for a
    /// satellite that never rises, or never sets, for the observer.
    NotFound,
}

/// Internal state: priming on the first sample, marching by whole steps,
/// or bisecting a bracket.
#[derive(PartialEq, Eq, Structural, Clone, Copy, Debug)]
pub enum Phase {
    /// Waiting for the sample at the start instant.
    Prime { remaining: u32 },
    /// Marching; the last sample was at `prev_t` and reported `prev_below`.
    March { prev_t: i64, prev_below: bool, remaining: u32 },
    /// Bisecting the bracket [lo, hi] whose ends straddle the horizon.
    Refine { lo: i64, hi: i64, remaining: u32 },
}

/// The recorded samples witness a crossing at `t`: a recorded bracket no
/// wider than `step` contains `t`, its low end on the starting side of the
/// horizon for `dir` and its high end on the other.
pub open spec fn crossing_witnessed(
    dir: Direction,
    samples: Map<int, bool>,
    t: i64,
    step: i64,
) -> bool {
    exists|lo: int, hi: int|
        {
            &&& #[trigger] samples[lo] == starts_below(dir)
            &&& #[trigger] samples[hi] == !starts_below(dir)
            &&& samples.dom().contains(lo)
            &&& samples.dom().contains(hi)
            &&& lo <= t as int <= hi
            &&& hi - lo <= step as int
        }
}

/// One horizon-crossing search.
pub struct CrossingSearch {
    /// Direction searched.
    pub dir: Direction,
    /// March step, milliminutes.
    pub step_e3: i64,
    /// Current phase.
    pub phase: Phase,
    /// Instant of the sample the driver was asked for, milliminutes.
    pub pending_t_e3: i64,
    /// Every sample the driver has reported, by instant.
    pub samples: Ghost<Map<int, bool>>,
}

impl CrossingSearch {
    /// Well-formedness: bounded step and times, and the phase's record of
    /// past samples agrees with the sample map.
    pub open spec fn wf(self) -> bool {
        &&& 1 <= self.step_e3 <= 1_000_000_000
        &&& match self.phase {
            Phase::Prime { remaining } => {
                &&& remaining <= 1_000_000
                &&& -2_000_000_000_000_000 <= self.pending_t_e3
                &&& self.pending_t_e3 + (remaining as int + 1) * self.step_e3
                    <= 3_000_000_000_000_000
            },
            Phase::March { prev_t, prev_below, remaining } => {
                &&& remaining <= 1_000_000
                &&& self.pending_t_e3 == prev_t + self.step_e3
                &&& self.samples@.dom().contains(prev_t as int)
                &&& self.samples@[prev_t as int] == prev_below
                &&& -2_000_000_000_000_000 <= prev_t
                &&& self.pending_t_e3 + (remaining as int) * self.step_e3
                    <= 3_000_000_000_000_000
            },
            Phase::Refine { lo, hi, remaining } => {
                &&& remaining <= REFINE_MAX
                &&& 2 <= hi - lo <= self.step_e3
                &&& self.samples@.dom().contains(lo as int)
                &&& self.samples@.dom().contains(hi as int)
                &&& self.samples@[lo as int] == starts_below(self.dir)
                &&& self.samples@[hi as int] == !starts_below(self.dir)
                &&& self.pending_t_e3 == lo + (hi - lo) / 2
                &&& -3_000_000_000_000_000 <= lo
                &&& hi <= 3_000_000_000_000_000
            },
        }
    }

    /// Strictly decreasing whenever the search asks for another sample.
    pub open spec fn measure(self) -> int {
        match self.phase {
            Phase::Prime { remaining } => 3 * (remaining as int) + 2 * (REFINE_MAX as int),
            Phase::March { remaining, .. } => 3 * (remaining as int) + (REFINE_MAX as int) + 1,
            Phase::Refine { remaining, .. } => remaining as int,
        }
    }

    /// Opens a search: the crossing of `dir` is sought from `start_t_e3`
    /// onward, marching by `step_e3` for at most `horizon_steps` steps.
    /// The returned instant is the first the driver must evaluate.
    pub fn start(dir: Direction, start_t_e3: i64, step_e3: i64, horizon_steps: u32) -> (r: (
        CrossingSearch,
        i64,
    ))
        requires
            1 <= step_e3 <= 1_000_000_000,
            -1_000_000_000_000_000 <= start_t_e3 <= 1_000_000_000_000_000,
            horizon_steps <= 1_000_000,
        ensures
            r.0.wf(),
            r.0.dir == dir,
            r.0.step_e3 == step_e3,
            r.0.pending_t_e3 == start_t_e3,
            r.1 == start_t_e3,
            r.0.samples@ == Map::<int, bool>::empty(),
    {
        proof {
            assert((horizon_steps as int + 1) * step_e3 <= 1_000_001_000_000_000)
                by (nonlinear_arith)
                requires
                    horizon_steps <= 1_000_000,
                    1 <= step_e3 <= 1_000_000_000,
            ;
        }
        let s = CrossingSearch {
            dir,
            step_e3,
            phase: Phase::Prime { remaining: horizon_steps },
            pending_t_e3: start_t_e3,
            samples: Ghost(Map::empty()),
        };
        (s, start_t_e3)
    }

    /// Feeds the sample for the pending instant back into the search and
    /// returns what to do next. An `Evaluate` answer carries the new
    /// pending instant and strictly lowers the measure; a `Found` answer
    /// is witnessed by the recorded samples.
    pub fn next(&mut self, sample: ElevationSample) -> (step: SearchStep)
        requires
            old(self).wf(),
        ensures
            final(self).wf(),
            final(self).dir == old(self).dir,
            final(self).step_e3 == old(self).step_e3,
            final(self).samples@ == old(self).samples@.insert(
                old(self).pending_t_e3 as int,
                sample.below_horizon,
            ),
            match step {
                SearchStep::Evaluate { t_e3 } => {
                    &&& t_e3 == final(self).pending_t_e3
                    &&& final(self).measure() < old(self).measure()
                },
                SearchStep::Found { t_e3 } => crossing_witnessed(
                    old(self).dir,
                    final(self).samples@,
                    t_e3,
                    old(self).step_e3,
                ),
                SearchStep::NotFound => (old(self).phase matches Phase::March {
                    prev_below,
                    remaining,
                    ..
                } && remaining == 0 && !(prev_below == starts_below(old(self).dir)
                    && sample.below_horizon != starts_below(old(self).dir))),
            },
    {
        let t = self.pending_t_e3;
        let cur_below = sample.below_horizon;
        proof {
            self.samples@ = self.samples@.insert(t as int, cur_below);
        }
        let dir_below = match self.dir {
            Direction::Ascending => true,
            Direction::Descending => false,
        };
        match self.phase {
            Phase::Prime { remaining } => {
                proof {
                    assert((remaining as int + 1) * self.step_e3 == (remaining as int)
                        * self.step_e3 + self.step_e3) by (nonlinear_arith);
                }
                self.phase = Phase::March { prev_t: t, prev_below: cur_below, remaining };
                self.pending_t_e3 = t + self.step_e3;
                SearchStep::Evaluate { t_e3: self.pending_t_e3 }
            },
            Phase::March { prev_t, prev_below, remaining } => {
                proof {
                    assert((remaining as int) * self.step_e3 >= 0) by (nonlinear_arith)
                        requires
                            remaining >= 0,
                            self.step_e3 >= 1,
                    ;
                }
                if prev_below == dir_below && cur_below != dir_below {
                    if self.step_e3 < 2 {
                        proof {
                            let m = self.samples@;
                            assert(m[prev_t as int] == starts_below(self.dir));
                            assert(m[t as int] == !starts_below(self.dir));
                            assert(crossing_witnessed(self.dir, m, t, self.step_e3));
                        }
                        SearchStep::Found { t_e3: t }
                    } else {
                        self.phase = Phase::Refine { lo: prev_t, hi: t, remaining: REFINE_MAX };
                        self.pending_t_e3 = prev_t + (t - prev_t) / 2;
                        SearchStep::Evaluate { t_e3: self.pending_t_e3 }
                    }
                } else if remaining == 0 {
                    SearchStep::NotFound
                } else {
                    proof {
                        assert((remaining as int) * self.step_e3 == (remaining as int - 1)
                            * self.step_e3 + self.step_e3) by (nonlinear_arith);
                    }
                    self.phase = Phase::March {
                        prev_t: t,
                        prev_below: cur_below,
                        remaining: remaining - 1,
                    };
                    self.pending_t_e3 = t + self.step_e3;
                    SearchStep::Evaluate { t_e3: self.pending_t_e3 }
                }
            },
            Phase::Refine { lo, hi, remaining } => {
                proof {
                    vstd::arithmetic::div_mod::lemma_fundamental_div_mod(hi - lo, 2);
                    vstd::arithmetic::div_mod::lemma_mod_bound(hi - lo, 2);
                    assert(lo < t < hi);
                    let m = self.samples@;
                    assert(m[lo as int] == starts_below(self.dir));
                    assert(m[hi as int] == !starts_below(self.dir));
                    assert(m[t as int] == cur_below);
                }
                let (nlo, nhi) = if cur_below == dir_below {
                    (t, hi)
                } else {
                    (lo, t)
                };
                proof {
                    let m = self.samples@;
                    assert(m[nlo as int] == starts_below(self.dir));
                    assert(m[nhi as int] == !starts_below(self.dir));
                }
                if sample.within_tolerance {
                    proof {
                        assert(crossing_witnessed(self.dir, self.samples@, t, self.step_e3));
                    }
                    SearchStep::Found { t_e3: t }
                } else if nhi - nlo < 2 || remaining == 0 {
                    proof {
                        assert(crossing_witnessed(self.dir, self.samples@, nhi, self.step_e3));
                    }
                    SearchStep::Found { t_e3: nhi }
                } else {
                    self.phase = Phase::Refine { lo: nlo, hi: nhi, remaining: remaining - 1 };
                    self.pending_t_e3 = nlo + (nhi - nlo) / 2;
                    SearchStep::Evaluate { t_e3: self.pending_t_e3 }
                }
            },
        }
    }
}

} // verus!
