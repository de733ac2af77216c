//! The mediant search engine: binary search over the Stern-Brocot tree.
//!
//! The engine maintains a pair of fraction bounds that bracket the target,
//! repeatedly replaces one bound by the mediant of the two, and stops when
//! the injected probe reports convergence. The probe is the only place the
//! floating-point target is consulted: it receives each candidate mediant
//! and answers whether the candidate matches the target, overshoots it, or
//! undershoots it. Everything else — bound initialization, the bisection
//! decisions, overflow detection, the iteration budget, and the diagnostic
//! trace — is exact integer logic, verified here.

use vstd::prelude::*;

use crate::error::FareyError;
use crate::fraction::Fraction;
use crate::fraction::lemma_fraction_eq;
use crate::fraction::lemma_mediant_bracketing;

verus! {

/// The iteration budget. Each mediant step advances the Farey walk by one
/// unit of one continued-fraction term of the target, so a target lying
/// next to a simple rational can need millions of steps before the
/// convergence test fires; the budget is generous enough for every such
/// walk that double precision can resolve, while still guaranteeing the
/// search terminates instead of crawling toward a sum overflow for years.
pub const MAX_ITERATIONS: usize = 100000000;

/// The probe's verdict on one candidate mediant.
#[derive(Clone, Copy, Debug, PartialEq, Eq, Structural)]
pub enum Probe {
    /// The candidate matches the target to within the caller's tolerance:
    /// the search terminates with this candidate.
    Converged,
    /// The candidate's value is above the target: the candidate becomes the
    /// new right bound and the lower half is searched.
    High,
    /// The candidate's value is at or below the target: the candidate
    /// becomes the new left bound and the upper half is searched.
    Low,
}

/// One iteration of the search, as observed on the diagnostic trace: the
/// bounds the iteration started from, the candidate it proposed, and the
/// probe's verdict on that candidate.
#[derive(Clone, Copy, Debug, PartialEq, Eq, Structural)]
pub struct TraceRecord {
    /// The left bound at the start of the iteration.
    pub left: Fraction,
    /// The candidate proposed to the probe: the mediant of the two bounds,
    /// or the shared bound itself when the two bounds coincide.
    pub candidate: Fraction,
    /// The right bound at the start of the iteration.
    pub right: Fraction,
    /// The probe's verdict on the candidate.
    pub decision: Probe,
}

/// The numerator of the initial right bound: the target's integer part when
/// the target is whole, one more otherwise.
pub open spec fn initial_ceil(ipart: u64, whole: bool) -> int {
    if whole {
        ipart as int
    } else {
        ipart as int + 1
    }
}

/// The left bound after an iteration: the candidate on a `Low` verdict, the
/// old left bound otherwise.
pub open spec fn next_left(rec: TraceRecord) -> Fraction {
    if rec.decision is Low {
        rec.candidate
    } else {
        rec.left
    }
}

/// The right bound after an iteration: the candidate on a `High` verdict,
/// the old right bound otherwise.
pub open spec fn next_right(rec: TraceRecord) -> Fraction {
    if rec.decision is High {
        rec.candidate
    } else {
        rec.right
    }
}

/// The candidate a record's bounds give rise to is correct: the mediant of
/// the two bounds — component-wise sums — when they differ, and the shared
/// bound itself when they coincide (a whole target starts that way, and the
/// target is then returned in lowest terms as `ipart/1` rather than as the
/// mediant `2*ipart/2`).
pub open spec fn candidate_of(rec: TraceRecord) -> bool {
    if rec.left == rec.right {
        rec.candidate == rec.left
    } else {
        rec.candidate.num() == rec.left.num() + rec.right.num() && rec.candidate.den()
            == rec.left.den() + rec.right.den()
    }
}

/// The trace is one connected bisection run: it starts from the bounds
/// `ipart/1` and `ceil/1`, each record's candidate arises from that
/// record's bounds, each later record's bounds are the previous record's
/// bounds narrowed on exactly the side its verdict selected, and only the
/// final record may carry the `Converged` verdict.
pub open spec fn trace_connected(ipart: u64, whole: bool, trace: Seq<TraceRecord>) -> bool {
    &&& (trace.len() > 0 ==> {
        &&& trace[0].left.num() == ipart
        &&& trace[0].left.den() == 1
        &&& trace[0].right.num() as int == initial_ceil(ipart, whole)
        &&& trace[0].right.den() == 1
    })
    &&& (forall|i: int| 0 <= i < trace.len() ==> candidate_of(#[trigger] trace[i]))
    &&& (forall|i: int|
        0 < i < trace.len() ==> (#[trigger] trace[i]).left == next_left(trace[i - 1]))
    &&& (forall|i: int|
        0 < i < trace.len() ==> (#[trigger] trace[i]).right == next_right(trace[i - 1]))
    &&& (forall|i: int|
        0 <= i < trace.len() - 1 ==> !((#[trigger] trace[i]).decision is Converged))
}

/// Every record of the trace is well-formed and bracketed: the bounds are
/// ordered as exact rationals, the candidate lies between them, and it lies
/// strictly between them whenever they differ.
pub open spec fn trace_bracketed(trace: Seq<TraceRecord>) -> bool {
    forall|i: int|
        0 <= i < trace.len() ==> {
            &&& (#[trigger] trace[i]).left.wf()
            &&& trace[i].right.wf()
            &&& trace[i].candidate.wf()
            &&& trace[i].left.ratio_le(trace[i].right)
            &&& trace[i].left.ratio_le(trace[i].candidate)
            &&& trace[i].candidate.ratio_le(trace[i].right)
            &&& (trace[i].left.ratio_lt(trace[i].right) ==> trace[i].left.ratio_lt(
                trace[i].candidate,
            ) && trace[i].candidate.ratio_lt(trace[i].right))
        }
}

/// Approximates a target by mediant bisection.
///
/// The caller describes the target by its integer part `ipart` and whether
/// the target is a whole number, and supplies the `probe` that compares a
/// candidate fraction against the target. The search starts from the bounds
/// `ipart/1` and `ceil/1`, and each iteration proposes the mediant of the
/// current bounds (the shared bound itself while the two coincide, so a
/// whole target comes back as `ipart/1` in lowest terms), hands one trace
/// record to the `sink` — the injectable observer behind the diagnostic
/// output — and either returns the candidate (probe says `Converged`) or
/// narrows one bound (probe says `High` or `Low`).
///
/// The run ends in one of exactly three ways, and the returned ghost trace
/// reports the whole of it: exactly the records handed to the sink, in
/// iteration order:
/// - `Ok(f)`: the probe accepted the final record's candidate `f`;
/// - `Err(ArithmeticOverflow)`: the next mediant's numerator or denominator
///   sum would exceed the unsigned 64-bit range — no wrapped or corrupted
///   fraction is ever produced;
/// - `Err(NonConvergence)`: the iteration budget ran out with the probe
///   never having accepted a candidate.
///
/// A `DivisionByZero` from the mediant's underlying construction is
/// propagated by the code, and the contract proves the case unreachable:
/// both denominators stay positive throughout.
pub fn search<F: Fn(Fraction) -> Probe, S: Fn(TraceRecord)>(
    ipart: u64,
    whole: bool,
    probe: F,
    sink: S,
) -> (r: (Result<Fraction, FareyError>, Ghost<Seq<TraceRecord>>))
    requires
        whole || ipart < u64::MAX,
        forall|m: Fraction| m.wf() ==> call_requires(probe, (m,)),
        forall|rec: TraceRecord| call_requires(sink, (rec,)),
    ensures
        trace_connected(ipart, whole, r.1@),
        trace_bracketed(r.1@),
        forall|i: int|
            0 <= i < r.1@.len() ==> call_ensures(
                probe,
                ((#[trigger] r.1@[i]).candidate,),
                r.1@[i].decision,
            ),
        forall|i: int| 0 <= i < r.1@.len() ==> call_ensures(sink, ((#[trigger] r.1@[i]),), ()),
        r.1@.len() <= MAX_ITERATIONS,
        r.0 is Ok || r.0 == Err::<Fraction, FareyError>(FareyError::ArithmeticOverflow) || r.0
            == Err::<Fraction, FareyError>(FareyError::NonConvergence),
        r.0 matches Ok(f) ==> r.1@.len() > 0 && r.1@.last().decision is Converged && f
            == r.1@.last().candidate,
        r.0 == Err::<Fraction, FareyError>(FareyError::NonConvergence) ==> r.1@.len()
            == MAX_ITERATIONS && !(r.1@.last().decision is Converged),
        r.0 == Err::<Fraction, FareyError>(FareyError::ArithmeticOverflow) ==> {
            &&& r.1@.len() < MAX_ITERATIONS
            &&& (r.1@.len() == 0 ==> !whole && ipart + initial_ceil(ipart, whole) > u64::MAX)
            &&& (r.1@.len() > 0 ==> {
                let l = next_left(r.1@.last());
                let rr = next_right(r.1@.last());
                &&& !(r.1@.last().decision is Converged)
                &&& l != rr
                &&& (l.num() + rr.num() > u64::MAX || l.den() + rr.den() > u64::MAX)
            })
        },
{
    let left0 = match Fraction::new(ipart, 1) {
        Ok(f) => f,
        Err(e) => {
            return (Err(e), Ghost(Seq::empty()));
        },
    };
    let ceil: u64 = if whole {
        ipart
    } else {
        ipart + 1
    };
    let right0 = match Fraction::new(ceil, 1) {
        Ok(f) => f,
        Err(e) => {
            return (Err(e), Ghost(Seq::empty()));
        },
    };
    let mut left = left0;
    let mut right = right0;
    let ghost mut trace: Seq<TraceRecord> = Seq::empty();
    let mut iter: usize = 0;
    while iter < MAX_ITERATIONS
        invariant
            forall|m: Fraction| m.wf() ==> call_requires(probe, (m,)),
            forall|rec: TraceRecord| call_requires(sink, (rec,)),
            left.wf(),
            right.wf(),
            left.ratio_le(right),
            trace.len() == iter,
            iter <= MAX_ITERATIONS,
            trace_connected(ipart, whole, trace),
            trace_bracketed(trace),
            forall|i: int|
                0 <= i < trace.len() ==> call_ensures(
                    probe,
                    ((#[trigger] trace[i]).candidate,),
                    trace[i].decision,
                ),
            forall|i: int| 0 <= i < trace.len() ==> call_ensures(sink, ((#[trigger] trace[i]),), ()),
            forall|i: int|
                0 <= i < trace.len() ==> !((#[trigger] trace[i]).decision is Converged),
            trace.len() == 0 ==> left.num() == ipart && left.den() == 1 && right.num() as int
                == initial_ceil(ipart, whole) && right.den() == 1,
            trace.len() > 0 ==> left == next_left(trace.last()) && right == next_right(
                trace.last(),
            ),
        decreases MAX_ITERATIONS - iter,
    {
        let m = if left == right {
            left
        } else {
            match left.mediant(&right) {
                Ok(m) => m,
                Err(e) => {
                    proof {
                        if trace.len() == 0 && whole {
                            lemma_fraction_eq(left, right);
                        }
                    }
                    return (Err(e), Ghost(trace));
                },
            }
        };
        proof {
            if left != right {
                lemma_mediant_bracketing(left, right, m);
            }
        }
        let decision = probe(m);
        let rec = TraceRecord { left, candidate: m, right, decision };
        sink(rec);
        proof {
            trace = trace.push(rec);
        }
        match decision {
            Probe::Converged => {
                return (Ok(m), Ghost(trace));
            },
            Probe::High => {
                right = m;
            },
            Probe::Low => {
                left = m;
            },
        }
        iter = iter + 1;
    }
    (Err(FareyError::NonConvergence), Ghost(trace))
}

} // verus!
