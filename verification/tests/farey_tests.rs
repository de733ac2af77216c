use std::cell::Cell;
use std::cell::RefCell;

use farey::FareyError;
use farey::Fraction;
use farey::MAX_ITERATIONS;
use farey::Probe;
use farey::TraceRecord;
use farey::search;

/// The decimal value of a fraction: numerator over denominator, in doubles.
fn value(f: &Fraction) -> f64 {
    f.numerator() as f64 / f.denominator() as f64
}

/// The comparison the search injects in production: convergence within
/// machine epsilon, otherwise report on which side of the target the
/// candidate falls.
fn float_probe(target: f64) -> impl Fn(Fraction) -> Probe {
    move |m: Fraction| {
        let mv = value(&m);
        if (target - mv).abs() < f64::EPSILON {
            Probe::Converged
        } else if mv > target {
            Probe::High
        } else {
            Probe::Low
        }
    }
}

/// The bound-initialization data the engine asks for, derived from a finite
/// non-negative double with in-range integer part.
fn bounds_of(target: f64) -> (u64, bool) {
    assert!(target.is_finite() && target >= 0.0 && target < 18446744073709551616.0);
    let floor = target.floor();
    (floor as u64, floor == target)
}

/// Runs the search on a target, discarding the diagnostic records.
fn run(target: f64) -> Result<Fraction, FareyError> {
    let (ipart, whole) = bounds_of(target);
    search(ipart, whole, float_probe(target), |_rec: TraceRecord| {}).0
}

/// Runs the search on a target, collecting the diagnostic records.
fn run_collecting(target: f64) -> (Result<Fraction, FareyError>, Vec<TraceRecord>) {
    let (ipart, whole) = bounds_of(target);
    let collected: RefCell<Vec<TraceRecord>> = RefCell::new(Vec::new());
    let result = search(ipart, whole, float_probe(target), |rec: TraceRecord| {
        collected.borrow_mut().push(rec)
    })
        .0;
    (result, collected.into_inner())
}

#[test]
fn integer_exactness() {
    let (result, trace) = run_collecting(4.0);
    let f = result.unwrap();
    assert_eq!(f.numerator(), 4);
    assert_eq!(f.denominator(), 1);
    assert_eq!(trace.len(), 1);
}

#[test]
fn zero_is_exact() {
    let f = run(0.0).unwrap();
    assert_eq!(f.numerator(), 0);
    assert_eq!(f.denominator(), 1);
}

#[test]
fn simple_dyadic_target() {
    let (result, trace) = run_collecting(0.5);
    let f = result.unwrap();
    assert_eq!(f.numerator(), 1);
    assert_eq!(f.denominator(), 2);
    assert_eq!(trace.len(), 1);
}

#[test]
fn zero_denominator_rejection() {
    for numerator in [0u64, 1, 2, 41, u64::MAX] {
        assert_eq!(Fraction::new(numerator, 0), Err(FareyError::DivisionByZero));
    }
}

#[test]
fn construction_accepts_nonzero_denominator() {
    let f = Fraction::new(7, 3).unwrap();
    assert_eq!(f.numerator(), 7);
    assert_eq!(f.denominator(), 3);
}

#[test]
fn mediant_of_half_and_third() {
    let a = Fraction::new(1, 2).unwrap();
    let b = Fraction::new(1, 3).unwrap();
    let m = a.mediant(&b).unwrap();
    assert_eq!(m.numerator(), 2);
    assert_eq!(m.denominator(), 5);
}

#[test]
fn mediant_bracketing_values() {
    let pairs = [(1u64, 3u64, 1u64, 2u64), (0, 1, 1, 1), (2, 7, 5, 3), (10, 1, 3, 4)];
    for (an, ad, bn, bd) in pairs {
        let a = Fraction::new(an, ad).unwrap();
        let b = Fraction::new(bn, bd).unwrap();
        let m = a.mediant(&b).unwrap();
        assert_ne!(value(&a), value(&b));
        let (lo, hi) = if value(&a) < value(&b) { (a, b) } else { (b, a) };
        assert!(value(&lo) < value(&m));
        assert!(value(&m) < value(&hi));
    }
}

#[test]
fn mediant_of_self_keeps_value() {
    for (n, d) in [(2u64, 7u64), (0, 1), (5, 5), (123, 456)] {
        let a = Fraction::new(n, d).unwrap();
        let m = a.mediant(&a).unwrap();
        assert_eq!(value(&m), value(&a));
    }
}

#[test]
fn round_trip_precision_samples() {
    let targets = [
        0.0,
        0.5,
        0.25,
        0.75,
        1.0,
        4.0,
        1.5,
        2.75,
        0.1,
        1.0 / 3.0,
        2.0 / 3.0,
        0.33333339,
        0.6180339887498949,
        7.125,
        12.0,
    ];
    for target in targets {
        let f = run(target).unwrap();
        assert!(
            (value(&f) - target).abs() < f64::EPSILON,
            "target {target} came back as {}/{}",
            f.numerator(),
            f.denominator()
        );
    }
}

#[test]
fn documented_example() {
    let f = run(0.33333339).unwrap();
    assert_eq!(f.numerator(), 27450985);
    assert_eq!(f.denominator(), 82352941);
}

#[test]
fn overflow_containment() {
    // A synthetic probe that always asks for the upper half makes the left
    // bound's numerator climb by the whole integer part each step; from a
    // large enough starting point the numerator sum leaves the 64-bit range
    // after a handful of mediants, and the search must report that rather
    // than wrap.
    let ipart = 1u64 << 62;
    let collected: RefCell<Vec<TraceRecord>> = RefCell::new(Vec::new());
    let (result, _) = search(ipart, false, |_m: Fraction| Probe::Low, |rec: TraceRecord| {
        collected.borrow_mut().push(rec)
    });
    let trace = collected.into_inner();
    assert_eq!(result, Err(FareyError::ArithmeticOverflow));
    assert!(trace.len() < MAX_ITERATIONS);
    // No corrupted record: every recorded candidate is the exact sum of its
    // bounds' components.
    for rec in &trace {
        assert_eq!(
            rec.candidate.numerator() as u128,
            rec.left.numerator() as u128 + rec.right.numerator() as u128
        );
        assert_eq!(
            rec.candidate.denominator() as u128,
            rec.left.denominator() as u128 + rec.right.denominator() as u128
        );
    }
}

#[test]
fn mediant_numerator_overflow() {
    let a = Fraction::new(u64::MAX, 1).unwrap();
    let b = Fraction::new(1, 1).unwrap();
    assert_eq!(a.mediant(&b), Err(FareyError::ArithmeticOverflow));
}

#[test]
fn mediant_denominator_overflow() {
    let a = Fraction::new(1, u64::MAX).unwrap();
    let b = Fraction::new(1, 1).unwrap();
    assert_eq!(a.mediant(&b), Err(FareyError::ArithmeticOverflow));
}

#[test]
fn non_convergence_budget() {
    // A target so small that the right bound walks down as 1/2, 1/3, 1/4, …
    // never gets within machine epsilon of the target inside the budget.
    let target = 1.0e-30;
    let emitted: Cell<usize> = Cell::new(0);
    let (result, _) = search(0, false, float_probe(target), |_rec: TraceRecord| {
        emitted.set(emitted.get() + 1)
    });
    assert_eq!(result, Err(FareyError::NonConvergence));
    assert_eq!(emitted.get(), MAX_ITERATIONS);
}

#[test]
fn trace_ordering() {
    let (result, trace) = run_collecting(0.7);
    let f = result.unwrap();
    assert!(!trace.is_empty());
    // The run starts from floor/1 and ceil/1.
    assert_eq!(trace[0].left.numerator(), 0);
    assert_eq!(trace[0].left.denominator(), 1);
    assert_eq!(trace[0].right.numerator(), 1);
    assert_eq!(trace[0].right.denominator(), 1);
    for i in 0..trace.len() {
        let rec = &trace[i];
        // Each candidate is the mediant of that iteration's bounds.
        assert_eq!(rec.candidate.numerator(), rec.left.numerator() + rec.right.numerator());
        assert_eq!(
            rec.candidate.denominator(),
            rec.left.denominator() + rec.right.denominator()
        );
        // The decision recorded is the float comparison for that candidate.
        let expected = float_probe(0.7)(rec.candidate);
        assert_eq!(rec.decision, expected);
        if i + 1 < trace.len() {
            // Only the final record converges, and exactly the side the
            // decision selected is narrowed to the candidate.
            assert_ne!(rec.decision, Probe::Converged);
            let next = &trace[i + 1];
            match rec.decision {
                Probe::High => {
                    assert_eq!(next.left, rec.left);
                    assert_eq!(next.right, rec.candidate);
                },
                Probe::Low => {
                    assert_eq!(next.left, rec.candidate);
                    assert_eq!(next.right, rec.right);
                },
                Probe::Converged => unreachable!(),
            }
        } else {
            assert_eq!(rec.decision, Probe::Converged);
            assert_eq!(f, rec.candidate);
        }
    }
    // 0.7 is reached exactly, at the Farey fraction 7/10.
    assert_eq!(f.numerator(), 7);
    assert_eq!(f.denominator(), 10);
}

#[test]
fn error_messages() {
    assert_eq!(
        FareyError::DivisionByZero.message(),
        "division by zero: denominator cannot be zero"
    );
    assert_eq!(
        FareyError::ArithmeticOverflow.message(),
        "arithmetic overflow: mediant sums exceed the 64-bit range"
    );
    assert_eq!(
        FareyError::InvalidInput.message(),
        "invalid input: target must be finite, non-negative, with integer part below 2^64"
    );
    assert_eq!(
        FareyError::NonConvergence.message(),
        "no convergence: iteration budget exhausted before the target was matched"
    );
}
