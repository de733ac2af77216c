//! Rational approximation of real numbers by mediant bisection over the
//! Stern-Brocot tree.
//!
//! The crate provides an exact-arithmetic core: a [`Fraction`] value type
//! (unsigned 64-bit numerator and denominator, denominator never zero), an
//! error type covering every failure the algorithm can surface, and a search
//! engine that narrows a pair of fraction bounds through repeated mediants.
//! The comparison against the floating-point target is injected by the caller
//! as a probe, so the whole bisection loop is ordinary integer logic.

pub mod error;
pub mod fraction;
pub mod search;

pub use error::FareyError;
pub use fraction::Fraction;
pub use search::MAX_ITERATIONS;
pub use search::Probe;
pub use search::TraceRecord;
pub use search::search;
