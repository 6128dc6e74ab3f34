//! A staged-lifecycle model of a multi-stage distillation column.
//!
//! The crate has two halves. `builder` holds a validating builder that
//! accumulates loosely-constrained configuration fields and, on demand,
//! either produces a verified immutable snapshot or an aggregated report
//! of every rule violation. `typestate` wraps such a snapshot in a
//! phase tag so that equation derivation, simulation and result access
//! are only callable in the phase that permits them.
//!
//! Real-valued quantities (ratios, temperature, pressure) are carried as
//! fixed-point integers in hundredths of a unit, which keeps all of the
//! arithmetic exact.

pub mod builder;
pub mod text;
pub mod typestate;
