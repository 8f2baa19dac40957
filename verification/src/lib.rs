//! Violation-based evaluation of FlatZinc constraints.
//!
//! A FlatZinc model is read into the plain data types of [`data_utility::model`];
//! each supported constraint is compiled once into an evaluation plan whose
//! `violation` says, for a concrete assignment of values to variables, how far the
//! assignment is from satisfying the constraint (zero when satisfied). Solutions are
//! held in registers ([`evaluator`]) or keyed by variable name
//! ([`functional_evaluator`] and the boolean invariant evaluator).
pub use vstd::hash_map::StringHashMap;

pub mod args_extractor;
pub mod data_utility;
pub mod evaluator;
pub mod functional_evaluator;
pub mod heuristics;
