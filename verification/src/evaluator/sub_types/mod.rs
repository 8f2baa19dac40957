pub mod bool_evaluator;
pub mod bool_invariant_evaluator;
pub mod int_evaluator;
pub mod set_evaluator;
