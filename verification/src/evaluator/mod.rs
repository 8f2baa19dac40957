pub mod mini_evaluator;
pub mod set_ops;
pub mod sub_types;
pub mod terms;
pub mod meaning;
pub mod names;
