pub mod bool_functional_evaluator;
