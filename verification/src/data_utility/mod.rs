pub mod types;
pub mod model;
pub mod logger;
pub mod lin_expression;
pub mod constraint_evaluation;
pub mod json;
