use crate::args_extractor::args_extractor::{
    argument_name, bool_term_ok, int_term_ok, lin_int_coefficients, lin_var_names, names_of_args,
    strings_view, term_at, ArgsExtractor,
};
use crate::data_utility::model::{arguments_view, ModelArgument, ModelArray, ModelConstraint, ModelLiteralV};
use std::collections::HashMap;
use vstd::hash_map::StringHashMap;
use vstd::prelude::*;

verus! {

#[derive(Debug, Clone)]
/// A helper for extracting integer arguments from constraints.
pub struct IntArgsExtractor {
    args_extractor: ArgsExtractor,
}

impl Default for IntArgsExtractor {
    fn default() -> (r: Self)
        ensures
            r.base() == (ArgsExtractor {}),
    {
        IntArgsExtractor::new()
    }
}

impl IntArgsExtractor {
    /// The general extractor that this one reads arguments with.
    pub closed spec fn base(self) -> ArgsExtractor {
        self.args_extractor
    }

    /// Creates a new `IntArgsExtractor` over a fresh [`ArgsExtractor`].
    pub fn new() -> (r: Self)
        ensures
            r.base() == (ArgsExtractor {}),
    {
        Self { args_extractor: ArgsExtractor::new() }
    }

    /// Maps the position of each argument to the name it carries
    /// (see [`ArgsExtractor::extract_literal_identifiers_with_index`]).
    pub fn extract_literal_identifiers_with_index(&self, args: &[ModelArgument]) -> (r: HashMap<
        i64,
        String,
    >)
        requires
            args@.len() <= i64::MAX,
        ensures
            forall|k: i64|
                r@.contains_key(k) <==> (0 <= k < args@.len() && argument_name(
                    args@[k as int]@,
                ) is Some),
            forall|k: i64| #[trigger]
                r@.contains_key(k) ==> r@[k]@ == argument_name(args@[k as int]@)->0,
    {
        self.args_extractor.extract_literal_identifiers_with_index(args)
    }

    /// Collects the names carried by the arguments, in order.
    pub fn extract_literal_identifiers(&self, args: &[ModelArgument]) -> (r: Vec<String>)
        ensures
            strings_view(r@) == names_of_args(arguments_view(args@)),
    {
        self.args_extractor.extract_literal_identifiers(args)
    }

    /// Collects the variable names of the linear expression at argument `index`.
    pub fn extract_var_values_lin_expr(
        &self,
        index: usize,
        constraint: &ModelConstraint,
        arrays: &StringHashMap<ModelArray>,
    ) -> (r: Vec<String>)
        ensures
            strings_view(r@) == lin_var_names(constraint@.args, index as int, arrays@),
    {
        self.args_extractor.extract_var_values_lin_expr(index, constraint, arrays)
    }

    /// Returns the boolean literal at argument `index` of the constraint.
    pub fn extract_bool_value(&self, index: i64, constraint: &ModelConstraint) -> (r: bool)
        requires
            bool_term_ok(constraint@, index as int),
        ensures
            term_at(constraint@, index as int) == Some(ModelLiteralV::Bool(r)),
    {
        proof {
            assert(0 <= index < constraint@.args.len());
        }
        self.args_extractor.extract_bool_value(
            self.args_extractor.extract_term(constraint, crate::args_extractor::args_extractor::position_of(index, constraint)),
        )
    }

    /// Returns the integer literal at argument `index` of the constraint.
    pub fn extract_int_value(&self, index: i64, constraint: &ModelConstraint) -> (r: i64)
        requires
            int_term_ok(constraint@, index as int),
        ensures
            term_at(constraint@, index as int) == Some(ModelLiteralV::Int(r)),
    {
        proof {
            assert(0 <= index < constraint@.args.len());
        }
        self.args_extractor.extract_int_value(
            self.args_extractor.extract_term(constraint, crate::args_extractor::args_extractor::position_of(index, constraint)),
        )
    }

    /// Collects the integer coefficients of the linear expression at argument `index`.
    pub fn extract_int_coefficients_lin_expr(
        &self,
        index: usize,
        constraint: &ModelConstraint,
        arrays: &StringHashMap<ModelArray>,
    ) -> (r: Vec<i64>)
        ensures
            r@ == lin_int_coefficients(constraint@.args, index as int, arrays@),
    {
        self.args_extractor.extract_int_coefficients_lin_expr(index, constraint, arrays)
    }
}

} // verus!
