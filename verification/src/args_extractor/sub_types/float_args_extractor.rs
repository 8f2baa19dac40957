use crate::args_extractor::args_extractor::{
    argument_name, bool_term_ok, collect, float_of, int_term_ok, lin_var_names, strings_view,
    term_at, ArgsExtractor,
};
use crate::data_utility::model::{ModelArgument, ModelArgumentV, ModelArray, ModelConstraint, ModelLiteral, ModelLiteralV};
use std::collections::HashMap;
use vstd::hash_map::StringHashMap;
use vstd::prelude::*;

verus! {

/// The floating-point coefficients (as bit patterns) of a linear expression given by
/// argument `index`: those of an inline array, of the named array an identifier
/// refers to, or the single floating-point literal itself.
pub open spec fn lin_float_coefficients(
    args: Seq<ModelArgumentV>,
    index: int,
    arrays: Map<Seq<char>, ModelArray>,
) -> Seq<u64> {
    if 0 <= index < args.len() {
        match args[index] {
            ModelArgumentV::Array(ls) => collect(ls, |x: ModelLiteralV| float_of(x)),
            ModelArgumentV::Literal(ModelLiteralV::Float(v)) => seq![v],
            ModelArgumentV::Literal(ModelLiteralV::Identifier(name)) => {
                if arrays.contains_key(name) {
                    collect(arrays[name]@, |x: ModelLiteralV| float_of(x))
                } else {
                    Seq::empty()
                }
            },
            ModelArgumentV::Literal(_) => Seq::empty(),
        }
    } else {
        Seq::empty()
    }
}

#[derive(Debug, Clone)]
/// A helper for extracting floating-point arguments from constraints.
///
/// Floating-point values are handed out as the bit patterns of the `f64`s.
pub struct FloatArgsExtractor {
    args_extractor: ArgsExtractor,
}

impl Default for FloatArgsExtractor {
    fn default() -> (r: Self)
        ensures
            r.base() == (ArgsExtractor {}),
    {
        FloatArgsExtractor::new()
    }
}

impl FloatArgsExtractor {
    /// The general extractor that this one reads arguments with.
    pub closed spec fn base(self) -> ArgsExtractor {
        self.args_extractor
    }

    /// Creates a new `FloatArgsExtractor` over a fresh [`ArgsExtractor`].
    pub fn new() -> (r: Self)
        ensures
            r.base() == (ArgsExtractor {}),
    {
        let args_extractor = ArgsExtractor::new();
        Self { args_extractor }
    }

    /// Maps the position of each argument to the name it carries
    /// (see [`ArgsExtractor::extract_literal_identifiers_with_index`]).
    pub fn extract_literal_identifiers_with_index(&self, args: &[ModelArgument]) -> (r: HashMap<
        i64,
        String,
    >)
        requires
            args@.len() <= i64::MAX,
        ensures
            forall|k: i64|
                r@.contains_key(k) <==> (0 <= k < args@.len() && argument_name(
                    args@[k as int]@,
                ) is Some),
            forall|k: i64| #[trigger]
                r@.contains_key(k) ==> r@[k]@ == argument_name(args@[k as int]@)->0,
    {
        self.args_extractor.extract_literal_identifiers_with_index(args)
    }

    /// Returns the bit pattern of the floating-point literal at argument `index`.
    pub fn extract_float_value(&self, index: i64, constraint: &ModelConstraint) -> (r: u64)
        requires
            term_at(constraint@, index as int) matches Some(ModelLiteralV::Float(_)),
        ensures
            term_at(constraint@, index as int) == Some(ModelLiteralV::Float(r)),
    {
        proof {
            assert(0 <= index < constraint@.args.len());
        }
        let literal = self.args_extractor.extract_term(constraint, crate::args_extractor::args_extractor::position_of(index, constraint));
        match literal {
            ModelLiteral::Float(v) => v,
            _ => 0,
        }
    }

    /// Returns the boolean literal at argument `index` of the constraint.
    pub fn extract_bool_value(&self, index: i64, constraint: &ModelConstraint) -> (r: bool)
        requires
            bool_term_ok(constraint@, index as int),
        ensures
            term_at(constraint@, index as int) == Some(ModelLiteralV::Bool(r)),
    {
        proof {
            assert(0 <= index < constraint@.args.len());
        }
        self.args_extractor.extract_bool_value(
            self.args_extractor.extract_term(constraint, crate::args_extractor::args_extractor::position_of(index, constraint)),
        )
    }

    /// Returns the integer literal at argument `index` of the constraint.
    pub fn extract_int_value(&self, index: i64, constraint: &ModelConstraint) -> (r: i64)
        requires
            int_term_ok(constraint@, index as int),
        ensures
            term_at(constraint@, index as int) == Some(ModelLiteralV::Int(r)),
    {
        proof {
            assert(0 <= index < constraint@.args.len());
        }
        self.args_extractor.extract_int_value(
            self.args_extractor.extract_term(constraint, crate::args_extractor::args_extractor::position_of(index, constraint)),
        )
    }

    /// Collects the floating-point coefficients (as bit patterns) of the linear
    /// expression at argument `index`.
    pub fn extract_float_coefficients_lin_expr(
        &self,
        index: i64,
        constraint: &ModelConstraint,
        arrays: &StringHashMap<ModelArray>,
    ) -> (r: Vec<u64>)
        ensures
            r@ == lin_float_coefficients(constraint@.args, index as int, arrays@),
    {
        if 0 <= index && (index as u64) < (constraint.args.len() as u64) {
            let i = index as usize;
            match &constraint.args[i] {
                ModelArgument::Array(l) => crate::args_extractor::args_extractor::floats_of(l),
                ModelArgument::Literal(ModelLiteral::Float(v)) => {
                    let r = vec![*v];
                    proof {
                        assert(r@ =~= seq![*v]);
                    }
                    r
                },
                ModelArgument::Literal(ModelLiteral::Identifier(name)) => {
                    match arrays.get(name.as_str()) {
                        Some(arr) => crate::args_extractor::args_extractor::floats_of(&arr.contents),
                        None => Vec::new(),
                    }
                },
                ModelArgument::Literal(_) => Vec::new(),
            }
        } else {
            Vec::new()
        }
    }

    /// Collects the variable names of the linear expression at argument `index`.
    pub fn extract_var_values_lin_expr(
        &self,
        index: i64,
        constraint: &ModelConstraint,
        arrays: &StringHashMap<ModelArray>,
    ) -> (r: Vec<String>)
        ensures
            strings_view(r@) == lin_var_names(constraint@.args, index as int, arrays@),
    {
        if 0 <= index && (index as u64) < (constraint.args.len() as u64) {
            self.args_extractor.extract_var_values_lin_expr(index as usize, constraint, arrays)
        } else {
            let r: Vec<String> = Vec::new();
            proof {
                assert(strings_view(r@) =~= Seq::<Seq<char>>::empty());
            }
            r
        }
    }
}

} // verus!
