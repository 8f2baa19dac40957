use crate::args_extractor::args_extractor::{
    argument_name, bool_array_ok, bool_term_ok, int_term_ok, lin_var_names, names_matching,
    strings_view, term_at, ArgsExtractor,
};
use crate::data_utility::model::{ModelArgument, ModelArray, ModelConstraint, ModelLiteral, ModelLiteralV};
use std::collections::HashMap;
use vstd::hash_map::StringHashMap;
use vstd::prelude::*;

verus! {

#[derive(Debug, Clone)]
/// A helper for extracting boolean arguments from constraints.
pub struct BoolArgsExtractor {
    args_extractor: ArgsExtractor,
}

impl Default for BoolArgsExtractor {
    fn default() -> (r: Self)
        ensures
            r.base() == (ArgsExtractor {}),
    {
        BoolArgsExtractor::new()
    }
}

impl BoolArgsExtractor {
    /// The general extractor that this one reads arguments with.
    pub closed spec fn base(self) -> ArgsExtractor {
        self.args_extractor
    }

    /// Creates a new `BoolArgsExtractor` over a fresh [`ArgsExtractor`].
    pub fn new() -> (r: Self)
        ensures
            r.base() == (ArgsExtractor {}),
    {
        let args_extractor = ArgsExtractor::new();
        Self { args_extractor }
    }

    /// Maps the position of each argument to the name it carries
    /// (see [`ArgsExtractor::extract_literal_identifiers_with_index`]).
    pub fn extract_literal_identifiers_with_index(&self, args: &[ModelArgument]) -> (r: HashMap<
        i64,
        String,
    >)
        requires
            args@.len() <= i64::MAX,
        ensures
            forall|k: i64|
                r@.contains_key(k) <==> (0 <= k < args@.len() && argument_name(
                    args@[k as int]@,
                ) is Some),
            forall|k: i64| #[trigger]
                r@.contains_key(k) ==> r@[k]@ == argument_name(args@[k as int]@)->0,
    {
        self.args_extractor.extract_literal_identifiers_with_index(args)
    }

    /// Collects the names of the boolean variables of the array at argument `index`:
    /// an inline array of identifiers, the named array an identifier refers to, or the
    /// identifier itself when it names no array.
    pub fn extract_bool_array(
        &self,
        index: usize,
        args: &[ModelArgument],
        arrays: &StringHashMap<ModelArray>,
    ) -> (r: Vec<String>)
        requires
            bool_array_ok(crate::data_utility::model::arguments_view(args@), index as int, arrays@),
        ensures
            strings_view(r@) == lin_var_names(
                crate::data_utility::model::arguments_view(args@),
                index as int,
                arrays@,
            ),
    {
        if index < args.len() {
            match &args[index] {
                ModelArgument::Literal(ModelLiteral::Identifier(array_key)) => {
                    match arrays.get(array_key.as_str()) {
                        Some(array) => names_matching(&array.contents, false),
                        None => {
                            let r = vec![array_key.clone()];
                            proof {
                                assert(strings_view(r@) =~= seq![array_key@]);
                            }
                            r
                        },
                    }
                },
                ModelArgument::Array(literals) => names_matching(literals, false),
                _ => {
                    let r: Vec<String> = Vec::new();
                    proof {
                        assert(strings_view(r@) =~= Seq::<Seq<char>>::empty());
                    }
                    r
                },
            }
        } else {
            let r: Vec<String> = Vec::new();
            proof {
                assert(strings_view(r@) =~= Seq::<Seq<char>>::empty());
            }
            r
        }
    }

    /// Returns the boolean literal at argument `index` of the constraint.
    pub fn extract_bool_value(&self, index: i64, constraint: &ModelConstraint) -> (r: bool)
        requires
            bool_term_ok(constraint@, index as int),
        ensures
            term_at(constraint@, index as int) == Some(ModelLiteralV::Bool(r)),
    {
        proof {
            assert(0 <= index < constraint@.args.len());
        }
        self.args_extractor.extract_bool_value(
            self.args_extractor.extract_term(constraint, crate::args_extractor::args_extractor::position_of(index, constraint)),
        )
    }

    /// Returns the integer literal at argument `index` of the constraint.
    pub fn extract_int_value(&self, index: i64, constraint: &ModelConstraint) -> (r: i64)
        requires
            int_term_ok(constraint@, index as int),
        ensures
            term_at(constraint@, index as int) == Some(ModelLiteralV::Int(r)),
    {
        proof {
            assert(0 <= index < constraint@.args.len());
        }
        self.args_extractor.extract_int_value(
            self.args_extractor.extract_term(constraint, crate::args_extractor::args_extractor::position_of(index, constraint)),
        )
    }
}

} // verus!
