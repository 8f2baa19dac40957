use crate::data_utility::model::{arguments_view, literals_view, ModelArgument, ModelArgumentV, ModelArray, ModelConstraint, ModelConstraintV, ModelLiteral, ModelLiteralV};
use std::collections::HashMap;
use vstd::hash_map::StringHashMap;
use vstd::prelude::*;

verus! {

broadcast use vstd::std_specs::hash::group_hash_axioms;

/// The values of a list of strings.
pub open spec fn strings_view(v: Seq<String>) -> Seq<Seq<char>> {
    v.map_values(|s: String| s@)
}

/// The items that `f` picks out of `ls`, in order.
pub open spec fn collect<A>(ls: Seq<ModelLiteralV>, f: spec_fn(ModelLiteralV) -> Option<A>) -> Seq<A>
    decreases ls.len(),
{
    if ls.len() == 0 {
        Seq::empty()
    } else {
        let rest = collect(ls.drop_last(), f);
        match f(ls.last()) {
            Some(a) => rest.push(a),
            None => rest,
        }
    }
}

/// The name carried by an identifier or a string literal.
pub open spec fn literal_name(l: ModelLiteralV) -> Option<Seq<char>> {
    match l {
        ModelLiteralV::Identifier(n) => Some(n),
        ModelLiteralV::Str(s) => Some(s),
        _ => None,
    }
}

/// The name of an identifier literal.
pub open spec fn identifier_of(l: ModelLiteralV) -> Option<Seq<char>> {
    match l {
        ModelLiteralV::Identifier(n) => Some(n),
        _ => None,
    }
}

/// The value of an integer literal.
pub open spec fn int_of(l: ModelLiteralV) -> Option<i64> {
    match l {
        ModelLiteralV::Int(v) => Some(v),
        _ => None,
    }
}

/// The bit pattern of a floating-point literal.
pub open spec fn float_of(l: ModelLiteralV) -> Option<u64> {
    match l {
        ModelLiteralV::Float(v) => Some(v),
        _ => None,
    }
}

/// The names carried by the literals of an argument, in order.
pub open spec fn argument_names(a: ModelArgumentV) -> Seq<Seq<char>> {
    match a {
        ModelArgumentV::Literal(l) => collect(seq![l], |x: ModelLiteralV| literal_name(x)),
        ModelArgumentV::Array(ls) => collect(ls, |x: ModelLiteralV| literal_name(x)),
    }
}

/// The names carried by a list of arguments, in order.
pub open spec fn names_of_args(args: Seq<ModelArgumentV>) -> Seq<Seq<char>>
    decreases args.len(),
{
    if args.len() == 0 {
        Seq::empty()
    } else {
        names_of_args(args.drop_last()) + argument_names(args.last())
    }
}

/// The name that an argument binds to its position: the last name it carries.
pub open spec fn argument_name(a: ModelArgumentV) -> Option<Seq<char>> {
    let names = argument_names(a);
    if names.len() == 0 {
        None
    } else {
        Some(names.last())
    }
}

/// The variable names of a linear expression given by argument `index`:
/// the identifiers of an inline array, of a named array, or the single identifier.
pub open spec fn lin_var_names(
    args: Seq<ModelArgumentV>,
    index: int,
    arrays: Map<Seq<char>, ModelArray>,
) -> Seq<Seq<char>> {
    if 0 <= index < args.len() {
        match args[index] {
            ModelArgumentV::Array(ls) => collect(ls, |x: ModelLiteralV| identifier_of(x)),
            ModelArgumentV::Literal(ModelLiteralV::Identifier(id)) => {
                if arrays.contains_key(id) {
                    collect(arrays[id]@, |x: ModelLiteralV| identifier_of(x))
                } else {
                    seq![id]
                }
            },
            ModelArgumentV::Literal(_) => Seq::empty(),
        }
    } else {
        Seq::empty()
    }
}

/// The integer coefficients of a linear expression given by argument `index`.
pub open spec fn lin_int_coefficients(
    args: Seq<ModelArgumentV>,
    index: int,
    arrays: Map<Seq<char>, ModelArray>,
) -> Seq<i64> {
    if 0 <= index < args.len() {
        match args[index] {
            ModelArgumentV::Array(ls) => collect(ls, |x: ModelLiteralV| int_of(x)),
            ModelArgumentV::Literal(ModelLiteralV::Int(v)) => seq![v],
            ModelArgumentV::Literal(ModelLiteralV::Identifier(name)) => {
                if arrays.contains_key(name) {
                    collect(arrays[name]@, |x: ModelLiteralV| int_of(x))
                } else {
                    Seq::empty()
                }
            },
            ModelArgumentV::Literal(_) => Seq::empty(),
        }
    } else {
        Seq::empty()
    }
}

/// The literal at argument `index`, when that argument is a single literal.
pub open spec fn term_at(c: ModelConstraintV, index: int) -> Option<ModelLiteralV> {
    if 0 <= index < c.args.len() {
        match c.args[index] {
            ModelArgumentV::Literal(l) => Some(l),
            ModelArgumentV::Array(_) => None,
        }
    } else {
        None
    }
}

/// Every literal of the list is an identifier.
pub open spec fn all_identifiers(ls: Seq<ModelLiteralV>) -> bool {
    forall|k: int| 0 <= k < ls.len() ==> #[trigger] ls[k] is Identifier
}

/// The array of boolean variables at argument `index` holds identifiers only
/// (an inline array, or the named array that an identifier refers to).
pub open spec fn bool_array_ok(
    args: Seq<ModelArgumentV>,
    index: int,
    arrays: Map<Seq<char>, ModelArray>,
) -> bool {
    0 <= index < args.len() ==> match args[index] {
        ModelArgumentV::Literal(ModelLiteralV::Identifier(key)) => arrays.contains_key(key)
            ==> all_identifiers(arrays[key]@),
        ModelArgumentV::Array(ls) => all_identifiers(ls),
        ModelArgumentV::Literal(_) => true,
    }
}

/// ModelArgument `index` is a boolean literal.
pub open spec fn bool_term_ok(c: ModelConstraintV, index: int) -> bool {
    term_at(c, index) matches Some(ModelLiteralV::Bool(_))
}

/// ModelArgument `index` is an integer literal.
pub open spec fn int_term_ok(c: ModelConstraintV, index: int) -> bool {
    term_at(c, index) matches Some(ModelLiteralV::Int(_))
}

/// One step of [`collect`]: the items of a prefix one longer.
pub proof fn lemma_collect_step<A>(ls: Seq<ModelLiteralV>, j: int, f: spec_fn(ModelLiteralV) -> Option<A>)
    requires
        0 <= j < ls.len(),
    ensures
        collect(ls.take(j + 1), f) == match f(ls[j]) {
            Some(a) => collect(ls.take(j), f).push(a),
            None => collect(ls.take(j), f),
        },
{
    assert(ls.take(j + 1).drop_last() =~= ls.take(j));
}

/// [`collect`] distributes over concatenation.
pub proof fn lemma_collect_append<A>(a: Seq<ModelLiteralV>, b: Seq<ModelLiteralV>, f: spec_fn(ModelLiteralV) -> Option<A>)
    ensures
        collect(a + b, f) == collect(a, f) + collect(b, f),
    decreases b.len(),
{
    if b.len() == 0 {
        assert(a + b =~= a);
        assert(collect(a, f) + collect(b, f) =~= collect(a, f));
    } else {
        lemma_collect_append(a, b.drop_last(), f);
        assert((a + b).drop_last() =~= a + b.drop_last());
        assert((a + b).last() == b.last());
        match f(b.last()) {
            Some(x) => {
                assert(collect(a, f) + collect(b.drop_last(), f).push(x) =~= (collect(a, f)
                    + collect(b.drop_last(), f)).push(x));
            },
            None => {},
        }
    }
}

/// The names that `f` picks out of a list of literals.
pub(crate) fn names_matching(lits: &Vec<ModelLiteral>, with_strings: bool) -> (r: Vec<String>)
    ensures
        with_strings ==> strings_view(r@) == collect(literals_view(lits@), |x: ModelLiteralV| literal_name(x)),
        !with_strings ==> strings_view(r@) == collect(literals_view(lits@), |x: ModelLiteralV| identifier_of(x)),
{
    let ghost ls = literals_view(lits@);
    let ghost f = if with_strings {
        |x: ModelLiteralV| literal_name(x)
    } else {
        |x: ModelLiteralV| identifier_of(x)
    };
    let mut r: Vec<String> = Vec::new();
    for j in 0..lits.len()
        invariant
            ls == literals_view(lits@),
            f == (if with_strings {
                |x: ModelLiteralV| literal_name(x)
            } else {
                |x: ModelLiteralV| identifier_of(x)
            }),
            strings_view(r@) == collect(ls.take(j as int), f),
    {
        proof {
            lemma_collect_step(ls, j as int, f);
        }
        let ghost before = r@;
        match &lits[j] {
            ModelLiteral::Identifier(name) => {
                r.push(name.clone());
                proof {
                    assert(strings_view(r@) =~= strings_view(before).push(name@));
                }
            },
            ModelLiteral::String(s) => {
                if with_strings {
                    r.push(s.clone());
                    proof {
                        assert(strings_view(r@) =~= strings_view(before).push(s@));
                    }
                }
            },
            _ => {},
        }
    }
    proof {
        assert(ls.take(lits.len() as int) =~= ls);
    }
    r
}

/// The integers of a list of literals, in order.
pub(crate) fn ints_of(lits: &Vec<ModelLiteral>) -> (r: Vec<i64>)
    ensures
        r@ == collect(literals_view(lits@), |x: ModelLiteralV| int_of(x)),
{
    let ghost ls = literals_view(lits@);
    let ghost f = |x: ModelLiteralV| int_of(x);
    let mut r: Vec<i64> = Vec::new();
    for j in 0..lits.len()
        invariant
            ls == literals_view(lits@),
            f == (|x: ModelLiteralV| int_of(x)),
            r@ == collect(ls.take(j as int), f),
    {
        proof {
            lemma_collect_step(ls, j as int, f);
        }
        match &lits[j] {
            ModelLiteral::Int(v) => {
                r.push(*v);
            },
            _ => {},
        }
    }
    proof {
        assert(ls.take(lits.len() as int) =~= ls);
    }
    r
}

/// The floating-point bit patterns of a list of literals, in order.
pub(crate) fn floats_of(lits: &Vec<ModelLiteral>) -> (r: Vec<u64>)
    ensures
        r@ == collect(literals_view(lits@), |x: ModelLiteralV| float_of(x)),
{
    let ghost ls = literals_view(lits@);
    let ghost f = |x: ModelLiteralV| float_of(x);
    let mut r: Vec<u64> = Vec::new();
    for j in 0..lits.len()
        invariant
            ls == literals_view(lits@),
            f == (|x: ModelLiteralV| float_of(x)),
            r@ == collect(ls.take(j as int), f),
    {
        proof {
            lemma_collect_step(ls, j as int, f);
        }
        match &lits[j] {
            ModelLiteral::Float(v) => {
                r.push(*v);
            },
            _ => {},
        }
    }
    proof {
        assert(ls.take(lits.len() as int) =~= ls);
    }
    r
}

/// The argument position named by a signed index that is known to be in range.
pub(crate) fn position_of(index: i64, constraint: &ModelConstraint) -> (r: usize)
    requires
        0 <= index < constraint@.args.len(),
    ensures
        r as int == index as int,
{
    let n = constraint.args.len();
    proof {
        assert(constraint@.args.len() == n);
    }
    index as usize
}

#[derive(Debug, Clone)]
/// A helper for extracting arguments from constraints: literals, identifiers and array elements.
pub struct ArgsExtractor {}

impl Default for ArgsExtractor {
    fn default() -> (r: Self)
        ensures
            r == (ArgsExtractor {}),
    {
        ArgsExtractor {}
    }
}

/// The extractor carries no state: any two extractors, made by `new`, by `default` or
/// otherwise, are the same value, so every method gives them the same results.
pub proof fn lemma_extractors_interchangeable(a: ArgsExtractor, b: ArgsExtractor)
    ensures
        a == b,
{
}

/// The typed extractors read a literal argument as the general extractor does: the
/// integer (boolean) that a typed `extract_int_value(index, c)`
/// (`extract_bool_value(index, c)`) gives, by its contract, is the one that
/// `ArgsExtractor::extract_int_value` (`extract_bool_value`) gives for the literal that
/// `ArgsExtractor::extract_term(c, index)` gives.
pub proof fn lemma_typed_reads_agree(
    c: ModelConstraintV,
    index: int,
    term: ModelLiteral,
    typed_int: i64,
    general_int: i64,
    typed_bool: bool,
    general_bool: bool,
)
    requires
        term_at(c, index) is Some,
        term@ == term_at(c, index)->0,
        term_at(c, index) == Some(ModelLiteralV::Int(typed_int)) ==> term is Int && general_int == term->Int_0,
        term_at(c, index) == Some(ModelLiteralV::Bool(typed_bool)) ==> term is Bool && general_bool == term->Bool_0,
    ensures
        term_at(c, index) == Some(ModelLiteralV::Int(typed_int)) ==> typed_int == general_int,
        term_at(c, index) == Some(ModelLiteralV::Bool(typed_bool)) ==> typed_bool == general_bool,
{
}

/// The map of names that `extract_literal_identifiers_with_index` gives is determined by
/// the arguments: any two maps that meet its contract (the one the general extractor
/// and the boolean, integer, floating-point and set extractors share) hold the same
/// positions with the same names.
pub proof fn lemma_name_maps_agree(args: Seq<ModelArgument>, m1: Map<i64, String>, m2: Map<i64, String>)
    requires
        forall|k: i64| m1.contains_key(k) <==> (0 <= k < args.len() && argument_name(args[k as int]@) is Some),
        forall|k: i64| #[trigger] m1.contains_key(k) ==> m1[k]@ == argument_name(args[k as int]@)->0,
        forall|k: i64| m2.contains_key(k) <==> (0 <= k < args.len() && argument_name(args[k as int]@) is Some),
        forall|k: i64| #[trigger] m2.contains_key(k) ==> m2[k]@ == argument_name(args[k as int]@)->0,
    ensures
        m1.dom() == m2.dom(),
        forall|k: i64| #[trigger] m1.contains_key(k) ==> m1[k]@ == m2[k]@,
{
    assert(m1.dom() =~= m2.dom());
}

impl ArgsExtractor {
    /// Creates a new `ArgsExtractor`.
    pub fn new() -> (r: Self)
        ensures
            r == (ArgsExtractor {}),
    {
        Self {}
    }

    /// Maps the position of each argument to the name it carries: an identifier or
    /// string literal, or for an inline array the last such literal in it.
    /// Arguments that carry no name have no entry.
    pub fn extract_literal_identifiers_with_index(&self, args: &[ModelArgument]) -> (r: HashMap<
        i64,
        String,
    >)
        requires
            args@.len() <= i64::MAX,
        ensures
            forall|k: i64|
                r@.contains_key(k) <==> (0 <= k < args@.len() && argument_name(
                    args@[k as int]@,
                ) is Some),
            forall|k: i64| #[trigger]
                r@.contains_key(k) ==> r@[k]@ == argument_name(args@[k as int]@)->0,
    {
        let mut ids: HashMap<i64, String> = HashMap::with_capacity(args.len());
        let mut i: usize = 0;
        while i < args.len()
            invariant
                i <= args@.len() <= i64::MAX,
                forall|k: i64|
                    ids@.contains_key(k) <==> (0 <= k < i && argument_name(args@[k as int]@) is Some),
                forall|k: i64| #[trigger]
                    ids@.contains_key(k) ==> ids@[k]@ == argument_name(args@[k as int]@)->0,
            decreases args@.len() - i,
        {
            let index = i as i64;
            let ghost names = argument_names(args@[i as int]@);
            match &args[i] {
                ModelArgument::Literal(lit) => {
                    proof {
                        reveal_with_fuel(collect, 2);
                        assert(seq![lit@].drop_last() =~= Seq::<ModelLiteralV>::empty());
                    }
                    match lit {
                        ModelLiteral::Identifier(name) => {
                            ids.insert(index, name.clone());
                        },
                        ModelLiteral::String(s) => {
                            ids.insert(index, s.clone());
                        },
                        _ => {},
                    }
                },
                ModelArgument::Array(elems) => {
                    let found = names_matching(elems, true);
                    if found.len() > 0 {
                        ids.insert(index, found[found.len() - 1].clone());
                    }
                },
            }
            i = i + 1;
        }
        ids
    }

    /// Collects the names carried by the arguments, in order: identifier and string
    /// literals, and those inside inline arrays.
    pub fn extract_literal_identifiers(&self, args: &[ModelArgument]) -> (r: Vec<String>)
        ensures
            strings_view(r@) == names_of_args(arguments_view(args@)),
    {
        let ghost av = arguments_view(args@);
        let mut ids: Vec<String> = Vec::with_capacity(args.len());
        for i in 0..args.len()
            invariant
                av == arguments_view(args@),
                strings_view(ids@) == names_of_args(av.take(i as int)),
        {
            proof {
                assert(av.take(i + 1).drop_last() =~= av.take(i as int));
            }
            let ghost before = ids@;
            match &args[i] {
                ModelArgument::Literal(lit) => {
                    proof {
                        reveal_with_fuel(collect, 2);
                        assert(seq![lit@].drop_last() =~= Seq::<ModelLiteralV>::empty());
                    }
                    match lit {
                        ModelLiteral::Identifier(name) => {
                            ids.push(name.clone());
                            proof {
                                assert(strings_view(ids@) =~= strings_view(before) + seq![name@]);
                            }
                        },
                        ModelLiteral::String(s) => {
                            ids.push(s.clone());
                            proof {
                                assert(strings_view(ids@) =~= strings_view(before) + seq![s@]);
                            }
                        },
                        _ => {
                            proof {
                                assert(strings_view(ids@) =~= strings_view(before) + Seq::<Seq<char>>::empty());
                            }
                        },
                    }
                },
                ModelArgument::Array(elems) => {
                    let mut found = names_matching(elems, true);
                    let ghost fv = found@;
                    ids.append(&mut found);
                    proof {
                        assert(strings_view(ids@) =~= strings_view(before) + strings_view(fv));
                    }
                },
            }
        }
        proof {
            assert(av.take(args.len() as int) =~= av);
        }
        ids
    }

    /// Collects the variable names of the linear expression at argument `index`: the
    /// identifiers of an inline array, of the named array it refers to, or the single
    /// identifier itself when it names no array.
    pub fn extract_var_values_lin_expr(
        &self,
        index: usize,
        constraint: &ModelConstraint,
        arrays: &StringHashMap<ModelArray>,
    ) -> (r: Vec<String>)
        ensures
            strings_view(r@) == lin_var_names(constraint@.args, index as int, arrays@),
    {
        if index < constraint.args.len() {
            match &constraint.args[index] {
                ModelArgument::Array(l) => names_matching(l, false),
                ModelArgument::Literal(ModelLiteral::Identifier(id)) => {
                    match arrays.get(id.as_str()) {
                        Some(arr) => names_matching(&arr.contents, false),
                        None => {
                            let r = vec![id.clone()];
                            proof {
                                assert(strings_view(r@) =~= seq![id@]);
                            }
                            r
                        },
                    }
                },
                ModelArgument::Literal(_) => {
                    let r: Vec<String> = Vec::new();
                    proof {
                        assert(strings_view(r@) =~= Seq::<Seq<char>>::empty());
                    }
                    r
                },
            }
        } else {
            let r: Vec<String> = Vec::new();
            proof {
                assert(strings_view(r@) =~= Seq::<Seq<char>>::empty());
            }
            r
        }
    }

    /// Collects the integer coefficients of the linear expression at argument `index`:
    /// the integers of an inline array or of the named array it refers to, or the
    /// single integer itself.
    pub fn extract_int_coefficients_lin_expr(
        &self,
        index: usize,
        constraint: &ModelConstraint,
        arrays: &StringHashMap<ModelArray>,
    ) -> (r: Vec<i64>)
        ensures
            r@ == lin_int_coefficients(constraint@.args, index as int, arrays@),
    {
        if index < constraint.args.len() {
            match &constraint.args[index] {
                ModelArgument::Array(l) => ints_of(l),
                ModelArgument::Literal(ModelLiteral::Int(v)) => {
                    let r = vec![*v];
                    proof {
                        assert(r@ =~= seq![*v]);
                    }
                    r
                },
                ModelArgument::Literal(ModelLiteral::Identifier(name)) => {
                    match arrays.get(name.as_str()) {
                        Some(arr) => ints_of(&arr.contents),
                        None => Vec::new(),
                    }
                },
                ModelArgument::Literal(_) => Vec::new(),
            }
        } else {
            Vec::new()
        }
    }

    /// Returns the value of an integer literal.
    pub fn extract_int_value(&self, literal: ModelLiteral) -> (r: i64)
        requires
            literal is Int,
        ensures
            r == literal->Int_0,
    {
        match literal {
            ModelLiteral::Int(v) => v,
            _ => 0,
        }
    }

    /// Returns the value of a boolean literal.
    pub fn extract_bool_value(&self, literal: ModelLiteral) -> (r: bool)
        requires
            literal is Bool,
        ensures
            r == literal->Bool_0,
    {
        match literal {
            ModelLiteral::Bool(v) => v,
            _ => false,
        }
    }

    /// Returns a copy of the literal at argument `index` of the constraint.
    pub fn extract_term(&self, constraint: &ModelConstraint, index: usize) -> (r: ModelLiteral)
        requires
            term_at(constraint@, index as int) is Some,
        ensures
            r@ == term_at(constraint@, index as int)->0,
    {
        match &constraint.args[index] {
            ModelArgument::Literal(lit) => lit.clone(),
            ModelArgument::Array(_) => ModelLiteral::Int(0),
        }
    }
}

} // verus!
