use crate::args_extractor::args_extractor::{argument_name, bool_term_ok, int_term_ok, term_at, ArgsExtractor};
use crate::data_utility::model::{ModelArgument, ModelConstraint, ModelLiteral, ModelLiteralV};
use std::collections::{HashMap, HashSet};
use vstd::prelude::*;

verus! {

broadcast use vstd::std_specs::hash::group_hash_axioms;

/// The integers covered by a list of inclusive ranges.
pub open spec fn ranges_set(rs: Seq<(i64, i64)>) -> Set<i64> {
    Set::new(|v: i64| exists|k: int| #![trigger rs[k]] 0 <= k < rs.len() && rs[k].0 <= v <= rs[k].1)
}

/// Adds the integers of the inclusive range `start..=end` to `set`.
pub(crate) fn insert_range(set: &mut HashSet<i64>, start: i64, end: i64)
    ensures
        final(set)@ == old(set)@.union(Set::new(|v: i64| start <= v <= end)),
{
    if start <= end {
        let mut v = start;
        loop
            invariant_except_break
                start <= v <= end,
                set@ == old(set)@.union(Set::new(|x: i64| start <= x < v)),
            ensures
                set@ == old(set)@.union(Set::new(|x: i64| start <= x <= end)),
            decreases end - v,
        {
            set.insert(v);
            if v == end {
                proof {
                    assert(set@ =~= old(set)@.union(Set::new(|x: i64| start <= x <= end)));
                }
                break;
            }
            v = v + 1;
            proof {
                assert(set@ =~= old(set)@.union(Set::new(|x: i64| start <= x < v)));
            }
        }
    } else {
        proof {
            assert(set@ =~= old(set)@.union(Set::new(|v: i64| start <= v <= end)));
        }
    }
}

/// The set of integers covered by a list of inclusive ranges.
pub(crate) fn set_of_ranges(rs: &Vec<(i64, i64)>) -> (r: HashSet<i64>)
    ensures
        r@ == ranges_set(rs@),
{
    let mut set: HashSet<i64> = HashSet::new();
    for k in 0..rs.len()
        invariant
            set@ == ranges_set(rs@.take(k as int)),
    {
        let (start, end) = rs[k];
        insert_range(&mut set, start, end);
        proof {
            let prev = rs@.take(k as int);
            let next = rs@.take(k + 1);
            assert forall|v: i64| set@.contains(v) <==> ranges_set(next).contains(v) by {
                if ranges_set(next).contains(v) {
                    let j = choose|j: int| #![trigger next[j]] 0 <= j < next.len() && next[j].0 <= v <= next[j].1;
                    if j < k {
                        assert(prev[j] == next[j]);
                    }
                }
                if ranges_set(prev).contains(v) {
                    let j = choose|j: int| #![trigger prev[j]] 0 <= j < prev.len() && prev[j].0 <= v <= prev[j].1;
                    assert(prev[j] == next[j]);
                }
                if start <= v <= end {
                    assert(next[k as int] == (start, end));
                }
            }
            assert(set@ =~= ranges_set(next));
        }
    }
    proof {
        assert(rs@.take(rs.len() as int) =~= rs@);
    }
    set
}

#[derive(Debug, Clone)]
/// A helper for extracting set arguments from constraints.
pub struct SetArgsExtractor {
    args_extractor: ArgsExtractor,
}

impl Default for SetArgsExtractor {
    fn default() -> (r: Self)
        ensures
            r.base() == (ArgsExtractor {}),
    {
        SetArgsExtractor::new()
    }
}

impl SetArgsExtractor {
    /// The general extractor that this one reads arguments with.
    pub closed spec fn base(self) -> ArgsExtractor {
        self.args_extractor
    }

    /// Creates a new `SetArgsExtractor` over a fresh [`ArgsExtractor`].
    pub fn new() -> (r: Self)
        ensures
            r.base() == (ArgsExtractor {}),
    {
        let args_extractor = ArgsExtractor::new();
        Self { args_extractor }
    }

    /// Maps the position of each argument to the name it carries
    /// (see [`ArgsExtractor::extract_literal_identifiers_with_index`]).
    pub fn extract_literal_identifiers_with_index(&self, args: &[ModelArgument]) -> (r: HashMap<
        i64,
        String,
    >)
        requires
            args@.len() <= i64::MAX,
        ensures
            forall|k: i64|
                r@.contains_key(k) <==> (0 <= k < args@.len() && argument_name(
                    args@[k as int]@,
                ) is Some),
            forall|k: i64| #[trigger]
                r@.contains_key(k) ==> r@[k]@ == argument_name(args@[k as int]@)->0,
    {
        self.args_extractor.extract_literal_identifiers_with_index(args)
    }

    /// Returns the set of integers given by the integer-set literal at argument `index`.
    pub fn extract_set_value(&self, index: i64, constraint: &ModelConstraint) -> (r: HashSet<i64>)
        requires
            term_at(constraint@, index as int) matches Some(ModelLiteralV::IntSet(_)),
        ensures
            r@ == ranges_set(term_at(constraint@, index as int)->0->IntSet_0),
    {
        proof {
            assert(0 <= index < constraint@.args.len());
        }
        let literal = self.args_extractor.extract_term(constraint, crate::args_extractor::args_extractor::position_of(index, constraint));
        match literal {
            ModelLiteral::IntSet(v) => set_of_ranges(&v),
            _ => HashSet::new(),
        }
    }

    /// Returns the boolean literal at argument `index` of the constraint.
    pub fn extract_bool_value(&self, index: i64, constraint: &ModelConstraint) -> (r: bool)
        requires
            bool_term_ok(constraint@, index as int),
        ensures
            term_at(constraint@, index as int) == Some(ModelLiteralV::Bool(r)),
    {
        proof {
            assert(0 <= index < constraint@.args.len());
        }
        self.args_extractor.extract_bool_value(
            self.args_extractor.extract_term(constraint, crate::args_extractor::args_extractor::position_of(index, constraint)),
        )
    }

    /// Returns the integer literal at argument `index` of the constraint.
    pub fn extract_int_value(&self, index: i64, constraint: &ModelConstraint) -> (r: i64)
        requires
            int_term_ok(constraint@, index as int),
        ensures
            term_at(constraint@, index as int) == Some(ModelLiteralV::Int(r)),
    {
        proof {
            assert(0 <= index < constraint@.args.len());
        }
        self.args_extractor.extract_int_value(
            self.args_extractor.extract_term(constraint, crate::args_extractor::args_extractor::position_of(index, constraint)),
        )
    }
}

} // verus!
