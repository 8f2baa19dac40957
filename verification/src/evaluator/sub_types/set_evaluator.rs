use crate::args_extractor::args_extractor::{
    all_identifiers, collect, identifier_of, names_matching, strings_view, term_at,
};
use crate::args_extractor::sub_types::set_args_extractor::{ranges_set, set_of_ranges, SetArgsExtractor};
use crate::data_utility::model::{
    literals_view, ModelArgument, ModelArray, CallWithDefines, ModelConstraint, ModelConstraintV, ModelLiteral, ModelLiteralV,
};
use crate::data_utility::types::{values_view, Register, VariableValue, VariableValueV};
use crate::evaluator::set_ops::{
    count_below, count_below_of, difference_of, intersection_of, is_subset, lex_le, lex_less, lex_lt,
    set_equal, set_size, sorted_elements, sorted_elements_of, sym_diff, sym_diff_of, union_of,
};
use crate::evaluator::terms::{
    abs_diff, all_registered, bool_term_of, bool_term_value, bool_value, check_positions,
    checked_abs_diff, flag, identifier_literals, int_read, int_term_of, int_term_value, int_value,
    is_name_map, lookup_registers, named_at, named_register, named_register_of, positions_fit,
    read_int, registers_of, resolve_bool_term, resolve_int_term, same_outcome, set_read, BoolTerm,
    IntTerm,
};
use std::collections::{HashMap, HashSet};
use vstd::hash_map::StringHashMap;
use vstd::prelude::*;

verus! {

broadcast use vstd::std_specs::hash::group_hash_axioms;

pub const ARRAY_INDEX: i64 = 0;
pub const X_TERM_INDEX: i64 = 0;
pub const Y_TERM_INDEX: i64 = 1;
pub const Z_TERM_INDEX: i64 = 2;
pub const R_TERM_INDEX: i64 = 2;

/// The set constraints of FlatZinc that [`SetEvaluator`] compiles.
#[derive(Debug, Clone, Copy, PartialEq, Eq, Structural)]
pub enum SetKind {
    ArraySetElement,
    ArrayVarSetElement,
    SetCard,
    SetDiff,
    SetEq,
    SetEqReif,
    SetIn,
    SetInReif,
    SetIntersect,
    SetLe,
    SetLeReif,
    SetLt,
    SetLtReif,
    SetNe,
    SetNeReif,
    SetSubset,
    SetSubsetReif,
    SetSuperset,
    SetSupersetReif,
    SetSymdiff,
    SetUnion,
}

/// A set operand: a variable register, a constant set, or a variable name that has
/// no register (reading it fails).
#[derive(Debug)]
pub enum SetTerm {
    Register(Register),
    Const(HashSet<i64>),
    Unresolved,
}

/// The value of a set operand in a solution.
pub open spec fn set_term_value(t: SetTerm, sol: Seq<VariableValueV>) -> Option<Set<i64>> {
    match t {
        SetTerm::Register(r) => set_read(sol, r),
        SetTerm::Const(s) => Some(s@),
        SetTerm::Unresolved => None,
    }
}

/// A compiled set constraint: its operands resolved to registers and constants.
///
/// The orders `<=` and `<` on sets compare the ascending listings of the two sets
/// lexicographically.
#[derive(Debug)]
pub enum SetConstraint {
    /// `array[index] = value` over a constant array of sets.
    ArrayElement { index: Register, array: Vec<HashSet<i64>>, value: Register },
    /// `array[index] = value` over an array of set variables.
    ArrayVarElement { index: Register, array: Vec<Register>, value: Register },
    /// `|a| = b`.
    Card { a: SetTerm, b: IntTerm },
    /// `x \ y = z`.
    Diff { x: SetTerm, y: SetTerm, z: SetTerm },
    /// `x = y`.
    Eq { x: SetTerm, y: SetTerm },
    /// `r <-> x = y`.
    EqReif { x: SetTerm, y: SetTerm, r: BoolTerm },
    /// `x in y`.
    In { x: IntTerm, y: SetTerm },
    /// `r <-> x in y`.
    InReif { x: IntTerm, y: SetTerm, r: BoolTerm },
    /// `x ∩ y = z`.
    Intersect { x: SetTerm, y: SetTerm, z: SetTerm },
    /// `x <= y`.
    Le { x: SetTerm, y: SetTerm },
    /// `r <-> x <= y`.
    LeReif { x: SetTerm, y: SetTerm, r: BoolTerm },
    /// `x < y`.
    Lt { x: SetTerm, y: SetTerm },
    /// `r <-> x < y`.
    LtReif { x: SetTerm, y: SetTerm, r: BoolTerm },
    /// `x != y`.
    Ne { x: SetTerm, y: SetTerm },
    /// `r <-> x != y`.
    NeReif { x: SetTerm, y: SetTerm, r: BoolTerm },
    /// `x ⊆ y`.
    Subset { x: SetTerm, y: SetTerm },
    /// `r <-> x ⊆ y`.
    SubsetReif { x: SetTerm, y: SetTerm, r: BoolTerm },
    /// `x ⊇ y`.
    Superset { x: SetTerm, y: SetTerm },
    /// `r <-> x ⊇ y`.
    SupersetReif { x: SetTerm, y: SetTerm, r: BoolTerm },
    /// `x △ y = z`.
    Symdiff { x: SetTerm, y: SetTerm, z: SetTerm },
    /// `x ∪ y = z`.
    Union { x: SetTerm, y: SetTerm, z: SetTerm },
}

/// Every register of the list holds a set.
pub open spec fn all_sets(regs: Seq<Register>, sol: Seq<VariableValueV>) -> bool {
    forall|i: int| 0 <= i < regs.len() ==> #[trigger] set_read(sol, regs[i]) is Some
}

/// The shorter of two lengths.
pub open spec fn min_len(a: nat, b: nat) -> nat {
    if a <= b { a } else { b }
}

/// The violation of `x <= y` (`x < y` when `strict`): zero when it holds; otherwise
/// the number of positions `i`, within both ascending listings, at which the `i`-th
/// element of the listing of `y` lies below (or, when `strict`, at or below) the
/// `i`-th element of the listing of `x`, and at least `1`.
pub open spec fn order_violation(x: Set<i64>, y: Set<i64>, strict: bool) -> int {
    let xs = sorted_elements(x);
    let ys = sorted_elements(y);
    if (if strict { lex_lt(xs, ys) } else { lex_le(xs, ys) }) {
        0
    } else {
        let n = count_below(ys, xs, min_len(ys.len(), xs.len()), strict);
        if n == 0 { 1 } else { n }
    }
}

/// The violation of a compiled set constraint in a solution, as the evaluation
/// computes it; `None` where the evaluation fails.
pub open spec fn set_violation(p: SetConstraint, sol: Seq<VariableValueV>) -> Option<int> {
    match p {
        SetConstraint::ArrayElement { index, array, value } => {
            match (int_read(sol, index), set_read(sol, value)) {
                (Some(i), Some(v)) => {
                    let pos = i as usize;
                    if pos < array@.len() {
                        Some(sym_diff(array@[pos as int]@, v).len() as int)
                    } else {
                        None
                    }
                },
                _ => None,
            }
        },
        SetConstraint::ArrayVarElement { index, array, value } => {
            if all_sets(array@, sol) {
                match (int_read(sol, index), set_read(sol, value)) {
                    (Some(i), Some(v)) => {
                        let pos = i as usize;
                        if pos < array@.len() {
                            Some(sym_diff(set_read(sol, array@[pos as int])->0, v).len() as int)
                        } else {
                            None
                        }
                    },
                    _ => None,
                }
            } else {
                None
            }
        },
        SetConstraint::Card { a, b } => match (set_term_value(a, sol), int_term_value(b, sol)) {
            (Some(s), Some(n)) => if s.len() <= i64::MAX {
                abs_diff(s.len() as int, n as int)
            } else {
                None
            },
            _ => None,
        },
        SetConstraint::Diff { x, y, z } => match (
            set_term_value(x, sol),
            set_term_value(y, sol),
            set_term_value(z, sol),
        ) {
            (Some(a), Some(b), Some(c)) => Some(sym_diff(a.difference(b), c).len() as int),
            _ => None,
        },
        SetConstraint::Eq { x, y } => match (set_term_value(x, sol), set_term_value(y, sol)) {
            (Some(a), Some(b)) => Some(sym_diff(a, b).len() as int),
            _ => None,
        },
        SetConstraint::EqReif { x, y, r } => match (
            set_term_value(x, sol),
            set_term_value(y, sol),
            bool_term_value(r, sol),
        ) {
            (Some(a), Some(b), Some(t)) => Some(flag(t != (a == b))),
            _ => None,
        },
        SetConstraint::In { x, y } => match (int_term_value(x, sol), set_term_value(y, sol)) {
            (Some(v), Some(b)) => Some(flag(!b.contains(v))),
            _ => None,
        },
        SetConstraint::InReif { x, y, r } => match (
            int_term_value(x, sol),
            set_term_value(y, sol),
            bool_term_value(r, sol),
        ) {
            (Some(v), Some(b), Some(t)) => Some(flag(t != b.contains(v))),
            _ => None,
        },
        SetConstraint::Intersect { x, y, z } => match (
            set_term_value(x, sol),
            set_term_value(y, sol),
            set_term_value(z, sol),
        ) {
            (Some(a), Some(b), Some(c)) => Some(sym_diff(a.intersect(b), c).len() as int),
            _ => None,
        },
        SetConstraint::Le { x, y } => match (set_term_value(x, sol), set_term_value(y, sol)) {
            (Some(a), Some(b)) => Some(order_violation(a, b, false)),
            _ => None,
        },
        SetConstraint::LeReif { x, y, r } => match (
            set_term_value(x, sol),
            set_term_value(y, sol),
            bool_term_value(r, sol),
        ) {
            (Some(a), Some(b), Some(t)) => Some(
                flag(t != lex_le(sorted_elements(a), sorted_elements(b))),
            ),
            _ => None,
        },
        SetConstraint::Lt { x, y } => match (set_term_value(x, sol), set_term_value(y, sol)) {
            (Some(a), Some(b)) => Some(order_violation(a, b, true)),
            _ => None,
        },
        SetConstraint::LtReif { x, y, r } => match (
            set_term_value(x, sol),
            set_term_value(y, sol),
            bool_term_value(r, sol),
        ) {
            (Some(a), Some(b), Some(t)) => Some(
                flag(t != lex_lt(sorted_elements(a), sorted_elements(b))),
            ),
            _ => None,
        },
        SetConstraint::Ne { x, y } => match (set_term_value(x, sol), set_term_value(y, sol)) {
            (Some(a), Some(b)) => Some(flag(a == b)),
            _ => None,
        },
        SetConstraint::NeReif { x, y, r } => match (
            set_term_value(x, sol),
            set_term_value(y, sol),
            bool_term_value(r, sol),
        ) {
            (Some(a), Some(b), Some(t)) => Some(flag(t != (a != b))),
            _ => None,
        },
        SetConstraint::Subset { x, y } => match (set_term_value(x, sol), set_term_value(y, sol)) {
            (Some(a), Some(b)) => Some(a.difference(b).len() as int),
            _ => None,
        },
        SetConstraint::SubsetReif { x, y, r } => match (
            set_term_value(x, sol),
            set_term_value(y, sol),
            bool_term_value(r, sol),
        ) {
            (Some(a), Some(b), Some(t)) => Some(flag(t != a.subset_of(b))),
            _ => None,
        },
        SetConstraint::Superset { x, y } => match (set_term_value(x, sol), set_term_value(y, sol)) {
            (Some(a), Some(b)) => Some(b.difference(a).len() as int),
            _ => None,
        },
        SetConstraint::SupersetReif { x, y, r } => match (
            set_term_value(x, sol),
            set_term_value(y, sol),
            bool_term_value(r, sol),
        ) {
            (Some(a), Some(b), Some(t)) => Some(flag(t != b.subset_of(a))),
            _ => None,
        },
        SetConstraint::Symdiff { x, y, z } => match (
            set_term_value(x, sol),
            set_term_value(y, sol),
            set_term_value(z, sol),
        ) {
            (Some(a), Some(b), Some(c)) => Some(sym_diff(sym_diff(a, b), c).len() as int),
            _ => None,
        },
        SetConstraint::Union { x, y, z } => match (
            set_term_value(x, sol),
            set_term_value(y, sol),
            set_term_value(z, sol),
        ) {
            (Some(a), Some(b), Some(c)) => Some(sym_diff(a.union(b), c).len() as int),
            _ => None,
        },
    }
}

/// Reads the set held by a register.
pub fn read_set(solution: &[VariableValue], reg: Register) -> (r: Option<&HashSet<i64>>)
    ensures
        match r {
            Some(s) => set_read(values_view(solution@), reg) == Some(s@),
            None => set_read(values_view(solution@), reg) is None,
        },
{
    if (reg as usize) < solution.len() {
        match &solution[reg as usize] {
            VariableValue::IntSet(s) => Some(s),
            _ => None,
        }
    } else {
        None
    }
}

/// The value of a set operand.
pub fn set_value<'a>(t: &'a SetTerm, solution: &'a [VariableValue]) -> (r: Option<&'a HashSet<i64>>)
    ensures
        match r {
            Some(s) => set_term_value(*t, values_view(solution@)) == Some(s@),
            None => set_term_value(*t, values_view(solution@)) is None,
        },
{
    match t {
        SetTerm::Register(reg) => read_set(solution, *reg),
        SetTerm::Const(s) => Some(s),
        SetTerm::Unresolved => None,
    }
}

/// Checks that every register of the list holds a set.
fn check_all_sets(regs: &Vec<Register>, solution: &[VariableValue]) -> (r: bool)
    ensures
        r == all_sets(regs@, values_view(solution@)),
{
    for i in 0..regs.len()
        invariant
            forall|j: int| 0 <= j < i ==> #[trigger] set_read(values_view(solution@), regs@[j]) is Some,
    {
        if read_set(solution, regs[i]).is_none() {
            return false;
        }
    }
    true
}

/// `1` when `b` holds, `0` otherwise, as a violation.
fn flag_amount(b: bool) -> (r: u64)
    ensures
        r == flag(b),
{
    if b { 1 } else { 0 }
}

/// The violation of `x <= y` (`x < y` when `strict`), see [`order_violation`].
fn order_amount(x: &HashSet<i64>, y: &HashSet<i64>, strict: bool) -> (r: u64)
    ensures
        r == order_violation(x@, y@, strict),
{
    let xv = sorted_elements_of(x);
    let yv = sorted_elements_of(y);
    let holds = if strict { lex_less(&xv, &yv) } else { !lex_less(&yv, &xv) };
    if holds {
        0
    } else {
        let n = count_below_of(&yv, &xv, strict);
        if n == 0 { 1 } else { n }
    }
}

impl SetConstraint {
    /// The violation of the constraint in `solution` (see [`set_violation`]);
    /// `None` where the evaluation fails.
    pub fn violation(&self, solution: &[VariableValue]) -> (r: Option<u64>)
        ensures
            same_outcome(r, set_violation(*self, values_view(solution@))),
    {
        match self {
            SetConstraint::ArrayElement { index, array, value } => {
                let i = read_int(solution, *index)?;
                let v = read_set(solution, *value)?;
                let pos = i as usize;
                if pos < array.len() {
                    Some(set_size(&sym_diff_of(&array[pos], v)))
                } else {
                    None
                }
            },
            SetConstraint::ArrayVarElement { index, array, value } => {
                if !check_all_sets(array, solution) {
                    return None;
                }
                let i = read_int(solution, *index)?;
                let v = read_set(solution, *value)?;
                let pos = i as usize;
                if pos < array.len() {
                    let a = read_set(solution, array[pos])?;
                    Some(set_size(&sym_diff_of(a, v)))
                } else {
                    None
                }
            },
            SetConstraint::Card { a, b } => {
                let s = set_value(a, solution)?;
                let n = int_value(*b, solution)?;
                let card = set_size(s);
                if card > i64::MAX as u64 {
                    return None;
                }
                checked_abs_diff(card as i64, n)
            },
            SetConstraint::Diff { x, y, z } => {
                let a = set_value(x, solution)?;
                let b = set_value(y, solution)?;
                let c = set_value(z, solution)?;
                let d = difference_of(a, b);
                Some(set_size(&sym_diff_of(&d, c)))
            },
            SetConstraint::Eq { x, y } => {
                let a = set_value(x, solution)?;
                let b = set_value(y, solution)?;
                Some(set_size(&sym_diff_of(a, b)))
            },
            SetConstraint::EqReif { x, y, r } => {
                let a = set_value(x, solution)?;
                let b = set_value(y, solution)?;
                let t = bool_value(*r, solution)?;
                Some(flag_amount(t != set_equal(a, b)))
            },
            SetConstraint::In { x, y } => {
                let v = int_value(*x, solution)?;
                let b = set_value(y, solution)?;
                Some(flag_amount(!b.contains(&v)))
            },
            SetConstraint::InReif { x, y, r } => {
                let v = int_value(*x, solution)?;
                let b = set_value(y, solution)?;
                let t = bool_value(*r, solution)?;
                Some(flag_amount(t != b.contains(&v)))
            },
            SetConstraint::Intersect { x, y, z } => {
                let a = set_value(x, solution)?;
                let b = set_value(y, solution)?;
                let c = set_value(z, solution)?;
                let i = intersection_of(a, b);
                Some(set_size(&sym_diff_of(&i, c)))
            },
            SetConstraint::Le { x, y } => {
                let a = set_value(x, solution)?;
                let b = set_value(y, solution)?;
                Some(order_amount(a, b, false))
            },
            SetConstraint::LeReif { x, y, r } => {
                let a = set_value(x, solution)?;
                let b = set_value(y, solution)?;
                let t = bool_value(*r, solution)?;
                let av = sorted_elements_of(a);
                let bv = sorted_elements_of(b);
                Some(flag_amount(t != !lex_less(&bv, &av)))
            },
            SetConstraint::Lt { x, y } => {
                let a = set_value(x, solution)?;
                let b = set_value(y, solution)?;
                Some(order_amount(a, b, true))
            },
            SetConstraint::LtReif { x, y, r } => {
                let a = set_value(x, solution)?;
                let b = set_value(y, solution)?;
                let t = bool_value(*r, solution)?;
                let av = sorted_elements_of(a);
                let bv = sorted_elements_of(b);
                Some(flag_amount(t != lex_less(&av, &bv)))
            },
            SetConstraint::Ne { x, y } => {
                let a = set_value(x, solution)?;
                let b = set_value(y, solution)?;
                Some(flag_amount(set_equal(a, b)))
            },
            SetConstraint::NeReif { x, y, r } => {
                let a = set_value(x, solution)?;
                let b = set_value(y, solution)?;
                let t = bool_value(*r, solution)?;
                Some(flag_amount(t != !set_equal(a, b)))
            },
            SetConstraint::Subset { x, y } => {
                let a = set_value(x, solution)?;
                let b = set_value(y, solution)?;
                Some(set_size(&difference_of(a, b)))
            },
            SetConstraint::SubsetReif { x, y, r } => {
                let a = set_value(x, solution)?;
                let b = set_value(y, solution)?;
                let t = bool_value(*r, solution)?;
                Some(flag_amount(t != is_subset(a, b)))
            },
            SetConstraint::Superset { x, y } => {
                let a = set_value(x, solution)?;
                let b = set_value(y, solution)?;
                Some(set_size(&difference_of(b, a)))
            },
            SetConstraint::SupersetReif { x, y, r } => {
                let a = set_value(x, solution)?;
                let b = set_value(y, solution)?;
                let t = bool_value(*r, solution)?;
                Some(flag_amount(t != is_subset(b, a)))
            },
            SetConstraint::Symdiff { x, y, z } => {
                let a = set_value(x, solution)?;
                let b = set_value(y, solution)?;
                let c = set_value(z, solution)?;
                let s = sym_diff_of(a, b);
                Some(set_size(&sym_diff_of(&s, c)))
            },
            SetConstraint::Union { x, y, z } => {
                let a = set_value(x, solution)?;
                let b = set_value(y, solution)?;
                let c = set_value(z, solution)?;
                let u = union_of(a, b);
                Some(set_size(&sym_diff_of(&u, c)))
            },
        }
    }
}

/// ModelArgument `idx` can become a set operand: it names a variable, or it is a set
/// literal.
pub open spec fn set_term_ok(c: ModelConstraintV, idx: int) -> bool {
    named_at(c, idx) is Some || term_at(c, idx) matches Some(ModelLiteralV::IntSet(_))
}

/// `t` is the set operand that argument `idx` becomes: a named variable becomes its
/// register (or stays unresolved when it has none); a set literal becomes the set of
/// the integers its ranges cover.
pub open spec fn set_term_fits(t: SetTerm, c: ModelConstraintV, idx: int, regs: Map<Seq<char>, Register>) -> bool {
    match named_at(c, idx) {
        Some(n) => t == (if regs.contains_key(n) {
            SetTerm::Register(regs[n])
        } else {
            SetTerm::Unresolved
        }),
        None => match term_at(c, idx) {
            Some(ModelLiteralV::IntSet(rs)) => t matches SetTerm::Const(s) && s@ == ranges_set(rs),
            _ => false,
        },
    }
}

/// Every literal of the list is a set of integers.
pub open spec fn all_int_sets(ls: Seq<ModelLiteralV>) -> bool {
    forall|k: int| 0 <= k < ls.len() ==> #[trigger] ls[k] is IntSet
}

/// `v` holds, in order, the sets of integers given by the set literals `ls`.
pub open spec fn sets_of_literals(v: Seq<HashSet<i64>>, ls: Seq<ModelLiteralV>) -> bool {
    &&& v.len() == ls.len()
    &&& forall|k: int| 0 <= k < ls.len() ==> (#[trigger] v[k])@ == ranges_set(ls[k]->IntSet_0)
}

/// The constraint can be compiled as `kind`: every operand resolves (an argument that
/// names no variable is a literal of the right type), the arrays that element
/// constraints index exist and hold the right literals, and the variables that must
/// have registers have them.
pub open spec fn set_setup_ok(
    kind: SetKind,
    c: ModelConstraintV,
    arrays: Map<Seq<char>, ModelArray>,
    regs: Map<Seq<char>, Register>,
) -> bool {
    &&& positions_fit(c)
    &&& match kind {
        SetKind::ArraySetElement | SetKind::ArrayVarSetElement => {
            &&& named_register(c, 0, regs)
            &&& named_at(c, 1) is Some
            &&& arrays.contains_key(named_at(c, 1)->0)
            &&& if kind == SetKind::ArraySetElement {
                all_int_sets(arrays[named_at(c, 1)->0]@)
            } else {
                &&& all_identifiers(arrays[named_at(c, 1)->0]@)
                &&& all_registered(
                    collect(arrays[named_at(c, 1)->0]@, |x: ModelLiteralV| identifier_of(x)),
                    regs,
                )
            }
            &&& named_register(c, 2, regs)
        },
        SetKind::SetCard => set_term_ok(c, 0) && int_term_of(c, 1, regs) is Some,
        SetKind::SetIn => int_term_of(c, 0, regs) is Some && set_term_ok(c, 1),
        SetKind::SetInReif => {
            &&& int_term_of(c, 0, regs) is Some
            &&& set_term_ok(c, 1)
            &&& bool_term_of(c, 2, regs) is Some
        },
        SetKind::SetEq | SetKind::SetLe | SetKind::SetLt | SetKind::SetNe | SetKind::SetSubset
        | SetKind::SetSuperset => set_term_ok(c, 0) && set_term_ok(c, 1),
        SetKind::SetEqReif | SetKind::SetLeReif | SetKind::SetLtReif | SetKind::SetNeReif
        | SetKind::SetSubsetReif | SetKind::SetSupersetReif => {
            &&& set_term_ok(c, 0)
            &&& set_term_ok(c, 1)
            &&& bool_term_of(c, 2, regs) is Some
        },
        _ => set_term_ok(c, 0) && set_term_ok(c, 1) && set_term_ok(c, 2),
    }
}

/// `p` is the compilation of `c` as `kind`.
pub open spec fn set_compiled(
    kind: SetKind,
    p: SetConstraint,
    c: ModelConstraintV,
    arrays: Map<Seq<char>, ModelArray>,
    regs: Map<Seq<char>, Register>,
) -> bool {
    let r2 = bool_term_of(c, 2, regs)->0;
    match kind {
        SetKind::ArraySetElement => p matches SetConstraint::ArrayElement { index, array, value }
            && index == regs[named_at(c, 0)->0] && value == regs[named_at(c, 2)->0]
            && sets_of_literals(array@, arrays[named_at(c, 1)->0]@),
        SetKind::ArrayVarSetElement => p matches SetConstraint::ArrayVarElement { index, array, value }
            && index == regs[named_at(c, 0)->0] && value == regs[named_at(c, 2)->0] && array@
            == registers_of(collect(arrays[named_at(c, 1)->0]@, |x: ModelLiteralV| identifier_of(x)), regs),
        SetKind::SetCard => p matches SetConstraint::Card { a, b } && set_term_fits(a, c, 0, regs)
            && b == int_term_of(c, 1, regs)->0,
        SetKind::SetIn => p matches SetConstraint::In { x, y } && x == int_term_of(c, 0, regs)->0
            && set_term_fits(y, c, 1, regs),
        SetKind::SetInReif => p matches SetConstraint::InReif { x, y, r } && x == int_term_of(c, 0, regs)->0
            && set_term_fits(y, c, 1, regs) && r == r2,
        SetKind::SetEq => p matches SetConstraint::Eq { x, y } && set_term_fits(x, c, 0, regs)
            && set_term_fits(y, c, 1, regs),
        SetKind::SetLe => p matches SetConstraint::Le { x, y } && set_term_fits(x, c, 0, regs)
            && set_term_fits(y, c, 1, regs),
        SetKind::SetLt => p matches SetConstraint::Lt { x, y } && set_term_fits(x, c, 0, regs)
            && set_term_fits(y, c, 1, regs),
        SetKind::SetNe => p matches SetConstraint::Ne { x, y } && set_term_fits(x, c, 0, regs)
            && set_term_fits(y, c, 1, regs),
        SetKind::SetSubset => p matches SetConstraint::Subset { x, y } && set_term_fits(x, c, 0, regs)
            && set_term_fits(y, c, 1, regs),
        SetKind::SetSuperset => p matches SetConstraint::Superset { x, y } && set_term_fits(x, c, 0, regs)
            && set_term_fits(y, c, 1, regs),
        SetKind::SetEqReif => p matches SetConstraint::EqReif { x, y, r } && set_term_fits(x, c, 0, regs)
            && set_term_fits(y, c, 1, regs) && r == r2,
        SetKind::SetLeReif => p matches SetConstraint::LeReif { x, y, r } && set_term_fits(x, c, 0, regs)
            && set_term_fits(y, c, 1, regs) && r == r2,
        SetKind::SetLtReif => p matches SetConstraint::LtReif { x, y, r } && set_term_fits(x, c, 0, regs)
            && set_term_fits(y, c, 1, regs) && r == r2,
        SetKind::SetNeReif => p matches SetConstraint::NeReif { x, y, r } && set_term_fits(x, c, 0, regs)
            && set_term_fits(y, c, 1, regs) && r == r2,
        SetKind::SetSubsetReif => p matches SetConstraint::SubsetReif { x, y, r } && set_term_fits(
            x,
            c,
            0,
            regs,
        ) && set_term_fits(y, c, 1, regs) && r == r2,
        SetKind::SetSupersetReif => p matches SetConstraint::SupersetReif { x, y, r } && set_term_fits(
            x,
            c,
            0,
            regs,
        ) && set_term_fits(y, c, 1, regs) && r == r2,
        SetKind::SetDiff => p matches SetConstraint::Diff { x, y, z } && set_term_fits(x, c, 0, regs)
            && set_term_fits(y, c, 1, regs) && set_term_fits(z, c, 2, regs),
        SetKind::SetIntersect => p matches SetConstraint::Intersect { x, y, z } && set_term_fits(
            x,
            c,
            0,
            regs,
        ) && set_term_fits(y, c, 1, regs) && set_term_fits(z, c, 2, regs),
        SetKind::SetSymdiff => p matches SetConstraint::Symdiff { x, y, z } && set_term_fits(x, c, 0, regs)
            && set_term_fits(y, c, 1, regs) && set_term_fits(z, c, 2, regs),
        SetKind::SetUnion => p matches SetConstraint::Union { x, y, z } && set_term_fits(x, c, 0, regs)
            && set_term_fits(y, c, 1, regs) && set_term_fits(z, c, 2, regs),
    }
}

/// Whether every literal of the list is a set of integers, and those sets.
fn set_literals(lits: &Vec<ModelLiteral>) -> (r: Option<Vec<HashSet<i64>>>)
    ensures
        match r {
            Some(v) => all_int_sets(literals_view(lits@)) && sets_of_literals(v@, literals_view(lits@)),
            None => !all_int_sets(literals_view(lits@)),
        },
{
    let ghost ls = literals_view(lits@);
    let mut out: Vec<HashSet<i64>> = Vec::new();
    for j in 0..lits.len()
        invariant
            ls == literals_view(lits@),
            all_int_sets(ls.take(j as int)),
            sets_of_literals(out@, ls.take(j as int)),
    {
        match &lits[j] {
            ModelLiteral::IntSet(rs) => {
                let s = set_of_ranges(rs);
                out.push(s);
            },
            _ => {
                proof {
                    assert(!(ls[j as int] is IntSet));
                }
                return None;
            },
        }
        proof {
            let t = ls.take(j + 1);
            assert forall|k: int| 0 <= k < j + 1 implies #[trigger] t[k] is IntSet by {
                if k < j {
                    assert(t[k] == ls.take(j as int)[k]);
                }
            }
            assert forall|k: int| 0 <= k < t.len() implies (#[trigger] out@[k])@ == ranges_set(t[k]->IntSet_0) by {
                if k < j {
                    assert(t[k] == ls.take(j as int)[k]);
                }
            }
        }
    }
    proof {
        assert(ls.take(lits.len() as int) =~= ls);
    }
    Some(out)
}

/// Resolves argument `idx` to a set operand (see [`set_term_fits`]).
fn resolve_set_term(
    extractor: &SetArgsExtractor,
    names: &HashMap<i64, String>,
    idx: i64,
    constraint: &ModelConstraint,
    regs: &StringHashMap<Register>,
) -> (r: Option<SetTerm>)
    requires
        is_name_map(names@, constraint@),
    ensures
        r is Some <==> set_term_ok(constraint@, idx as int),
        r matches Some(t) ==> set_term_fits(t, constraint@, idx as int, regs@),
{
    match names.get(&idx) {
        Some(name) => {
            match regs.get(name.as_str()) {
                Some(reg) => Some(SetTerm::Register(*reg)),
                None => Some(SetTerm::Unresolved),
            }
        },
        None => {
            if 0 <= idx && (idx as u64) < (constraint.args.len() as u64) {
                match &constraint.args[idx as usize] {
                    ModelArgument::Literal(ModelLiteral::IntSet(_)) => {
                        Some(SetTerm::Const(extractor.extract_set_value(idx, constraint)))
                    },
                    _ => None,
                }
            } else {
                None
            }
        },
    }
}

/// Evaluates set constraints of a FlatZinc model against solutions held in
/// registers.
pub struct SetEvaluator {
    /// The named arrays of the model.
    arrays: StringHashMap<ModelArray>,
    /// The register of each variable of the model.
    variable_register_map: StringHashMap<Register>,
    /// Extracts set arguments from constraints.
    args_extractor: SetArgsExtractor,
    /// Whether violated constraints are to be reported.
    verbose: bool,
}

impl SetEvaluator {
    /// The named arrays the evaluator resolves array arguments with.
    pub closed spec fn array_map(&self) -> Map<Seq<char>, ModelArray> {
        self.arrays@
    }

    /// The register of each variable.
    pub closed spec fn register_map(&self) -> Map<Seq<char>, Register> {
        self.variable_register_map@
    }

    /// Whether violated constraints are to be reported.
    pub closed spec fn is_verbose(&self) -> bool {
        self.verbose
    }

    /// Creates an evaluator over the named arrays and the variable registers of a model.
    pub fn new(
        arrays: StringHashMap<ModelArray>,
        variable_register_map: StringHashMap<Register>,
        verbose: bool,
    ) -> (r: Self)
        ensures
            r.array_map() == arrays@,
            r.register_map() == variable_register_map@,
            r.is_verbose() == verbose,
    {
        let args_extractor = SetArgsExtractor::new();
        Self { arrays, variable_register_map, args_extractor, verbose }
    }

    /// Whether violated constraints are to be reported.
    pub fn verbose(&self) -> (r: bool)
        ensures
            r == self.is_verbose(),
    {
        self.verbose
    }

    /// Compiles `constraint` as a set constraint of the given kind.
    pub fn compile(&self, kind: SetKind, constraint: &ModelConstraint) -> (r: Option<SetConstraint>)
        ensures
            r is Some <==> set_setup_ok(kind, constraint@, self.array_map(), self.register_map()),
            r matches Some(p) ==> set_compiled(kind, p, constraint@, self.array_map(), self.register_map()),
    {
        let regs = &self.variable_register_map;
        let ex = &self.args_extractor;
        if !check_positions(constraint) {
            return None;
        }
        let names = ex.extract_literal_identifiers_with_index(&constraint.args);
        match kind {
            SetKind::ArraySetElement | SetKind::ArrayVarSetElement => {
                let index = named_register_of(&names, 0, constraint, regs)?;
                let array_name = match names.get(&1) {
                    Some(n) => n,
                    None => {
                        return None;
                    },
                };
                let arr = match self.arrays.get(array_name.as_str()) {
                    Some(a) => a,
                    None => {
                        return None;
                    },
                };
                if kind == SetKind::ArraySetElement {
                    let array = set_literals(&arr.contents)?;
                    let value = named_register_of(&names, 2, constraint, regs)?;
                    Some(SetConstraint::ArrayElement { index, array, value })
                } else {
                    if !identifier_literals(&arr.contents) {
                        return None;
                    }
                    let var_names = names_matching(&arr.contents, false);
                    proof {
                        assert(var_names@.map_values(|s: String| s@) =~= strings_view(var_names@));
                    }
                    let array = lookup_registers(&var_names, regs)?;
                    let value = named_register_of(&names, 2, constraint, regs)?;
                    Some(SetConstraint::ArrayVarElement { index, array, value })
                }
            },
            SetKind::SetCard => {
                let a = resolve_set_term(ex, &names, 0, constraint, regs)?;
                let b = resolve_int_term(&names, 1, constraint, regs)?;
                Some(SetConstraint::Card { a, b })
            },
            SetKind::SetIn | SetKind::SetInReif => {
                let x = resolve_int_term(&names, 0, constraint, regs)?;
                let y = resolve_set_term(ex, &names, 1, constraint, regs)?;
                if kind == SetKind::SetIn {
                    Some(SetConstraint::In { x, y })
                } else {
                    let r = resolve_bool_term(&names, 2, constraint, regs)?;
                    Some(SetConstraint::InReif { x, y, r })
                }
            },
            _ => {
                let x = resolve_set_term(ex, &names, 0, constraint, regs)?;
                let y = resolve_set_term(ex, &names, 1, constraint, regs)?;
                match kind {
                    SetKind::SetEq => Some(SetConstraint::Eq { x, y }),
                    SetKind::SetLe => Some(SetConstraint::Le { x, y }),
                    SetKind::SetLt => Some(SetConstraint::Lt { x, y }),
                    SetKind::SetNe => Some(SetConstraint::Ne { x, y }),
                    SetKind::SetSubset => Some(SetConstraint::Subset { x, y }),
                    SetKind::SetSuperset => Some(SetConstraint::Superset { x, y }),
                    SetKind::SetDiff | SetKind::SetIntersect | SetKind::SetSymdiff | SetKind::SetUnion => {
                        let z = resolve_set_term(ex, &names, 2, constraint, regs)?;
                        match kind {
                            SetKind::SetDiff => Some(SetConstraint::Diff { x, y, z }),
                            SetKind::SetIntersect => Some(SetConstraint::Intersect { x, y, z }),
                            SetKind::SetSymdiff => Some(SetConstraint::Symdiff { x, y, z }),
                            _ => Some(SetConstraint::Union { x, y, z }),
                        }
                    },
                    _ => {
                        let r = resolve_bool_term(&names, 2, constraint, regs)?;
                        match kind {
                            SetKind::SetEqReif => Some(SetConstraint::EqReif { x, y, r }),
                            SetKind::SetLeReif => Some(SetConstraint::LeReif { x, y, r }),
                            SetKind::SetLtReif => Some(SetConstraint::LtReif { x, y, r }),
                            SetKind::SetNeReif => Some(SetConstraint::NeReif { x, y, r }),
                            SetKind::SetSubsetReif => Some(SetConstraint::SubsetReif { x, y, r }),
                            _ => Some(SetConstraint::SupersetReif { x, y, r }),
                        }
                    },
                }
            },
        }
    }

    /// Compiles a `array_set_element` constraint: `array[index] = value` over a constant array of sets; the violation is the size of the symmetric difference of `array[index]` and `value`.
    ///
    /// `None` when the constraint cannot be compiled (see [`set_setup_ok`]).
    pub fn array_set_element(&self, constraint: &CallWithDefines) -> (r: Option<SetConstraint>)
        ensures
            r is Some <==> set_setup_ok(SetKind::ArraySetElement, constraint.call@, self.array_map(), self.register_map()),
            r matches Some(p) ==> set_compiled(SetKind::ArraySetElement, p, constraint.call@, self.array_map(), self.register_map()),
    {
        self.compile(SetKind::ArraySetElement, &constraint.call)
    }

    /// Compiles a `array_var_set_element` constraint: `array[index] = value` over an array of set variables; the violation is the size of the symmetric difference of `array[index]` and `value`.
    ///
    /// `None` when the constraint cannot be compiled (see [`set_setup_ok`]).
    pub fn array_var_set_element(&self, constraint: &CallWithDefines) -> (r: Option<SetConstraint>)
        ensures
            r is Some <==> set_setup_ok(SetKind::ArrayVarSetElement, constraint.call@, self.array_map(), self.register_map()),
            r matches Some(p) ==> set_compiled(SetKind::ArrayVarSetElement, p, constraint.call@, self.array_map(), self.register_map()),
    {
        self.compile(SetKind::ArrayVarSetElement, &constraint.call)
    }

    /// Compiles a `set_card` constraint: `|a| = b`; the violation is `||a| - b|`.
    ///
    /// `None` when the constraint cannot be compiled (see [`set_setup_ok`]).
    pub fn set_card(&self, constraint: &CallWithDefines) -> (r: Option<SetConstraint>)
        ensures
            r is Some <==> set_setup_ok(SetKind::SetCard, constraint.call@, self.array_map(), self.register_map()),
            r matches Some(p) ==> set_compiled(SetKind::SetCard, p, constraint.call@, self.array_map(), self.register_map()),
    {
        self.compile(SetKind::SetCard, &constraint.call)
    }

    /// Compiles a `set_diff` constraint: `x \ y = z`; the violation is the size of the symmetric difference of `x \ y` and `z`.
    ///
    /// `None` when the constraint cannot be compiled (see [`set_setup_ok`]).
    pub fn set_diff(&self, constraint: &CallWithDefines) -> (r: Option<SetConstraint>)
        ensures
            r is Some <==> set_setup_ok(SetKind::SetDiff, constraint.call@, self.array_map(), self.register_map()),
            r matches Some(p) ==> set_compiled(SetKind::SetDiff, p, constraint.call@, self.array_map(), self.register_map()),
    {
        self.compile(SetKind::SetDiff, &constraint.call)
    }

    /// Compiles a `set_eq` constraint: `x = y`; the violation is the size of their symmetric difference.
    ///
    /// `None` when the constraint cannot be compiled (see [`set_setup_ok`]).
    pub fn set_eq(&self, constraint: &CallWithDefines) -> (r: Option<SetConstraint>)
        ensures
            r is Some <==> set_setup_ok(SetKind::SetEq, constraint.call@, self.array_map(), self.register_map()),
            r matches Some(p) ==> set_compiled(SetKind::SetEq, p, constraint.call@, self.array_map(), self.register_map()),
    {
        self.compile(SetKind::SetEq, &constraint.call)
    }

    /// Compiles a `set_eq_reif` constraint: `r <-> x = y`.
    ///
    /// `None` when the constraint cannot be compiled (see [`set_setup_ok`]).
    pub fn set_eq_reif(&self, constraint: &CallWithDefines) -> (r: Option<SetConstraint>)
        ensures
            r is Some <==> set_setup_ok(SetKind::SetEqReif, constraint.call@, self.array_map(), self.register_map()),
            r matches Some(p) ==> set_compiled(SetKind::SetEqReif, p, constraint.call@, self.array_map(), self.register_map()),
    {
        self.compile(SetKind::SetEqReif, &constraint.call)
    }

    /// Compiles a `set_in` constraint: `x in y`.
    ///
    /// `None` when the constraint cannot be compiled (see [`set_setup_ok`]).
    pub fn set_in(&self, constraint: &CallWithDefines) -> (r: Option<SetConstraint>)
        ensures
            r is Some <==> set_setup_ok(SetKind::SetIn, constraint.call@, self.array_map(), self.register_map()),
            r matches Some(p) ==> set_compiled(SetKind::SetIn, p, constraint.call@, self.array_map(), self.register_map()),
    {
        self.compile(SetKind::SetIn, &constraint.call)
    }

    /// Compiles a `set_in_reif` constraint: `r <-> x in y`.
    ///
    /// `None` when the constraint cannot be compiled (see [`set_setup_ok`]).
    pub fn set_in_reif(&self, constraint: &CallWithDefines) -> (r: Option<SetConstraint>)
        ensures
            r is Some <==> set_setup_ok(SetKind::SetInReif, constraint.call@, self.array_map(), self.register_map()),
            r matches Some(p) ==> set_compiled(SetKind::SetInReif, p, constraint.call@, self.array_map(), self.register_map()),
    {
        self.compile(SetKind::SetInReif, &constraint.call)
    }

    /// Compiles a `set_intersect` constraint: `x ∩ y = z`; the violation is the size of the symmetric difference of `x ∩ y` and `z`.
    ///
    /// `None` when the constraint cannot be compiled (see [`set_setup_ok`]).
    pub fn set_intersect(&self, constraint: &CallWithDefines) -> (r: Option<SetConstraint>)
        ensures
            r is Some <==> set_setup_ok(SetKind::SetIntersect, constraint.call@, self.array_map(), self.register_map()),
            r matches Some(p) ==> set_compiled(SetKind::SetIntersect, p, constraint.call@, self.array_map(), self.register_map()),
    {
        self.compile(SetKind::SetIntersect, &constraint.call)
    }

    /// Compiles a `set_le` constraint: `x <= y`, comparing the ascending listings of the sets lexicographically; the violation counts the positions, within both listings, where the listing of `y` lies below that of `x`, and is at least `1` when the order fails.
    ///
    /// `None` when the constraint cannot be compiled (see [`set_setup_ok`]).
    pub fn set_le(&self, constraint: &CallWithDefines) -> (r: Option<SetConstraint>)
        ensures
            r is Some <==> set_setup_ok(SetKind::SetLe, constraint.call@, self.array_map(), self.register_map()),
            r matches Some(p) ==> set_compiled(SetKind::SetLe, p, constraint.call@, self.array_map(), self.register_map()),
    {
        self.compile(SetKind::SetLe, &constraint.call)
    }

    /// Compiles a `set_le_reif` constraint: `r <-> x <= y` (see [`SetEvaluator::set_le`]).
    ///
    /// `None` when the constraint cannot be compiled (see [`set_setup_ok`]).
    pub fn set_le_reif(&self, constraint: &CallWithDefines) -> (r: Option<SetConstraint>)
        ensures
            r is Some <==> set_setup_ok(SetKind::SetLeReif, constraint.call@, self.array_map(), self.register_map()),
            r matches Some(p) ==> set_compiled(SetKind::SetLeReif, p, constraint.call@, self.array_map(), self.register_map()),
    {
        self.compile(SetKind::SetLeReif, &constraint.call)
    }

    /// Compiles a `set_lt` constraint: `x < y`, comparing the ascending listings of the sets lexicographically; the violation counts the positions, within both listings, where the listing of `y` lies at or below that of `x`, and is at least `1` when the order fails.
    ///
    /// `None` when the constraint cannot be compiled (see [`set_setup_ok`]).
    pub fn set_lt(&self, constraint: &CallWithDefines) -> (r: Option<SetConstraint>)
        ensures
            r is Some <==> set_setup_ok(SetKind::SetLt, constraint.call@, self.array_map(), self.register_map()),
            r matches Some(p) ==> set_compiled(SetKind::SetLt, p, constraint.call@, self.array_map(), self.register_map()),
    {
        self.compile(SetKind::SetLt, &constraint.call)
    }

    /// Compiles a `set_lt_reif` constraint: `r <-> x < y` (see [`SetEvaluator::set_lt`]).
    ///
    /// `None` when the constraint cannot be compiled (see [`set_setup_ok`]).
    pub fn set_lt_reif(&self, constraint: &CallWithDefines) -> (r: Option<SetConstraint>)
        ensures
            r is Some <==> set_setup_ok(SetKind::SetLtReif, constraint.call@, self.array_map(), self.register_map()),
            r matches Some(p) ==> set_compiled(SetKind::SetLtReif, p, constraint.call@, self.array_map(), self.register_map()),
    {
        self.compile(SetKind::SetLtReif, &constraint.call)
    }

    /// Compiles a `set_ne` constraint: `x != y`.
    ///
    /// `None` when the constraint cannot be compiled (see [`set_setup_ok`]).
    pub fn set_ne(&self, constraint: &CallWithDefines) -> (r: Option<SetConstraint>)
        ensures
            r is Some <==> set_setup_ok(SetKind::SetNe, constraint.call@, self.array_map(), self.register_map()),
            r matches Some(p) ==> set_compiled(SetKind::SetNe, p, constraint.call@, self.array_map(), self.register_map()),
    {
        self.compile(SetKind::SetNe, &constraint.call)
    }

    /// Compiles a `set_ne_reif` constraint: `r <-> x != y`.
    ///
    /// `None` when the constraint cannot be compiled (see [`set_setup_ok`]).
    pub fn set_ne_reif(&self, constraint: &CallWithDefines) -> (r: Option<SetConstraint>)
        ensures
            r is Some <==> set_setup_ok(SetKind::SetNeReif, constraint.call@, self.array_map(), self.register_map()),
            r matches Some(p) ==> set_compiled(SetKind::SetNeReif, p, constraint.call@, self.array_map(), self.register_map()),
    {
        self.compile(SetKind::SetNeReif, &constraint.call)
    }

    /// Compiles a `set_subset` constraint: `x ⊆ y`; the violation is the number of elements of `x` missing from `y`.
    ///
    /// `None` when the constraint cannot be compiled (see [`set_setup_ok`]).
    pub fn set_subset(&self, constraint: &CallWithDefines) -> (r: Option<SetConstraint>)
        ensures
            r is Some <==> set_setup_ok(SetKind::SetSubset, constraint.call@, self.array_map(), self.register_map()),
            r matches Some(p) ==> set_compiled(SetKind::SetSubset, p, constraint.call@, self.array_map(), self.register_map()),
    {
        self.compile(SetKind::SetSubset, &constraint.call)
    }

    /// Compiles a `set_subset_reif` constraint: `r <-> x ⊆ y`.
    ///
    /// `None` when the constraint cannot be compiled (see [`set_setup_ok`]).
    pub fn set_subset_reif(&self, constraint: &CallWithDefines) -> (r: Option<SetConstraint>)
        ensures
            r is Some <==> set_setup_ok(SetKind::SetSubsetReif, constraint.call@, self.array_map(), self.register_map()),
            r matches Some(p) ==> set_compiled(SetKind::SetSubsetReif, p, constraint.call@, self.array_map(), self.register_map()),
    {
        self.compile(SetKind::SetSubsetReif, &constraint.call)
    }

    /// Compiles a `set_superset` constraint: `x ⊇ y`; the violation is the number of elements of `y` missing from `x`.
    ///
    /// `None` when the constraint cannot be compiled (see [`set_setup_ok`]).
    pub fn set_superset(&self, constraint: &CallWithDefines) -> (r: Option<SetConstraint>)
        ensures
            r is Some <==> set_setup_ok(SetKind::SetSuperset, constraint.call@, self.array_map(), self.register_map()),
            r matches Some(p) ==> set_compiled(SetKind::SetSuperset, p, constraint.call@, self.array_map(), self.register_map()),
    {
        self.compile(SetKind::SetSuperset, &constraint.call)
    }

    /// Compiles a `set_superset_reif` constraint: `r <-> x ⊇ y`.
    ///
    /// `None` when the constraint cannot be compiled (see [`set_setup_ok`]).
    pub fn set_superset_reif(&self, constraint: &CallWithDefines) -> (r: Option<SetConstraint>)
        ensures
            r is Some <==> set_setup_ok(SetKind::SetSupersetReif, constraint.call@, self.array_map(), self.register_map()),
            r matches Some(p) ==> set_compiled(SetKind::SetSupersetReif, p, constraint.call@, self.array_map(), self.register_map()),
    {
        self.compile(SetKind::SetSupersetReif, &constraint.call)
    }

    /// Compiles a `set_symdiff` constraint: `x △ y = z`; the violation is the size of the symmetric difference of `x △ y` and `z`.
    ///
    /// `None` when the constraint cannot be compiled (see [`set_setup_ok`]).
    pub fn set_symdiff(&self, constraint: &CallWithDefines) -> (r: Option<SetConstraint>)
        ensures
            r is Some <==> set_setup_ok(SetKind::SetSymdiff, constraint.call@, self.array_map(), self.register_map()),
            r matches Some(p) ==> set_compiled(SetKind::SetSymdiff, p, constraint.call@, self.array_map(), self.register_map()),
    {
        self.compile(SetKind::SetSymdiff, &constraint.call)
    }

    /// Compiles a `set_union` constraint: `x ∪ y = z`; the violation is the size of the symmetric difference of `x ∪ y` and `z`.
    ///
    /// `None` when the constraint cannot be compiled (see [`set_setup_ok`]).
    pub fn set_union(&self, constraint: &CallWithDefines) -> (r: Option<SetConstraint>)
        ensures
            r is Some <==> set_setup_ok(SetKind::SetUnion, constraint.call@, self.array_map(), self.register_map()),
            r matches Some(p) ==> set_compiled(SetKind::SetUnion, p, constraint.call@, self.array_map(), self.register_map()),
    {
        self.compile(SetKind::SetUnion, &constraint.call)
    }
}

/// What the compiled constraint states of a solution whose operands all read, in the
/// FlatZinc meaning of the constraint.
pub open spec fn set_holds(p: SetConstraint, sol: Seq<VariableValueV>) -> bool {
    match p {
        SetConstraint::ArrayElement { index, array, value } => {
            let pos = int_read(sol, index)->0 as usize;
            array@[pos as int]@ == set_read(sol, value)->0
        },
        SetConstraint::ArrayVarElement { index, array, value } => {
            let pos = int_read(sol, index)->0 as usize;
            set_read(sol, array@[pos as int])->0 == set_read(sol, value)->0
        },
        SetConstraint::Card { a, b } => set_term_value(a, sol)->0.len() == int_term_value(b, sol)->0,
        SetConstraint::Diff { x, y, z } => set_term_value(x, sol)->0.difference(set_term_value(y, sol)->0)
            == set_term_value(z, sol)->0,
        SetConstraint::Eq { x, y } => set_term_value(x, sol)->0 == set_term_value(y, sol)->0,
        SetConstraint::EqReif { x, y, r } => bool_term_value(r, sol)->0 == (set_term_value(x, sol)->0
            == set_term_value(y, sol)->0),
        SetConstraint::In { x, y } => set_term_value(y, sol)->0.contains(int_term_value(x, sol)->0),
        SetConstraint::InReif { x, y, r } => bool_term_value(r, sol)->0 == set_term_value(y, sol)->0.contains(
            int_term_value(x, sol)->0,
        ),
        SetConstraint::Intersect { x, y, z } => set_term_value(x, sol)->0.intersect(set_term_value(y, sol)->0)
            == set_term_value(z, sol)->0,
        SetConstraint::Le { x, y } => lex_le(
            sorted_elements(set_term_value(x, sol)->0),
            sorted_elements(set_term_value(y, sol)->0),
        ),
        SetConstraint::LeReif { x, y, r } => bool_term_value(r, sol)->0 == lex_le(
            sorted_elements(set_term_value(x, sol)->0),
            sorted_elements(set_term_value(y, sol)->0),
        ),
        SetConstraint::Lt { x, y } => lex_lt(
            sorted_elements(set_term_value(x, sol)->0),
            sorted_elements(set_term_value(y, sol)->0),
        ),
        SetConstraint::LtReif { x, y, r } => bool_term_value(r, sol)->0 == lex_lt(
            sorted_elements(set_term_value(x, sol)->0),
            sorted_elements(set_term_value(y, sol)->0),
        ),
        SetConstraint::Ne { x, y } => set_term_value(x, sol)->0 != set_term_value(y, sol)->0,
        SetConstraint::NeReif { x, y, r } => bool_term_value(r, sol)->0 == (set_term_value(x, sol)->0
            != set_term_value(y, sol)->0),
        SetConstraint::Subset { x, y } => set_term_value(x, sol)->0.subset_of(set_term_value(y, sol)->0),
        SetConstraint::SubsetReif { x, y, r } => bool_term_value(r, sol)->0 == set_term_value(
            x,
            sol,
        )->0.subset_of(set_term_value(y, sol)->0),
        SetConstraint::Superset { x, y } => set_term_value(y, sol)->0.subset_of(set_term_value(x, sol)->0),
        SetConstraint::SupersetReif { x, y, r } => bool_term_value(r, sol)->0 == set_term_value(
            y,
            sol,
        )->0.subset_of(set_term_value(x, sol)->0),
        SetConstraint::Symdiff { x, y, z } => sym_diff(set_term_value(x, sol)->0, set_term_value(y, sol)->0)
            == set_term_value(z, sol)->0,
        SetConstraint::Union { x, y, z } => set_term_value(x, sol)->0.union(set_term_value(y, sol)->0)
            == set_term_value(z, sol)->0,
    }
}

/// Every set that the solution holds is finite.
pub open spec fn solution_sets_finite(sol: Seq<VariableValueV>) -> bool {
    forall|i: int| 0 <= i < sol.len() && (#[trigger] sol[i]) is IntSet ==> sol[i]->IntSet_0.finite()
}

/// A constant operand holds a finite set.
pub open spec fn term_finite(t: SetTerm) -> bool {
    match t {
        SetTerm::Const(s) => s@.finite(),
        _ => true,
    }
}

/// The constant sets of a compiled constraint are finite.
pub open spec fn constants_finite(p: SetConstraint) -> bool {
    match p {
        SetConstraint::ArrayElement { array, .. } => forall|i: int|
            0 <= i < array@.len() ==> (#[trigger] array@[i])@.finite(),
        SetConstraint::ArrayVarElement { .. } => true,
        SetConstraint::Card { a, .. } => term_finite(a),
        SetConstraint::In { y, .. } | SetConstraint::InReif { y, .. } => term_finite(y),
        SetConstraint::Diff { x, y, z } | SetConstraint::Intersect { x, y, z } | SetConstraint::Symdiff {
            x,
            y,
            z,
        } | SetConstraint::Union { x, y, z } => term_finite(x) && term_finite(y) && term_finite(z),
        SetConstraint::Eq { x, y } | SetConstraint::Le { x, y } | SetConstraint::Lt { x, y }
        | SetConstraint::Ne { x, y } | SetConstraint::Subset { x, y } | SetConstraint::Superset { x, y } => {
            term_finite(x) && term_finite(y)
        },
        SetConstraint::EqReif { x, y, .. } | SetConstraint::LeReif { x, y, .. } | SetConstraint::LtReif {
            x,
            y,
            ..
        } | SetConstraint::NeReif { x, y, .. } | SetConstraint::SubsetReif { x, y, .. }
        | SetConstraint::SupersetReif { x, y, .. } => term_finite(x) && term_finite(y),
    }
}

/// Counts are never negative.
proof fn lemma_count_below_nonneg(y: Seq<i64>, x: Seq<i64>, n: nat, or_equal: bool)
    ensures
        count_below(y, x, n, or_equal) >= 0,
    decreases n,
{
    if n > 0 {
        lemma_count_below_nonneg(y, x, (n - 1) as nat, or_equal);
    }
}

/// A violation is never negative.
pub proof fn lemma_set_violation_nonneg(p: SetConstraint, sol: Seq<VariableValueV>)
    ensures
        set_violation(p, sol) matches Some(v) ==> v >= 0,
{
    match p {
        SetConstraint::Le { x, y } | SetConstraint::Lt { x, y } => {
            let (a, b) = (set_term_value(x, sol)->0, set_term_value(y, sol)->0);
            let (xs, ys) = (sorted_elements(a), sorted_elements(b));
            lemma_count_below_nonneg(ys, xs, min_len(ys.len(), xs.len()), true);
            lemma_count_below_nonneg(ys, xs, min_len(ys.len(), xs.len()), false);
        },
        _ => {},
    }
}

/// A finite set has no element outside another exactly when none of its elements is
/// missing from it.
proof fn lemma_empty_difference(a: Set<i64>, b: Set<i64>)
    requires
        a.finite(),
    ensures
        a.difference(b).len() == 0 <==> a.subset_of(b),
{
    let d = a.difference(b);
    vstd::set_lib::lemma_set_empty_equivalency_len(d);
    if d.len() == 0 {
        assert forall|x: i64| a.contains(x) implies b.contains(x) by {
            if !b.contains(x) {
                assert(d.contains(x));
            }
        }
    }
    if a.subset_of(b) {
        assert(d =~= Set::<i64>::empty());
    }
}

/// Two finite sets have an empty symmetric difference exactly when they are equal.
proof fn lemma_empty_sym_diff(a: Set<i64>, b: Set<i64>)
    requires
        a.finite(),
        b.finite(),
    ensures
        sym_diff(a, b).len() == 0 <==> a == b,
{
    lemma_empty_difference(a, b);
    lemma_empty_difference(b, a);
    let (d1, d2) = (a.difference(b), b.difference(a));
    assert(sym_diff(a, b) =~= d1.union(d2));
    vstd::set_lib::lemma_set_empty_equivalency_len(sym_diff(a, b));
    vstd::set_lib::lemma_set_empty_equivalency_len(d1);
    vstd::set_lib::lemma_set_empty_equivalency_len(d2);
    if sym_diff(a, b).len() == 0 {
        assert(d1 =~= Set::<i64>::empty());
        assert(d2 =~= Set::<i64>::empty());
        assert(a =~= b);
    }
    if a == b {
        assert(sym_diff(a, b) =~= Set::<i64>::empty());
    }
}

/// A compiled set constraint has violation zero exactly when the solution satisfies
/// it, wherever the evaluation succeeds.
pub proof fn lemma_set_violation_zero_iff_holds(p: SetConstraint, sol: Seq<VariableValueV>)
    requires
        set_violation(p, sol) is Some,
        solution_sets_finite(sol),
        constants_finite(p),
    ensures
        set_violation(p, sol) == Some(0int) <==> set_holds(p, sol),
{
    match p {
        SetConstraint::ArrayElement { index, array, value } => {
            let pos = int_read(sol, index)->0 as usize;
            let v = set_read(sol, value)->0;
            assert(v.finite()) by {
                assert(sol[value as int] matches VariableValueV::IntSet(_));
            }
            lemma_empty_sym_diff(array@[pos as int]@, v);
        },
        SetConstraint::ArrayVarElement { index, array, value } => {
            let pos = int_read(sol, index)->0 as usize;
            let a = set_read(sol, array@[pos as int])->0;
            let v = set_read(sol, value)->0;
            assert(set_read(sol, array@[pos as int]) is Some);
            assert(a.finite()) by {
                assert(sol[array@[pos as int] as int] matches VariableValueV::IntSet(_));
            }
            lemma_empty_sym_diff(a, v);
        },
        SetConstraint::Diff { x, y, z } => {
            let (a, b, c) = (set_term_value(x, sol)->0, set_term_value(y, sol)->0, set_term_value(z, sol)->0);
            lemma_term_finite(x, sol);
            lemma_term_finite(z, sol);
            lemma_empty_sym_diff(a.difference(b), c);
        },
        SetConstraint::Eq { x, y } => {
            lemma_term_finite(x, sol);
            lemma_term_finite(y, sol);
            lemma_empty_sym_diff(set_term_value(x, sol)->0, set_term_value(y, sol)->0);
        },
        SetConstraint::Intersect { x, y, z } => {
            let (a, b) = (set_term_value(x, sol)->0, set_term_value(y, sol)->0);
            lemma_term_finite(x, sol);
            lemma_term_finite(z, sol);
            lemma_empty_sym_diff(a.intersect(b), set_term_value(z, sol)->0);
        },
        SetConstraint::Symdiff { x, y, z } => {
            let (a, b) = (set_term_value(x, sol)->0, set_term_value(y, sol)->0);
            lemma_term_finite(x, sol);
            lemma_term_finite(y, sol);
            lemma_term_finite(z, sol);
            lemma_empty_sym_diff(sym_diff(a, b), set_term_value(z, sol)->0);
        },
        SetConstraint::Union { x, y, z } => {
            let (a, b) = (set_term_value(x, sol)->0, set_term_value(y, sol)->0);
            lemma_term_finite(x, sol);
            lemma_term_finite(y, sol);
            lemma_term_finite(z, sol);
            lemma_empty_sym_diff(a.union(b), set_term_value(z, sol)->0);
        },
        SetConstraint::Subset { x, y } => {
            lemma_term_finite(x, sol);
            lemma_empty_difference(set_term_value(x, sol)->0, set_term_value(y, sol)->0);
        },
        SetConstraint::Superset { x, y } => {
            lemma_term_finite(y, sol);
            lemma_empty_difference(set_term_value(y, sol)->0, set_term_value(x, sol)->0);
        },
        _ => {},
    }
}

/// The set an operand reads is finite, when the solution's sets and the operand's
/// constant are.
proof fn lemma_term_finite(t: SetTerm, sol: Seq<VariableValueV>)
    requires
        solution_sets_finite(sol),
        term_finite(t),
        set_term_value(t, sol) is Some,
    ensures
        set_term_value(t, sol)->0.finite(),
{
    match t {
        SetTerm::Register(r) => {
            assert(sol[r as int] matches VariableValueV::IntSet(_));
        },
        _ => {},
    }
}

} // verus!
