//! Boolean constraints evaluated against solutions keyed by variable name.
use crate::args_extractor::args_extractor::{
    bool_array_ok, collect, lin_int_coefficients, lin_var_names, strings_view, term_at,
};
use crate::args_extractor::sub_types::bool_args_extractor::BoolArgsExtractor;
use crate::data_utility::lin_expression::{dot, dot_fits, fits_i64, lemma_dot_fits_prefix};
use crate::data_utility::model::{ModelArgument, ModelArray, CallWithDefines, ModelConstraint, ModelConstraintV, ModelLiteral, ModelLiteralV};
use crate::data_utility::types::VariableValue;
use crate::evaluator::sub_types::bool_evaluator::{
    all_bool_literals, all_true, bool_of, xor_all, BoolKind,
};
use crate::evaluator::terms::{check_positions, flag, is_name_map, named_at, positions_fit, same_outcome};
use std::collections::HashMap;
use vstd::hash_map::StringHashMap;
use vstd::prelude::*;

verus! {

broadcast use vstd::std_specs::hash::group_hash_axioms;

pub const A_TERM_INDEX: usize = 0;
pub const B_TERM_INDEX: usize = 1;
pub const C_TERM_INDEX: usize = 2;
pub const AS_ARRAY_INDEX: usize = 0;
pub const BS_ARRAY_INDEX: usize = 1;
pub const R_TERM_INDEX: usize = 1;
pub const COEFF_LIN_CONSTR_INDEX: usize = 0;

/// A boolean operand: a variable name or a constant.
#[derive(Debug)]
pub enum NamedBool {
    Name(String),
    Const(bool),
}

/// An integer operand: a variable name or a constant.
#[derive(Debug)]
pub enum NamedInt {
    Name(String),
    Const(i64),
}

/// The boolean value of variable `n` in the solution, if it has one.
pub open spec fn bool_named(n: Seq<char>, sol: Map<Seq<char>, VariableValue>) -> Option<bool> {
    if sol.contains_key(n) && sol[n] is Bool {
        Some(sol[n]->Bool_0)
    } else {
        None
    }
}

/// The integer value of variable `n` in the solution, if it has one.
pub open spec fn int_named(n: Seq<char>, sol: Map<Seq<char>, VariableValue>) -> Option<i64> {
    if sol.contains_key(n) && sol[n] is Int {
        Some(sol[n]->Int_0)
    } else {
        None
    }
}

/// The value of a boolean operand in the solution.
pub open spec fn named_bool_value(t: NamedBool, sol: Map<Seq<char>, VariableValue>) -> Option<bool> {
    match t {
        NamedBool::Name(n) => bool_named(n@, sol),
        NamedBool::Const(b) => Some(b),
    }
}

/// The value of an integer operand in the solution.
pub open spec fn named_int_value(t: NamedInt, sol: Map<Seq<char>, VariableValue>) -> Option<i64> {
    match t {
        NamedInt::Name(n) => int_named(n@, sol),
        NamedInt::Const(v) => Some(v),
    }
}

/// Every variable of the list has a boolean value in the solution.
pub open spec fn all_named_bools(names: Seq<Seq<char>>, sol: Map<Seq<char>, VariableValue>) -> bool {
    forall|i: int| 0 <= i < names.len() ==> #[trigger] bool_named(names[i], sol) is Some
}

/// The boolean values of the variables of the list.
pub open spec fn named_bools(names: Seq<Seq<char>>, sol: Map<Seq<char>, VariableValue>) -> Seq<bool> {
    Seq::new(names.len(), |i: int| bool_named(names[i], sol)->0)
}

/// `1` for each true boolean of the list, `0` for each false one.
pub open spec fn as_ints(bs: Seq<bool>) -> Seq<i64> {
    Seq::new(bs.len(), |i: int| if bs[i] { 1i64 } else { 0i64 })
}

/// A boolean constraint over named variables, its operands resolved.
#[derive(Debug)]
pub enum NamedBoolConstraint {
    /// `r <-> (as[0] /\ as[1] /\ ...)`.
    ArrayAnd { vars: Vec<String>, r: NamedBool },
    /// `array[index] = value` over a constant array of booleans.
    ArrayElement { index: NamedInt, array: Vec<bool>, value: NamedBool },
    /// An odd number of `as` hold.
    ArrayXor { vars: Vec<String> },
    /// `c <-> a /\ b`.
    And { a: NamedBool, b: NamedBool, c: NamedBool },
    /// Some value of `as` (`pos`) is true or some value of `bs` (`neg`) is false.
    Clause { pos: Vec<String>, neg: Vec<String> },
    /// `a = b`.
    Eq { a: NamedBool, b: NamedBool },
    /// `c <-> a = b`.
    EqReif { a: NamedBool, b: NamedBool, c: NamedBool },
    /// `a <= b`.
    Le { a: NamedBool, b: NamedBool },
    /// `c <-> a <= b`.
    LeReif { a: NamedBool, b: NamedBool, c: NamedBool },
    /// `sum(coeff[i] * bs[i]) = term`.
    LinEq { coeff: Vec<i64>, vars: Vec<String>, term: NamedInt },
    /// `sum(coeff[i] * bs[i]) <= term`.
    LinLe { coeff: Vec<i64>, vars: Vec<String>, term: NamedInt },
    /// `a < b`.
    Lt { a: NamedBool, b: NamedBool },
    /// `c <-> a < b`.
    LtReif { a: NamedBool, b: NamedBool, c: NamedBool },
    /// `a != b`.
    Not { a: NamedBool, b: NamedBool },
    /// `c <-> a \/ b`.
    Or { a: NamedBool, b: NamedBool, c: NamedBool },
    /// `c <-> a xor b`.
    Xor { a: NamedBool, b: NamedBool, c: NamedBool },
    /// `b = (1 if a else 0)`.
    ToInt { a: NamedBool, b: NamedInt },
}

/// The value of `sum(coeff[i] * bs[i])` over the variables, pairing coefficients
/// and variables up to the shorter list; `None` where a variable has no boolean
/// value or the `i64` arithmetic overflows.
pub open spec fn named_lin_value(coeff: Seq<i64>, vars: Seq<Seq<char>>, sol: Map<Seq<char>, VariableValue>) -> Option<int> {
    let n: nat = if coeff.len() <= vars.len() { coeff.len() } else { vars.len() };
    if all_named_bools(vars, sol) && dot_fits(coeff, as_ints(named_bools(vars, sol)), n) {
        Some(dot(coeff, as_ints(named_bools(vars, sol)), n))
    } else {
        None
    }
}

/// The violation of a named boolean constraint in a solution (`0` or `1`); `None`
/// where the evaluation fails.
pub open spec fn named_bool_violation(p: NamedBoolConstraint, sol: Map<Seq<char>, VariableValue>) -> Option<int> {
    let b3 = |a: NamedBool, b: NamedBool, c: NamedBool, f: spec_fn(bool, bool, bool) -> bool| match (
        named_bool_value(a, sol),
        named_bool_value(b, sol),
        named_bool_value(c, sol),
    ) {
        (Some(x), Some(y), Some(z)) => Some(flag(f(x, y, z))),
        _ => None,
    };
    let b2 = |a: NamedBool, b: NamedBool, f: spec_fn(bool, bool) -> bool| match (
        named_bool_value(a, sol),
        named_bool_value(b, sol),
    ) {
        (Some(x), Some(y)) => Some(flag(f(x, y))),
        _ => None,
    };
    match p {
        NamedBoolConstraint::ArrayAnd { vars, r } => {
            let ns = strings_view(vars@);
            if all_named_bools(ns, sol) {
                match named_bool_value(r, sol) {
                    Some(z) => Some(flag(all_true(named_bools(ns, sol)) != z)),
                    None => None,
                }
            } else {
                None
            }
        },
        NamedBoolConstraint::ArrayElement { index, array, value } => {
            match (named_int_value(index, sol), named_bool_value(value, sol)) {
                (Some(i), Some(v)) => {
                    let pos = i as usize;
                    if pos < array@.len() {
                        Some(flag(array@[pos as int] != v))
                    } else {
                        None
                    }
                },
                _ => None,
            }
        },
        NamedBoolConstraint::ArrayXor { vars } => {
            let ns = strings_view(vars@);
            if all_named_bools(ns, sol) {
                Some(flag(!xor_all(named_bools(ns, sol))))
            } else {
                None
            }
        },
        NamedBoolConstraint::And { a, b, c } => b3(a, b, c, |x: bool, y: bool, z: bool| z != (x && y)),
        NamedBoolConstraint::Clause { pos, neg } => {
            let ps = strings_view(pos@);
            let qs = strings_view(neg@);
            if all_named_bools(ps, sol) && all_named_bools(qs, sol) {
                Some(
                    flag(
                        !crate::evaluator::sub_types::bool_evaluator::some_true(named_bools(ps, sol))
                            && all_true(named_bools(qs, sol)),
                    ),
                )
            } else {
                None
            }
        },
        NamedBoolConstraint::Eq { a, b } => b2(a, b, |x: bool, y: bool| x != y),
        NamedBoolConstraint::EqReif { a, b, c } => b3(a, b, c, |x: bool, y: bool, z: bool| z != (x == y)),
        NamedBoolConstraint::Le { a, b } => b2(a, b, |x: bool, y: bool| x && !y),
        NamedBoolConstraint::LeReif { a, b, c } => b3(a, b, c, |x: bool, y: bool, z: bool| z != (!x || y)),
        NamedBoolConstraint::LinEq { coeff, vars, term } => match (
            named_lin_value(coeff@, strings_view(vars@), sol),
            named_int_value(term, sol),
        ) {
            (Some(lhs), Some(t)) => Some(flag(lhs != t)),
            _ => None,
        },
        NamedBoolConstraint::LinLe { coeff, vars, term } => match (
            named_lin_value(coeff@, strings_view(vars@), sol),
            named_int_value(term, sol),
        ) {
            (Some(lhs), Some(t)) => Some(flag(lhs > t)),
            _ => None,
        },
        NamedBoolConstraint::Lt { a, b } => b2(a, b, |x: bool, y: bool| x || !y),
        NamedBoolConstraint::LtReif { a, b, c } => b3(a, b, c, |x: bool, y: bool, z: bool| z != (!x && y)),
        NamedBoolConstraint::Not { a, b } => b2(a, b, |x: bool, y: bool| x == y),
        NamedBoolConstraint::Or { a, b, c } => b3(a, b, c, |x: bool, y: bool, z: bool| z != (x || y)),
        NamedBoolConstraint::Xor { a, b, c } => b3(a, b, c, |x: bool, y: bool, z: bool| z != (x != y)),
        NamedBoolConstraint::ToInt { a, b } => match (named_bool_value(a, sol), named_int_value(b, sol)) {
            (Some(x), Some(y)) => Some(flag(flag(x) != y)),
            _ => None,
        },
    }
}

/// The boolean value of variable `name`.
fn read_named_bool(solution: &StringHashMap<VariableValue>, name: &String) -> (r: Option<bool>)
    ensures
        r == bool_named(name@, solution@),
{
    match solution.get(name.as_str()) {
        Some(VariableValue::Bool(b)) => Some(*b),
        _ => None,
    }
}

/// The integer value of variable `name`.
fn read_named_int(solution: &StringHashMap<VariableValue>, name: &String) -> (r: Option<i64>)
    ensures
        r == int_named(name@, solution@),
{
    match solution.get(name.as_str()) {
        Some(VariableValue::Int(v)) => Some(*v),
        _ => None,
    }
}

/// The value of a boolean operand.
pub fn named_bool(t: &NamedBool, solution: &StringHashMap<VariableValue>) -> (r: Option<bool>)
    ensures
        r == named_bool_value(*t, solution@),
{
    match t {
        NamedBool::Name(n) => read_named_bool(solution, n),
        NamedBool::Const(b) => Some(*b),
    }
}

/// The value of an integer operand.
pub fn named_int(t: &NamedInt, solution: &StringHashMap<VariableValue>) -> (r: Option<i64>)
    ensures
        r == named_int_value(*t, solution@),
{
    match t {
        NamedInt::Name(n) => read_named_int(solution, n),
        NamedInt::Const(v) => Some(*v),
    }
}

/// The boolean values of a list of variables.
fn read_named_bools(names: &Vec<String>, solution: &StringHashMap<VariableValue>) -> (r: Option<Vec<bool>>)
    ensures
        match r {
            Some(v) => all_named_bools(strings_view(names@), solution@) && v@ == named_bools(
                strings_view(names@),
                solution@,
            ),
            None => !all_named_bools(strings_view(names@), solution@),
        },
{
    let ghost ns = strings_view(names@);
    let mut out: Vec<bool> = Vec::with_capacity(names.len());
    for i in 0..names.len()
        invariant
            ns == strings_view(names@),
            all_named_bools(ns.take(i as int), solution@),
            out@ == named_bools(ns.take(i as int), solution@),
    {
        proof {
            assert(ns[i as int] == names@[i as int]@);
        }
        match read_named_bool(solution, &names[i]) {
            Some(b) => {
                out.push(b);
                proof {
                    let t = ns.take(i + 1);
                    assert forall|j: int| 0 <= j < t.len() implies #[trigger] bool_named(t[j], solution@) is Some by {
                        if j < i {
                            assert(t[j] == ns.take(i as int)[j]);
                        }
                    }
                    assert(out@ =~= named_bools(t, solution@));
                }
            },
            None => {
                return None;
            },
        }
    }
    proof {
        assert(ns.take(names.len() as int) =~= ns);
    }
    Some(out)
}

/// Whether every boolean of the list is true.
fn all_true_of(v: &Vec<bool>) -> (r: bool)
    ensures
        r == all_true(v@),
{
    for i in 0..v.len()
        invariant
            forall|j: int| 0 <= j < i ==> #[trigger] v@[j],
    {
        if !v[i] {
            return false;
        }
    }
    true
}

/// Whether some boolean of the list is true.
fn some_true_of(v: &Vec<bool>) -> (r: bool)
    ensures
        r == crate::evaluator::sub_types::bool_evaluator::some_true(v@),
{
    for i in 0..v.len()
        invariant
            forall|j: int| 0 <= j < i ==> !(#[trigger] v@[j]),
    {
        if v[i] {
            return true;
        }
    }
    false
}

/// The exclusive or of a list of booleans.
fn xor_of(v: &Vec<bool>) -> (r: bool)
    ensures
        r == xor_all(v@),
{
    let mut acc = false;
    for i in 0..v.len()
        invariant
            acc == xor_all(v@.take(i as int)),
    {
        proof {
            assert(v@.take(i + 1).drop_last() =~= v@.take(i as int));
        }
        acc = acc ^ v[i];
    }
    proof {
        assert(v@.take(v.len() as int) =~= v@);
    }
    acc
}

/// `sum(coeff[i] * bs[i])` over the variables (see [`named_lin_value`]).
fn named_lin(coeff: &Vec<i64>, vars: &Vec<String>, solution: &StringHashMap<VariableValue>) -> (r: Option<i64>)
    ensures
        same_lin(r, named_lin_value(coeff@, strings_view(vars@), solution@)),
{
    let bs = read_named_bools(vars, solution)?;
    let ghost vals = as_ints(bs@);
    let n = if coeff.len() <= vars.len() { coeff.len() } else { vars.len() };
    let mut sum: i64 = 0;
    let mut i: usize = 0;
    while i < n
        invariant
            n <= coeff@.len(),
            n <= bs@.len(),
            n == (if coeff@.len() <= vars@.len() { coeff@.len() } else { vars@.len() }),
            bs@.len() == vars@.len(),
            bs@ == named_bools(strings_view(vars@), solution@),
            all_named_bools(strings_view(vars@), solution@),
            vals == as_ints(bs@),
            i <= n,
            dot_fits(coeff@, vals, i as nat),
            sum == dot(coeff@, vals, i as nat),
        decreases n - i,
    {
        let v: i64 = if bs[i] { 1 } else { 0 };
        proof {
            assert(vals[i as int] == v);
            assert(dot(coeff@, vals, (i + 1) as nat) == dot(coeff@, vals, i as nat) + coeff@[i as int] * vals[i as int]);
        }
        let product = match coeff[i].checked_mul(v) {
            Some(x) => x,
            None => {
                proof {
                    lemma_dot_fits_stops(coeff@, vals, i as nat, n as nat);
                }
                return None;
            },
        };
        match sum.checked_add(product) {
            Some(t) => {
                sum = t;
            },
            None => {
                proof {
                    lemma_dot_fits_stops(coeff@, vals, i as nat, n as nat);
                }
                return None;
            },
        }
        i = i + 1;
    }
    Some(sum)
}

/// `r` is the value of `s`, where `None` stands for a failed computation.
pub open spec fn same_lin(r: Option<i64>, s: Option<int>) -> bool {
    match r {
        Some(v) => s == Some(v as int),
        None => s is None,
    }
}

/// Once the next product or partial sum overflows, the whole sum does not fit.
proof fn lemma_dot_fits_stops(coeff: Seq<i64>, vals: Seq<i64>, i: nat, n: nat)
    requires
        i < n,
        dot_fits(coeff, vals, i),
        !(fits_i64(coeff[i as int] * vals[i as int]) && fits_i64(dot(coeff, vals, i + 1))),
    ensures
        !dot_fits(coeff, vals, n),
{
    if dot_fits(coeff, vals, n) {
        lemma_dot_fits_prefix(coeff, vals, n, i + 1);
    }
}

/// `1` when `b` holds, `0` otherwise, as a violation.
fn flag_amount(b: bool) -> (r: u64)
    ensures
        r == flag(b),
{
    if b { 1 } else { 0 }
}

impl NamedBoolConstraint {
    /// The violation of the constraint in `solution` (see [`named_bool_violation`]):
    /// `0` when the constraint holds, `1` otherwise; `None` where the evaluation fails.
    pub fn violation(&self, solution: &StringHashMap<VariableValue>) -> (r: Option<u64>)
        ensures
            same_outcome(r, named_bool_violation(*self, solution@)),
    {
        match self {
            NamedBoolConstraint::ArrayAnd { vars, r } => {
                let values = read_named_bools(vars, solution)?;
                let z = named_bool(r, solution)?;
                Some(flag_amount(all_true_of(&values) != z))
            },
            NamedBoolConstraint::ArrayElement { index, array, value } => {
                let i = named_int(index, solution)?;
                let v = named_bool(value, solution)?;
                let pos = i as usize;
                if pos < array.len() {
                    Some(flag_amount(array[pos] != v))
                } else {
                    None
                }
            },
            NamedBoolConstraint::ArrayXor { vars } => {
                let values = read_named_bools(vars, solution)?;
                Some(flag_amount(!xor_of(&values)))
            },
            NamedBoolConstraint::And { a, b, c } => {
                let x = named_bool(a, solution)?;
                let y = named_bool(b, solution)?;
                let z = named_bool(c, solution)?;
                Some(flag_amount(z != (x && y)))
            },
            NamedBoolConstraint::Clause { pos, neg } => {
                let ps = read_named_bools(pos, solution)?;
                let ns = read_named_bools(neg, solution)?;
                Some(flag_amount(!some_true_of(&ps) && all_true_of(&ns)))
            },
            NamedBoolConstraint::Eq { a, b } => {
                let x = named_bool(a, solution)?;
                let y = named_bool(b, solution)?;
                Some(flag_amount(x != y))
            },
            NamedBoolConstraint::EqReif { a, b, c } => {
                let x = named_bool(a, solution)?;
                let y = named_bool(b, solution)?;
                let z = named_bool(c, solution)?;
                Some(flag_amount(z != (x == y)))
            },
            NamedBoolConstraint::Le { a, b } => {
                let x = named_bool(a, solution)?;
                let y = named_bool(b, solution)?;
                Some(flag_amount(x && !y))
            },
            NamedBoolConstraint::LeReif { a, b, c } => {
                let x = named_bool(a, solution)?;
                let y = named_bool(b, solution)?;
                let z = named_bool(c, solution)?;
                Some(flag_amount(z != (!x || y)))
            },
            NamedBoolConstraint::LinEq { coeff, vars, term } => {
                let lhs = named_lin(coeff, vars, solution)?;
                let t = named_int(term, solution)?;
                Some(flag_amount(lhs != t))
            },
            NamedBoolConstraint::LinLe { coeff, vars, term } => {
                let lhs = named_lin(coeff, vars, solution)?;
                let t = named_int(term, solution)?;
                Some(flag_amount(lhs > t))
            },
            NamedBoolConstraint::Lt { a, b } => {
                let x = named_bool(a, solution)?;
                let y = named_bool(b, solution)?;
                Some(flag_amount(x || !y))
            },
            NamedBoolConstraint::LtReif { a, b, c } => {
                let x = named_bool(a, solution)?;
                let y = named_bool(b, solution)?;
                let z = named_bool(c, solution)?;
                Some(flag_amount(z != (!x && y)))
            },
            NamedBoolConstraint::Not { a, b } => {
                let x = named_bool(a, solution)?;
                let y = named_bool(b, solution)?;
                Some(flag_amount(x == y))
            },
            NamedBoolConstraint::Or { a, b, c } => {
                let x = named_bool(a, solution)?;
                let y = named_bool(b, solution)?;
                let z = named_bool(c, solution)?;
                Some(flag_amount(z != (x || y)))
            },
            NamedBoolConstraint::Xor { a, b, c } => {
                let x = named_bool(a, solution)?;
                let y = named_bool(b, solution)?;
                let z = named_bool(c, solution)?;
                Some(flag_amount(z != (x != y)))
            },
            NamedBoolConstraint::ToInt { a, b } => {
                let x = named_bool(a, solution)?;
                let y = named_int(b, solution)?;
                let xi: i64 = if x { 1 } else { 0 };
                Some(flag_amount(xi != y))
            },
        }
    }
}

/// ModelArgument `idx` can become a boolean operand: it names a variable, or it is a
/// boolean literal.
pub open spec fn bool_operand_ok(c: ModelConstraintV, idx: int) -> bool {
    named_at(c, idx) is Some || term_at(c, idx) matches Some(ModelLiteralV::Bool(_))
}

/// ModelArgument `idx` can become an integer operand: it names a variable, or it is an
/// integer literal.
pub open spec fn int_operand_ok(c: ModelConstraintV, idx: int) -> bool {
    named_at(c, idx) is Some || term_at(c, idx) matches Some(ModelLiteralV::Int(_))
}

/// `t` is the boolean operand that argument `idx` becomes.
pub open spec fn bool_operand_fits(t: NamedBool, c: ModelConstraintV, idx: int) -> bool {
    match named_at(c, idx) {
        Some(n) => t matches NamedBool::Name(m) && m@ == n,
        None => term_at(c, idx) matches Some(ModelLiteralV::Bool(v)) && t == NamedBool::Const(v),
    }
}

/// `t` is the integer operand that argument `idx` becomes.
pub open spec fn int_operand_fits(t: NamedInt, c: ModelConstraintV, idx: int) -> bool {
    match named_at(c, idx) {
        Some(n) => t matches NamedInt::Name(m) && m@ == n,
        None => term_at(c, idx) matches Some(ModelLiteralV::Int(v)) && t == NamedInt::Const(v),
    }
}

/// `vars` are the variables of the boolean array at argument `idx`.
pub open spec fn vars_fit(vars: Seq<String>, c: ModelConstraintV, idx: int, arrays: Map<Seq<char>, ModelArray>) -> bool {
    strings_view(vars) == lin_var_names(c.args, idx, arrays)
}

/// The constraint can be compiled as `kind` over named variables: every operand
/// resolves, the arrays hold the right literals.
pub open spec fn named_setup_ok(kind: BoolKind, c: ModelConstraintV, arrays: Map<Seq<char>, ModelArray>) -> bool {
    &&& positions_fit(c)
    &&& match kind {
        BoolKind::ArrayBoolAnd => bool_array_ok(c.args, 0, arrays) && bool_operand_ok(c, 1),
        BoolKind::ArrayBoolElement => {
            &&& int_operand_ok(c, 0)
            &&& named_at(c, 1) is Some
            &&& arrays.contains_key(named_at(c, 1)->0)
            &&& all_bool_literals(arrays[named_at(c, 1)->0]@)
            &&& bool_operand_ok(c, 2)
        },
        BoolKind::ArrayVarBoolElement => false,
        BoolKind::ArrayBoolXor => bool_array_ok(c.args, 0, arrays),
        BoolKind::BoolClause => bool_array_ok(c.args, 0, arrays) && bool_array_ok(c.args, 1, arrays),
        BoolKind::BoolLinEq | BoolKind::BoolLinLe => bool_array_ok(c.args, 1, arrays) && int_operand_ok(c, 2),
        BoolKind::BoolEq | BoolKind::BoolLe | BoolKind::BoolLt | BoolKind::BoolNot => {
            bool_operand_ok(c, 0) && bool_operand_ok(c, 1)
        },
        BoolKind::Bool2Int => bool_operand_ok(c, 0) && int_operand_ok(c, 1),
        _ => bool_operand_ok(c, 0) && bool_operand_ok(c, 1) && bool_operand_ok(c, 2),
    }
}

/// `p` is the compilation of `c` as `kind` over named variables.
pub open spec fn named_compiled(
    kind: BoolKind,
    p: NamedBoolConstraint,
    c: ModelConstraintV,
    arrays: Map<Seq<char>, ModelArray>,
) -> bool {
    match kind {
        BoolKind::ArrayBoolAnd => p matches NamedBoolConstraint::ArrayAnd { vars, r } && vars_fit(vars@, c, 0, arrays)
            && bool_operand_fits(r, c, 1),
        BoolKind::ArrayBoolElement => p matches NamedBoolConstraint::ArrayElement { index, array, value }
            && int_operand_fits(index, c, 0) && array@ == collect(
            arrays[named_at(c, 1)->0]@,
            |x: ModelLiteralV| bool_of(x),
        ) && bool_operand_fits(value, c, 2),
        BoolKind::ArrayVarBoolElement => false,
        BoolKind::ArrayBoolXor => p matches NamedBoolConstraint::ArrayXor { vars } && vars_fit(vars@, c, 0, arrays),
        BoolKind::BoolClause => p matches NamedBoolConstraint::Clause { pos, neg } && vars_fit(pos@, c, 0, arrays)
            && vars_fit(neg@, c, 1, arrays),
        BoolKind::BoolLinEq => p matches NamedBoolConstraint::LinEq { coeff, vars, term } && coeff@
            == lin_int_coefficients(c.args, 0, arrays) && vars_fit(vars@, c, 1, arrays) && int_operand_fits(
            term,
            c,
            2,
        ),
        BoolKind::BoolLinLe => p matches NamedBoolConstraint::LinLe { coeff, vars, term } && coeff@
            == lin_int_coefficients(c.args, 0, arrays) && vars_fit(vars@, c, 1, arrays) && int_operand_fits(
            term,
            c,
            2,
        ),
        BoolKind::BoolEq => p matches NamedBoolConstraint::Eq { a, b } && bool_operand_fits(a, c, 0)
            && bool_operand_fits(b, c, 1),
        BoolKind::BoolLe => p matches NamedBoolConstraint::Le { a, b } && bool_operand_fits(a, c, 0)
            && bool_operand_fits(b, c, 1),
        BoolKind::BoolLt => p matches NamedBoolConstraint::Lt { a, b } && bool_operand_fits(a, c, 0)
            && bool_operand_fits(b, c, 1),
        BoolKind::BoolNot => p matches NamedBoolConstraint::Not { a, b } && bool_operand_fits(a, c, 0)
            && bool_operand_fits(b, c, 1),
        BoolKind::Bool2Int => p matches NamedBoolConstraint::ToInt { a, b } && bool_operand_fits(a, c, 0)
            && int_operand_fits(b, c, 1),
        BoolKind::BoolAnd => p matches NamedBoolConstraint::And { a, b, c: r } && bool_operand_fits(a, c, 0)
            && bool_operand_fits(b, c, 1) && bool_operand_fits(r, c, 2),
        BoolKind::BoolEqReif => p matches NamedBoolConstraint::EqReif { a, b, c: r } && bool_operand_fits(
            a,
            c,
            0,
        ) && bool_operand_fits(b, c, 1) && bool_operand_fits(r, c, 2),
        BoolKind::BoolLeReif => p matches NamedBoolConstraint::LeReif { a, b, c: r } && bool_operand_fits(
            a,
            c,
            0,
        ) && bool_operand_fits(b, c, 1) && bool_operand_fits(r, c, 2),
        BoolKind::BoolLtReif => p matches NamedBoolConstraint::LtReif { a, b, c: r } && bool_operand_fits(
            a,
            c,
            0,
        ) && bool_operand_fits(b, c, 1) && bool_operand_fits(r, c, 2),
        BoolKind::BoolOr => p matches NamedBoolConstraint::Or { a, b, c: r } && bool_operand_fits(a, c, 0)
            && bool_operand_fits(b, c, 1) && bool_operand_fits(r, c, 2),
        BoolKind::BoolXor => p matches NamedBoolConstraint::Xor { a, b, c: r } && bool_operand_fits(a, c, 0)
            && bool_operand_fits(b, c, 1) && bool_operand_fits(r, c, 2),
    }
}

/// Resolves argument `idx` to a boolean operand (see [`bool_operand_fits`]).
fn resolve_named_bool(names: &HashMap<i64, String>, idx: i64, constraint: &ModelConstraint) -> (r: Option<NamedBool>)
    requires
        is_name_map(names@, constraint@),
    ensures
        r is Some <==> bool_operand_ok(constraint@, idx as int),
        r matches Some(t) ==> bool_operand_fits(t, constraint@, idx as int),
{
    match names.get(&idx) {
        Some(name) => Some(NamedBool::Name(name.clone())),
        None => {
            if 0 <= idx && (idx as u64) < (constraint.args.len() as u64) {
                match &constraint.args[idx as usize] {
                    ModelArgument::Literal(ModelLiteral::Bool(v)) => Some(NamedBool::Const(*v)),
                    _ => None,
                }
            } else {
                None
            }
        },
    }
}

/// Resolves argument `idx` to an integer operand (see [`int_operand_fits`]).
fn resolve_named_int(names: &HashMap<i64, String>, idx: i64, constraint: &ModelConstraint) -> (r: Option<NamedInt>)
    requires
        is_name_map(names@, constraint@),
    ensures
        r is Some <==> int_operand_ok(constraint@, idx as int),
        r matches Some(t) ==> int_operand_fits(t, constraint@, idx as int),
{
    match names.get(&idx) {
        Some(name) => Some(NamedInt::Name(name.clone())),
        None => {
            if 0 <= idx && (idx as u64) < (constraint.args.len() as u64) {
                match &constraint.args[idx as usize] {
                    ModelArgument::Literal(ModelLiteral::Int(v)) => Some(NamedInt::Const(*v)),
                    _ => None,
                }
            } else {
                None
            }
        },
    }
}

/// Whether the array at argument `index` can be read (see `bool_array_ok`).
fn check_bool_array(index: usize, constraint: &ModelConstraint, arrays: &StringHashMap<ModelArray>) -> (r: bool)
    ensures
        r == bool_array_ok(constraint@.args, index as int, arrays@),
{
    if index < constraint.args.len() {
        match &constraint.args[index] {
            ModelArgument::Literal(ModelLiteral::Identifier(key)) => match arrays.get(key.as_str()) {
                Some(arr) => crate::evaluator::terms::identifier_literals(&arr.contents),
                None => true,
            },
            ModelArgument::Array(ls) => crate::evaluator::terms::identifier_literals(ls),
            _ => true,
        }
    } else {
        true
    }
}

/// The variables of the boolean array at argument `index`, when it can be read.
fn named_array(
    extractor: &BoolArgsExtractor,
    index: usize,
    constraint: &ModelConstraint,
    arrays: &StringHashMap<ModelArray>,
) -> (r: Option<Vec<String>>)
    ensures
        r is Some <==> bool_array_ok(constraint@.args, index as int, arrays@),
        r matches Some(v) ==> vars_fit(v@, constraint@, index as int, arrays@),
{
    if !check_bool_array(index, constraint, arrays) {
        return None;
    }
    Some(extractor.extract_bool_array(index, &constraint.args, arrays))
}

/// Whether every literal of the list is a boolean, and their values.
fn bool_literal_values(lits: &Vec<ModelLiteral>) -> (r: Option<Vec<bool>>)
    ensures
        match r {
            Some(v) => all_bool_literals(crate::data_utility::model::literals_view(lits@)) && v@ == collect(
                crate::data_utility::model::literals_view(lits@),
                |x: ModelLiteralV| bool_of(x),
            ),
            None => !all_bool_literals(crate::data_utility::model::literals_view(lits@)),
        },
{
    let ghost ls = crate::data_utility::model::literals_view(lits@);
    let ghost f = |x: ModelLiteralV| bool_of(x);
    let mut out: Vec<bool> = Vec::new();
    for j in 0..lits.len()
        invariant
            ls == crate::data_utility::model::literals_view(lits@),
            f == (|x: ModelLiteralV| bool_of(x)),
            all_bool_literals(ls.take(j as int)),
            out@ == collect(ls.take(j as int), f),
    {
        proof {
            crate::args_extractor::args_extractor::lemma_collect_step(ls, j as int, f);
        }
        match &lits[j] {
            ModelLiteral::Bool(b) => {
                out.push(*b);
            },
            _ => {
                proof {
                    assert(!(ls[j as int] is Bool));
                }
                return None;
            },
        }
        proof {
            assert forall|k: int| 0 <= k < j + 1 implies #[trigger] ls.take(j + 1)[k] is Bool by {
                if k < j {
                    assert(ls.take(j + 1)[k] == ls.take(j as int)[k]);
                }
            }
        }
    }
    proof {
        assert(ls.take(lits.len() as int) =~= ls);
    }
    Some(out)
}

/// Compiles `constraint` as a boolean constraint of the given kind over named
/// variables.
pub fn compile_named_bool(
    extractor: &BoolArgsExtractor,
    arrays: &StringHashMap<ModelArray>,
    kind: BoolKind,
    constraint: &ModelConstraint,
) -> (r: Option<NamedBoolConstraint>)
    ensures
        r is Some <==> named_setup_ok(kind, constraint@, arrays@),
        r matches Some(p) ==> named_compiled(kind, p, constraint@, arrays@),
{
    if !check_positions(constraint) {
        return None;
    }
    let names = extractor.extract_literal_identifiers_with_index(&constraint.args);
    match kind {
        BoolKind::ArrayBoolAnd => {
            let vars = named_array(extractor, 0, constraint, arrays)?;
            let r = resolve_named_bool(&names, 1, constraint)?;
            Some(NamedBoolConstraint::ArrayAnd { vars, r })
        },
        BoolKind::ArrayBoolElement => {
            let index = resolve_named_int(&names, 0, constraint)?;
            let array_name = match names.get(&1) {
                Some(n) => n,
                None => {
                    return None;
                },
            };
            let arr = match arrays.get(array_name.as_str()) {
                Some(a) => a,
                None => {
                    return None;
                },
            };
            let array = bool_literal_values(&arr.contents)?;
            let value = resolve_named_bool(&names, 2, constraint)?;
            Some(NamedBoolConstraint::ArrayElement { index, array, value })
        },
        BoolKind::ArrayVarBoolElement => None,
        BoolKind::ArrayBoolXor => {
            let vars = named_array(extractor, 0, constraint, arrays)?;
            Some(NamedBoolConstraint::ArrayXor { vars })
        },
        BoolKind::BoolClause => {
            let pos = named_array(extractor, 0, constraint, arrays)?;
            let neg = named_array(extractor, 1, constraint, arrays)?;
            Some(NamedBoolConstraint::Clause { pos, neg })
        },
        BoolKind::BoolLinEq | BoolKind::BoolLinLe => {
            let coeff = crate::args_extractor::args_extractor::ArgsExtractor::new().extract_int_coefficients_lin_expr(
                COEFF_LIN_CONSTR_INDEX,
                constraint,
                arrays,
            );
            let vars = named_array(extractor, BS_ARRAY_INDEX, constraint, arrays)?;
            let term = resolve_named_int(&names, 2, constraint)?;
            if kind == BoolKind::BoolLinEq {
                Some(NamedBoolConstraint::LinEq { coeff, vars, term })
            } else {
                Some(NamedBoolConstraint::LinLe { coeff, vars, term })
            }
        },
        BoolKind::Bool2Int => {
            let a = resolve_named_bool(&names, 0, constraint)?;
            let b = resolve_named_int(&names, 1, constraint)?;
            Some(NamedBoolConstraint::ToInt { a, b })
        },
        _ => {
            let a = resolve_named_bool(&names, 0, constraint)?;
            let b = resolve_named_bool(&names, 1, constraint)?;
            match kind {
                BoolKind::BoolEq => Some(NamedBoolConstraint::Eq { a, b }),
                BoolKind::BoolLe => Some(NamedBoolConstraint::Le { a, b }),
                BoolKind::BoolLt => Some(NamedBoolConstraint::Lt { a, b }),
                BoolKind::BoolNot => Some(NamedBoolConstraint::Not { a, b }),
                _ => {
                    let c = resolve_named_bool(&names, 2, constraint)?;
                    match kind {
                        BoolKind::BoolAnd => Some(NamedBoolConstraint::And { a, b, c }),
                        BoolKind::BoolEqReif => Some(NamedBoolConstraint::EqReif { a, b, c }),
                        BoolKind::BoolLeReif => Some(NamedBoolConstraint::LeReif { a, b, c }),
                        BoolKind::BoolLtReif => Some(NamedBoolConstraint::LtReif { a, b, c }),
                        BoolKind::BoolOr => Some(NamedBoolConstraint::Or { a, b, c }),
                        _ => Some(NamedBoolConstraint::Xor { a, b, c }),
                    }
                },
            }
        },
    }
}

/// Any two compilations of a constraint measure every solution alike.
pub proof fn lemma_named_compilations_agree(
    kind: BoolKind,
    p: NamedBoolConstraint,
    q: NamedBoolConstraint,
    c: ModelConstraintV,
    arrays: Map<Seq<char>, ModelArray>,
    sol: Map<Seq<char>, VariableValue>,
)
    requires
        named_compiled(kind, p, c, arrays),
        named_compiled(kind, q, c, arrays),
    ensures
        named_bool_violation(p, sol) == named_bool_violation(q, sol),
{
}

/// The violation of `c`, compiled as `kind` over named variables, in a solution;
/// `None` where the constraint does not compile or the evaluation fails.
pub open spec fn named_kind_violation(
    kind: BoolKind,
    c: ModelConstraintV,
    arrays: Map<Seq<char>, ModelArray>,
    sol: Map<Seq<char>, VariableValue>,
) -> Option<int> {
    if named_setup_ok(kind, c, arrays) {
        named_bool_violation(choose|p: NamedBoolConstraint| named_compiled(kind, p, c, arrays), sol)
    } else {
        None
    }
}

/// Evaluates boolean constraints of a FlatZinc model against solutions keyed by
/// variable name.
pub struct BoolFunctionalEvaluator {
    /// The named arrays of the model.
    arrays: StringHashMap<ModelArray>,
    /// Extracts boolean arguments from constraints.
    args_extractor: BoolArgsExtractor,
    /// Whether violated constraints are to be reported.
    verbose: bool,
}

impl BoolFunctionalEvaluator {
    /// The named arrays the evaluator resolves array arguments with.
    pub closed spec fn array_map(&self) -> Map<Seq<char>, ModelArray> {
        self.arrays@
    }

    /// Whether violated constraints are to be reported.
    pub closed spec fn is_verbose(&self) -> bool {
        self.verbose
    }

    /// Creates an evaluator over the named arrays of a model.
    pub fn new(arrays: StringHashMap<ModelArray>, verbose: bool) -> (r: Self)
        ensures
            r.array_map() == arrays@,
            r.is_verbose() == verbose,
    {
        let args_extractor = BoolArgsExtractor::new();
        Self { arrays, args_extractor, verbose }
    }

    /// Whether violated constraints are to be reported.
    pub fn verbose(&self) -> (r: bool)
        ensures
            r == self.is_verbose(),
    {
        self.verbose
    }

    /// Compiles a `array_bool_and` constraint: `r <-> (as[0] /\ as[1] /\ ...)`; its violation is `1` when a solution
    /// violates it, `0` otherwise.
    ///
    /// `None` when the constraint cannot be compiled (see [`named_setup_ok`]).
    pub fn array_bool_and(
        &self,
        constraint: &CallWithDefines,
        _solution: &StringHashMap<VariableValue>,
    ) -> (r: Option<NamedBoolConstraint>)
        ensures
            r is Some <==> named_setup_ok(BoolKind::ArrayBoolAnd, constraint.call@, self.array_map()),
            r matches Some(p) ==> named_compiled(BoolKind::ArrayBoolAnd, p, constraint.call@, self.array_map()),
    {
        compile_named_bool(&self.args_extractor, &self.arrays, BoolKind::ArrayBoolAnd, &constraint.call)
    }

    /// Compiles a `array_bool_element` constraint: `array[index] = value` over a constant array of booleans; its violation is `1` when a solution
    /// violates it, `0` otherwise.
    ///
    /// `None` when the constraint cannot be compiled (see [`named_setup_ok`]).
    pub fn array_bool_element(
        &self,
        constraint: &CallWithDefines,
        _solution: &StringHashMap<VariableValue>,
    ) -> (r: Option<NamedBoolConstraint>)
        ensures
            r is Some <==> named_setup_ok(BoolKind::ArrayBoolElement, constraint.call@, self.array_map()),
            r matches Some(p) ==> named_compiled(BoolKind::ArrayBoolElement, p, constraint.call@, self.array_map()),
    {
        compile_named_bool(&self.args_extractor, &self.arrays, BoolKind::ArrayBoolElement, &constraint.call)
    }

    /// Compiles a `array_bool_xor` constraint: an odd number of `as` hold; its violation is `1` when a solution
    /// violates it, `0` otherwise.
    ///
    /// `None` when the constraint cannot be compiled (see [`named_setup_ok`]).
    pub fn array_bool_xor(
        &self,
        constraint: &CallWithDefines,
        _solution: &StringHashMap<VariableValue>,
    ) -> (r: Option<NamedBoolConstraint>)
        ensures
            r is Some <==> named_setup_ok(BoolKind::ArrayBoolXor, constraint.call@, self.array_map()),
            r matches Some(p) ==> named_compiled(BoolKind::ArrayBoolXor, p, constraint.call@, self.array_map()),
    {
        compile_named_bool(&self.args_extractor, &self.arrays, BoolKind::ArrayBoolXor, &constraint.call)
    }

    /// Compiles a `bool_and` constraint: `c <-> a /\ b`; its violation is `1` when a solution
    /// violates it, `0` otherwise.
    ///
    /// `None` when the constraint cannot be compiled (see [`named_setup_ok`]).
    pub fn bool_and(
        &self,
        constraint: &CallWithDefines,
        _solution: &StringHashMap<VariableValue>,
    ) -> (r: Option<NamedBoolConstraint>)
        ensures
            r is Some <==> named_setup_ok(BoolKind::BoolAnd, constraint.call@, self.array_map()),
            r matches Some(p) ==> named_compiled(BoolKind::BoolAnd, p, constraint.call@, self.array_map()),
    {
        compile_named_bool(&self.args_extractor, &self.arrays, BoolKind::BoolAnd, &constraint.call)
    }

    /// Compiles a `bool_clause` constraint: some value of `as` is true or some value of `bs`
    /// is false; its violation is `1` when a solution violates it, `0` otherwise.
    ///
    /// `None` when the constraint cannot be compiled (see [`named_setup_ok`]).
    pub fn bool_clause(
        &self,
        constraint: &CallWithDefines,
        _solution: &StringHashMap<VariableValue>,
    ) -> (r: Option<NamedBoolConstraint>)
        ensures
            r is Some <==> named_setup_ok(BoolKind::BoolClause, constraint.call@, self.array_map()),
            r matches Some(p) ==> named_compiled(BoolKind::BoolClause, p, constraint.call@, self.array_map()),
    {
        compile_named_bool(&self.args_extractor, &self.arrays, BoolKind::BoolClause, &constraint.call)
    }

    /// Compiles a `bool_eq` constraint: `a = b`; its violation is `1` when a solution
    /// violates it, `0` otherwise.
    ///
    /// `None` when the constraint cannot be compiled (see [`named_setup_ok`]).
    pub fn bool_eq(
        &self,
        constraint: &CallWithDefines,
        _solution: &StringHashMap<VariableValue>,
    ) -> (r: Option<NamedBoolConstraint>)
        ensures
            r is Some <==> named_setup_ok(BoolKind::BoolEq, constraint.call@, self.array_map()),
            r matches Some(p) ==> named_compiled(BoolKind::BoolEq, p, constraint.call@, self.array_map()),
    {
        compile_named_bool(&self.args_extractor, &self.arrays, BoolKind::BoolEq, &constraint.call)
    }

    /// Compiles a `bool_eq_reif` constraint: `c <-> a = b`; its violation is `1` when a solution
    /// violates it, `0` otherwise.
    ///
    /// `None` when the constraint cannot be compiled (see [`named_setup_ok`]).
    pub fn bool_eq_reif(
        &self,
        constraint: &CallWithDefines,
        _solution: &StringHashMap<VariableValue>,
    ) -> (r: Option<NamedBoolConstraint>)
        ensures
            r is Some <==> named_setup_ok(BoolKind::BoolEqReif, constraint.call@, self.array_map()),
            r matches Some(p) ==> named_compiled(BoolKind::BoolEqReif, p, constraint.call@, self.array_map()),
    {
        compile_named_bool(&self.args_extractor, &self.arrays, BoolKind::BoolEqReif, &constraint.call)
    }

    /// Compiles a `bool_le` constraint: `a <= b`, with `false < true`; its violation is `1` when a solution
    /// violates it, `0` otherwise.
    ///
    /// `None` when the constraint cannot be compiled (see [`named_setup_ok`]).
    pub fn bool_le(
        &self,
        constraint: &CallWithDefines,
        _solution: &StringHashMap<VariableValue>,
    ) -> (r: Option<NamedBoolConstraint>)
        ensures
            r is Some <==> named_setup_ok(BoolKind::BoolLe, constraint.call@, self.array_map()),
            r matches Some(p) ==> named_compiled(BoolKind::BoolLe, p, constraint.call@, self.array_map()),
    {
        compile_named_bool(&self.args_extractor, &self.arrays, BoolKind::BoolLe, &constraint.call)
    }

    /// Compiles a `bool_le_reif` constraint: `c <-> a <= b`; its violation is `1` when a solution
    /// violates it, `0` otherwise.
    ///
    /// `None` when the constraint cannot be compiled (see [`named_setup_ok`]).
    pub fn bool_le_reif(
        &self,
        constraint: &CallWithDefines,
        _solution: &StringHashMap<VariableValue>,
    ) -> (r: Option<NamedBoolConstraint>)
        ensures
            r is Some <==> named_setup_ok(BoolKind::BoolLeReif, constraint.call@, self.array_map()),
            r matches Some(p) ==> named_compiled(BoolKind::BoolLeReif, p, constraint.call@, self.array_map()),
    {
        compile_named_bool(&self.args_extractor, &self.arrays, BoolKind::BoolLeReif, &constraint.call)
    }

    /// Compiles a `bool_lin_eq` constraint: `sum(coeff[i] * bs[i]) = c`, with `1` for true and `0` for false; its violation is `1` when a solution
    /// violates it, `0` otherwise.
    ///
    /// `None` when the constraint cannot be compiled (see [`named_setup_ok`]).
    pub fn bool_lin_eq(&self, constraint: &CallWithDefines) -> (r: Option<NamedBoolConstraint>)
        ensures
            r is Some <==> named_setup_ok(BoolKind::BoolLinEq, constraint.call@, self.array_map()),
            r matches Some(p) ==> named_compiled(BoolKind::BoolLinEq, p, constraint.call@, self.array_map()),
    {
        compile_named_bool(&self.args_extractor, &self.arrays, BoolKind::BoolLinEq, &constraint.call)
    }

    /// Compiles a `bool_lin_le` constraint: `sum(coeff[i] * bs[i]) <= c`, with `1` for true and `0` for false; its violation is `1` when a solution
    /// violates it, `0` otherwise.
    ///
    /// `None` when the constraint cannot be compiled (see [`named_setup_ok`]).
    pub fn bool_lin_le(&self, constraint: &CallWithDefines) -> (r: Option<NamedBoolConstraint>)
        ensures
            r is Some <==> named_setup_ok(BoolKind::BoolLinLe, constraint.call@, self.array_map()),
            r matches Some(p) ==> named_compiled(BoolKind::BoolLinLe, p, constraint.call@, self.array_map()),
    {
        compile_named_bool(&self.args_extractor, &self.arrays, BoolKind::BoolLinLe, &constraint.call)
    }

    /// Compiles a `bool_lt` constraint: `a < b`, with `false < true`; its violation is `1` when a solution
    /// violates it, `0` otherwise.
    ///
    /// `None` when the constraint cannot be compiled (see [`named_setup_ok`]).
    pub fn bool_lt(
        &self,
        constraint: &CallWithDefines,
        _solution: &StringHashMap<VariableValue>,
    ) -> (r: Option<NamedBoolConstraint>)
        ensures
            r is Some <==> named_setup_ok(BoolKind::BoolLt, constraint.call@, self.array_map()),
            r matches Some(p) ==> named_compiled(BoolKind::BoolLt, p, constraint.call@, self.array_map()),
    {
        compile_named_bool(&self.args_extractor, &self.arrays, BoolKind::BoolLt, &constraint.call)
    }

    /// Compiles a `bool_lt_reif` constraint: `c <-> a < b`; its violation is `1` when a solution
    /// violates it, `0` otherwise.
    ///
    /// `None` when the constraint cannot be compiled (see [`named_setup_ok`]).
    pub fn bool_lt_reif(
        &self,
        constraint: &CallWithDefines,
        _solution: &StringHashMap<VariableValue>,
    ) -> (r: Option<NamedBoolConstraint>)
        ensures
            r is Some <==> named_setup_ok(BoolKind::BoolLtReif, constraint.call@, self.array_map()),
            r matches Some(p) ==> named_compiled(BoolKind::BoolLtReif, p, constraint.call@, self.array_map()),
    {
        compile_named_bool(&self.args_extractor, &self.arrays, BoolKind::BoolLtReif, &constraint.call)
    }

    /// Compiles a `bool_not` constraint: `a != b`; its violation is `1` when a solution
    /// violates it, `0` otherwise.
    ///
    /// `None` when the constraint cannot be compiled (see [`named_setup_ok`]).
    pub fn bool_not(
        &self,
        constraint: &CallWithDefines,
        _solution: &StringHashMap<VariableValue>,
    ) -> (r: Option<NamedBoolConstraint>)
        ensures
            r is Some <==> named_setup_ok(BoolKind::BoolNot, constraint.call@, self.array_map()),
            r matches Some(p) ==> named_compiled(BoolKind::BoolNot, p, constraint.call@, self.array_map()),
    {
        compile_named_bool(&self.args_extractor, &self.arrays, BoolKind::BoolNot, &constraint.call)
    }

    /// Compiles a `bool_or` constraint: `c <-> a \/ b`; its violation is `1` when a solution
    /// violates it, `0` otherwise.
    ///
    /// `None` when the constraint cannot be compiled (see [`named_setup_ok`]).
    pub fn bool_or(
        &self,
        constraint: &CallWithDefines,
        _solution: &StringHashMap<VariableValue>,
    ) -> (r: Option<NamedBoolConstraint>)
        ensures
            r is Some <==> named_setup_ok(BoolKind::BoolOr, constraint.call@, self.array_map()),
            r matches Some(p) ==> named_compiled(BoolKind::BoolOr, p, constraint.call@, self.array_map()),
    {
        compile_named_bool(&self.args_extractor, &self.arrays, BoolKind::BoolOr, &constraint.call)
    }

    /// Compiles a `bool_xor` constraint: `c <-> a xor b`; its violation is `1` when a solution
    /// violates it, `0` otherwise.
    ///
    /// `None` when the constraint cannot be compiled (see [`named_setup_ok`]).
    pub fn bool_xor(
        &self,
        constraint: &CallWithDefines,
        _solution: &StringHashMap<VariableValue>,
    ) -> (r: Option<NamedBoolConstraint>)
        ensures
            r is Some <==> named_setup_ok(BoolKind::BoolXor, constraint.call@, self.array_map()),
            r matches Some(p) ==> named_compiled(BoolKind::BoolXor, p, constraint.call@, self.array_map()),
    {
        compile_named_bool(&self.args_extractor, &self.arrays, BoolKind::BoolXor, &constraint.call)
    }

    /// Compiles a `bool2int` constraint: `b = 1` when `a` holds and `b = 0` otherwise; its violation is `1` when a solution
    /// violates it, `0` otherwise.
    ///
    /// `None` when the constraint cannot be compiled (see [`named_setup_ok`]).
    pub fn bool2int(
        &self,
        constraint: &CallWithDefines,
        _solution: &StringHashMap<VariableValue>,
    ) -> (r: Option<NamedBoolConstraint>)
        ensures
            r is Some <==> named_setup_ok(BoolKind::Bool2Int, constraint.call@, self.array_map()),
            r matches Some(p) ==> named_compiled(BoolKind::Bool2Int, p, constraint.call@, self.array_map()),
    {
        compile_named_bool(&self.args_extractor, &self.arrays, BoolKind::Bool2Int, &constraint.call)
    }
}

/// What the constraint states of a solution in which its operands all have values,
/// in the FlatZinc meaning of the constraint.
pub open spec fn named_bool_holds(p: NamedBoolConstraint, sol: Map<Seq<char>, VariableValue>) -> bool {
    let v = |t: NamedBool| named_bool_value(t, sol)->0;
    match p {
        NamedBoolConstraint::ArrayAnd { vars, r } => v(r) == all_true(named_bools(strings_view(vars@), sol)),
        NamedBoolConstraint::ArrayElement { index, array, value } => {
            let pos = named_int_value(index, sol)->0 as usize;
            v(value) == array@[pos as int]
        },
        NamedBoolConstraint::ArrayXor { vars } => xor_all(named_bools(strings_view(vars@), sol)),
        NamedBoolConstraint::And { a, b, c } => v(c) == (v(a) && v(b)),
        NamedBoolConstraint::Clause { pos, neg } => {
            let qs = named_bools(strings_view(neg@), sol);
            crate::evaluator::sub_types::bool_evaluator::some_true(named_bools(strings_view(pos@), sol))
                || exists|i: int| 0 <= i < qs.len() && !#[trigger] qs[i]
        },
        NamedBoolConstraint::Eq { a, b } => v(a) == v(b),
        NamedBoolConstraint::EqReif { a, b, c } => v(c) == (v(a) == v(b)),
        NamedBoolConstraint::Le { a, b } => !v(a) || v(b),
        NamedBoolConstraint::LeReif { a, b, c } => v(c) == (!v(a) || v(b)),
        NamedBoolConstraint::LinEq { coeff, vars, term } => named_lin_value(coeff@, strings_view(vars@), sol)->0
            == named_int_value(term, sol)->0,
        NamedBoolConstraint::LinLe { coeff, vars, term } => named_lin_value(coeff@, strings_view(vars@), sol)->0
            <= named_int_value(term, sol)->0,
        NamedBoolConstraint::Lt { a, b } => !v(a) && v(b),
        NamedBoolConstraint::LtReif { a, b, c } => v(c) == (!v(a) && v(b)),
        NamedBoolConstraint::Not { a, b } => v(a) != v(b),
        NamedBoolConstraint::Or { a, b, c } => v(c) == (v(a) || v(b)),
        NamedBoolConstraint::Xor { a, b, c } => v(c) == (v(a) != v(b)),
        NamedBoolConstraint::ToInt { a, b } => named_int_value(b, sol)->0 == (if v(a) { 1int } else { 0int }),
    }
}

/// A named boolean constraint has violation zero exactly when the solution satisfies
/// it, wherever the evaluation succeeds; otherwise its violation is one.
pub proof fn lemma_named_violation_zero_iff_holds(p: NamedBoolConstraint, sol: Map<Seq<char>, VariableValue>)
    requires
        named_bool_violation(p, sol) is Some,
    ensures
        named_bool_violation(p, sol) == Some(0int) <==> named_bool_holds(p, sol),
        named_bool_violation(p, sol) == Some(0int) || named_bool_violation(p, sol) == Some(1int),
{
    match p {
        NamedBoolConstraint::Clause { pos, neg } => {
            let qs = named_bools(strings_view(neg@), sol);
            if !all_true(qs) {
                let j = choose|j: int| 0 <= j < qs.len() && !#[trigger] qs[j];
                assert(0 <= j < qs.len() && !qs[j]);
            }
        },
        _ => {},
    }
}

} // verus!
