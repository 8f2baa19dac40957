use crate::args_extractor::args_extractor::{
    all_identifiers, collect, identifier_of, int_of, lin_int_coefficients, lin_var_names, names_matching,
    strings_view, term_at,
};
use crate::args_extractor::sub_types::int_args_extractor::IntArgsExtractor;
use crate::data_utility::lin_expression::{dot, dot_fits, fits_i64};
use crate::data_utility::model::{ModelArray, CallWithDefines, ModelConstraint, ModelConstraintV, ModelLiteral, ModelLiteralV, literals_view};
use crate::data_utility::types::{values_view, Register, VariableValue, VariableValueV};
use crate::evaluator::terms::{
    abs_diff, all_ints, all_registered, check_positions, named_register, named_register_of,
    optional_registers, optional_registers_of, positions_fit, bool_term_of, bool_term_value, bool_value, checked_abs_diff,
    checked_pow, checked_trunc_div, checked_trunc_rem, flag, int_pow, int_read, int_term_of, int_term_value, int_value, identifier_literals, lookup_registers, named_at, read_int, registers_of, resolve_bool_term, resolve_int_term,
    same_outcome, trunc_div, trunc_rem, BoolTerm, IntTerm,
};
use vstd::hash_map::StringHashMap;
use vstd::prelude::*;

verus! {

broadcast use vstd::std_specs::hash::group_hash_axioms;

pub const A_TERM_INDEX: i64 = 0;
pub const B_TERM_INDEX: i64 = 1;
pub const C_TERM_INDEX: i64 = 2;
pub const R_TERM_INDEX: i64 = 2;
pub const R_TERM_LIN_EXPR_REIF_INDEX: i64 = 3;
pub const COEFF_LIN_CONSTR_INDEX: i64 = 0;
pub const VARS_LIN_CONSTR_INDEX: i64 = 1;
pub const CONST_LIN_CONSTR_INDEX: i64 = 2;

/// The integer constraints of FlatZinc that [`IntEvaluator`] compiles.
#[derive(Debug, Clone, Copy, PartialEq, Eq, Structural)]
pub enum IntKind {
    ArrayIntElement,
    ArrayVarIntElement,
    IntAbs,
    IntDiv,
    IntEq,
    IntEqReif,
    IntLe,
    IntLeReif,
    IntLinEq,
    IntLinEqReif,
    IntLinLe,
    IntLinLeReif,
    IntLinNe,
    IntLinNeReif,
    IntLt,
    IntLtReif,
    IntMax,
    IntMin,
    IntMod,
    IntNe,
    IntNeReif,
    IntPow,
    IntTimes,
}

/// A compiled integer constraint: its operands resolved to registers and constants.
#[derive(Debug)]
pub enum IntConstraint {
    /// `array[index] = value` over a constant array.
    ArrayElement { index: Register, array: Vec<i64>, value: Register },
    /// `array[index] = value` over an array of variables; `None` stands for a
    /// variable without a register.
    ArrayVarElement { index: Register, array: Vec<Option<Register>>, value: Register },
    /// `b = |a|`.
    Abs { a: IntTerm, b: IntTerm },
    /// `c = a / b`, rounding toward zero.
    Div { a: IntTerm, b: IntTerm, c: IntTerm },
    /// `a = b`.
    Eq { a: IntTerm, b: IntTerm },
    /// `r <-> a = b`.
    EqReif { a: IntTerm, b: IntTerm, r: BoolTerm },
    /// `a <= b`.
    Le { a: IntTerm, b: IntTerm },
    /// `r <-> a <= b`.
    LeReif { a: IntTerm, b: IntTerm, r: BoolTerm },
    /// `sum(coeff[i] * x[i]) = constant`.
    LinEq { coeff: Vec<i64>, registers: Vec<Register>, constant: i64 },
    /// `r <-> sum(coeff[i] * x[i]) = constant`.
    LinEqReif { coeff: Vec<i64>, registers: Vec<Register>, constant: i64, r: BoolTerm },
    /// `sum(coeff[i] * x[i]) <= constant`.
    LinLe { coeff: Vec<i64>, registers: Vec<Register>, constant: i64 },
    /// `r <-> sum(coeff[i] * x[i]) <= constant`.
    LinLeReif { coeff: Vec<i64>, registers: Vec<Register>, constant: i64, r: BoolTerm },
    /// `sum(coeff[i] * x[i]) != constant`.
    LinNe { coeff: Vec<i64>, registers: Vec<Register>, constant: i64 },
    /// `r <-> sum(coeff[i] * x[i]) != constant`.
    LinNeReif { coeff: Vec<i64>, registers: Vec<Register>, constant: i64, r: BoolTerm },
    /// `a < b`.
    Lt { a: IntTerm, b: IntTerm },
    /// `r <-> a < b`.
    LtReif { a: IntTerm, b: IntTerm, r: BoolTerm },
    /// `c = max(a, b)`.
    Max { a: IntTerm, b: IntTerm, c: IntTerm },
    /// `c = min(a, b)`.
    Min { a: IntTerm, b: IntTerm, c: IntTerm },
    /// `c = a % b`, with the sign of `a`.
    Mod { a: IntTerm, b: IntTerm, c: IntTerm },
    /// `a != b`.
    Ne { a: IntTerm, b: IntTerm },
    /// `r <-> a != b`.
    NeReif { a: IntTerm, b: IntTerm, r: BoolTerm },
    /// `c = a ^ b`.
    Pow { a: IntTerm, b: IntTerm, c: IntTerm },
    /// `c = a * b`.
    Times { a: IntTerm, b: IntTerm, c: IntTerm },
}

/// The value of `sum(coeff[i] * x[i])` over the registers, pairing coefficients and
/// registers up to the shorter list; `None` where a register holds no integer or the
/// `i64` arithmetic overflows.
pub open spec fn lin_value(coeff: Seq<i64>, registers: Seq<Register>, sol: Seq<VariableValueV>) -> Option<int> {
    let n: nat = if coeff.len() <= registers.len() { coeff.len() } else { registers.len() };
    if forall|i: int| 0 <= i < n ==> #[trigger] int_read(sol, registers[i]) is Some {
        let vals = Seq::new(n, |i: int| int_read(sol, registers[i])->0);
        if dot_fits(coeff, vals, n) {
            Some(dot(coeff, vals, n))
        } else {
            None
        }
    } else {
        None
    }
}

/// The violation of a compiled integer constraint in a solution, as the evaluation
/// computes it; `None` where the evaluation fails (an operand that is missing or of
/// the wrong type, an index out of range, an arithmetic overflow, including
/// `i64::MIN / -1` and `i64::MIN % -1`).
pub open spec fn int_violation(p: IntConstraint, sol: Seq<VariableValueV>) -> Option<int> {
    match p {
        IntConstraint::ArrayElement { index, array, value } => {
            match (int_read(sol, index), int_read(sol, value)) {
                (Some(i), Some(v)) => {
                    let pos = i as usize;
                    if pos < array@.len() {
                        abs_diff(v as int, array@[pos as int] as int)
                    } else {
                        None
                    }
                },
                _ => None,
            }
        },
        IntConstraint::ArrayVarElement { index, array, value } => {
            match int_read(sol, index) {
                Some(i) => {
                    let pos = i as usize;
                    if pos < array@.len() {
                        match array@[pos as int] {
                            Some(reg) => match (int_read(sol, reg), int_read(sol, value)) {
                                (Some(x), Some(v)) => abs_diff(v as int, x as int),
                                _ => None,
                            },
                            None => None,
                        }
                    } else {
                        None
                    }
                },
                None => None,
            }
        },
        IntConstraint::Abs { a, b } => match (int_term_value(a, sol), int_term_value(b, sol)) {
            (Some(x), Some(y)) => {
                if x == i64::MIN {
                    None
                } else {
                    let ax: int = if x < 0 { -x } else { x as int };
                    if y != ax { abs_diff(y as int, ax) } else { Some(0) }
                }
            },
            _ => None,
        },
        IntConstraint::Div { a, b, c } => match (
            int_term_value(a, sol),
            int_term_value(b, sol),
            int_term_value(c, sol),
        ) {
            (Some(x), Some(y), Some(z)) => {
                if y == 0 {
                    Some(1)
                } else if x == i64::MIN && y == -1 {
                    None
                } else {
                    let q = trunc_div(x as int, y as int);
                    if z != q { abs_diff(z as int, q) } else { Some(0) }
                }
            },
            _ => None,
        },
        IntConstraint::Eq { a, b } => match (int_term_value(a, sol), int_term_value(b, sol)) {
            (Some(x), Some(y)) => if x != y { abs_diff(x as int, y as int) } else { Some(0) },
            _ => None,
        },
        IntConstraint::EqReif { a, b, r } => match (
            int_term_value(a, sol),
            int_term_value(b, sol),
            bool_term_value(r, sol),
        ) {
            (Some(x), Some(y), Some(z)) => if z == (x == y) {
                Some(0)
            } else if x == y {
                Some(1)
            } else {
                abs_diff(x as int, y as int)
            },
            _ => None,
        },
        IntConstraint::Le { a, b } => match (int_term_value(a, sol), int_term_value(b, sol)) {
            (Some(x), Some(y)) => if x > y { abs_diff(x as int, y as int) } else { Some(0) },
            _ => None,
        },
        IntConstraint::LeReif { a, b, r } => match (
            int_term_value(a, sol),
            int_term_value(b, sol),
            bool_term_value(r, sol),
        ) {
            (Some(x), Some(y), Some(z)) => Some(flag(z != (x <= y))),
            _ => None,
        },
        IntConstraint::LinEq { coeff, registers, constant } => match lin_value(coeff@, registers@, sol) {
            Some(lhs) => if lhs != constant { abs_diff(lhs, constant as int) } else { Some(0) },
            None => None,
        },
        IntConstraint::LinEqReif { coeff, registers, constant, r } => match (
            lin_value(coeff@, registers@, sol),
            bool_term_value(r, sol),
        ) {
            (Some(lhs), Some(z)) => Some(flag(z != (lhs == constant))),
            _ => None,
        },
        IntConstraint::LinLe { coeff, registers, constant } => match lin_value(coeff@, registers@, sol) {
            Some(lhs) => if lhs > constant { abs_diff(lhs, constant as int) } else { Some(0) },
            None => None,
        },
        IntConstraint::LinLeReif { coeff, registers, constant, r } => match (
            lin_value(coeff@, registers@, sol),
            bool_term_value(r, sol),
        ) {
            (Some(lhs), Some(z)) => Some(flag(z != (lhs <= constant))),
            _ => None,
        },
        IntConstraint::LinNe { coeff, registers, constant } => match lin_value(coeff@, registers@, sol) {
            Some(lhs) => Some(flag(lhs == constant)),
            None => None,
        },
        IntConstraint::LinNeReif { coeff, registers, constant, r } => match (
            lin_value(coeff@, registers@, sol),
            bool_term_value(r, sol),
        ) {
            (Some(lhs), Some(z)) => Some(flag(z != (lhs != constant))),
            _ => None,
        },
        IntConstraint::Lt { a, b } => match (int_term_value(a, sol), int_term_value(b, sol)) {
            (Some(x), Some(y)) => {
                if x >= y {
                    if fits_i64(x - y) && fits_i64(x - y + 1) { Some(x - y + 1) } else { None }
                } else {
                    Some(0)
                }
            },
            _ => None,
        },
        IntConstraint::LtReif { a, b, r } => match (
            int_term_value(a, sol),
            int_term_value(b, sol),
            bool_term_value(r, sol),
        ) {
            (Some(x), Some(y), Some(z)) => Some(flag(z != (x < y))),
            _ => None,
        },
        IntConstraint::Max { a, b, c } => match (
            int_term_value(a, sol),
            int_term_value(b, sol),
            int_term_value(c, sol),
        ) {
            (Some(x), Some(y), Some(z)) => {
                let m = if x >= y { x } else { y };
                if z != m { abs_diff(z as int, m as int) } else { Some(0) }
            },
            _ => None,
        },
        IntConstraint::Min { a, b, c } => match (
            int_term_value(a, sol),
            int_term_value(b, sol),
            int_term_value(c, sol),
        ) {
            (Some(x), Some(y), Some(z)) => {
                let m = if x <= y { x } else { y };
                if z != m { abs_diff(z as int, m as int) } else { Some(0) }
            },
            _ => None,
        },
        IntConstraint::Mod { a, b, c } => match (
            int_term_value(a, sol),
            int_term_value(b, sol),
            int_term_value(c, sol),
        ) {
            (Some(x), Some(y), Some(z)) => {
                if y == 0 {
                    Some(1)
                } else if x == i64::MIN && y == -1 {
                    None
                } else {
                    let m = trunc_rem(x as int, y as int);
                    if z != m { abs_diff(z as int, m) } else { Some(0) }
                }
            },
            _ => None,
        },
        IntConstraint::Ne { a, b } => match (int_term_value(a, sol), int_term_value(b, sol)) {
            (Some(x), Some(y)) => Some(flag(x == y)),
            _ => None,
        },
        IntConstraint::NeReif { a, b, r } => match (
            int_term_value(a, sol),
            int_term_value(b, sol),
            bool_term_value(r, sol),
        ) {
            (Some(x), Some(y), Some(z)) => Some(flag(z != (x != y))),
            _ => None,
        },
        IntConstraint::Pow { a, b, c } => match (
            int_term_value(a, sol),
            int_term_value(b, sol),
            int_term_value(c, sol),
        ) {
            (Some(x), Some(y), Some(z)) => {
                let p = int_pow(x as int, y as nat);
                if y < 0 {
                    Some(1)
                } else if !fits_i64(p) {
                    None
                } else if z != p {
                    abs_diff(z as int, p)
                } else {
                    Some(0)
                }
            },
            _ => None,
        },
        IntConstraint::Times { a, b, c } => match (
            int_term_value(a, sol),
            int_term_value(b, sol),
            int_term_value(c, sol),
        ) {
            (Some(x), Some(y), Some(z)) => {
                let p = x * y;
                if !fits_i64(p) {
                    None
                } else if z != p {
                    abs_diff(z as int, p)
                } else {
                    Some(0)
                }
            },
            _ => None,
        },
    }
}

/// Computes `sum(coeff[i] * x[i])` over the registers (see [`lin_value`]).
fn lin_left_term(coeff: &Vec<i64>, registers: &Vec<Register>, solution: &[VariableValue]) -> (r: Option<i64>)
    ensures
        match r {
            Some(v) => lin_value(coeff@, registers@, values_view(solution@)) == Some(v as int),
            None => lin_value(coeff@, registers@, values_view(solution@)) is None,
        },
{
    let ghost sol = values_view(solution@);
    let n = if coeff.len() <= registers.len() {
        coeff.len()
    } else {
        registers.len()
    };
    let ghost all_read = forall|i: int| 0 <= i < n ==> #[trigger] int_read(sol, registers@[i]) is Some;
    let ghost vals = Seq::new(n as nat, |i: int| int_read(sol, registers@[i])->0);
    let mut sum: i64 = 0;
    let mut i: usize = 0;
    while i < n
        invariant
            sol == values_view(solution@),
            i <= n,
            n <= coeff@.len(),
            n <= registers@.len(),
            n == (if coeff@.len() <= registers@.len() { coeff@.len() } else { registers@.len() }),
            vals == Seq::new(n as nat, |i: int| int_read(sol, registers@[i])->0),
            all_read == (forall|j: int| 0 <= j < n ==> #[trigger] int_read(sol, registers@[j]) is Some),
            forall|j: int| 0 <= j < i ==> #[trigger] int_read(sol, registers@[j]) is Some,
            dot_fits(coeff@, vals, i as nat),
            sum == dot(coeff@, vals, i as nat),
        decreases n - i,
    {
        let value = match read_int(solution, registers[i]) {
            Some(v) => v,
            None => {
                return None;
            },
        };
        proof {
            assert(vals[i as int] == value);
        }
        let ghost k1 = (i + 1) as nat;
        proof {
            assert(dot(coeff@, vals, k1) == dot(coeff@, vals, i as nat) + coeff@[i as int] * vals[i as int]);
        }
        let product = match coeff[i].checked_mul(value) {
            Some(p) => p,
            None => {
                proof {
                    if all_read {
                        assert(!dot_fits(coeff@, vals, k1));
                        if dot_fits(coeff@, vals, n as nat) {
                            crate::data_utility::lin_expression::lemma_dot_fits_prefix(coeff@, vals, n as nat, k1);
                        }
                    }
                }
                return None;
            },
        };
        match sum.checked_add(product) {
            Some(s) => {
                sum = s;
            },
            None => {
                proof {
                    if all_read {
                        assert(!dot_fits(coeff@, vals, k1));
                        if dot_fits(coeff@, vals, n as nat) {
                            crate::data_utility::lin_expression::lemma_dot_fits_prefix(coeff@, vals, n as nat, k1);
                        }
                    }
                }
                return None;
            },
        }
        proof {
            assert(dot_fits(coeff@, vals, k1));
        }
        i = i + 1;
    }
    Some(sum)
}

/// `x`, as a violation.
fn amount(x: i64) -> (r: u64)
    requires
        x >= 0,
    ensures
        r == x,
{
    x as u64
}

/// `1` when `b` holds, `0` otherwise, as a violation.
fn flag_amount(b: bool) -> (r: u64)
    ensures
        r == flag(b),
{
    if b { 1 } else { 0 }
}

impl IntConstraint {
    /// The violation of the constraint in `solution` (see [`int_violation`]):
    /// zero when the constraint holds, otherwise how far it is from holding;
    /// `None` where the evaluation fails.
    pub fn violation(&self, solution: &[VariableValue]) -> (r: Option<u64>)
        ensures
            same_outcome(r, int_violation(*self, values_view(solution@))),
    {
        match self {
            IntConstraint::ArrayElement { index, array, value } => {
                let i = read_int(solution, *index)?;
                let v = read_int(solution, *value)?;
                let pos = i as usize;
                if pos < array.len() {
                    checked_abs_diff(v, array[pos])
                } else {
                    None
                }
            },
            IntConstraint::ArrayVarElement { index, array, value } => {
                let i = read_int(solution, *index)?;
                let pos = i as usize;
                if pos < array.len() {
                    match array[pos] {
                        Some(reg) => {
                            let x = read_int(solution, reg)?;
                            let v = read_int(solution, *value)?;
                            checked_abs_diff(v, x)
                        },
                        None => None,
                    }
                } else {
                    None
                }
            },
            IntConstraint::Abs { a, b } => {
                let x = int_value(*a, solution)?;
                let y = int_value(*b, solution)?;
                if x == i64::MIN {
                    return None;
                }
                let ax = if x < 0 { -x } else { x };
                if y != ax {
                    checked_abs_diff(y, ax)
                } else {
                    Some(0)
                }
            },
            IntConstraint::Div { a, b, c } => {
                let x = int_value(*a, solution)?;
                let y = int_value(*b, solution)?;
                let z = int_value(*c, solution)?;
                if y == 0 {
                    return Some(1);
                }
                let q = checked_trunc_div(x, y)?;
                if z != q {
                    checked_abs_diff(z, q)
                } else {
                    Some(0)
                }
            },
            IntConstraint::Eq { a, b } => {
                let x = int_value(*a, solution)?;
                let y = int_value(*b, solution)?;
                if x != y {
                    checked_abs_diff(x, y)
                } else {
                    Some(0)
                }
            },
            IntConstraint::EqReif { a, b, r } => {
                let x = int_value(*a, solution)?;
                let y = int_value(*b, solution)?;
                let z = bool_value(*r, solution)?;
                if z == (x == y) {
                    Some(0)
                } else if x == y {
                    Some(1)
                } else {
                    checked_abs_diff(x, y)
                }
            },
            IntConstraint::Le { a, b } => {
                let x = int_value(*a, solution)?;
                let y = int_value(*b, solution)?;
                if x > y {
                    checked_abs_diff(x, y)
                } else {
                    Some(0)
                }
            },
            IntConstraint::LeReif { a, b, r } => {
                let x = int_value(*a, solution)?;
                let y = int_value(*b, solution)?;
                let z = bool_value(*r, solution)?;
                Some(flag_amount(z != (x <= y)))
            },
            IntConstraint::LinEq { coeff, registers, constant } => {
                let lhs = lin_left_term(coeff, registers, solution)?;
                if lhs != *constant {
                    checked_abs_diff(lhs, *constant)
                } else {
                    Some(0)
                }
            },
            IntConstraint::LinEqReif { coeff, registers, constant, r } => {
                let lhs = lin_left_term(coeff, registers, solution)?;
                let z = bool_value(*r, solution)?;
                Some(flag_amount(z != (lhs == *constant)))
            },
            IntConstraint::LinLe { coeff, registers, constant } => {
                let lhs = lin_left_term(coeff, registers, solution)?;
                if lhs > *constant {
                    checked_abs_diff(lhs, *constant)
                } else {
                    Some(0)
                }
            },
            IntConstraint::LinLeReif { coeff, registers, constant, r } => {
                let lhs = lin_left_term(coeff, registers, solution)?;
                let z = bool_value(*r, solution)?;
                Some(flag_amount(z != (lhs <= *constant)))
            },
            IntConstraint::LinNe { coeff, registers, constant } => {
                let lhs = lin_left_term(coeff, registers, solution)?;
                Some(flag_amount(lhs == *constant))
            },
            IntConstraint::LinNeReif { coeff, registers, constant, r } => {
                let lhs = lin_left_term(coeff, registers, solution)?;
                let z = bool_value(*r, solution)?;
                Some(flag_amount(z != (lhs != *constant)))
            },
            IntConstraint::Lt { a, b } => {
                let x = int_value(*a, solution)?;
                let y = int_value(*b, solution)?;
                if x >= y {
                    let d = x.checked_sub(y)?;
                    let d1 = d.checked_add(1)?;
                    Some(amount(d1))
                } else {
                    Some(0)
                }
            },
            IntConstraint::LtReif { a, b, r } => {
                let x = int_value(*a, solution)?;
                let y = int_value(*b, solution)?;
                let z = bool_value(*r, solution)?;
                Some(flag_amount(z != (x < y)))
            },
            IntConstraint::Max { a, b, c } => {
                let x = int_value(*a, solution)?;
                let y = int_value(*b, solution)?;
                let z = int_value(*c, solution)?;
                let m = if x >= y { x } else { y };
                if z != m {
                    checked_abs_diff(z, m)
                } else {
                    Some(0)
                }
            },
            IntConstraint::Min { a, b, c } => {
                let x = int_value(*a, solution)?;
                let y = int_value(*b, solution)?;
                let z = int_value(*c, solution)?;
                let m = if x <= y { x } else { y };
                if z != m {
                    checked_abs_diff(z, m)
                } else {
                    Some(0)
                }
            },
            IntConstraint::Mod { a, b, c } => {
                let x = int_value(*a, solution)?;
                let y = int_value(*b, solution)?;
                let z = int_value(*c, solution)?;
                if y == 0 {
                    return Some(1);
                }
                let m = checked_trunc_rem(x, y)?;
                if z != m {
                    checked_abs_diff(z, m)
                } else {
                    Some(0)
                }
            },
            IntConstraint::Ne { a, b } => {
                let x = int_value(*a, solution)?;
                let y = int_value(*b, solution)?;
                Some(flag_amount(x == y))
            },
            IntConstraint::NeReif { a, b, r } => {
                let x = int_value(*a, solution)?;
                let y = int_value(*b, solution)?;
                let z = bool_value(*r, solution)?;
                Some(flag_amount(z != (x != y)))
            },
            IntConstraint::Pow { a, b, c } => {
                let x = int_value(*a, solution)?;
                let y = int_value(*b, solution)?;
                let z = int_value(*c, solution)?;
                if y < 0 {
                    return Some(1);
                }
                let p = checked_pow(x, y as u64)?;
                if z != p {
                    checked_abs_diff(z, p)
                } else {
                    Some(0)
                }
            },
            IntConstraint::Times { a, b, c } => {
                let x = int_value(*a, solution)?;
                let y = int_value(*b, solution)?;
                let z = int_value(*c, solution)?;
                let p = x.checked_mul(y)?;
                if z != p {
                    checked_abs_diff(z, p)
                } else {
                    Some(0)
                }
            },
        }
    }
}

/// The constraint can be compiled as `kind`: every operand resolves (an argument that
/// names no variable is a literal of the right type), the arrays that element
/// constraints index exist and hold the right literals, and the variables that must
/// have registers have them.
pub open spec fn int_setup_ok(
    kind: IntKind,
    c: ModelConstraintV,
    arrays: Map<Seq<char>, ModelArray>,
    regs: Map<Seq<char>, Register>,
) -> bool {
    match kind {
        IntKind::ArrayIntElement | IntKind::ArrayVarIntElement => {
            &&& positions_fit(c)
            &&& named_register(c, 0, regs)
            &&& named_at(c, 1) is Some
            &&& arrays.contains_key(named_at(c, 1)->0)
            &&& if kind == IntKind::ArrayIntElement {
                all_ints(arrays[named_at(c, 1)->0]@)
            } else {
                all_identifiers(arrays[named_at(c, 1)->0]@)
            }
            &&& named_register(c, 2, regs)
        },
        IntKind::IntAbs | IntKind::IntEq | IntKind::IntLe | IntKind::IntLt | IntKind::IntNe => {
            &&& positions_fit(c)
            &&& int_term_of(c, 0, regs) is Some
            &&& int_term_of(c, 1, regs) is Some
        },
        IntKind::IntDiv | IntKind::IntMax | IntKind::IntMin | IntKind::IntMod | IntKind::IntPow
        | IntKind::IntTimes => {
            &&& positions_fit(c)
            &&& int_term_of(c, 0, regs) is Some
            &&& int_term_of(c, 1, regs) is Some
            &&& int_term_of(c, 2, regs) is Some
        },
        IntKind::IntEqReif | IntKind::IntLeReif | IntKind::IntLtReif | IntKind::IntNeReif => {
            &&& positions_fit(c)
            &&& int_term_of(c, 0, regs) is Some
            &&& int_term_of(c, 1, regs) is Some
            &&& bool_term_of(c, 2, regs) is Some
        },
        IntKind::IntLinEq | IntKind::IntLinLe | IntKind::IntLinNe => {
            &&& all_registered(lin_var_names(c.args, 1, arrays), regs)
            &&& term_at(c, 2) matches Some(ModelLiteralV::Int(_))
        },
        IntKind::IntLinEqReif | IntKind::IntLinLeReif | IntKind::IntLinNeReif => {
            &&& all_registered(lin_var_names(c.args, 1, arrays), regs)
            &&& term_at(c, 2) matches Some(ModelLiteralV::Int(_))
            &&& positions_fit(c)
            &&& bool_term_of(c, 3, regs) is Some
        },
    }
}

/// The parts of a linear constraint: coefficients from argument 0, the registers of
/// the variables of argument 1, the constant literal of argument 2.
pub open spec fn lin_parts(
    coeff: Seq<i64>,
    registers: Seq<Register>,
    constant: i64,
    c: ModelConstraintV,
    arrays: Map<Seq<char>, ModelArray>,
    regs: Map<Seq<char>, Register>,
) -> bool {
    &&& coeff == lin_int_coefficients(c.args, 0, arrays)
    &&& registers == registers_of(lin_var_names(c.args, 1, arrays), regs)
    &&& term_at(c, 2) == Some(ModelLiteralV::Int(constant))
}

/// `p` is the compilation of `c` as `kind`.
pub open spec fn int_compiled(
    kind: IntKind,
    p: IntConstraint,
    c: ModelConstraintV,
    arrays: Map<Seq<char>, ModelArray>,
    regs: Map<Seq<char>, Register>,
) -> bool {
    let a = int_term_of(c, 0, regs)->0;
    let b = int_term_of(c, 1, regs)->0;
    let t = int_term_of(c, 2, regs)->0;
    let r = bool_term_of(c, 2, regs)->0;
    let r3 = bool_term_of(c, 3, regs)->0;
    match kind {
        IntKind::ArrayIntElement => p matches IntConstraint::ArrayElement { index, array, value }
            && index == regs[named_at(c, 0)->0] && value == regs[named_at(c, 2)->0]
            && array@ == collect(arrays[named_at(c, 1)->0]@, |x: ModelLiteralV| int_of(x)),
        IntKind::ArrayVarIntElement => p matches IntConstraint::ArrayVarElement { index, array, value }
            && index == regs[named_at(c, 0)->0] && value == regs[named_at(c, 2)->0]
            && array@ == optional_registers(
                collect(arrays[named_at(c, 1)->0]@, |x: ModelLiteralV| identifier_of(x)),
                regs,
            ),
        IntKind::IntAbs => p == IntConstraint::Abs { a, b },
        IntKind::IntDiv => p == IntConstraint::Div { a, b, c: t },
        IntKind::IntEq => p == IntConstraint::Eq { a, b },
        IntKind::IntEqReif => p == IntConstraint::EqReif { a, b, r },
        IntKind::IntLe => p == IntConstraint::Le { a, b },
        IntKind::IntLeReif => p == IntConstraint::LeReif { a, b, r },
        IntKind::IntLinEq => p matches IntConstraint::LinEq { coeff, registers, constant }
            && lin_parts(coeff@, registers@, constant, c, arrays, regs),
        IntKind::IntLinEqReif => p matches IntConstraint::LinEqReif { coeff, registers, constant, r }
            && lin_parts(coeff@, registers@, constant, c, arrays, regs) && r == r3,
        IntKind::IntLinLe => p matches IntConstraint::LinLe { coeff, registers, constant }
            && lin_parts(coeff@, registers@, constant, c, arrays, regs),
        IntKind::IntLinLeReif => p matches IntConstraint::LinLeReif { coeff, registers, constant, r }
            && lin_parts(coeff@, registers@, constant, c, arrays, regs) && r == r3,
        IntKind::IntLinNe => p matches IntConstraint::LinNe { coeff, registers, constant }
            && lin_parts(coeff@, registers@, constant, c, arrays, regs),
        IntKind::IntLinNeReif => p matches IntConstraint::LinNeReif { coeff, registers, constant, r }
            && lin_parts(coeff@, registers@, constant, c, arrays, regs) && r == r3,
        IntKind::IntLt => p == IntConstraint::Lt { a, b },
        IntKind::IntLtReif => p == IntConstraint::LtReif { a, b, r },
        IntKind::IntMax => p == IntConstraint::Max { a, b, c: t },
        IntKind::IntMin => p == IntConstraint::Min { a, b, c: t },
        IntKind::IntMod => p == IntConstraint::Mod { a, b, c: t },
        IntKind::IntNe => p == IntConstraint::Ne { a, b },
        IntKind::IntNeReif => p == IntConstraint::NeReif { a, b, r },
        IntKind::IntPow => p == IntConstraint::Pow { a, b, c: t },
        IntKind::IntTimes => p == IntConstraint::Times { a, b, c: t },
    }
}

/// Whether every literal of the list is an integer, and their values.
fn int_literals(lits: &Vec<ModelLiteral>) -> (r: Option<Vec<i64>>)
    ensures
        match r {
            Some(v) => all_ints(literals_view(lits@))
                && v@ == collect(literals_view(lits@), |x: ModelLiteralV| int_of(x)),
            None => !all_ints(literals_view(lits@)),
        },
{
    for j in 0..lits.len()
        invariant
            all_ints(literals_view(lits@).take(j as int)),
    {
        match &lits[j] {
            ModelLiteral::Int(_) => {},
            _ => {
                proof {
                    assert(!(literals_view(lits@)[j as int] is Int));
                }
                return None;
            },
        }
        proof {
            let ls = literals_view(lits@);
            assert forall|k: int| 0 <= k < j + 1 implies #[trigger] ls.take(j + 1)[k] is Int by {
                if k < j {
                    assert(ls.take(j + 1)[k] == ls.take(j as int)[k]);
                }
            }
        }
    }
    proof {
        assert(literals_view(lits@).take(lits.len() as int) =~= literals_view(lits@));
    }
    Some(crate::args_extractor::args_extractor::ints_of(lits))
}

/// Evaluates integer constraints of a FlatZinc model against solutions held in
/// registers.
pub struct IntEvaluator {
    /// The named arrays of the model.
    arrays: StringHashMap<ModelArray>,
    /// The register of each variable of the model.
    variable_register_map: StringHashMap<Register>,
    /// Extracts integer arguments from constraints.
    args_extractor: IntArgsExtractor,
    /// Whether violated constraints are to be reported.
    verbose: bool,
}

impl IntEvaluator {
    /// The named arrays the evaluator resolves array arguments with.
    pub closed spec fn array_map(&self) -> Map<Seq<char>, ModelArray> {
        self.arrays@
    }

    /// The register of each variable.
    pub closed spec fn register_map(&self) -> Map<Seq<char>, Register> {
        self.variable_register_map@
    }

    /// Whether violated constraints are to be reported.
    pub closed spec fn is_verbose(&self) -> bool {
        self.verbose
    }

    /// Creates an evaluator over the named arrays and the variable registers of a model.
    pub fn new(
        arrays: StringHashMap<ModelArray>,
        variable_register_map: StringHashMap<Register>,
        verbose: bool,
    ) -> (r: Self)
        ensures
            r.array_map() == arrays@,
            r.register_map() == variable_register_map@,
            r.is_verbose() == verbose,
    {
        let args_extractor = IntArgsExtractor::new();
        Self { arrays, variable_register_map, args_extractor, verbose }
    }

    /// Whether violated constraints are to be reported.
    pub fn verbose(&self) -> (r: bool)
        ensures
            r == self.is_verbose(),
    {
        self.verbose
    }

    /// Compiles `constraint` as an integer constraint of the given kind.
    pub fn compile(&self, kind: IntKind, constraint: &ModelConstraint) -> (r: Option<IntConstraint>)
        ensures
            r is Some <==> int_setup_ok(kind, constraint@, self.array_map(), self.register_map()),
            r matches Some(p) ==> int_compiled(kind, p, constraint@, self.array_map(), self.register_map()),
    {
        let regs = &self.variable_register_map;
        match kind {
            IntKind::IntLinEq | IntKind::IntLinLe | IntKind::IntLinNe | IntKind::IntLinEqReif
            | IntKind::IntLinLeReif | IntKind::IntLinNeReif => {
                let coeff = self.args_extractor.extract_int_coefficients_lin_expr(0, constraint, &self.arrays);
                let vars_involved = self.args_extractor.extract_var_values_lin_expr(1, constraint, &self.arrays);
                proof {
                    assert(vars_involved@.map_values(|s: String| s@) =~= strings_view(vars_involved@));
                }
                let registers = lookup_registers(&vars_involved, regs)?;
                let constant = if 2 < constraint.args.len() {
                    match &constraint.args[2] {
                        crate::data_utility::model::ModelArgument::Literal(ModelLiteral::Int(v)) => *v,
                        _ => {
                            return None;
                        },
                    }
                } else {
                    return None;
                };
                if kind == IntKind::IntLinEq {
                    return Some(IntConstraint::LinEq { coeff, registers, constant });
                }
                if kind == IntKind::IntLinLe {
                    return Some(IntConstraint::LinLe { coeff, registers, constant });
                }
                if kind == IntKind::IntLinNe {
                    return Some(IntConstraint::LinNe { coeff, registers, constant });
                }
                if !check_positions(constraint) {
                    return None;
                }
                let names = self.args_extractor.extract_literal_identifiers_with_index(&constraint.args);
                let r = resolve_bool_term(&names, 3, constraint, regs)?;
                if kind == IntKind::IntLinEqReif {
                    Some(IntConstraint::LinEqReif { coeff, registers, constant, r })
                } else if kind == IntKind::IntLinLeReif {
                    Some(IntConstraint::LinLeReif { coeff, registers, constant, r })
                } else {
                    Some(IntConstraint::LinNeReif { coeff, registers, constant, r })
                }
            },
            _ => {
                if !check_positions(constraint) {
                    return None;
                }
                let names = self.args_extractor.extract_literal_identifiers_with_index(&constraint.args);
                match kind {
                    IntKind::ArrayIntElement | IntKind::ArrayVarIntElement => {
                        let index = named_register_of(&names, 0, constraint, regs)?;
                        let array_name = match names.get(&1) {
                            Some(n) => n,
                            None => {
                                return None;
                            },
                        };
                        let arr = match self.arrays.get(array_name.as_str()) {
                            Some(a) => a,
                            None => {
                                return None;
                            },
                        };
                        let value_check = named_register_of(&names, 2, constraint, regs);
                        if kind == IntKind::ArrayIntElement {
                            let array = int_literals(&arr.contents)?;
                            let value = value_check?;
                            Some(IntConstraint::ArrayElement { index, array, value })
                        } else {
                            if !identifier_literals(&arr.contents) {
                                return None;
                            }
                            let var_names = names_matching(&arr.contents, false);
                            proof {
                                assert(var_names@.map_values(|s: String| s@) =~= strings_view(var_names@));
                            }
                            let array = optional_registers_of(&var_names, regs);
                            let value = value_check?;
                            Some(IntConstraint::ArrayVarElement { index, array, value })
                        }
                    },
                    _ => {
                        let a = resolve_int_term(&names, 0, constraint, regs)?;
                        let b = resolve_int_term(&names, 1, constraint, regs)?;
                        match kind {
                            IntKind::IntAbs => Some(IntConstraint::Abs { a, b }),
                            IntKind::IntEq => Some(IntConstraint::Eq { a, b }),
                            IntKind::IntLe => Some(IntConstraint::Le { a, b }),
                            IntKind::IntLt => Some(IntConstraint::Lt { a, b }),
                            IntKind::IntNe => Some(IntConstraint::Ne { a, b }),
                            IntKind::IntEqReif | IntKind::IntLeReif | IntKind::IntLtReif
                            | IntKind::IntNeReif => {
                                let r = resolve_bool_term(&names, 2, constraint, regs)?;
                                match kind {
                                    IntKind::IntEqReif => Some(IntConstraint::EqReif { a, b, r }),
                                    IntKind::IntLeReif => Some(IntConstraint::LeReif { a, b, r }),
                                    IntKind::IntLtReif => Some(IntConstraint::LtReif { a, b, r }),
                                    _ => Some(IntConstraint::NeReif { a, b, r }),
                                }
                            },
                            _ => {
                                let c = resolve_int_term(&names, 2, constraint, regs)?;
                                match kind {
                                    IntKind::IntDiv => Some(IntConstraint::Div { a, b, c }),
                                    IntKind::IntMax => Some(IntConstraint::Max { a, b, c }),
                                    IntKind::IntMin => Some(IntConstraint::Min { a, b, c }),
                                    IntKind::IntMod => Some(IntConstraint::Mod { a, b, c }),
                                    IntKind::IntPow => Some(IntConstraint::Pow { a, b, c }),
                                    _ => Some(IntConstraint::Times { a, b, c }),
                                }
                            },
                        }
                    },
                }
            },
        }
    }

    /// Compiles an `array_int_element` constraint: `array[index] = value` over a constant array of integers; the violation is `|value - array[index]|`.
    ///
    /// `None` when the constraint cannot be compiled (see [`int_setup_ok`]).
    pub fn array_int_element(&self, constraint: &CallWithDefines) -> (r: Option<IntConstraint>)
        ensures
            r is Some <==> int_setup_ok(IntKind::ArrayIntElement, constraint.call@, self.array_map(), self.register_map()),
            r matches Some(p) ==> int_compiled(IntKind::ArrayIntElement, p, constraint.call@, self.array_map(), self.register_map()),
    {
        self.compile(IntKind::ArrayIntElement, &constraint.call)
    }

    /// Compiles an `array_var_int_element` constraint: `array[index] = value` over an array of integer variables; the violation is `|value - array[index]|`.
    ///
    /// `None` when the constraint cannot be compiled (see [`int_setup_ok`]).
    pub fn array_var_int_element(&self, constraint: &CallWithDefines) -> (r: Option<IntConstraint>)
        ensures
            r is Some <==> int_setup_ok(IntKind::ArrayVarIntElement, constraint.call@, self.array_map(), self.register_map()),
            r matches Some(p) ==> int_compiled(IntKind::ArrayVarIntElement, p, constraint.call@, self.array_map(), self.register_map()),
    {
        self.compile(IntKind::ArrayVarIntElement, &constraint.call)
    }

    /// Compiles an `int_abs` constraint: `b = |a|`; the violation is `|b - |a||`.
    ///
    /// `None` when the constraint cannot be compiled (see [`int_setup_ok`]).
    pub fn int_abs(&self, constraint: &CallWithDefines) -> (r: Option<IntConstraint>)
        ensures
            r is Some <==> int_setup_ok(IntKind::IntAbs, constraint.call@, self.array_map(), self.register_map()),
            r matches Some(p) ==> int_compiled(IntKind::IntAbs, p, constraint.call@, self.array_map(), self.register_map()),
    {
        self.compile(IntKind::IntAbs, &constraint.call)
    }

    /// Compiles an `int_div` constraint: `c = a / b` (rounding toward zero); the violation is `|c - a / b|`, and `1` for a zero divisor.
    ///
    /// `None` when the constraint cannot be compiled (see [`int_setup_ok`]).
    pub fn int_div(&self, constraint: &CallWithDefines) -> (r: Option<IntConstraint>)
        ensures
            r is Some <==> int_setup_ok(IntKind::IntDiv, constraint.call@, self.array_map(), self.register_map()),
            r matches Some(p) ==> int_compiled(IntKind::IntDiv, p, constraint.call@, self.array_map(), self.register_map()),
    {
        self.compile(IntKind::IntDiv, &constraint.call)
    }

    /// Compiles an `int_eq` constraint: `a = b`; the violation is `|a - b|`.
    ///
    /// `None` when the constraint cannot be compiled (see [`int_setup_ok`]).
    pub fn int_eq(&self, constraint: &CallWithDefines) -> (r: Option<IntConstraint>)
        ensures
            r is Some <==> int_setup_ok(IntKind::IntEq, constraint.call@, self.array_map(), self.register_map()),
            r matches Some(p) ==> int_compiled(IntKind::IntEq, p, constraint.call@, self.array_map(), self.register_map()),
    {
        self.compile(IntKind::IntEq, &constraint.call)
    }

    /// Compiles an `int_eq_reif` constraint: `r <-> a = b`; the violation is `|a - b|` when `r` is
    /// true and `a != b`, `1` when `r` is false and `a = b`, `0` otherwise.
    ///
    /// `None` when the constraint cannot be compiled (see [`int_setup_ok`]).
    pub fn int_eq_reif(&self, constraint: &CallWithDefines) -> (r: Option<IntConstraint>)
        ensures
            r is Some <==> int_setup_ok(IntKind::IntEqReif, constraint.call@, self.array_map(), self.register_map()),
            r matches Some(p) ==> int_compiled(IntKind::IntEqReif, p, constraint.call@, self.array_map(), self.register_map()),
    {
        self.compile(IntKind::IntEqReif, &constraint.call)
    }

    /// Compiles an `int_le` constraint: `a <= b`; the violation is `a - b` when `a > b`.
    ///
    /// `None` when the constraint cannot be compiled (see [`int_setup_ok`]).
    pub fn int_le(&self, constraint: &CallWithDefines) -> (r: Option<IntConstraint>)
        ensures
            r is Some <==> int_setup_ok(IntKind::IntLe, constraint.call@, self.array_map(), self.register_map()),
            r matches Some(p) ==> int_compiled(IntKind::IntLe, p, constraint.call@, self.array_map(), self.register_map()),
    {
        self.compile(IntKind::IntLe, &constraint.call)
    }

    /// Compiles an `int_le_reif` constraint: `r <-> a <= b`; the violation is `1` when `r` disagrees.
    ///
    /// `None` when the constraint cannot be compiled (see [`int_setup_ok`]).
    pub fn int_le_reif(&self, constraint: &CallWithDefines) -> (r: Option<IntConstraint>)
        ensures
            r is Some <==> int_setup_ok(IntKind::IntLeReif, constraint.call@, self.array_map(), self.register_map()),
            r matches Some(p) ==> int_compiled(IntKind::IntLeReif, p, constraint.call@, self.array_map(), self.register_map()),
    {
        self.compile(IntKind::IntLeReif, &constraint.call)
    }

    /// Compiles an `int_lin_eq` constraint: `sum(coeff[i] * x[i]) = constant`; the violation is the absolute difference.
    ///
    /// `None` when the constraint cannot be compiled (see [`int_setup_ok`]).
    pub fn int_lin_eq(&self, constraint: &CallWithDefines) -> (r: Option<IntConstraint>)
        ensures
            r is Some <==> int_setup_ok(IntKind::IntLinEq, constraint.call@, self.array_map(), self.register_map()),
            r matches Some(p) ==> int_compiled(IntKind::IntLinEq, p, constraint.call@, self.array_map(), self.register_map()),
    {
        self.compile(IntKind::IntLinEq, &constraint.call)
    }

    /// Compiles an `int_lin_eq_reif` constraint: `r <-> sum(coeff[i] * x[i]) = constant`; the violation is `1` when `r` disagrees.
    ///
    /// `None` when the constraint cannot be compiled (see [`int_setup_ok`]).
    pub fn int_lin_eq_reif(&self, constraint: &CallWithDefines) -> (r: Option<IntConstraint>)
        ensures
            r is Some <==> int_setup_ok(IntKind::IntLinEqReif, constraint.call@, self.array_map(), self.register_map()),
            r matches Some(p) ==> int_compiled(IntKind::IntLinEqReif, p, constraint.call@, self.array_map(), self.register_map()),
    {
        self.compile(IntKind::IntLinEqReif, &constraint.call)
    }

    /// Compiles an `int_lin_le` constraint: `sum(coeff[i] * x[i]) <= constant`; the violation is the excess.
    ///
    /// `None` when the constraint cannot be compiled (see [`int_setup_ok`]).
    pub fn int_lin_le(&self, constraint: &CallWithDefines) -> (r: Option<IntConstraint>)
        ensures
            r is Some <==> int_setup_ok(IntKind::IntLinLe, constraint.call@, self.array_map(), self.register_map()),
            r matches Some(p) ==> int_compiled(IntKind::IntLinLe, p, constraint.call@, self.array_map(), self.register_map()),
    {
        self.compile(IntKind::IntLinLe, &constraint.call)
    }

    /// Compiles an `int_lin_le_reif` constraint: `r <-> sum(coeff[i] * x[i]) <= constant`; the violation is `1` when `r` disagrees.
    ///
    /// `None` when the constraint cannot be compiled (see [`int_setup_ok`]).
    pub fn int_lin_le_reif(&self, constraint: &CallWithDefines) -> (r: Option<IntConstraint>)
        ensures
            r is Some <==> int_setup_ok(IntKind::IntLinLeReif, constraint.call@, self.array_map(), self.register_map()),
            r matches Some(p) ==> int_compiled(IntKind::IntLinLeReif, p, constraint.call@, self.array_map(), self.register_map()),
    {
        self.compile(IntKind::IntLinLeReif, &constraint.call)
    }

    /// Compiles an `int_lin_ne` constraint: `sum(coeff[i] * x[i]) != constant`; the violation is `1` when equal.
    ///
    /// `None` when the constraint cannot be compiled (see [`int_setup_ok`]).
    pub fn int_lin_ne(&self, constraint: &CallWithDefines) -> (r: Option<IntConstraint>)
        ensures
            r is Some <==> int_setup_ok(IntKind::IntLinNe, constraint.call@, self.array_map(), self.register_map()),
            r matches Some(p) ==> int_compiled(IntKind::IntLinNe, p, constraint.call@, self.array_map(), self.register_map()),
    {
        self.compile(IntKind::IntLinNe, &constraint.call)
    }

    /// Compiles an `int_lin_ne_reif` constraint: `r <-> sum(coeff[i] * x[i]) != constant`; the violation is `1` when `r` disagrees.
    ///
    /// `None` when the constraint cannot be compiled (see [`int_setup_ok`]).
    pub fn int_lin_ne_reif(&self, constraint: &CallWithDefines) -> (r: Option<IntConstraint>)
        ensures
            r is Some <==> int_setup_ok(IntKind::IntLinNeReif, constraint.call@, self.array_map(), self.register_map()),
            r matches Some(p) ==> int_compiled(IntKind::IntLinNeReif, p, constraint.call@, self.array_map(), self.register_map()),
    {
        self.compile(IntKind::IntLinNeReif, &constraint.call)
    }

    /// Compiles an `int_lt` constraint: `a < b`; the violation is `a - b + 1` when `a >= b`.
    ///
    /// `None` when the constraint cannot be compiled (see [`int_setup_ok`]).
    pub fn int_lt(&self, constraint: &CallWithDefines) -> (r: Option<IntConstraint>)
        ensures
            r is Some <==> int_setup_ok(IntKind::IntLt, constraint.call@, self.array_map(), self.register_map()),
            r matches Some(p) ==> int_compiled(IntKind::IntLt, p, constraint.call@, self.array_map(), self.register_map()),
    {
        self.compile(IntKind::IntLt, &constraint.call)
    }

    /// Compiles an `int_lt_reif` constraint: `r <-> a < b`; the violation is `1` when `r` disagrees.
    ///
    /// `None` when the constraint cannot be compiled (see [`int_setup_ok`]).
    pub fn int_lt_reif(&self, constraint: &CallWithDefines) -> (r: Option<IntConstraint>)
        ensures
            r is Some <==> int_setup_ok(IntKind::IntLtReif, constraint.call@, self.array_map(), self.register_map()),
            r matches Some(p) ==> int_compiled(IntKind::IntLtReif, p, constraint.call@, self.array_map(), self.register_map()),
    {
        self.compile(IntKind::IntLtReif, &constraint.call)
    }

    /// Compiles an `int_max` constraint: `c = max(a, b)`; the violation is `|c - max(a, b)|`.
    ///
    /// `None` when the constraint cannot be compiled (see [`int_setup_ok`]).
    pub fn int_max(&self, constraint: &CallWithDefines) -> (r: Option<IntConstraint>)
        ensures
            r is Some <==> int_setup_ok(IntKind::IntMax, constraint.call@, self.array_map(), self.register_map()),
            r matches Some(p) ==> int_compiled(IntKind::IntMax, p, constraint.call@, self.array_map(), self.register_map()),
    {
        self.compile(IntKind::IntMax, &constraint.call)
    }

    /// Compiles an `int_min` constraint: `c = min(a, b)`; the violation is `|c - min(a, b)|`.
    ///
    /// `None` when the constraint cannot be compiled (see [`int_setup_ok`]).
    pub fn int_min(&self, constraint: &CallWithDefines) -> (r: Option<IntConstraint>)
        ensures
            r is Some <==> int_setup_ok(IntKind::IntMin, constraint.call@, self.array_map(), self.register_map()),
            r matches Some(p) ==> int_compiled(IntKind::IntMin, p, constraint.call@, self.array_map(), self.register_map()),
    {
        self.compile(IntKind::IntMin, &constraint.call)
    }

    /// Compiles an `int_mod` constraint: `c = a % b` (sign of `a`); the violation is `|c - a % b|`,
    /// and `1` when `b = 0` (no `c` satisfies it then).
    ///
    /// `None` when the constraint cannot be compiled (see [`int_setup_ok`]).
    pub fn int_mod(&self, constraint: &CallWithDefines) -> (r: Option<IntConstraint>)
        ensures
            r is Some <==> int_setup_ok(IntKind::IntMod, constraint.call@, self.array_map(), self.register_map()),
            r matches Some(p) ==> int_compiled(IntKind::IntMod, p, constraint.call@, self.array_map(), self.register_map()),
    {
        self.compile(IntKind::IntMod, &constraint.call)
    }

    /// Compiles an `int_ne` constraint: `a != b`; the violation is `1` when equal.
    ///
    /// `None` when the constraint cannot be compiled (see [`int_setup_ok`]).
    pub fn int_ne(&self, constraint: &CallWithDefines) -> (r: Option<IntConstraint>)
        ensures
            r is Some <==> int_setup_ok(IntKind::IntNe, constraint.call@, self.array_map(), self.register_map()),
            r matches Some(p) ==> int_compiled(IntKind::IntNe, p, constraint.call@, self.array_map(), self.register_map()),
    {
        self.compile(IntKind::IntNe, &constraint.call)
    }

    /// Compiles an `int_ne_reif` constraint: `r <-> a != b`; the violation is `1` when `r` disagrees.
    ///
    /// `None` when the constraint cannot be compiled (see [`int_setup_ok`]).
    pub fn int_ne_reif(&self, constraint: &CallWithDefines) -> (r: Option<IntConstraint>)
        ensures
            r is Some <==> int_setup_ok(IntKind::IntNeReif, constraint.call@, self.array_map(), self.register_map()),
            r matches Some(p) ==> int_compiled(IntKind::IntNeReif, p, constraint.call@, self.array_map(), self.register_map()),
    {
        self.compile(IntKind::IntNeReif, &constraint.call)
    }

    /// Compiles an `int_pow` constraint: `c = a ^ b`; the violation is `|c - a ^ b|`, and `1` for
    /// a negative exponent (no integer power is defined then).
    ///
    /// `None` when the constraint cannot be compiled (see [`int_setup_ok`]).
    pub fn int_pow(&self, constraint: &CallWithDefines) -> (r: Option<IntConstraint>)
        ensures
            r is Some <==> int_setup_ok(IntKind::IntPow, constraint.call@, self.array_map(), self.register_map()),
            r matches Some(p) ==> int_compiled(IntKind::IntPow, p, constraint.call@, self.array_map(), self.register_map()),
    {
        self.compile(IntKind::IntPow, &constraint.call)
    }

    /// Compiles an `int_times` constraint: `c = a * b`; the violation is `|c - a * b|`.
    ///
    /// `None` when the constraint cannot be compiled (see [`int_setup_ok`]).
    pub fn int_times(&self, constraint: &CallWithDefines) -> (r: Option<IntConstraint>)
        ensures
            r is Some <==> int_setup_ok(IntKind::IntTimes, constraint.call@, self.array_map(), self.register_map()),
            r matches Some(p) ==> int_compiled(IntKind::IntTimes, p, constraint.call@, self.array_map(), self.register_map()),
    {
        self.compile(IntKind::IntTimes, &constraint.call)
    }
}

/// What the compiled constraint states of a solution whose operands all read, in the
/// FlatZinc meaning of the constraint.
pub open spec fn int_holds(p: IntConstraint, sol: Seq<VariableValueV>) -> bool {
    match p {
        IntConstraint::ArrayElement { index, array, value } => {
            let pos = int_read(sol, index)->0 as usize;
            array@[pos as int] == int_read(sol, value)->0
        },
        IntConstraint::ArrayVarElement { index, array, value } => {
            let pos = int_read(sol, index)->0 as usize;
            int_read(sol, array@[pos as int]->0)->0 == int_read(sol, value)->0
        },
        IntConstraint::Abs { a, b } => {
            let x = int_term_value(a, sol)->0;
            int_term_value(b, sol)->0 == (if x < 0 { -x } else { x as int })
        },
        IntConstraint::Div { a, b, c } => {
            let y = int_term_value(b, sol)->0;
            y != 0 && int_term_value(c, sol)->0 == trunc_div(int_term_value(a, sol)->0 as int, y as int)
        },
        IntConstraint::Eq { a, b } => int_term_value(a, sol)->0 == int_term_value(b, sol)->0,
        IntConstraint::EqReif { a, b, r } => bool_term_value(r, sol)->0 == (int_term_value(a, sol)->0
            == int_term_value(b, sol)->0),
        IntConstraint::Le { a, b } => int_term_value(a, sol)->0 <= int_term_value(b, sol)->0,
        IntConstraint::LeReif { a, b, r } => bool_term_value(r, sol)->0 == (int_term_value(a, sol)->0
            <= int_term_value(b, sol)->0),
        IntConstraint::LinEq { coeff, registers, constant } => lin_value(coeff@, registers@, sol)->0
            == constant,
        IntConstraint::LinEqReif { coeff, registers, constant, r } => bool_term_value(r, sol)->0 == (
        lin_value(coeff@, registers@, sol)->0 == constant),
        IntConstraint::LinLe { coeff, registers, constant } => lin_value(coeff@, registers@, sol)->0
            <= constant,
        IntConstraint::LinLeReif { coeff, registers, constant, r } => bool_term_value(r, sol)->0 == (
        lin_value(coeff@, registers@, sol)->0 <= constant),
        IntConstraint::LinNe { coeff, registers, constant } => lin_value(coeff@, registers@, sol)->0
            != constant,
        IntConstraint::LinNeReif { coeff, registers, constant, r } => bool_term_value(r, sol)->0 == (
        lin_value(coeff@, registers@, sol)->0 != constant),
        IntConstraint::Lt { a, b } => int_term_value(a, sol)->0 < int_term_value(b, sol)->0,
        IntConstraint::LtReif { a, b, r } => bool_term_value(r, sol)->0 == (int_term_value(a, sol)->0
            < int_term_value(b, sol)->0),
        IntConstraint::Max { a, b, c } => {
            let x = int_term_value(a, sol)->0;
            let y = int_term_value(b, sol)->0;
            int_term_value(c, sol)->0 == (if x >= y { x } else { y })
        },
        IntConstraint::Min { a, b, c } => {
            let x = int_term_value(a, sol)->0;
            let y = int_term_value(b, sol)->0;
            int_term_value(c, sol)->0 == (if x <= y { x } else { y })
        },
        IntConstraint::Mod { a, b, c } => {
            let y = int_term_value(b, sol)->0;
            y != 0 && int_term_value(c, sol)->0 == trunc_rem(int_term_value(a, sol)->0 as int, y as int)
        },
        IntConstraint::Ne { a, b } => int_term_value(a, sol)->0 != int_term_value(b, sol)->0,
        IntConstraint::NeReif { a, b, r } => bool_term_value(r, sol)->0 == (int_term_value(a, sol)->0
            != int_term_value(b, sol)->0),
        IntConstraint::Pow { a, b, c } => {
            let y = int_term_value(b, sol)->0;
            y >= 0 && int_term_value(c, sol)->0 == int_pow(int_term_value(a, sol)->0 as int, y as nat)
        },
        IntConstraint::Times { a, b, c } => int_term_value(c, sol)->0 == int_term_value(a, sol)->0
            * int_term_value(b, sol)->0,
    }
}

/// A compiled integer constraint has violation zero exactly when the solution
/// satisfies it, wherever the evaluation succeeds.
pub proof fn lemma_int_violation_zero_iff_holds(p: IntConstraint, sol: Seq<VariableValueV>)
    requires
        int_violation(p, sol) is Some,
    ensures
        int_violation(p, sol) == Some(0int) <==> int_holds(p, sol),
{
}

} // verus!
