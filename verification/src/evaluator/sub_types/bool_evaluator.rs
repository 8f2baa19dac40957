use crate::args_extractor::args_extractor::{
    all_identifiers, bool_array_ok, collect, identifier_of, lin_var_names, names_matching,
    strings_view, term_at,
};
use crate::args_extractor::sub_types::bool_args_extractor::BoolArgsExtractor;
use crate::data_utility::model::{
    literals_view, ModelArray, CallWithDefines, ModelConstraint, ModelConstraintV, ModelLiteral, ModelLiteralV,
};
use crate::data_utility::types::{values_view, Register, VariableValue, VariableValueV};
use crate::evaluator::terms::{
    all_registered, bool_read, bool_term_of, bool_term_value, bool_value, check_positions, flag,
    identifier_literals, int_read, int_term_of, int_term_value, int_value, lookup_registers, named_at,
    named_register, named_register_of, optional_registers, optional_registers_of, positions_fit,
    read_bool, read_int, registers_of, resolve_bool_term, resolve_int_term, same_outcome, BoolTerm,
    IntTerm,
};
use vstd::hash_map::StringHashMap;
use vstd::prelude::*;

verus! {

broadcast use vstd::std_specs::hash::group_hash_axioms;

pub const A_TERM_INDEX: i64 = 0;
pub const B_TERM_INDEX: i64 = 1;
pub const C_TERM_INDEX: i64 = 2;
pub const AS_ARRAY_INDEX: i64 = 0;
pub const BS_ARRAY_INDEX: i64 = 1;
pub const R_TERM_INDEX: i64 = 1;
pub const COEFF_LIN_CONSTR_INDEX: usize = 0;

/// The boolean constraints of FlatZinc that [`BoolEvaluator`] compiles.
#[derive(Debug, Clone, Copy, PartialEq, Eq, Structural)]
pub enum BoolKind {
    ArrayBoolAnd,
    ArrayBoolElement,
    ArrayVarBoolElement,
    ArrayBoolXor,
    BoolAnd,
    BoolClause,
    BoolEq,
    BoolEqReif,
    BoolLe,
    BoolLeReif,
    BoolLinEq,
    BoolLinLe,
    BoolLt,
    BoolLtReif,
    BoolNot,
    BoolOr,
    BoolXor,
    Bool2Int,
}

/// A compiled boolean constraint: its operands resolved to registers and constants.
#[derive(Debug)]
pub enum BoolConstraint {
    /// `r <-> (as[0] /\ as[1] /\ ...)`.
    ArrayAnd { vars: Vec<Register>, r: BoolTerm },
    /// `array[index] = value` over a constant array of booleans.
    ArrayElement { index: Register, array: Vec<bool>, value: Register },
    /// `array[index] = value` over an array of boolean variables; `None` stands for a
    /// variable without a register.
    ArrayVarElement { index: Register, array: Vec<Option<Register>>, value: Register },
    /// An odd number of `as` hold.
    ArrayXor { vars: Vec<Register> },
    /// `c <-> a /\ b`.
    And { a: BoolTerm, b: BoolTerm, c: BoolTerm },
    /// Some value of `as` (`pos`) is true or some value of `bs` (`neg`) is false.
    Clause { pos: Vec<Register>, neg: Vec<Register> },
    /// `a = b`.
    Eq { a: BoolTerm, b: BoolTerm },
    /// `c <-> a = b`.
    EqReif { a: BoolTerm, b: BoolTerm, c: BoolTerm },
    /// `a <= b` (false < true).
    Le { a: BoolTerm, b: BoolTerm },
    /// `c <-> a <= b`.
    LeReif { a: BoolTerm, b: BoolTerm, c: BoolTerm },
    /// The number of positions where both `as[i]` and `bs[i]` hold equals `constant`.
    LinEq { left: Vec<Register>, right: Vec<Register>, constant: i64 },
    /// The number of positions where both `as[i]` and `bs[i]` hold is at most `constant`.
    LinLe { left: Vec<Register>, right: Vec<Register>, constant: i64 },
    /// `a < b`.
    Lt { a: BoolTerm, b: BoolTerm },
    /// `c <-> a < b`.
    LtReif { a: BoolTerm, b: BoolTerm, c: BoolTerm },
    /// `a != b`.
    Not { a: BoolTerm, b: BoolTerm },
    /// `c <-> a \/ b`.
    Or { a: BoolTerm, b: BoolTerm, c: BoolTerm },
    /// `c <-> a xor b`.
    Xor { a: BoolTerm, b: BoolTerm, c: BoolTerm },
    /// `b = (1 if a else 0)`.
    ToInt { a: BoolTerm, b: IntTerm },
}

/// Every register of the list holds a boolean.
pub open spec fn all_bools(regs: Seq<Register>, sol: Seq<VariableValueV>) -> bool {
    forall|i: int| 0 <= i < regs.len() ==> #[trigger] bool_read(sol, regs[i]) is Some
}

/// The booleans held by a list of registers.
pub open spec fn bools_of(regs: Seq<Register>, sol: Seq<VariableValueV>) -> Seq<bool> {
    Seq::new(regs.len(), |i: int| bool_read(sol, regs[i])->0)
}

/// Every boolean of the list is true.
pub open spec fn all_true(v: Seq<bool>) -> bool {
    forall|i: int| 0 <= i < v.len() ==> #[trigger] v[i]
}

/// Some boolean of the list is true.
pub open spec fn some_true(v: Seq<bool>) -> bool {
    exists|i: int| 0 <= i < v.len() && #[trigger] v[i]
}

/// The exclusive or of a list of booleans, folded from `false`.
pub open spec fn xor_all(v: Seq<bool>) -> bool
    decreases v.len(),
{
    if v.len() == 0 {
        false
    } else {
        xor_all(v.drop_last()) != v.last()
    }
}

/// The number of positions, among the first `n`, where both lists hold true.
pub open spec fn count_both(a: Seq<bool>, b: Seq<bool>, n: nat) -> int
    decreases n,
{
    if n == 0 {
        0
    } else {
        count_both(a, b, (n - 1) as nat) + (if a[n - 1] && b[n - 1] { 1int } else { 0int })
    }
}

/// The number of positions where both lists hold true, up to the shorter list.
pub open spec fn both_true_count(a: Seq<bool>, b: Seq<bool>) -> int {
    count_both(a, b, if a.len() <= b.len() { a.len() } else { b.len() })
}

/// The violation of a compiled boolean constraint in a solution, as the evaluation
/// computes it (`0` or `1`); `None` where the evaluation fails.
pub open spec fn bool_violation(p: BoolConstraint, sol: Seq<VariableValueV>) -> Option<int> {
    match p {
        BoolConstraint::ArrayAnd { vars, r } => {
            if all_bools(vars@, sol) {
                match bool_term_value(r, sol) {
                    Some(z) => Some(flag(all_true(bools_of(vars@, sol)) != z)),
                    None => None,
                }
            } else {
                None
            }
        },
        BoolConstraint::ArrayElement { index, array, value } => {
            match (int_read(sol, index), bool_read(sol, value)) {
                (Some(i), Some(v)) => {
                    let pos = i as usize;
                    if pos < array@.len() {
                        Some(flag(v != array@[pos as int]))
                    } else {
                        None
                    }
                },
                _ => None,
            }
        },
        BoolConstraint::ArrayVarElement { index, array, value } => {
            match int_read(sol, index) {
                Some(i) => {
                    let pos = i as usize;
                    if pos < array@.len() {
                        match array@[pos as int] {
                            Some(reg) => match (bool_read(sol, reg), bool_read(sol, value)) {
                                (Some(x), Some(v)) => Some(flag(v != x)),
                                _ => None,
                            },
                            None => None,
                        }
                    } else {
                        None
                    }
                },
                None => None,
            }
        },
        BoolConstraint::ArrayXor { vars } => {
            if all_bools(vars@, sol) {
                Some(flag(!xor_all(bools_of(vars@, sol))))
            } else {
                None
            }
        },
        BoolConstraint::And { a, b, c } => match (
            bool_term_value(a, sol),
            bool_term_value(b, sol),
            bool_term_value(c, sol),
        ) {
            (Some(x), Some(y), Some(z)) => Some(flag(z != (x && y))),
            _ => None,
        },
        BoolConstraint::Clause { pos, neg } => {
            if all_bools(pos@, sol) && all_bools(neg@, sol) {
                Some(flag(!some_true(bools_of(pos@, sol)) && all_true(bools_of(neg@, sol))))
            } else {
                None
            }
        },
        BoolConstraint::Eq { a, b } => match (bool_term_value(a, sol), bool_term_value(b, sol)) {
            (Some(x), Some(y)) => Some(flag(x != y)),
            _ => None,
        },
        BoolConstraint::EqReif { a, b, c } => match (
            bool_term_value(a, sol),
            bool_term_value(b, sol),
            bool_term_value(c, sol),
        ) {
            (Some(x), Some(y), Some(z)) => Some(flag(z != (x == y))),
            _ => None,
        },
        BoolConstraint::Le { a, b } => match (bool_term_value(a, sol), bool_term_value(b, sol)) {
            (Some(x), Some(y)) => Some(flag(x && !y)),
            _ => None,
        },
        BoolConstraint::LeReif { a, b, c } => match (
            bool_term_value(a, sol),
            bool_term_value(b, sol),
            bool_term_value(c, sol),
        ) {
            (Some(x), Some(y), Some(z)) => Some(flag(z != (!x || y))),
            _ => None,
        },
        BoolConstraint::LinEq { left, right, constant } => {
            if all_bools(left@, sol) && all_bools(right@, sol) {
                Some(flag(both_true_count(bools_of(left@, sol), bools_of(right@, sol)) != constant))
            } else {
                None
            }
        },
        BoolConstraint::LinLe { left, right, constant } => {
            if all_bools(left@, sol) && all_bools(right@, sol) {
                Some(flag(both_true_count(bools_of(left@, sol), bools_of(right@, sol)) > constant))
            } else {
                None
            }
        },
        BoolConstraint::Lt { a, b } => match (bool_term_value(a, sol), bool_term_value(b, sol)) {
            (Some(x), Some(y)) => Some(flag(x || !y)),
            _ => None,
        },
        BoolConstraint::LtReif { a, b, c } => match (
            bool_term_value(a, sol),
            bool_term_value(b, sol),
            bool_term_value(c, sol),
        ) {
            (Some(x), Some(y), Some(z)) => Some(flag(z != (!x && y))),
            _ => None,
        },
        BoolConstraint::Not { a, b } => match (bool_term_value(a, sol), bool_term_value(b, sol)) {
            (Some(x), Some(y)) => Some(flag(x == y)),
            _ => None,
        },
        BoolConstraint::Or { a, b, c } => match (
            bool_term_value(a, sol),
            bool_term_value(b, sol),
            bool_term_value(c, sol),
        ) {
            (Some(x), Some(y), Some(z)) => Some(flag(z != (x || y))),
            _ => None,
        },
        BoolConstraint::Xor { a, b, c } => match (
            bool_term_value(a, sol),
            bool_term_value(b, sol),
            bool_term_value(c, sol),
        ) {
            (Some(x), Some(y), Some(z)) => Some(flag(z != (x != y))),
            _ => None,
        },
        BoolConstraint::ToInt { a, b } => match (bool_term_value(a, sol), int_term_value(b, sol)) {
            (Some(x), Some(y)) => Some(flag(flag(x) != y)),
            _ => None,
        },
    }
}

/// Reads the booleans held by a list of registers.
pub fn read_bools(regs: &Vec<Register>, solution: &[VariableValue]) -> (r: Option<Vec<bool>>)
    ensures
        match r {
            Some(v) => all_bools(regs@, values_view(solution@)) && v@ == bools_of(regs@, values_view(solution@)),
            None => !all_bools(regs@, values_view(solution@)),
        },
{
    let ghost sol = values_view(solution@);
    let mut out: Vec<bool> = Vec::with_capacity(regs.len());
    for i in 0..regs.len()
        invariant
            sol == values_view(solution@),
            all_bools(regs@.take(i as int), sol),
            out@ == bools_of(regs@.take(i as int), sol),
    {
        match read_bool(solution, regs[i]) {
            Some(b) => {
                out.push(b);
                proof {
                    let t = regs@.take(i + 1);
                    assert forall|j: int| 0 <= j < t.len() implies #[trigger] bool_read(sol, t[j]) is Some by {
                        if j < i {
                            assert(t[j] == regs@.take(i as int)[j]);
                        }
                    }
                    assert(out@ =~= bools_of(t, sol));
                }
            },
            None => {
                return None;
            },
        }
    }
    proof {
        assert(regs@.take(regs.len() as int) =~= regs@);
    }
    Some(out)
}

/// Whether every boolean of the list is true.
fn all_true_of(v: &Vec<bool>) -> (r: bool)
    ensures
        r == all_true(v@),
{
    for i in 0..v.len()
        invariant
            forall|j: int| 0 <= j < i ==> #[trigger] v@[j],
    {
        if !v[i] {
            return false;
        }
    }
    true
}

/// Whether some boolean of the list is true.
fn some_true_of(v: &Vec<bool>) -> (r: bool)
    ensures
        r == some_true(v@),
{
    for i in 0..v.len()
        invariant
            forall|j: int| 0 <= j < i ==> !(#[trigger] v@[j]),
    {
        if v[i] {
            return true;
        }
    }
    false
}

/// The exclusive or of a list of booleans.
fn xor_of(v: &Vec<bool>) -> (r: bool)
    ensures
        r == xor_all(v@),
{
    let mut acc = false;
    for i in 0..v.len()
        invariant
            acc == xor_all(v@.take(i as int)),
    {
        proof {
            assert(v@.take(i + 1).drop_last() =~= v@.take(i as int));
        }
        acc = acc ^ v[i];
    }
    proof {
        assert(v@.take(v.len() as int) =~= v@);
    }
    acc
}

/// The number of positions where both lists hold true, up to the shorter list.
fn both_true_count_of(a: &Vec<bool>, b: &Vec<bool>) -> (r: u64)
    ensures
        r == both_true_count(a@, b@),
{
    let n = if a.len() <= b.len() { a.len() } else { b.len() };
    let mut count: u64 = 0;
    for i in 0..n
        invariant
            n == (if a@.len() <= b@.len() { a@.len() } else { b@.len() }),
            count == count_both(a@, b@, i as nat),
            count <= i,
    {
        if a[i] && b[i] {
            count = count + 1;
        }
    }
    count
}

/// `1` when `b` holds, `0` otherwise, as a violation.
fn flag_amount(b: bool) -> (r: u64)
    ensures
        r == flag(b),
{
    if b { 1 } else { 0 }
}

impl BoolConstraint {
    /// The violation of the constraint in `solution` (see [`bool_violation`]): `0`
    /// when the constraint holds, `1` otherwise; `None` where the evaluation fails.
    pub fn violation(&self, solution: &[VariableValue]) -> (r: Option<u64>)
        ensures
            same_outcome(r, bool_violation(*self, values_view(solution@))),
    {
        match self {
            BoolConstraint::ArrayAnd { vars, r } => {
                let values = read_bools(vars, solution)?;
                let z = bool_value(*r, solution)?;
                Some(flag_amount(all_true_of(&values) != z))
            },
            BoolConstraint::ArrayElement { index, array, value } => {
                let i = read_int(solution, *index)?;
                let v = read_bool(solution, *value)?;
                let pos = i as usize;
                if pos < array.len() {
                    Some(flag_amount(v != array[pos]))
                } else {
                    None
                }
            },
            BoolConstraint::ArrayVarElement { index, array, value } => {
                let i = read_int(solution, *index)?;
                let pos = i as usize;
                if pos < array.len() {
                    match array[pos] {
                        Some(reg) => {
                            let x = read_bool(solution, reg)?;
                            let v = read_bool(solution, *value)?;
                            Some(flag_amount(v != x))
                        },
                        None => None,
                    }
                } else {
                    None
                }
            },
            BoolConstraint::ArrayXor { vars } => {
                let values = read_bools(vars, solution)?;
                Some(flag_amount(!xor_of(&values)))
            },
            BoolConstraint::And { a, b, c } => {
                let x = bool_value(*a, solution)?;
                let y = bool_value(*b, solution)?;
                let z = bool_value(*c, solution)?;
                Some(flag_amount(z != (x && y)))
            },
            BoolConstraint::Clause { pos, neg } => {
                let ps = read_bools(pos, solution)?;
                let ns = read_bools(neg, solution)?;
                Some(flag_amount(!some_true_of(&ps) && all_true_of(&ns)))
            },
            BoolConstraint::Eq { a, b } => {
                let x = bool_value(*a, solution)?;
                let y = bool_value(*b, solution)?;
                Some(flag_amount(x != y))
            },
            BoolConstraint::EqReif { a, b, c } => {
                let x = bool_value(*a, solution)?;
                let y = bool_value(*b, solution)?;
                let z = bool_value(*c, solution)?;
                Some(flag_amount(z != (x == y)))
            },
            BoolConstraint::Le { a, b } => {
                let x = bool_value(*a, solution)?;
                let y = bool_value(*b, solution)?;
                Some(flag_amount(x && !y))
            },
            BoolConstraint::LeReif { a, b, c } => {
                let x = bool_value(*a, solution)?;
                let y = bool_value(*b, solution)?;
                let z = bool_value(*c, solution)?;
                Some(flag_amount(z != (!x || y)))
            },
            BoolConstraint::LinEq { left, right, constant } => {
                let ls = read_bools(left, solution)?;
                let rs = read_bools(right, solution)?;
                let count = both_true_count_of(&ls, &rs);
                Some(flag_amount(*constant < 0 || count != *constant as u64))
            },
            BoolConstraint::LinLe { left, right, constant } => {
                let ls = read_bools(left, solution)?;
                let rs = read_bools(right, solution)?;
                let count = both_true_count_of(&ls, &rs);
                Some(flag_amount(*constant < 0 || count > *constant as u64))
            },
            BoolConstraint::Lt { a, b } => {
                let x = bool_value(*a, solution)?;
                let y = bool_value(*b, solution)?;
                Some(flag_amount(x || !y))
            },
            BoolConstraint::LtReif { a, b, c } => {
                let x = bool_value(*a, solution)?;
                let y = bool_value(*b, solution)?;
                let z = bool_value(*c, solution)?;
                Some(flag_amount(z != (!x && y)))
            },
            BoolConstraint::Not { a, b } => {
                let x = bool_value(*a, solution)?;
                let y = bool_value(*b, solution)?;
                Some(flag_amount(x == y))
            },
            BoolConstraint::Or { a, b, c } => {
                let x = bool_value(*a, solution)?;
                let y = bool_value(*b, solution)?;
                let z = bool_value(*c, solution)?;
                Some(flag_amount(z != (x || y)))
            },
            BoolConstraint::Xor { a, b, c } => {
                let x = bool_value(*a, solution)?;
                let y = bool_value(*b, solution)?;
                let z = bool_value(*c, solution)?;
                Some(flag_amount(z != (x != y)))
            },
            BoolConstraint::ToInt { a, b } => {
                let x = bool_value(*a, solution)?;
                let y = int_value(*b, solution)?;
                let xi: i64 = if x { 1 } else { 0 };
                Some(flag_amount(xi != y))
            },
        }
    }
}

/// The value of a boolean literal.
pub open spec fn bool_of(l: ModelLiteralV) -> Option<bool> {
    match l {
        ModelLiteralV::Bool(b) => Some(b),
        _ => None,
    }
}

/// Every literal of the list is a boolean.
pub open spec fn all_bool_literals(ls: Seq<ModelLiteralV>) -> bool {
    forall|k: int| 0 <= k < ls.len() ==> #[trigger] ls[k] is Bool
}

/// The array of boolean variables at argument `index` can be read (see
/// `bool_array_ok`) and all its variables have registers.
pub open spec fn bool_array_registered(
    c: ModelConstraintV,
    index: int,
    arrays: Map<Seq<char>, ModelArray>,
    regs: Map<Seq<char>, Register>,
) -> bool {
    bool_array_ok(c.args, index, arrays) && all_registered(lin_var_names(c.args, index, arrays), regs)
}

/// The registers of the array of boolean variables at argument `index`.
pub open spec fn bool_array_registers(
    c: ModelConstraintV,
    index: int,
    arrays: Map<Seq<char>, ModelArray>,
    regs: Map<Seq<char>, Register>,
) -> Seq<Register> {
    registers_of(lin_var_names(c.args, index, arrays), regs)
}

/// The constraint can be compiled as `kind`: every operand resolves, the arrays hold
/// the right literals, and the variables that must have registers have them.
pub open spec fn bool_setup_ok(
    kind: BoolKind,
    c: ModelConstraintV,
    arrays: Map<Seq<char>, ModelArray>,
    regs: Map<Seq<char>, Register>,
) -> bool {
    match kind {
        BoolKind::ArrayBoolAnd => {
            &&& positions_fit(c)
            &&& bool_array_registered(c, 0, arrays, regs)
            &&& bool_term_of(c, 1, regs) is Some
        },
        BoolKind::ArrayBoolElement | BoolKind::ArrayVarBoolElement => {
            &&& positions_fit(c)
            &&& named_register(c, 0, regs)
            &&& named_at(c, 1) is Some
            &&& arrays.contains_key(named_at(c, 1)->0)
            &&& if kind == BoolKind::ArrayBoolElement {
                all_bool_literals(arrays[named_at(c, 1)->0]@)
            } else {
                all_identifiers(arrays[named_at(c, 1)->0]@)
            }
            &&& named_register(c, 2, regs)
        },
        BoolKind::ArrayBoolXor => bool_array_registered(c, 0, arrays, regs),
        BoolKind::BoolClause => bool_array_registered(c, 0, arrays, regs) && bool_array_registered(
            c,
            1,
            arrays,
            regs,
        ),
        BoolKind::BoolLinEq | BoolKind::BoolLinLe => {
            &&& bool_array_registered(c, 0, arrays, regs)
            &&& bool_array_registered(c, 1, arrays, regs)
            &&& term_at(c, 2) matches Some(ModelLiteralV::Int(_))
        },
        BoolKind::BoolEq | BoolKind::BoolLe | BoolKind::BoolLt | BoolKind::BoolNot => {
            &&& positions_fit(c)
            &&& bool_term_of(c, 0, regs) is Some
            &&& bool_term_of(c, 1, regs) is Some
        },
        BoolKind::Bool2Int => {
            &&& positions_fit(c)
            &&& bool_term_of(c, 0, regs) is Some
            &&& int_term_of(c, 1, regs) is Some
        },
        _ => {
            &&& positions_fit(c)
            &&& bool_term_of(c, 0, regs) is Some
            &&& bool_term_of(c, 1, regs) is Some
            &&& bool_term_of(c, 2, regs) is Some
        },
    }
}

/// `p` is the compilation of `c` as `kind`.
pub open spec fn bool_compiled(
    kind: BoolKind,
    p: BoolConstraint,
    c: ModelConstraintV,
    arrays: Map<Seq<char>, ModelArray>,
    regs: Map<Seq<char>, Register>,
) -> bool {
    let a = bool_term_of(c, 0, regs)->0;
    let b = bool_term_of(c, 1, regs)->0;
    let t = bool_term_of(c, 2, regs)->0;
    match kind {
        BoolKind::ArrayBoolAnd => p matches BoolConstraint::ArrayAnd { vars, r } && vars@
            == bool_array_registers(c, 0, arrays, regs) && r == b,
        BoolKind::ArrayBoolElement => p matches BoolConstraint::ArrayElement { index, array, value }
            && index == regs[named_at(c, 0)->0] && value == regs[named_at(c, 2)->0]
            && array@ == collect(arrays[named_at(c, 1)->0]@, |x: ModelLiteralV| bool_of(x)),
        BoolKind::ArrayVarBoolElement => p matches BoolConstraint::ArrayVarElement {
            index,
            array,
            value,
        } && index == regs[named_at(c, 0)->0] && value == regs[named_at(c, 2)->0] && array@
            == optional_registers(
            collect(arrays[named_at(c, 1)->0]@, |x: ModelLiteralV| identifier_of(x)),
            regs,
        ),
        BoolKind::ArrayBoolXor => p matches BoolConstraint::ArrayXor { vars } && vars@
            == bool_array_registers(c, 0, arrays, regs),
        BoolKind::BoolClause => p matches BoolConstraint::Clause { pos, neg } && pos@
            == bool_array_registers(c, 0, arrays, regs) && neg@ == bool_array_registers(
            c,
            1,
            arrays,
            regs,
        ),
        BoolKind::BoolLinEq => p matches BoolConstraint::LinEq { left, right, constant } && left@
            == bool_array_registers(c, 0, arrays, regs) && right@ == bool_array_registers(
            c,
            1,
            arrays,
            regs,
        ) && term_at(c, 2) == Some(ModelLiteralV::Int(constant)),
        BoolKind::BoolLinLe => p matches BoolConstraint::LinLe { left, right, constant } && left@
            == bool_array_registers(c, 0, arrays, regs) && right@ == bool_array_registers(
            c,
            1,
            arrays,
            regs,
        ) && term_at(c, 2) == Some(ModelLiteralV::Int(constant)),
        BoolKind::BoolAnd => p == BoolConstraint::And { a, b, c: t },
        BoolKind::BoolEq => p == BoolConstraint::Eq { a, b },
        BoolKind::BoolEqReif => p == BoolConstraint::EqReif { a, b, c: t },
        BoolKind::BoolLe => p == BoolConstraint::Le { a, b },
        BoolKind::BoolLeReif => p == BoolConstraint::LeReif { a, b, c: t },
        BoolKind::BoolLt => p == BoolConstraint::Lt { a, b },
        BoolKind::BoolLtReif => p == BoolConstraint::LtReif { a, b, c: t },
        BoolKind::BoolNot => p == BoolConstraint::Not { a, b },
        BoolKind::BoolOr => p == BoolConstraint::Or { a, b, c: t },
        BoolKind::BoolXor => p == BoolConstraint::Xor { a, b, c: t },
        BoolKind::Bool2Int => p == BoolConstraint::ToInt { a, b: int_term_of(c, 1, regs)->0 },
    }
}

/// Whether every literal of the list is a boolean, and their values.
fn bool_literals(lits: &Vec<ModelLiteral>) -> (r: Option<Vec<bool>>)
    ensures
        match r {
            Some(v) => all_bool_literals(literals_view(lits@)) && v@ == collect(
                literals_view(lits@),
                |x: ModelLiteralV| bool_of(x),
            ),
            None => !all_bool_literals(literals_view(lits@)),
        },
{
    let ghost ls = literals_view(lits@);
    let ghost f = |x: ModelLiteralV| bool_of(x);
    let mut out: Vec<bool> = Vec::new();
    for j in 0..lits.len()
        invariant
            ls == literals_view(lits@),
            f == (|x: ModelLiteralV| bool_of(x)),
            all_bool_literals(ls.take(j as int)),
            out@ == collect(ls.take(j as int), f),
    {
        proof {
            crate::args_extractor::args_extractor::lemma_collect_step(ls, j as int, f);
        }
        match &lits[j] {
            ModelLiteral::Bool(b) => {
                out.push(*b);
            },
            _ => {
                proof {
                    assert(!(ls[j as int] is Bool));
                }
                return None;
            },
        }
        proof {
            assert forall|k: int| 0 <= k < j + 1 implies #[trigger] ls.take(j + 1)[k] is Bool by {
                if k < j {
                    assert(ls.take(j + 1)[k] == ls.take(j as int)[k]);
                }
            }
        }
    }
    proof {
        assert(ls.take(lits.len() as int) =~= ls);
    }
    Some(out)
}

/// Evaluates boolean constraints of a FlatZinc model against solutions held in
/// registers.
pub struct BoolEvaluator {
    /// The named arrays of the model.
    arrays: StringHashMap<ModelArray>,
    /// The register of each variable of the model.
    variable_register_map: StringHashMap<Register>,
    /// Extracts boolean arguments from constraints.
    args_extractor: BoolArgsExtractor,
    /// Whether violated constraints are to be reported.
    verbose: bool,
}

impl BoolEvaluator {
    /// The named arrays the evaluator resolves array arguments with.
    pub closed spec fn array_map(&self) -> Map<Seq<char>, ModelArray> {
        self.arrays@
    }

    /// The register of each variable.
    pub closed spec fn register_map(&self) -> Map<Seq<char>, Register> {
        self.variable_register_map@
    }

    /// Whether violated constraints are to be reported.
    pub closed spec fn is_verbose(&self) -> bool {
        self.verbose
    }

    /// Creates an evaluator over the named arrays and the variable registers of a model.
    pub fn new(
        arrays: StringHashMap<ModelArray>,
        variable_register_map: StringHashMap<Register>,
        verbose: bool,
    ) -> (r: Self)
        ensures
            r.array_map() == arrays@,
            r.register_map() == variable_register_map@,
            r.is_verbose() == verbose,
    {
        let args_extractor = BoolArgsExtractor::new();
        Self { arrays, variable_register_map, args_extractor, verbose }
    }

    /// Whether violated constraints are to be reported.
    pub fn verbose(&self) -> (r: bool)
        ensures
            r == self.is_verbose(),
    {
        self.verbose
    }

    /// The registers of the array of boolean variables at argument `index`.
    fn array_registers(&self, index: usize, constraint: &ModelConstraint) -> (r: Option<Vec<Register>>)
        ensures
            r is Some <==> bool_array_registered(constraint@, index as int, self.array_map(), self.register_map()),
            r matches Some(v) ==> v@ == bool_array_registers(constraint@, index as int, self.array_map(), self.register_map()),
    {
        if index < constraint.args.len() {
            match &constraint.args[index] {
                crate::data_utility::model::ModelArgument::Literal(ModelLiteral::Identifier(key)) => {
                    match self.arrays.get(key.as_str()) {
                        Some(arr) => {
                            if !identifier_literals(&arr.contents) {
                                return None;
                            }
                        },
                        None => {},
                    }
                },
                crate::data_utility::model::ModelArgument::Array(ls) => {
                    if !identifier_literals(ls) {
                        return None;
                    }
                },
                _ => {},
            }
        }
        let names = self.args_extractor.extract_bool_array(index, &constraint.args, &self.arrays);
        proof {
            assert(names@.map_values(|s: String| s@) =~= strings_view(names@));
        }
        lookup_registers(&names, &self.variable_register_map)
    }

    /// Compiles `constraint` as a boolean constraint of the given kind.
    pub fn compile(&self, kind: BoolKind, constraint: &ModelConstraint) -> (r: Option<BoolConstraint>)
        ensures
            r is Some <==> bool_setup_ok(kind, constraint@, self.array_map(), self.register_map()),
            r matches Some(p) ==> bool_compiled(kind, p, constraint@, self.array_map(), self.register_map()),
    {
        let regs = &self.variable_register_map;
        match kind {
            BoolKind::ArrayBoolXor => {
                let vars = self.array_registers(0, constraint)?;
                Some(BoolConstraint::ArrayXor { vars })
            },
            BoolKind::BoolClause | BoolKind::BoolLinEq | BoolKind::BoolLinLe => {
                let left = self.array_registers(0, constraint)?;
                let right = self.array_registers(1, constraint)?;
                if kind == BoolKind::BoolClause {
                    return Some(BoolConstraint::Clause { pos: left, neg: right });
                }
                let constant = if 2 < constraint.args.len() {
                    match &constraint.args[2] {
                        crate::data_utility::model::ModelArgument::Literal(ModelLiteral::Int(v)) => *v,
                        _ => {
                            return None;
                        },
                    }
                } else {
                    return None;
                };
                if kind == BoolKind::BoolLinEq {
                    Some(BoolConstraint::LinEq { left, right, constant })
                } else {
                    Some(BoolConstraint::LinLe { left, right, constant })
                }
            },
            _ => {
                if !check_positions(constraint) {
                    return None;
                }
                let names = self.args_extractor.extract_literal_identifiers_with_index(&constraint.args);
                match kind {
                    BoolKind::ArrayBoolAnd => {
                        let vars = self.array_registers(0, constraint)?;
                        let r = resolve_bool_term(&names, 1, constraint, regs)?;
                        Some(BoolConstraint::ArrayAnd { vars, r })
                    },
                    BoolKind::ArrayBoolElement | BoolKind::ArrayVarBoolElement => {
                        let index = named_register_of(&names, 0, constraint, regs)?;
                        let array_name = match names.get(&1) {
                            Some(n) => n,
                            None => {
                                return None;
                            },
                        };
                        let arr = match self.arrays.get(array_name.as_str()) {
                            Some(a) => a,
                            None => {
                                return None;
                            },
                        };
                        let value_check = named_register_of(&names, 2, constraint, regs);
                        if kind == BoolKind::ArrayBoolElement {
                            let array = bool_literals(&arr.contents)?;
                            let value = value_check?;
                            Some(BoolConstraint::ArrayElement { index, array, value })
                        } else {
                            if !identifier_literals(&arr.contents) {
                                return None;
                            }
                            let var_names = names_matching(&arr.contents, false);
                            proof {
                                assert(var_names@.map_values(|s: String| s@) =~= strings_view(var_names@));
                            }
                            let array = optional_registers_of(&var_names, regs);
                            let value = value_check?;
                            Some(BoolConstraint::ArrayVarElement { index, array, value })
                        }
                    },
                    BoolKind::Bool2Int => {
                        let a = resolve_bool_term(&names, 0, constraint, regs)?;
                        let b = resolve_int_term(&names, 1, constraint, regs)?;
                        Some(BoolConstraint::ToInt { a, b })
                    },
                    _ => {
                        let a = resolve_bool_term(&names, 0, constraint, regs)?;
                        let b = resolve_bool_term(&names, 1, constraint, regs)?;
                        match kind {
                            BoolKind::BoolEq => Some(BoolConstraint::Eq { a, b }),
                            BoolKind::BoolLe => Some(BoolConstraint::Le { a, b }),
                            BoolKind::BoolLt => Some(BoolConstraint::Lt { a, b }),
                            BoolKind::BoolNot => Some(BoolConstraint::Not { a, b }),
                            _ => {
                                let c = resolve_bool_term(&names, 2, constraint, regs)?;
                                match kind {
                                    BoolKind::BoolAnd => Some(BoolConstraint::And { a, b, c }),
                                    BoolKind::BoolEqReif => Some(BoolConstraint::EqReif { a, b, c }),
                                    BoolKind::BoolLeReif => Some(BoolConstraint::LeReif { a, b, c }),
                                    BoolKind::BoolLtReif => Some(BoolConstraint::LtReif { a, b, c }),
                                    BoolKind::BoolOr => Some(BoolConstraint::Or { a, b, c }),
                                    _ => Some(BoolConstraint::Xor { a, b, c }),
                                }
                            },
                        }
                    },
                }
            },
        }
    }

    /// Compiles a `array_bool_and` constraint: `r <-> (as[0] /\ as[1] /\ ...)`; the violation is `1` when the two sides differ.
    ///
    /// `None` when the constraint cannot be compiled (see [`bool_setup_ok`]).
    pub fn array_bool_and(&self, constraint: &CallWithDefines) -> (r: Option<BoolConstraint>)
        ensures
            r is Some <==> bool_setup_ok(BoolKind::ArrayBoolAnd, constraint.call@, self.array_map(), self.register_map()),
            r matches Some(p) ==> bool_compiled(BoolKind::ArrayBoolAnd, p, constraint.call@, self.array_map(), self.register_map()),
    {
        self.compile(BoolKind::ArrayBoolAnd, &constraint.call)
    }

    /// Compiles a `array_bool_element` constraint: `array[index] = value` over a constant array of booleans; the violation is `1` when they differ.
    ///
    /// `None` when the constraint cannot be compiled (see [`bool_setup_ok`]).
    pub fn array_bool_element(&self, constraint: &CallWithDefines) -> (r: Option<BoolConstraint>)
        ensures
            r is Some <==> bool_setup_ok(BoolKind::ArrayBoolElement, constraint.call@, self.array_map(), self.register_map()),
            r matches Some(p) ==> bool_compiled(BoolKind::ArrayBoolElement, p, constraint.call@, self.array_map(), self.register_map()),
    {
        self.compile(BoolKind::ArrayBoolElement, &constraint.call)
    }

    /// Compiles a `array_var_bool_element` constraint: `array[index] = value` over an array of boolean variables; the violation is `1` when they differ.
    ///
    /// `None` when the constraint cannot be compiled (see [`bool_setup_ok`]).
    pub fn array_var_bool_element(&self, constraint: &CallWithDefines) -> (r: Option<BoolConstraint>)
        ensures
            r is Some <==> bool_setup_ok(BoolKind::ArrayVarBoolElement, constraint.call@, self.array_map(), self.register_map()),
            r matches Some(p) ==> bool_compiled(BoolKind::ArrayVarBoolElement, p, constraint.call@, self.array_map(), self.register_map()),
    {
        self.compile(BoolKind::ArrayVarBoolElement, &constraint.call)
    }

    /// Compiles a `array_bool_xor` constraint: an odd number of `as` hold; the violation is `1` otherwise.
    ///
    /// `None` when the constraint cannot be compiled (see [`bool_setup_ok`]).
    pub fn array_bool_xor(&self, constraint: &CallWithDefines) -> (r: Option<BoolConstraint>)
        ensures
            r is Some <==> bool_setup_ok(BoolKind::ArrayBoolXor, constraint.call@, self.array_map(), self.register_map()),
            r matches Some(p) ==> bool_compiled(BoolKind::ArrayBoolXor, p, constraint.call@, self.array_map(), self.register_map()),
    {
        self.compile(BoolKind::ArrayBoolXor, &constraint.call)
    }

    /// Compiles a `bool_and` constraint: `c <-> a /\ b`.
    ///
    /// `None` when the constraint cannot be compiled (see [`bool_setup_ok`]).
    pub fn bool_and(&self, constraint: &CallWithDefines) -> (r: Option<BoolConstraint>)
        ensures
            r is Some <==> bool_setup_ok(BoolKind::BoolAnd, constraint.call@, self.array_map(), self.register_map()),
            r matches Some(p) ==> bool_compiled(BoolKind::BoolAnd, p, constraint.call@, self.array_map(), self.register_map()),
    {
        self.compile(BoolKind::BoolAnd, &constraint.call)
    }

    /// Compiles a `bool_clause` constraint: some value of `as` is true or some value of `bs`
    /// is false; the violation is `1` when every value of `as` is false and every value of
    /// `bs` is true.
    ///
    /// `None` when the constraint cannot be compiled (see [`bool_setup_ok`]).
    pub fn bool_clause(&self, constraint: &CallWithDefines) -> (r: Option<BoolConstraint>)
        ensures
            r is Some <==> bool_setup_ok(BoolKind::BoolClause, constraint.call@, self.array_map(), self.register_map()),
            r matches Some(p) ==> bool_compiled(BoolKind::BoolClause, p, constraint.call@, self.array_map(), self.register_map()),
    {
        self.compile(BoolKind::BoolClause, &constraint.call)
    }

    /// Compiles a `bool_eq` constraint: `a = b`.
    ///
    /// `None` when the constraint cannot be compiled (see [`bool_setup_ok`]).
    pub fn bool_eq(&self, constraint: &CallWithDefines) -> (r: Option<BoolConstraint>)
        ensures
            r is Some <==> bool_setup_ok(BoolKind::BoolEq, constraint.call@, self.array_map(), self.register_map()),
            r matches Some(p) ==> bool_compiled(BoolKind::BoolEq, p, constraint.call@, self.array_map(), self.register_map()),
    {
        self.compile(BoolKind::BoolEq, &constraint.call)
    }

    /// Compiles a `bool_eq_reif` constraint: `c <-> a = b`.
    ///
    /// `None` when the constraint cannot be compiled (see [`bool_setup_ok`]).
    pub fn bool_eq_reif(&self, constraint: &CallWithDefines) -> (r: Option<BoolConstraint>)
        ensures
            r is Some <==> bool_setup_ok(BoolKind::BoolEqReif, constraint.call@, self.array_map(), self.register_map()),
            r matches Some(p) ==> bool_compiled(BoolKind::BoolEqReif, p, constraint.call@, self.array_map(), self.register_map()),
    {
        self.compile(BoolKind::BoolEqReif, &constraint.call)
    }

    /// Compiles a `bool_le` constraint: `a <= b`, with `false < true`.
    ///
    /// `None` when the constraint cannot be compiled (see [`bool_setup_ok`]).
    pub fn bool_le(&self, constraint: &CallWithDefines) -> (r: Option<BoolConstraint>)
        ensures
            r is Some <==> bool_setup_ok(BoolKind::BoolLe, constraint.call@, self.array_map(), self.register_map()),
            r matches Some(p) ==> bool_compiled(BoolKind::BoolLe, p, constraint.call@, self.array_map(), self.register_map()),
    {
        self.compile(BoolKind::BoolLe, &constraint.call)
    }

    /// Compiles a `bool_le_reif` constraint: `c <-> a <= b`.
    ///
    /// `None` when the constraint cannot be compiled (see [`bool_setup_ok`]).
    pub fn bool_le_reif(&self, constraint: &CallWithDefines) -> (r: Option<BoolConstraint>)
        ensures
            r is Some <==> bool_setup_ok(BoolKind::BoolLeReif, constraint.call@, self.array_map(), self.register_map()),
            r matches Some(p) ==> bool_compiled(BoolKind::BoolLeReif, p, constraint.call@, self.array_map(), self.register_map()),
    {
        self.compile(BoolKind::BoolLeReif, &constraint.call)
    }

    /// Compiles a `bool_lin_eq` constraint: the number of positions where both `as[i]` and `bs[i]` hold equals the constant `c`.
    ///
    /// `None` when the constraint cannot be compiled (see [`bool_setup_ok`]).
    pub fn bool_lin_eq(&self, constraint: &CallWithDefines) -> (r: Option<BoolConstraint>)
        ensures
            r is Some <==> bool_setup_ok(BoolKind::BoolLinEq, constraint.call@, self.array_map(), self.register_map()),
            r matches Some(p) ==> bool_compiled(BoolKind::BoolLinEq, p, constraint.call@, self.array_map(), self.register_map()),
    {
        self.compile(BoolKind::BoolLinEq, &constraint.call)
    }

    /// Compiles a `bool_lin_le` constraint: the number of positions where both `as[i]` and `bs[i]` hold is at most the constant `c`.
    ///
    /// `None` when the constraint cannot be compiled (see [`bool_setup_ok`]).
    pub fn bool_lin_le(&self, constraint: &CallWithDefines) -> (r: Option<BoolConstraint>)
        ensures
            r is Some <==> bool_setup_ok(BoolKind::BoolLinLe, constraint.call@, self.array_map(), self.register_map()),
            r matches Some(p) ==> bool_compiled(BoolKind::BoolLinLe, p, constraint.call@, self.array_map(), self.register_map()),
    {
        self.compile(BoolKind::BoolLinLe, &constraint.call)
    }

    /// Compiles a `bool_lt` constraint: `a < b`, with `false < true`.
    ///
    /// `None` when the constraint cannot be compiled (see [`bool_setup_ok`]).
    pub fn bool_lt(&self, constraint: &CallWithDefines) -> (r: Option<BoolConstraint>)
        ensures
            r is Some <==> bool_setup_ok(BoolKind::BoolLt, constraint.call@, self.array_map(), self.register_map()),
            r matches Some(p) ==> bool_compiled(BoolKind::BoolLt, p, constraint.call@, self.array_map(), self.register_map()),
    {
        self.compile(BoolKind::BoolLt, &constraint.call)
    }

    /// Compiles a `bool_lt_reif` constraint: `c <-> a < b`.
    ///
    /// `None` when the constraint cannot be compiled (see [`bool_setup_ok`]).
    pub fn bool_lt_reif(&self, constraint: &CallWithDefines) -> (r: Option<BoolConstraint>)
        ensures
            r is Some <==> bool_setup_ok(BoolKind::BoolLtReif, constraint.call@, self.array_map(), self.register_map()),
            r matches Some(p) ==> bool_compiled(BoolKind::BoolLtReif, p, constraint.call@, self.array_map(), self.register_map()),
    {
        self.compile(BoolKind::BoolLtReif, &constraint.call)
    }

    /// Compiles a `bool_not` constraint: `a != b`.
    ///
    /// `None` when the constraint cannot be compiled (see [`bool_setup_ok`]).
    pub fn bool_not(&self, constraint: &CallWithDefines) -> (r: Option<BoolConstraint>)
        ensures
            r is Some <==> bool_setup_ok(BoolKind::BoolNot, constraint.call@, self.array_map(), self.register_map()),
            r matches Some(p) ==> bool_compiled(BoolKind::BoolNot, p, constraint.call@, self.array_map(), self.register_map()),
    {
        self.compile(BoolKind::BoolNot, &constraint.call)
    }

    /// Compiles a `bool_or` constraint: `c <-> a \/ b`.
    ///
    /// `None` when the constraint cannot be compiled (see [`bool_setup_ok`]).
    pub fn bool_or(&self, constraint: &CallWithDefines) -> (r: Option<BoolConstraint>)
        ensures
            r is Some <==> bool_setup_ok(BoolKind::BoolOr, constraint.call@, self.array_map(), self.register_map()),
            r matches Some(p) ==> bool_compiled(BoolKind::BoolOr, p, constraint.call@, self.array_map(), self.register_map()),
    {
        self.compile(BoolKind::BoolOr, &constraint.call)
    }

    /// Compiles a `bool_xor` constraint: `c <-> a xor b`.
    ///
    /// `None` when the constraint cannot be compiled (see [`bool_setup_ok`]).
    pub fn bool_xor(&self, constraint: &CallWithDefines) -> (r: Option<BoolConstraint>)
        ensures
            r is Some <==> bool_setup_ok(BoolKind::BoolXor, constraint.call@, self.array_map(), self.register_map()),
            r matches Some(p) ==> bool_compiled(BoolKind::BoolXor, p, constraint.call@, self.array_map(), self.register_map()),
    {
        self.compile(BoolKind::BoolXor, &constraint.call)
    }

    /// Compiles a `bool2int` constraint: `b = 1` when `a` holds and `b = 0` otherwise.
    ///
    /// `None` when the constraint cannot be compiled (see [`bool_setup_ok`]).
    pub fn bool2int(&self, constraint: &CallWithDefines) -> (r: Option<BoolConstraint>)
        ensures
            r is Some <==> bool_setup_ok(BoolKind::Bool2Int, constraint.call@, self.array_map(), self.register_map()),
            r matches Some(p) ==> bool_compiled(BoolKind::Bool2Int, p, constraint.call@, self.array_map(), self.register_map()),
    {
        self.compile(BoolKind::Bool2Int, &constraint.call)
    }
}

/// What the compiled constraint states of a solution whose operands all read, in the
/// FlatZinc meaning of the constraint.
pub open spec fn bool_holds(p: BoolConstraint, sol: Seq<VariableValueV>) -> bool {
    match p {
        BoolConstraint::ArrayAnd { vars, r } => bool_term_value(r, sol)->0 == all_true(bools_of(vars@, sol)),
        BoolConstraint::ArrayElement { index, array, value } => {
            let pos = int_read(sol, index)->0 as usize;
            bool_read(sol, value)->0 == array@[pos as int]
        },
        BoolConstraint::ArrayVarElement { index, array, value } => {
            let pos = int_read(sol, index)->0 as usize;
            bool_read(sol, value)->0 == bool_read(sol, array@[pos as int]->0)->0
        },
        BoolConstraint::ArrayXor { vars } => xor_all(bools_of(vars@, sol)),
        BoolConstraint::And { a, b, c } => bool_term_value(c, sol)->0 == (bool_term_value(a, sol)->0
            && bool_term_value(b, sol)->0),
        BoolConstraint::Clause { pos, neg } => some_true(bools_of(pos@, sol)) || exists|i: int|
            0 <= i < neg@.len() && !#[trigger] bools_of(neg@, sol)[i],
        BoolConstraint::Eq { a, b } => bool_term_value(a, sol)->0 == bool_term_value(b, sol)->0,
        BoolConstraint::EqReif { a, b, c } => bool_term_value(c, sol)->0 == (bool_term_value(a, sol)->0
            == bool_term_value(b, sol)->0),
        BoolConstraint::Le { a, b } => !bool_term_value(a, sol)->0 || bool_term_value(b, sol)->0,
        BoolConstraint::LeReif { a, b, c } => bool_term_value(c, sol)->0 == (!bool_term_value(a, sol)->0
            || bool_term_value(b, sol)->0),
        BoolConstraint::LinEq { left, right, constant } => both_true_count(bools_of(left@, sol), bools_of(right@, sol)) == constant,
        BoolConstraint::LinLe { left, right, constant } => both_true_count(bools_of(left@, sol), bools_of(right@, sol)) <= constant,
        BoolConstraint::Lt { a, b } => !bool_term_value(a, sol)->0 && bool_term_value(b, sol)->0,
        BoolConstraint::LtReif { a, b, c } => bool_term_value(c, sol)->0 == (!bool_term_value(a, sol)->0
            && bool_term_value(b, sol)->0),
        BoolConstraint::Not { a, b } => bool_term_value(a, sol)->0 != bool_term_value(b, sol)->0,
        BoolConstraint::Or { a, b, c } => bool_term_value(c, sol)->0 == (bool_term_value(a, sol)->0
            || bool_term_value(b, sol)->0),
        BoolConstraint::Xor { a, b, c } => bool_term_value(c, sol)->0 == (bool_term_value(a, sol)->0
            != bool_term_value(b, sol)->0),
        BoolConstraint::ToInt { a, b } => int_term_value(b, sol)->0 == (if bool_term_value(a, sol)->0 {
            1int
        } else {
            0int
        }),
    }
}

/// A compiled boolean constraint has violation zero exactly when the solution
/// satisfies it, wherever the evaluation succeeds.
pub proof fn lemma_bool_violation_zero_iff_holds(p: BoolConstraint, sol: Seq<VariableValueV>)
    requires
        bool_violation(p, sol) is Some,
    ensures
        bool_violation(p, sol) == Some(0int) <==> bool_holds(p, sol),
{
    match p {
        BoolConstraint::Clause { pos, neg } => {
            let ns = bools_of(neg@, sol);
            if !all_true(ns) {
                let j = choose|j: int| 0 <= j < ns.len() && !#[trigger] ns[j];
                assert(0 <= j < neg@.len() && !bools_of(neg@, sol)[j]);
            }
        },
        _ => {},
    }
}

/// A boolean constraint is either satisfied or violated: its violation is `0` or `1`.
pub proof fn lemma_bool_violation_is_zero_or_one(p: BoolConstraint, sol: Seq<VariableValueV>)
    ensures
        bool_violation(p, sol) matches Some(v) ==> v == 0 || v == 1,
{
}

} // verus!
