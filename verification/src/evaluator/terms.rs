//! Operands of compiled constraints and the arithmetic that violations are made of.
use crate::args_extractor::args_extractor::{all_identifiers, argument_name, term_at};
use crate::data_utility::lin_expression::fits_i64;
use crate::data_utility::model::{literals_view, ModelArgument, ModelConstraintV, ModelConstraint, ModelLiteral, ModelLiteralV};
use crate::data_utility::types::{Register, VariableValue, VariableValueV};
use std::collections::HashMap;
use vstd::hash_map::StringHashMap;
use vstd::prelude::*;

verus! {

broadcast use vstd::std_specs::hash::group_hash_axioms;

/// An integer operand: a variable register, a constant, or a variable name that
/// has no register (reading it fails).
#[derive(Debug, Clone, Copy, PartialEq, Eq, Structural)]
pub enum IntTerm {
    Register(Register),
    Const(i64),
    Unresolved,
}

/// A boolean operand: a variable register, a constant, or a variable name that
/// has no register (reading it fails).
#[derive(Debug, Clone, Copy, PartialEq, Eq, Structural)]
pub enum BoolTerm {
    Register(Register),
    Const(bool),
    Unresolved,
}

/// The integer held by register `reg` of the solution, if it holds one.
pub open spec fn int_read(sol: Seq<VariableValueV>, reg: Register) -> Option<i64> {
    if reg < sol.len() {
        match sol[reg as int] {
            VariableValueV::Int(v) => Some(v),
            _ => None,
        }
    } else {
        None
    }
}

/// The boolean held by register `reg` of the solution, if it holds one.
pub open spec fn bool_read(sol: Seq<VariableValueV>, reg: Register) -> Option<bool> {
    if reg < sol.len() {
        match sol[reg as int] {
            VariableValueV::Bool(v) => Some(v),
            _ => None,
        }
    } else {
        None
    }
}

/// The set held by register `reg` of the solution, if it holds one.
pub open spec fn set_read(sol: Seq<VariableValueV>, reg: Register) -> Option<Set<i64>> {
    if reg < sol.len() {
        match sol[reg as int] {
            VariableValueV::IntSet(s) => Some(s),
            _ => None,
        }
    } else {
        None
    }
}

/// The value of an integer operand in a solution.
pub open spec fn int_term_value(t: IntTerm, sol: Seq<VariableValueV>) -> Option<i64> {
    match t {
        IntTerm::Register(r) => int_read(sol, r),
        IntTerm::Const(v) => Some(v),
        IntTerm::Unresolved => None,
    }
}

/// The value of a boolean operand in a solution.
pub open spec fn bool_term_value(t: BoolTerm, sol: Seq<VariableValueV>) -> Option<bool> {
    match t {
        BoolTerm::Register(r) => bool_read(sol, r),
        BoolTerm::Const(v) => Some(v),
        BoolTerm::Unresolved => None,
    }
}

/// The name bound to argument `idx` of a constraint (see `argument_name`).
pub open spec fn named_at(c: ModelConstraintV, idx: int) -> Option<Seq<char>> {
    if 0 <= idx < c.args.len() {
        argument_name(c.args[idx])
    } else {
        None
    }
}

/// How argument `idx` becomes an integer operand: a named variable becomes its
/// register (or stays unresolved when it has none); otherwise the argument must be
/// an integer literal.
pub open spec fn int_term_of(c: ModelConstraintV, idx: int, regs: Map<Seq<char>, Register>) -> Option<IntTerm> {
    match named_at(c, idx) {
        Some(n) => Some(
            if regs.contains_key(n) {
                IntTerm::Register(regs[n])
            } else {
                IntTerm::Unresolved
            },
        ),
        None => match term_at(c, idx) {
            Some(ModelLiteralV::Int(v)) => Some(IntTerm::Const(v)),
            _ => None,
        },
    }
}

/// How argument `idx` becomes a boolean operand (see [`int_term_of`]).
pub open spec fn bool_term_of(c: ModelConstraintV, idx: int, regs: Map<Seq<char>, Register>) -> Option<BoolTerm> {
    match named_at(c, idx) {
        Some(n) => Some(
            if regs.contains_key(n) {
                BoolTerm::Register(regs[n])
            } else {
                BoolTerm::Unresolved
            },
        ),
        None => match term_at(c, idx) {
            Some(ModelLiteralV::Bool(v)) => Some(BoolTerm::Const(v)),
            _ => None,
        },
    }
}

/// `m` maps each argument position of `c` to the name that argument carries.
pub open spec fn is_name_map(m: Map<i64, String>, c: ModelConstraintV) -> bool {
    &&& forall|k: i64|
        m.contains_key(k) <==> (0 <= k < c.args.len() && argument_name(c.args[k as int]) is Some)
    &&& forall|k: i64| #[trigger] m.contains_key(k) ==> m[k]@ == argument_name(c.args[k as int])->0
}

/// The registers of a list of variable names, when every name has one.
pub open spec fn registers_of(names: Seq<Seq<char>>, regs: Map<Seq<char>, Register>) -> Seq<Register> {
    Seq::new(names.len(), |i: int| regs[names[i]])
}

/// Every name of the list has a register.
pub open spec fn all_registered(names: Seq<Seq<char>>, regs: Map<Seq<char>, Register>) -> bool {
    forall|i: int| 0 <= i < names.len() ==> regs.contains_key(#[trigger] names[i])
}

/// The registers of a list of variable names; a name without a register gives `None`.
pub open spec fn optional_registers(names: Seq<Seq<char>>, regs: Map<Seq<char>, Register>) -> Seq<Option<Register>> {
    Seq::new(
        names.len(),
        |i: int|
            if regs.contains_key(names[i]) {
                Some(regs[names[i]])
            } else {
                None
            },
    )
}

/// Every literal of the list is an integer.
pub open spec fn all_ints(ls: Seq<ModelLiteralV>) -> bool {
    forall|k: int| 0 <= k < ls.len() ==> #[trigger] ls[k] is Int
}

/// The name of argument `idx` has a register.
pub open spec fn named_register(c: ModelConstraintV, idx: int, regs: Map<Seq<char>, Register>) -> bool {
    named_at(c, idx) is Some && regs.contains_key(named_at(c, idx)->0)
}

/// The constraint has few enough arguments for their positions to be `i64`s.
pub open spec fn positions_fit(c: ModelConstraintV) -> bool {
    c.args.len() <= i64::MAX
}

/// Checks [`positions_fit`].
pub fn check_positions(constraint: &ModelConstraint) -> (r: bool)
    ensures
        r == positions_fit(constraint@),
{
    (constraint.args.len() as u64) <= (i64::MAX as u64)
}

/// The register that the name of argument `idx` has, if any.
pub fn named_register_of(
    names: &HashMap<i64, String>,
    idx: i64,
    constraint: &ModelConstraint,
    regs: &StringHashMap<Register>,
) -> (r: Option<Register>)
    requires
        is_name_map(names@, constraint@),
    ensures
        match r {
            Some(reg) => named_register(constraint@, idx as int, regs@) && reg == regs@[named_at(constraint@, idx as int)->0],
            None => !named_register(constraint@, idx as int, regs@),
        },
{
    match names.get(&idx) {
        Some(name) => match regs.get(name.as_str()) {
            Some(reg) => Some(*reg),
            None => None,
        },
        None => None,
    }
}

/// The registers of a list of names; a name without a register gives `None`.
pub fn optional_registers_of(names: &Vec<String>, regs: &StringHashMap<Register>) -> (r: Vec<Option<Register>>)
    ensures
        r@ == optional_registers(names@.map_values(|s: String| s@), regs@),
{
    let ghost ns = names@.map_values(|s: String| s@);
    let mut out: Vec<Option<Register>> = Vec::with_capacity(names.len());
    for i in 0..names.len()
        invariant
            ns == names@.map_values(|s: String| s@),
            out@ == optional_registers(ns.take(i as int), regs@),
    {
        let reg = match regs.get(names[i].as_str()) {
            Some(reg) => Some(*reg),
            None => None,
        };
        out.push(reg);
        proof {
            assert(ns[i as int] == names@[i as int]@);
            assert(out@ =~= optional_registers(ns.take(i + 1), regs@));
        }
    }
    proof {
        assert(ns.take(names.len() as int) =~= ns);
    }
    out
}

/// Whether every literal of the list is an identifier.
pub fn identifier_literals(lits: &Vec<ModelLiteral>) -> (r: bool)
    ensures
        r == all_identifiers(literals_view(lits@)),
{
    for j in 0..lits.len()
        invariant
            all_identifiers(literals_view(lits@).take(j as int)),
    {
        match &lits[j] {
            ModelLiteral::Identifier(_) => {},
            _ => {
                proof {
                    assert(!(literals_view(lits@)[j as int] is Identifier));
                }
                return false;
            },
        }
        proof {
            let ls = literals_view(lits@);
            assert forall|k: int| 0 <= k < j + 1 implies #[trigger] ls.take(j + 1)[k] is Identifier by {
                if k < j {
                    assert(ls.take(j + 1)[k] == ls.take(j as int)[k]);
                }
            }
        }
    }
    proof {
        assert(literals_view(lits@).take(lits.len() as int) =~= literals_view(lits@));
    }
    true
}

/// `|x - y|` as computed by `(x - y).abs()` in `i64`, or `None` where that overflows.
pub open spec fn abs_diff(x: int, y: int) -> Option<int> {
    let d = x - y;
    if fits_i64(d) && d != i64::MIN {
        Some(if d < 0 { -d } else { d })
    } else {
        None
    }
}

/// `1` for true, `0` for false.
pub open spec fn flag(b: bool) -> int {
    if b { 1 } else { 0 }
}

/// Integer division rounding toward zero, as Rust's `/`.
pub open spec fn trunc_div(x: int, d: int) -> int {
    let q = (if x < 0 { -x } else { x }) / (if d < 0 { -d } else { d });
    if (x < 0) == (d < 0) { q } else { -q }
}

/// The remainder of [`trunc_div`], with the sign of `x`, as Rust's `%`.
pub open spec fn trunc_rem(x: int, d: int) -> int {
    let r = (if x < 0 { -x } else { x }) % (if d < 0 { -d } else { d });
    if x < 0 { -r } else { r }
}

/// `r` is the value of `s`, where `None` stands for a failed evaluation.
pub open spec fn same_outcome(r: Option<u64>, s: Option<int>) -> bool {
    match r {
        Some(v) => s == Some(v as int),
        None => s is None,
    }
}

/// Division and remainder rounding toward zero stay within the dividend's magnitude.
proof fn lemma_div_rem_bounds(a: int, b: int)
    requires
        a >= 0,
        b >= 1,
    ensures
        0 <= a / b <= a,
        b >= 2 ==> a / b <= a / 2,
        0 <= a % b < b,
        a % b <= a,
{
    assert(0 <= a / b <= a) by (nonlinear_arith)
        requires
            a >= 0,
            b >= 1,
    ;
    assert(b >= 2 ==> a / b <= a / 2) by (nonlinear_arith)
        requires
            a >= 0,
            b >= 1,
    ;
    assert(0 <= a % b < b) by (nonlinear_arith)
        requires
            a >= 0,
            b >= 1,
    ;
    assert(a % b <= a) by (nonlinear_arith)
        requires
            a >= 0,
            b >= 1,
    ;
}

/// `x / y` rounding toward zero, or `None` where that overflows (`i64::MIN / -1`).
pub fn checked_trunc_div(x: i64, y: i64) -> (r: Option<i64>)
    requires
        y != 0,
    ensures
        match r {
            Some(q) => !(x == i64::MIN && y == -1) && q == trunc_div(x as int, y as int),
            None => x == i64::MIN && y == -1,
        },
{
    proof {
        let ax: int = if x < 0 { -x } else { x as int };
        let ay: int = if y < 0 { -y } else { y as int };
        lemma_div_rem_bounds(ax, ay);
    }
    x.checked_div(y)
}

/// `x % y` with the sign of `x`, or `None` where that fails (`y == 0`, `i64::MIN % -1`).
pub fn checked_trunc_rem(x: i64, y: i64) -> (r: Option<i64>)
    ensures
        match r {
            Some(m) => y != 0 && !(x == i64::MIN && y == -1) && m == trunc_rem(x as int, y as int),
            None => y == 0 || (x == i64::MIN && y == -1),
        },
{
    proof {
        if y != 0 {
            let ax: int = if x < 0 { -x } else { x as int };
            let ay: int = if y < 0 { -y } else { y as int };
            lemma_div_rem_bounds(ax, ay);
        }
    }
    x.checked_rem(y)
}

/// Reads the integer held by a register.
pub fn read_int(solution: &[VariableValue], reg: Register) -> (r: Option<i64>)
    ensures
        r == int_read(crate::data_utility::types::values_view(solution@), reg),
{
    if (reg as usize) < solution.len() {
        match &solution[reg as usize] {
            VariableValue::Int(v) => Some(*v),
            _ => None,
        }
    } else {
        None
    }
}

/// Reads the boolean held by a register.
pub fn read_bool(solution: &[VariableValue], reg: Register) -> (r: Option<bool>)
    ensures
        r == bool_read(crate::data_utility::types::values_view(solution@), reg),
{
    if (reg as usize) < solution.len() {
        match &solution[reg as usize] {
            VariableValue::Bool(v) => Some(*v),
            _ => None,
        }
    } else {
        None
    }
}

/// The value of an integer operand.
pub fn int_value(t: IntTerm, solution: &[VariableValue]) -> (r: Option<i64>)
    ensures
        r == int_term_value(t, crate::data_utility::types::values_view(solution@)),
{
    match t {
        IntTerm::Register(reg) => read_int(solution, reg),
        IntTerm::Const(v) => Some(v),
        IntTerm::Unresolved => None,
    }
}

/// The value of a boolean operand.
pub fn bool_value(t: BoolTerm, solution: &[VariableValue]) -> (r: Option<bool>)
    ensures
        r == bool_term_value(t, crate::data_utility::types::values_view(solution@)),
{
    match t {
        BoolTerm::Register(reg) => read_bool(solution, reg),
        BoolTerm::Const(v) => Some(v),
        BoolTerm::Unresolved => None,
    }
}

/// `(x - y).abs()`, or `None` where that overflows.
pub fn checked_abs_diff(x: i64, y: i64) -> (r: Option<u64>)
    ensures
        same_outcome(r, abs_diff(x as int, y as int)),
{
    match x.checked_sub(y) {
        Some(d) => {
            if d == i64::MIN {
                None
            } else if d < 0 {
                Some((-d) as u64)
            } else {
                Some(d as u64)
            }
        },
        None => None,
    }
}

/// `b` raised to the power `e`.
pub open spec fn int_pow(b: int, e: nat) -> int
    decreases e,
{
    if e == 0 {
        1
    } else {
        b * int_pow(b, (e - 1) as nat)
    }
}

/// Bounds on powers: each further factor of magnitude at least two at least doubles.
proof fn lemma_pow_grows(a: int, k: nat, e: nat)
    requires
        a >= 2 || a <= -2,
        k <= e,
    ensures
        (if int_pow(a, e) < 0 { -int_pow(a, e) } else { int_pow(a, e) }) >= (if int_pow(a, k) < 0 { -int_pow(a, k) } else { int_pow(a, k) }),
        k < e ==> (if int_pow(a, e) < 0 { -int_pow(a, e) } else { int_pow(a, e) }) >= 2 * (if int_pow(a, k) < 0 { -int_pow(a, k) } else { int_pow(a, k) }),
    decreases e - k,
{
    if k < e {
        lemma_pow_grows(a, k, (e - 1) as nat);
        let p = int_pow(a, (e - 1) as nat);
        assert(int_pow(a, e) == a * p);
        let ap = if p < 0 { -p } else { p };
        let aa = if a < 0 { -a } else { a };
        let ae = if a * p < 0 { -(a * p) } else { a * p };
        assert(ae == aa * ap) by (nonlinear_arith)
            requires
                aa == (if a < 0 { -a } else { a }),
                ap == (if p < 0 { -p } else { p }),
                ae == (if a * p < 0 { -(a * p) } else { a * p }),
        ;
        assert(aa * ap >= 2 * ap) by (nonlinear_arith)
            requires
                aa >= 2,
                ap >= 0,
        ;
    }
}

/// `a.pow(e)`, or `None` where the result does not fit in an `i64`.
pub fn checked_pow(a: i64, e: u64) -> (r: Option<i64>)
    ensures
        match r {
            Some(v) => fits_i64(int_pow(a as int, e as nat)) && v == int_pow(a as int, e as nat),
            None => !fits_i64(int_pow(a as int, e as nat)),
        },
{
    if a == 0 || a == 1 {
        let r: i64 = if e == 0 { 1 } else { a };
        proof {
            assert(int_pow(a as int, e as nat) == r) by {
                if e > 0 {
                    assert(int_pow(a as int, e as nat) == a * int_pow(a as int, (e - 1) as nat));
                    lemma_pow_small(a as int, (e - 1) as nat);
                }
            }
        }
        return Some(r);
    }
    if a == -1 {
        let r: i64 = if e % 2 == 0 { 1 } else { -1 };
        proof {
            lemma_pow_minus_one(e as nat);
        }
        return Some(r);
    }
    let mut acc: i64 = 1;
    let mut k: u64 = 0;
    while k < e
        invariant
            a >= 2 || a <= -2,
            k <= e,
            acc == int_pow(a as int, k as nat),
        decreases e - k,
    {
        proof {
            assert(int_pow(a as int, (k + 1) as nat) == a * int_pow(a as int, k as nat));
            assert(a * acc == acc * a) by (nonlinear_arith);
        }
        match acc.checked_mul(a) {
            Some(next) => {
                acc = next;
                k = k + 1;
            },
            None => {
                proof {
                    let x = int_pow(a as int, (k + 1) as nat);
                    assert(!fits_i64(x));
                    if k + 1 < e {
                        lemma_pow_grows(a as int, (k + 1) as nat, e as nat);
                    }
                }
                return None;
            },
        }
    }
    Some(acc)
}

/// Powers of zero and one.
proof fn lemma_pow_small(a: int, e: nat)
    requires
        a == 0 || a == 1,
    ensures
        int_pow(a, e) == (if a == 1 || e == 0 { 1int } else { 0int }),
    decreases e,
{
    if e > 0 {
        lemma_pow_small(a, (e - 1) as nat);
    }
}

/// Powers of minus one alternate in sign.
proof fn lemma_pow_minus_one(e: nat)
    ensures
        int_pow(-1, e) == (if e % 2 == 0 { 1int } else { -1int }),
    decreases e,
{
    if e > 0 {
        lemma_pow_minus_one((e - 1) as nat);
    }
}

/// Resolves argument `idx` to an integer operand (see [`int_term_of`]).
pub fn resolve_int_term(
    names: &HashMap<i64, String>,
    idx: i64,
    constraint: &ModelConstraint,
    regs: &StringHashMap<Register>,
) -> (r: Option<IntTerm>)
    requires
        is_name_map(names@, constraint@),
    ensures
        r == int_term_of(constraint@, idx as int, regs@),
{
    match names.get(&idx) {
        Some(name) => {
            match regs.get(name.as_str()) {
                Some(reg) => Some(IntTerm::Register(*reg)),
                None => Some(IntTerm::Unresolved),
            }
        },
        None => {
            if 0 <= idx && (idx as u64) < (constraint.args.len() as u64) {
                match &constraint.args[idx as usize] {
                    ModelArgument::Literal(ModelLiteral::Int(v)) => Some(IntTerm::Const(*v)),
                    _ => None,
                }
            } else {
                None
            }
        },
    }
}

/// Resolves argument `idx` to a boolean operand (see [`bool_term_of`]).
pub fn resolve_bool_term(
    names: &HashMap<i64, String>,
    idx: i64,
    constraint: &ModelConstraint,
    regs: &StringHashMap<Register>,
) -> (r: Option<BoolTerm>)
    requires
        is_name_map(names@, constraint@),
    ensures
        r == bool_term_of(constraint@, idx as int, regs@),
{
    match names.get(&idx) {
        Some(name) => {
            match regs.get(name.as_str()) {
                Some(reg) => Some(BoolTerm::Register(*reg)),
                None => Some(BoolTerm::Unresolved),
            }
        },
        None => {
            if 0 <= idx && (idx as u64) < (constraint.args.len() as u64) {
                match &constraint.args[idx as usize] {
                    ModelArgument::Literal(ModelLiteral::Bool(v)) => Some(BoolTerm::Const(*v)),
                    _ => None,
                }
            } else {
                None
            }
        },
    }
}

/// The registers of a list of variable names, or `None` when one has no register.
pub fn lookup_registers(names: &Vec<String>, regs: &StringHashMap<Register>) -> (r: Option<Vec<Register>>)
    ensures
        match r {
            Some(v) => all_registered(names@.map_values(|s: String| s@), regs@) && v@
                == registers_of(names@.map_values(|s: String| s@), regs@),
            None => !all_registered(names@.map_values(|s: String| s@), regs@),
        },
{
    let ghost ns = names@.map_values(|s: String| s@);
    let mut out: Vec<Register> = Vec::with_capacity(names.len());
    for i in 0..names.len()
        invariant
            ns == names@.map_values(|s: String| s@),
            all_registered(ns.take(i as int), regs@),
            out@ == registers_of(ns.take(i as int), regs@),
    {
        match regs.get(names[i].as_str()) {
            Some(reg) => {
                out.push(*reg);
                proof {
                    assert(ns[i as int] == names@[i as int]@);
                    assert(out@ =~= registers_of(ns.take(i + 1), regs@));
                }
            },
            None => {
                proof {
                    assert(ns[i as int] == names@[i as int]@);
                }
                return None;
            },
        }
    }
    proof {
        assert(ns.take(names.len() as int) =~= ns);
    }
    Some(out)
}

} // verus!
