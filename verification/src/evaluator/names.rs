//! The FlatZinc names of the constraints that the evaluators compile, and the laws
//! that a name selects exactly the constraint it names.
use crate::evaluator::mini_evaluator::{kind_of_name, ConstraintKind};
use crate::evaluator::sub_types::bool_evaluator::BoolKind;
use crate::evaluator::sub_types::int_evaluator::IntKind;
use crate::evaluator::sub_types::set_evaluator::SetKind;
use vstd::prelude::*;

verus! {

/// The FlatZinc name of each integer constraint.
pub open spec fn int_kind_name(k: IntKind) -> Seq<char> {
    match k {
        IntKind::ArrayIntElement => "array_int_element"@,
        IntKind::ArrayVarIntElement => "array_var_int_element"@,
        IntKind::IntAbs => "int_abs"@,
        IntKind::IntDiv => "int_div"@,
        IntKind::IntEq => "int_eq"@,
        IntKind::IntEqReif => "int_eq_reif"@,
        IntKind::IntLe => "int_le"@,
        IntKind::IntLeReif => "int_le_reif"@,
        IntKind::IntLinEq => "int_lin_eq"@,
        IntKind::IntLinEqReif => "int_lin_eq_reif"@,
        IntKind::IntLinLe => "int_lin_le"@,
        IntKind::IntLinLeReif => "int_lin_le_reif"@,
        IntKind::IntLinNe => "int_lin_ne"@,
        IntKind::IntLinNeReif => "int_lin_ne_reif"@,
        IntKind::IntLt => "int_lt"@,
        IntKind::IntLtReif => "int_lt_reif"@,
        IntKind::IntMax => "int_max"@,
        IntKind::IntMin => "int_min"@,
        IntKind::IntMod => "int_mod"@,
        IntKind::IntNe => "int_ne"@,
        IntKind::IntNeReif => "int_ne_reif"@,
        IntKind::IntPow => "int_pow"@,
        IntKind::IntTimes => "int_times"@,
    }
}

/// The FlatZinc name of each boolean constraint.
pub open spec fn bool_kind_name(k: BoolKind) -> Seq<char> {
    match k {
        BoolKind::ArrayBoolAnd => "array_bool_and"@,
        BoolKind::ArrayBoolElement => "array_bool_element"@,
        BoolKind::ArrayBoolXor => "array_bool_xor"@,
        BoolKind::ArrayVarBoolElement => "array_var_bool_element"@,
        BoolKind::Bool2Int => "bool2int"@,
        BoolKind::BoolAnd => "bool_and"@,
        BoolKind::BoolClause => "bool_clause"@,
        BoolKind::BoolEq => "bool_eq"@,
        BoolKind::BoolEqReif => "bool_eq_reif"@,
        BoolKind::BoolLe => "bool_le"@,
        BoolKind::BoolLeReif => "bool_le_reif"@,
        BoolKind::BoolLinEq => "bool_lin_eq"@,
        BoolKind::BoolLinLe => "bool_lin_le"@,
        BoolKind::BoolLt => "bool_lt"@,
        BoolKind::BoolLtReif => "bool_lt_reif"@,
        BoolKind::BoolNot => "bool_not"@,
        BoolKind::BoolOr => "bool_or"@,
        BoolKind::BoolXor => "bool_xor"@,
    }
}

/// The FlatZinc name of each set constraint.
pub open spec fn set_kind_name(k: SetKind) -> Seq<char> {
    match k {
        SetKind::ArraySetElement => "array_set_element"@,
        SetKind::ArrayVarSetElement => "array_var_set_element"@,
        SetKind::SetCard => "set_card"@,
        SetKind::SetDiff => "set_diff"@,
        SetKind::SetEq => "set_eq"@,
        SetKind::SetEqReif => "set_eq_reif"@,
        SetKind::SetIn => "set_in"@,
        SetKind::SetInReif => "set_in_reif"@,
        SetKind::SetIntersect => "set_intersect"@,
        SetKind::SetLe => "set_le"@,
        SetKind::SetLeReif => "set_le_reif"@,
        SetKind::SetLt => "set_lt"@,
        SetKind::SetLtReif => "set_lt_reif"@,
        SetKind::SetNe => "set_ne"@,
        SetKind::SetNeReif => "set_ne_reif"@,
        SetKind::SetSubset => "set_subset"@,
        SetKind::SetSubsetReif => "set_subset_reif"@,
        SetKind::SetSuperset => "set_superset"@,
        SetKind::SetSupersetReif => "set_superset_reif"@,
        SetKind::SetSymdiff => "set_symdiff"@,
        SetKind::SetUnion => "set_union"@,
    }
}

/// A predicate name selects the constraint it names: whenever the name selects an
/// integer, boolean or set constraint, it is that constraint's FlatZinc name.
pub proof fn lemma_names_select_kinds(n: Seq<char>)
    ensures
        kind_of_name(n) matches ConstraintKind::Integer(k) ==> n == int_kind_name(k),
        kind_of_name(n) matches ConstraintKind::Boolean(k) ==> n == bool_kind_name(k),
        kind_of_name(n) matches ConstraintKind::IntegerSet(k) ==> n == set_kind_name(k),
{
}

/// The lengths of the predicate names.
proof fn lemma_name_lengths()
    ensures
        "array_int_element"@.len() == 17,
        "array_var_int_element"@.len() == 21,
        "int_abs"@.len() == 7,
        "int_div"@.len() == 7,
        "int_eq"@.len() == 6,
        "int_eq_reif"@.len() == 11,
        "int_le"@.len() == 6,
        "int_le_reif"@.len() == 11,
        "int_lin_eq"@.len() == 10,
        "int_lin_eq_reif"@.len() == 15,
        "int_lin_le"@.len() == 10,
        "int_lin_le_reif"@.len() == 15,
        "int_lin_ne"@.len() == 10,
        "int_lin_ne_reif"@.len() == 15,
        "int_lt"@.len() == 6,
        "int_lt_reif"@.len() == 11,
        "int_max"@.len() == 7,
        "int_min"@.len() == 7,
        "int_mod"@.len() == 7,
        "int_ne"@.len() == 6,
        "int_ne_reif"@.len() == 11,
        "int_pow"@.len() == 7,
        "int_times"@.len() == 9,
        "array_float_element"@.len() == 19,
        "array_var_float_element"@.len() == 23,
        "float_abs"@.len() == 9,
        "float_acos"@.len() == 10,
        "float_acosh"@.len() == 11,
        "float_asin"@.len() == 10,
        "float_asinh"@.len() == 11,
        "float_atan"@.len() == 10,
        "float_atanh"@.len() == 11,
        "float_cos"@.len() == 9,
        "float_cosh"@.len() == 10,
        "float_div"@.len() == 9,
        "float_eq"@.len() == 8,
        "float_eq_reif"@.len() == 13,
        "float_exp"@.len() == 9,
        "float_le"@.len() == 8,
        "float_le_reif"@.len() == 13,
        "float_lin_eq"@.len() == 12,
        "float_lin_eq_reif"@.len() == 17,
        "float_lin_le"@.len() == 12,
        "float_lin_le_reif"@.len() == 17,
        "float_lin_lt"@.len() == 12,
        "float_lin_lt_reif"@.len() == 17,
        "float_lin_ne"@.len() == 12,
        "float_lin_ne_reif"@.len() == 17,
        "float_ln"@.len() == 8,
        "float_log10"@.len() == 11,
        "float_log2"@.len() == 10,
        "float_lt"@.len() == 8,
        "float_lt_reif"@.len() == 13,
        "float_max"@.len() == 9,
        "float_min"@.len() == 9,
        "float_ne"@.len() == 8,
        "float_ne_reif"@.len() == 13,
        "float_plus"@.len() == 10,
        "float_pow"@.len() == 9,
        "float_sin"@.len() == 9,
        "float_sinh"@.len() == 10,
        "float_sqrt"@.len() == 10,
        "float_tan"@.len() == 9,
        "float_tanh"@.len() == 10,
        "float_times"@.len() == 11,
        "int2float"@.len() == 9,
        "array_bool_and"@.len() == 14,
        "array_bool_element"@.len() == 18,
        "array_var_bool_element"@.len() == 22,
        "array_bool_xor"@.len() == 14,
        "bool_and"@.len() == 8,
        "bool_clause"@.len() == 11,
        "bool_eq"@.len() == 7,
        "bool_eq_reif"@.len() == 12,
        "bool_le"@.len() == 7,
        "bool_le_reif"@.len() == 12,
        "bool_lin_eq"@.len() == 11,
        "bool_lin_le"@.len() == 11,
        "bool2int"@.len() == 8,
        "bool_lt"@.len() == 7,
        "bool_lt_reif"@.len() == 12,
        "bool_not"@.len() == 8,
        "bool_or"@.len() == 7,
        "bool_xor"@.len() == 8,
        "array_set_element"@.len() == 17,
        "array_var_set_element"@.len() == 21,
        "set_card"@.len() == 8,
        "set_diff"@.len() == 8,
        "set_eq"@.len() == 6,
        "set_eq_reif"@.len() == 11,
        "set_in"@.len() == 6,
        "set_in_reif"@.len() == 11,
        "set_intersect"@.len() == 13,
        "set_le"@.len() == 6,
        "set_le_reif"@.len() == 11,
        "set_lt"@.len() == 6,
        "set_lt_reif"@.len() == 11,
        "set_ne"@.len() == 6,
        "set_ne_reif"@.len() == 11,
        "set_subset"@.len() == 10,
        "set_subset_reif"@.len() == 15,
        "set_superset"@.len() == 12,
        "set_superset_reif"@.len() == 17,
        "set_symdiff"@.len() == 11,
        "set_union"@.len() == 9,
{
    reveal_strlit("array_int_element");
    reveal_strlit("array_var_int_element");
    reveal_strlit("int_abs");
    reveal_strlit("int_div");
    reveal_strlit("int_eq");
    reveal_strlit("int_eq_reif");
    reveal_strlit("int_le");
    reveal_strlit("int_le_reif");
    reveal_strlit("int_lin_eq");
    reveal_strlit("int_lin_eq_reif");
    reveal_strlit("int_lin_le");
    reveal_strlit("int_lin_le_reif");
    reveal_strlit("int_lin_ne");
    reveal_strlit("int_lin_ne_reif");
    reveal_strlit("int_lt");
    reveal_strlit("int_lt_reif");
    reveal_strlit("int_max");
    reveal_strlit("int_min");
    reveal_strlit("int_mod");
    reveal_strlit("int_ne");
    reveal_strlit("int_ne_reif");
    reveal_strlit("int_pow");
    reveal_strlit("int_times");
    reveal_strlit("array_float_element");
    reveal_strlit("array_var_float_element");
    reveal_strlit("float_abs");
    reveal_strlit("float_acos");
    reveal_strlit("float_acosh");
    reveal_strlit("float_asin");
    reveal_strlit("float_asinh");
    reveal_strlit("float_atan");
    reveal_strlit("float_atanh");
    reveal_strlit("float_cos");
    reveal_strlit("float_cosh");
    reveal_strlit("float_div");
    reveal_strlit("float_eq");
    reveal_strlit("float_eq_reif");
    reveal_strlit("float_exp");
    reveal_strlit("float_le");
    reveal_strlit("float_le_reif");
    reveal_strlit("float_lin_eq");
    reveal_strlit("float_lin_eq_reif");
    reveal_strlit("float_lin_le");
    reveal_strlit("float_lin_le_reif");
    reveal_strlit("float_lin_lt");
    reveal_strlit("float_lin_lt_reif");
    reveal_strlit("float_lin_ne");
    reveal_strlit("float_lin_ne_reif");
    reveal_strlit("float_ln");
    reveal_strlit("float_log10");
    reveal_strlit("float_log2");
    reveal_strlit("float_lt");
    reveal_strlit("float_lt_reif");
    reveal_strlit("float_max");
    reveal_strlit("float_min");
    reveal_strlit("float_ne");
    reveal_strlit("float_ne_reif");
    reveal_strlit("float_plus");
    reveal_strlit("float_pow");
    reveal_strlit("float_sin");
    reveal_strlit("float_sinh");
    reveal_strlit("float_sqrt");
    reveal_strlit("float_tan");
    reveal_strlit("float_tanh");
    reveal_strlit("float_times");
    reveal_strlit("int2float");
    reveal_strlit("array_bool_and");
    reveal_strlit("array_bool_element");
    reveal_strlit("array_var_bool_element");
    reveal_strlit("array_bool_xor");
    reveal_strlit("bool_and");
    reveal_strlit("bool_clause");
    reveal_strlit("bool_eq");
    reveal_strlit("bool_eq_reif");
    reveal_strlit("bool_le");
    reveal_strlit("bool_le_reif");
    reveal_strlit("bool_lin_eq");
    reveal_strlit("bool_lin_le");
    reveal_strlit("bool2int");
    reveal_strlit("bool_lt");
    reveal_strlit("bool_lt_reif");
    reveal_strlit("bool_not");
    reveal_strlit("bool_or");
    reveal_strlit("bool_xor");
    reveal_strlit("array_set_element");
    reveal_strlit("array_var_set_element");
    reveal_strlit("set_card");
    reveal_strlit("set_diff");
    reveal_strlit("set_eq");
    reveal_strlit("set_eq_reif");
    reveal_strlit("set_in");
    reveal_strlit("set_in_reif");
    reveal_strlit("set_intersect");
    reveal_strlit("set_le");
    reveal_strlit("set_le_reif");
    reveal_strlit("set_lt");
    reveal_strlit("set_lt_reif");
    reveal_strlit("set_ne");
    reveal_strlit("set_ne_reif");
    reveal_strlit("set_subset");
    reveal_strlit("set_subset_reif");
    reveal_strlit("set_superset");
    reveal_strlit("set_superset_reif");
    reveal_strlit("set_symdiff");
    reveal_strlit("set_union");
}

/// Every integer constraint's FlatZinc name selects it.
pub proof fn lemma_int_names_complete(k: IntKind)
    ensures
        kind_of_name(int_kind_name(k)) == ConstraintKind::Integer(k),
{
    lemma_name_lengths();
    match k {
        IntKind::ArrayIntElement => {},
        IntKind::ArrayVarIntElement => {},
        IntKind::IntAbs => {},
        IntKind::IntDiv => {
            reveal_strlit("int_div");
            reveal_strlit("int_abs");
            assert("int_div"@[4] != "int_abs"@[4]);
        },
        IntKind::IntEq => {},
        IntKind::IntEqReif => {},
        IntKind::IntLe => {
            reveal_strlit("int_le");
            reveal_strlit("int_eq");
            assert("int_le"@[4] != "int_eq"@[4]);
        },
        IntKind::IntLeReif => {
            reveal_strlit("int_le_reif");
            reveal_strlit("int_eq_reif");
            assert("int_le_reif"@[4] != "int_eq_reif"@[4]);
        },
        IntKind::IntLinEq => {},
        IntKind::IntLinEqReif => {},
        IntKind::IntLinLe => {
            reveal_strlit("int_lin_le");
            reveal_strlit("int_lin_eq");
            assert("int_lin_le"@[8] != "int_lin_eq"@[8]);
        },
        IntKind::IntLinLeReif => {
            reveal_strlit("int_lin_le_reif");
            reveal_strlit("int_lin_eq_reif");
            assert("int_lin_le_reif"@[8] != "int_lin_eq_reif"@[8]);
        },
        IntKind::IntLinNe => {
            reveal_strlit("int_lin_ne");
            reveal_strlit("int_lin_eq");
            assert("int_lin_ne"@[8] != "int_lin_eq"@[8]);
            reveal_strlit("int_lin_le");
            assert("int_lin_ne"@[8] != "int_lin_le"@[8]);
        },
        IntKind::IntLinNeReif => {
            reveal_strlit("int_lin_ne_reif");
            reveal_strlit("int_lin_eq_reif");
            assert("int_lin_ne_reif"@[8] != "int_lin_eq_reif"@[8]);
            reveal_strlit("int_lin_le_reif");
            assert("int_lin_ne_reif"@[8] != "int_lin_le_reif"@[8]);
        },
        IntKind::IntLt => {
            reveal_strlit("int_lt");
            reveal_strlit("int_eq");
            assert("int_lt"@[4] != "int_eq"@[4]);
            reveal_strlit("int_le");
            assert("int_lt"@[5] != "int_le"@[5]);
        },
        IntKind::IntLtReif => {
            reveal_strlit("int_lt_reif");
            reveal_strlit("int_eq_reif");
            assert("int_lt_reif"@[4] != "int_eq_reif"@[4]);
            reveal_strlit("int_le_reif");
            assert("int_lt_reif"@[5] != "int_le_reif"@[5]);
        },
        IntKind::IntMax => {
            reveal_strlit("int_max");
            reveal_strlit("int_abs");
            assert("int_max"@[4] != "int_abs"@[4]);
            reveal_strlit("int_div");
            assert("int_max"@[4] != "int_div"@[4]);
        },
        IntKind::IntMin => {
            reveal_strlit("int_min");
            reveal_strlit("int_abs");
            assert("int_min"@[4] != "int_abs"@[4]);
            reveal_strlit("int_div");
            assert("int_min"@[4] != "int_div"@[4]);
            reveal_strlit("int_max");
            assert("int_min"@[5] != "int_max"@[5]);
        },
        IntKind::IntMod => {
            reveal_strlit("int_mod");
            reveal_strlit("int_abs");
            assert("int_mod"@[4] != "int_abs"@[4]);
            reveal_strlit("int_div");
            assert("int_mod"@[4] != "int_div"@[4]);
            reveal_strlit("int_max");
            assert("int_mod"@[5] != "int_max"@[5]);
            reveal_strlit("int_min");
            assert("int_mod"@[5] != "int_min"@[5]);
        },
        IntKind::IntNe => {
            reveal_strlit("int_ne");
            reveal_strlit("int_eq");
            assert("int_ne"@[4] != "int_eq"@[4]);
            reveal_strlit("int_le");
            assert("int_ne"@[4] != "int_le"@[4]);
            reveal_strlit("int_lt");
            assert("int_ne"@[4] != "int_lt"@[4]);
        },
        IntKind::IntNeReif => {
            reveal_strlit("int_ne_reif");
            reveal_strlit("int_eq_reif");
            assert("int_ne_reif"@[4] != "int_eq_reif"@[4]);
            reveal_strlit("int_le_reif");
            assert("int_ne_reif"@[4] != "int_le_reif"@[4]);
            reveal_strlit("int_lt_reif");
            assert("int_ne_reif"@[4] != "int_lt_reif"@[4]);
        },
        IntKind::IntPow => {
            reveal_strlit("int_pow");
            reveal_strlit("int_abs");
            assert("int_pow"@[4] != "int_abs"@[4]);
            reveal_strlit("int_div");
            assert("int_pow"@[4] != "int_div"@[4]);
            reveal_strlit("int_max");
            assert("int_pow"@[4] != "int_max"@[4]);
            reveal_strlit("int_min");
            assert("int_pow"@[4] != "int_min"@[4]);
            reveal_strlit("int_mod");
            assert("int_pow"@[4] != "int_mod"@[4]);
        },
        IntKind::IntTimes => {},
    }
}

/// Every boolean constraint's FlatZinc name selects it.
pub proof fn lemma_bool_names_complete(k: BoolKind)
    ensures
        kind_of_name(bool_kind_name(k)) == ConstraintKind::Boolean(k),
{
    lemma_name_lengths();
    match k {
        BoolKind::ArrayBoolAnd => {},
        BoolKind::ArrayBoolElement => {},
        BoolKind::ArrayVarBoolElement => {},
        BoolKind::ArrayBoolXor => {
            reveal_strlit("array_bool_xor");
            reveal_strlit("array_bool_and");
            assert("array_bool_xor"@[11] != "array_bool_and"@[11]);
        },
        BoolKind::BoolAnd => {
            reveal_strlit("bool_and");
            reveal_strlit("float_eq");
            assert("bool_and"@[0] != "float_eq"@[0]);
            reveal_strlit("float_le");
            assert("bool_and"@[0] != "float_le"@[0]);
            reveal_strlit("float_ln");
            assert("bool_and"@[0] != "float_ln"@[0]);
            reveal_strlit("float_lt");
            assert("bool_and"@[0] != "float_lt"@[0]);
            reveal_strlit("float_ne");
            assert("bool_and"@[0] != "float_ne"@[0]);
        },
        BoolKind::BoolClause => {
            reveal_strlit("bool_clause");
            reveal_strlit("int_eq_reif");
            assert("bool_clause"@[0] != "int_eq_reif"@[0]);
            reveal_strlit("int_le_reif");
            assert("bool_clause"@[0] != "int_le_reif"@[0]);
            reveal_strlit("int_lt_reif");
            assert("bool_clause"@[0] != "int_lt_reif"@[0]);
            reveal_strlit("int_ne_reif");
            assert("bool_clause"@[0] != "int_ne_reif"@[0]);
            reveal_strlit("float_acosh");
            assert("bool_clause"@[0] != "float_acosh"@[0]);
            reveal_strlit("float_asinh");
            assert("bool_clause"@[0] != "float_asinh"@[0]);
            reveal_strlit("float_atanh");
            assert("bool_clause"@[0] != "float_atanh"@[0]);
            reveal_strlit("float_log10");
            assert("bool_clause"@[0] != "float_log10"@[0]);
            reveal_strlit("float_times");
            assert("bool_clause"@[0] != "float_times"@[0]);
        },
        BoolKind::BoolEq => {
            reveal_strlit("bool_eq");
            reveal_strlit("int_abs");
            assert("bool_eq"@[0] != "int_abs"@[0]);
            reveal_strlit("int_div");
            assert("bool_eq"@[0] != "int_div"@[0]);
            reveal_strlit("int_max");
            assert("bool_eq"@[0] != "int_max"@[0]);
            reveal_strlit("int_min");
            assert("bool_eq"@[0] != "int_min"@[0]);
            reveal_strlit("int_mod");
            assert("bool_eq"@[0] != "int_mod"@[0]);
            reveal_strlit("int_pow");
            assert("bool_eq"@[0] != "int_pow"@[0]);
        },
        BoolKind::BoolEqReif => {
            reveal_strlit("bool_eq_reif");
            reveal_strlit("float_lin_eq");
            assert("bool_eq_reif"@[0] != "float_lin_eq"@[0]);
            reveal_strlit("float_lin_le");
            assert("bool_eq_reif"@[0] != "float_lin_le"@[0]);
            reveal_strlit("float_lin_lt");
            assert("bool_eq_reif"@[0] != "float_lin_lt"@[0]);
            reveal_strlit("float_lin_ne");
            assert("bool_eq_reif"@[0] != "float_lin_ne"@[0]);
        },
        BoolKind::BoolLe => {
            reveal_strlit("bool_le");
            reveal_strlit("int_abs");
            assert("bool_le"@[0] != "int_abs"@[0]);
            reveal_strlit("int_div");
            assert("bool_le"@[0] != "int_div"@[0]);
            reveal_strlit("int_max");
            assert("bool_le"@[0] != "int_max"@[0]);
            reveal_strlit("int_min");
            assert("bool_le"@[0] != "int_min"@[0]);
            reveal_strlit("int_mod");
            assert("bool_le"@[0] != "int_mod"@[0]);
            reveal_strlit("int_pow");
            assert("bool_le"@[0] != "int_pow"@[0]);
            reveal_strlit("bool_eq");
            assert("bool_le"@[5] != "bool_eq"@[5]);
        },
        BoolKind::BoolLeReif => {
            reveal_strlit("bool_le_reif");
            reveal_strlit("float_lin_eq");
            assert("bool_le_reif"@[0] != "float_lin_eq"@[0]);
            reveal_strlit("float_lin_le");
            assert("bool_le_reif"@[0] != "float_lin_le"@[0]);
            reveal_strlit("float_lin_lt");
            assert("bool_le_reif"@[0] != "float_lin_lt"@[0]);
            reveal_strlit("float_lin_ne");
            assert("bool_le_reif"@[0] != "float_lin_ne"@[0]);
            reveal_strlit("bool_eq_reif");
            assert("bool_le_reif"@[5] != "bool_eq_reif"@[5]);
        },
        BoolKind::BoolLinEq => {
            reveal_strlit("bool_lin_eq");
            reveal_strlit("int_eq_reif");
            assert("bool_lin_eq"@[0] != "int_eq_reif"@[0]);
            reveal_strlit("int_le_reif");
            assert("bool_lin_eq"@[0] != "int_le_reif"@[0]);
            reveal_strlit("int_lt_reif");
            assert("bool_lin_eq"@[0] != "int_lt_reif"@[0]);
            reveal_strlit("int_ne_reif");
            assert("bool_lin_eq"@[0] != "int_ne_reif"@[0]);
            reveal_strlit("float_acosh");
            assert("bool_lin_eq"@[0] != "float_acosh"@[0]);
            reveal_strlit("float_asinh");
            assert("bool_lin_eq"@[0] != "float_asinh"@[0]);
            reveal_strlit("float_atanh");
            assert("bool_lin_eq"@[0] != "float_atanh"@[0]);
            reveal_strlit("float_log10");
            assert("bool_lin_eq"@[0] != "float_log10"@[0]);
            reveal_strlit("float_times");
            assert("bool_lin_eq"@[0] != "float_times"@[0]);
            reveal_strlit("bool_clause");
            assert("bool_lin_eq"@[5] != "bool_clause"@[5]);
        },
        BoolKind::BoolLinLe => {
            reveal_strlit("bool_lin_le");
            reveal_strlit("int_eq_reif");
            assert("bool_lin_le"@[0] != "int_eq_reif"@[0]);
            reveal_strlit("int_le_reif");
            assert("bool_lin_le"@[0] != "int_le_reif"@[0]);
            reveal_strlit("int_lt_reif");
            assert("bool_lin_le"@[0] != "int_lt_reif"@[0]);
            reveal_strlit("int_ne_reif");
            assert("bool_lin_le"@[0] != "int_ne_reif"@[0]);
            reveal_strlit("float_acosh");
            assert("bool_lin_le"@[0] != "float_acosh"@[0]);
            reveal_strlit("float_asinh");
            assert("bool_lin_le"@[0] != "float_asinh"@[0]);
            reveal_strlit("float_atanh");
            assert("bool_lin_le"@[0] != "float_atanh"@[0]);
            reveal_strlit("float_log10");
            assert("bool_lin_le"@[0] != "float_log10"@[0]);
            reveal_strlit("float_times");
            assert("bool_lin_le"@[0] != "float_times"@[0]);
            reveal_strlit("bool_clause");
            assert("bool_lin_le"@[5] != "bool_clause"@[5]);
            reveal_strlit("bool_lin_eq");
            assert("bool_lin_le"@[9] != "bool_lin_eq"@[9]);
        },
        BoolKind::Bool2Int => {
            reveal_strlit("bool2int");
            reveal_strlit("float_eq");
            assert("bool2int"@[0] != "float_eq"@[0]);
            reveal_strlit("float_le");
            assert("bool2int"@[0] != "float_le"@[0]);
            reveal_strlit("float_ln");
            assert("bool2int"@[0] != "float_ln"@[0]);
            reveal_strlit("float_lt");
            assert("bool2int"@[0] != "float_lt"@[0]);
            reveal_strlit("float_ne");
            assert("bool2int"@[0] != "float_ne"@[0]);
            reveal_strlit("bool_and");
            assert("bool2int"@[4] != "bool_and"@[4]);
        },
        BoolKind::BoolLt => {
            reveal_strlit("bool_lt");
            reveal_strlit("int_abs");
            assert("bool_lt"@[0] != "int_abs"@[0]);
            reveal_strlit("int_div");
            assert("bool_lt"@[0] != "int_div"@[0]);
            reveal_strlit("int_max");
            assert("bool_lt"@[0] != "int_max"@[0]);
            reveal_strlit("int_min");
            assert("bool_lt"@[0] != "int_min"@[0]);
            reveal_strlit("int_mod");
            assert("bool_lt"@[0] != "int_mod"@[0]);
            reveal_strlit("int_pow");
            assert("bool_lt"@[0] != "int_pow"@[0]);
            reveal_strlit("bool_eq");
            assert("bool_lt"@[5] != "bool_eq"@[5]);
            reveal_strlit("bool_le");
            assert("bool_lt"@[6] != "bool_le"@[6]);
        },
        BoolKind::BoolLtReif => {
            reveal_strlit("bool_lt_reif");
            reveal_strlit("float_lin_eq");
            assert("bool_lt_reif"@[0] != "float_lin_eq"@[0]);
            reveal_strlit("float_lin_le");
            assert("bool_lt_reif"@[0] != "float_lin_le"@[0]);
            reveal_strlit("float_lin_lt");
            assert("bool_lt_reif"@[0] != "float_lin_lt"@[0]);
            reveal_strlit("float_lin_ne");
            assert("bool_lt_reif"@[0] != "float_lin_ne"@[0]);
            reveal_strlit("bool_eq_reif");
            assert("bool_lt_reif"@[5] != "bool_eq_reif"@[5]);
            reveal_strlit("bool_le_reif");
            assert("bool_lt_reif"@[6] != "bool_le_reif"@[6]);
        },
        BoolKind::BoolNot => {
            reveal_strlit("bool_not");
            reveal_strlit("float_eq");
            assert("bool_not"@[0] != "float_eq"@[0]);
            reveal_strlit("float_le");
            assert("bool_not"@[0] != "float_le"@[0]);
            reveal_strlit("float_ln");
            assert("bool_not"@[0] != "float_ln"@[0]);
            reveal_strlit("float_lt");
            assert("bool_not"@[0] != "float_lt"@[0]);
            reveal_strlit("float_ne");
            assert("bool_not"@[0] != "float_ne"@[0]);
            reveal_strlit("bool_and");
            assert("bool_not"@[5] != "bool_and"@[5]);
            reveal_strlit("bool2int");
            assert("bool_not"@[4] != "bool2int"@[4]);
        },
        BoolKind::BoolOr => {
            reveal_strlit("bool_or");
            reveal_strlit("int_abs");
            assert("bool_or"@[0] != "int_abs"@[0]);
            reveal_strlit("int_div");
            assert("bool_or"@[0] != "int_div"@[0]);
            reveal_strlit("int_max");
            assert("bool_or"@[0] != "int_max"@[0]);
            reveal_strlit("int_min");
            assert("bool_or"@[0] != "int_min"@[0]);
            reveal_strlit("int_mod");
            assert("bool_or"@[0] != "int_mod"@[0]);
            reveal_strlit("int_pow");
            assert("bool_or"@[0] != "int_pow"@[0]);
            reveal_strlit("bool_eq");
            assert("bool_or"@[5] != "bool_eq"@[5]);
            reveal_strlit("bool_le");
            assert("bool_or"@[5] != "bool_le"@[5]);
            reveal_strlit("bool_lt");
            assert("bool_or"@[5] != "bool_lt"@[5]);
        },
        BoolKind::BoolXor => {
            reveal_strlit("bool_xor");
            reveal_strlit("float_eq");
            assert("bool_xor"@[0] != "float_eq"@[0]);
            reveal_strlit("float_le");
            assert("bool_xor"@[0] != "float_le"@[0]);
            reveal_strlit("float_ln");
            assert("bool_xor"@[0] != "float_ln"@[0]);
            reveal_strlit("float_lt");
            assert("bool_xor"@[0] != "float_lt"@[0]);
            reveal_strlit("float_ne");
            assert("bool_xor"@[0] != "float_ne"@[0]);
            reveal_strlit("bool_and");
            assert("bool_xor"@[5] != "bool_and"@[5]);
            reveal_strlit("bool2int");
            assert("bool_xor"@[4] != "bool2int"@[4]);
            reveal_strlit("bool_not");
            assert("bool_xor"@[5] != "bool_not"@[5]);
        },
    }
}

/// Every set constraint's FlatZinc name selects it.
pub proof fn lemma_set_names_complete(k: SetKind)
    ensures
        kind_of_name(set_kind_name(k)) == ConstraintKind::IntegerSet(k),
{
    lemma_name_lengths();
    match k {
        SetKind::ArraySetElement => {
            reveal_strlit("array_set_element");
            reveal_strlit("array_int_element");
            assert("array_set_element"@[6] != "array_int_element"@[6]);
            reveal_strlit("float_lin_eq_reif");
            assert("array_set_element"@[0] != "float_lin_eq_reif"@[0]);
            reveal_strlit("float_lin_le_reif");
            assert("array_set_element"@[0] != "float_lin_le_reif"@[0]);
            reveal_strlit("float_lin_lt_reif");
            assert("array_set_element"@[0] != "float_lin_lt_reif"@[0]);
            reveal_strlit("float_lin_ne_reif");
            assert("array_set_element"@[0] != "float_lin_ne_reif"@[0]);
        },
        SetKind::ArrayVarSetElement => {
            reveal_strlit("array_var_set_element");
            reveal_strlit("array_var_int_element");
            assert("array_var_set_element"@[10] != "array_var_int_element"@[10]);
        },
        SetKind::SetCard => {
            reveal_strlit("set_card");
            reveal_strlit("float_eq");
            assert("set_card"@[0] != "float_eq"@[0]);
            reveal_strlit("float_le");
            assert("set_card"@[0] != "float_le"@[0]);
            reveal_strlit("float_ln");
            assert("set_card"@[0] != "float_ln"@[0]);
            reveal_strlit("float_lt");
            assert("set_card"@[0] != "float_lt"@[0]);
            reveal_strlit("float_ne");
            assert("set_card"@[0] != "float_ne"@[0]);
            reveal_strlit("bool_and");
            assert("set_card"@[0] != "bool_and"@[0]);
            reveal_strlit("bool2int");
            assert("set_card"@[0] != "bool2int"@[0]);
            reveal_strlit("bool_not");
            assert("set_card"@[0] != "bool_not"@[0]);
            reveal_strlit("bool_xor");
            assert("set_card"@[0] != "bool_xor"@[0]);
        },
        SetKind::SetDiff => {
            reveal_strlit("set_diff");
            reveal_strlit("float_eq");
            assert("set_diff"@[0] != "float_eq"@[0]);
            reveal_strlit("float_le");
            assert("set_diff"@[0] != "float_le"@[0]);
            reveal_strlit("float_ln");
            assert("set_diff"@[0] != "float_ln"@[0]);
            reveal_strlit("float_lt");
            assert("set_diff"@[0] != "float_lt"@[0]);
            reveal_strlit("float_ne");
            assert("set_diff"@[0] != "float_ne"@[0]);
            reveal_strlit("bool_and");
            assert("set_diff"@[0] != "bool_and"@[0]);
            reveal_strlit("bool2int");
            assert("set_diff"@[0] != "bool2int"@[0]);
            reveal_strlit("bool_not");
            assert("set_diff"@[0] != "bool_not"@[0]);
            reveal_strlit("bool_xor");
            assert("set_diff"@[0] != "bool_xor"@[0]);
            reveal_strlit("set_card");
            assert("set_diff"@[4] != "set_card"@[4]);
        },
        SetKind::SetEq => {
            reveal_strlit("set_eq");
            reveal_strlit("int_eq");
            assert("set_eq"@[0] != "int_eq"@[0]);
            reveal_strlit("int_le");
            assert("set_eq"@[0] != "int_le"@[0]);
            reveal_strlit("int_lt");
            assert("set_eq"@[0] != "int_lt"@[0]);
            reveal_strlit("int_ne");
            assert("set_eq"@[0] != "int_ne"@[0]);
        },
        SetKind::SetEqReif => {
            reveal_strlit("set_eq_reif");
            reveal_strlit("int_eq_reif");
            assert("set_eq_reif"@[0] != "int_eq_reif"@[0]);
            reveal_strlit("int_le_reif");
            assert("set_eq_reif"@[0] != "int_le_reif"@[0]);
            reveal_strlit("int_lt_reif");
            assert("set_eq_reif"@[0] != "int_lt_reif"@[0]);
            reveal_strlit("int_ne_reif");
            assert("set_eq_reif"@[0] != "int_ne_reif"@[0]);
            reveal_strlit("float_acosh");
            assert("set_eq_reif"@[0] != "float_acosh"@[0]);
            reveal_strlit("float_asinh");
            assert("set_eq_reif"@[0] != "float_asinh"@[0]);
            reveal_strlit("float_atanh");
            assert("set_eq_reif"@[0] != "float_atanh"@[0]);
            reveal_strlit("float_log10");
            assert("set_eq_reif"@[0] != "float_log10"@[0]);
            reveal_strlit("float_times");
            assert("set_eq_reif"@[0] != "float_times"@[0]);
            reveal_strlit("bool_clause");
            assert("set_eq_reif"@[0] != "bool_clause"@[0]);
            reveal_strlit("bool_lin_eq");
            assert("set_eq_reif"@[0] != "bool_lin_eq"@[0]);
            reveal_strlit("bool_lin_le");
            assert("set_eq_reif"@[0] != "bool_lin_le"@[0]);
        },
        SetKind::SetIn => {
            reveal_strlit("set_in");
            reveal_strlit("int_eq");
            assert("set_in"@[0] != "int_eq"@[0]);
            reveal_strlit("int_le");
            assert("set_in"@[0] != "int_le"@[0]);
            reveal_strlit("int_lt");
            assert("set_in"@[0] != "int_lt"@[0]);
            reveal_strlit("int_ne");
            assert("set_in"@[0] != "int_ne"@[0]);
            reveal_strlit("set_eq");
            assert("set_in"@[4] != "set_eq"@[4]);
        },
        SetKind::SetInReif => {
            reveal_strlit("set_in_reif");
            reveal_strlit("int_eq_reif");
            assert("set_in_reif"@[0] != "int_eq_reif"@[0]);
            reveal_strlit("int_le_reif");
            assert("set_in_reif"@[0] != "int_le_reif"@[0]);
            reveal_strlit("int_lt_reif");
            assert("set_in_reif"@[0] != "int_lt_reif"@[0]);
            reveal_strlit("int_ne_reif");
            assert("set_in_reif"@[0] != "int_ne_reif"@[0]);
            reveal_strlit("float_acosh");
            assert("set_in_reif"@[0] != "float_acosh"@[0]);
            reveal_strlit("float_asinh");
            assert("set_in_reif"@[0] != "float_asinh"@[0]);
            reveal_strlit("float_atanh");
            assert("set_in_reif"@[0] != "float_atanh"@[0]);
            reveal_strlit("float_log10");
            assert("set_in_reif"@[0] != "float_log10"@[0]);
            reveal_strlit("float_times");
            assert("set_in_reif"@[0] != "float_times"@[0]);
            reveal_strlit("bool_clause");
            assert("set_in_reif"@[0] != "bool_clause"@[0]);
            reveal_strlit("bool_lin_eq");
            assert("set_in_reif"@[0] != "bool_lin_eq"@[0]);
            reveal_strlit("bool_lin_le");
            assert("set_in_reif"@[0] != "bool_lin_le"@[0]);
            reveal_strlit("set_eq_reif");
            assert("set_in_reif"@[4] != "set_eq_reif"@[4]);
        },
        SetKind::SetIntersect => {
            reveal_strlit("set_intersect");
            reveal_strlit("float_eq_reif");
            assert("set_intersect"@[0] != "float_eq_reif"@[0]);
            reveal_strlit("float_le_reif");
            assert("set_intersect"@[0] != "float_le_reif"@[0]);
            reveal_strlit("float_lt_reif");
            assert("set_intersect"@[0] != "float_lt_reif"@[0]);
            reveal_strlit("float_ne_reif");
            assert("set_intersect"@[0] != "float_ne_reif"@[0]);
        },
        SetKind::SetLe => {
            reveal_strlit("set_le");
            reveal_strlit("int_eq");
            assert("set_le"@[0] != "int_eq"@[0]);
            reveal_strlit("int_le");
            assert("set_le"@[0] != "int_le"@[0]);
            reveal_strlit("int_lt");
            assert("set_le"@[0] != "int_lt"@[0]);
            reveal_strlit("int_ne");
            assert("set_le"@[0] != "int_ne"@[0]);
            reveal_strlit("set_eq");
            assert("set_le"@[4] != "set_eq"@[4]);
            reveal_strlit("set_in");
            assert("set_le"@[4] != "set_in"@[4]);
        },
        SetKind::SetLeReif => {
            reveal_strlit("set_le_reif");
            reveal_strlit("int_eq_reif");
            assert("set_le_reif"@[0] != "int_eq_reif"@[0]);
            reveal_strlit("int_le_reif");
            assert("set_le_reif"@[0] != "int_le_reif"@[0]);
            reveal_strlit("int_lt_reif");
            assert("set_le_reif"@[0] != "int_lt_reif"@[0]);
            reveal_strlit("int_ne_reif");
            assert("set_le_reif"@[0] != "int_ne_reif"@[0]);
            reveal_strlit("float_acosh");
            assert("set_le_reif"@[0] != "float_acosh"@[0]);
            reveal_strlit("float_asinh");
            assert("set_le_reif"@[0] != "float_asinh"@[0]);
            reveal_strlit("float_atanh");
            assert("set_le_reif"@[0] != "float_atanh"@[0]);
            reveal_strlit("float_log10");
            assert("set_le_reif"@[0] != "float_log10"@[0]);
            reveal_strlit("float_times");
            assert("set_le_reif"@[0] != "float_times"@[0]);
            reveal_strlit("bool_clause");
            assert("set_le_reif"@[0] != "bool_clause"@[0]);
            reveal_strlit("bool_lin_eq");
            assert("set_le_reif"@[0] != "bool_lin_eq"@[0]);
            reveal_strlit("bool_lin_le");
            assert("set_le_reif"@[0] != "bool_lin_le"@[0]);
            reveal_strlit("set_eq_reif");
            assert("set_le_reif"@[4] != "set_eq_reif"@[4]);
            reveal_strlit("set_in_reif");
            assert("set_le_reif"@[4] != "set_in_reif"@[4]);
        },
        SetKind::SetLt => {
            reveal_strlit("set_lt");
            reveal_strlit("int_eq");
            assert("set_lt"@[0] != "int_eq"@[0]);
            reveal_strlit("int_le");
            assert("set_lt"@[0] != "int_le"@[0]);
            reveal_strlit("int_lt");
            assert("set_lt"@[0] != "int_lt"@[0]);
            reveal_strlit("int_ne");
            assert("set_lt"@[0] != "int_ne"@[0]);
            reveal_strlit("set_eq");
            assert("set_lt"@[4] != "set_eq"@[4]);
            reveal_strlit("set_in");
            assert("set_lt"@[4] != "set_in"@[4]);
            reveal_strlit("set_le");
            assert("set_lt"@[5] != "set_le"@[5]);
        },
        SetKind::SetLtReif => {
            reveal_strlit("set_lt_reif");
            reveal_strlit("int_eq_reif");
            assert("set_lt_reif"@[0] != "int_eq_reif"@[0]);
            reveal_strlit("int_le_reif");
            assert("set_lt_reif"@[0] != "int_le_reif"@[0]);
            reveal_strlit("int_lt_reif");
            assert("set_lt_reif"@[0] != "int_lt_reif"@[0]);
            reveal_strlit("int_ne_reif");
            assert("set_lt_reif"@[0] != "int_ne_reif"@[0]);
            reveal_strlit("float_acosh");
            assert("set_lt_reif"@[0] != "float_acosh"@[0]);
            reveal_strlit("float_asinh");
            assert("set_lt_reif"@[0] != "float_asinh"@[0]);
            reveal_strlit("float_atanh");
            assert("set_lt_reif"@[0] != "float_atanh"@[0]);
            reveal_strlit("float_log10");
            assert("set_lt_reif"@[0] != "float_log10"@[0]);
            reveal_strlit("float_times");
            assert("set_lt_reif"@[0] != "float_times"@[0]);
            reveal_strlit("bool_clause");
            assert("set_lt_reif"@[0] != "bool_clause"@[0]);
            reveal_strlit("bool_lin_eq");
            assert("set_lt_reif"@[0] != "bool_lin_eq"@[0]);
            reveal_strlit("bool_lin_le");
            assert("set_lt_reif"@[0] != "bool_lin_le"@[0]);
            reveal_strlit("set_eq_reif");
            assert("set_lt_reif"@[4] != "set_eq_reif"@[4]);
            reveal_strlit("set_in_reif");
            assert("set_lt_reif"@[4] != "set_in_reif"@[4]);
            reveal_strlit("set_le_reif");
            assert("set_lt_reif"@[5] != "set_le_reif"@[5]);
        },
        SetKind::SetNe => {
            reveal_strlit("set_ne");
            reveal_strlit("int_eq");
            assert("set_ne"@[0] != "int_eq"@[0]);
            reveal_strlit("int_le");
            assert("set_ne"@[0] != "int_le"@[0]);
            reveal_strlit("int_lt");
            assert("set_ne"@[0] != "int_lt"@[0]);
            reveal_strlit("int_ne");
            assert("set_ne"@[0] != "int_ne"@[0]);
            reveal_strlit("set_eq");
            assert("set_ne"@[4] != "set_eq"@[4]);
            reveal_strlit("set_in");
            assert("set_ne"@[4] != "set_in"@[4]);
            reveal_strlit("set_le");
            assert("set_ne"@[4] != "set_le"@[4]);
            reveal_strlit("set_lt");
            assert("set_ne"@[4] != "set_lt"@[4]);
        },
        SetKind::SetNeReif => {
            reveal_strlit("set_ne_reif");
            reveal_strlit("int_eq_reif");
            assert("set_ne_reif"@[0] != "int_eq_reif"@[0]);
            reveal_strlit("int_le_reif");
            assert("set_ne_reif"@[0] != "int_le_reif"@[0]);
            reveal_strlit("int_lt_reif");
            assert("set_ne_reif"@[0] != "int_lt_reif"@[0]);
            reveal_strlit("int_ne_reif");
            assert("set_ne_reif"@[0] != "int_ne_reif"@[0]);
            reveal_strlit("float_acosh");
            assert("set_ne_reif"@[0] != "float_acosh"@[0]);
            reveal_strlit("float_asinh");
            assert("set_ne_reif"@[0] != "float_asinh"@[0]);
            reveal_strlit("float_atanh");
            assert("set_ne_reif"@[0] != "float_atanh"@[0]);
            reveal_strlit("float_log10");
            assert("set_ne_reif"@[0] != "float_log10"@[0]);
            reveal_strlit("float_times");
            assert("set_ne_reif"@[0] != "float_times"@[0]);
            reveal_strlit("bool_clause");
            assert("set_ne_reif"@[0] != "bool_clause"@[0]);
            reveal_strlit("bool_lin_eq");
            assert("set_ne_reif"@[0] != "bool_lin_eq"@[0]);
            reveal_strlit("bool_lin_le");
            assert("set_ne_reif"@[0] != "bool_lin_le"@[0]);
            reveal_strlit("set_eq_reif");
            assert("set_ne_reif"@[4] != "set_eq_reif"@[4]);
            reveal_strlit("set_in_reif");
            assert("set_ne_reif"@[4] != "set_in_reif"@[4]);
            reveal_strlit("set_le_reif");
            assert("set_ne_reif"@[4] != "set_le_reif"@[4]);
            reveal_strlit("set_lt_reif");
            assert("set_ne_reif"@[4] != "set_lt_reif"@[4]);
        },
        SetKind::SetSubset => {
            reveal_strlit("set_subset");
            reveal_strlit("int_lin_eq");
            assert("set_subset"@[0] != "int_lin_eq"@[0]);
            reveal_strlit("int_lin_le");
            assert("set_subset"@[0] != "int_lin_le"@[0]);
            reveal_strlit("int_lin_ne");
            assert("set_subset"@[0] != "int_lin_ne"@[0]);
            reveal_strlit("float_acos");
            assert("set_subset"@[0] != "float_acos"@[0]);
            reveal_strlit("float_asin");
            assert("set_subset"@[0] != "float_asin"@[0]);
            reveal_strlit("float_atan");
            assert("set_subset"@[0] != "float_atan"@[0]);
            reveal_strlit("float_cosh");
            assert("set_subset"@[0] != "float_cosh"@[0]);
            reveal_strlit("float_log2");
            assert("set_subset"@[0] != "float_log2"@[0]);
            reveal_strlit("float_plus");
            assert("set_subset"@[0] != "float_plus"@[0]);
            reveal_strlit("float_sinh");
            assert("set_subset"@[0] != "float_sinh"@[0]);
            reveal_strlit("float_sqrt");
            assert("set_subset"@[0] != "float_sqrt"@[0]);
            reveal_strlit("float_tanh");
            assert("set_subset"@[0] != "float_tanh"@[0]);
        },
        SetKind::SetSubsetReif => {
            reveal_strlit("set_subset_reif");
            reveal_strlit("int_lin_eq_reif");
            assert("set_subset_reif"@[0] != "int_lin_eq_reif"@[0]);
            reveal_strlit("int_lin_le_reif");
            assert("set_subset_reif"@[0] != "int_lin_le_reif"@[0]);
            reveal_strlit("int_lin_ne_reif");
            assert("set_subset_reif"@[0] != "int_lin_ne_reif"@[0]);
        },
        SetKind::SetSuperset => {
            reveal_strlit("set_superset");
            reveal_strlit("float_lin_eq");
            assert("set_superset"@[0] != "float_lin_eq"@[0]);
            reveal_strlit("float_lin_le");
            assert("set_superset"@[0] != "float_lin_le"@[0]);
            reveal_strlit("float_lin_lt");
            assert("set_superset"@[0] != "float_lin_lt"@[0]);
            reveal_strlit("float_lin_ne");
            assert("set_superset"@[0] != "float_lin_ne"@[0]);
            reveal_strlit("bool_eq_reif");
            assert("set_superset"@[0] != "bool_eq_reif"@[0]);
            reveal_strlit("bool_le_reif");
            assert("set_superset"@[0] != "bool_le_reif"@[0]);
            reveal_strlit("bool_lt_reif");
            assert("set_superset"@[0] != "bool_lt_reif"@[0]);
        },
        SetKind::SetSupersetReif => {
            reveal_strlit("set_superset_reif");
            reveal_strlit("array_int_element");
            assert("set_superset_reif"@[0] != "array_int_element"@[0]);
            reveal_strlit("float_lin_eq_reif");
            assert("set_superset_reif"@[0] != "float_lin_eq_reif"@[0]);
            reveal_strlit("float_lin_le_reif");
            assert("set_superset_reif"@[0] != "float_lin_le_reif"@[0]);
            reveal_strlit("float_lin_lt_reif");
            assert("set_superset_reif"@[0] != "float_lin_lt_reif"@[0]);
            reveal_strlit("float_lin_ne_reif");
            assert("set_superset_reif"@[0] != "float_lin_ne_reif"@[0]);
            reveal_strlit("array_set_element");
            assert("set_superset_reif"@[0] != "array_set_element"@[0]);
        },
        SetKind::SetSymdiff => {
            reveal_strlit("set_symdiff");
            reveal_strlit("int_eq_reif");
            assert("set_symdiff"@[0] != "int_eq_reif"@[0]);
            reveal_strlit("int_le_reif");
            assert("set_symdiff"@[0] != "int_le_reif"@[0]);
            reveal_strlit("int_lt_reif");
            assert("set_symdiff"@[0] != "int_lt_reif"@[0]);
            reveal_strlit("int_ne_reif");
            assert("set_symdiff"@[0] != "int_ne_reif"@[0]);
            reveal_strlit("float_acosh");
            assert("set_symdiff"@[0] != "float_acosh"@[0]);
            reveal_strlit("float_asinh");
            assert("set_symdiff"@[0] != "float_asinh"@[0]);
            reveal_strlit("float_atanh");
            assert("set_symdiff"@[0] != "float_atanh"@[0]);
            reveal_strlit("float_log10");
            assert("set_symdiff"@[0] != "float_log10"@[0]);
            reveal_strlit("float_times");
            assert("set_symdiff"@[0] != "float_times"@[0]);
            reveal_strlit("bool_clause");
            assert("set_symdiff"@[0] != "bool_clause"@[0]);
            reveal_strlit("bool_lin_eq");
            assert("set_symdiff"@[0] != "bool_lin_eq"@[0]);
            reveal_strlit("bool_lin_le");
            assert("set_symdiff"@[0] != "bool_lin_le"@[0]);
            reveal_strlit("set_eq_reif");
            assert("set_symdiff"@[4] != "set_eq_reif"@[4]);
            reveal_strlit("set_in_reif");
            assert("set_symdiff"@[4] != "set_in_reif"@[4]);
            reveal_strlit("set_le_reif");
            assert("set_symdiff"@[4] != "set_le_reif"@[4]);
            reveal_strlit("set_lt_reif");
            assert("set_symdiff"@[4] != "set_lt_reif"@[4]);
            reveal_strlit("set_ne_reif");
            assert("set_symdiff"@[4] != "set_ne_reif"@[4]);
        },
        SetKind::SetUnion => {
            reveal_strlit("set_union");
            reveal_strlit("int_times");
            assert("set_union"@[0] != "int_times"@[0]);
            reveal_strlit("float_abs");
            assert("set_union"@[0] != "float_abs"@[0]);
            reveal_strlit("float_cos");
            assert("set_union"@[0] != "float_cos"@[0]);
            reveal_strlit("float_div");
            assert("set_union"@[0] != "float_div"@[0]);
            reveal_strlit("float_exp");
            assert("set_union"@[0] != "float_exp"@[0]);
            reveal_strlit("float_max");
            assert("set_union"@[0] != "float_max"@[0]);
            reveal_strlit("float_min");
            assert("set_union"@[0] != "float_min"@[0]);
            reveal_strlit("float_pow");
            assert("set_union"@[0] != "float_pow"@[0]);
            reveal_strlit("float_sin");
            assert("set_union"@[0] != "float_sin"@[0]);
            reveal_strlit("float_tan");
            assert("set_union"@[0] != "float_tan"@[0]);
            reveal_strlit("int2float");
            assert("set_union"@[0] != "int2float"@[0]);
        },
    }
}

} // verus!
