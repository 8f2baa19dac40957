//! Boolean constraints evaluated at once against a solution keyed by variable name.
use crate::args_extractor::sub_types::bool_args_extractor::BoolArgsExtractor;
use crate::data_utility::constraint_evaluation::ConstraintEvaluation;
use crate::data_utility::model::{ModelArray, CallWithDefines};
use crate::data_utility::types::VariableValue;
use crate::evaluator::sub_types::bool_evaluator::BoolKind;
use crate::functional_evaluator::sub_types::bool_functional_evaluator::{
    compile_named_bool, lemma_named_compilations_agree, named_compiled, named_kind_violation,
    NamedBoolConstraint,
};
use vstd::hash_map::StringHashMap;
use vstd::prelude::*;

verus! {

pub const A_TERM_INDEX: usize = 0;
pub const B_TERM_INDEX: usize = 1;
pub const C_TERM_INDEX: usize = 2;
pub const AS_ARRAY_INDEX: usize = 0;
pub const BS_ARRAY_INDEX: usize = 1;
pub const R_TERM_INDEX: usize = 1;
pub const COEFF_LIN_CONSTR_INDEX: usize = 0;

/// Evaluates boolean constraints of a FlatZinc model at once against a solution keyed
/// by variable name, giving a [`ConstraintEvaluation`] per constraint.
pub struct BoolInvariantEvaluator {
    /// The named arrays of the model.
    arrays: StringHashMap<ModelArray>,
    /// Extracts boolean arguments from constraints.
    args_extractor: BoolArgsExtractor,
    /// Whether violated constraints are to be reported.
    verbose: bool,
}

impl BoolInvariantEvaluator {
    /// The named arrays the evaluator resolves array arguments with.
    pub closed spec fn array_map(&self) -> Map<Seq<char>, ModelArray> {
        self.arrays@
    }

    /// Whether violated constraints are to be reported.
    pub closed spec fn is_verbose(&self) -> bool {
        self.verbose
    }

    /// Creates an evaluator over the named arrays of a model.
    pub fn new(arrays: StringHashMap<ModelArray>, verbose: bool) -> (r: Self)
        ensures
            r.array_map() == arrays@,
            r.is_verbose() == verbose,
    {
        let args_extractor = BoolArgsExtractor::new();
        Self { arrays, args_extractor, verbose }
    }

    /// Whether violated constraints are to be reported.
    pub fn verbose(&self) -> (r: bool)
        ensures
            r == self.is_verbose(),
    {
        self.verbose
    }

    /// Compiles `constraint` as `kind` and evaluates it in `solution`.
    fn evaluate(
        &self,
        kind: BoolKind,
        constraint: &CallWithDefines,
        solution: &StringHashMap<VariableValue>,
    ) -> (r: Option<ConstraintEvaluation>)
        ensures
            r is Some <==> named_kind_violation(kind, constraint.call@, self.array_map(), solution@) is Some,
            r matches Some(e) ==> e.constraint_id == constraint.id && e.violation == named_kind_violation(
                kind,
                constraint.call@,
                self.array_map(),
                solution@,
            )->0,
    {
        let p = match compile_named_bool(&self.args_extractor, &self.arrays, kind, &constraint.call) {
            Some(p) => p,
            None => {
                return None;
            },
        };
        proof {
            let q = choose|q: NamedBoolConstraint| named_compiled(kind, q, constraint.call@, self.array_map());
            lemma_named_compilations_agree(kind, p, q, constraint.call@, self.array_map(), solution@);
        }
        let v = p.violation(solution)?;
        Some(ConstraintEvaluation { constraint_id: constraint.id, violation: v })
    }

    /// Evaluates a `array_bool_and` constraint in `solution`: `r <-> (as[0] /\ as[1] /\ ...)`. The violation is `1`
    /// when the solution violates it, `0` otherwise.
    ///
    /// `None` when the constraint cannot be compiled or its operands have no values
    /// of the right type (see [`named_kind_violation`]).
    pub fn array_bool_and(
        &self,
        constraint: &CallWithDefines,
        solution: &StringHashMap<VariableValue>,
    ) -> (r: Option<ConstraintEvaluation>)
        ensures
            r is Some <==> named_kind_violation(BoolKind::ArrayBoolAnd, constraint.call@, self.array_map(), solution@) is Some,
            r matches Some(e) ==> e.constraint_id == constraint.id && e.violation == named_kind_violation(
                BoolKind::ArrayBoolAnd,
                constraint.call@,
                self.array_map(),
                solution@,
            )->0,
    {
        self.evaluate(BoolKind::ArrayBoolAnd, constraint, solution)
    }

    /// Evaluates a `array_bool_element` constraint in `solution`: `array[index] = value` over a constant array of booleans. The violation is `1`
    /// when the solution violates it, `0` otherwise.
    ///
    /// `None` when the constraint cannot be compiled or its operands have no values
    /// of the right type (see [`named_kind_violation`]).
    pub fn array_bool_element(
        &self,
        constraint: &CallWithDefines,
        solution: &StringHashMap<VariableValue>,
    ) -> (r: Option<ConstraintEvaluation>)
        ensures
            r is Some <==> named_kind_violation(BoolKind::ArrayBoolElement, constraint.call@, self.array_map(), solution@) is Some,
            r matches Some(e) ==> e.constraint_id == constraint.id && e.violation == named_kind_violation(
                BoolKind::ArrayBoolElement,
                constraint.call@,
                self.array_map(),
                solution@,
            )->0,
    {
        self.evaluate(BoolKind::ArrayBoolElement, constraint, solution)
    }

    /// Evaluates a `array_bool_xor` constraint in `solution`: an odd number of `as` hold. The violation is `1`
    /// when the solution violates it, `0` otherwise.
    ///
    /// `None` when the constraint cannot be compiled or its operands have no values
    /// of the right type (see [`named_kind_violation`]).
    pub fn array_bool_xor(
        &self,
        constraint: &CallWithDefines,
        solution: &StringHashMap<VariableValue>,
    ) -> (r: Option<ConstraintEvaluation>)
        ensures
            r is Some <==> named_kind_violation(BoolKind::ArrayBoolXor, constraint.call@, self.array_map(), solution@) is Some,
            r matches Some(e) ==> e.constraint_id == constraint.id && e.violation == named_kind_violation(
                BoolKind::ArrayBoolXor,
                constraint.call@,
                self.array_map(),
                solution@,
            )->0,
    {
        self.evaluate(BoolKind::ArrayBoolXor, constraint, solution)
    }

    /// Evaluates a `bool_and` constraint in `solution`: `c <-> a /\ b`. The violation is `1`
    /// when the solution violates it, `0` otherwise.
    ///
    /// `None` when the constraint cannot be compiled or its operands have no values
    /// of the right type (see [`named_kind_violation`]).
    pub fn bool_and(
        &self,
        constraint: &CallWithDefines,
        solution: &StringHashMap<VariableValue>,
    ) -> (r: Option<ConstraintEvaluation>)
        ensures
            r is Some <==> named_kind_violation(BoolKind::BoolAnd, constraint.call@, self.array_map(), solution@) is Some,
            r matches Some(e) ==> e.constraint_id == constraint.id && e.violation == named_kind_violation(
                BoolKind::BoolAnd,
                constraint.call@,
                self.array_map(),
                solution@,
            )->0,
    {
        self.evaluate(BoolKind::BoolAnd, constraint, solution)
    }

    /// Evaluates a `bool_clause` constraint in `solution`: some of `as` or `bs` is true (the evaluation counts the true values of both arrays). The violation is `1`
    /// when the solution violates it, `0` otherwise.
    ///
    /// `None` when the constraint cannot be compiled or its operands have no values
    /// of the right type (see [`named_kind_violation`]).
    pub fn bool_clause(
        &self,
        constraint: &CallWithDefines,
        solution: &StringHashMap<VariableValue>,
    ) -> (r: Option<ConstraintEvaluation>)
        ensures
            r is Some <==> named_kind_violation(BoolKind::BoolClause, constraint.call@, self.array_map(), solution@) is Some,
            r matches Some(e) ==> e.constraint_id == constraint.id && e.violation == named_kind_violation(
                BoolKind::BoolClause,
                constraint.call@,
                self.array_map(),
                solution@,
            )->0,
    {
        self.evaluate(BoolKind::BoolClause, constraint, solution)
    }

    /// Evaluates a `bool_eq` constraint in `solution`: `a = b`. The violation is `1`
    /// when the solution violates it, `0` otherwise.
    ///
    /// `None` when the constraint cannot be compiled or its operands have no values
    /// of the right type (see [`named_kind_violation`]).
    pub fn bool_eq(
        &self,
        constraint: &CallWithDefines,
        solution: &StringHashMap<VariableValue>,
    ) -> (r: Option<ConstraintEvaluation>)
        ensures
            r is Some <==> named_kind_violation(BoolKind::BoolEq, constraint.call@, self.array_map(), solution@) is Some,
            r matches Some(e) ==> e.constraint_id == constraint.id && e.violation == named_kind_violation(
                BoolKind::BoolEq,
                constraint.call@,
                self.array_map(),
                solution@,
            )->0,
    {
        self.evaluate(BoolKind::BoolEq, constraint, solution)
    }

    /// Evaluates a `bool_eq_reif` constraint in `solution`: `c <-> a = b`. The violation is `1`
    /// when the solution violates it, `0` otherwise.
    ///
    /// `None` when the constraint cannot be compiled or its operands have no values
    /// of the right type (see [`named_kind_violation`]).
    pub fn bool_eq_reif(
        &self,
        constraint: &CallWithDefines,
        solution: &StringHashMap<VariableValue>,
    ) -> (r: Option<ConstraintEvaluation>)
        ensures
            r is Some <==> named_kind_violation(BoolKind::BoolEqReif, constraint.call@, self.array_map(), solution@) is Some,
            r matches Some(e) ==> e.constraint_id == constraint.id && e.violation == named_kind_violation(
                BoolKind::BoolEqReif,
                constraint.call@,
                self.array_map(),
                solution@,
            )->0,
    {
        self.evaluate(BoolKind::BoolEqReif, constraint, solution)
    }

    /// Evaluates a `bool_le` constraint in `solution`: `a <= b`, with `false < true`. The violation is `1`
    /// when the solution violates it, `0` otherwise.
    ///
    /// `None` when the constraint cannot be compiled or its operands have no values
    /// of the right type (see [`named_kind_violation`]).
    pub fn bool_le(
        &self,
        constraint: &CallWithDefines,
        solution: &StringHashMap<VariableValue>,
    ) -> (r: Option<ConstraintEvaluation>)
        ensures
            r is Some <==> named_kind_violation(BoolKind::BoolLe, constraint.call@, self.array_map(), solution@) is Some,
            r matches Some(e) ==> e.constraint_id == constraint.id && e.violation == named_kind_violation(
                BoolKind::BoolLe,
                constraint.call@,
                self.array_map(),
                solution@,
            )->0,
    {
        self.evaluate(BoolKind::BoolLe, constraint, solution)
    }

    /// Evaluates a `bool_le_reif` constraint in `solution`: `c <-> a <= b`. The violation is `1`
    /// when the solution violates it, `0` otherwise.
    ///
    /// `None` when the constraint cannot be compiled or its operands have no values
    /// of the right type (see [`named_kind_violation`]).
    pub fn bool_le_reif(
        &self,
        constraint: &CallWithDefines,
        solution: &StringHashMap<VariableValue>,
    ) -> (r: Option<ConstraintEvaluation>)
        ensures
            r is Some <==> named_kind_violation(BoolKind::BoolLeReif, constraint.call@, self.array_map(), solution@) is Some,
            r matches Some(e) ==> e.constraint_id == constraint.id && e.violation == named_kind_violation(
                BoolKind::BoolLeReif,
                constraint.call@,
                self.array_map(),
                solution@,
            )->0,
    {
        self.evaluate(BoolKind::BoolLeReif, constraint, solution)
    }

    /// Evaluates a `bool_lin_eq` constraint in `solution`: `sum(coeff[i] * bs[i]) = c`, with `1` for true and `0` for false. The violation is `1`
    /// when the solution violates it, `0` otherwise.
    ///
    /// `None` when the constraint cannot be compiled or its operands have no values
    /// of the right type (see [`named_kind_violation`]).
    pub fn bool_lin_eq(
        &self,
        constraint: &CallWithDefines,
        solution: &StringHashMap<VariableValue>,
    ) -> (r: Option<ConstraintEvaluation>)
        ensures
            r is Some <==> named_kind_violation(BoolKind::BoolLinEq, constraint.call@, self.array_map(), solution@) is Some,
            r matches Some(e) ==> e.constraint_id == constraint.id && e.violation == named_kind_violation(
                BoolKind::BoolLinEq,
                constraint.call@,
                self.array_map(),
                solution@,
            )->0,
    {
        self.evaluate(BoolKind::BoolLinEq, constraint, solution)
    }

    /// Evaluates a `bool_lin_le` constraint in `solution`: `sum(coeff[i] * bs[i]) <= c`, with `1` for true and `0` for false. The violation is `1`
    /// when the solution violates it, `0` otherwise.
    ///
    /// `None` when the constraint cannot be compiled or its operands have no values
    /// of the right type (see [`named_kind_violation`]).
    pub fn bool_lin_le(
        &self,
        constraint: &CallWithDefines,
        solution: &StringHashMap<VariableValue>,
    ) -> (r: Option<ConstraintEvaluation>)
        ensures
            r is Some <==> named_kind_violation(BoolKind::BoolLinLe, constraint.call@, self.array_map(), solution@) is Some,
            r matches Some(e) ==> e.constraint_id == constraint.id && e.violation == named_kind_violation(
                BoolKind::BoolLinLe,
                constraint.call@,
                self.array_map(),
                solution@,
            )->0,
    {
        self.evaluate(BoolKind::BoolLinLe, constraint, solution)
    }

    /// Evaluates a `bool_lt` constraint in `solution`: `a < b`, with `false < true`. The violation is `1`
    /// when the solution violates it, `0` otherwise.
    ///
    /// `None` when the constraint cannot be compiled or its operands have no values
    /// of the right type (see [`named_kind_violation`]).
    pub fn bool_lt(
        &self,
        constraint: &CallWithDefines,
        solution: &StringHashMap<VariableValue>,
    ) -> (r: Option<ConstraintEvaluation>)
        ensures
            r is Some <==> named_kind_violation(BoolKind::BoolLt, constraint.call@, self.array_map(), solution@) is Some,
            r matches Some(e) ==> e.constraint_id == constraint.id && e.violation == named_kind_violation(
                BoolKind::BoolLt,
                constraint.call@,
                self.array_map(),
                solution@,
            )->0,
    {
        self.evaluate(BoolKind::BoolLt, constraint, solution)
    }

    /// Evaluates a `bool_lt_reif` constraint in `solution`: `c <-> a < b`. The violation is `1`
    /// when the solution violates it, `0` otherwise.
    ///
    /// `None` when the constraint cannot be compiled or its operands have no values
    /// of the right type (see [`named_kind_violation`]).
    pub fn bool_lt_reif(
        &self,
        constraint: &CallWithDefines,
        solution: &StringHashMap<VariableValue>,
    ) -> (r: Option<ConstraintEvaluation>)
        ensures
            r is Some <==> named_kind_violation(BoolKind::BoolLtReif, constraint.call@, self.array_map(), solution@) is Some,
            r matches Some(e) ==> e.constraint_id == constraint.id && e.violation == named_kind_violation(
                BoolKind::BoolLtReif,
                constraint.call@,
                self.array_map(),
                solution@,
            )->0,
    {
        self.evaluate(BoolKind::BoolLtReif, constraint, solution)
    }

    /// Evaluates a `bool_not` constraint in `solution`: `a != b`. The violation is `1`
    /// when the solution violates it, `0` otherwise.
    ///
    /// `None` when the constraint cannot be compiled or its operands have no values
    /// of the right type (see [`named_kind_violation`]).
    pub fn bool_not(
        &self,
        constraint: &CallWithDefines,
        solution: &StringHashMap<VariableValue>,
    ) -> (r: Option<ConstraintEvaluation>)
        ensures
            r is Some <==> named_kind_violation(BoolKind::BoolNot, constraint.call@, self.array_map(), solution@) is Some,
            r matches Some(e) ==> e.constraint_id == constraint.id && e.violation == named_kind_violation(
                BoolKind::BoolNot,
                constraint.call@,
                self.array_map(),
                solution@,
            )->0,
    {
        self.evaluate(BoolKind::BoolNot, constraint, solution)
    }

    /// Evaluates a `bool_or` constraint in `solution`: `c <-> a \/ b`. The violation is `1`
    /// when the solution violates it, `0` otherwise.
    ///
    /// `None` when the constraint cannot be compiled or its operands have no values
    /// of the right type (see [`named_kind_violation`]).
    pub fn bool_or(
        &self,
        constraint: &CallWithDefines,
        solution: &StringHashMap<VariableValue>,
    ) -> (r: Option<ConstraintEvaluation>)
        ensures
            r is Some <==> named_kind_violation(BoolKind::BoolOr, constraint.call@, self.array_map(), solution@) is Some,
            r matches Some(e) ==> e.constraint_id == constraint.id && e.violation == named_kind_violation(
                BoolKind::BoolOr,
                constraint.call@,
                self.array_map(),
                solution@,
            )->0,
    {
        self.evaluate(BoolKind::BoolOr, constraint, solution)
    }

    /// Evaluates a `bool_xor` constraint in `solution`: `c <-> a xor b`. The violation is `1`
    /// when the solution violates it, `0` otherwise.
    ///
    /// `None` when the constraint cannot be compiled or its operands have no values
    /// of the right type (see [`named_kind_violation`]).
    pub fn bool_xor(
        &self,
        constraint: &CallWithDefines,
        solution: &StringHashMap<VariableValue>,
    ) -> (r: Option<ConstraintEvaluation>)
        ensures
            r is Some <==> named_kind_violation(BoolKind::BoolXor, constraint.call@, self.array_map(), solution@) is Some,
            r matches Some(e) ==> e.constraint_id == constraint.id && e.violation == named_kind_violation(
                BoolKind::BoolXor,
                constraint.call@,
                self.array_map(),
                solution@,
            )->0,
    {
        self.evaluate(BoolKind::BoolXor, constraint, solution)
    }

    /// Evaluates a `bool2int` constraint in `solution`: `b = 1` when `a` holds and `b = 0` otherwise. The violation is `1`
    /// when the solution violates it, `0` otherwise.
    ///
    /// `None` when the constraint cannot be compiled or its operands have no values
    /// of the right type (see [`named_kind_violation`]).
    pub fn bool2int(
        &self,
        constraint: &CallWithDefines,
        solution: &StringHashMap<VariableValue>,
    ) -> (r: Option<ConstraintEvaluation>)
        ensures
            r is Some <==> named_kind_violation(BoolKind::Bool2Int, constraint.call@, self.array_map(), solution@) is Some,
            r matches Some(e) ==> e.constraint_id == constraint.id && e.violation == named_kind_violation(
                BoolKind::Bool2Int,
                constraint.call@,
                self.array_map(),
                solution@,
            )->0,
    {
        self.evaluate(BoolKind::Bool2Int, constraint, solution)
    }
}

} // verus!
