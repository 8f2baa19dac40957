use vstd::prelude::*;

verus! {

/// The violation of one constraint of the model, identified by its position.
///
/// Two evaluations are equal when they concern the same constraint, whatever
/// their violations.
#[derive(Debug, Clone)]
pub struct ConstraintEvaluation {
    /// Position of the constraint in the model.
    pub constraint_id: usize,
    /// How far the solution is from satisfying the constraint (zero when satisfied).
    pub violation: u64,
}

impl PartialEq for ConstraintEvaluation {
    fn eq(&self, other: &Self) -> (r: bool) {
        self.constraint_id == other.constraint_id
    }
}

impl vstd::std_specs::cmp::PartialEqSpecImpl for ConstraintEvaluation {
    open spec fn obeys_eq_spec() -> bool {
        true
    }

    open spec fn eq_spec(&self, other: &Self) -> bool {
        self.constraint_id == other.constraint_id
    }
}

impl Eq for ConstraintEvaluation {}

/// `usize::hash` feeds the integer to the hasher; nothing is claimed of what it
/// writes, only that the call can be made.
pub assume_specification<H: core::hash::Hasher>[<usize as core::hash::Hash>::hash::<H>](
    x: &usize,
    state: &mut H,
);

impl core::hash::Hash for ConstraintEvaluation {
    fn hash<H: core::hash::Hasher>(&self, state: &mut H) {
        self.constraint_id.hash(state);
    }
}

} // verus!
