//! The outside types of `flatzinc_serde` that the model reader converts from.
use vstd::prelude::*;

verus! {

#[verifier::external_type_specification]
#[verifier::external_body]
#[verifier::reject_recursive_types(Identifier)]
pub struct ExFlatZinc<Identifier: Ord>(flatzinc_serde::FlatZinc<Identifier>);

#[verifier::external_type_specification]
#[verifier::external_body]
#[verifier::reject_recursive_types(Identifier)]
pub struct ExFzLiteral<Identifier>(flatzinc_serde::Literal<Identifier>);

#[verifier::external_type_specification]
#[verifier::external_body]
#[verifier::reject_recursive_types(Identifier)]
pub struct ExFzArgument<Identifier>(flatzinc_serde::Argument<Identifier>);

#[verifier::external_type_specification]
#[verifier::external_body]
#[verifier::reject_recursive_types(Identifier)]
pub struct ExFzArray<Identifier>(flatzinc_serde::Array<Identifier>);

#[verifier::external_type_specification]
#[verifier::external_body]
#[verifier::reject_recursive_types(Identifier)]
pub struct ExFzConstraint<Identifier>(flatzinc_serde::Constraint<Identifier>);

#[verifier::external_type_specification]
#[verifier::external_body]
#[verifier::reject_recursive_types(Identifier)]
pub struct ExFzVariable<Identifier>(flatzinc_serde::Variable<Identifier>);

#[verifier::external_type_specification]
#[verifier::external_body]
pub struct ExFzDomain(flatzinc_serde::Domain);

#[verifier::external_type_specification]
#[verifier::external_body]
pub struct ExFzType(flatzinc_serde::Type);

} // verus!
