use crate::evaluator::mini_evaluator::VarType;
use vstd::prelude::*;

verus! {

/// A FlatZinc literal.
///
/// Floating-point numbers are held as the bit pattern of the `f64`
/// (`f64::to_bits`); integer sets as lists of inclusive ranges.
#[derive(Debug)]
pub enum ModelLiteral {
    /// Integer value.
    Int(i64),
    /// Floating-point value, as the bit pattern of an `f64`.
    Float(u64),
    /// Reference to a decision variable or to a named array.
    Identifier(String),
    /// Boolean value.
    Bool(bool),
    /// Set of integers, as a list of inclusive ranges `(start, end)`.
    IntSet(Vec<(i64, i64)>),
    /// Set of floating-point numbers, as a list of inclusive ranges of bit patterns.
    FloatSet(Vec<(u64, u64)>),
    /// String value.
    String(String),
}

/// An argument of a FlatZinc constraint: a literal or an inline array of literals.
#[derive(Debug, Clone)]
pub enum ModelArgument {
    /// Inline array of literals.
    Array(Vec<ModelLiteral>),
    /// Single literal.
    Literal(ModelLiteral),
}

/// A named array of literals in a FlatZinc model.
#[derive(Debug, Clone)]
pub struct ModelArray {
    /// The elements of the array.
    pub contents: Vec<ModelLiteral>,
}

/// A FlatZinc constraint: a predicate name applied to arguments.
#[derive(Debug, Clone)]
pub struct ModelConstraint {
    /// Identifier of the constraint predicate.
    pub id: String,
    /// Arguments of the constraint.
    pub args: Vec<ModelArgument>,
    /// Annotations attached to the constraint, by name.
    pub ann: Vec<String>,
}

/// A constraint of the model together with its position and the variable it defines, if any.
#[derive(Debug)]
pub struct CallWithDefines {
    /// Position of the constraint in the model.
    pub id: usize,
    /// The constraint itself.
    pub call: ModelConstraint,
    /// The variable that the constraint defines, if any.
    pub defines: Option<String>,
}

/// Copies a list of integer ranges.
pub fn copy_int_ranges(v: &Vec<(i64, i64)>) -> (r: Vec<(i64, i64)>)
    ensures
        r@ == v@,
{
    let mut r: Vec<(i64, i64)> = Vec::new();
    for i in 0..v.len()
        invariant
            r@ == v@.take(i as int),
    {
        r.push(v[i]);
        proof {
            assert(v@.take(i + 1) =~= v@.take(i as int).push(v@[i as int]));
        }
    }
    proof {
        assert(v@.take(v.len() as int) =~= v@);
    }
    r
}

/// Copies a list of ranges of floating-point bit patterns.
pub fn copy_float_ranges(v: &Vec<(u64, u64)>) -> (r: Vec<(u64, u64)>)
    ensures
        r@ == v@,
{
    let mut r: Vec<(u64, u64)> = Vec::new();
    for i in 0..v.len()
        invariant
            r@ == v@.take(i as int),
    {
        r.push(v[i]);
        proof {
            assert(v@.take(i + 1) =~= v@.take(i as int).push(v@[i as int]));
        }
    }
    proof {
        assert(v@.take(v.len() as int) =~= v@);
    }
    r
}

/// The mathematical value of a [`ModelLiteral`].
pub enum ModelLiteralV {
    Int(i64),
    Float(u64),
    Identifier(Seq<char>),
    Bool(bool),
    IntSet(Seq<(i64, i64)>),
    FloatSet(Seq<(u64, u64)>),
    Str(Seq<char>),
}

/// The mathematical value of an [`ModelArgument`].
pub enum ModelArgumentV {
    Array(Seq<ModelLiteralV>),
    Literal(ModelLiteralV),
}

/// The mathematical value of a [`ModelConstraint`].
pub struct ModelConstraintV {
    pub id: Seq<char>,
    pub args: Seq<ModelArgumentV>,
    pub ann: Seq<Seq<char>>,
}

impl View for ModelLiteral {
    type V = ModelLiteralV;

    open spec fn view(&self) -> ModelLiteralV {
        match self {
            ModelLiteral::Int(v) => ModelLiteralV::Int(*v),
            ModelLiteral::Float(v) => ModelLiteralV::Float(*v),
            ModelLiteral::Identifier(s) => ModelLiteralV::Identifier(s@),
            ModelLiteral::Bool(b) => ModelLiteralV::Bool(*b),
            ModelLiteral::IntSet(v) => ModelLiteralV::IntSet(v@),
            ModelLiteral::FloatSet(v) => ModelLiteralV::FloatSet(v@),
            ModelLiteral::String(s) => ModelLiteralV::Str(s@),
        }
    }
}

/// The values of a list of literals.
pub open spec fn literals_view(v: Seq<ModelLiteral>) -> Seq<ModelLiteralV> {
    v.map_values(|l: ModelLiteral| l@)
}

impl View for ModelArgument {
    type V = ModelArgumentV;

    open spec fn view(&self) -> ModelArgumentV {
        match self {
            ModelArgument::Array(v) => ModelArgumentV::Array(literals_view(v@)),
            ModelArgument::Literal(l) => ModelArgumentV::Literal(l@),
        }
    }
}

/// The values of a list of arguments.
pub open spec fn arguments_view(v: Seq<ModelArgument>) -> Seq<ModelArgumentV> {
    v.map_values(|a: ModelArgument| a@)
}

impl View for ModelArray {
    type V = Seq<ModelLiteralV>;

    open spec fn view(&self) -> Seq<ModelLiteralV> {
        literals_view(self.contents@)
    }
}

impl View for ModelConstraint {
    type V = ModelConstraintV;

    open spec fn view(&self) -> ModelConstraintV {
        ModelConstraintV {
            id: self.id@,
            args: arguments_view(self.args@),
            ann: self.ann@.map_values(|s: String| s@),
        }
    }
}

impl Clone for ModelLiteral {
    fn clone(&self) -> (r: Self)
        ensures
            r@ == self@,
    {
        match self {
            ModelLiteral::Int(v) => ModelLiteral::Int(*v),
            ModelLiteral::Float(v) => ModelLiteral::Float(*v),
            ModelLiteral::Identifier(s) => ModelLiteral::Identifier(s.clone()),
            ModelLiteral::Bool(b) => ModelLiteral::Bool(*b),
            ModelLiteral::IntSet(v) => ModelLiteral::IntSet(copy_int_ranges(v)),
            ModelLiteral::FloatSet(v) => ModelLiteral::FloatSet(copy_float_ranges(v)),
            ModelLiteral::String(s) => ModelLiteral::String(s.clone()),
        }
    }
}

/// The domain a variable of a FlatZinc model is declared with, as ranges in
/// ascending order.
#[derive(Debug, Clone)]
pub enum DeclaredDomain {
    /// Inclusive integer ranges `(start, end)`.
    Int(Vec<(i64, i64)>),
    /// Inclusive floating-point ranges, by bit patterns.
    Float(Vec<(u64, u64)>),
}

/// A decision variable of a FlatZinc model.
#[derive(Debug, Clone)]
pub struct ModelVariable {
    pub name: String,
    pub ty: VarType,
    /// The declared domain, if any.
    pub domain: Option<DeclaredDomain>,
    /// Whether a constraint of the model defines the variable.
    pub defined: bool,
}

/// A FlatZinc model, as the evaluation reads it.
#[derive(Debug, Clone)]
pub struct Model {
    /// The variables, in the order of the model's variable map (by name).
    pub variables: Vec<ModelVariable>,
    /// The named arrays, in the order of the model's array map (by name).
    pub arrays: Vec<(String, ModelArray)>,
    /// The constraints, in order.
    pub constraints: Vec<ModelConstraint>,
    /// The objective of the solve item, if it has one.
    pub objective: Option<ModelLiteral>,
}

} // verus!
