use std::collections::HashSet;
use vstd::prelude::*;
use vstd::std_specs::iter::IteratorSpec;

verus! {

/// A register is the position of a variable in the solution vector.
pub type Register = u32;

/// The value of a decision variable: an integer, a floating-point number,
/// a boolean or a set of integers.
///
/// A floating-point value is held as the IEEE-754 bit pattern of the `f64`
/// (`f64::to_bits`), so that it travels through the library unchanged.
#[derive(Debug)]
pub enum VariableValue {
    /// An integer value.
    Int(i64),
    /// A floating-point value, as the bit pattern of an `f64`.
    Float(u64),
    /// A boolean value.
    Bool(bool),
    /// A set of integers.
    IntSet(HashSet<i64>),
}

/// The mathematical value of a [`VariableValue`].
pub enum VariableValueV {
    Int(i64),
    Float(u64),
    Bool(bool),
    IntSet(Set<i64>),
}

impl View for VariableValue {
    type V = VariableValueV;

    open spec fn view(&self) -> VariableValueV {
        match self {
            VariableValue::Int(v) => VariableValueV::Int(*v),
            VariableValue::Float(v) => VariableValueV::Float(*v),
            VariableValue::Bool(b) => VariableValueV::Bool(*b),
            VariableValue::IntSet(s) => VariableValueV::IntSet(s@),
        }
    }
}

/// The values of a solution vector.
pub open spec fn values_view(v: Seq<VariableValue>) -> Seq<VariableValueV> {
    v.map_values(|x: VariableValue| x@)
}

impl VariableValue {
    /// Returns the integer held by an `Int` value.
    pub fn as_int(&self) -> (r: i64)
        requires
            self is Int,
        ensures
            r == self->Int_0,
    {
        match self {
            VariableValue::Int(value) => *value,
            _ => 0,
        }
    }

    /// Returns the bit pattern held by a `Float` value.
    pub fn as_float(&self) -> (r: u64)
        requires
            self is Float,
        ensures
            r == self->Float_0,
    {
        match self {
            VariableValue::Float(value) => *value,
            _ => 0,
        }
    }

    /// Returns the boolean held by a `Bool` value.
    pub fn as_bool(&self) -> (r: bool)
        requires
            self is Bool,
        ensures
            r == self->Bool_0,
    {
        match self {
            VariableValue::Bool(value) => *value,
            _ => false,
        }
    }

    /// Returns a copy of the set held by an `IntSet` value.
    pub fn as_set(&self) -> (r: HashSet<i64>)
        requires
            self is IntSet,
        ensures
            r@ == self->IntSet_0@,
    {
        match self {
            VariableValue::IntSet(set) => copy_set(set),
            _ => HashSet::new(),
        }
    }
}

/// Returns a new set holding the elements of `s`.
pub fn copy_set(s: &HashSet<i64>) -> (r: HashSet<i64>)
    ensures
        r@ == s@,
{
    broadcast use vstd::std_specs::hash::group_hash_axioms;

    let mut r: HashSet<i64> = HashSet::new();
    let keys = s.iter();
    proof {
        let listed = keys.remaining().unref();
        assert(listed.to_set() == s@);
        assert forall|y: i64| s@.contains(y) implies
            (exists|j: int| 0 <= j < keys.remaining().len() && *keys.remaining()[j] == y) by {
            assert(listed.to_set().contains(y));
            let j = choose|j: int| 0 <= j < listed.len() && listed[j] == y;
            assert(*keys.remaining()[j] == y);
        }
        assert forall|j: int| 0 <= j < keys.remaining().len() implies
            s@.contains(*keys.remaining()[j]) by {
            assert(listed[j] == *keys.remaining()[j]);
            assert(listed.contains(listed[j]));
        }
    }
    for x in it: keys
        invariant
            forall|y: i64|
                r@.contains(y) <==> (exists|j: int| 0 <= j < it.index() && *it.seq()[j] == y),
            forall|y: i64|
                s@.contains(y) <==> (exists|j: int| 0 <= j < it.seq().len() && *it.seq()[j] == y),
        ensures
            r@ =~= s@,
    {
        r.insert(*x);
        proof {
            assert(*it.seq()[it.index()] == *x);
        }
    }
    r
}

impl From<i64> for VariableValue {
    fn from(value: i64) -> (r: Self) {
        VariableValue::Int(value)
    }
}

impl vstd::std_specs::convert::FromSpecImpl<i64> for VariableValue {
    open spec fn obeys_from_spec() -> bool {
        true
    }

    open spec fn from_spec(value: i64) -> Self {
        VariableValue::Int(value)
    }
}

impl Clone for VariableValue {
    fn clone(&self) -> (r: Self)
        ensures
            r@ == self@,
    {
        match self {
            VariableValue::Int(v) => VariableValue::Int(*v),
            VariableValue::Float(v) => VariableValue::Float(*v),
            VariableValue::Bool(v) => VariableValue::Bool(*v),
            VariableValue::IntSet(s) => VariableValue::IntSet(copy_set(s)),
        }
    }
}

} // verus!
