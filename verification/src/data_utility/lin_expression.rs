use crate::data_utility::types::VariableValue;
use vstd::hash_map::StringHashMap;
use vstd::prelude::*;

verus! {

/// `x` is representable as an `i64`.
pub open spec fn fits_i64(x: int) -> bool {
    i64::MIN <= x <= i64::MAX
}

/// The sum of the first `n` products `coeff[i] * vals[i]`.
pub open spec fn dot(coeff: Seq<i64>, vals: Seq<i64>, n: nat) -> int
    decreases n,
{
    if n == 0 {
        0
    } else {
        dot(coeff, vals, (n - 1) as nat) + coeff[n - 1] * vals[n - 1]
    }
}

/// Summing the first `n` products left to right in `i64` overflows nowhere:
/// each product and each partial sum fits.
pub open spec fn dot_fits(coeff: Seq<i64>, vals: Seq<i64>, n: nat) -> bool
    decreases n,
{
    n == 0 || (dot_fits(coeff, vals, (n - 1) as nat) && fits_i64(coeff[n - 1] * vals[n - 1])
        && fits_i64(dot(coeff, vals, n)))
}

/// A prefix of a sum that fits in `i64` fits too.
pub proof fn lemma_dot_fits_prefix(coeff: Seq<i64>, vals: Seq<i64>, n: nat, k: nat)
    requires
        dot_fits(coeff, vals, n),
        k <= n,
    ensures
        dot_fits(coeff, vals, k),
    decreases n - k,
{
    if k < n {
        lemma_dot_fits_prefix(coeff, vals, (n - 1) as nat, k);
    }
}

/// The integer values that `names` take in a solution keyed by variable name.
pub open spec fn named_ints(names: Seq<Seq<char>>, solution: Map<Seq<char>, VariableValue>) -> Seq<i64> {
    Seq::new(names.len(), |i: int| solution[names[i]]->Int_0)
}

/// Every one of the first `n` names has an integer value in the solution.
pub open spec fn names_have_ints(
    names: Seq<Seq<char>>,
    solution: Map<Seq<char>, VariableValue>,
    n: nat,
) -> bool {
    forall|i: int|
        0 <= i < n ==> solution.contains_key(#[trigger] names[i]) && solution[names[i]] is Int
}

/// Computes the value `sum(coeff[i] * value(vars_involved[i]))` of an integer linear
/// expression, pairing coefficients and variables up to the shorter of the two lists.
pub fn int_lin_left_term(
    coeff: Vec<i64>,
    vars_involved: Vec<String>,
    complete_solution: &StringHashMap<VariableValue>,
) -> (r: i64)
    requires
        names_have_ints(
            vars_involved@.map_values(|s: String| s@),
            complete_solution@,
            if coeff@.len() <= vars_involved@.len() { coeff@.len() } else { vars_involved@.len() },
        ),
        dot_fits(
            coeff@,
            named_ints(vars_involved@.map_values(|s: String| s@), complete_solution@),
            if coeff@.len() <= vars_involved@.len() { coeff@.len() } else { vars_involved@.len() },
        ),
    ensures
        r == dot(
            coeff@,
            named_ints(vars_involved@.map_values(|s: String| s@), complete_solution@),
            if coeff@.len() <= vars_involved@.len() { coeff@.len() } else { vars_involved@.len() },
        ),
{
    let n = if coeff.len() <= vars_involved.len() {
        coeff.len()
    } else {
        vars_involved.len()
    };
    let ghost names = vars_involved@.map_values(|s: String| s@);
    let ghost vals = named_ints(names, complete_solution@);
    let mut sum: i64 = 0;
    for i in 0..n
        invariant
            n <= coeff@.len(),
            n <= vars_involved@.len(),
            names == vars_involved@.map_values(|s: String| s@),
            vals == named_ints(names, complete_solution@),
            names_have_ints(names, complete_solution@, n as nat),
            dot_fits(coeff@, vals, n as nat),
            sum == dot(coeff@, vals, i as nat),
    {
        proof {
            assert(names[i as int] == vars_involved@[i as int]@);
            lemma_dot_fits_prefix(coeff@, vals, n as nat, (i + 1) as nat);
        }
        let value = match complete_solution.get(vars_involved[i].as_str()) {
            Some(VariableValue::Int(v)) => *v,
            _ => 0,
        };
        let product = coeff[i] * value;
        sum = sum + product;
    }
    sum
}

} // verus!
