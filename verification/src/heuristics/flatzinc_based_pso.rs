//! The part of the particle swarm search over FlatZinc models that needs no
//! floating-point arithmetic: reading the model, recovering the index that a variable
//! name ends with, and the order in which the search visits the decision variables.
use crate::args_extractor::args_extractor::strings_view;
use crate::data_utility::model::{ModelArgument, ModelArray, ModelConstraint, DeclaredDomain, ModelLiteral, Model, ModelVariable};
use crate::evaluator::mini_evaluator::VarType;
use flatzinc_serde as fz;
use vstd::prelude::*;
use vstd::string::StrSliceExecFns;

verus! {

/// An ASCII decimal digit.
pub open spec fn is_digit(c: char) -> bool {
    '0' <= c <= '9'
}

/// The text without its trailing characters that are not digits.
pub open spec fn strip_non_digits(s: Seq<char>) -> Seq<char>
    decreases s.len(),
{
    if s.len() > 0 && !is_digit(s.last()) {
        strip_non_digits(s.drop_last())
    } else {
        s
    }
}

/// The longest run of digits that ends the text.
pub open spec fn digit_run(s: Seq<char>) -> Seq<char>
    decreases s.len(),
{
    if s.len() > 0 && is_digit(s.last()) {
        digit_run(s.drop_last()).push(s.last())
    } else {
        Seq::empty()
    }
}

/// The number that a string of decimal digits spells.
pub open spec fn digits_value(d: Seq<char>) -> nat
    decreases d.len(),
{
    if d.len() == 0 {
        0
    } else {
        digits_value(d.drop_last()) * 10 + ((d.last() as nat) - ('0' as nat)) as nat
    }
}

/// The number spelled by the last run of digits in a name, if it has digits.
pub open spec fn trailing_number(name: Seq<char>) -> Option<nat> {
    let d = digit_run(strip_non_digits(name));
    if d.len() == 0 {
        None
    } else {
        Some(digits_value(d))
    }
}

/// A digit as a number.
fn digit_of(c: char) -> (r: usize)
    requires
        is_digit(c),
    ensures
        r == (c as nat) - ('0' as nat),
{
    (c as u32 - '0' as u32) as usize
}

/// Values of digit strings only grow as digits are appended.
proof fn lemma_digits_grow(d: Seq<char>, c: char)
    requires
        is_digit(c),
    ensures
        digits_value(d.push(c)) >= digits_value(d) * 10,
{
    assert(d.push(c).drop_last() =~= d);
}

/// Once a prefix of a digit string spells more than `bound`, the whole string does.
proof fn lemma_digits_exceed(d: Seq<char>, k: int, bound: nat)
    requires
        0 <= k <= d.len(),
        forall|i: int| 0 <= i < d.len() ==> is_digit(#[trigger] d[i]),
        digits_value(d.take(k)) > bound,
    ensures
        digits_value(d) > bound,
    decreases d.len() - k,
{
    if k < d.len() {
        assert(d.take(k + 1) =~= d.take(k).push(d[k]));
        lemma_digits_grow(d.take(k), d[k]);
        lemma_digits_exceed(d, k + 1, bound);
    } else {
        assert(d.take(k) =~= d);
    }
}

/// The index a variable name ends with: the number spelled by its last run of decimal
/// digits, or `None` when it has no digit or the number exceeds `usize`.
pub fn var_index(name: &str) -> (r: Option<usize>)
    ensures
        r == (match trailing_number(name@) {
            Some(v) => if v <= usize::MAX {
                Some(v as usize)
            } else {
                None
            },
            None => None,
        }),
{
    let n = name.unicode_len();
    let mut end = n;
    proof {
        assert(name@.take(n as int) =~= name@);
    }
    while end > 0 && !is_digit_char(name.get_char(end - 1))
        invariant
            n == name@.len(),
            end <= n,
            strip_non_digits(name@) == strip_non_digits(name@.take(end as int)),
        decreases end,
    {
        proof {
            assert(name@.take(end as int).drop_last() =~= name@.take(end - 1));
        }
        end = end - 1;
    }
    let ghost stripped = name@.take(end as int);
    proof {
        assert(strip_non_digits(stripped) == stripped);
    }
    if end == 0 {
        return None;
    }
    let mut start = end;
    proof {
        assert(stripped.subrange(end as int, end as int) =~= Seq::<char>::empty());
        assert(stripped.take(end as int) =~= stripped);
    }
    while start > 0 && is_digit_char(name.get_char(start - 1))
        invariant
            n == name@.len(),
            start <= end <= n,
            stripped == name@.take(end as int),
            digit_run(stripped) == digit_run(stripped.take(start as int)) + stripped.subrange(
                start as int,
                end as int,
            ),
            forall|k: int| start <= k < end ==> is_digit(#[trigger] stripped[k]),
        decreases start,
    {
        proof {
            let t = stripped.take(start as int);
            assert(t.drop_last() =~= stripped.take(start - 1));
            assert(stripped.subrange(start - 1, end as int) =~= seq![t.last()] + stripped.subrange(
                start as int,
                end as int,
            ));
            assert(digit_run(t) == digit_run(t.drop_last()).push(t.last()));
            assert(digit_run(t.drop_last()).push(t.last()) + stripped.subrange(start as int, end as int)
                =~= digit_run(t.drop_last()) + stripped.subrange(start - 1, end as int));
        }
        start = start - 1;
    }
    let ghost digits = stripped.subrange(start as int, end as int);
    proof {
        let t = stripped.take(start as int);
        assert(digit_run(t) =~= Seq::<char>::empty());
        assert(digit_run(stripped) =~= digits);
    }
    let mut value: usize = 0;
    let mut i = start;
    proof {
        assert(digits.take(0) =~= Seq::<char>::empty());
    }
    while i < end
        invariant
            n == name@.len(),
            start <= i <= end <= n,
            stripped == name@.take(end as int),
            digits == stripped.subrange(start as int, end as int),
            digit_run(stripped) == digits,
            forall|k: int| 0 <= k < digits.len() ==> is_digit(#[trigger] digits[k]),
            value == digits_value(digits.take(i - start)),
            end > 0,
            is_digit(stripped.last()),
            strip_non_digits(name@) == stripped,
        decreases end - i,
    {
        let c = name.get_char(i);
        proof {
            assert(c == digits[i - start]);
            assert(digits.take(i - start + 1) =~= digits.take(i - start).push(c));
            assert(digits.take(i - start + 1).drop_last() =~= digits.take(i - start));
        }
        let d = digit_of(c);
        proof {
            assert(digits_value(digits.take(i - start + 1)) == value * 10 + d);
        }
        let next = match value.checked_mul(10) {
            Some(t) => t.checked_add(d),
            None => None,
        };
        match next {
            Some(t) => {
                value = t;
            },
            None => {
                proof {
                    lemma_digits_exceed(digits, i - start + 1, usize::MAX as nat);
                    assert(is_digit(stripped.last()));
                    assert(digit_run(stripped).len() > 0);
                }
                return None;
            },
        }
        i = i + 1;
    }
    proof {
        assert(digits.take(end - start) =~= digits);
        assert(is_digit(stripped.last()));
        assert(digit_run(stripped).len() > 0);
    }
    Some(value)
}

/// The key by which the search orders its variables: the index the name ends with,
/// `usize::MAX` for a name without one.
pub open spec fn order_key(name: Seq<char>) -> nat {
    match trailing_number(name) {
        Some(v) => if v <= usize::MAX {
            v
        } else {
            usize::MAX as nat
        },
        None => usize::MAX as nat,
    }
}

/// Position `a` of the list comes before position `b`: by key, and by position among
/// equal keys.
pub open spec fn goes_before(names: Seq<Seq<char>>, a: int, b: int) -> bool {
    order_key(names[a]) < order_key(names[b]) || (order_key(names[a]) == order_key(names[b]) && a < b)
}

/// `k` occurs in the list.
pub open spec fn listed(r: Seq<usize>, k: int) -> bool {
    exists|i: int| 0 <= i < r.len() && r[i] == k
}

/// `r` lists every position of `names` once, in the order the search visits them (see
/// [`goes_before`]).
pub open spec fn is_decision_order(names: Seq<Seq<char>>, r: Seq<usize>) -> bool {
    &&& r.len() == names.len()
    &&& forall|i: int| 0 <= i < r.len() ==> #[trigger] r[i] < names.len()
    &&& forall|k: int| 0 <= k < names.len() ==> #[trigger] listed(r, k)
    &&& forall|i: int, j: int| 0 <= i < j < r.len() ==> goes_before(names, #[trigger] r[i] as int, #[trigger] r[j] as int)
}

/// The positions of `names` in the order the search visits them: by the index each
/// name ends with (names without one last), keeping the order of the list among equal
/// keys. The result lists every position exactly once.
pub fn decision_order(names: &Vec<String>) -> (r: Vec<usize>)
    ensures
        is_decision_order(strings_view(names@), r@),
{
    let ghost vs = strings_view(names@);
    let n = names.len();
    let mut keys: Vec<usize> = Vec::new();
    for i in 0..n
        invariant
            n == names@.len(),
            vs == strings_view(names@),
            keys@.len() == i,
            forall|j: int| 0 <= j < i ==> #[trigger] keys@[j] as nat == order_key(vs[j]),
    {
        let k = match var_index(names[i].as_str()) {
            Some(v) => v,
            None => usize::MAX,
        };
        proof {
            assert(vs[i as int] == names@[i as int]@);
        }
        keys.push(k);
    }
    let mut r: Vec<usize> = Vec::new();
    for i in 0..n
        invariant
            n == names@.len(),
            vs == strings_view(names@),
            keys@.len() == n,
            forall|j: int| 0 <= j < n ==> #[trigger] keys@[j] as nat == order_key(vs[j]),
            r@.len() == i,
            forall|t: int| 0 <= t < r@.len() ==> #[trigger] r@[t] < i,
            forall|k: int| 0 <= k < i ==> #[trigger] listed(r@, k),
            forall|a: int, b: int|
                0 <= a < b < r@.len() ==> goes_before(vs, #[trigger] r@[a] as int, #[trigger] r@[b] as int),
    {
        let mut p: usize = 0;
        while p < r.len() && keys[r[p]] <= keys[i]
            invariant
                n == names@.len(),
                vs == strings_view(names@),
                keys@.len() == n,
                forall|j: int| 0 <= j < n ==> #[trigger] keys@[j] as nat == order_key(vs[j]),
                i < n,
                p <= r@.len(),
                forall|t: int| 0 <= t < r@.len() ==> #[trigger] r@[t] < i,
                forall|t: int| 0 <= t < p ==> goes_before(vs, #[trigger] r@[t] as int, i as int),
            decreases r@.len() - p,
        {
            proof {
                assert(keys@[r@[p as int] as int] as nat == order_key(vs[r@[p as int] as int]));
                assert(keys@[i as int] as nat == order_key(vs[i as int]));
            }
            p = p + 1;
        }
        let ghost old_r = r@;
        proof {
            assert forall|t: int| p <= t < old_r.len() implies goes_before(vs, i as int, #[trigger] old_r[t] as int) by {
                let q = old_r[p as int] as int;
                assert(keys@[q] as nat == order_key(vs[q]));
                assert(keys@[i as int] as nat == order_key(vs[i as int]));
                if t > p {
                    assert(goes_before(vs, old_r[p as int] as int, old_r[t] as int));
                }
            }
        }
        r.insert(p, i);
        proof {
            assert(r@ == old_r.insert(p as int, i));
            assert forall|a: int, b: int|
                0 <= a < b < r@.len() implies goes_before(vs, #[trigger] r@[a] as int, #[trigger] r@[b] as int) by {
                if b < p {
                    assert(r@[a] == old_r[a] && r@[b] == old_r[b]);
                } else if b == p {
                    assert(r@[a] == old_r[a]);
                } else if a < p {
                    assert(r@[a] == old_r[a] && r@[b] == old_r[b - 1]);
                    assert(goes_before(vs, old_r[a] as int, i as int));
                    assert(goes_before(vs, i as int, old_r[b - 1] as int));
                } else if a == p {
                    assert(r@[b] == old_r[b - 1]);
                } else {
                    assert(r@[a] == old_r[a - 1] && r@[b] == old_r[b - 1]);
                }
            }
            assert forall|k: int| 0 <= k < i + 1 implies #[trigger] listed(r@, k) by {
                if k == i {
                    assert(r@[p as int] == i);
                } else {
                    assert(listed(old_r, k));
                    let t = choose|t: int| 0 <= t < old_r.len() && #[trigger] old_r[t] == k;
                    if t < p {
                        assert(r@[t] == k);
                    } else {
                        assert(r@[t + 1] == k);
                    }
                }
            }
        }
    }
    r
}


/// The text without a leading byte order mark.
pub open spec fn without_bom(text: Seq<char>) -> Seq<char> {
    if text.len() > 0 && text[0] == '\u{feff}' {
        text.drop_first()
    } else {
        text
    }
}

/// The text without a leading byte order mark (see [`without_bom`]).
pub fn strip_bom(text: &str) -> (r: &str)
    ensures
        r@ == without_bom(text@),
{
    let n = text.unicode_len();
    if n > 0 && text.get_char(0) == '\u{feff}' {
        let r = text.substring_char(1, n);
        proof {
            assert(r@ =~= text@.drop_first());
        }
        r
    } else {
        text
    }
}

/// A FlatZinc literal as the library holds it, one for one (floating-point numbers by
/// their bit patterns, sets by their ranges in order). Nothing is stated of the result:
/// the literal is opaque here.
#[verifier::external_body]
fn convert_literal(l: &fz::Literal) -> ModelLiteral {
    match l {
        fz::Literal::Int(v) => ModelLiteral::Int(*v),
        fz::Literal::Float(x) => ModelLiteral::Float(x.to_bits()),
        fz::Literal::Identifier(id) => ModelLiteral::Identifier(id.clone()),
        fz::Literal::Bool(b) => ModelLiteral::Bool(*b),
        fz::Literal::IntSet(rl) => ModelLiteral::IntSet(rl.iter().map(|r| (*r.start(), *r.end())).collect()),
        fz::Literal::FloatSet(rl) => ModelLiteral::FloatSet(rl.iter().map(|r| (r.start().to_bits(), r.end().to_bits())).collect()),
        fz::Literal::String(t) => ModelLiteral::String(t.clone()),
    }
}

/// A FlatZinc argument as the library holds it, one for one. Nothing is stated of the
/// result: the argument is opaque here.
#[verifier::external_body]
fn convert_argument(a: &fz::Argument) -> ModelArgument {
    match a {
        fz::Argument::Array(ls) => ModelArgument::Array(ls.iter().map(convert_literal).collect()),
        fz::Argument::Literal(l) => ModelArgument::Literal(convert_literal(l)),
    }
}

/// A named FlatZinc array as the library holds it. Nothing is stated of the result: the
/// array is opaque here.
#[verifier::external_body]
fn convert_array(a: &fz::Array) -> ModelArray {
    ModelArray { contents: a.contents.iter().map(convert_literal).collect() }
}

/// A FlatZinc constraint as the library holds it; annotations are kept by their text
/// (`Display`). Nothing is stated of the result: the constraint is opaque here.
#[verifier::external_body]
fn convert_constraint(c: &fz::Constraint) -> ModelConstraint {
    ModelConstraint {
        id: c.id.clone(),
        args: c.args.iter().map(convert_argument).collect(),
        ann: c.ann.iter().map(|a| a.to_string()).collect(),
    }
}

/// The type of a FlatZinc variable as the library holds it (sets of integers as
/// `Other`). Nothing is stated of the result: the type is opaque here.
#[verifier::external_body]
fn convert_type(t: &fz::Type) -> VarType {
    match t {
        fz::Type::Int => VarType::Int,
        fz::Type::Bool => VarType::Bool,
        fz::Type::Float => VarType::Float,
        fz::Type::IntSet => VarType::Other,
    }
}

/// A FlatZinc domain as its ranges in order (floating-point bounds by bit patterns).
/// Nothing is stated of the result: the domain is opaque here.
#[verifier::external_body]
fn convert_domain(d: &fz::Domain) -> DeclaredDomain {
    match d {
        fz::Domain::Int(rl) => DeclaredDomain::Int(rl.iter().map(|r| (*r.start(), *r.end())).collect()),
        fz::Domain::Float(rl) => DeclaredDomain::Float(rl.iter().map(|r| (r.start().to_bits(), r.end().to_bits())).collect()),
    }
}

/// A FlatZinc variable as the library holds it. Nothing is stated of the result: the
/// variable is opaque here.
#[verifier::external_body]
fn convert_variable(name: &String, v: &fz::Variable) -> ModelVariable {
    ModelVariable {
        name: name.clone(),
        ty: convert_type(&v.ty),
        domain: v.domain.as_ref().map(convert_domain),
        defined: v.defined,
    }
}

/// A FlatZinc model as the library holds it: its variables and arrays in the order of
/// their maps, its constraints in order, the objective of its solve item. Nothing is
/// stated of the result: the model is opaque here.
#[verifier::external_body]
fn convert_model(m: &fz::FlatZinc) -> Model {
    Model {
        variables: m.variables.iter().map(|(k, v)| convert_variable(k, v)).collect(),
        arrays: m.arrays.iter().map(|(k, a)| (k.clone(), convert_array(a))).collect(),
        constraints: m.constraints.iter().map(convert_constraint).collect(),
        objective: m.solve.objective.as_ref().map(convert_literal),
    }
}

/// The FlatZinc model that `serde_json` reads from a JSON text, as the library holds
/// it (see [`Model`]); `None` when `serde_json` reports the text is no FlatZinc model.
pub uninterp spec fn parsed_model(text: Seq<char>) -> Option<Model>;

/// Reads a FlatZinc model from its JSON text with `serde_json::from_str` and converts
/// it to the library's [`Model`]. The contract claims that the result is a function of
/// the text, named [`parsed_model`]; what `serde_json` accepts is not stated.
#[verifier::external_body]
fn parse_flatzinc(text: &str) -> (r: Option<Model>)
    ensures
        r == parsed_model(text@),
{
    match serde_json::from_str::<fz::FlatZinc>(text) {
        Ok(m) => Some(convert_model(&m)),
        Err(_) => None,
    }
}

/// The entries of a list by their names' texts and `defined` flags.
pub open spec fn entries_view(entries: Seq<(String, bool)>) -> Seq<(Seq<char>, bool)> {
    entries.map_values(|e: (String, bool)| (e.0@, e.1))
}

/// The variables of a model by their names' texts and `defined` flags, in order.
pub open spec fn entries_of(model: Model) -> Seq<(Seq<char>, bool)> {
    model.variables@.map_values(|v: ModelVariable| (v.name@, v.defined))
}

/// The variables of a model by name, each with whether a constraint defines it (see
/// [`entries_of`]).
pub fn variable_entries(model: &Model) -> (r: Vec<(String, bool)>)
    ensures
        entries_view(r@) == entries_of(*model),
{
    let mut out: Vec<(String, bool)> = Vec::new();
    for i in 0..model.variables.len()
        invariant
            out@.len() == i,
            forall|j: int| 0 <= j < i ==> (#[trigger] out@[j]).0@ == model.variables@[j].name@
                && out@[j].1 == model.variables@[j].defined,
    {
        let v = &model.variables[i];
        out.push((v.name.clone(), v.defined));
    }
    proof {
        assert(entries_view(out@) =~= entries_of(*model));
    }
    out
}

/// The names of the entries that no constraint defines, in order.
pub open spec fn undefined_spec(entries: Seq<(Seq<char>, bool)>) -> Seq<Seq<char>>
    decreases entries.len(),
{
    if entries.len() == 0 {
        Seq::empty()
    } else {
        let rest = undefined_spec(entries.drop_last());
        if entries.last().1 {
            rest
        } else {
            rest.push(entries.last().0)
        }
    }
}

/// The names of the variables that no constraint defines, in order (see
/// [`undefined_spec`]).
pub fn undefined_names(entries: &Vec<(String, bool)>) -> (r: Vec<String>)
    ensures
        strings_view(r@) == undefined_spec(entries_view(entries@)),
{
    let mut out: Vec<String> = Vec::new();
    for i in 0..entries.len()
        invariant
            strings_view(out@) == undefined_spec(entries_view(entries@.take(i as int))),
    {
        proof {
            assert(entries_view(entries@.take(i + 1)).drop_last() =~= entries_view(entries@.take(i as int)));
            assert(entries_view(entries@.take(i + 1)).last() == (entries@[i as int].0@, entries@[i as int].1));
        }
        if !entries[i].1 {
            let name = entries[i].0.clone();
            let ghost before = out@;
            out.push(name);
            proof {
                assert(strings_view(out@) =~= strings_view(before).push(name@));
            }
        }
    }
    proof {
        assert(entries@.take(entries@.len() as int) =~= entries@);
    }
    out
}

/// The names at the given positions, in the order of the positions.
pub open spec fn pick(names: Seq<Seq<char>>, order: Seq<usize>) -> Seq<Seq<char>> {
    Seq::new(order.len(), |i: int| names[order[i] as int])
}

/// `listing` is `names` in the order the search visits them: by the index each name
/// ends with (names without one last), the order of `names` kept among equal keys.
pub open spec fn decision_listing(names: Seq<Seq<char>>, listing: Seq<Seq<char>>) -> bool {
    exists|order: Seq<usize>| is_decision_order(names, order) && listing == pick(names, order)
}

/// Two lists of positions that both order `names` as the search does agree up to `i`.
proof fn lemma_orders_agree_upto(names: Seq<Seq<char>>, o1: Seq<usize>, o2: Seq<usize>, i: int)
    requires
        is_decision_order(names, o1),
        is_decision_order(names, o2),
        0 <= i < o1.len(),
    ensures
        forall|j: int| 0 <= j <= i ==> o1[j] == o2[j],
    decreases i,
{
    if i > 0 {
        lemma_orders_agree_upto(names, o1, o2, i - 1);
    }
    let (a, b) = (o1[i] as int, o2[i] as int);
    if a != b {
        assert(listed(o1, b));
        let t = choose|t: int| 0 <= t < o1.len() && o1[t] == b;
        assert(listed(o2, a));
        let u = choose|u: int| 0 <= u < o2.len() && o2[u] == a;
        if t < i {
            assert(o2[t] == b);
            assert(goes_before(names, o2[t] as int, o2[i] as int));
        }
        if u < i {
            assert(o1[u] == a);
            assert(goes_before(names, o1[u] as int, o1[i] as int));
        }
        assert(t > i && u > i);
        assert(goes_before(names, o1[i] as int, o1[t] as int));
        assert(goes_before(names, o2[i] as int, o2[u] as int));
    }
}

/// The order in which the search visits a list of names is unique: two listings that
/// both order `names` as [`decision_listing`] says are the same.
pub proof fn lemma_decision_listing_unique(names: Seq<Seq<char>>, l1: Seq<Seq<char>>, l2: Seq<Seq<char>>)
    requires
        decision_listing(names, l1),
        decision_listing(names, l2),
    ensures
        l1 == l2,
{
    let o1 = choose|o: Seq<usize>| is_decision_order(names, o) && l1 == pick(names, o);
    let o2 = choose|o: Seq<usize>| is_decision_order(names, o) && l2 == pick(names, o);
    if o1.len() > 0 {
        lemma_orders_agree_upto(names, o1, o2, o1.len() - 1);
    }
    assert(o1 =~= o2);
}

/// The names at the given positions, in the order of the positions.
pub fn names_at(names: &Vec<String>, order: &Vec<usize>) -> (r: Vec<String>)
    requires
        forall|i: int| 0 <= i < order@.len() ==> #[trigger] order@[i] < names@.len(),
    ensures
        strings_view(r@) == pick(strings_view(names@), order@),
{
    let mut out: Vec<String> = Vec::new();
    for i in 0..order.len()
        invariant
            forall|i: int| 0 <= i < order@.len() ==> #[trigger] order@[i] < names@.len(),
            out@.len() == i,
            forall|j: int| 0 <= j < i ==> #[trigger] out@[j]@ == names@[order@[j] as int]@,
    {
        out.push(names[order[i]].clone());
    }
    proof {
        assert(strings_view(out@) =~= pick(strings_view(names@), order@));
    }
    out
}

/// The decision variables of a model's entries, in the order the search visits them:
/// the names no constraint defines, ordered by [`decision_order`].
pub fn decision_variables(entries: &Vec<(String, bool)>) -> (r: Vec<String>)
    ensures
        decision_listing(undefined_spec(entries_view(entries@)), strings_view(r@)),
{
    let names = undefined_names(entries);
    let order = decision_order(&names);
    let r = names_at(&names, &order);
    proof {
        assert(is_decision_order(strings_view(names@), order@));
        assert(forall|i: int| 0 <= i < order@.len() ==> #[trigger] order@[i] < names@.len());
    }
    r
}

/// Reads a FlatZinc model from its JSON text (a leading byte order mark is skipped)
/// and lists its decision variables in the order the search visits them (see
/// [`decision_listing`]); `None` when the text is no FlatZinc model.
pub fn read_model(text: &str) -> (r: Option<(Model, Vec<String>)>)
    ensures
        r is Some <==> parsed_model(without_bom(text@)) is Some,
        r matches Some((m, names)) ==> m == parsed_model(without_bom(text@))->0 && decision_listing(
            undefined_spec(entries_of(m)),
            strings_view(names@),
        ),
{
    let body = strip_bom(text);
    match parse_flatzinc(body) {
        Some(model) => {
            let entries = variable_entries(&model);
            let names = decision_variables(&entries);
            Some((model, names))
        },
        None => None,
    }
}

/// The decimal digit for `d` (below ten).
pub open spec fn decimal_digit(d: nat) -> char {
    if d == 0 { '0' } else if d == 1 { '1' } else if d == 2 { '2' } else if d == 3 { '3' } else if d == 4 {
        '4'
    } else if d == 5 { '5' } else if d == 6 { '6' } else if d == 7 { '7' } else if d == 8 { '8' } else { '9' }
}

/// The decimal notation of `n`, most significant digit first.
pub open spec fn decimal(n: nat) -> Seq<char>
    decreases n,
{
    if n < 10 {
        seq![decimal_digit(n)]
    } else {
        decimal(n / 10).push(decimal_digit(n % 10))
    }
}

/// The search visits names by the index they end with: of two names it visits in
/// turn, a first name with an index (one that fits `usize`) is no greater than a
/// second one's, and keeps its place in the list when they are equal; a name without
/// an index comes after every name with one, and names without one keep their places
/// in the list.
pub proof fn lemma_decision_order_by_index(names: Seq<Seq<char>>, r: Seq<usize>, i: int, j: int)
    requires
        is_decision_order(names, r),
        0 <= i < j < r.len(),
    ensures
        ({
            let (a, b) = (trailing_number(names[r[i] as int]), trailing_number(names[r[j] as int]));
            &&& (a is Some && a->0 <= usize::MAX && b is Some && b->0 <= usize::MAX) ==> a->0 <= b->0
            &&& (a is Some && b is Some && a->0 == b->0) ==> r[i] < r[j]
            &&& a is None ==> (b is None || b->0 >= usize::MAX)
            &&& (a is None && b is None) ==> r[i] < r[j]
        }),
{
    assert(goes_before(names, r[i] as int, r[j] as int));
}

/// A decimal digit is a digit, worth its number.
proof fn lemma_decimal_digit(d: nat)
    requires
        d < 10,
    ensures
        is_digit(decimal_digit(d)),
        (decimal_digit(d) as nat) - ('0' as nat) == d,
{
}

/// The decimal notation of a number is a non-empty run of digits that spells it.
proof fn lemma_decimal(n: nat)
    ensures
        decimal(n).len() > 0,
        forall|i: int| 0 <= i < decimal(n).len() ==> is_digit(#[trigger] decimal(n)[i]),
        digits_value(decimal(n)) == n,
    decreases n,
{
    if n >= 10 {
        lemma_decimal(n / 10);
        lemma_decimal_digit(n % 10);
        let d = decimal(n / 10);
        assert(decimal(n).drop_last() =~= d);
        assert(decimal(n).last() == decimal_digit(n % 10));
        assert(digits_value(decimal(n)) == digits_value(d) * 10 + (n % 10));
        assert((n / 10) * 10 + n % 10 == n) by (nonlinear_arith);
    } else {
        lemma_decimal_digit(n);
        assert(decimal(n).drop_last() =~= Seq::<char>::empty());
        assert(decimal(n).last() == decimal_digit(n));
        assert(digits_value(decimal(n).drop_last()) == 0);
    }
}

/// Characters that are not digits at the end of a name are skipped.
proof fn lemma_strip_tail(s: Seq<char>, t: Seq<char>)
    requires
        s.len() > 0,
        is_digit(s.last()),
        forall|i: int| 0 <= i < t.len() ==> !is_digit(#[trigger] t[i]),
    ensures
        strip_non_digits(s + t) == s,
    decreases t.len(),
{
    if t.len() == 0 {
        assert(s + t =~= s);
    } else {
        assert((s + t).drop_last() =~= s + t.drop_last());
        assert((s + t).last() == t.last());
        lemma_strip_tail(s, t.drop_last());
    }
}

/// A run of digits after a character that is not a digit (or at the start) is the
/// last run of the text.
proof fn lemma_run_after(s: Seq<char>, d: Seq<char>)
    requires
        s.len() == 0 || !is_digit(s.last()),
        forall|i: int| 0 <= i < d.len() ==> is_digit(#[trigger] d[i]),
    ensures
        digit_run(s + d) == d,
    decreases d.len(),
{
    if d.len() == 0 {
        assert(s + d =~= s);
    } else {
        assert((s + d).drop_last() =~= s + d.drop_last());
        assert((s + d).last() == d.last());
        lemma_run_after(s, d.drop_last());
        assert(d.drop_last().push(d.last()) =~= d);
    }
}

/// The index that a name ends with is the number written there: a prefix that does
/// not end in a digit, the decimal notation of `n`, then characters that are not
/// digits, make a name whose trailing number is `n`.
pub proof fn lemma_trailing_number_reads_decimal(s: Seq<char>, n: nat, t: Seq<char>)
    requires
        s.len() == 0 || !is_digit(s.last()),
        forall|i: int| 0 <= i < t.len() ==> !is_digit(#[trigger] t[i]),
    ensures
        trailing_number(s + decimal(n) + t) == Some(n),
{
    lemma_decimal(n);
    let d = decimal(n);
    assert((s + d).last() == d.last());
    lemma_strip_tail(s + d, t);
    lemma_run_after(s, d);
}

/// A name without digits has no trailing number.
pub proof fn lemma_no_digits_no_number(s: Seq<char>)
    requires
        forall|i: int| 0 <= i < s.len() ==> !is_digit(#[trigger] s[i]),
    ensures
        trailing_number(s) is None,
    decreases s.len(),
{
    if s.len() > 0 {
        assert(s.drop_last().len() < s.len());
        assert forall|i: int| 0 <= i < s.drop_last().len() implies !is_digit(#[trigger] s.drop_last()[i]) by {
            assert(s.drop_last()[i] == s[i]);
        }
        lemma_no_digits_no_number(s.drop_last());
        assert(!is_digit(s.last()));
    }
}

/// Whether a character is an ASCII decimal digit.
fn is_digit_char(c: char) -> (r: bool)
    ensures
        r == is_digit(c),
{
    '0' <= c && c <= '9'
}

} // verus!
