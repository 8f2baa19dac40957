//! Operations on sets of integers with exact contracts: the set algebra that set
//! constraints are measured with, the ascending listing of a set, and the
//! lexicographic order of listings.
use std::collections::HashSet;
use vstd::std_specs::iter::IteratorSpec;
use vstd::prelude::*;

verus! {

broadcast use vstd::std_specs::hash::group_hash_axioms;

/// The elements that lie in exactly one of `a` and `b`.
pub open spec fn sym_diff(a: Set<i64>, b: Set<i64>) -> Set<i64> {
    a.difference(b).union(b.difference(a))
}

/// `m` is the least element of `s`.
pub open spec fn is_least_of(m: i64, s: Set<i64>) -> bool {
    s.contains(m) && forall|x: i64| #[trigger] s.contains(x) ==> m <= x
}

/// The least element of a non-empty finite set.
pub open spec fn set_min(s: Set<i64>) -> i64 {
    choose|m: i64| is_least_of(m, s)
}

/// The elements of a finite set in ascending order.
pub open spec fn sorted_elements(s: Set<i64>) -> Seq<i64>
    decreases s.len(),
    when s.finite()
{
    if s.len() == 0 {
        Seq::empty()
    } else {
        let m = set_min(s);
        if s.contains(m) {
            seq![m] + sorted_elements(s.remove(m))
        } else {
            Seq::empty()
        }
    }
}

/// `a` comes strictly before `b` in lexicographic order, as `<` orders `Vec<i64>`.
pub open spec fn lex_lt(a: Seq<i64>, b: Seq<i64>) -> bool
    decreases a.len(),
{
    if a.len() == 0 {
        b.len() > 0
    } else if b.len() == 0 {
        false
    } else if a[0] != b[0] {
        a[0] < b[0]
    } else {
        lex_lt(a.drop_first(), b.drop_first())
    }
}

/// `a` comes at or before `b` in lexicographic order, as `<=` orders `Vec<i64>`.
pub open spec fn lex_le(a: Seq<i64>, b: Seq<i64>) -> bool {
    !lex_lt(b, a)
}

/// The number of positions `i < n` at which `y[i] < x[i]` (`y[i] <= x[i]` when
/// `or_equal`).
pub open spec fn count_below(y: Seq<i64>, x: Seq<i64>, n: nat, or_equal: bool) -> int
    decreases n,
{
    if n == 0 {
        0
    } else {
        let i = n - 1;
        count_below(y, x, (n - 1) as nat, or_equal) + (if y[i] < x[i] || (or_equal && y[i] == x[i]) {
            1int
        } else {
            0int
        })
    }
}

/// A finite non-empty set of integers has a least element.
proof fn lemma_least_exists(s: Set<i64>)
    requires
        s.finite(),
        s.len() > 0,
    ensures
        exists|m: i64| is_least_of(m, s),
    decreases s.len(),
{
    let x = s.choose();
    assert(s.contains(x)) by {
        if !s.contains(x) {
            assert(s =~= Set::<i64>::empty());
        }
    }
    let r = s.remove(x);
    if r.len() == 0 {
        assert(r =~= Set::<i64>::empty()) by {
            if exists|y: i64| r.contains(y) {
                let y = choose|y: i64| r.contains(y);
                assert(r.len() > 0);
            }
        }
        assert(is_least_of(x, s)) by {
            assert forall|y: i64| #[trigger] s.contains(y) implies x <= y by {
                if y != x {
                    assert(r.contains(y));
                }
            }
        }
    } else {
        lemma_least_exists(r);
        let m = choose|m: i64| is_least_of(m, r);
        let least = if x <= m { x } else { m };
        assert(is_least_of(least, s)) by {
            assert forall|y: i64| #[trigger] s.contains(y) implies least <= y by {
                if y != x {
                    assert(r.contains(y));
                }
            }
        }
    }
}

/// The ascending listing of a finite set holds each element of the set once, in
/// strictly increasing order.
pub proof fn lemma_sorted_elements_lists(s: Set<i64>)
    requires
        s.finite(),
    ensures
        sorted_elements(s).len() == s.len(),
        sorted_elements(s).to_set() == s,
        forall|i: int, j: int|
            0 <= i < j < sorted_elements(s).len() ==> sorted_elements(s)[i] < sorted_elements(s)[j],
    decreases s.len(),
{
    let l = sorted_elements(s);
    if s.len() == 0 {
        assert(s =~= Set::<i64>::empty()) by {
            if exists|x: i64| s.contains(x) {
                let x = choose|x: i64| s.contains(x);
                assert(s.remove(x).len() < s.len());
            }
        }
        assert(l.to_set() =~= s);
    } else {
        lemma_least_exists(s);
        let m = set_min(s);
        assert(is_least_of(m, s));
        let r = s.remove(m);
        lemma_sorted_elements_lists(r);
        let rest = sorted_elements(r);
        assert(l == seq![m] + rest);
        assert forall|i: int, j: int| 0 <= i < j < l.len() implies l[i] < l[j] by {
            if i == 0 {
                assert(rest.to_set().contains(rest[j - 1]));
                assert(r.contains(l[j]));
            } else {
                assert(l[i] == rest[i - 1]);
                assert(l[j] == rest[j - 1]);
            }
        }
        assert(l.to_set() =~= s) by {
            assert forall|x: i64| l.to_set().contains(x) <==> s.contains(x) by {
                if s.contains(x) && x != m {
                    assert(rest.to_set().contains(x));
                    let k = choose|k: int| 0 <= k < rest.len() && rest[k] == x;
                    assert(l[k + 1] == x);
                }
                if l.to_set().contains(x) {
                    let k = choose|k: int| 0 <= k < l.len() && l[k] == x;
                    if k > 0 {
                        assert(rest[k - 1] == x);
                        assert(rest.to_set().contains(x));
                    }
                }
                if x == m {
                    assert(l[0] == m);
                }
            }
        }
    }
}

/// The elements of a set, each once, in the order the set lists them.
pub fn elements_of(s: &HashSet<i64>) -> (v: Vec<i64>)
    ensures
        v@.no_duplicates(),
        v@.to_set() == s@,
        s@.finite(),
        v@.len() == s@.len(),
{
    let mut v: Vec<i64> = Vec::new();
    let keys = s.iter();
    let ghost listed = keys.remaining().unref();
    proof {
        assert(listed.to_set() == s@);
        assert(listed.no_duplicates());
    }
    for x in it: keys
        invariant
            listed == it.seq().unref(),
            v@ == listed.take(it.index() as int),
    {
        v.push(*x);
        proof {
            assert(listed[it.index() as int] == *x);
            assert(v@ =~= listed.take(it.index() + 1));
        }
    }
    proof {
        assert(v@ =~= listed);
        vstd::seq_lib::seq_to_set_is_finite(listed);
        listed.unique_seq_to_set();
    }
    v
}

/// Whether every element of `a` lies in `b`.
pub fn is_subset(a: &HashSet<i64>, b: &HashSet<i64>) -> (r: bool)
    ensures
        r == a@.subset_of(b@),
{
    let ev = elements_of(a);
    for i in 0..ev.len()
        invariant
            ev@.to_set() == a@,
            forall|j: int| 0 <= j < i ==> b@.contains(#[trigger] ev@[j]),
    {
        if !b.contains(&ev[i]) {
            proof {
                assert(ev@.to_set().contains(ev@[i as int]));
            }
            return false;
        }
    }
    proof {
        assert forall|x: i64| a@.contains(x) implies b@.contains(x) by {
            assert(ev@.to_set().contains(x));
            let j = choose|j: int| 0 <= j < ev@.len() && ev@[j] == x;
        }
    }
    true
}

/// Whether the two sets hold the same elements.
pub fn set_equal(a: &HashSet<i64>, b: &HashSet<i64>) -> (r: bool)
    ensures
        r == (a@ == b@),
{
    let r = is_subset(a, b) && is_subset(b, a);
    proof {
        if r {
            assert(a@ =~= b@);
        }
    }
    r
}

/// The elements of `a` that pass `keep`, where `keep` is whether `b` holds them
/// (`inside`) or not (`!inside`).
fn filter_by(a: &HashSet<i64>, b: &HashSet<i64>, inside: bool) -> (r: HashSet<i64>)
    ensures
        r@ == (if inside { a@.intersect(b@) } else { a@.difference(b@) }),
{
    let ev = elements_of(a);
    let mut r: HashSet<i64> = HashSet::new();
    for i in 0..ev.len()
        invariant
            forall|x: i64| #[trigger]
                r@.contains(x) <==> (exists|j: int| 0 <= j < i && ev@[j] == x) && (b@.contains(x)
                    == inside),
    {
        if b.contains(&ev[i]) == inside {
            r.insert(ev[i]);
        }
        proof {
            assert forall|x: i64| #[trigger]
                r@.contains(x) <==> (exists|j: int| 0 <= j < i + 1 && ev@[j] == x) && (b@.contains(x)
                    == inside) by {
                if exists|j: int| 0 <= j < i + 1 && ev@[j] == x {
                    let j = choose|j: int| 0 <= j < i + 1 && ev@[j] == x;
                    if j < i {
                    }
                }
            }
        }
    }
    proof {
        let want = if inside { a@.intersect(b@) } else { a@.difference(b@) };
        assert forall|x: i64| r@.contains(x) <==> want.contains(x) by {
            if a@.contains(x) {
                assert(ev@.to_set().contains(x));
            }
            if exists|j: int| 0 <= j < ev@.len() && ev@[j] == x {
                let j = choose|j: int| 0 <= j < ev@.len() && ev@[j] == x;
                assert(ev@.to_set().contains(ev@[j]));
            }
        }
        assert(r@ =~= want);
    }
    r
}

/// `a \ b`.
pub fn difference_of(a: &HashSet<i64>, b: &HashSet<i64>) -> (r: HashSet<i64>)
    ensures
        r@ == a@.difference(b@),
{
    filter_by(a, b, false)
}

/// `a ∩ b`.
pub fn intersection_of(a: &HashSet<i64>, b: &HashSet<i64>) -> (r: HashSet<i64>)
    ensures
        r@ == a@.intersect(b@),
{
    filter_by(a, b, true)
}

/// Adds the elements of `src` to `dst`.
fn insert_all(dst: &mut HashSet<i64>, src: &HashSet<i64>)
    ensures
        final(dst)@ == old(dst)@.union(src@),
{
    let ev = elements_of(src);
    for i in 0..ev.len()
        invariant
            dst@ == old(dst)@.union(ev@.take(i as int).to_set()),
    {
        dst.insert(ev[i]);
        proof {
            assert(ev@.take(i + 1) =~= ev@.take(i as int).push(ev@[i as int]));
            ev@.take(i as int).lemma_push_to_set_commute(ev@[i as int]);
            assert(dst@ =~= old(dst)@.union(ev@.take(i + 1).to_set()));
        }
    }
    proof {
        assert(ev@.take(ev.len() as int) =~= ev@);
    }
}

/// `a ∪ b`.
pub fn union_of(a: &HashSet<i64>, b: &HashSet<i64>) -> (r: HashSet<i64>)
    ensures
        r@ == a@.union(b@),
{
    let mut r: HashSet<i64> = HashSet::new();
    insert_all(&mut r, a);
    insert_all(&mut r, b);
    proof {
        assert(r@ =~= a@.union(b@));
    }
    r
}

/// The symmetric difference of `a` and `b`.
pub fn sym_diff_of(a: &HashSet<i64>, b: &HashSet<i64>) -> (r: HashSet<i64>)
    ensures
        r@ == sym_diff(a@, b@),
{
    let d1 = difference_of(a, b);
    let d2 = difference_of(b, a);
    union_of(&d1, &d2)
}

/// The number of elements of a set.
pub fn set_size(s: &HashSet<i64>) -> (r: u64)
    ensures
        r == s@.len(),
{
    s.len() as u64
}

/// The elements of a set in ascending order.
pub fn sorted_elements_of(s: &HashSet<i64>) -> (r: Vec<i64>)
    ensures
        r@ == sorted_elements(s@),
{
    let mut rem = elements_of(s);
    let mut out: Vec<i64> = Vec::new();
    let ghost whole = s@;
    proof {
        vstd::seq_lib::seq_to_set_is_finite(rem@);
        assert(out@ + sorted_elements(rem@.to_set()) =~= sorted_elements(whole));
    }
    while rem.len() > 0
        invariant
            whole == s@,
            rem@.no_duplicates(),
            out@ + sorted_elements(rem@.to_set()) == sorted_elements(whole),
        decreases rem.len(),
    {
        let ghost before = rem@;
        let mut j: usize = 0;
        let mut k: usize = 1;
        while k < rem.len()
            invariant
                rem@ == before,
                0 <= j < rem.len(),
                1 <= k <= rem.len(),
                forall|t: int| 0 <= t < k ==> rem@[j as int] <= #[trigger] rem@[t],
            decreases rem.len() - k,
        {
            if rem[k] < rem[j] {
                j = k;
            }
            k = k + 1;
        }
        let m = rem.remove(j);
        proof {
            let big = before.to_set();
            vstd::seq_lib::seq_to_set_is_finite(before);
            assert(big.contains(m)) by {
                assert(before[j as int] == m);
            }
            assert(is_least_of(m, big)) by {
                assert forall|x: i64| #[trigger] big.contains(x) implies m <= x by {
                    let t = choose|t: int| 0 <= t < before.len() && before[t] == x;
                }
            }
            let mm = set_min(big);
            assert(is_least_of(mm, big));
            assert(mm == m);
            assert(big.len() != 0);
            assert(rem@.to_set() =~= big.remove(m)) by {
                assert forall|x: i64| rem@.to_set().contains(x) <==> big.remove(m).contains(x) by {
                    if rem@.to_set().contains(x) {
                        let t = choose|t: int| 0 <= t < rem@.len() && rem@[t] == x;
                        if t < j {
                            assert(before[t] == x);
                        } else {
                            assert(before[t + 1] == x);
                        }
                    }
                    if big.remove(m).contains(x) {
                        let t = choose|t: int| 0 <= t < before.len() && before[t] == x;
                        if t < j {
                            assert(rem@[t] == x);
                        } else {
                            assert(rem@[t - 1] == x);
                        }
                    }
                }
            }
            assert(rem@.no_duplicates()) by {
                assert forall|a: int, b: int| 0 <= a < b < rem@.len() implies rem@[a] != rem@[b] by {
                    let a0 = if a < j { a } else { a + 1 };
                    let b0 = if b < j { b } else { b + 1 };
                    assert(rem@[a] == before[a0]);
                    assert(rem@[b] == before[b0]);
                }
            }
        }
        out.push(m);
        proof {
            let big = before.to_set();
            assert(sorted_elements(big) == seq![m] + sorted_elements(big.remove(m)));
            assert(out@ + sorted_elements(rem@.to_set()) =~= out@.drop_last() + sorted_elements(big));
        }
    }
    proof {
        assert(rem@.to_set() =~= Set::<i64>::empty());
        assert(out@ =~= sorted_elements(whole));
    }
    out
}

/// `a` and `b` agree on their first `k` elements, and at position `k` either `a` has
/// ended while `b` goes on, or `a` holds the smaller element.
pub open spec fn first_difference_favours(a: Seq<i64>, b: Seq<i64>, k: int) -> bool {
    &&& 0 <= k <= a.len()
    &&& k <= b.len()
    &&& forall|i: int| 0 <= i < k ==> #[trigger] a[i] == b[i]
    &&& (k == a.len() && k < b.len()) || (k < a.len() && k < b.len() && a[k] < b[k])
}

/// Lexicographic order: `a` comes strictly before `b` exactly when, at the first
/// position where they differ, `a` has ended or holds the smaller element.
pub proof fn lemma_lex_lt_first_difference(a: Seq<i64>, b: Seq<i64>)
    ensures
        lex_lt(a, b) <==> exists|k: int| #[trigger] first_difference_favours(a, b, k),
    decreases a.len(),
{
    if a.len() == 0 {
        if b.len() > 0 {
            assert(first_difference_favours(a, b, 0));
        }
    } else if b.len() == 0 {
    } else if a[0] != b[0] {
        if a[0] < b[0] {
            assert(first_difference_favours(a, b, 0));
        } else {
            assert forall|k: int| !first_difference_favours(a, b, k) by {
                if first_difference_favours(a, b, k) && k > 0 {
                    assert(a[0] == b[0]);
                }
            }
        }
    } else {
        let (a1, b1) = (a.drop_first(), b.drop_first());
        lemma_lex_lt_first_difference(a1, b1);
        if lex_lt(a1, b1) {
            let k = choose|k: int| #[trigger] first_difference_favours(a1, b1, k);
            assert forall|i: int| 0 <= i < k + 1 implies #[trigger] a[i] == b[i] by {
                if i > 0 {
                    assert(a[i] == a1[i - 1] && b[i] == b1[i - 1]);
                }
            }
            assert(first_difference_favours(a, b, k + 1));
        } else {
            assert forall|k: int| !first_difference_favours(a, b, k) by {
                if first_difference_favours(a, b, k) {
                    assert(k > 0);
                    assert forall|i: int| 0 <= i < k - 1 implies #[trigger] a1[i] == b1[i] by {
                        assert(a[i + 1] == b[i + 1]);
                    }
                    assert(first_difference_favours(a1, b1, k - 1));
                }
            }
        }
    }
}

/// Whether `a` comes strictly before `b` in lexicographic order.
pub fn lex_less(a: &Vec<i64>, b: &Vec<i64>) -> (r: bool)
    ensures
        r == lex_lt(a@, b@),
{
    let mut i: usize = 0;
    proof {
        assert(a@.skip(0) =~= a@);
        assert(b@.skip(0) =~= b@);
    }
    while i < a.len() && i < b.len()
        invariant
            i <= a.len(),
            i <= b.len(),
            lex_lt(a@, b@) == lex_lt(a@.skip(i as int), b@.skip(i as int)),
        decreases a.len() - i,
    {
        if a[i] != b[i] {
            return a[i] < b[i];
        }
        proof {
            assert(a@.skip(i as int).drop_first() =~= a@.skip(i + 1));
            assert(b@.skip(i as int).drop_first() =~= b@.skip(i + 1));
        }
        i = i + 1;
    }
    i == a.len() && i < b.len()
}

/// The number of positions `i`, within both `y` and `x`, at which `y[i] < x[i]`
/// (`y[i] <= x[i]` when `or_equal`).
pub fn count_below_of(y: &Vec<i64>, x: &Vec<i64>, or_equal: bool) -> (r: u64)
    ensures
        r == count_below(y@, x@, if y@.len() <= x@.len() { y@.len() } else { x@.len() }, or_equal),
{
    let n_pos = if y.len() <= x.len() { y.len() } else { x.len() };
    let mut n: u64 = 0;
    for i in 0..n_pos
        invariant
            n_pos <= y@.len(),
            n_pos <= x@.len(),
            n == count_below(y@, x@, i as nat, or_equal),
            n <= i,
    {
        if y[i] < x[i] || (or_equal && y[i] == x[i]) {
            n = n + 1;
        }
    }
    n
}

} // verus!
