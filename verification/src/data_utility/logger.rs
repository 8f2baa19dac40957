use vstd::prelude::*;
use vstd::string::StrSliceExecFns;
use vstd::string::StringExecFns;

verus! {

/// `s` without its leading `-` characters.
pub open spec fn trim_leading_minus(s: Seq<char>) -> Seq<char>
    decreases s.len(),
{
    if s.len() > 0 && s[0] == '-' {
        trim_leading_minus(s.drop_first())
    } else {
        s
    }
}

/// The text that [`write_verbose_output`] appends for the term `coeff * value`:
/// the sign of the coefficient (`-` or nothing for the first term, ` - ` or ` + `
/// for later terms), the coefficient without its leading minus signs, ` * `, and
/// the value.
pub open spec fn verbose_term(first: bool, coeff: Seq<char>, value: Seq<char>) -> Seq<char> {
    let negative = coeff.len() > 0 && coeff[0] == '-';
    let sign = if first {
        if negative {
            seq!['-']
        } else {
            Seq::empty()
        }
    } else {
        if negative {
            seq![' ', '-', ' ']
        } else {
            seq![' ', '+', ' ']
        }
    };
    sign + trim_leading_minus(coeff) + seq![' ', '*', ' '] + value
}

/// Appends the term `coeff * value` of a linear expression to `verbose_terms`,
/// written with its sign in front: `-3 * 5` for a first term, ` + 3 * 5` or
/// ` - 3 * 5` for a later one.
///
/// `c` and `value` are the displayed forms of the coefficient and the value.
pub fn write_verbose_output(verbose_terms: &mut String, c: &str, value: &str)
    ensures
        final(verbose_terms)@ == old(verbose_terms)@ + verbose_term(
            old(verbose_terms)@.len() == 0,
            c@,
            value@,
        ),
{
    let len = c.unicode_len();
    let mut i: usize = 0;
    proof {
        assert(c@.skip(0) =~= c@);
    }
    while i < len && c.get_char(i) == '-'
        invariant
            len == c@.len(),
            i <= len,
            trim_leading_minus(c@) == trim_leading_minus(c@.skip(i as int)),
        decreases len - i,
    {
        proof {
            assert(c@.skip(i as int).drop_first() =~= c@.skip(i + 1));
        }
        i = i + 1;
    }
    proof {
        assert(trim_leading_minus(c@.skip(i as int)) == c@.skip(i as int));
    }
    let is_negative = len > 0 && c.get_char(0) == '-';
    let magnitude = c.substring_char(i, len);
    let is_empty = verbose_terms.unicode_len() == 0;
    let ghost before = verbose_terms@;
    if is_empty {
        if is_negative {
            verbose_terms.append("-");
        }
    } else {
        if is_negative {
            verbose_terms.append(" - ");
        } else {
            verbose_terms.append(" + ");
        }
    }
    verbose_terms.append(magnitude);
    verbose_terms.append(" * ");
    verbose_terms.append(value);
    proof {
        reveal_strlit("-");
        reveal_strlit(" - ");
        reveal_strlit(" + ");
        reveal_strlit(" * ");
        assert(c@.subrange(i as int, len as int) =~= c@.skip(i as int));
        assert(verbose_terms@ =~= before + verbose_term(before.len() == 0, c@, value@));
    }
}

} // verus!
