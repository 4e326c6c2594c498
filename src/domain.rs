//! Domain-name helpers.
use vstd::prelude::*;
use vstd::string::*;

verus! {

/// Number of `.` characters in `s`.
pub open spec fn count_dots(s: Seq<char>) -> nat
    decreases s.len(),
{
    if s.len() == 0 {
        0
    } else {
        (if s[0] == '.' { 1nat } else { 0nat }) + count_dots(s.subrange(1, s.len() as int))
    }
}

/// `r` is the registrable part of `d`: `d` itself when it has at most two
/// labels, else the suffix of `d` that follows a dot and holds exactly two
/// labels (one dot).
pub open spec fn is_base_domain(d: Seq<char>, r: Seq<char>) -> bool {
    if count_dots(d) <= 1 {
        r == d
    } else {
        exists|k: int|
            0 < k <= d.len() && d[k - 1] == '.' && r == d.subrange(k, d.len() as int)
                && count_dots(r) == 1
    }
}

proof fn lemma_count_dots_step(s: Seq<char>, i: int)
    requires
        0 <= i < s.len(),
    ensures
        count_dots(s.subrange(i, s.len() as int)) == (if s[i] == '.' { 1nat } else { 0nat })
            + count_dots(s.subrange(i + 1, s.len() as int)),
{
    let t = s.subrange(i, s.len() as int);
    assert(t.subrange(1, t.len() as int) =~= s.subrange(i + 1, s.len() as int));
}

/// The base (registrable) domain of `domain_name`: the last two labels, or
/// the whole name when it has at most two.
pub fn base_domain(domain_name: &str) -> (r: &str)
    ensures
        is_base_domain(domain_name@, r@),
{
    let n = domain_name.unicode_len();
    let mut i: usize = n;
    let mut dots: usize = 0;
    proof {
        assert(domain_name@.subrange(n as int, n as int).len() == 0);
    }
    while i > 0
        invariant
            i <= n,
            n == domain_name@.len(),
            dots as nat == count_dots(domain_name@.subrange(i as int, n as int)),
            dots <= 1,
        decreases i,
    {
        let c = domain_name.get_char(i - 1);
        proof {
            lemma_count_dots_step(domain_name@, i - 1);
        }
        if c == '.' {
            if dots == 1 {
                let r = domain_name.substring_char(i, n);
                proof {
                    assert(count_dots(domain_name@) >= 2) by {
                        lemma_count_dots_suffix_le(domain_name@, i - 1);
                    }
                }
                return r;
            }
            dots = 1;
        }
        i = i - 1;
    }
    proof {
        assert(domain_name@.subrange(0, n as int) =~= domain_name@);
    }
    domain_name
}

/// Dropping a prefix never adds dots.
proof fn lemma_count_dots_suffix_le(s: Seq<char>, i: int)
    requires
        0 <= i <= s.len(),
    ensures
        count_dots(s.subrange(i, s.len() as int)) <= count_dots(s),
    decreases i,
{
    if i > 0 {
        lemma_count_dots_suffix_le(s, i - 1);
        lemma_count_dots_step(s, i - 1);
    } else {
        assert(s.subrange(0, s.len() as int) =~= s);
    }
}

} // verus!
