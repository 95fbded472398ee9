//! Character-level helpers on strings, stated over `Seq<char>` views.
use vstd::prelude::*;

verus! {

/// `p` is a prefix of `s`.
pub open spec fn is_prefix(p: Seq<char>, s: Seq<char>) -> bool {
    p.len() <= s.len() && s.subrange(0, p.len() as int) == p
}

/// Whether `s` begins with `prefix`, compared character by character.
pub fn starts_with(s: &str, prefix: &str) -> (r: bool)
    ensures
        r == is_prefix(prefix@, s@),
{
    let n = prefix.unicode_len();
    let m = s.unicode_len();
    if n > m {
        return false;
    }
    let mut i: usize = 0;
    while i < n
        invariant
            0 <= i <= n,
            n == prefix@.len(),
            m == s@.len(),
            n <= m,
            forall|j: int| 0 <= j < i ==> s@[j] == prefix@[j],
        decreases n - i,
    {
        if s.get_char(i) != prefix.get_char(i) {
            proof {
                assert(s@.subrange(0, n as int)[i as int] != prefix@[i as int]);
            }
            return false;
        }
        i = i + 1;
    }
    proof {
        assert(s@.subrange(0, n as int) =~= prefix@);
    }
    true
}

/// Whether two strings hold the same characters.
pub fn same(a: &str, b: &str) -> (r: bool)
    ensures
        r == (a@ == b@),
{
    if a.unicode_len() != b.unicode_len() {
        return false;
    }
    let r = starts_with(a, b);
    proof {
        assert(a@.subrange(0, a@.len() as int) =~= a@);
    }
    r
}

/// `s` extended with `-` until it is longer than `bound` characters; `s`
/// itself when it already is.
pub fn lengthen_past(s: String, bound: usize) -> (r: String)
    ensures
        r@.len() > bound,
        r@.len() >= s@.len(),
        r@.subrange(0, s@.len() as int) == s@,
{
    let ghost start = s@;
    let mut out = s;
    let mut len = out.unicode_len();
    while len <= bound
        invariant
            len == out@.len(),
            out@.len() >= start.len(),
            out@.subrange(0, start.len() as int) == start,
        decreases bound as int + 1 - len as int,
    {
        let ghost before = out@;
        out.append("-");
        proof {
            reveal_strlit("-");
            assert("-"@.len() == 1);
            assert(out@.len() == before.len() + 1);
            assert(out@.subrange(0, start.len() as int) =~= before.subrange(0, start.len() as int));
        }
        len = out.unicode_len();
    }
    out
}

} // verus!
