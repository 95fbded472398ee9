//! `{NAME}` placeholders in declared permission paths.
//!
//! A placeholder is `{`, a name made of `A`-`Z`, `0`-`9` and `_` that does not
//! start with a digit, and `}`. Text is scanned from the left; each
//! placeholder is replaced by the value of the variable it names, or by
//! nothing when the variable is undefined. Anything else is kept as it is.
use vstd::prelude::*;
use crate::text::same;

verus! {

pub open spec fn is_name_start(c: char) -> bool {
    ('A' <= c && c <= 'Z') || c == '_'
}

pub open spec fn is_name_char(c: char) -> bool {
    is_name_start(c) || ('0' <= c && c <= '9')
}

/// The number of name characters in `s` from position `j` on.
pub open spec fn name_len(s: Seq<char>, j: int) -> nat
    decreases s.len() - j,
{
    if 0 <= j < s.len() && is_name_char(s[j]) {
        1 + name_len(s, j + 1)
    } else {
        0
    }
}

/// Whether a placeholder starts at position `i` of `s`; its name then spans
/// `i + 1 .. i + 2 + name_len(s, i + 2)` and its `}` follows.
pub open spec fn placeholder_at(s: Seq<char>, i: int) -> bool {
    &&& 0 <= i
    &&& i + 1 < s.len()
    &&& s[i] == '{'
    &&& is_name_start(s[i + 1])
    &&& i + 2 + name_len(s, i + 2) < s.len()
    &&& s[i + 2 + name_len(s, i + 2)] == '}'
}

/// The value of the first variable named `name` in `vars` from position `k`
/// on; empty when there is none.
pub open spec fn var_value(vars: Seq<(String, String)>, name: Seq<char>, k: int) -> Seq<char>
    decreases vars.len() - k,
{
    if k < 0 || k >= vars.len() {
        Seq::empty()
    } else if vars[k].0@ == name {
        vars[k].1@
    } else {
        var_value(vars, name, k + 1)
    }
}

/// `s` from position `i` on, with its placeholders replaced.
pub open spec fn expanded_from(s: Seq<char>, vars: Seq<(String, String)>, i: int) -> Seq<char>
    decreases s.len() - i,
{
    if i < 0 || i >= s.len() {
        Seq::empty()
    } else if placeholder_at(s, i) {
        let n = name_len(s, i + 2);
        var_value(vars, s.subrange(i + 1, i + 2 + n), 0) + expanded_from(s, vars, i + 3 + n)
    } else {
        seq![s[i]] + expanded_from(s, vars, i + 1)
    }
}

/// `s` with its placeholders replaced by the values in `vars`.
pub open spec fn expanded(s: Seq<char>, vars: Seq<(String, String)>) -> Seq<char> {
    expanded_from(s, vars, 0)
}

fn is_name_start_char(c: char) -> (r: bool)
    ensures
        r == is_name_start(c),
{
    ('A' <= c && c <= 'Z') || c == '_'
}

fn is_name_char_char(c: char) -> (r: bool)
    ensures
        r == is_name_char(c),
{
    is_name_start_char(c) || ('0' <= c && c <= '9')
}

/// The value of variable `name` in `vars` (the first that matches), or the
/// empty string.
pub fn lookup_var(vars: &Vec<(String, String)>, name: &str) -> (r: String)
    ensures
        r@ == var_value(vars@, name@, 0),
{
    let mut k: usize = 0;
    while k < vars.len()
        invariant
            0 <= k <= vars@.len(),
            var_value(vars@, name@, 0) == var_value(vars@, name@, k as int),
        decreases vars@.len() - k,
    {
        if same(vars[k].0.as_str(), name) {
            return vars[k].1.clone();
        }
        k = k + 1;
    }
    String::new()
}

/// Replaces each `{NAME}` placeholder of `s` by the value of variable `NAME`
/// in `vars`, or by nothing when `vars` does not define it.
pub fn expand_placeholders(s: &str, vars: &Vec<(String, String)>) -> (r: String)
    ensures
        r@ == expanded(s@, vars@),
{
    let len = s.unicode_len();
    let mut out = String::new();
    let mut i: usize = 0;
    while i < len
        invariant
            0 <= i <= len,
            len == s@.len(),
            out@ + expanded_from(s@, vars@, i as int) == expanded(s@, vars@),
        decreases len - i,
    {
        let mut found = false;
        if i + 1 < len && s.get_char(i) == '{' && is_name_start_char(s.get_char(i + 1)) {
            let mut j: usize = i + 2;
            while j < len && is_name_char_char(s.get_char(j))
                invariant
                    i + 2 <= j <= len,
                    len == s@.len(),
                    name_len(s@, i + 2) == (j - (i + 2)) + name_len(s@, j as int),
                decreases len - j,
            {
                j = j + 1;
            }
            if j < len && s.get_char(j) == '}' {
                assert(placeholder_at(s@, i as int));
                let value = lookup_var(vars, s.substring_char(i + 1, j));
                let ghost before = out@;
                out.append(value.as_str());
                proof {
                    assert(before + expanded_from(s@, vars@, i as int) == expanded(s@, vars@));
                    assert(out@ + expanded_from(s@, vars@, (j + 1) as int) =~= before
                        + expanded_from(s@, vars@, i as int));
                }
                i = j + 1;
                found = true;
            }
        }
        if !found {
            assert(!placeholder_at(s@, i as int));
            let ghost before = out@;
            out.append(s.substring_char(i, i + 1));
            proof {
                assert(out@ + expanded_from(s@, vars@, (i + 1) as int) =~= before + expanded_from(
                    s@,
                    vars@,
                    i as int,
                ));
            }
            i = i + 1;
        }
    }
    proof {
        assert(out@ =~= out@ + expanded_from(s@, vars@, i as int));
    }
    out
}

} // verus!
