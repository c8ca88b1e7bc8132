//! Container names as the engine reports them, and their normal form.
use vstd::prelude::*;

verus! {

/// The path-style separator that the engine may put in front of a name.
pub open spec fn is_separator(c: char) -> bool {
    c == '/'
}

/// A name with every leading separator removed.
pub open spec fn stripped(s: Seq<char>) -> Seq<char>
    decreases s.len(),
{
    if s.len() > 0 && is_separator(s[0]) {
        stripped(s.drop_first())
    } else {
        s
    }
}

/// The number of leading separators of `s`.
pub open spec fn separator_prefix_len(s: Seq<char>) -> nat
    decreases s.len(),
{
    if s.len() > 0 && is_separator(s[0]) {
        1 + separator_prefix_len(s.drop_first())
    } else {
        0
    }
}

proof fn lemma_stripped_is_suffix(s: Seq<char>)
    ensures
        separator_prefix_len(s) <= s.len(),
        stripped(s) == s.subrange(separator_prefix_len(s) as int, s.len() as int),
        forall|i: int| 0 <= i < separator_prefix_len(s) ==> is_separator(#[trigger] s[i]),
        separator_prefix_len(s) < s.len() ==> !is_separator(s[separator_prefix_len(s) as int]),
    decreases s.len(),
{
    if s.len() > 0 && is_separator(s[0]) {
        lemma_stripped_is_suffix(s.drop_first());
        assert(s.drop_first().subrange(
            separator_prefix_len(s.drop_first()) as int,
            s.drop_first().len() as int,
        ) =~= s.subrange(separator_prefix_len(s) as int, s.len() as int));
        assert forall|i: int| 0 <= i < separator_prefix_len(s) implies is_separator(#[trigger] s[i]) by {
            if i > 0 {
                assert(s[i] == s.drop_first()[i - 1]);
            }
        }
    } else {
        assert(s.subrange(0, s.len() as int) =~= s);
    }
}

/// Stripping leading separators a second time changes nothing.
pub proof fn lemma_stripped_idempotent(s: Seq<char>)
    ensures
        stripped(stripped(s)) == stripped(s),
    decreases s.len(),
{
    if s.len() > 0 && is_separator(s[0]) {
        lemma_stripped_idempotent(s.drop_first());
    }
}

/// A name that does not start with a separator is its own normal form.
pub proof fn lemma_stripped_unchanged(s: Seq<char>)
    requires
        s.len() == 0 || !is_separator(s[0]),
    ensures
        stripped(s) == s,
{
}

/// A copy of `s`.
pub(crate) fn clone_string(s: &String) -> (r: String)
    ensures
        r@ == s@,
{
    s.clone()
}

/// Returns `name` without its leading separators.
pub fn strip_separators(name: &str) -> (r: String)
    ensures
        r@ == stripped(name@),
{
    let n = name.unicode_len();
    let mut start: usize = 0;
    proof {
        lemma_stripped_is_suffix(name@);
    }
    while start < n && name.get_char(start) == '/'
        invariant
            n == name@.len(),
            start <= separator_prefix_len(name@),
            separator_prefix_len(name@) <= n,
            forall|i: int| 0 <= i < separator_prefix_len(name@) ==> is_separator(#[trigger] name@[i]),
            separator_prefix_len(name@) < n ==> !is_separator(name@[separator_prefix_len(name@) as int]),
        decreases n - start,
    {
        start = start + 1;
    }
    let rest = name.substring_char(start, n);
    rest.to_string()
}

} // verus!
