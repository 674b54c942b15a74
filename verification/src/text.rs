use vstd::prelude::*;
use vstd::string::StrSliceExecFns;

verus! {

/// `text` without `prefix` in front, where it starts with `prefix`.
pub open spec fn strip_prefix_spec(text: Seq<char>, prefix: Seq<char>) -> Option<Seq<char>> {
    if prefix.is_prefix_of(text) {
        Some(text.skip(prefix.len() as int))
    } else {
        None
    }
}

/// Whether `text` starts with `prefix`.
pub fn starts_with(text: &str, prefix: &str) -> (b: bool)
    ensures
        b == prefix@.is_prefix_of(text@),
{
    let n = text.unicode_len();
    let m = prefix.unicode_len();
    if m > n {
        return false;
    }
    let mut i: usize = 0;
    while i < m
        invariant
            n == text@.len(),
            m == prefix@.len(),
            m <= n,
            i <= m,
            forall|j: int| 0 <= j < i ==> prefix@[j] == text@[j],
        decreases m - i,
    {
        if text.get_char(i) != prefix.get_char(i) {
            return false;
        }
        i = i + 1;
    }
    assert(prefix@ =~= text@.subrange(0, m as int));
    true
}

/// The characters of `text` from index `from` up to (not including) `to`.
pub fn char_slice(text: &str, from: usize, to: usize) -> (r: &str)
    requires
        from <= to <= text@.len(),
    ensures
        r@ == text@.subrange(from as int, to as int),
{
    text.substring_char(from, to)
}

/// `text` without `prefix` in front, or `None` where it does not start with
/// `prefix`.
pub fn strip_prefix<'a>(text: &'a str, prefix: &str) -> (r: Option<&'a str>)
    ensures
        match r {
            Some(s) => strip_prefix_spec(text@, prefix@) == Some(s@),
            None => strip_prefix_spec(text@, prefix@) is None,
        },
{
    if starts_with(text, prefix) {
        let n = text.unicode_len();
        let m = prefix.unicode_len();
        let rest = text.substring_char(m, n);
        assert(rest@ =~= text@.skip(m as int));
        Some(rest)
    } else {
        None
    }
}

} // verus!
