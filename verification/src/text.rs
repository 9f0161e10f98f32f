//! Searching and comparing text by its characters.

use vstd::prelude::*;

verus! {

/// Whether `prefix` stands at the start of `s`.
pub open spec fn begins_with(s: Seq<char>, prefix: Seq<char>) -> bool {
    prefix.len() <= s.len() && s.take(prefix.len() as int) == prefix
}

/// The number of characters of `s` that stand before its first `sep`, or the
/// length of `s` when it holds none.
pub open spec fn span_before(s: Seq<char>, sep: char) -> int
    decreases s.len(),
{
    if s.len() == 0 || s[0] == sep {
        0
    } else {
        1 + span_before(s.skip(1), sep)
    }
}

/// `span_before` is the first index that holds `sep`, or the length.
pub proof fn lemma_span_before(s: Seq<char>, sep: char)
    ensures
        0 <= span_before(s, sep) <= s.len(),
        forall|i: int| 0 <= i < span_before(s, sep) ==> s[i] != sep,
        span_before(s, sep) < s.len() ==> s[span_before(s, sep)] == sep,
    decreases s.len(),
{
    if s.len() > 0 && s[0] != sep {
        let rest = s.skip(1);
        lemma_span_before(rest, sep);
        assert forall|i: int| 0 <= i < span_before(s, sep) implies s[i] != sep by {
            if i > 0 {
                assert(rest[i - 1] == s[i]);
            }
        }
    }
}

/// An index that holds `sep` with none before it is `span_before`; so is the
/// length when `s` holds no `sep` at all.
pub proof fn lemma_span_before_is(s: Seq<char>, sep: char, n: int)
    requires
        0 <= n <= s.len(),
        forall|i: int| 0 <= i < n ==> s[i] != sep,
        n < s.len() ==> s[n] == sep,
    ensures
        span_before(s, sep) == n,
{
    lemma_span_before(s, sep);
}

/// The characters of `s`, in order, as a vector that can be indexed in
/// constant time.
pub fn chars_of(s: &str) -> (v: Vec<char>)
    ensures
        v@ == s@,
{
    let mut v: Vec<char> = Vec::new();
    for c in it: s.chars()
        invariant
            it.seq() == s@,
            v@ == it.seq().take(it.index() as int),
    {
        v.push(c);
    }
    v
}

/// Whether the characters of `prefix` stand at the start of `s`.
pub fn has_prefix(s: &Vec<char>, prefix: &Vec<char>) -> (yes: bool)
    ensures
        yes == begins_with(s@, prefix@),
{
    if prefix.len() > s.len() {
        return false;
    }
    let mut i: usize = 0;
    while i < prefix.len()
        invariant
            i <= prefix.len() <= s.len(),
            forall|k: int| 0 <= k < i ==> s@[k] == prefix@[k],
        decreases prefix.len() - i,
    {
        if s[i] != prefix[i] {
            return false;
        }
        i += 1;
    }
    assert(s@.take(prefix@.len() as int) =~= prefix@);
    true
}

/// Whether two character vectors hold the same text.
pub fn same_text(a: &Vec<char>, b: &Vec<char>) -> (yes: bool)
    ensures
        yes == (a@ == b@),
{
    if a.len() != b.len() {
        return false;
    }
    let yes = has_prefix(a, b);
    assert(a@.take(b@.len() as int) =~= a@);
    yes
}

/// The index of the first `sep` of `s` at or after `from`, or the length of
/// `s` when none follows.
pub fn find_from(s: &Vec<char>, from: usize, sep: char) -> (at: usize)
    requires
        from <= s.len(),
    ensures
        from <= at <= s.len(),
        at - from == span_before(s@.skip(from as int), sep),
{
    let mut at: usize = from;
    while at < s.len() && s[at] != sep
        invariant
            from <= at <= s.len(),
            forall|k: int| from <= k < at ==> s@[k] != sep,
        decreases s.len() - at,
    {
        at += 1;
    }
    proof {
        lemma_span_before_is(s@.skip(from as int), sep, at - from);
    }
    at
}

} // verus!
