//! From the rest of a request path to the names of directory entries: parting
//! at slashes, decoding, stepping back at `..`, refusing a segment that names
//! no single entry.

use vstd::prelude::*;
use crate::percent::{decoded, percent_decode};
use crate::text::{chars_of, find_from, lemma_span_before, span_before};

verus! {

/// The non-empty pieces of `s` that its slashes part, in order and undecoded.
pub open spec fn raw_segments(s: Seq<char>) -> Seq<Seq<char>>
    decreases s.len(),
{
    if s.len() == 0 {
        Seq::empty()
    } else {
        let n = span_before(s, '/');
        let rest = if 0 <= n < s.len() {
            raw_segments(s.skip(n + 1))
        } else {
            Seq::empty()
        };
        if n == 0 {
            rest
        } else {
            seq![s.take(n)] + rest
        }
    }
}

/// Whether a decoded segment is the step to the parent directory.
pub open spec fn is_parent(seg: Seq<char>) -> bool {
    seg == seq!['.', '.']
}

/// Whether a decoded segment names one entry of the directory it is looked up
/// in: it is not empty, is neither `.` nor `..`, and holds no `/` and none of
/// `separators`, the other characters that part a path on the host that holds
/// the files (none on Unix; `\` and `:` on Windows).
pub open spec fn servable(seg: Seq<char>, separators: Seq<char>) -> bool {
    &&& seg.len() > 0
    &&& seg != seq!['.']
    &&& seg != seq!['.', '.']
    &&& forall|i: int| 0 <= i < seg.len() ==> seg[i] != '/' && !separators.contains(seg[i])
}

/// Whether every component names one entry of the directory before it.
pub open spec fn contained(components: Seq<Seq<char>>, separators: Seq<char>) -> bool {
    forall|i: int| 0 <= i < components.len() ==> servable(#[trigger] components[i], separators)
}

/// Where one decoded segment leads from the components gathered so far: `..`
/// drops the last component, and stays where it is when there is none; a
/// servable segment is added; any other segment is refused.
pub open spec fn placed(so_far: Seq<Seq<char>>, seg: Seq<char>, separators: Seq<char>) -> Option<
    Seq<Seq<char>>,
> {
    if is_parent(seg) {
        if so_far.len() > 0 {
            Some(so_far.drop_last())
        } else {
            Some(so_far)
        }
    } else if servable(seg, separators) {
        Some(so_far.push(seg))
    } else {
        None
    }
}

/// Where the raw segments lead, each decoded and placed in turn; `None` as
/// soon as one is refused.
pub open spec fn walked(so_far: Seq<Seq<char>>, raw: Seq<Seq<char>>, separators: Seq<char>)
    -> Option<Seq<Seq<char>>>
    decreases raw.len(),
{
    if raw.len() == 0 {
        Some(so_far)
    } else {
        match placed(so_far, decoded(raw[0]), separators) {
            Some(next) => walked(next, raw.skip(1), separators),
            None => None,
        }
    }
}

/// The components that the rest of a request path names below a mount's
/// root, or `None` where a segment is refused.
pub open spec fn components_of(rest: Seq<char>, separators: Seq<char>) -> Option<Seq<Seq<char>>> {
    walked(Seq::empty(), raw_segments(rest), separators)
}

/// The views of the strings of `v`.
pub open spec fn texts(v: Seq<String>) -> Seq<Seq<char>> {
    Seq::new(v.len(), |i: int| v[i]@)
}

/// The views of an optional list of strings.
pub open spec fn texts_of(v: Option<Vec<String>>) -> Option<Seq<Seq<char>>> {
    match v {
        Some(v) => Some(texts(v@)),
        None => None,
    }
}

/// Whether a decoded segment is `..`.
pub fn parent_step(seg: &Vec<char>) -> (yes: bool)
    ensures
        yes == is_parent(seg@),
{
    let yes = seg.len() == 2 && seg[0] == '.' && seg[1] == '.';
    proof {
        if yes {
            assert(seg@ =~= seq!['.', '.']);
        }
    }
    yes
}

/// Whether a decoded segment is `.`.
pub fn same_place(seg: &Vec<char>) -> (yes: bool)
    ensures
        yes == (seg@ == seq!['.']),
{
    let yes = seg.len() == 1 && seg[0] == '.';
    proof {
        if yes {
            assert(seg@ =~= seq!['.']);
        }
    }
    yes
}

/// Whether `c` is one of `among`.
pub fn is_among(c: char, among: &Vec<char>) -> (yes: bool)
    ensures
        yes == among@.contains(c),
{
    let mut i: usize = 0;
    while i < among.len()
        invariant
            i <= among.len(),
            forall|k: int| 0 <= k < i ==> among@[k] != c,
        decreases among.len() - i,
    {
        if among[i] == c {
            return true;
        }
        i += 1;
    }
    false
}

/// Whether a decoded segment names one entry of the directory it is looked up
/// in, on a host where `separators` part a path besides `/`.
pub fn is_servable(seg: &Vec<char>, separators: &Vec<char>) -> (yes: bool)
    ensures
        yes == servable(seg@, separators@),
{
    if seg.len() == 0 || same_place(seg) || parent_step(seg) {
        return false;
    }
    let mut i: usize = 0;
    while i < seg.len()
        invariant
            i <= seg.len(),
            forall|k: int| 0 <= k < i ==> seg@[k] != '/' && !separators@.contains(seg@[k]),
        decreases seg.len() - i,
    {
        let c = seg[i];
        if c == '/' || is_among(c, separators) {
            return false;
        }
        i += 1;
    }
    true
}

/// Places one decoded segment after the components gathered so far.
pub fn place(so_far: Vec<String>, seg: String, separators: &Vec<char>) -> (next: Option<
    Vec<String>,
>)
    ensures
        texts_of(next) == placed(texts(so_far@), seg@, separators@),
{
    let chars = chars_of(seg.as_str());
    let mut so_far = so_far;
    if parent_step(&chars) {
        if so_far.len() > 0 {
            so_far.pop();
        }
        Some(so_far)
    } else if is_servable(&chars, separators) {
        so_far.push(seg);
        Some(so_far)
    } else {
        None
    }
}

/// Placing never brings in a component that is not servable.
pub proof fn lemma_placed_contained(so_far: Seq<Seq<char>>, seg: Seq<char>, separators: Seq<char>)
    requires
        contained(so_far, separators),
    ensures
        placed(so_far, seg, separators) matches Some(next) ==> contained(next, separators),
{
}

/// Walking never brings in a component that is not servable.
pub proof fn lemma_walked_contained(
    so_far: Seq<Seq<char>>,
    raw: Seq<Seq<char>>,
    separators: Seq<char>,
)
    requires
        contained(so_far, separators),
    ensures
        walked(so_far, raw, separators) matches Some(end) ==> contained(end, separators),
    decreases raw.len(),
{
    if raw.len() > 0 {
        let seg = decoded(raw[0]);
        lemma_placed_contained(so_far, seg, separators);
        if let Some(next) = placed(so_far, seg, separators) {
            lemma_walked_contained(next, raw.skip(1), separators);
        }
    }
}

/// What is servable on a host with more separators is servable on one with
/// `/` alone.
pub proof fn lemma_contained_on_any_host(components: Seq<Seq<char>>, separators: Seq<char>)
    requires
        contained(components, separators),
    ensures
        contained(components, Seq::empty()),
{
    assert forall|i: int| 0 <= i < components.len() implies servable(
        #[trigger] components[i],
        Seq::empty(),
    ) by {
        assert(servable(components[i], separators));
    }
}

/// The components that the rest of a request path names below a mount's root:
/// its non-empty segments, percent-decoded and placed in turn. `None` where a
/// segment is refused.
pub fn components(rest: &str, separators: &Vec<char>) -> (found: Option<Vec<String>>)
    ensures
        texts_of(found) == components_of(rest@, separators@),
        found matches Some(v) ==> contained(texts(v@), separators@),
{
    let chars = chars_of(rest);
    let mut so_far: Vec<String> = Vec::new();
    let mut from: usize = 0;
    assert(texts(so_far@) =~= Seq::<Seq<char>>::empty());
    assert(rest@.skip(0) =~= rest@);
    while from < chars.len()
        invariant
            chars@ == rest@,
            from <= chars.len(),
            contained(texts(so_far@), separators@),
            components_of(rest@, separators@) == walked(
                texts(so_far@),
                raw_segments(rest@.skip(from as int)),
                separators@,
            ),
        decreases chars.len() - from,
    {
        let ghost tail = rest@.skip(from as int);
        let to = find_from(&chars, from, '/');
        proof {
            lemma_span_before(tail, '/');
            if to < chars.len() {
                assert(tail.skip(to - from + 1) =~= rest@.skip(to + 1));
            }
            assert(tail.take(to - from) =~= rest@.subrange(from as int, to as int));
        }
        let next_from: usize = if to < chars.len() { to + 1 } else { to };
        if to > from {
            let raw = rest.substring_char(from, to);
            let seg = percent_decode(raw);
            proof {
                let segs = raw_segments(tail);
                let after = if to < chars.len() {
                    raw_segments(rest@.skip(to + 1))
                } else {
                    Seq::<Seq<char>>::empty()
                };
                assert(segs.skip(1) =~= after);
                lemma_placed_contained(texts(so_far@), seg@, separators@);
            }
            match place(so_far, seg, separators) {
                Some(next) => {
                    so_far = next;
                },
                None => {
                    return None;
                },
            }
        }
        from = next_from;
    }
    Some(so_far)
}

} // verus!
