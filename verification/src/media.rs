//! The media type of a file, by the extension of its name. The table of known
//! extensions is rocket's.

use rocket::http::ContentType;
use vstd::prelude::*;
use crate::text::chars_of;

verus! {

/// The media type that is on record for a file extension, written as the value
/// of a `Content-Type` header; `None` for an extension that is not on record.
/// Extensions are looked up without regard to case.
pub uninterp spec fn extension_media_type(ext: Seq<char>) -> Option<Seq<char>>;

/// The view of an optional string.
pub open spec fn text_of(s: Option<String>) -> Option<Seq<char>> {
    match s {
        Some(s) => Some(s@),
        None => None,
    }
}

/// Looks an extension up in the table of known media types.
///
/// Trusted: the body is rocket's `ContentType::from_extension`, and the header
/// value is what `ContentType` displays as. The contract only names the result.
#[verifier::external_body]
pub(crate) fn lookup_media_type(ext: &str) -> (found: Option<String>)
    ensures
        text_of(found) == extension_media_type(ext@),
{
    match ContentType::from_extension(ext) {
        Some(kind) => Some(kind.to_string()),
        None => None,
    }
}

/// The index of the last `c` of `s`, or -1 when `s` holds none.
pub open spec fn last_index_of(s: Seq<char>, c: char) -> int
    decreases s.len(),
{
    if s.len() == 0 {
        -1
    } else if s.last() == c {
        s.len() - 1
    } else {
        last_index_of(s.drop_last(), c)
    }
}

/// The extension of a file name: what follows its last dot. A name without a
/// dot has none, nor has one whose only dot is its first character, nor `..`.
pub open spec fn extension_of(name: Seq<char>) -> Option<Seq<char>> {
    let dot = last_index_of(name, '.');
    if dot <= 0 || name == seq!['.', '.'] {
        None
    } else {
        Some(name.skip(dot + 1))
    }
}

/// The media type that a file of this name is served with.
pub open spec fn media_type_of_name(name: Seq<char>) -> Option<Seq<char>> {
    match extension_of(name) {
        Some(ext) => extension_media_type(ext),
        None => None,
    }
}

/// `last_index_of` is an index of `c` with no `c` behind it.
pub proof fn lemma_last_index_of(s: Seq<char>, c: char)
    ensures
        -1 <= last_index_of(s, c) < s.len(),
        last_index_of(s, c) >= 0 ==> s[last_index_of(s, c)] == c,
        forall|i: int| last_index_of(s, c) < i < s.len() ==> s[i] != c,
    decreases s.len(),
{
    if s.len() > 0 && s.last() != c {
        let front = s.drop_last();
        lemma_last_index_of(front, c);
        assert forall|i: int| last_index_of(s, c) < i < s.len() implies s[i] != c by {
            if i < front.len() {
                assert(front[i] == s[i]);
            }
        }
    }
}

/// An index of `c` with no `c` behind it is `last_index_of`; so is -1 when `s`
/// holds no `c`.
pub proof fn lemma_last_index_of_is(s: Seq<char>, c: char, at: int)
    requires
        -1 <= at < s.len(),
        at >= 0 ==> s[at] == c,
        forall|i: int| at < i < s.len() ==> s[i] != c,
    ensures
        last_index_of(s, c) == at,
{
    lemma_last_index_of(s, c);
}

/// The extension of a file name, as `extension_of` defines it.
pub fn extension(name: &str) -> (ext: Option<String>)
    ensures
        text_of(ext) == extension_of(name@),
{
    let chars = chars_of(name);
    let mut at: usize = chars.len();
    while at > 0 && chars[at - 1] != '.'
        invariant
            at <= chars.len(),
            forall|i: int| at <= i < chars.len() ==> chars@[i] != '.',
        decreases at,
    {
        at -= 1;
    }
    proof {
        lemma_last_index_of_is(chars@, '.', at - 1);
    }
    if at <= 1 {
        return None;
    }
    if chars.len() == 2 && chars[0] == '.' {
        assert(chars@ =~= seq!['.', '.']);
        return None;
    }
    assert(chars@ != seq!['.', '.']);
    let tail = name.substring_char(at, chars.len());
    Some(tail.to_owned())
}

/// The value of the `Content-Type` header for a file of this name, if its
/// extension is on record.
pub fn media_type(name: &str) -> (found: Option<String>)
    ensures
        text_of(found) == media_type_of_name(name@),
{
    match extension(name) {
        Some(ext) => lookup_media_type(ext.as_str()),
        None => None,
    }
}

} // verus!
