//! Percent-decoding of path segments, done by rocket.

use rocket::http::RawStr;
use vstd::prelude::*;

verus! {

/// What percent-decoding makes of text that holds a `%`: each `%` with two
/// hexadecimal digits behind it stands for one byte, and bytes that are not
/// UTF-8 afterwards are replaced by U+FFFD.
pub uninterp spec fn percent_decoded(raw: Seq<char>) -> Seq<char>;

/// The decoded form of a raw path segment. Text without a `%` is its own
/// decoded form.
pub open spec fn decoded(raw: Seq<char>) -> Seq<char> {
    if raw.contains('%') {
        percent_decoded(raw)
    } else {
        raw
    }
}

/// Percent-decodes one raw path segment.
///
/// Trusted: the body is rocket's `RawStr::percent_decode_lossy`. The contract
/// claims that text without a `%` comes back as it went in, which the
/// decoder's source shows, and gives the result for any other text a name.
#[verifier::external_body]
pub(crate) fn percent_decode(raw: &str) -> (text: String)
    ensures
        raw@.contains('%') ==> text@ == percent_decoded(raw@),
        !raw@.contains('%') ==> text@ == raw@,
{
    RawStr::new(raw).percent_decode_lossy().into_owned()
}

} // verus!
