//! What holds of the router for every request, stated over the functions that
//! its contracts use, and proved.

use vstd::prelude::*;
use vstd::string::StringSliceAdditionalSpecFns;
use crate::method::Method;
use crate::outcome::{outcome_view, FileOutcome, Probe, ReadFailure};
use crate::path::{contained, lemma_walked_contained, raw_segments, servable, walked};
use crate::request::FileRequestView;
use crate::response::{bare_view, greeting_view, ResponseView, Status};
use crate::route::{lemma_passed_over, lemma_passed_over_is, passed_over, ResolutionView};
use crate::router::{answer_view, path_part, response_view, Config, Router};
use crate::text::{begins_with, lemma_span_before_is};

verus! {

/// The names joined by single slashes.
pub open spec fn joined(names: Seq<Seq<char>>) -> Seq<char>
    decreases names.len(),
{
    if names.len() == 0 {
        Seq::empty()
    } else if names.len() == 1 {
        names[0]
    } else {
        names[0] + seq!['/'] + joined(names.skip(1))
    }
}

/// Whether the names can be written into a target as they are, one segment
/// each: none is empty and none holds a `/` or a `?`.
pub open spec fn plain_names(names: Seq<Seq<char>>) -> bool {
    forall|i: int|
        0 <= i < names.len() ==> (#[trigger] names[i]).len() > 0 && !names[i].contains('/')
            && !names[i].contains('?')
}

/// Whether no name holds a `%`, so that each is its own decoded form.
pub open spec fn written_out(names: Seq<Seq<char>>) -> bool {
    forall|i: int| 0 <= i < names.len() ==> !(#[trigger] names[i]).contains('%')
}

/// The directory entries that a path leads through when it is read without
/// looking at the file system: an empty part and `.` stay where they are, `..`
/// steps back by one part, and stays where it is when there is none.
pub open spec fn lexical(parts: Seq<Seq<char>>) -> Seq<Seq<char>>
    decreases parts.len(),
{
    if parts.len() == 0 {
        Seq::empty()
    } else {
        let before = lexical(parts.drop_last());
        let part = parts.last();
        if part.len() == 0 || part == seq!['.'] {
            before
        } else if part == seq!['.', '.'] {
            if before.len() > 0 {
                before.drop_last()
            } else {
                before
            }
        } else {
            before.push(part)
        }
    }
}

/// A target without a `?` is its own path, and a query behind it changes
/// nothing of the path.
pub proof fn lemma_query_plays_no_part(path: Seq<char>, query: Seq<char>)
    requires
        !path.contains('?'),
    ensures
        path_part(path) == path,
        path_part(path + seq!['?'] + query) == path,
{
    lemma_span_before_is(path, '?', path.len() as int);
    let target = path + seq!['?'] + query;
    lemma_span_before_is(target, '?', path.len() as int);
}

/// The router's answer does not depend on the query: a target with a query
/// resolves to what its path resolves to.
pub proof fn lemma_resolution_ignores_query(
    router: Router,
    method: Method,
    path: Seq<char>,
    query: Seq<char>,
)
    requires
        !path.contains('?'),
    ensures
        router.resolution(method, path + seq!['?'] + query) == router.resolution(method, path),
{
    lemma_query_plays_no_part(path, query);
}

/// The body of the greeting is the thirteen bytes of `Hello, world!`.
pub proof fn lemma_greeting_bytes()
    ensures
        greeting_view().body == seq![
            72u8, 101u8, 108u8, 108u8, 111u8, 44u8, 32u8, 119u8, 111u8, 114u8, 108u8, 100u8, 33u8,
        ],
{
    broadcast use vstd::string::is_ascii_spec_bytes;

    reveal_strlit("Hello, world!");
    let text: &str = "Hello, world!";
    assert(vstd::string::is_ascii(text));
    assert(text.spec_bytes() =~= seq![
        72u8, 101u8, 108u8, 108u8, 111u8, 44u8, 32u8, 119u8, 111u8, 114u8, 108u8, 100u8, 33u8,
    ]);
}

/// A GET whose path is exactly `/` is answered with the greeting: status 200
/// and the greeting's bytes, whatever query the target carries and whatever
/// the host holds.
pub proof fn lemma_root_is_greeted(
    router: Router,
    config: Config,
    target: Seq<char>,
    probe: Probe,
    read: Result<Vec<u8>, ReadFailure>,
)
    requires
        router.is_standard(config),
        path_part(target) == "/"@,
    ensures
        router.resolution(Method::Get, target) == ResolutionView::Greeting,
        answer_view(router.resolution(Method::Get, target)) == Some(greeting_view()),
        response_view(router.resolution(Method::Get, target), probe, read) == greeting_view(),
        greeting_view().status.spec_code() == 200,
        greeting_view().body == "Hello, world!".spec_bytes(),
{
    lemma_passed_over_is(router.table(), Method::Get, path_part(target), true, 0);
}

/// A request that is no GET, and a GET whose path is neither `/` nor begins
/// with `/static/` or `/geojson/`, is taken by no route and answered with 404,
/// whatever the host holds.
pub proof fn lemma_unrouted_is_not_found(
    router: Router,
    config: Config,
    method: Method,
    target: Seq<char>,
    probe: Probe,
    read: Result<Vec<u8>, ReadFailure>,
)
    requires
        router.is_standard(config),
        method != Method::Get || (path_part(target) != "/"@ && !begins_with(
            path_part(target),
            "/static/"@,
        ) && !begins_with(path_part(target), "/geojson/"@)),
    ensures
        router.resolution(method, target) == ResolutionView::NoRoute,
        answer_view(router.resolution(method, target)) == Some(bare_view(Status::NotFound)),
        response_view(router.resolution(method, target), probe, read) == bare_view(
            Status::NotFound,
        ),
        bare_view(Status::NotFound).status.spec_code() == 404,
{
    let path = path_part(target);
    lemma_passed_over_is(router.table(), method, path, true, 3);
    lemma_passed_over_is(router.table(), method, path, false, 3);
}

/// Joining plain names with slashes and parting the text at its slashes gives
/// the names back.
pub proof fn lemma_segments_of_joined(names: Seq<Seq<char>>)
    requires
        plain_names(names),
    ensures
        raw_segments(joined(names)) == names,
        !joined(names).contains('?'),
    decreases names.len(),
{
    if names.len() > 0 {
        let s = joined(names);
        let n = names[0].len() as int;
        if names.len() > 1 {
            lemma_segments_of_joined(names.skip(1));
            assert(s.skip(n + 1) =~= joined(names.skip(1)));
        }
        lemma_span_before_is(s, '/', n);
        assert(s.take(n) =~= names[0]);
    }
}

/// Servable names without a `%` lead to themselves.
pub proof fn lemma_walked_as_written(
    so_far: Seq<Seq<char>>,
    names: Seq<Seq<char>>,
    separators: Seq<char>,
)
    requires
        contained(names, separators),
        written_out(names),
    ensures
        walked(so_far, names, separators) == Some(so_far + names),
    decreases names.len(),
{
    if names.len() > 0 {
        assert(servable(names[0], separators));
        lemma_walked_as_written(so_far.push(names[0]), names.skip(1), separators);
    }
}

/// A GET for the path that names a file below a mount resolves to that file
/// below that mount's root: `/static/` and the names, joined by slashes, lead to
/// where the names, decoded, lead from the static root; `/geojson/` likewise
/// from the geojson root.
///
/// Every list of names that can name a file leads to the file of exactly
/// these names: no name is empty, `.` or `..`, and none holds `/`. Two
/// exceptions are stated here. A name that holds `%` or `?` cannot stand in a
/// target as it is and is written percent-encoded; for it the first clause
/// speaks, through the decoding. And on a host that the configuration gives
/// separators besides `/`, a name that holds one of them is refused, because
/// there it would name more than one entry.
pub proof fn lemma_mounted_file_is_found(
    router: Router,
    config: Config,
    names: Seq<Seq<char>>,
    geojson: bool,
)
    requires
        router.is_standard(config),
        plain_names(names),
    ensures
        ({
            let prefix = if geojson { "/geojson/"@ } else { "/static/"@ };
            let root = if geojson { config.geojson_root@ } else { config.static_root@ };
            let found = router.resolution(Method::Get, prefix + joined(names));
            &&& found == match walked(Seq::empty(), names, config.separators@) {
                Some(components) => ResolutionView::File(FileRequestView { root, components }),
                None => ResolutionView::Refused,
            }
            &&& contained(names, config.separators@) && written_out(names) ==> found
                == ResolutionView::File(
                FileRequestView { root, components: names },
            )
        }),
{
    reveal_strlit("/");
    reveal_strlit("/static/");
    reveal_strlit("/geojson/");
    let prefix = if geojson { "/geojson/"@ } else { "/static/"@ };
    let target = prefix + joined(names);
    lemma_segments_of_joined(names);
    assert(!target.contains('?')) by {
        if target.contains('?') {
            let i = choose|i: int| 0 <= i < target.len() && target[i] == '?';
        }
    }
    lemma_query_plays_no_part(target, Seq::empty());
    assert(target.take(prefix.len() as int) =~= prefix);
    assert(target.skip(prefix.len() as int) =~= joined(names));
    assert(!begins_with(target, if geojson { "/static/"@ } else { "/geojson/"@ })) by {
        let other = if geojson { "/static/"@ } else { "/geojson/"@ };
        if begins_with(target, other) {
            assert(target.take(other.len() as int)[1] == other[1]);
        }
    }
    lemma_passed_over_is(router.table(), Method::Get, target, true, 3);
    lemma_passed_over_is(router.table(), Method::Get, target, false, if geojson { 2 } else { 1 });
    if contained(names, config.separators@) && written_out(names) {
        lemma_walked_as_written(Seq::empty(), names, config.separators@);
    }
}

/// Whether what the host said leaves no file to serve: nothing is there, or
/// what is there is no regular file, or the name is one that the host cannot
/// hold.
pub open spec fn nothing_there(probe: Probe, read: Result<Vec<u8>, ReadFailure>) -> bool {
    outcome_view(probe, read) is Missing
}

/// Whether what the host said is that a file is there and cannot be read.
pub open spec fn cannot_be_read(probe: Probe, read: Result<Vec<u8>, ReadFailure>) -> bool {
    outcome_view(probe, read) is Unreadable
}

/// What the host says decides in these ways and no others: a regular file
/// that reads gives its bytes; any other entry is missing; a failure that says
/// that no file can be there (not found, not a directory on the way, a name
/// that the host cannot hold) is missing; denied permission and every other
/// failure is unreadable.
pub proof fn lemma_what_the_host_says(bytes: Vec<u8>, read: Result<Vec<u8>, ReadFailure>)
    ensures
        outcome_view(Probe::RegularFile, Ok(bytes)) == FileOutcome::Contents(bytes),
        nothing_there(Probe::OtherEntry, read),
        nothing_there(Probe::Failed(ReadFailure::NotFound), read),
        nothing_there(Probe::Failed(ReadFailure::NotADirectory), read),
        nothing_there(Probe::Failed(ReadFailure::InvalidName), read),
        nothing_there(Probe::RegularFile, Err(ReadFailure::NotFound)),
        nothing_there(Probe::RegularFile, Err(ReadFailure::NotADirectory)),
        nothing_there(Probe::RegularFile, Err(ReadFailure::InvalidName)),
        cannot_be_read(Probe::Failed(ReadFailure::PermissionDenied), read),
        cannot_be_read(Probe::Failed(ReadFailure::Other), read),
        cannot_be_read(Probe::RegularFile, Err(ReadFailure::PermissionDenied)),
        cannot_be_read(Probe::RegularFile, Err(ReadFailure::Other)),
{
}

/// A file below a mount's root is served as it is. For every list of names
/// that can name a file (none empty, `.` or `..`, none with a `/`), written
/// into the target as they are, a GET for `/static/` and the names, or for
/// `/geojson/` and the names, where a regular file is there and reads, is
/// answered with status 200 and the file's bytes, none added, dropped or
/// changed, and with the media type of the file's name.
///
/// The names hold no `%` and no `?`, which a target cannot hold as they are,
/// and none of the separators that the configuration gives the host besides
/// `/`.
pub proof fn lemma_existing_file_is_served(
    router: Router,
    config: Config,
    names: Seq<Seq<char>>,
    geojson: bool,
    bytes: Vec<u8>,
)
    requires
        router.is_standard(config),
        names.len() > 0,
        plain_names(names),
        written_out(names),
        contained(names, config.separators@),
    ensures
        ({
            let prefix = if geojson { "/geojson/"@ } else { "/static/"@ };
            let root = if geojson { config.geojson_root@ } else { config.static_root@ };
            let request = FileRequestView { root, components: names };
            let found = router.resolution(Method::Get, prefix + joined(names));
            &&& found == ResolutionView::File(request)
            &&& response_view(found, Probe::RegularFile, Ok(bytes)) == (ResponseView {
                status: Status::Success,
                content_type: request.media_type(),
                body: bytes@,
            })
            &&& Status::Success.spec_code() == 200
        }),
{
    lemma_mounted_file_is_found(router, config, names, geojson);
}

/// A path below a mount where no file is there is answered with 404, and one
/// where a file is there that cannot be read with 500, both without a body: for
/// every GET whose path begins with `/static/` or `/geojson/`, whatever else
/// the path holds.
pub proof fn lemma_absent_or_unreadable(
    router: Router,
    config: Config,
    target: Seq<char>,
    probe: Probe,
    read: Result<Vec<u8>, ReadFailure>,
)
    requires
        router.is_standard(config),
        begins_with(path_part(target), "/static/"@) || begins_with(
            path_part(target),
            "/geojson/"@,
        ),
    ensures
        ({
            let found = router.resolution(Method::Get, target);
            &&& found is File || found is Refused
            &&& nothing_there(probe, read) ==> response_view(found, probe, read) == bare_view(
                Status::NotFound,
            )
            &&& found is File && cannot_be_read(probe, read) ==> response_view(found, probe, read)
                == bare_view(Status::InternalServerError)
            &&& Status::NotFound.spec_code() == 404
            &&& Status::InternalServerError.spec_code() == 500
        }),
{
    reveal_strlit("/");
    reveal_strlit("/static/");
    reveal_strlit("/geojson/");
    let path = path_part(target);
    lemma_passed_over(router.table(), Method::Get, path, true);
    lemma_passed_over(router.table(), Method::Get, path, false);
    assert(path != "/"@) by {
        if begins_with(path, "/static/"@) {
            assert(path.len() >= 8);
        } else {
            assert(path.len() >= 9);
        }
    }
}

/// Whatever the target, a file request that the router resolves to lies below
/// its root: each of its components is servable on the router's host.
pub proof fn lemma_resolution_is_contained(router: Router, method: Method, target: Seq<char>)
    ensures
        router.resolution(method, target) matches ResolutionView::File(request) ==> contained(
            request.components,
            router.separators(),
        ),
{
    let path = path_part(target);
    let routes = router.table();
    let e = passed_over(routes, method, path, true);
    let p = passed_over(routes, method, path, false);
    if 0 <= e < routes.len() {
        lemma_walked_contained(
            Seq::empty(),
            raw_segments(routes[e].rest(path)),
            router.separators(),
        );
    } else if 0 <= p < routes.len() {
        lemma_walked_contained(
            Seq::empty(),
            raw_segments(routes[p].rest(path)),
            router.separators(),
        );
    }
}

/// The router serves files from its two roots and from nowhere else: a file
/// request comes of a GET alone, under `/static/` it names the static root,
/// under `/geojson/` the geojson root, and its components are servable.
pub proof fn lemma_file_comes_from_its_mount(
    router: Router,
    config: Config,
    method: Method,
    target: Seq<char>,
)
    requires
        router.is_standard(config),
    ensures
        router.resolution(method, target) matches ResolutionView::File(request) ==> {
            &&& method == Method::Get
            &&& contained(request.components, config.separators@)
            &&& begins_with(path_part(target), "/static/"@) || begins_with(
                path_part(target),
                "/geojson/"@,
            )
            &&& begins_with(path_part(target), "/static/"@) ==> request.root
                == config.static_root@
            &&& begins_with(path_part(target), "/geojson/"@) ==> request.root
                == config.geojson_root@
        },
{
    reveal_strlit("/static/");
    reveal_strlit("/geojson/");
    let path = path_part(target);
    lemma_resolution_is_contained(router, method, target);
    lemma_passed_over(router.table(), method, path, true);
    lemma_passed_over(router.table(), method, path, false);
    if begins_with(path, "/static/"@) && begins_with(path, "/geojson/"@) {
        assert(path.take(9)[1] == 'g');
    }
}

/// Servable components never lead out of the directory they start in: read
/// without looking at the file system, the path made of a root's parts and the
/// components after them leads to where the root leads, and from there down by
/// exactly the components. On a host with separators besides `/` the
/// components of a file request hold none of them either, so that each is one
/// part of the path there too.
pub proof fn lemma_stays_below_root(root: Seq<Seq<char>>, components: Seq<Seq<char>>)
    requires
        contained(components, Seq::empty()),
    ensures
        lexical(root + components) == lexical(root) + components,
    decreases components.len(),
{
    if components.len() > 0 {
        let last = components.last();
        lemma_stays_below_root(root, components.drop_last());
        assert((root + components).drop_last() =~= root + components.drop_last());
        assert(last != seq!['.'] && last != seq!['.', '.']);
    }
}

} // verus!
