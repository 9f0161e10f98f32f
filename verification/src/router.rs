//! The router and its configuration.

use vstd::prelude::*;
use crate::method::Method;
use crate::outcome::{outcome_of, outcome_view, Probe, ReadFailure};
use crate::path::contained;
use crate::response::{
    bare_view, greeting_view, serve, served_view, Response, ResponseView, Status,
};
use crate::route::{
    first_taker, table_resolution, Behavior, Pattern, Resolution, ResolutionView, Route,
    StaticMount,
};
use crate::text::{chars_of, find_from, span_before};

verus! {

/// The two root directories that files are served from, and the characters
/// besides `/` that part a path on the host that holds them: none on Unix, `\`
/// and `:` on Windows.
#[derive(Clone, Debug)]
pub struct Config {
    pub static_root: String,
    pub geojson_root: String,
    pub separators: String,
}

impl Config {
    /// A configuration with these two root directories, for a host where `/`
    /// alone parts a path.
    pub fn new(static_root: &str, geojson_root: &str) -> (config: Config)
        ensures
            config.static_root@ == static_root@,
            config.geojson_root@ == geojson_root@,
            config.separators@ == Seq::<char>::empty(),
    {
        Config {
            static_root: static_root.to_owned(),
            geojson_root: geojson_root.to_owned(),
            separators: String::new(),
        }
    }

    /// The same roots, for a host where these characters part a path besides
    /// `/`.
    pub fn on_host(self, separators: &str) -> (config: Config)
        ensures
            config.static_root@ == self.static_root@,
            config.geojson_root@ == self.geojson_root@,
            config.separators@ == separators@,
    {
        Config {
            static_root: self.static_root,
            geojson_root: self.geojson_root,
            separators: separators.to_owned(),
        }
    }
}

impl Default for Config {
    /// The directories `static` and `geojson`, relative to where the process
    /// runs, on a host where `/` alone parts a path.
    fn default() -> (config: Config)
        ensures
            config.static_root@ == "static"@,
            config.geojson_root@ == "geojson"@,
            config.separators@ == Seq::<char>::empty(),
    {
        Config::new("static", "geojson")
    }
}

/// The path of a request target: what stands before its first `?`.
pub open spec fn path_part(target: Seq<char>) -> Seq<char> {
    target.take(span_before(target, '?'))
}

/// The request router: a table of routes and the host's separators, fixed
/// when it is made.
#[derive(Clone, Debug)]
pub struct Router {
    routes: Vec<Route>,
    separators: Vec<char>,
}

impl Router {
    /// The table of routes, in the order in which they are tried.
    pub closed spec fn table(&self) -> Seq<Route> {
        self.routes@
    }

    /// The characters besides `/` that part a path on the host.
    pub closed spec fn separators(&self) -> Seq<char> {
        self.separators@
    }

    /// Whether the router is the one for `config`: the greeting at `/`, the
    /// static root under `/static/`, the geojson root under `/geojson/`, and
    /// the host's separators.
    pub open spec fn is_standard(&self, config: Config) -> bool {
        &&& self.separators() == config.separators@
        &&& self.table().len() == 3
        &&& self.table()[0].greets_at_root()
        &&& self.table()[1].mounts("/static/"@, config.static_root@)
        &&& self.table()[2].mounts("/geojson/"@, config.geojson_root@)
    }

    /// What the router resolves a request to. The query of the target, if it
    /// has one, plays no part.
    pub open spec fn resolution(&self, method: Method, target: Seq<char>) -> ResolutionView {
        table_resolution(self.table(), method, path_part(target), self.separators())
    }

    /// The router for `config`.
    pub fn new(config: Config) -> (router: Router)
        ensures
            router.is_standard(config),
    {
        let Config { static_root, geojson_root, separators } = config;
        let mut routes: Vec<Route> = Vec::new();
        routes.push(
            Route {
                method: Method::Get,
                pattern: Pattern::Exact("/".to_owned()),
                behavior: Behavior::Greeting,
            },
        );
        routes.push(StaticMount { prefix: "/static/".to_owned(), root: static_root }.into_route());
        routes.push(
            StaticMount { prefix: "/geojson/".to_owned(), root: geojson_root }.into_route(),
        );
        Router { routes, separators: chars_of(separators.as_str()) }
    }

    /// The table of routes, in the order in which they are tried.
    pub fn routes(&self) -> (routes: &Vec<Route>)
        ensures
            routes@ == self.table(),
    {
        &self.routes
    }

    /// Resolves a request: the method, and the request target with or without
    /// a query. A file request that comes out lies below its root.
    pub fn resolve(&self, method: Method, target: &str) -> (found: Resolution)
        ensures
            found@ == self.resolution(method, target@),
            found matches Resolution::File(request) ==> contained(
                request@.components,
                self.separators(),
            ),
    {
        let all = chars_of(target);
        let end = find_from(&all, 0, '?');
        assert(target@.skip(0) =~= target@);
        let path = target.substring_char(0, end);
        let chars = chars_of(path);
        let e = first_taker(&self.routes, method, &chars, true);
        if e < self.routes.len() {
            return self.routes[e].resolve(path, &self.separators);
        }
        let p = first_taker(&self.routes, method, &chars, false);
        if p < self.routes.len() {
            return self.routes[p].resolve(path, &self.separators);
        }
        Resolution::NoRoute
    }
}

/// The answer that needs no file: the greeting, or 404 for a refused path and
/// for a request that no route takes. A file request has none yet.
pub open spec fn answer_view(resolution: ResolutionView) -> Option<ResponseView> {
    match resolution {
        ResolutionView::Greeting => Some(greeting_view()),
        ResolutionView::File(_) => None,
        ResolutionView::Refused => Some(bare_view(Status::NotFound)),
        ResolutionView::NoRoute => Some(bare_view(Status::NotFound)),
    }
}

/// The view of an optional answer.
pub open spec fn response_of(r: Option<Response>) -> Option<ResponseView> {
    match r {
        Some(r) => Some(r@),
        None => None,
    }
}

/// The answer that needs no file: the greeting, or 404 for a refused path and
/// for a request that no route takes. `None` for a file request, whose answer
/// `serve` gives once the file was read.
pub fn answer(resolution: &Resolution) -> (r: Option<Response>)
    ensures
        response_of(r) == answer_view(resolution@),
        r is None <==> resolution is File,
{
    match resolution {
        Resolution::Greeting => Some(Response::greeting()),
        Resolution::File(_) => None,
        Resolution::Refused => Some(Response::bare(Status::NotFound)),
        Resolution::NoRoute => Some(Response::bare(Status::NotFound)),
    }
}

/// The answer to a request, given what it resolves to and, where that is a
/// file, what the host said of the file's location and what reading it gave:
/// the greeting; the file as it is, 404 where none is there, 500 where it
/// cannot be read; 404 for a refused path and for a request that no route
/// takes.
pub open spec fn response_view(
    resolution: ResolutionView,
    probe: Probe,
    read: Result<Vec<u8>, ReadFailure>,
) -> ResponseView {
    match resolution {
        ResolutionView::Greeting => greeting_view(),
        ResolutionView::File(request) => served_view(
            request.media_type(),
            outcome_view(probe, read),
        ),
        ResolutionView::Refused => bare_view(Status::NotFound),
        ResolutionView::NoRoute => bare_view(Status::NotFound),
    }
}

/// The answer to a request, given what it resolves to and what the host said
/// of the file. Unless the request resolves to a file, what the host said
/// plays no part.
pub fn respond(resolution: &Resolution, probe: Probe, read: Result<Vec<u8>, ReadFailure>) -> (r:
    Response)
    ensures
        r@ == response_view(resolution@, probe, read),
{
    match resolution {
        Resolution::Greeting => Response::greeting(),
        Resolution::File(request) => serve(request, outcome_of(probe, read)),
        Resolution::Refused => Response::bare(Status::NotFound),
        Resolution::NoRoute => Response::bare(Status::NotFound),
    }
}

} // verus!
