//! Routes, mounts, and what a table of routes resolves a request to.

use vstd::prelude::*;
use crate::method::Method;
use crate::path::{components_of, contained};
use crate::request::{FileRequest, FileRequestView};
use crate::text::{begins_with, chars_of, has_prefix, same_text};

verus! {

/// The paths that a route takes.
#[derive(Clone, Debug)]
pub enum Pattern {
    /// This path and no other.
    Exact(String),
    /// Every path that begins with this text.
    Prefix(String),
}

/// What a route answers with.
#[derive(Clone, Debug)]
pub enum Behavior {
    /// The greeting.
    Greeting,
    /// The file that the rest of the path names below this root directory.
    Files(String),
}

/// A method and a pattern, bound to a behavior.
#[derive(Clone, Debug)]
pub struct Route {
    pub method: Method,
    pub pattern: Pattern,
    pub behavior: Behavior,
}

/// What a request resolves to.
#[derive(Clone, Debug)]
pub enum Resolution {
    /// The greeting is the answer.
    Greeting,
    /// The answer depends on this file.
    File(FileRequest),
    /// A mount takes the path, but a segment of it is refused.
    Refused,
    /// No route takes the request.
    NoRoute,
}

/// What a `Resolution` is in contracts.
pub enum ResolutionView {
    Greeting,
    File(FileRequestView),
    Refused,
    NoRoute,
}

impl View for Resolution {
    type V = ResolutionView;

    open spec fn view(&self) -> ResolutionView {
        match self {
            Resolution::Greeting => ResolutionView::Greeting,
            Resolution::File(request) => ResolutionView::File(request@),
            Resolution::Refused => ResolutionView::Refused,
            Resolution::NoRoute => ResolutionView::NoRoute,
        }
    }
}

impl Pattern {
    /// The text of the pattern.
    pub open spec fn text(&self) -> Seq<char> {
        match self {
            Pattern::Exact(p) => p@,
            Pattern::Prefix(p) => p@,
        }
    }

    /// Whether the pattern takes `path`.
    pub open spec fn takes(&self, path: Seq<char>) -> bool {
        match self {
            Pattern::Exact(p) => path == p@,
            Pattern::Prefix(p) => begins_with(path, p@),
        }
    }
}

impl Route {
    /// Whether the route takes a request, as an exact route (`exact`) or as a
    /// prefix route (`!exact`).
    pub open spec fn takes(&self, method: Method, path: Seq<char>, exact: bool) -> bool {
        &&& self.method == method
        &&& self.pattern is Exact <==> exact
        &&& self.pattern.takes(path)
    }

    /// What follows the pattern's text in a path that is at least as long.
    pub open spec fn rest(&self, path: Seq<char>) -> Seq<char> {
        if self.pattern.text().len() <= path.len() {
            path.skip(self.pattern.text().len() as int)
        } else {
            Seq::empty()
        }
    }

    /// What a path resolves to once the route has taken it, on a host where
    /// `separators` part a path besides `/`.
    pub open spec fn resolution(&self, path: Seq<char>, separators: Seq<char>) -> ResolutionView {
        match self.behavior {
            Behavior::Greeting => ResolutionView::Greeting,
            Behavior::Files(root) => match components_of(self.rest(path), separators) {
                Some(components) => ResolutionView::File(
                    FileRequestView { root: root@, components },
                ),
                None => ResolutionView::Refused,
            },
        }
    }
}

/// The number of routes at the start of the table that do not take the
/// request: the index of the first that does, or the table's length.
pub open spec fn passed_over(
    routes: Seq<Route>,
    method: Method,
    path: Seq<char>,
    exact: bool,
) -> int
    decreases routes.len(),
{
    if routes.len() == 0 || routes[0].takes(method, path, exact) {
        0
    } else {
        1 + passed_over(routes.skip(1), method, path, exact)
    }
}

/// What a table of routes resolves a request to: the first exact route that
/// takes it decides; where there is none, the first prefix route that takes
/// it; where there is none either, no route.
pub open spec fn table_resolution(
    routes: Seq<Route>,
    method: Method,
    path: Seq<char>,
    separators: Seq<char>,
) -> ResolutionView {
    let e = passed_over(routes, method, path, true);
    let p = passed_over(routes, method, path, false);
    if 0 <= e < routes.len() {
        routes[e].resolution(path, separators)
    } else if 0 <= p < routes.len() {
        routes[p].resolution(path, separators)
    } else {
        ResolutionView::NoRoute
    }
}

/// `passed_over` is the index of the first route that takes the request, or the
/// table's length.
pub proof fn lemma_passed_over(routes: Seq<Route>, method: Method, path: Seq<char>, exact: bool)
    ensures
        0 <= passed_over(routes, method, path, exact) <= routes.len(),
        forall|i: int|
            0 <= i < passed_over(routes, method, path, exact) ==> !routes[i].takes(
                method,
                path,
                exact,
            ),
        passed_over(routes, method, path, exact) < routes.len() ==> routes[passed_over(
            routes,
            method,
            path,
            exact,
        )].takes(method, path, exact),
    decreases routes.len(),
{
    if routes.len() > 0 && !routes[0].takes(method, path, exact) {
        let rest = routes.skip(1);
        let n = passed_over(routes, method, path, exact);
        lemma_passed_over(rest, method, path, exact);
        assert forall|i: int| 0 <= i < n implies !routes[i].takes(method, path, exact) by {
            if i > 0 {
                assert(rest[i - 1] == routes[i]);
            }
        }
    }
}

/// The index of the first route that takes the request is `passed_over`; so is
/// the table's length when none does.
pub proof fn lemma_passed_over_is(
    routes: Seq<Route>,
    method: Method,
    path: Seq<char>,
    exact: bool,
    n: int,
)
    requires
        0 <= n <= routes.len(),
        forall|i: int| 0 <= i < n ==> !routes[i].takes(method, path, exact),
        n < routes.len() ==> routes[n].takes(method, path, exact),
    ensures
        passed_over(routes, method, path, exact) == n,
{
    lemma_passed_over(routes, method, path, exact);
}

impl Pattern {
    /// Whether the pattern takes `path`.
    pub fn accepts(&self, path: &Vec<char>) -> (yes: bool)
        ensures
            yes == self.takes(path@),
    {
        match self {
            Pattern::Exact(p) => same_text(path, &chars_of(p.as_str())),
            Pattern::Prefix(p) => has_prefix(path, &chars_of(p.as_str())),
        }
    }

    /// Whether this is an exact pattern.
    pub fn is_exact(&self) -> (yes: bool)
        ensures
            yes == (self is Exact),
    {
        match self {
            Pattern::Exact(_) => true,
            Pattern::Prefix(_) => false,
        }
    }

    /// The number of characters of the pattern's text.
    pub fn length(&self) -> (n: usize)
        ensures
            n == self.text().len(),
    {
        match self {
            Pattern::Exact(p) => p.as_str().unicode_len(),
            Pattern::Prefix(p) => p.as_str().unicode_len(),
        }
    }
}

impl Route {
    /// The route that greets at exactly `/`.
    pub open spec fn greets_at_root(&self) -> bool {
        &&& self.method == Method::Get
        &&& self.pattern matches Pattern::Exact(p) && p@ == "/"@
        &&& self.behavior is Greeting
    }

    /// The route that serves what lies below `root` under the paths that begin
    /// with `prefix`.
    pub open spec fn mounts(&self, prefix: Seq<char>, root: Seq<char>) -> bool {
        &&& self.method == Method::Get
        &&& self.pattern matches Pattern::Prefix(p) && p@ == prefix
        &&& self.behavior matches Behavior::Files(r) && r@ == root
    }

    /// Whether the route takes a request, as an exact route or as a prefix
    /// route.
    pub fn accepts(&self, method: Method, path: &Vec<char>, exact: bool) -> (yes: bool)
        ensures
            yes == self.takes(method, path@, exact),
    {
        self.method == method && self.pattern.is_exact() == exact && self.pattern.accepts(path)
    }

    /// What a path resolves to once the route has taken it, on a host where
    /// `separators` part a path besides `/`.
    pub fn resolve(&self, path: &str, separators: &Vec<char>) -> (found: Resolution)
        ensures
            found@ == self.resolution(path@, separators@),
            found matches Resolution::File(request) ==> contained(
                request@.components,
                separators@,
            ),
    {
        match &self.behavior {
            Behavior::Greeting => Resolution::Greeting,
            Behavior::Files(root) => {
                let skip = self.pattern.length();
                let len = path.unicode_len();
                let rest = path.substring_char(if skip <= len { skip } else { len }, len);
                match FileRequest::below(root.clone(), rest, separators) {
                    Some(request) => Resolution::File(request),
                    None => Resolution::Refused,
                }
            },
        }
    }
}

/// The index of the first route of the table that takes the request, or the
/// table's length when none does.
pub fn first_taker(routes: &Vec<Route>, method: Method, path: &Vec<char>, exact: bool) -> (at:
    usize)
    ensures
        at == passed_over(routes@, method, path@, exact),
        at <= routes.len(),
        at < routes.len() ==> routes@[at as int].takes(method, path@, exact),
{
    let mut at: usize = 0;
    while at < routes.len() && !routes[at].accepts(method, path, exact)
        invariant
            at <= routes.len(),
            forall|i: int| 0 <= i < at ==> !routes@[i].takes(method, path@, exact),
        decreases routes.len() - at,
    {
        at += 1;
    }
    proof {
        lemma_passed_over_is(routes@, method, path@, exact, at as int);
    }
    at
}

/// A mount: the paths that begin with `prefix` are served from the directory
/// `root`.
#[derive(Clone, Debug)]
pub struct StaticMount {
    pub prefix: String,
    pub root: String,
}

impl StaticMount {
    /// The mount of `root` under `prefix`.
    pub fn new(prefix: &str, root: &str) -> (mount: StaticMount)
        ensures
            mount.prefix@ == prefix@,
            mount.root@ == root@,
    {
        StaticMount { prefix: prefix.to_owned(), root: root.to_owned() }
    }

    /// The route that serves the mount: GET, every path that begins with the
    /// prefix, the file that the rest of the path names below the root.
    pub fn into_route(self) -> (route: Route)
        ensures
            route.mounts(self.prefix@, self.root@),
    {
        Route {
            method: Method::Get,
            pattern: Pattern::Prefix(self.prefix),
            behavior: Behavior::Files(self.root),
        }
    }
}

} // verus!
