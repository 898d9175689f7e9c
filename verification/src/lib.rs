//! A small request-routing library: routes bind an HTTP method and a path
//! pattern to a handler value; a router looks the handler up by request path
//! and method, with well-defined fallbacks when no route applies.
//!
//! Lookup scans the routes in registration order, keeps those whose pattern
//! matches the request path, and picks the first of them registered for the
//! request's method. No path match means [`StatusOutcome::NotFound`]; a path
//! match without a method match means [`StatusOutcome::MethodNotAllowed`].
//! When several routes match both, the one added first wins; later
//! duplicates are unreachable by design.

use vstd::prelude::*;

mod builder;
pub mod handlers;
mod method;
mod path;
pub mod route;

pub use builder::RouterBuilder;
pub use handlers::HttpResponse;
pub use method::Method;
pub use path::Path;
pub use path::regex_accepts;
pub use path::regex_valid;
pub use route::Route;
pub use route::RouteBuilder;

verus! {

/// The result of a table lookup, before any handler executes: the resolved
/// handler, or which kind of match was missing.
#[derive(Clone, Copy, Debug, PartialEq, Eq)]
pub enum StatusOutcome<H> {
    /// The handler of the first route matching both path and method.
    Handler(H),
    /// No route's pattern matches the request path.
    NotFound,
    /// Some route's pattern matches the path, but none of those routes has
    /// the request's method.
    MethodNotAllowed,
}

/// The subsequence of `routes` whose pattern matches `path`, in
/// registration order.
pub open spec fn matching_routes_spec<H>(routes: Seq<Route<H>>, path: Seq<char>) -> Seq<Route<H>>
    decreases routes.len(),
{
    if routes.len() == 0 {
        Seq::empty()
    } else {
        let rest = matching_routes_spec(routes.drop_last(), path);
        if regex_accepts(routes.last().path@, path) {
            rest.push(routes.last())
        } else {
            rest
        }
    }
}

/// The handler of the first route in `routes` registered for `method`, if
/// any.
pub open spec fn first_for_method_spec<H>(routes: Seq<Route<H>>, method: Method) -> Option<H>
    decreases routes.len(),
{
    if routes.len() == 0 {
        None
    } else {
        match first_for_method_spec(routes.drop_last(), method) {
            Some(h) => Some(h),
            None => if routes.last().method == method {
                Some(routes.last().handler)
            } else {
                None
            },
        }
    }
}

/// What a lookup of `path` and `method` in `routes` returns: the routes are
/// filtered by path match; an empty subset is `NotFound`; otherwise the
/// first of the subset with the right method decides, or the subset is
/// non-empty without a method match and the outcome is `MethodNotAllowed`.
pub open spec fn find_spec<H>(routes: Seq<Route<H>>, path: Seq<char>, method: Method) -> StatusOutcome<
    H,
> {
    let matching = matching_routes_spec(routes, path);
    if matching.len() == 0 {
        StatusOutcome::NotFound
    } else {
        match first_for_method_spec(matching, method) {
            Some(h) => StatusOutcome::Handler(h),
            None => StatusOutcome::MethodNotAllowed,
        }
    }
}

/// What a lookup with default fallbacks returns: the resolved handler, or
/// `not_found` when no path matches, or `method_not_supported` when a path
/// matches but no method does.
pub open spec fn find_or_default_spec<H>(
    routes: Seq<Route<H>>,
    path: Seq<char>,
    method: Method,
    not_found: H,
    method_not_supported: H,
) -> H {
    match find_spec(routes, path, method) {
        StatusOutcome::Handler(h) => h,
        StatusOutcome::NotFound => not_found,
        StatusOutcome::MethodNotAllowed => method_not_supported,
    }
}

/// The routes a sequence of route references points at.
pub open spec fn routes_of<H>(refs: Seq<&Route<H>>) -> Seq<Route<H>> {
    refs.map_values(|r: &Route<H>| *r)
}

/// Whether the pattern of `routes[i]` matches `path`.
pub open spec fn path_match_at<H>(routes: Seq<Route<H>>, path: Seq<char>, i: int) -> bool {
    regex_accepts(routes[i].path@, path)
}

/// Whether `routes[i]` matches `path` and is registered for `method`.
pub open spec fn full_match_at<H>(
    routes: Seq<Route<H>>,
    path: Seq<char>,
    method: Method,
    i: int,
) -> bool {
    path_match_at(routes, path, i) && routes[i].method == method
}

/// Whether `routes[i]` is the earliest route matching both `path` and
/// `method`.
pub open spec fn first_full_match_at<H>(
    routes: Seq<Route<H>>,
    path: Seq<char>,
    method: Method,
    i: int,
) -> bool {
    &&& 0 <= i < routes.len()
    &&& full_match_at(routes, path, method, i)
    &&& forall|j: int| 0 <= j < i ==> !full_match_at(routes, path, method, j)
}

/// The router: an ordered route table, immutable once built, looked up by
/// request path and method.
#[derive(Debug)]
pub struct Router<H> {
    routes: Vec<Route<H>>,
}

impl<H> View for Router<H> {
    type V = Seq<Route<H>>;

    closed spec fn view(&self) -> Seq<Route<H>> {
        self.routes@
    }
}

impl<H: Copy> Router<H> {
    /// Builds a router over the given routes, in order. Used by
    /// [`RouterBuilder::build`].
    pub(crate) fn from_routes(routes: Vec<Route<H>>) -> (r: Router<H>)
        ensures
            r@ == routes@,
    {
        Router { routes }
    }

    /// Collects the routes whose pattern matches `request_path`, in
    /// registration order.
    pub fn find_matching_routes<'a>(&'a self, request_path: &str) -> (r: Vec<&'a Route<H>>)
        ensures
            routes_of(r@) == matching_routes_spec(self@, request_path@),
    {
        let ghost p = request_path@;
        let mut result: Vec<&'a Route<H>> = Vec::new();
        let n = self.routes.len();
        let mut i: usize = 0;
        while i < n
            invariant
                i <= n,
                n == self.routes.len(),
                routes_of(result@) == matching_routes_spec(self@.take(i as int), p),
                request_path@ == p,
            decreases n - i,
        {
            let ghost prefix = self@.take(i as int);
            let ghost collected = result@;
            let route = &self.routes[i];
            if route.path.is_match(request_path) {
                result.push(route);
            }
            i += 1;
            proof {
                assert(self@.take(i as int).drop_last() =~= prefix);
                assert(self@.take(i as int).last() == self@[i - 1]);
                if regex_accepts(self@[i - 1].path@, p) {
                    assert(routes_of(result@) =~= routes_of(collected).push(self@[i - 1]));
                }
            }
        }
        proof {
            assert(self@.take(n as int) =~= self@);
        }
        result
    }

    /// The handler of the first of `routes` registered for `method`, if
    /// any.
    fn find_for_method(&self, routes: &Vec<&Route<H>>, method: &Method) -> (r: Option<H>)
        ensures
            r == first_for_method_spec(routes_of(routes@), *method),
    {
        let n = routes.len();
        let mut i: usize = 0;
        while i < n
            invariant
                i <= n,
                n == routes.len(),
                forall|j: int| 0 <= j < i ==> routes@[j].method != *method,
            decreases n - i,
        {
            if routes[i].method == *method {
                proof {
                    lemma_first_for_method_found(routes_of(routes@), *method, i as int);
                }
                return Some(routes[i].handler);
            }
            i += 1;
        }
        proof {
            lemma_first_for_method_none(routes_of(routes@), *method);
        }
        None
    }

    /// Looks the request up in the table: the handler of the first route
    /// matching both path and method; `NotFound` when no pattern matches
    /// the path; `MethodNotAllowed` when a pattern matches but no matching
    /// route has the method.
    pub fn find_handler(&self, path: &str, method: &Method) -> (r: StatusOutcome<H>)
        ensures
            r == find_spec(self@, path@, *method),
    {
        let matching = self.find_matching_routes(path);
        if matching.len() == 0 {
            StatusOutcome::NotFound
        } else {
            match self.find_for_method(&matching, method) {
                Some(h) => StatusOutcome::Handler(h),
                None => StatusOutcome::MethodNotAllowed,
            }
        }
    }

    /// Looks the request up as [`Router::find_handler`] does, but never
    /// reports an error: `not_found` stands in when no pattern matches the
    /// path, and `method_not_supported` when a pattern matches but no
    /// route has the method. The result is always a handler.
    pub fn find_handler_with_defaults(
        &self,
        path: &str,
        method: &Method,
        not_found: H,
        method_not_supported: H,
    ) -> (r: H)
        ensures
            r == find_or_default_spec(self@, path@, *method, not_found, method_not_supported),
    {
        match self.find_handler(path, method) {
            StatusOutcome::Handler(h) => h,
            StatusOutcome::NotFound => not_found,
            StatusOutcome::MethodNotAllowed => method_not_supported,
        }
    }
}

/// Whether `r` is the default error response for `status_code`: the
/// canned response of that status, with its fixed plain-text body. A
/// status outside the canned set indicates a failure inside the server
/// and gets the canned `500` response.
pub open spec fn error_response_spec(r: HttpResponse, status_code: u16) -> bool {
    if status_code == 404 {
        handlers::canned_response_spec(r, 404, "page not found"@)
    } else if status_code == 405 {
        handlers::canned_response_spec(r, 405, "method not supported"@)
    } else if status_code == 501 {
        handlers::canned_response_spec(r, 501, "not implemented"@)
    } else {
        handlers::canned_response_spec(r, 500, "internal server error"@)
    }
}

/// An error handler a [`RouterService`] can be configured with: it turns
/// the status of a failed lookup into the response to send. Its contract
/// is whatever `response_spec` the implementing type states.
pub trait ErrorHandling: Sized {
    /// Which responses this handler may produce for `status_code`. Unless
    /// the implementing type says more, anything.
    open spec fn response_spec(&self, status_code: u16, r: HttpResponse) -> bool {
        true
    }

    /// Produces the response for `status_code`.
    fn handle(&self, status_code: u16) -> (r: HttpResponse)
        ensures
            self.response_spec(status_code, r),
    ;
}

/// The error handler a service starts with: it answers with the canned
/// response of the given status — `404` "page not found", `405` "method
/// not supported", and so on (see [`error_response_spec`]).
#[derive(Clone, Copy, Debug)]
pub struct DefaultErrorHandler;

impl ErrorHandling for DefaultErrorHandler {
    open spec fn response_spec(&self, status_code: u16, r: HttpResponse) -> bool {
        error_response_spec(r, status_code)
    }

    fn handle(&self, status_code: u16) -> (r: HttpResponse) {
        if status_code == 404 {
            handlers::default_404_handler()
        } else if status_code == 405 {
            handlers::method_not_supported_handler()
        } else if status_code == 501 {
            handlers::not_implemented_handler()
        } else {
            handlers::internal_server_error_handler()
        }
    }
}

/// What the dispatch of one request resolves to: a user handler for the
/// host to invoke, or a finished error response for the host to send.
/// Either way the request receives a complete response.
#[derive(Debug)]
pub enum DispatchOutcome<H> {
    /// Invoke this handler on the request and return its response verbatim.
    Handler(H),
    /// No handler was reachable: send this canned response.
    Response(HttpResponse),
}

/// The request-to-response adapter around one [`Router`]: for each request
/// it resolves the handler, or falls back to its error handler's
/// responses. The error handler is set once, at construction, and both
/// members are immutable afterwards and safe to share: dispatch reads
/// them and never changes them.
#[derive(Debug)]
pub struct RouterService<H, E: ErrorHandling> {
    pub router: Router<H>,
    pub error_handler: E,
}

impl<H: Copy> RouterService<H, DefaultErrorHandler> {
    /// Wraps `router` for dispatch, with the default error handler.
    pub fn new(router: Router<H>) -> (s: RouterService<H, DefaultErrorHandler>)
        ensures
            s.router@ == router@,
            s.error_handler == DefaultErrorHandler,
    {
        RouterService { router, error_handler: DefaultErrorHandler }
    }
}

impl<H: Copy, E: ErrorHandling> RouterService<H, E> {
    /// This service is always ready for the next request: it holds no
    /// queue and applies no backpressure.
    pub fn poll_ready(&self) -> (ready: bool)
        ensures
            ready,
    {
        true
    }

    /// Dispatches one request, given its path and method: the resolved
    /// handler for the host to invoke, or the error handler's response —
    /// for `404` when no pattern matches the path, for `405` when a
    /// pattern matches but no matching route has the method.
    pub fn call(&self, path: &str, method: &Method) -> (r: DispatchOutcome<H>)
        ensures
            (find_spec(self.router@, path@, *method) matches StatusOutcome::Handler(h) ==> r
                == DispatchOutcome::<H>::Handler(h)),
            find_spec(self.router@, path@, *method) == StatusOutcome::<H>::NotFound ==> (
            r matches DispatchOutcome::Response(resp) && self.error_handler.response_spec(
                404,
                resp,
            )),
            find_spec(self.router@, path@, *method) == StatusOutcome::<H>::MethodNotAllowed ==> (
            r matches DispatchOutcome::Response(resp) && self.error_handler.response_spec(
                405,
                resp,
            )),
    {
        match self.router.find_handler(path, method) {
            StatusOutcome::Handler(h) => DispatchOutcome::Handler(h),
            StatusOutcome::NotFound => DispatchOutcome::Response(self.error_handler.handle(404)),
            StatusOutcome::MethodNotAllowed => DispatchOutcome::Response(
                self.error_handler.handle(405),
            ),
        }
    }
}

/// If no route of `routes` is registered for `method`, the method scan
/// finds nothing.
proof fn lemma_first_for_method_none<H>(routes: Seq<Route<H>>, method: Method)
    requires
        forall|j: int| 0 <= j < routes.len() ==> routes[j].method != method,
    ensures
        first_for_method_spec(routes, method) is None,
    decreases routes.len(),
{
    if routes.len() > 0 {
        lemma_first_for_method_none(routes.drop_last(), method);
    }
}

/// If `routes[i]` is the earliest route registered for `method`, the
/// method scan returns its handler.
proof fn lemma_first_for_method_found<H>(routes: Seq<Route<H>>, method: Method, i: int)
    requires
        0 <= i < routes.len(),
        routes[i].method == method,
        forall|j: int| 0 <= j < i ==> routes[j].method != method,
    ensures
        first_for_method_spec(routes, method) == Some(routes[i].handler),
    decreases routes.len(),
{
    if i == routes.len() - 1 {
        lemma_first_for_method_none(routes.drop_last(), method);
    } else {
        lemma_first_for_method_found(routes.drop_last(), method, i);
    }
}

/// If no route's pattern matches `path`, the matching subset is empty.
proof fn lemma_matching_empty<H>(routes: Seq<Route<H>>, path: Seq<char>)
    requires
        forall|i: int| 0 <= i < routes.len() ==> !path_match_at(routes, path, i),
    ensures
        matching_routes_spec(routes, path).len() == 0,
    decreases routes.len(),
{
    if routes.len() > 0 {
        let t = routes.drop_last();
        assert forall|i: int| 0 <= i < t.len() implies !path_match_at(t, path, i) by {
            assert(t[i] == routes[i]);
            assert(!path_match_at(routes, path, i));
        }
        lemma_matching_empty(t, path);
        assert(!path_match_at(routes, path, routes.len() - 1));
    }
}

/// If the pattern of `routes[i]` matches `path`, the matching subset is
/// not empty.
proof fn lemma_matching_nonempty<H>(routes: Seq<Route<H>>, path: Seq<char>, i: int)
    requires
        0 <= i < routes.len(),
        path_match_at(routes, path, i),
    ensures
        matching_routes_spec(routes, path).len() > 0,
    decreases routes.len(),
{
    if i < routes.len() - 1 {
        let t = routes.drop_last();
        assert(t[i] == routes[i]);
        assert(path_match_at(t, path, i));
        lemma_matching_nonempty(t, path, i);
    }
}

/// If no route matches both `path` and `method`, the method scan over the
/// matching subset finds nothing.
proof fn lemma_matching_no_method<H>(routes: Seq<Route<H>>, path: Seq<char>, method: Method)
    requires
        forall|i: int| 0 <= i < routes.len() ==> !full_match_at(routes, path, method, i),
    ensures
        first_for_method_spec(matching_routes_spec(routes, path), method) is None,
    decreases routes.len(),
{
    if routes.len() > 0 {
        let t = routes.drop_last();
        let l = routes.last();
        assert forall|i: int| 0 <= i < t.len() implies !full_match_at(t, path, method, i) by {
            assert(t[i] == routes[i]);
            assert(!full_match_at(routes, path, method, i));
        }
        lemma_matching_no_method(t, path, method);
        if regex_accepts(l.path@, path) {
            assert(!full_match_at(routes, path, method, routes.len() - 1));
            assert(matching_routes_spec(routes, path) == matching_routes_spec(t, path).push(l));
            assert(matching_routes_spec(t, path).push(l).drop_last() =~= matching_routes_spec(
                t,
                path,
            ));
        }
    }
}

/// If `routes[i]` is the earliest route matching both `path` and `method`,
/// the lookup returns exactly its handler.
pub proof fn lemma_find_first_full_match<H>(
    routes: Seq<Route<H>>,
    path: Seq<char>,
    method: Method,
    i: int,
)
    requires
        first_full_match_at(routes, path, method, i),
    ensures
        find_spec(routes, path, method) == StatusOutcome::Handler(routes[i].handler),
    decreases routes.len(),
{
    let n = routes.len() as int;
    let t = routes.drop_last();
    let l = routes.last();
    assert(forall|j: int| 0 <= j < t.len() ==> t[j] == routes[j]);
    if i == n - 1 {
        assert forall|j: int| 0 <= j < t.len() implies !full_match_at(t, path, method, j) by {
            assert(t[j] == routes[j]);
            assert(!full_match_at(routes, path, method, j));
        }
        lemma_matching_no_method(t, path, method);
        assert(matching_routes_spec(routes, path) == matching_routes_spec(t, path).push(l));
        assert(matching_routes_spec(t, path).push(l).drop_last() =~= matching_routes_spec(t, path));
        assert(first_for_method_spec(matching_routes_spec(routes, path), method) == Some(
            l.handler,
        ));
    } else {
        assert(full_match_at(t, path, method, i));
        assert forall|j: int| 0 <= j < i implies !full_match_at(t, path, method, j) by {
            assert(t[j] == routes[j]);
            assert(!full_match_at(routes, path, method, j));
        }
        assert(first_full_match_at(t, path, method, i));
        lemma_find_first_full_match(t, path, method, i);
        let mt = matching_routes_spec(t, path);
        assert(mt.len() > 0 && first_for_method_spec(mt, method) == Some(routes[i].handler)) by {
            if mt.len() == 0 {
                assert(find_spec(t, path, method) == StatusOutcome::<H>::NotFound);
            }
        }
        if regex_accepts(l.path@, path) {
            assert(matching_routes_spec(routes, path) == mt.push(l));
            assert(mt.push(l).drop_last() =~= mt);
        } else {
            assert(matching_routes_spec(routes, path) == mt);
        }
    }
}

/// A path no route's pattern matches is `NotFound`, whatever the method.
pub proof fn lemma_find_not_found<H>(routes: Seq<Route<H>>, path: Seq<char>, method: Method)
    requires
        forall|i: int| 0 <= i < routes.len() ==> !path_match_at(routes, path, i),
    ensures
        find_spec(routes, path, method) == StatusOutcome::<H>::NotFound,
{
    lemma_matching_empty(routes, path);
}

/// A path some route's pattern matches, while no route matching it has
/// the request's method, is `MethodNotAllowed`. `w` is one index whose
/// pattern matches.
pub proof fn lemma_find_method_not_allowed<H>(
    routes: Seq<Route<H>>,
    path: Seq<char>,
    method: Method,
    w: int,
)
    requires
        0 <= w < routes.len(),
        path_match_at(routes, path, w),
        forall|i: int| 0 <= i < routes.len() ==> !full_match_at(routes, path, method, i),
    ensures
        find_spec(routes, path, method) == StatusOutcome::<H>::MethodNotAllowed,
{
    lemma_matching_nonempty(routes, path, w);
    lemma_matching_no_method(routes, path, method);
}

/// Some route at or before `w` is the earliest full match, given that
/// `routes[w]` itself matches both `path` and `method`.
proof fn lemma_first_full_match_exists<H>(
    routes: Seq<Route<H>>,
    path: Seq<char>,
    method: Method,
    w: int,
)
    requires
        0 <= w < routes.len(),
        full_match_at(routes, path, method, w),
    ensures
        exists|k: int| 0 <= k <= w && first_full_match_at(routes, path, method, k),
    decreases w,
{
    if forall|j: int| 0 <= j < w ==> !full_match_at(routes, path, method, j) {
        assert(first_full_match_at(routes, path, method, w));
    } else {
        let j = choose|j: int| 0 <= j < w && full_match_at(routes, path, method, j);
        lemma_first_full_match_exists(routes, path, method, j);
    }
}

/// First-added-wins: when two routes carry the same pattern and method,
/// the later one is never the selected route — the lookup returns the
/// handler of a route registered no later than the earlier of the two.
pub proof fn lemma_first_added_wins<H>(routes: Seq<Route<H>>, path: Seq<char>, i: int, j: int)
    requires
        0 <= i < j < routes.len(),
        routes[i].path@ == routes[j].path@,
        routes[i].method == routes[j].method,
        path_match_at(routes, path, j),
    ensures
        !first_full_match_at(routes, path, routes[j].method, j),
        exists|k: int|
            0 <= k <= i && first_full_match_at(routes, path, routes[j].method, k) && find_spec(
                routes,
                path,
                routes[j].method,
            ) == StatusOutcome::Handler(routes[k].handler),
{
    let m = routes[j].method;
    assert(full_match_at(routes, path, m, i));
    lemma_first_full_match_exists(routes, path, m, i);
    let k = choose|k: int| 0 <= k <= i && first_full_match_at(routes, path, m, k);
    lemma_find_first_full_match(routes, path, m, k);
    assert(0 <= k <= i && first_full_match_at(routes, path, m, k) && find_spec(routes, path, m)
        == StatusOutcome::Handler(routes[k].handler));
}

/// Lookup is a pure function of the table, the path and the method: two
/// lookups of the same table with the same path and method yield the same
/// outcome.
pub proof fn lemma_find_idempotent<H>(
    routes: Seq<Route<H>>,
    path: Seq<char>,
    method: Method,
    r1: StatusOutcome<H>,
    r2: StatusOutcome<H>,
)
    requires
        r1 == find_spec(routes, path, method),
        r2 == find_spec(routes, path, method),
    ensures
        r1 == r2,
{
}

} // verus!
