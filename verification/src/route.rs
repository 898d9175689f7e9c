//! Routes: a route binds an HTTP method and a path pattern to a handler
//! value, and a `RouteBuilder` assembles one route fluently.
//!
//! A handler is any plain `Copy` value the host cares to route to — in a
//! server it is a function from a request to a response; the router never
//! looks inside it.

use vstd::prelude::*;

use crate::method::Method;
use crate::path::Path;
use crate::path::regex_valid;

verus! {

/// One registered route: an HTTP method and a path pattern bound to a
/// handler. Immutable once constructed.
#[derive(Debug)]
pub struct Route<H> {
    pub method: Method,
    pub path: Path,
    pub handler: H,
}

/// Fluent construction of a single [`Route`]: first the method and the
/// pattern, then [`RouteBuilder::using`] supplies the handler.
#[derive(Debug)]
pub struct RouteBuilder {
    pub method: Method,
    pub path: Path,
}

impl RouteBuilder {
    /// Starts a route for `method` and the path pattern `pattern`. The
    /// pattern must be a valid regular expression; an invalid pattern is a
    /// configuration error surfaced before this point (see
    /// [`RouteBuilder::try_from`]).
    pub fn from(method: Method, pattern: &str) -> (b: RouteBuilder)
        requires
            regex_valid(pattern@),
        ensures
            b.method == method,
            b.path@ == pattern@,
    {
        RouteBuilder { method, path: Path::new(pattern) }
    }

    /// Starts a route for `method` and `pattern`, returning `None` exactly
    /// when the pattern is not a valid regular expression.
    pub fn try_from(method: Method, pattern: &str) -> (r: Option<RouteBuilder>)
        ensures
            r is Some <==> regex_valid(pattern@),
            r is Some ==> r.unwrap().method == method && r.unwrap().path@ == pattern@,
    {
        match Path::try_new(pattern) {
            Some(_) => Some(
                match method {
                    Method::Get => RouteBuilder::get(pattern),
                    Method::Post => RouteBuilder::post(pattern),
                    Method::Put => RouteBuilder::put(pattern),
                    Method::Patch => RouteBuilder::patch(pattern),
                    Method::Delete => RouteBuilder::delete(pattern),
                    Method::Head => RouteBuilder::head(pattern),
                    Method::Options => RouteBuilder::options(pattern),
                    Method::Trace => RouteBuilder::trace(pattern),
                    Method::Connect => RouteBuilder::connect(pattern),
                },
            ),
            None => None,
        }
    }

    /// Starts a `GET` route for `pattern` (a valid regular expression).
    pub fn get(pattern: &str) -> (b: RouteBuilder)
        requires
            regex_valid(pattern@),
        ensures
            b.method == Method::Get,
            b.path@ == pattern@,
    {
        RouteBuilder::from(Method::Get, pattern)
    }

    /// Starts a `POST` route for `pattern` (a valid regular expression).
    pub fn post(pattern: &str) -> (b: RouteBuilder)
        requires
            regex_valid(pattern@),
        ensures
            b.method == Method::Post,
            b.path@ == pattern@,
    {
        RouteBuilder::from(Method::Post, pattern)
    }

    /// Starts a `PUT` route for `pattern` (a valid regular expression).
    pub fn put(pattern: &str) -> (b: RouteBuilder)
        requires
            regex_valid(pattern@),
        ensures
            b.method == Method::Put,
            b.path@ == pattern@,
    {
        RouteBuilder::from(Method::Put, pattern)
    }

    /// Starts a `PATCH` route for `pattern` (a valid regular expression).
    pub fn patch(pattern: &str) -> (b: RouteBuilder)
        requires
            regex_valid(pattern@),
        ensures
            b.method == Method::Patch,
            b.path@ == pattern@,
    {
        RouteBuilder::from(Method::Patch, pattern)
    }

    /// Starts a `DELETE` route for `pattern` (a valid regular expression).
    pub fn delete(pattern: &str) -> (b: RouteBuilder)
        requires
            regex_valid(pattern@),
        ensures
            b.method == Method::Delete,
            b.path@ == pattern@,
    {
        RouteBuilder::from(Method::Delete, pattern)
    }

    /// Starts a `HEAD` route for `pattern` (a valid regular expression).
    pub fn head(pattern: &str) -> (b: RouteBuilder)
        requires
            regex_valid(pattern@),
        ensures
            b.method == Method::Head,
            b.path@ == pattern@,
    {
        RouteBuilder::from(Method::Head, pattern)
    }

    /// Starts an `OPTIONS` route for `pattern` (a valid regular expression).
    pub fn options(pattern: &str) -> (b: RouteBuilder)
        requires
            regex_valid(pattern@),
        ensures
            b.method == Method::Options,
            b.path@ == pattern@,
    {
        RouteBuilder::from(Method::Options, pattern)
    }

    /// Starts a `TRACE` route for `pattern` (a valid regular expression).
    pub fn trace(pattern: &str) -> (b: RouteBuilder)
        requires
            regex_valid(pattern@),
        ensures
            b.method == Method::Trace,
            b.path@ == pattern@,
    {
        RouteBuilder::from(Method::Trace, pattern)
    }

    /// Starts a `CONNECT` route for `pattern` (a valid regular expression).
    pub fn connect(pattern: &str) -> (b: RouteBuilder)
        requires
            regex_valid(pattern@),
        ensures
            b.method == Method::Connect,
            b.path@ == pattern@,
    {
        RouteBuilder::from(Method::Connect, pattern)
    }

    /// Finishes the route by binding `handler` to it.
    pub fn using<H>(self, handler: H) -> (r: Route<H>)
        ensures
            r.method == self.method,
            r.path == self.path,
            r.handler == handler,
    {
        Route { method: self.method, path: self.path, handler }
    }
}

} // verus!
