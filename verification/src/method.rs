//! The HTTP method of a request or a route, compared by value equality only.

use vstd::prelude::*;

verus! {

/// One of the standard HTTP verbs. Methods are compared by plain value
/// equality: no case folding and no special-casing of any verb.
///
/// Extension methods are outside this model: a route can only carry one of
/// these verbs, so the host answers a request bearing any other method
/// before it reaches the router.
#[derive(Clone, Copy, Debug, PartialEq, Eq, Structural)]
pub enum Method {
    Get,
    Post,
    Put,
    Patch,
    Delete,
    Head,
    Options,
    Trace,
    Connect,
}

} // verus!
