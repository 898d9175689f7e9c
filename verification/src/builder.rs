//! Accumulates routes, in order, into an immutable router.

use vstd::prelude::*;

use crate::Router;
use crate::route::Route;

verus! {

/// Builds a [`Router`]: routes are added one at a time and their order is
/// kept; `build` produces the immutable table. Building is infallible:
/// every added route is already valid.
pub struct RouterBuilder<H> {
    routes: Vec<Route<H>>,
}

impl<H> View for RouterBuilder<H> {
    type V = Seq<Route<H>>;

    closed spec fn view(&self) -> Seq<Route<H>> {
        self.routes@
    }
}

impl<H: Copy> RouterBuilder<H> {
    /// Starts with no routes.
    pub fn new() -> (b: RouterBuilder<H>)
        ensures
            b@ == Seq::<Route<H>>::empty(),
    {
        RouterBuilder { routes: Vec::new() }
    }

    /// Appends `route` after every route added so far.
    pub fn add(self, route: Route<H>) -> (b: RouterBuilder<H>)
        ensures
            b@ == self@.push(route),
    {
        let mut routes = self.routes;
        routes.push(route);
        RouterBuilder { routes }
    }

    /// Produces the immutable router over the added routes, in the order
    /// they were added.
    pub fn build(self) -> (r: Router<H>)
        ensures
            r@ == self@,
    {
        Router::from_routes(self.routes)
    }
}

} // verus!
