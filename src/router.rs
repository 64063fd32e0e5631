use vstd::prelude::*;

verus! {

/// Adds one endpoint: `service` answers at `path`.
pub struct Route<M> {
    pub path: &'static str,
    pub service: M,
}

impl<M> Route<M> {
    pub fn new(router: &'static str, service: M) -> (r: Self)
        ensures
            r.path == router,
            r.service == service,
    {
        Route { path: router, service }
    }
}

/// Merges a whole router into the one being built.
pub struct Merge<R>(pub R);

impl<R> Merge<R> {
    pub fn new(merge: R) -> (r: Self)
        ensures
            r.0 == merge,
    {
        Merge(merge)
    }
}

/// Nests a sub-router under a path prefix.
pub struct Nest<R> {
    pub path: &'static str,
    pub router: R,
}

impl<R> Nest<R> {
    pub fn new(path: &'static str, router: R) -> (r: Self)
        ensures
            r.path == path,
            r.router == router,
    {
        Nest { path, router }
    }
}

/// Installs the handler that answers when no route matches.
pub struct Fallback<H> {
    pub handle: H,
}

impl<H> Fallback<H> {
    pub fn new(handle: H) -> (r: Self)
        ensures
            r.handle == handle,
    {
        Fallback { handle }
    }
}

/// One mutation of the router; the route facet of an effect is a sequence of
/// these, applied in order.
pub enum RouteChange<M, R, H> {
    Route(Route<M>),
    Nest(Nest<R>),
    Merge(Merge<R>),
    Fallback(Fallback<H>),
}

} // verus!
