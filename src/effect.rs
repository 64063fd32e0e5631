use vstd::prelude::*;

verus! {

/// What one preparation step contributes to the server, split into four
/// independent facets.
pub struct Effect<X, R, G, S> {
    pub extensions: Vec<X>,
    pub routes: Vec<R>,
    pub graceful: Option<G>,
    pub servers: Vec<S>,
}

/// The mathematical picture of an [`Effect`]: one ordered sequence per
/// list-shaped facet, and the optional shutdown signal.
pub struct EffectView<X, R, G, S> {
    pub extensions: Seq<X>,
    pub routes: Seq<R>,
    pub graceful: Option<G>,
    pub servers: Seq<S>,
}

impl<X, R, G, S> View for Effect<X, R, G, S> {
    type V = EffectView<X, R, G, S>;

    open spec fn view(&self) -> EffectView<X, R, G, S> {
        EffectView {
            extensions: self.extensions@,
            routes: self.routes@,
            graceful: self.graceful,
            servers: self.servers@,
        }
    }
}

/// The effect that contributes nothing.
pub open spec fn empty_view<X, R, G, S>() -> EffectView<X, R, G, S> {
    EffectView { extensions: Seq::empty(), routes: Seq::empty(), graceful: None, servers: Seq::empty() }
}

/// The first signal that is present, reading left to right.
pub open spec fn first_graceful<G>(l: Option<G>, r: Option<G>) -> Option<G> {
    match l {
        Some(g) => Some(g),
        None => r,
    }
}

/// Combination of two effects: list facets are concatenated left then right,
/// and the left shutdown signal wins over the right one.
pub open spec fn combine_view<X, R, G, S>(
    l: EffectView<X, R, G, S>,
    r: EffectView<X, R, G, S>,
) -> EffectView<X, R, G, S> {
    EffectView {
        extensions: l.extensions + r.extensions,
        routes: l.routes + r.routes,
        graceful: first_graceful(l.graceful, r.graceful),
        servers: l.servers + r.servers,
    }
}

impl<X, R, G, S> Effect<X, R, G, S> {
    /// The neutral effect.
    pub fn new() -> (r: Self)
        ensures
            r@ == empty_view::<X, R, G, S>(),
    {
        Effect { extensions: Vec::new(), routes: Vec::new(), graceful: None, servers: Vec::new() }
    }

    /// Combines `self` (earlier) with `other` (later).
    pub fn combine(self, other: Self) -> (r: Self)
        ensures
            r@ == combine_view(self@, other@),
    {
        let Effect { extensions: mut ext, routes: mut rts, graceful: g, servers: mut srv } = self;
        let Effect { extensions: mut ext2, routes: mut rts2, graceful: g2, servers: mut srv2 } = other;
        ext.append(&mut ext2);
        rts.append(&mut rts2);
        srv.append(&mut srv2);
        let graceful = match g {
            Some(x) => Some(x),
            None => g2,
        };
        Effect { extensions: ext, routes: rts, graceful, servers: srv }
    }

    /// Adds one piece of shared state after those already present.
    pub fn with_extension(self, extension: X) -> (r: Self)
        ensures
            r@ == (EffectView { extensions: self@.extensions.push(extension), ..self@ }),
    {
        let mut r = self;
        r.extensions.push(extension);
        r
    }

    /// Adds one router mutation after those already present.
    pub fn with_route(self, route: R) -> (r: Self)
        ensures
            r@ == (EffectView { routes: self@.routes.push(route), ..self@ }),
    {
        let mut r = self;
        r.routes.push(route);
        r
    }

    /// Offers a shutdown signal; it is kept only when none is present yet.
    pub fn with_graceful(self, graceful: G) -> (r: Self)
        ensures
            r@ == (EffectView { graceful: first_graceful(self@.graceful, Some(graceful)), ..self@ }),
    {
        let mut r = self;
        if r.graceful.is_none() {
            r.graceful = Some(graceful);
        }
        r
    }

    /// Adds one listener configuration after those already present.
    pub fn with_server(self, server: S) -> (r: Self)
        ensures
            r@ == (EffectView { servers: self@.servers.push(server), ..self@ }),
    {
        let mut r = self;
        r.servers.push(server);
        r
    }

    /// Takes the effect apart into its four facets, in the order the
    /// application phase uses them.
    pub fn split_effect(self) -> (r: (Vec<X>, Vec<R>, Option<G>, Vec<S>))
        ensures
            r.0@ == self@.extensions,
            r.1@ == self@.routes,
            r.2 == self@.graceful,
            r.3@ == self@.servers,
    {
        (self.extensions, self.routes, self.graceful, self.servers)
    }
}

/// An effect that contributes one piece of shared state and nothing else.
pub fn extension_only<X, R, G, S>(extension: X) -> (r: Effect<X, R, G, S>)
    ensures
        r@ == (EffectView { extensions: seq![extension], ..empty_view::<X, R, G, S>() }),
{
    Effect::new().with_extension(extension)
}

/// An effect that contributes one shutdown signal and nothing else.
pub fn graceful_only<X, R, G, S>(graceful: G) -> (r: Effect<X, R, G, S>)
    ensures
        r@ == (EffectView { graceful: Some(graceful), ..empty_view::<X, R, G, S>() }),
{
    Effect::new().with_graceful(graceful)
}

/// An effect that contributes one router mutation and nothing else.
pub fn route_only<X, R, G, S>(route: R) -> (r: Effect<X, R, G, S>)
    ensures
        r@ == (EffectView { routes: seq![route], ..empty_view::<X, R, G, S>() }),
{
    Effect::new().with_route(route)
}

/// An effect that contributes one listener configuration and nothing else.
pub fn serve_only<X, R, G, S>(server: S) -> (r: Effect<X, R, G, S>)
    ensures
        r@ == (EffectView { servers: seq![server], ..empty_view::<X, R, G, S>() }),
{
    Effect::new().with_server(server)
}

/// Combination is associative: grouping does not change the combined effect.
pub proof fn lemma_combine_associative<X, R, G, S>(
    a: EffectView<X, R, G, S>,
    b: EffectView<X, R, G, S>,
    c: EffectView<X, R, G, S>,
)
    ensures
        combine_view(combine_view(a, b), c) == combine_view(a, combine_view(b, c)),
{
    assert(a.extensions + b.extensions + c.extensions =~= a.extensions + (b.extensions + c.extensions));
    assert(a.routes + b.routes + c.routes =~= a.routes + (b.routes + c.routes));
    assert(a.servers + b.servers + c.servers =~= a.servers + (b.servers + c.servers));
}

/// The empty effect is neutral on both sides of combination, for every facet.
pub proof fn lemma_combine_neutral<X, R, G, S>(e: EffectView<X, R, G, S>)
    ensures
        combine_view(empty_view(), e) == e,
        combine_view(e, empty_view()) == e,
{
    assert(Seq::<X>::empty() + e.extensions =~= e.extensions);
    assert(Seq::<R>::empty() + e.routes =~= e.routes);
    assert(Seq::<S>::empty() + e.servers =~= e.servers);
    assert(e.extensions + Seq::<X>::empty() =~= e.extensions);
    assert(e.routes + Seq::<R>::empty() =~= e.routes);
    assert(e.servers + Seq::<S>::empty() =~= e.servers);
}

/// The first shutdown signal wins: when the first of three effects has none and
/// the second has one, the combination keeps the second's and drops the third's.
pub proof fn lemma_first_graceful_wins<X, R, G, S>(
    a: EffectView<X, R, G, S>,
    b: EffectView<X, R, G, S>,
    c: EffectView<X, R, G, S>,
)
    requires
        a.graceful is None,
        b.graceful is Some,
    ensures
        combine_view(combine_view(a, b), c).graceful == b.graceful,
        combine_view(a, combine_view(b, c)).graceful == b.graceful,
{
}

} // verus!
