//! Modulation matrix bookkeeping: which source feeds which target, how deeply.
//!
//! Routes are configured off the audio thread; on the audio thread each route
//! adds `depth · source` onto its target. The depth is whatever number type the
//! signal path uses (`D`); this module keeps the route list and decides which
//! routes apply to a given set of sources and targets. A route whose source or
//! target index is out of range is skipped, never indexed.

use vstd::prelude::*;

verus! {

/// One modulation route: `targets[target] += depth · sources[source]`.
#[derive(Clone, Copy, Debug)]
pub struct ModRoute<D> {
    pub source: usize,
    pub target: usize,
    pub depth: D,
}

/// Whether a route's indices both fall inside the given source and target
/// counts.
pub open spec fn route_applies<D>(r: ModRoute<D>, n_sources: int, n_targets: int) -> bool {
    r.source < n_sources && r.target < n_targets
}

/// An ordered list of modulation routes.
#[derive(Clone, Debug)]
pub struct ModMatrix<D> {
    routes: Vec<ModRoute<D>>,
}

impl<D> View for ModMatrix<D> {
    type V = Seq<ModRoute<D>>;

    closed spec fn view(&self) -> Seq<ModRoute<D>> {
        self.routes@
    }
}

impl<D: Copy> ModMatrix<D> {
    /// A matrix with no routes.
    pub fn new() -> (m: ModMatrix<D>)
        ensures
            m@ == Seq::<ModRoute<D>>::empty(),
    {
        ModMatrix { routes: Vec::new() }
    }

    /// Replace every route with `routes`, in order.
    pub fn set_routes(&mut self, routes: &[ModRoute<D>])
        ensures
            final(self)@ == routes@,
    {
        self.routes.clear();
        let mut i: usize = 0;
        while i < routes.len()
            invariant
                i <= routes@.len(),
                self.routes@ == routes@.take(i as int),
            decreases routes@.len() - i,
        {
            let r = routes[i];
            self.routes.push(r);
            assert(routes@.take(i + 1) == routes@.take(i as int).push(r));
            i = i + 1;
        }
        assert(routes@.take(i as int) == routes@);
    }

    /// Append a route.
    pub fn add(&mut self, source: usize, target: usize, depth: D)
        ensures
            final(self)@ == old(self)@.push(ModRoute { source, target, depth }),
    {
        self.routes.push(ModRoute { source, target, depth });
    }

    /// Remove every route.
    pub fn clear(&mut self)
        ensures
            final(self)@ == Seq::<ModRoute<D>>::empty(),
    {
        self.routes.clear();
    }

    /// Number of routes.
    pub fn len(&self) -> (n: usize)
        ensures
            n == self@.len(),
    {
        self.routes.len()
    }

    /// Whether there are no routes.
    pub fn is_empty(&self) -> (b: bool)
        ensures
            b == (self@.len() == 0),
    {
        self.routes.len() == 0
    }

    /// Route `i`.
    pub fn route(&self, i: usize) -> (r: ModRoute<D>)
        requires
            i < self@.len(),
        ensures
            r == self@[i as int],
    {
        self.routes[i]
    }

    /// Whether route `i` applies with `n_sources` sources and `n_targets`
    /// targets (both of its indices in range).
    pub fn applies(&self, i: usize, n_sources: usize, n_targets: usize) -> (b: bool)
        requires
            i < self@.len(),
        ensures
            b == route_applies(self@[i as int], n_sources as int, n_targets as int),
            b <==> (self@[i as int].source < n_sources && self@[i as int].target < n_targets),
    {
        let r = &self.routes[i];
        r.source < n_sources && r.target < n_targets
    }
}

impl<D: Copy> Default for ModMatrix<D> {
    fn default() -> (m: ModMatrix<D>)
        ensures
            m@ == Seq::<ModRoute<D>>::empty(),
    {
        ModMatrix::new()
    }
}

/// A route applies exactly when both of its indices are in range: an
/// applicable route only ever names a valid source and a valid target, so
/// applying it reads and writes inside the arrays; a route with either index
/// out of range is not applied at all; and every route with both indices in
/// range is applied, whichever source feeds whichever target.
pub proof fn lemma_applicable_route_in_bounds<D>(r: ModRoute<D>, n_sources: int, n_targets: int)
    ensures
        route_applies(r, n_sources, n_targets) ==> 0 <= r.source < n_sources && 0 <= r.target < n_targets,
        (r.source >= n_sources || r.target >= n_targets) ==> !route_applies(r, n_sources, n_targets),
        (r.source < n_sources && r.target < n_targets) ==> route_applies(r, n_sources, n_targets),
{
}

} // verus!
