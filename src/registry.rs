use vstd::prelude::*;

verus! {

/// A named remote procedure: the name that dispatch keys on, the names of its
/// request and response schemas, and the handler that serves it.
pub struct Route<H> {
    pub name: String,
    pub request_schema: String,
    pub response_schema: String,
    pub handler: H,
}

/// No two routes share a name.
pub open spec fn names_unique<H>(routes: Seq<Route<H>>) -> bool {
    forall|i: int, j: int|
        0 <= i < routes.len() && 0 <= j < routes.len() && #[trigger] routes[i].name@
            == #[trigger] routes[j].name@ ==> i == j
}

/// Some route is named `name`.
pub open spec fn has_route<H>(routes: Seq<Route<H>>, name: Seq<char>) -> bool {
    exists|i: int| 0 <= i < routes.len() && #[trigger] routes[i].name@ == name
}

/// The read-only table of routes, built once at startup.
pub struct Registry<H> {
    routes: Vec<Route<H>>,
}

impl<H> Registry<H> {
    /// The routes, in the order they were given.
    pub closed spec fn routes(&self) -> Seq<Route<H>> {
        self.routes@
    }

    /// Route names are unique.
    pub open spec fn wf(&self) -> bool {
        names_unique(self.routes())
    }

    /// The position of the route named `name`, if there is one.
    pub open spec fn spec_lookup(&self, name: Seq<char>) -> Option<int> {
        if has_route(self.routes(), name) {
            Some(choose|i: int| 0 <= i < self.routes().len() && #[trigger] self.routes()[i].name@ == name)
        } else {
            None
        }
    }

    /// Builds the registry from its routes, or returns `None` when two of them
    /// share a name.
    pub fn new(routes: Vec<Route<H>>) -> (r: Option<Self>)
        ensures
            r is Some <==> names_unique(routes@),
            r is Some ==> r->0.routes() == routes@ && r->0.wf(),
    {
        let n = routes.len();
        let mut i: usize = 0;
        while i < n
            invariant
                n == routes@.len(),
                i <= n,
                forall|a: int, b: int|
                    0 <= a < i && 0 <= b < n && #[trigger] routes@[a].name@
                        == #[trigger] routes@[b].name@ ==> a == b,
            decreases n - i,
        {
            let mut j: usize = 0;
            while j < n
                invariant
                    n == routes@.len(),
                    i < n,
                    j <= n,
                    forall|a: int, b: int|
                        0 <= a < i && 0 <= b < n && #[trigger] routes@[a].name@
                            == #[trigger] routes@[b].name@ ==> a == b,
                    forall|b: int|
                        0 <= b < j && routes@[i as int].name@ == #[trigger] routes@[b].name@
                            ==> i == b,
                decreases n - j,
            {
                if j != i && routes[i].name == routes[j].name {
                    assert(routes@[i as int].name@ == routes@[j as int].name@);
                    return None;
                }
                j = j + 1;
            }
            i = i + 1;
        }
        Some(Registry { routes })
    }

    /// The number of routes.
    pub fn len(&self) -> (r: usize)
        ensures
            r == self.routes().len(),
    {
        self.routes.len()
    }

    /// The route at `index`.
    pub fn route(&self, index: usize) -> (r: &Route<H>)
        requires
            index < self.routes().len(),
        ensures
            *r == self.routes()[index as int],
    {
        &self.routes[index]
    }

    /// Finds the route named `name`.
    pub fn lookup(&self, name: &str) -> (r: Option<usize>)
        requires
            self.wf(),
        ensures
            r is Some <==> has_route(self.routes(), name@),
            r is Some ==> r->0 < self.routes().len() && self.routes()[r->0 as int].name@ == name@,
            self.spec_lookup(name@) == match r {
                Some(i) => Some(i as int),
                None => None::<int>,
            },
    {
        let key = name.to_owned();
        let mut i: usize = 0;
        while i < self.routes.len()
            invariant
                i <= self.routes@.len(),
                key@ == name@,
                self.wf(),
                forall|k: int| 0 <= k < i ==> #[trigger] self.routes@[k].name@ != name@,
            decreases self.routes@.len() - i,
        {
            if self.routes[i].name == key {
                proof {
                    lemma_lookup_unique(self, name@, i as int);
                }
                return Some(i);
            }
            i = i + 1;
        }
        None
    }
}

/// In a registry with unique names, the route that carries a name is the one
/// that lookup finds for it: the answer depends on the name alone.
pub proof fn lemma_lookup_unique<H>(registry: &Registry<H>, name: Seq<char>, i: int)
    requires
        registry.wf(),
        0 <= i < registry.routes().len(),
        registry.routes()[i].name@ == name,
    ensures
        registry.spec_lookup(name) == Some(i),
{
    assert(has_route(registry.routes(), name));
}

} // verus!
