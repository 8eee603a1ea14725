use vstd::prelude::*;

use crate::route::{copy_routes, path_is_valid, path_starts_with_slash, MethodFilter, Route, RouteError};

verus! {

/// Whether two filters of the embeddable router admit a common method: the
/// same filter, or one that admits every method.
pub open spec fn filters_overlap(a: MethodFilter, b: MethodFilter) -> bool {
    a == b || a == MethodFilter::Any || b == MethodFilter::Any
}

/// Whether a route for `method` on `path` can join `routes`: the path starts
/// with `/` and no route on the same path admits a method that `method` admits.
/// This is the part of axum's route validation that depends on the route
/// table alone. axum's path matcher also refuses (by a panic in the server)
/// a path pattern that conflicts with another registered pattern, such as
/// `/:b` after `/:a`, or a malformed wildcard; that check is left to axum and
/// is not made or stated here.
pub open spec fn can_route(routes: Seq<Route>, path: Seq<char>, method: MethodFilter) -> bool {
    &&& path_is_valid(path)
    &&& forall|i: int|
        0 <= i < routes.len() && (#[trigger] routes[i]).path@ == path ==> !filters_overlap(
            routes[i].method,
            method,
        )
}

/// Every route has a valid path, and no two routes on one path admit a
/// common method, so each method on each path has at most one handler.
pub open spec fn well_routed(routes: Seq<Route>) -> bool {
    &&& forall|i: int| 0 <= i < routes.len() ==> path_is_valid((#[trigger] routes[i]).path@)
    &&& forall|i: int, j: int|
        0 <= i < routes.len() && 0 <= j < routes.len() && i != j && routes[i].path@
            == routes[j].path@ ==> !filters_overlap(routes[i].method, routes[j].method)
}

/// The router that a Lua script fills through the `dayax` global: the routes
/// in the order the script registered them.
#[derive(Debug)]
pub struct Dayax {
    routes: Vec<Route>,
}

impl View for Dayax {
    type V = Seq<Route>;

    closed spec fn view(&self) -> Seq<Route> {
        self.routes@
    }
}

impl Clone for Dayax {
    /// A router with the same routes.
    fn clone(&self) -> (copy: Dayax)
        ensures
            copy@ == self@,
    {
        proof {
            use_type_invariant(self);
        }
        Dayax { routes: copy_routes(&self.routes) }
    }
}

impl Default for Dayax {
    /// A router without routes.
    fn default() -> (dayax: Dayax)
        ensures
            dayax@ == Seq::<Route>::empty(),
    {
        Dayax::new()
    }
}

impl Dayax {
    #[verifier::type_invariant]
    closed spec fn routes_well_routed(self) -> bool {
        well_routed(self.routes@)
    }

    /// A router without routes.
    pub fn new() -> (dayax: Dayax)
        ensures
            dayax@ == Seq::<Route>::empty(),
    {
        Dayax { routes: Vec::new() }
    }

    /// The registered routes, oldest first; no two on one path admit a
    /// common method.
    pub fn routes(&self) -> (routes: &Vec<Route>)
        ensures
            routes@ == self@,
            well_routed(self@),
    {
        proof {
            use_type_invariant(self);
        }
        &self.routes
    }

    /// Whether the route table admits a route for `method` on `path`: the
    /// path starts with `/` and no route on it collides with `method`.
    /// Pattern conflicts between different paths are left to axum.
    pub fn check_route(&self, path: &String, method: MethodFilter) -> (checked: Result<(), RouteError>)
        ensures
            match checked {
                Ok(()) => can_route(self@, path@, method),
                Err(RouteError::InvalidPath) => !path_is_valid(path@),
                Err(RouteError::OverlappingMethod) => path_is_valid(path@) && !can_route(
                    self@,
                    path@,
                    method,
                ),
            },
    {
        if !path_starts_with_slash(path.as_str()) {
            return Err(RouteError::InvalidPath);
        }
        let n = self.routes.len();
        let mut i: usize = 0;
        while i < n
            invariant
                n == self.routes@.len(),
                i <= n,
                path_is_valid(path@),
                forall|j: int|
                    0 <= j < i && (#[trigger] self.routes@[j]).path@ == path@ ==> !filters_overlap(
                        self.routes@[j].method,
                        method,
                    ),
            decreases n - i,
        {
            let other = self.routes[i].method;
            if self.routes[i].path == *path && (other == method || other == MethodFilter::Any
                || method == MethodFilter::Any) {
                assert(!can_route(self@, path@, method));
                return Err(RouteError::OverlappingMethod);
            }
            i = i + 1;
        }
        Ok(())
    }

    /// Registers the callback numbered `callback` for the requests on `path`
    /// with a method that `method` admits, after every route registered before.
    pub fn route(&mut self, path: String, method: MethodFilter, callback: usize)
        requires
            can_route(old(self)@, path@, method),
        ensures
            final(self)@ == old(self)@.push(Route { method, path, callback }),
    {
        proof {
            use_type_invariant(&*self);
        }
        let ghost before = self.routes@;
        let mut routes: Vec<Route> = Vec::new();
        std::mem::swap(&mut routes, &mut self.routes);
        routes.push(Route { method, path, callback });
        assert(well_routed(routes@)) by {
            assert forall|i: int, j: int|
                0 <= i < routes@.len() && 0 <= j < routes@.len() && i != j && routes@[i].path@
                    == routes@[j].path@ implies !filters_overlap(
                routes@[i].method,
                routes@[j].method,
            ) by {
                if i < before.len() && j < before.len() {
                    assert(routes@[i] == before[i] && routes@[j] == before[j]);
                } else if i < before.len() {
                    assert(routes@[i] == before[i]);
                } else {
                    assert(routes@[j] == before[j]);
                }
            }
            assert forall|i: int| 0 <= i < routes@.len() implies path_is_valid(
                (#[trigger] routes@[i]).path@,
            ) by {
                if i < before.len() {
                    assert(routes@[i] == before[i]);
                }
            }
        }
        self.routes = routes;
    }

    /// Registers the callback as `route` does where the route table admits it,
    /// and otherwise leaves the router unchanged and says why.
    pub fn try_route(&mut self, path: String, method: MethodFilter, callback: usize) -> (added:
        Result<(), RouteError>)
        ensures
            match added {
                Ok(()) => can_route(old(self)@, path@, method) && final(self)@ == old(self)@.push(
                    Route { method, path, callback },
                ),
                Err(RouteError::InvalidPath) => !path_is_valid(path@) && final(self)@ == old(
                    self,
                )@,
                Err(RouteError::OverlappingMethod) => path_is_valid(path@) && !can_route(
                    old(self)@,
                    path@,
                    method,
                ) && final(self)@ == old(self)@,
            },
    {
        match self.check_route(&path, method) {
            Ok(()) => {
                self.route(path, method, callback);
                Ok(())
            },
            Err(e) => Err(e),
        }
    }

    /// Registers a handler for `GET` requests on `path`.
    pub fn get(&mut self, path: String, callback: usize)
        requires
            can_route(old(self)@, path@, MethodFilter::Get),
        ensures
            final(self)@ == old(self)@.push(Route { method: MethodFilter::Get, path, callback }),
    {
        self.route(path, MethodFilter::Get, callback)
    }

    /// Registers a handler for `HEAD` requests on `path`.
    pub fn head(&mut self, path: String, callback: usize)
        requires
            can_route(old(self)@, path@, MethodFilter::Head),
        ensures
            final(self)@ == old(self)@.push(Route { method: MethodFilter::Head, path, callback }),
    {
        self.route(path, MethodFilter::Head, callback)
    }

    /// Registers a handler for `POST` requests on `path`.
    pub fn post(&mut self, path: String, callback: usize)
        requires
            can_route(old(self)@, path@, MethodFilter::Post),
        ensures
            final(self)@ == old(self)@.push(Route { method: MethodFilter::Post, path, callback }),
    {
        self.route(path, MethodFilter::Post, callback)
    }

    /// Registers a handler for `PUT` requests on `path`.
    pub fn put(&mut self, path: String, callback: usize)
        requires
            can_route(old(self)@, path@, MethodFilter::Put),
        ensures
            final(self)@ == old(self)@.push(Route { method: MethodFilter::Put, path, callback }),
    {
        self.route(path, MethodFilter::Put, callback)
    }

    /// Registers a handler for `PATCH` requests on `path`.
    pub fn patch(&mut self, path: String, callback: usize)
        requires
            can_route(old(self)@, path@, MethodFilter::Patch),
        ensures
            final(self)@ == old(self)@.push(Route { method: MethodFilter::Patch, path, callback }),
    {
        self.route(path, MethodFilter::Patch, callback)
    }

    /// Registers a handler for `DELETE` requests on `path`.
    pub fn delete(&mut self, path: String, callback: usize)
        requires
            can_route(old(self)@, path@, MethodFilter::Delete),
        ensures
            final(self)@ == old(self)@.push(
                Route { method: MethodFilter::Delete, path, callback },
            ),
    {
        self.route(path, MethodFilter::Delete, callback)
    }

    /// Registers a handler for requests of every method on `path`.
    pub fn any(&mut self, path: String, callback: usize)
        requires
            can_route(old(self)@, path@, MethodFilter::Any),
        ensures
            final(self)@ == old(self)@.push(Route { method: MethodFilter::Any, path, callback }),
    {
        self.route(path, MethodFilter::Any, callback)
    }
}


/// On the embeddable router, a route for `method` can join `path` exactly
/// when the path starts with `/`, the route is for one named method, and
/// every route already on that path is for another named method. So routes
/// for different named methods (such as `GET` and `HEAD`) share a path, while
/// a route for every method shares it with no other route.
pub proof fn lemma_embeddable_route_admission(
    routes: Seq<Route>,
    path: Seq<char>,
    method: MethodFilter,
)
    ensures
        can_route(routes, path, method) <==> (path.len() > 0 && path[0] == '/' && forall|i: int|
            0 <= i < routes.len() && (#[trigger] routes[i]).path@ == path ==> routes[i].method
                != method && routes[i].method != MethodFilter::Any && method != MethodFilter::Any),
{
}

/// Adding a route for a named method to a path keeps every other named
/// method free on that path.
pub proof fn lemma_named_methods_share_a_path(
    routes: Seq<Route>,
    path: Seq<char>,
    first: MethodFilter,
    second: MethodFilter,
    callback: usize,
    route_path: String,
)
    requires
        route_path@ == path,
        can_route(routes, path, first),
        can_route(routes, path, second),
        first != second,
        first != MethodFilter::Any,
        second != MethodFilter::Any,
    ensures
        can_route(routes.push(Route { method: first, path: route_path, callback }), path, second),
{
    let next = routes.push(Route { method: first, path: route_path, callback });
    assert forall|i: int| 0 <= i < next.len() && (#[trigger] next[i]).path@ == path implies !filters_overlap(
        next[i].method,
        second,
    ) by {
        if i < routes.len() {
            assert(next[i] == routes[i]);
        }
    }
}

} // verus!
