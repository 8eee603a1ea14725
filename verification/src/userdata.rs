use vstd::prelude::*;

use crate::route::{copy_routes, path_is_valid, path_starts_with_slash, MethodFilter, Route, RouteError};
use crate::runtime::{get_registry_request_key, registry_request_key};
use crate::text::{ascii_lower, ascii_upper, ascii_uppercase, eq_ignore_ascii_case, to_uppercase, uppercase};
use vstd::utf8::is_ascii_chars;

verus! {

/// The router that the server's Lua script fills through the `dayax` global,
/// with routes registered by method name.
#[derive(Debug)]
pub struct Dayax {
    routes: Vec<Route>,
}

/// Whether a route for `method` on `path` can join `routes`: the path starts
/// with `/` and no route on the same path has the same filter. (A filter for
/// every method is a fallback here, so it only collides with another such
/// filter.)
/// This is the part of axum's route validation that depends on the route
/// table alone. axum's path matcher also refuses (by a panic in the server)
/// a path pattern that conflicts with another registered pattern, such as
/// `/:b` after `/:a`, or a malformed wildcard; that check is left to axum and
/// is not made or stated here.
pub open spec fn can_route(routes: Seq<Route>, path: Seq<char>, method: MethodFilter) -> bool {
    &&& path_is_valid(path)
    &&& forall|i: int|
        0 <= i < routes.len() && (#[trigger] routes[i]).path@ == path ==> routes[i].method
            != method
}

/// Every route has a valid path, and no two routes on one path have the same
/// filter.
pub open spec fn well_routed(routes: Seq<Route>) -> bool {
    &&& forall|i: int| 0 <= i < routes.len() ==> path_is_valid((#[trigger] routes[i]).path@)
    &&& forall|i: int, j: int|
        0 <= i < routes.len() && 0 <= j < routes.len() && i != j && routes[i].path@
            == routes[j].path@ ==> routes[i].method != routes[j].method
}

impl Clone for Dayax {
    /// A router with the same routes.
    fn clone(&self) -> (copy: Dayax)
        ensures
            copy@ == self@,
    {
        proof {
            use_type_invariant(self);
        }
        Dayax { routes: copy_routes(&self.routes) }
    }
}

impl Default for Dayax {
    /// A router without routes.
    fn default() -> (dayax: Dayax)
        ensures
            dayax@ == Seq::<Route>::empty(),
    {
        Dayax::new()
    }
}

impl View for Dayax {
    type V = Seq<Route>;

    closed spec fn view(&self) -> Seq<Route> {
        self.routes@
    }
}

/// The method filter for an upper-case method name: the five named methods
/// get their own filter, and every other name answers every method.
pub open spec fn method_for_name(name: Seq<char>) -> MethodFilter {
    if name == "GET"@ {
        MethodFilter::Get
    } else if name == "POST"@ {
        MethodFilter::Post
    } else if name == "PUT"@ {
        MethodFilter::Put
    } else if name == "PATCH"@ {
        MethodFilter::Patch
    } else if name == "DELETE"@ {
        MethodFilter::Delete
    } else {
        MethodFilter::Any
    }
}

/// The five named methods get their own filters.
pub proof fn lemma_named_methods()
    ensures
        method_for_name("GET"@) == MethodFilter::Get,
        method_for_name("POST"@) == MethodFilter::Post,
        method_for_name("PUT"@) == MethodFilter::Put,
        method_for_name("PATCH"@) == MethodFilter::Patch,
        method_for_name("DELETE"@) == MethodFilter::Delete,
{
    reveal_strlit("GET");
    reveal_strlit("POST");
    reveal_strlit("PUT");
    reveal_strlit("PATCH");
    reveal_strlit("DELETE");
    assert("POST"@.len() != "GET"@.len());
    assert("PUT"@[0] != "GET"@[0]);
    assert("PUT"@.len() != "POST"@.len());
    assert("DELETE"@.len() != "GET"@.len());
    assert("DELETE"@.len() != "POST"@.len());
    assert("DELETE"@.len() != "PUT"@.len());
    assert("DELETE"@.len() != "PATCH"@.len());
    assert("PATCH"@.len() != "GET"@.len());
    assert("PATCH"@.len() != "POST"@.len());
    assert("PATCH"@.len() != "PUT"@.len());
}

/// Chooses the method filter for an upper-case method name.
pub fn method_filter_for(name: &String) -> (filter: MethodFilter)
    ensures
        filter == method_for_name(name@),
{
    if *name == String::from_str("GET") {
        MethodFilter::Get
    } else if *name == String::from_str("POST") {
        MethodFilter::Post
    } else if *name == String::from_str("PUT") {
        MethodFilter::Put
    } else if *name == String::from_str("PATCH") {
        MethodFilter::Patch
    } else if *name == String::from_str("DELETE") {
        MethodFilter::Delete
    } else {
        MethodFilter::Any
    }
}

/// For ASCII method names the case does not matter: two names that are
/// equal up to the case of ASCII letters have the same upper-case form, so
/// `route` gives them the same method filter and the same registry key.
pub proof fn lemma_method_name_case_insensitive(a: Seq<char>, b: Seq<char>)
    requires
        eq_ignore_ascii_case(a, b),
    ensures
        ascii_uppercase(a) == ascii_uppercase(b),
        method_for_name(ascii_uppercase(a)) == method_for_name(ascii_uppercase(b)),
{
    assert forall|i: int| 0 <= i < a.len() implies ascii_upper(a[i]) == ascii_upper(b[i]) by {
        assert(ascii_lower(a[i]) == ascii_lower(b[i]));
    }
    assert(ascii_uppercase(a) =~= ascii_uppercase(b));
}

/// Upper-casing an ASCII method name twice gives what upper-casing it once
/// gives: a name and its upper-case form select the same route.
pub proof fn lemma_uppercase_idempotent(name: Seq<char>)
    requires
        is_ascii_chars(name),
    ensures
        is_ascii_chars(ascii_uppercase(name)),
        ascii_uppercase(ascii_uppercase(name)) == ascii_uppercase(name),
        method_for_name(ascii_uppercase(ascii_uppercase(name))) == method_for_name(
            ascii_uppercase(name),
        ),
{
    assert(ascii_uppercase(ascii_uppercase(name)) =~= ascii_uppercase(name));
}

impl Dayax {
    #[verifier::type_invariant]
    closed spec fn routes_well_routed(self) -> bool {
        well_routed(self.routes@)
    }

    /// A router without routes.
    pub fn new() -> (dayax: Dayax)
        ensures
            dayax@ == Seq::<Route>::empty(),
    {
        Dayax { routes: Vec::new() }
    }

    /// The registered routes, oldest first; no two on one path have the same
    /// filter.
    pub fn routes(&self) -> (routes: &Vec<Route>)
        ensures
            routes@ == self@,
            well_routed(self@),
    {
        proof {
            use_type_invariant(self);
        }
        &self.routes
    }

    /// Whether the route table admits a route for `method` on `path`: the
    /// path starts with `/` and no route on it collides with `method`.
    /// Pattern conflicts between different paths are left to axum.
    pub fn check_route(&self, path: &String, method: MethodFilter) -> (checked: Result<(), RouteError>)
        ensures
            match checked {
                Ok(()) => can_route(self@, path@, method),
                Err(RouteError::InvalidPath) => !path_is_valid(path@),
                Err(RouteError::OverlappingMethod) => path_is_valid(path@) && !can_route(
                    self@,
                    path@,
                    method,
                ),
            },
    {
        if !path_starts_with_slash(path.as_str()) {
            return Err(RouteError::InvalidPath);
        }
        let n = self.routes.len();
        let mut i: usize = 0;
        while i < n
            invariant
                n == self.routes@.len(),
                i <= n,
                path_is_valid(path@),
                forall|j: int|
                    0 <= j < i && (#[trigger] self.routes@[j]).path@ == path@ ==> self.routes@[j].method
                        != method,
            decreases n - i,
        {
            if self.routes[i].path == *path && self.routes[i].method == method {
                assert(!can_route(self@, path@, method));
                return Err(RouteError::OverlappingMethod);
            }
            i = i + 1;
        }
        Ok(())
    }

    /// Registers the callback numbered `callback` on `path` for the method
    /// named `upper`, already in upper case, and returns the callback's
    /// registry key.
    fn route_upper(&mut self, upper: String, path: String, callback: usize) -> (key: String)
        requires
            can_route(old(self)@, path@, method_for_name(upper@)),
        ensures
            key@ == registry_request_key(upper@, path@),
            final(self)@ == old(self)@.push(
                Route { method: method_for_name(upper@), path, callback },
            ),
    {
        proof {
            use_type_invariant(&*self);
        }
        let key = get_registry_request_key(upper.as_str(), path.as_str());
        let method = method_filter_for(&upper);
        let ghost before = self.routes@;
        let mut routes: Vec<Route> = Vec::new();
        std::mem::swap(&mut routes, &mut self.routes);
        routes.push(Route { method, path, callback });
        assert(well_routed(routes@)) by {
            assert forall|i: int, j: int|
                0 <= i < routes@.len() && 0 <= j < routes@.len() && i != j && routes@[i].path@
                    == routes@[j].path@ implies routes@[i].method != routes@[j].method by {
                if i < before.len() && j < before.len() {
                    assert(routes@[i] == before[i] && routes@[j] == before[j]);
                } else if i < before.len() {
                    assert(routes@[i] == before[i]);
                } else {
                    assert(routes@[j] == before[j]);
                }
            }
            assert forall|i: int| 0 <= i < routes@.len() implies path_is_valid(
                (#[trigger] routes@[i]).path@,
            ) by {
                if i < before.len() {
                    assert(routes@[i] == before[i]);
                }
            }
        }
        self.routes = routes;
        key
    }

    /// Registers the callback numbered `callback` on `path` for the method
    /// named `method` in any case, and returns the callback's registry key
    /// (`DAYAX+request+<METHOD>+<path>`).
    pub fn route(&mut self, method: &str, path: String, callback: usize) -> (key: String)
        requires
            can_route(old(self)@, path@, method_for_name(uppercase(method@))),
        ensures
            key@ == registry_request_key(uppercase(method@), path@),
            final(self)@ == old(self)@.push(
                Route { method: method_for_name(uppercase(method@)), path, callback },
            ),
            is_ascii_chars(method@) ==> uppercase(method@) == ascii_uppercase(method@),
    {
        let upper = to_uppercase(method);
        self.route_upper(upper, path, callback)
    }

    /// Registers the callback as `route` does where the route table admits it,
    /// and otherwise leaves the router unchanged and says why.
    pub fn try_route(&mut self, method: &str, path: String, callback: usize) -> (added: Result<
        String,
        RouteError,
    >)
        ensures
            match added {
                Ok(key) => can_route(old(self)@, path@, method_for_name(uppercase(method@)))
                    && key@ == registry_request_key(uppercase(method@), path@) && final(self)@
                    == old(self)@.push(
                    Route { method: method_for_name(uppercase(method@)), path, callback },
                ),
                Err(RouteError::InvalidPath) => !path_is_valid(path@) && final(self)@ == old(
                    self,
                )@,
                Err(RouteError::OverlappingMethod) => path_is_valid(path@) && !can_route(
                    old(self)@,
                    path@,
                    method_for_name(uppercase(method@)),
                ) && final(self)@ == old(self)@,
            },
            is_ascii_chars(method@) ==> uppercase(method@) == ascii_uppercase(method@),
    {
        let upper = to_uppercase(method);
        let filter = method_filter_for(&upper);
        match self.check_route(&path, filter) {
            Ok(()) => Ok(self.route(method, path, callback)),
            Err(e) => Err(e),
        }
    }

    /// Registers a handler for `GET` requests on `path`.
    pub fn get(&mut self, path: String, callback: usize) -> (key: String)
        requires
            can_route(old(self)@, path@, MethodFilter::Get),
        ensures
            key@ == registry_request_key("GET"@, path@),
            final(self)@ == old(self)@.push(Route { method: MethodFilter::Get, path, callback }),
    {
        proof {
            lemma_named_methods();
        }
        self.route_upper(String::from_str("GET"), path, callback)
    }

    /// Registers a handler for `POST` requests on `path`.
    pub fn post(&mut self, path: String, callback: usize) -> (key: String)
        requires
            can_route(old(self)@, path@, MethodFilter::Post),
        ensures
            key@ == registry_request_key("POST"@, path@),
            final(self)@ == old(self)@.push(Route { method: MethodFilter::Post, path, callback }),
    {
        proof {
            lemma_named_methods();
        }
        self.route_upper(String::from_str("POST"), path, callback)
    }

    /// Registers a handler for `PUT` requests on `path`.
    pub fn put(&mut self, path: String, callback: usize) -> (key: String)
        requires
            can_route(old(self)@, path@, MethodFilter::Put),
        ensures
            key@ == registry_request_key("PUT"@, path@),
            final(self)@ == old(self)@.push(Route { method: MethodFilter::Put, path, callback }),
    {
        proof {
            lemma_named_methods();
        }
        self.route_upper(String::from_str("PUT"), path, callback)
    }

    /// Registers a handler for `PATCH` requests on `path`.
    pub fn patch(&mut self, path: String, callback: usize) -> (key: String)
        requires
            can_route(old(self)@, path@, MethodFilter::Patch),
        ensures
            key@ == registry_request_key("PATCH"@, path@),
            final(self)@ == old(self)@.push(Route { method: MethodFilter::Patch, path, callback }),
    {
        proof {
            lemma_named_methods();
        }
        self.route_upper(String::from_str("PATCH"), path, callback)
    }

    /// Registers a handler for `DELETE` requests on `path`.
    pub fn delete(&mut self, path: String, callback: usize) -> (key: String)
        requires
            can_route(old(self)@, path@, MethodFilter::Delete),
        ensures
            key@ == registry_request_key("DELETE"@, path@),
            final(self)@ == old(self)@.push(
                Route { method: MethodFilter::Delete, path, callback },
            ),
    {
        proof {
            lemma_named_methods();
        }
        self.route_upper(String::from_str("DELETE"), path, callback)
    }
}


/// On the server's router, a route for `method` can join `path` exactly when
/// the path starts with `/` and no route already on that path has the same
/// filter; routes with different filters (a fallback for every method
/// included) share a path.
pub proof fn lemma_server_route_admission(routes: Seq<Route>, path: Seq<char>, method: MethodFilter)
    ensures
        can_route(routes, path, method) <==> (path.len() > 0 && path[0] == '/' && forall|i: int|
            0 <= i < routes.len() && (#[trigger] routes[i]).path@ == path ==> routes[i].method
                != method),
{
}

} // verus!
