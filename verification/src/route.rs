use vstd::prelude::*;

verus! {

/// The request methods that a route answers.
#[derive(Clone, Copy, Debug, PartialEq, Eq, Structural)]
pub enum MethodFilter {
    Get,
    Head,
    Post,
    Put,
    Patch,
    Delete,
    /// Every method.
    Any,
}

/// One registered route: the requests with a method that `method` admits on
/// `path` go to the Lua callback numbered `callback`.
#[derive(Debug, Clone, PartialEq, Eq)]
pub struct Route {
    pub method: MethodFilter,
    pub path: String,
    pub callback: usize,
}

/// Why a route cannot be added to a router.
#[derive(Clone, Copy, Debug, PartialEq, Eq, Structural)]
pub enum RouteError {
    /// The path does not start with `/`.
    InvalidPath,
    /// A route on the same path already handles one of the route's methods.
    OverlappingMethod,
}

/// A path that the router accepts: one that starts with `/`.
pub open spec fn path_is_valid(path: Seq<char>) -> bool {
    path.len() > 0 && path[0] == '/'
}

/// Whether `path` starts with `/`.
pub fn path_starts_with_slash(path: &str) -> (valid: bool)
    ensures
        valid == path_is_valid(path@),
{
    if path.is_empty() {
        false
    } else {
        path.get_char(0) == '/'
    }
}

/// Copies a list of routes field by field.
pub(crate) fn copy_routes(routes: &Vec<Route>) -> (copy: Vec<Route>)
    ensures
        copy@ == routes@,
{
    let mut copy: Vec<Route> = Vec::new();
    let n = routes.len();
    let mut i: usize = 0;
    while i < n
        invariant
            n == routes@.len(),
            i <= n,
            copy@ == routes@.take(i as int),
        decreases n - i,
    {
        let r = &routes[i];
        copy.push(Route { method: r.method, path: r.path.clone(), callback: r.callback });
        assert(copy@ =~= routes@.take(i + 1));
        i = i + 1;
    }
    assert(routes@.take(n as int) =~= routes@);
    copy
}


/// A path is accepted exactly when it is non-empty and starts with `/`:
/// whatever follows the leading `/` (a trailing `/` included), and no path
/// without it.
pub proof fn lemma_path_validity(path: Seq<char>, rest: Seq<char>, c: char)
    ensures
        path_is_valid(path) <==> (path.len() > 0 && path[0] == '/'),
        path_is_valid(seq!['/'] + rest),
        c != '/' ==> !path_is_valid(seq![c] + rest),
        !path_is_valid(Seq::<char>::empty()),
{
    assert((seq!['/'] + rest)[0] == '/');
    assert((seq![c] + rest)[0] == c);
}

} // verus!
