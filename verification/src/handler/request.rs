use vstd::prelude::*;

use crate::map::StringMap;

verus! {

/// A request as the server's Lua handlers see it: its method, query
/// parameters, URI and path parameters.
#[derive(Debug)]
pub struct HandlerRequest {
    pub method: String,
    pub search_params: StringMap,
    pub uri: String,
    pub path: StringMap,
}

} // verus!
