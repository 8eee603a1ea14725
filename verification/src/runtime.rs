use vstd::prelude::*;

verus! {

/// Name of the Lua global that holds the router user data.
pub const GLOBAL_DAYAX: &'static str = "dayax";

/// Prefix of every key that the server stores in the Lua registry.
pub const LUA_REGISTRY_PREFIX: &'static str = "DAYAX";

/// Separator between the parts of a registry key.
pub const KEY_SEPARATOR: &'static str = "+";

/// The registry key of the handler for `method` on `path`:
/// `DAYAX+request+<method>+<path>`.
pub open spec fn registry_request_key(method: Seq<char>, path: Seq<char>) -> Seq<char> {
    seq!['D', 'A', 'Y', 'A', 'X', '+', 'r', 'e', 'q', 'u', 'e', 's', 't', '+'] + method + seq!['+']
        + path
}

/// Builds the Lua registry key under which the handler of `method` on `path` is known.
pub fn get_registry_request_key(method: &str, path: &str) -> (key: String)
    ensures
        key@ == registry_request_key(method@, path@),
{
    let mut key = String::from_str(LUA_REGISTRY_PREFIX);
    key.append(KEY_SEPARATOR);
    key.append("request");
    key.append(KEY_SEPARATOR);
    key.append(method);
    key.append(KEY_SEPARATOR);
    key.append(path);
    proof {
        reveal_strlit("DAYAX");
        reveal_strlit("+");
        reveal_strlit("request");
    }
    assert(key@ =~= registry_request_key(method@, path@));
    key
}

/// Whether `s` holds the separator character `+`.
pub open spec fn has_separator(s: Seq<char>) -> bool {
    exists|i: int| 0 <= i < s.len() && s[i] == '+'
}

/// Distinct handlers get distinct registry keys: two keys are equal only when
/// they were built from the same method and the same path, provided that the
/// method names hold no separator.
pub proof fn lemma_registry_key_injective(
    method1: Seq<char>,
    path1: Seq<char>,
    method2: Seq<char>,
    path2: Seq<char>,
)
    requires
        !has_separator(method1),
        !has_separator(method2),
        registry_request_key(method1, path1) == registry_request_key(method2, path2),
    ensures
        method1 == method2,
        path1 == path2,
{
    let k1 = registry_request_key(method1, path1);
    let k2 = registry_request_key(method2, path2);
    let n1 = method1.len() as int;
    let n2 = method2.len() as int;
    if n1 < n2 {
        assert(k1[14 + n1] == '+');
        assert(k2[14 + n1] == method2[n1]);
        assert(false);
    } else if n2 < n1 {
        assert(k2[14 + n2] == '+');
        assert(k1[14 + n2] == method1[n2]);
        assert(false);
    }
    assert(method1 =~= k1.subrange(14, 14 + n1));
    assert(method2 =~= k2.subrange(14, 14 + n2));
    assert(path1 =~= k1.subrange(15 + n1, k1.len() as int));
    assert(path2 =~= k2.subrange(15 + n2, k2.len() as int));
}

} // verus!
