use dayax::runtime::{get_registry_request_key, GLOBAL_DAYAX, KEY_SEPARATOR, LUA_REGISTRY_PREFIX};

#[test]
fn registry_key_format() {
    assert_eq!(get_registry_request_key("GET", "/users/:id"), "DAYAX+request+GET+/users/:id");
    assert_eq!(get_registry_request_key("", ""), "DAYAX+request++");
}

#[test]
fn registry_keys_differ_for_different_routes() {
    assert_ne!(get_registry_request_key("GET", "/a"), get_registry_request_key("POST", "/a"));
    assert_ne!(get_registry_request_key("GET", "/a"), get_registry_request_key("GET", "/b"));
}

#[test]
fn constants() {
    assert_eq!(GLOBAL_DAYAX, "dayax");
    assert_eq!(LUA_REGISTRY_PREFIX, "DAYAX");
    assert_eq!(KEY_SEPARATOR, "+");
}
