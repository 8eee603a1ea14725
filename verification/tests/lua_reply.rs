use dayax::handler::{lua_reply, LuaReply, LuaReturn};

#[test]
fn nil_gives_default_response() {
    assert_eq!(lua_reply(Some(LuaReturn::Nil)), LuaReply::Default);
}

#[test]
fn utf8_string_is_sent_as_text() {
    let reply = lua_reply(Some(LuaReturn::String("héllo".as_bytes().to_vec())));
    assert_eq!(reply, LuaReply::Text("héllo".to_string()));
}

#[test]
fn invalid_utf8_string_is_an_error() {
    let reply = lua_reply(Some(LuaReturn::String(vec![0xff, 0xfe])));
    assert_eq!(reply, LuaReply::InternalServerError);
}

#[test]
fn table_is_sent_as_json() {
    assert_eq!(lua_reply(Some(LuaReturn::Table)), LuaReply::Table);
}

#[test]
fn other_types_and_failures_are_errors() {
    assert_eq!(lua_reply(Some(LuaReturn::Other)), LuaReply::InternalServerError);
    assert_eq!(lua_reply(None), LuaReply::InternalServerError);
}
