pub mod request;

pub use request::HandlerRequest;

use vstd::prelude::*;
use vstd::utf8::{decode_utf8, valid_utf8};

use crate::response::{response_action, response_sendable, DayaxResponse, ResponseAction};
use crate::text::utf8_text;

verus! {

/// How the call of a route's Lua callback ended.
#[derive(Debug, PartialEq)]
pub enum CallbackResult {
    /// The callback returned nothing (`nil`).
    Nothing,
    /// The callback returned a value that reads as a response.
    Returned(DayaxResponse),
    /// The callback could not be found or called, failed, or returned a
    /// value that does not read as a response.
    Failed,
}

/// The response to a request whose callback ended so: the default response
/// when it returned nothing, the response it returned, and an internal server
/// error when it failed.
pub open spec fn callback_action(result: CallbackResult) -> ResponseAction {
    match result {
        CallbackResult::Nothing => ResponseAction::Default,
        CallbackResult::Returned(r) => response_action(r),
        CallbackResult::Failed => ResponseAction::InternalServerError,
    }
}

/// Chooses the response to a request from the way its callback ended.
pub fn callback_response(result: CallbackResult) -> (action: ResponseAction)
    requires
        result matches CallbackResult::Returned(r) ==> response_sendable(r),
    ensures
        action == callback_action(result),
{
    match result {
        CallbackResult::Nothing => ResponseAction::Default,
        CallbackResult::Returned(r) => r.into_response(),
        CallbackResult::Failed => ResponseAction::InternalServerError,
    }
}

/// Chooses the response to a request whose registry callback was run with the
/// request as argument: its JSON result as the body, or an internal server
/// error where the callback could not be run or its result not read as JSON.
pub fn registry_callback_response(result: Option<serde_json::Value>) -> (action: ResponseAction)
    ensures
        action == match result {
            Some(v) => ResponseAction::Json(v),
            None => ResponseAction::InternalServerError,
        },
{
    match result {
        Some(v) => ResponseAction::Json(v),
        None => ResponseAction::InternalServerError,
    }
}

/// What a route's Lua handler returned, as far as the response depends on it.
#[derive(Debug, Clone, PartialEq, Eq)]
pub enum LuaReturn {
    Nil,
    /// A Lua string, with its raw bytes.
    String(Vec<u8>),
    Table,
    /// A value of any other Lua type.
    Other,
}

/// The response to a request handled by a Lua function.
#[derive(Debug, Clone, PartialEq, Eq)]
pub enum LuaReply {
    /// The default response: `200 OK` with an empty body.
    Default,
    /// `200 OK` with the text as a `text/plain` body.
    Text(String),
    /// `200 OK` with the returned table as a JSON body.
    Table,
    /// `500 Internal Server Error` with the text `Internal Server Error`.
    InternalServerError,
}

/// Whether `reply` answers a handler's return value (`None` where the
/// handler could not be found or called, or failed): the default response
/// for `nil`, the text of a string that is valid UTF-8, the table as JSON, and
/// an internal server error for a string that is not UTF-8, for a value of
/// another type, and for a failure.
pub open spec fn lua_reply_for(returned: Option<LuaReturn>, reply: LuaReply) -> bool {
    match returned {
        None => reply is InternalServerError,
        Some(LuaReturn::Nil) => reply is Default,
        Some(LuaReturn::String(bytes)) => if valid_utf8(bytes@) {
            reply matches LuaReply::Text(t) && t@ == decode_utf8(bytes@)
        } else {
            reply is InternalServerError
        },
        Some(LuaReturn::Table) => reply is Table,
        Some(LuaReturn::Other) => reply is InternalServerError,
    }
}

/// Chooses the reply to a request from what its Lua handler returned.
pub fn lua_reply(returned: Option<LuaReturn>) -> (reply: LuaReply)
    ensures
        lua_reply_for(returned, reply),
{
    match returned {
        None => LuaReply::InternalServerError,
        Some(LuaReturn::Nil) => LuaReply::Default,
        Some(LuaReturn::String(bytes)) => match utf8_text(bytes.as_slice()) {
            Some(t) => LuaReply::Text(t),
            None => LuaReply::InternalServerError,
        },
        Some(LuaReturn::Table) => LuaReply::Table,
        Some(LuaReturn::Other) => LuaReply::InternalServerError,
    }
}


/// The response follows how the callback ended: nothing returned gives the
/// default response, a failure gives an internal server error, and a
/// returned plain text is sent as exactly that text.
pub proof fn lemma_callback_outcomes(text: String)
    ensures
        callback_action(CallbackResult::Nothing) == ResponseAction::Default,
        callback_action(CallbackResult::Failed) == ResponseAction::InternalServerError,
        callback_action(CallbackResult::Returned(DayaxResponse::Plain(text)))
            == ResponseAction::Text(text),
{
}

} // verus!
