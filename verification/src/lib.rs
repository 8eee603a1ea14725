//! Route registration, request shaping and response selection for a
//! scriptable web server whose handlers are Lua functions.

pub mod runtime;
pub mod text;
pub mod json;
pub mod media;
pub mod map;
pub mod request;
pub mod response;
pub mod route;
pub mod dayax;
pub mod userdata;
pub mod handler;

pub use dayax::Dayax;
