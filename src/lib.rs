//! A small HTTP/1.1 message layer: request parsing, response building and
//! serialisation, and request routing, with their contracts proved.

pub mod text;
pub mod headers;
pub mod request;
pub mod response;
pub mod handlers;
pub mod router;
