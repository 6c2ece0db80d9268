//! Private voice channels on demand: the wire codecs of a voice server's two
//! control transports, and the reconciliation engine that gives every user who
//! waits in a lobby a channel of their own.

pub mod config;
pub mod engine;
pub mod engine_laws;
pub mod entities;
pub mod escape;
pub mod http;
pub mod http_request;
pub mod json;
pub mod line_request;
pub mod line_response;
pub mod record;
pub mod status;
pub mod text;
