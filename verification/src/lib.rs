//! Client-side request construction for a headless wallet service.
//!
//! The crate models the values that may appear in an outgoing JSON body,
//! renders them as JSON text, builds the URL, query string, headers and body
//! of every command the client can issue, and reconciles the results of the
//! two-step token-discovery operation.  Sending the requests and printing the
//! responses is left to the surrounding binary.

pub mod commands;
pub mod data;
pub mod json;
pub mod params;
pub mod request;
pub mod text;
pub mod tokens;
pub mod url;
pub mod value;
