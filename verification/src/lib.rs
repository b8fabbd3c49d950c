//! A verified request-dispatch core for a small HTTP server.
//!
//! The crate models routes as ordered tables of path patterns with method
//! guards, resolves a request (path and method) to the first matching route,
//! invokes a closed set of handler shapes (buffered or streamed bodies,
//! redirects, file-backed responses, static mounts), and falls back to a
//! configured "not found" or "method not allowed" response when nothing
//! matches. All decisions are made on plain byte strings; the surrounding
//! transport (sockets, files) hands values in and takes values out.

pub mod config;
pub mod guard;
pub mod handler;
pub mod names;
pub mod pattern;
pub mod response;
pub mod server;
pub mod table;
pub mod text;
pub mod wire;
