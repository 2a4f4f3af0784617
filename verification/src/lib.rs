//! A minimal HTTP/1.1 static-file server core.
//!
//! The library holds the logic of the server: parsing the request line of one
//! connection, sanitizing and resolving the requested path under the served
//! directory, the request state machine, and the construction of the exact
//! response bytes. Sockets, the filesystem, the worker pool and argument
//! handling live outside the library and hand it plain values.

pub mod bytes;
pub mod config;
pub mod handler;
pub mod laws;
pub mod mime;
pub mod parse;
pub mod resolve;
pub mod response;
