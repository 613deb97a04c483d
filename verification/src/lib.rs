//! A small HTTP service core: two static routes, an explicit route table,
//! and a machine-readable API description rendered as a JSON document.
//!
//! The crate holds the logic only: handlers as pure request-to-response
//! mappings, an exact-match route table, and an API descriptor built once
//! from the same declarations that fill the table, so that the routing
//! surface and the served documentation cannot diverge. Binding a socket
//! and driving an HTTP runtime stay outside.

pub mod descriptor;
pub mod handlers;
pub mod routes;
pub mod schema;
pub mod service;
pub mod text;
