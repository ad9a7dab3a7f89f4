//! An in-memory customer collection with create/read/update/delete
//! operations, the request handlers built on it, and the routing rules
//! that map an HTTP method and path to one of those handlers.

pub mod handlers;
pub mod models;
pub mod routes;
pub mod store;
