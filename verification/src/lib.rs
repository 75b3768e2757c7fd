//! A verified core for a small users-and-posts web service.
//!
//! The library holds the entity store (two tables, users and posts, with a
//! nullable author link from post to user) and the request handlers that map
//! parsed requests to HTTP statuses and response bodies. The surrounding
//! web server, the JSON wire encoding and the process bootstrap live outside
//! the library and exchange plain values with it.

pub mod laws;
pub mod models;
pub mod routes;
pub mod store;
pub mod text;
