//! Verified core of a small user-directory HTTP service.
//!
//! The service keeps its users in a SQL table and serves five routes. Everything
//! it decides is decided here: which statement an endpoint runs and with which
//! parameters, how stored rows become users, and which response answers each
//! outcome of the database. Talking to the network and to the database is left
//! to the caller, who hands over plain values and gets plain values back.

pub mod config;
pub mod handlers;
pub mod http;
pub mod json;
pub mod model;
pub mod routes;
pub mod store;
