//! The SDK's HTTP surface: request and response types and the decisions
//! the routes make.

pub mod types;
pub mod routes;
