//! Verified core of a small analytics API service.
//!
//! The service exposes four read-only routes that return fixed JSON
//! documents describing liquidity positions, a portfolio summary, a
//! seven-day analytics series and a health status. Everything that
//! decides or computes lives here: the data records, the JSON encoder
//! and the route-to-response mapping, each with a contract that pins
//! the result down exactly. The surrounding HTTP server only moves
//! bytes produced by this crate.

pub mod json;
pub mod model;
pub mod routes;
pub mod text;
