//! Connector between a relational host engine and a remote social-timeline
//! service: session/credential state, request construction, response decoding,
//! and the projection of remote statuses into flat row tuples.
//!
//! The network call itself is performed by the surrounding application; this
//! library builds each request, classifies each outcome, decodes the JSON
//! bodies and proves exactly what every step returns.

pub mod client;
pub mod http;
pub mod json;
pub mod resources;
pub mod rows;
pub mod store;
