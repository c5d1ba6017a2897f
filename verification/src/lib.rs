//! Verified core of a small item resource service.
//!
//! The library models the service's persisted state as a store of items and
//! proves the request-handling contract over it: creation with validation,
//! listing in descending creation order, point lookup, coalescing partial
//! update, and deletion, together with the error taxonomy that maps each
//! failure to a wire status and a sanitized message, and the observability
//! pipeline plan that gates console and per-severity file sinks.

pub mod errors;
pub mod item;
pub mod logs;
pub mod responder;
pub mod store;
