//! Core data and control abstractions of a payment switch: the flow-typed
//! router envelope, the connector authentication model, error normalization,
//! secret masking for diagnostics, and the idempotent persistence contract
//! for connector responses.

pub mod auth;
pub mod connector;
pub mod enums;
pub mod errors;
pub mod flows;
pub mod masking;
pub mod payments;
pub mod storage;
pub mod transport;
pub mod types;

pub use errors::ErrorResponse;
