//! Layers: transformations that wrap an inner accessor and yield an outer
//! one with the same interface.
//!
//! - [`RetryLayer`]: repeats retryable operations that fail with a
//!   retryable error, as a backoff schedule says.

pub mod backoff;
pub mod layer;
pub mod retry;

pub use crate::layers::layer::Layer;
pub use crate::layers::retry::RetryLayer;
