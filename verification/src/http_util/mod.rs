//! What backends that speak HTTP share: requests as plain values, the
//! encoding of paths and numbers, header parsing, and the mapping from
//! responses to errors.

pub mod date;
pub mod encode;
pub mod error;
pub mod header;
pub mod number;
pub mod request;
