//! A uniform object-storage interface: validated operation arguments, a
//! capability-typed accessor description, a retry layer driven by a backoff
//! schedule, and the request/response rules of an HTTP blob backend.

pub mod accessor;
pub mod error;
pub mod http_util;
pub mod layers;
pub mod object;
pub mod ops;
pub mod path;
pub mod services;
pub mod text;
