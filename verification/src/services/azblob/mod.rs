//! Azure Storage Blob: a flat namespace of blobs in a container, with `/`
//! as the delimiter that makes directories of it.

pub mod backend;
pub mod dir_stream;

pub use crate::services::azblob::backend::Backend;
pub use crate::services::azblob::backend::Builder;
pub use crate::services::azblob::dir_stream::DirStream;
