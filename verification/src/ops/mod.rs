//! Validated, immutable arguments, one type per operation.
//!
//! Arguments that address a single object refuse a path that ends with `/`;
//! only `stat` and `list` accept one, since they also address directories.

pub mod op_delete;
pub mod op_multipart;
pub mod op_object;

pub use crate::ops::op_delete::OpDelete;
pub use crate::ops::op_multipart::ObjectPart;
pub use crate::ops::op_multipart::OpAbortMultipart;
pub use crate::ops::op_multipart::OpCompleteMultipart;
pub use crate::ops::op_multipart::OpCreateMultipart;
pub use crate::ops::op_multipart::OpWriteMultipart;
pub use crate::ops::op_object::OpCreate;
pub use crate::ops::op_object::OpList;
pub use crate::ops::op_object::OpPresign;
pub use crate::ops::op_object::OpRead;
pub use crate::ops::op_object::OpStat;
pub use crate::ops::op_object::OpWrite;
