//! Backends: the accessors that end a stack of layers.

pub mod azblob;
