//! Decision core of a nested-archive decompression engine.
//!
//! An input file name such as `archive.tar.gz` encodes an ordered chain of
//! transforms. This library models that chain, validates it, decides which
//! extraction path applies (seekable, in-memory, streaming, spooled, or
//! single-file), fixes the order of the side-effecting steps that carry the
//! extraction out, and decodes pure compression layers over byte buffers.
//! The surrounding binary performs the file, prompt and archive I/O that the
//! chosen steps call for.

pub mod codec;
pub mod director;
pub mod format;
pub mod plan;
