//! A library that rewrites Parquet files with dictionary encoding enabled.
//!
//! The rewriter decodes a Parquet file held in memory into its record
//! batches, refuses an input that holds no data, and re-encodes every batch
//! in its original order through a writer configured with dictionary
//! encoding and the baseline format version. The decoding and encoding
//! themselves are done by the `parquet` and `arrow` crates; this crate
//! states and verifies what the rewrite does: on which inputs it succeeds,
//! which error each other input gets, and that a successful output keeps
//! the schema and the rows of the input, in order, with dictionary
//! encoding and the baseline format version recorded.

pub mod codec;
pub mod config;
pub mod error;
pub mod rewrite;
