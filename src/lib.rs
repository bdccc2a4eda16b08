//! Incremental decoding of newline-delimited JSON (NDJSON) that arrives in chunks of arbitrary
//! size and alignment.
//!
//! The [engine::NdjsonEngine] splits the incoming bytes into lines, applies the configured
//! empty-line policy and decodes every remaining line. The drivers in [driver] hold the
//! decisions of a pull-based and a poll-based adapter around the engine.

mod json;
pub mod lines;
pub mod text;

pub mod bytes;
pub mod config;
pub mod driver;
pub mod engine;
pub mod fallible;

pub use crate::driver::iter::{
    from_fallible_iter, from_fallible_iter_with_config, from_iter, from_iter_with_config,
};
pub use crate::driver::streams::{
    from_fallible_stream, from_fallible_stream_with_config, from_stream, from_stream_with_config,
};
