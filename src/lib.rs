//! Poll-driven adapter that feeds an incremental frame decompressor from a
//! chunked asynchronous byte source.
//!
//! The library holds the adapter's bookkeeping and decisions; the caller runs
//! the source and the decompression engine and reports their outcomes.

pub mod raw_buffer;

pub use raw_buffer::{RawBuffer, BUFFER_SIZE};
pub mod decoder;

pub use decoder::{Action, AsyncDecoder, DecodeError, SourcePoll, MIN_FRAME_SIZE};
pub mod laws;
