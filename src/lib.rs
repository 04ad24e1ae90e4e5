//! A pluggable compression codec with a gzip implementation.
//!
//! A codec compresses what a producer writes into a fresh buffer and appends
//! the result to a caller's target buffer; it decompresses a caller's source
//! buffer into a fresh buffer and hands that to a consumer.

pub mod buffers;
pub mod error;
pub mod gzip;
