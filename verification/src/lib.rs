//! Decoding of fixed-layout, big-endian font tables.
//!
//! A raw byte buffer plus an offset is turned into a typed, validated
//! table record: the leading version field is checked first, the
//! remaining fields are read in fixed declaration order, and any field
//! whose value space is narrower than its storage width is validated
//! afterwards. All failures are reported through one shared, flat
//! error taxonomy.

pub mod codec;
pub mod error;
pub mod tables;
pub mod types;

pub use error::Error;
