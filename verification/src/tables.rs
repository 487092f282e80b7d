//! The table decoders, one module per table kind.
//!
//! Every decoder follows the same shape: a bounds check, a version
//! gate, fixed-order field reads, then kind-specific post-validation.

pub mod head;
