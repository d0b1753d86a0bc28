//! Host-side orchestration for a zero-knowledge proof backend.
//!
//! The crate owns the pieces of the proving workflow that carry real
//! invariants: the length-prefixed buffer codec used at every boundary with
//! the proving engine, the normalization of engine-reported circuit sizes,
//! the structured-reference-string bookkeeping, and the composer lifecycle
//! state machine. The engine itself is an opaque external capability; every
//! reply it produces enters this crate as plain values, and the crate's
//! functions state exactly how those values are classified and surfaced.

pub mod buffer;
pub mod composer;
pub mod errors;
pub mod sizing;
pub mod srs;
