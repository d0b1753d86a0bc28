//! Error taxonomy and the dual-signal call outcome.
//!
//! Every engine call yields two independent signals: a primary
//! success/failure discriminant (did the call produce the expected output?)
//! and an optional diagnostic string (did the engine report anything?). The
//! two are never collapsed into one another: a call may succeed while the
//! engine still emits a diagnostic, and a failed call may come without one.

use vstd::prelude::*;

verus! {

/// The failures this layer distinguishes.
#[derive(Clone, Copy, Debug, PartialEq, Eq, Structural)]
pub enum BackendError {
    /// A creation call returned no handle.
    CreationFailed,
    /// A length-prefixed buffer could not be decoded: the source held fewer
    /// than four header bytes, or fewer payload bytes than the header
    /// declared, or a payload too long to frame in a 32-bit length field.
    MalformedBuffer,
    /// The proving call returned no output.
    ProofGenerationFailed,
    /// A serialization call returned no output.
    SerializationFailed,
    /// An operation that needs the verification key ran before one was
    /// installed or derived.
    VerificationKeyMissing,
}

/// The result of one engine call, keeping the primary discriminant and the
/// engine's advisory diagnostic apart.
///
/// `result` is decided solely by the shape of the engine's primary output;
/// `diagnostic` carries whatever advisory string accompanied the call, and
/// is surfaced whether or not the call succeeded.
pub struct Outcome<T> {
    pub result: Result<T, BackendError>,
    pub diagnostic: Option<String>,
}

} // verus!
