//! Structured reference string bookkeeping.
//!
//! The commitment scheme underneath the engine needs a reference string: a
//! run of G1 points sized to the circuit's subgroup demand, and one fixed
//! G2 point set. Where the points come from (a network fetch, a file) is the
//! application's business; this module holds them once obtained, keeps the
//! declared point count consistent with the data supplied, and frames both
//! point sets for the engine's one-time global initialization call. That
//! call must happen exactly once, before any composer touches keys;
//! re-initializing while composers are live is a documented caller error,
//! coordinated outside this layer.

use vstd::prelude::*;

use crate::buffer::{encode, encode_spec};
use crate::errors::BackendError;

verus! {

/// Serialized size of one G1 point.
pub const G1_POINT_BYTES: u64 = 64;

/// Serialized size of the fixed G2 point set.
pub const G2_DATA_BYTES: u64 = 128;

/// A reference string: `num_points` G1 points and the fixed G2 set, held
/// immutably once constructed.
#[derive(Debug)]
pub struct Srs {
    pub g1_data: Vec<u8>,
    pub num_points: u32,
    pub g2_data: Vec<u8>,
}

impl Srs {
    /// The declared point count matches the data supplied: exactly
    /// `num_points` serialized G1 points, and a G2 set of its fixed size.
    pub open spec fn wf(&self) -> bool {
        &&& self.g1_data@.len() == self.num_points * G1_POINT_BYTES
        &&& self.g2_data@.len() == G2_DATA_BYTES
    }

    /// Accepts supplied point data only when it carries exactly
    /// `num_points` G1 points and a full G2 set; anything shorter or longer
    /// is malformed, and no partial reference string is ever usable.
    pub fn new(num_points: u32, g1_data: Vec<u8>, g2_data: Vec<u8>) -> (r: Result<
        Srs,
        BackendError,
    >)
        ensures
            match r {
                Ok(srs) => {
                    &&& srs.wf()
                    &&& srs.num_points == num_points
                    &&& srs.g1_data@ == g1_data@
                    &&& srs.g2_data@ == g2_data@
                },
                Err(e) => {
                    &&& e == BackendError::MalformedBuffer
                    &&& !(g1_data@.len() == num_points * G1_POINT_BYTES && g2_data@.len()
                        == G2_DATA_BYTES)
                },
            },
    {
        if g1_data.len() as u64 != (num_points as u64) * G1_POINT_BYTES {
            return Err(BackendError::MalformedBuffer);
        }
        if g2_data.len() as u64 != G2_DATA_BYTES {
            return Err(BackendError::MalformedBuffer);
        }
        Ok(Srs { g1_data, num_points, g2_data })
    }
}

/// Frames both point sets for the engine's one-time global initialization:
/// the G1 run and the G2 set each get their big-endian length word. The
/// application hands the frames, with the point count, to the engine and
/// surfaces whatever diagnostic comes back; a G1 run too long for a 32-bit
/// length word cannot cross the boundary at all.
pub fn srs_init(srs: &Srs) -> (r: Result<(Vec<u8>, Vec<u8>), BackendError>)
    requires
        srs.wf(),
    ensures
        match r {
            Ok(frames) => {
                &&& srs.g1_data@.len() < 0x1_0000_0000
                &&& frames.0@ == encode_spec(srs.g1_data@)
                &&& frames.1@ == encode_spec(srs.g2_data@)
            },
            Err(e) => {
                &&& e == BackendError::MalformedBuffer
                &&& srs.g1_data@.len() >= 0x1_0000_0000
            },
        },
{
    let g1_framed = match encode(srs.g1_data.as_slice()) {
        Ok(v) => v,
        Err(e) => {
            return Err(e);
        },
    };
    let g2_framed = match encode(srs.g2_data.as_slice()) {
        Ok(v) => v,
        Err(e) => {
            return Err(e);
        },
    };
    Ok((g1_framed, g2_framed))
}

} // verus!
