//! Circuit sizing and the reference-string sizing rule.
//!
//! The engine reports circuit sizes as big-endian 32-bit counts whatever the
//! host's byte order is. This module normalizes those counts from their wire
//! bytes, so the result is pinned to the big-endian reading regardless of
//! architecture, and derives from a circuit's total gate count the subgroup
//! size (the smallest power of two covering it) and the number of
//! reference-string points that size demands.

use vstd::prelude::*;

use crate::buffer::be_u32;

verus! {

/// The sizes the engine reports for one constraint system.
#[derive(Clone, Copy, Debug, PartialEq, Eq, Structural)]
pub struct CircuitSizes {
    pub exact: u32,
    pub total: u32,
    pub subgroup: u32,
}

/// Reads four bytes as one big-endian 32-bit count.
pub fn u32_from_be_bytes(b: &[u8; 4]) -> (r: u32)
    ensures
        r == be_u32(b@[0], b@[1], b@[2], b@[3]),
{
    (b[0] as u32) * 0x100_0000 + (b[1] as u32) * 0x1_0000 + (b[2] as u32) * 0x100 + (b[3] as u32)
}

/// Normalizes the engine's sizing reply. Each count arrives as the four
/// bytes the engine wrote, and is read in big-endian order whatever the
/// host's own byte order is. The sizes are returned as written — an all-zero
/// reply is handed back as zeros, to be judged against the accompanying
/// diagnostic — and the diagnostic is surfaced unchanged beside them.
pub fn get_circuit_sizes(
    exact_be: &[u8; 4],
    total_be: &[u8; 4],
    subgroup_be: &[u8; 4],
    diagnostic: Option<String>,
) -> (r: (CircuitSizes, Option<String>))
    ensures
        r.0.exact == be_u32(exact_be@[0], exact_be@[1], exact_be@[2], exact_be@[3]),
        r.0.total == be_u32(total_be@[0], total_be@[1], total_be@[2], total_be@[3]),
        r.0.subgroup == be_u32(subgroup_be@[0], subgroup_be@[1], subgroup_be@[2], subgroup_be@[3]),
        r.1 == diagnostic,
{
    let sizes = CircuitSizes {
        exact: u32_from_be_bytes(exact_be),
        total: u32_from_be_bytes(total_be),
        subgroup: u32_from_be_bytes(subgroup_be),
    };
    (sizes, diagnostic)
}

/// Whether a count is a power of two.
pub open spec fn is_pow2(n: nat) -> bool
    decreases n,
{
    if n == 0 {
        false
    } else if n == 1 {
        true
    } else {
        n % 2 == 0 && is_pow2(n / 2)
    }
}

/// Among powers of two, one below twice another is no larger than it.
pub proof fn lemma_pow2_least(a: nat, b: nat)
    requires
        is_pow2(a),
        is_pow2(b),
        a < 2 * b,
    ensures
        a <= b,
    decreases a,
{
    if a >= 2 {
        assert(b >= 2) by {
            if b == 1 {
                assert(a < 2);
            }
        }
        assert(is_pow2(a / 2) && is_pow2(b / 2));
        assert(a / 2 < 2 * (b / 2));
        lemma_pow2_least(a / 2, b / 2);
    }
}

/// The smallest power of two at least `total`: the subgroup size the
/// underlying arithmetic scheme needs for a circuit of that many gates.
/// Totals above the largest 32-bit power of two have no such size in range.
pub fn subgroup_size_for(total: u32) -> (r: u32)
    requires
        total <= 0x8000_0000,
    ensures
        is_pow2(r as nat),
        r >= total,
        total <= 1 ==> r == 1,
        total >= 1 ==> r < 2 * total,
{
    let mut p: u32 = 1;
    while p < total
        invariant
            total <= 0x8000_0000,
            1 <= p,
            is_pow2(p as nat),
            total <= 1 ==> p == 1,
            total >= 1 ==> p < 2 * total,
        decreases 2 * total - p,
    {
        assert(is_pow2((2 * p) as nat)) by {
            assert((2 * p) as nat % 2 == 0 && (2 * p) as nat / 2 == p as nat);
        }
        p = p * 2;
    }
    p
}

/// Every power of two covering `total` is at least the subgroup size: with
/// `lemma_pow2_least`, the bounds of `subgroup_size_for` pin it as the
/// least cover.
pub proof fn lemma_subgroup_minimal(total: u32, r: u32, other: nat)
    requires
        total >= 1,
        is_pow2(r as nat),
        r < 2 * total,
        is_pow2(other),
        other >= total,
    ensures
        r <= other,
{
    lemma_pow2_least(r as nat, other);
}

/// The number of reference-string points a circuit of `total` gates needs:
/// its subgroup size, plus one safety point.
pub fn srs_points_for(total: u32) -> (r: u32)
    requires
        total <= 0x8000_0000,
    ensures
        r >= 2,
        is_pow2((r - 1) as nat),
        r - 1 >= total,
        total <= 1 ==> r == 2,
        total >= 1 ==> r - 1 < 2 * total,
{
    subgroup_size_for(total) + 1
}

} // verus!
