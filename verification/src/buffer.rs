//! Length-prefixed buffer codec.
//!
//! Every value crossing the boundary to or from the proving engine travels
//! as `[4-byte big-endian length][payload]`. Encoding prepends the length
//! word; decoding reads exactly four header bytes and exactly the declared
//! number of payload bytes, and rejects anything shorter. Some engine
//! replies are wrapped more than once; each call site states how many
//! decode passes its reply needs, and `decode_layers` peels exactly that
//! many.

use vstd::prelude::*;

use crate::errors::BackendError;

verus! {

/// The count held by four bytes read in big-endian order.
pub open spec fn be_u32(b0: u8, b1: u8, b2: u8, b3: u8) -> nat {
    (b0 * 0x100_0000 + b1 * 0x1_0000 + b2 * 0x100 + b3) as nat
}

/// The four big-endian bytes of a 32-bit count, most significant first.
pub open spec fn be_bytes_of(n: u32) -> Seq<u8> {
    seq![(n >> 24) as u8, (n >> 16) as u8, (n >> 8) as u8, n as u8]
}

/// Reading back the four big-endian bytes of a count yields the count.
pub proof fn lemma_be_bytes_roundtrip(n: u32)
    ensures
        be_u32((n >> 24) as u8, (n >> 16) as u8, (n >> 8) as u8, n as u8) == n,
{
    assert(((n >> 24) as u8) * 0x100_0000 + ((n >> 16) as u8) * 0x1_0000 + ((n >> 8) as u8)
        * 0x100 + (n as u8) == n) by (bit_vector);
}

/// The wire form of a payload: its big-endian length word, then the payload.
pub open spec fn encode_spec(payload: Seq<u8>) -> Seq<u8>
    recommends
        payload.len() < 0x1_0000_0000,
{
    be_bytes_of(payload.len() as u32) + payload
}

/// The length a framed source declares in its first four bytes.
pub open spec fn declared_len(source: Seq<u8>) -> nat
    recommends
        source.len() >= 4,
{
    be_u32(source[0], source[1], source[2], source[3])
}

/// What one decode pass yields: the declared payload, or nothing if the
/// source holds fewer than four header bytes or fewer payload bytes than
/// the header declares.
pub open spec fn decode_spec(source: Seq<u8>) -> Option<Seq<u8>> {
    if source.len() < 4 {
        None
    } else if source.len() < 4 + declared_len(source) {
        None
    } else {
        Some(source.subrange(4, 4 + declared_len(source) as int))
    }
}

/// What `depth` successive decode passes yield; any failing pass fails the
/// whole chain.
pub open spec fn decode_layers_spec(source: Seq<u8>, depth: nat) -> Option<Seq<u8>>
    decreases depth,
{
    if depth == 0 {
        Some(source)
    } else {
        match decode_spec(source) {
            Some(payload) => decode_layers_spec(payload, (depth - 1) as nat),
            None => None,
        }
    }
}

/// A decoded payload: the bytes a length-prefixed source declared, with the
/// framing already stripped.
#[derive(Debug)]
pub struct Buffer {
    data: Vec<u8>,
}

impl View for Buffer {
    type V = Seq<u8>;

    closed spec fn view(&self) -> Seq<u8> {
        self.data@
    }
}

impl Buffer {
    /// Wraps already-unframed payload bytes.
    pub fn new(data: Vec<u8>) -> (r: Buffer)
        ensures
            r@ == data@,
    {
        Buffer { data }
    }

    /// Borrows the payload bytes.
    pub fn as_slice(&self) -> (r: &[u8])
        ensures
            r@ == self@,
    {
        self.data.as_slice()
    }

    /// Consumes the buffer, yielding the payload bytes.
    pub fn to_vec(self) -> (r: Vec<u8>)
        ensures
            r@ == self@,
    {
        self.data
    }
}

/// Frames a payload for the engine: a four-byte big-endian length word,
/// then the payload, bit for bit. A payload too long for the 32-bit length
/// field is rejected outright, never truncated.
pub fn encode(payload: &[u8]) -> (r: Result<Vec<u8>, BackendError>)
    ensures
        match r {
            Ok(framed) => payload@.len() < 0x1_0000_0000 && framed@ == encode_spec(payload@),
            Err(e) => e == BackendError::MalformedBuffer && payload@.len() >= 0x1_0000_0000,
        },
{
    if (payload.len() as u64) >= 0x1_0000_0000u64 {
        return Err(BackendError::MalformedBuffer);
    }
    let n: u32 = payload.len() as u32;
    let mut framed: Vec<u8> = Vec::new();
    framed.push((n >> 24) as u8);
    framed.push((n >> 16) as u8);
    framed.push((n >> 8) as u8);
    framed.push(n as u8);
    assert(framed@ =~= be_bytes_of(n));
    let mut i: usize = 0;
    while i < payload.len()
        invariant
            i <= payload@.len(),
            payload@.len() < 0x1_0000_0000,
            n == payload@.len() as u32,
            framed@ == be_bytes_of(n) + payload@.subrange(0, i as int),
        decreases payload@.len() - i,
    {
        framed.push(payload[i]);
        assert(framed@ =~= be_bytes_of(n) + payload@.subrange(0, i + 1));
        i = i + 1;
    }
    assert(framed@ =~= encode_spec(payload@));
    Ok(framed)
}

/// One decode pass: reads the four-byte big-endian length word, then
/// exactly that many payload bytes. An underrun source — fewer than four
/// header bytes, or fewer payload bytes than declared — is malformed.
pub fn decode(source: &[u8]) -> (r: Result<Buffer, BackendError>)
    ensures
        match r {
            Ok(buf) => decode_spec(source@) == Some(buf@),
            Err(e) => e == BackendError::MalformedBuffer && decode_spec(source@) is None,
        },
{
    if source.len() < 4 {
        return Err(BackendError::MalformedBuffer);
    }
    let declared: u32 = (source[0] as u32) * 0x100_0000 + (source[1] as u32) * 0x1_0000 + (
    source[2] as u32) * 0x100 + (source[3] as u32);
    assert(declared == declared_len(source@));
    let n: usize = declared as usize;
    if source.len() - 4 < n {
        return Err(BackendError::MalformedBuffer);
    }
    let payload = vstd::slice::slice_subrange(source, 4, 4 + n);
    let data = vstd::slice::slice_to_vec(payload);
    Ok(Buffer { data })
}

/// Exactly `depth` decode passes, for replies the engine wraps more than
/// once; the needed depth is part of each call site's contract.
pub fn decode_layers(source: &[u8], depth: u32) -> (r: Result<Buffer, BackendError>)
    ensures
        match r {
            Ok(buf) => decode_layers_spec(source@, depth as nat) == Some(buf@),
            Err(e) => e == BackendError::MalformedBuffer && decode_layers_spec(
                source@,
                depth as nat,
            ) is None,
        },
{
    let mut current = Buffer { data: vstd::slice::slice_to_vec(source) };
    let mut k: u32 = 0;
    while k < depth
        invariant
            k <= depth,
            decode_layers_spec(source@, depth as nat) == decode_layers_spec(
                current@,
                (depth - k) as nat,
            ),
        decreases depth - k,
    {
        match decode(current.as_slice()) {
            Ok(inner) => {
                current = inner;
            },
            Err(e) => {
                return Err(e);
            },
        }
        k = k + 1;
    }
    Ok(current)
}

/// Round trip: decoding an encoded payload yields the payload again, and
/// the length word of the wire form is exactly the payload length in
/// big-endian order.
pub proof fn lemma_codec_round_trip(payload: Seq<u8>)
    requires
        payload.len() < 0x1_0000_0000,
    ensures
        decode_spec(encode_spec(payload)) == Some(payload),
        declared_len(encode_spec(payload)) == payload.len(),
{
    let n: u32 = payload.len() as u32;
    lemma_be_bytes_roundtrip(n);
    let wire = encode_spec(payload);
    assert(wire[0] == (n >> 24) as u8);
    assert(wire[1] == (n >> 16) as u8);
    assert(wire[2] == (n >> 8) as u8);
    assert(wire[3] == n as u8);
    assert(declared_len(wire) == payload.len());
    assert(wire.subrange(4, 4 + declared_len(wire) as int) =~= payload);
}

/// Underrun sources never decode: fewer than four header bytes, or a
/// declared length exceeding the available payload bytes, always fail.
pub proof fn lemma_decode_underrun(source: Seq<u8>)
    requires
        source.len() < 4 || source.len() < 4 + declared_len(source),
    ensures
        decode_spec(source) is None,
{
}

} // verus!
