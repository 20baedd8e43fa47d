//! The message codec: a deterministic, versionless binary wire format.
//!
//! An application payload is an opaque byte sequence. On the wire it is
//! framed as an 8-byte little-endian length followed by exactly that many
//! payload bytes. Encoding always succeeds; decoding rejects every byte
//! sequence that is not exactly one well-formed frame, without touching
//! any state: a truncated or padded frame comes back as a typed error and
//! the caller discards it.

use vstd::bytes::*;
use vstd::prelude::*;

verus! {

/// One application payload, an opaque byte sequence.
#[derive(PartialEq, Eq, Debug)]
pub struct Payload {
    pub data: Vec<u8>,
}

impl View for Payload {
    type V = Seq<u8>;

    open spec fn view(&self) -> Seq<u8> {
        self.data@
    }
}

impl Payload {
    pub fn new(data: Vec<u8>) -> (r: Payload)
        ensures
            r@ == data@,
    {
        Payload { data }
    }
}

/// Why an inbound byte sequence was rejected.
#[derive(Clone, Copy, PartialEq, Eq, Structural, Debug)]
pub enum DecodeError {
    /// The bytes end before the length header, or before the number of
    /// payload bytes the header promises.
    Truncated,
    /// Bytes follow the promised payload: the frame does not account for
    /// all of its input.
    TrailingData,
}

/// The wire image of a payload: its length as 8 little-endian bytes,
/// then the payload itself.
pub open spec fn spec_encode(payload: Seq<u8>) -> Seq<u8> {
    spec_u64_to_le_bytes(payload.len() as u64) + payload
}

/// The one payload a wire byte sequence stands for, or the reason there
/// is none.
pub open spec fn spec_decode(wire: Seq<u8>) -> Result<Seq<u8>, DecodeError> {
    if wire.len() < 8 {
        Err(DecodeError::Truncated)
    } else {
        let promised = spec_u64_from_le_bytes(wire.subrange(0, 8));
        if promised > wire.len() - 8 {
            Err(DecodeError::Truncated)
        } else if promised < wire.len() - 8 {
            Err(DecodeError::TrailingData)
        } else {
            Ok(wire.subrange(8, wire.len() as int))
        }
    }
}

/// Frame a payload for the wire.
pub fn encode(payload: &Payload) -> (r: Vec<u8>)
    ensures
        r@ == spec_encode(payload@),
{
    let len64: u64 = payload.data.len() as u64;
    let mut out = u64_to_le_bytes(len64);
    let mut i: usize = 0;
    while i < payload.data.len()
        invariant
            i <= payload.data.len(),
            len64 == payload.data.len() as u64,
            out@ == spec_u64_to_le_bytes(len64) + payload.data@.subrange(0, i as int),
        decreases payload.data.len() - i,
    {
        out.push(payload.data[i]);
        i = i + 1;
        proof {
            assert(payload.data@.subrange(0, i as int) =~= payload.data@.subrange(
                0,
                i - 1,
            ).push(payload.data@[i - 1]));
        }
    }
    proof {
        assert(payload.data@.subrange(0, payload.data@.len() as int) =~= payload.data@);
    }
    out
}

/// Recover the payload a wire byte sequence stands for. Rejects malformed
/// input with a typed error; the input is only read, never altered, so a
/// malformed message cannot corrupt any state.
pub fn decode(wire: &Vec<u8>) -> (r: Result<Payload, DecodeError>)
    ensures
        (match r {
            Ok(p) => spec_decode(wire@) matches Ok(s) && p@ == s,
            Err(e) => spec_decode(wire@) matches Err(e2) && e == e2,
        }),
{
    if wire.len() < 8 {
        return Err(DecodeError::Truncated);
    }
    let header = vstd::slice::slice_subrange(wire.as_slice(), 0, 8);
    let promised = u64_from_le_bytes(header);
    let rest: usize = wire.len() - 8;
    if promised > rest as u64 {
        Err(DecodeError::Truncated)
    } else if promised < rest as u64 {
        Err(DecodeError::TrailingData)
    } else {
        let mut data: Vec<u8> = Vec::new();
        let mut i: usize = 8;
        while i < wire.len()
            invariant
                8 <= i <= wire.len(),
                data@ == wire@.subrange(8, i as int),
            decreases wire.len() - i,
        {
            data.push(wire[i]);
            i = i + 1;
            proof {
                assert(wire@.subrange(8, i as int) =~= wire@.subrange(8, i - 1).push(
                    wire@[i - 1],
                ));
            }
        }
        Ok(Payload { data })
    }
}

/// Round-trip law: every payload that fits in memory decodes back from
/// its own encoding, unchanged.
pub proof fn lemma_codec_round_trip(payload: Seq<u8>)
    requires
        payload.len() <= u64::MAX,
    ensures
        spec_decode(spec_encode(payload)) == Ok::<Seq<u8>, DecodeError>(payload),
{
    lemma_auto_spec_u64_to_from_le_bytes();
    let wire = spec_encode(payload);
    assert(wire.subrange(0, 8) =~= spec_u64_to_le_bytes(payload.len() as u64));
    assert(wire.subrange(8, wire.len() as int) =~= payload);
}

} // verus!
