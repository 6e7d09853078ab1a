//! The wire framing: every command and every notification travels as one
//! frame of `marker, length, payload bytes, checksum`, where the checksum
//! makes the length byte and the payload sum to a multiple of 0x100.

use vstd::prelude::*;

verus! {

/// Leading byte of every frame on the wire.
pub const START_MARKER: u8 = 0xAA;

/// Largest payload the one-byte length field can describe.
pub const MAX_PAYLOAD_LEN: usize = 255;

/// Why a buffer was rejected by `decode`.
#[derive(Clone, Copy, Debug, PartialEq, Eq, Structural)]
pub enum DecodeError {
    /// The buffer is empty or its first byte is not the start marker.
    BadMarker,
    /// The declared payload length does not match the bytes present.
    LengthMismatch,
    /// The trailing byte differs from the recomputed checksum.
    ChecksumMismatch,
}

/// Why a payload was rejected by `encode`.
#[derive(Clone, Copy, Debug, PartialEq, Eq, Structural)]
pub enum EncodeError {
    /// The payload has more bytes than the length field can declare.
    PayloadTooLarge,
}

/// Sum of the bytes of `s`, as an unbounded natural number.
pub open spec fn byte_sum(s: Seq<u8>) -> nat
    decreases s.len(),
{
    if s.len() == 0 {
        0
    } else {
        byte_sum(s.drop_last()) + s.last() as nat
    }
}

/// The byte sum never exceeds 255 per byte.
pub proof fn lemma_byte_sum_bound(s: Seq<u8>)
    ensures
        byte_sum(s) <= 255 * s.len(),
    decreases s.len(),
{
    if s.len() > 0 {
        lemma_byte_sum_bound(s.drop_last());
    }
}

/// Checksum of a frame with payload `payload`: the unique byte that makes
/// the length byte, the payload bytes and itself sum to 0 modulo 0x100.
pub open spec fn frame_checksum(payload: Seq<u8>) -> u8
    recommends
        payload.len() <= 255,
{
    ((0x100 - ((payload.len() + byte_sum(payload)) % 0x100)) % 0x100) as u8
}

/// The wire image of a payload: marker, length byte, payload, checksum.
pub open spec fn spec_encode(payload: Seq<u8>) -> Seq<u8>
    recommends
        payload.len() <= 255,
{
    seq![START_MARKER, payload.len() as u8] + payload + seq![frame_checksum(payload)]
}

/// What `decode` yields on any byte buffer: the payload, or the first
/// violation found in the order marker, length, checksum.
pub open spec fn spec_decode(frame: Seq<u8>) -> Result<Seq<u8>, DecodeError> {
    if frame.len() == 0 || frame[0] != START_MARKER {
        Err(DecodeError::BadMarker)
    } else if frame.len() < 2 || frame.len() != frame[1] + 3 {
        Err(DecodeError::LengthMismatch)
    } else if frame.last() != frame_checksum(frame.subrange(2, frame.len() - 1)) {
        Err(DecodeError::ChecksumMismatch)
    } else {
        Ok(frame.subrange(2, frame.len() - 1))
    }
}

/// Build the frame for a payload that is known to fit.
pub fn encode_frame(payload: &Vec<u8>) -> (frame: Vec<u8>)
    requires
        payload@.len() <= 255,
    ensures
        frame@ == spec_encode(payload@),
{
    let n = payload.len();
    let mut frame: Vec<u8> = Vec::new();
    frame.push(START_MARKER);
    frame.push(n as u8);
    let mut sum: u32 = n as u32;
    let mut i: usize = 0;
    while i < n
        invariant
            i <= n,
            n == payload@.len(),
            n <= 255,
            frame@ == seq![START_MARKER, n as u8] + payload@.take(i as int),
            sum == n + byte_sum(payload@.take(i as int)),
        decreases n - i,
    {
        proof {
            lemma_byte_sum_bound(payload@.take(i as int));
            assert(payload@.take(i + 1).drop_last() =~= payload@.take(i as int));
            assert(payload@.take(i + 1).last() == payload@[i as int]);
        }
        sum = sum + payload[i] as u32;
        frame.push(payload[i]);
        i = i + 1;
    }
    proof {
        assert(payload@.take(n as int) =~= payload@);
    }
    let m: u32 = sum % 0x100;
    let ck: u32 = (0x100 - m) % 0x100;
    frame.push(ck as u8);
    proof {
        assert(frame@ =~= spec_encode(payload@));
    }
    frame
}

/// Encode a payload per the wire format; a payload that the one-byte length
/// field cannot describe is rejected, and nothing else is.
pub fn encode(payload: &Vec<u8>) -> (r: Result<Vec<u8>, EncodeError>)
    ensures
        payload@.len() <= 255 ==> (r matches Ok(f) && f@ == spec_encode(payload@)),
        payload@.len() > 255 ==> r == Err::<Vec<u8>, EncodeError>(EncodeError::PayloadTooLarge),
{
    if payload.len() <= MAX_PAYLOAD_LEN {
        Ok(encode_frame(payload))
    } else {
        Err(EncodeError::PayloadTooLarge)
    }
}

/// Decode one frame: verify the marker, the declared length and the
/// checksum, in that order, and return the payload bytes.
pub fn decode(frame: &Vec<u8>) -> (r: Result<Vec<u8>, DecodeError>)
    ensures
        match r {
            Ok(p) => spec_decode(frame@) == Ok::<Seq<u8>, DecodeError>(p@),
            Err(e) => spec_decode(frame@) == Err::<Seq<u8>, DecodeError>(e),
        },
{
    if frame.len() == 0 || frame[0] != START_MARKER {
        return Err(DecodeError::BadMarker);
    }
    if frame.len() < 2 {
        return Err(DecodeError::LengthMismatch);
    }
    let n = frame[1] as usize;
    if frame.len() != n + 3 {
        return Err(DecodeError::LengthMismatch);
    }
    let mut payload: Vec<u8> = Vec::new();
    let mut sum: u32 = n as u32;
    let mut i: usize = 0;
    while i < n
        invariant
            i <= n,
            n <= 255,
            frame@.len() == n + 3,
            payload@ == frame@.subrange(2, 2 + i as int),
            sum == n + byte_sum(frame@.subrange(2, 2 + i as int)),
        decreases n - i,
    {
        proof {
            lemma_byte_sum_bound(frame@.subrange(2, 2 + i as int));
            assert(frame@.subrange(2, 2 + i + 1).drop_last() =~= frame@.subrange(
                2,
                2 + i as int,
            ));
            assert(frame@.subrange(2, 2 + i + 1).last() == frame@[2 + i as int]);
        }
        sum = sum + frame[2 + i] as u32;
        payload.push(frame[2 + i]);
        i = i + 1;
    }
    let m: u32 = sum % 0x100;
    let ck: u32 = (0x100 - m) % 0x100;
    proof {
        assert(frame@.subrange(2, frame@.len() - 1) =~= frame@.subrange(2, 2 + n as int));
        assert(frame@.last() == frame@[2 + n as int]);
    }
    if frame[2 + n] != ck as u8 {
        return Err(DecodeError::ChecksumMismatch);
    }
    Ok(payload)
}

/// Round trip: decoding an encoded frame yields the payload back, for every
/// payload the length field can describe.
pub proof fn lemma_round_trip(payload: Seq<u8>)
    requires
        payload.len() <= 255,
    ensures
        spec_decode(spec_encode(payload)) == Ok::<Seq<u8>, DecodeError>(payload),
{
    let f = spec_encode(payload);
    assert(f.len() == payload.len() + 3);
    assert(f[0] == START_MARKER);
    assert(f[1] == payload.len() as u8);
    assert(f.subrange(2, f.len() - 1) =~= payload);
    assert(f.last() == frame_checksum(payload));
}

} // verus!
