//! Wire message codec: the fixed binary encoding of the inter-component
//! message {device address, frame counter, payload}.
//!
//! Layout, in order: the address as 8 little-endian bytes, the frame counter
//! as 4 little-endian bytes, the payload length as 8 little-endian bytes,
//! then the payload bytes. Encoding is total; decoding fails exactly on
//! truncated input and never panics. Decoding reads the leading message and
//! ignores any trailing bytes, so the whole-buffer and streaming forms agree.

use vstd::bytes::*;
use vstd::prelude::*;
use vstd::slice::{slice_subrange, slice_to_vec};

verus! {

/// Decode errors of the wire codec.
#[derive(Debug, Clone, Copy, PartialEq, Eq, Structural)]
pub enum Error {
    /// The input is too short to hold the fixed header or the payload
    /// its length field announces.
    Malformed,
}

/// The fixed number of bytes before the payload: address, counter, length.
pub const HEADER_LEN: usize = 20;

/// The inter-component message.
#[derive(Debug, Clone)]
pub struct Msg {
    pub addr: u64,
    pub fcnt: u32,
    pub payload: Vec<u8>,
}

/// The canonical encoding of a message.
pub open spec fn spec_wire_bytes(addr: u64, fcnt: u32, payload: Seq<u8>) -> Seq<u8> {
    spec_u64_to_le_bytes(addr) + spec_u32_to_le_bytes(fcnt) + spec_u64_to_le_bytes(
        payload.len() as u64,
    ) + payload
}

/// Whether a byte sequence begins with a well-formed message: the fixed
/// header is present and the payload its length field announces fits.
pub open spec fn spec_wire_ok(bytes: Seq<u8>) -> bool {
    &&& bytes.len() >= HEADER_LEN
    &&& spec_u64_from_le_bytes(bytes.subrange(12, 20)) + HEADER_LEN <= bytes.len()
}

/// The device address the leading message carries.
pub open spec fn spec_wire_addr(bytes: Seq<u8>) -> u64 {
    spec_u64_from_le_bytes(bytes.subrange(0, 8))
}

/// The frame counter the leading message carries.
pub open spec fn spec_wire_fcnt(bytes: Seq<u8>) -> u32 {
    spec_u32_from_le_bytes(bytes.subrange(8, 12))
}

/// The payload the leading message carries.
pub open spec fn spec_wire_payload(bytes: Seq<u8>) -> Seq<u8> {
    bytes.subrange(
        HEADER_LEN as int,
        HEADER_LEN + spec_u64_from_le_bytes(bytes.subrange(12, 20)),
    )
}

impl Msg {
    /// Encode into the canonical byte sequence. Encoding is total: every
    /// message serializes.
    pub fn serialize(&self) -> (r: Result<Vec<u8>, Error>)
        ensures
            r matches Ok(b) && b@ == spec_wire_bytes(self.addr, self.fcnt, self.payload@),
    {
        let mut out = u64_to_le_bytes(self.addr);
        let mut fcnt_bytes = u32_to_le_bytes(self.fcnt);
        out.append(&mut fcnt_bytes);
        let mut len_bytes = u64_to_le_bytes(self.payload.len() as u64);
        out.append(&mut len_bytes);
        let mut body = slice_to_vec(self.payload.as_slice());
        out.append(&mut body);
        proof {
            assert(out@ =~= spec_wire_bytes(self.addr, self.fcnt, self.payload@));
        }
        Ok(out)
    }
}

/// Decode the message a byte sequence begins with.
///
/// Returns the message exactly when the input holds the fixed header and
/// the payload its length field announces; any shorter input is rejected
/// as malformed, and trailing bytes beyond the message are ignored.
pub fn deserialize(bytes: &[u8]) -> (r: Result<Msg, Error>)
    ensures
        r matches Ok(_) <==> spec_wire_ok(bytes@),
        r matches Ok(m) ==> {
            &&& m.addr == spec_wire_addr(bytes@)
            &&& m.fcnt == spec_wire_fcnt(bytes@)
            &&& m.payload@ == spec_wire_payload(bytes@)
        },
        r matches Err(e) ==> e == Error::Malformed,
{
    if bytes.len() < HEADER_LEN {
        return Err(Error::Malformed);
    }
    let addr = u64_from_le_bytes(slice_subrange(bytes, 0, 8));
    let fcnt = u32_from_le_bytes(slice_subrange(bytes, 8, 12));
    let len = u64_from_le_bytes(slice_subrange(bytes, 12, 20));
    if len > (bytes.len() - HEADER_LEN) as u64 {
        return Err(Error::Malformed);
    }
    let payload_len = len as usize;
    let payload = slice_to_vec(slice_subrange(bytes, HEADER_LEN, HEADER_LEN + payload_len));
    Ok(Msg { addr, fcnt, payload })
}

/// The payload length the fixed header announces, for a streaming reader
/// that has the header in hand and must learn how many bytes follow.
pub fn header_payload_len(header: &[u8]) -> (r: Result<u64, Error>)
    ensures
        r matches Ok(_) <==> header@.len() >= HEADER_LEN,
        r matches Ok(n) ==> n == spec_u64_from_le_bytes(header@.subrange(12, 20)),
        r matches Err(e) ==> e == Error::Malformed,
{
    if header.len() < HEADER_LEN {
        return Err(Error::Malformed);
    }
    Ok(u64_from_le_bytes(slice_subrange(header, 12, 20)))
}

/// Round trip: decoding the encoding of any message recovers the message.
/// The encoding is a bijection onto the well-formed byte sequences: no
/// payload byte is escaped or altered.
pub proof fn lemma_wire_round_trip(addr: u64, fcnt: u32, payload: Seq<u8>)
    requires
        payload.len() <= 0xFFFF_FFFF_FFFF_FFFF,
    ensures
        spec_wire_ok(spec_wire_bytes(addr, fcnt, payload)),
        spec_wire_addr(spec_wire_bytes(addr, fcnt, payload)) == addr,
        spec_wire_fcnt(spec_wire_bytes(addr, fcnt, payload)) == fcnt,
        spec_wire_payload(spec_wire_bytes(addr, fcnt, payload)) == payload,
{
    lemma_auto_spec_u64_to_from_le_bytes();
    lemma_auto_spec_u32_to_from_le_bytes();
    let b = spec_wire_bytes(addr, fcnt, payload);
    assert(b.subrange(0, 8) =~= spec_u64_to_le_bytes(addr));
    assert(b.subrange(8, 12) =~= spec_u32_to_le_bytes(fcnt));
    assert(b.subrange(12, 20) =~= spec_u64_to_le_bytes(payload.len() as u64));
    assert(b.subrange(20, 20 + payload.len() as int) =~= payload);
}

} // verus!
