//! Byte-level description of the wire protocol.
//!
//! Every frame the host sends, and every reply it expects, is given here as a
//! spec-level byte sequence, together with executable builders that are
//! proved to produce exactly those bytes.  Multi-byte integers on the wire
//! are little-endian; a few four-byte fields arrive high byte first and are
//! reversed before interpretation.

use vstd::prelude::*;

verus! {

// ---------------------------------------------------------------------------
// Little-endian 32-bit fields
// ---------------------------------------------------------------------------

/// The four-byte little-endian encoding of a 32-bit value.
pub open spec fn le32(n: u32) -> Seq<u8> {
    seq![
        (n % 256) as u8,
        ((n / 256) % 256) as u8,
        ((n / 65536) % 256) as u8,
        ((n / 16777216) % 256) as u8,
    ]
}

/// The value denoted by a four-byte little-endian field.
pub open spec fn le32_val(s: Seq<u8>) -> int
    recommends
        s.len() == 4,
{
    s[0] + 256 * s[1] + 65536 * s[2] + 16777216 * s[3]
}

/// Encoding then decoding a 32-bit value is the identity.
pub proof fn lemma_le32_round_trip(n: u32)
    ensures
        le32(n).len() == 4,
        le32_val(le32(n)) == n,
{
    assert(n % 256 + 256 * ((n / 256) % 256) + 65536 * ((n / 65536) % 256) + 16777216 * ((n
        / 16777216) % 256) == n) by (bit_vector);
}

/// Builds the little-endian encoding of `n`.
pub fn le32_encode(n: u32) -> (v: Vec<u8>)
    ensures
        v@ == le32(n),
{
    let mut v: Vec<u8> = Vec::new();
    v.push((n % 256) as u8);
    v.push(((n / 256) % 256) as u8);
    v.push(((n / 65536) % 256) as u8);
    v.push(((n / 16777216) % 256) as u8);
    proof {
        assert(v@ =~= le32(n));
    }
    v
}

/// Reads a four-byte little-endian field.
pub fn le32_decode(b: &Vec<u8>) -> (n: u32)
    requires
        b@.len() == 4,
    ensures
        n == le32_val(b@),
{
    b[0] as u32 + 256 * (b[1] as u32) + 65536 * (b[2] as u32) + 16777216 * (b[3] as u32)
}

// ---------------------------------------------------------------------------
// Four-byte fields received high byte first
// ---------------------------------------------------------------------------

/// A four-byte field with its bytes reversed.
pub open spec fn rev4(s: Seq<u8>) -> Seq<u8>
    recommends
        s.len() == 4,
{
    seq![s[3], s[2], s[1], s[0]]
}

/// Reverses a four-byte field.
pub fn rev4_bytes(b: &Vec<u8>) -> (v: Vec<u8>)
    requires
        b@.len() == 4,
    ensures
        v@ == rev4(b@),
{
    let mut v: Vec<u8> = Vec::new();
    v.push(b[3]);
    v.push(b[2]);
    v.push(b[1]);
    v.push(b[0]);
    proof {
        assert(v@ =~= rev4(b@));
    }
    v
}

// ---------------------------------------------------------------------------
// Fixed frames
// ---------------------------------------------------------------------------

/// Link-synchronization greeting, the ASCII bytes of `wtp` followed by CR.
pub open spec fn greet_send() -> Seq<u8> {
    seq![0x77u8, 0x74u8, 0x70u8, 0x0du8]
}

/// Reply to the greeting: the same text followed by CR LF.
pub open spec fn greet_reply() -> Seq<u8> {
    seq![0x77u8, 0x74u8, 0x70u8, 0x0du8, 0x0au8]
}

/// Four-byte preamble, echoed verbatim by the device.
pub open spec fn preamble() -> Seq<u8> {
    seq![0x00u8, 0xd3u8, 0x02u8, 0x2bu8]
}

/// Session command sent after the preamble.
pub open spec fn session_send() -> Seq<u8> {
    seq![0x2bu8, 0u8, 0u8, 0u8, 0u8, 0u8, 0u8, 0u8]
}

/// Acknowledgment of the session command.
pub open spec fn session_reply() -> Seq<u8> {
    seq![0x2bu8, 0u8, 0u8, 1u8, 0u8, 0u8]
}

/// Version query command.
pub open spec fn version_send() -> Seq<u8> {
    seq![0x20u8, 0u8, 0u8, 0x08u8, 0u8, 0u8, 0u8, 0u8]
}

/// Header of the version reply; twelve payload bytes follow it.
pub open spec fn version_reply() -> Seq<u8> {
    seq![0x20u8, 0u8, 0u8, 0u8, 0x08u8, 0x14u8]
}

/// All-zero trailer that closes the version reply.
pub open spec fn version_trailer() -> Seq<u8> {
    seq![0u8, 0u8, 0u8, 0u8, 0u8, 0u8, 0u8, 0u8]
}

/// Image-type query command.
pub open spec fn type_query_send() -> Seq<u8> {
    seq![0x26u8, 0u8, 0u8, 0u8, 0u8, 0u8, 0u8, 0u8]
}

/// Header of the image-type reply; a four-byte type code follows it.
pub open spec fn type_query_reply() -> Seq<u8> {
    seq![0x26u8, 0u8, 0u8, 0u8, 0x08u8, 0x04u8]
}

/// Image-type selection command that begins a transfer.
pub open spec fn type_select_send() -> Seq<u8> {
    seq![0x27u8, 0u8, 0u8, 0u8, 1u8, 0u8, 0u8, 0u8, 0u8]
}

/// Acknowledgment of the image-type selection.
pub open spec fn type_select_reply() -> Seq<u8> {
    seq![0x27u8, 0u8, 0u8, 0u8, 0x08u8, 0u8]
}

/// End-of-image command, eight zero bytes.
pub open spec fn end_send() -> Seq<u8> {
    seq![0u8, 0u8, 0u8, 0u8, 0u8, 0u8, 0u8, 0u8]
}

/// Acknowledgment of the end-of-image command.
pub open spec fn end_reply() -> Seq<u8> {
    seq![0u8, 0u8, 0u8, 0u8, 0x08u8, 0u8]
}

// ---------------------------------------------------------------------------
// Counter-bearing frames of the chunk-transfer loop
// ---------------------------------------------------------------------------

/// Block request: opcode, counter, then the remaining length, little-endian.
pub open spec fn request_send(ctr: u8, remaining: u32) -> Seq<u8> {
    seq![0x2au8, ctr, 0u8, 0u8, 0x04u8, 0u8, 0u8, 0u8] + le32(remaining)
}

/// Acknowledgment of a block request; the four-byte grant follows it.
pub open spec fn request_reply(ctr: u8) -> Seq<u8> {
    seq![0x2au8, ctr, 0u8, 0u8, 0x08u8, 0x04u8]
}

/// Data-block header: opcode, counter, then the payload length, little-endian.
pub open spec fn data_send(ctr: u8, len: u32) -> Seq<u8> {
    seq![0x22u8, ctr, 0u8, 0u8] + le32(len)
}

/// Acknowledgment of a data block.
pub open spec fn data_reply(ctr: u8) -> Seq<u8> {
    seq![0x22u8, ctr, 0u8, 0u8, 0x08u8, 0u8]
}

// ---------------------------------------------------------------------------
// Executable builders
// ---------------------------------------------------------------------------

/// Builds the greeting.
pub fn greet_send_bytes() -> (v: Vec<u8>)
    ensures
        v@ == greet_send(),
{
    let mut v: Vec<u8> = Vec::new();
    v.push(0x77);
    v.push(0x74);
    v.push(0x70);
    v.push(0x0d);
    proof {
        assert(v@ =~= greet_send());
    }
    v
}

/// Builds the expected greeting reply.
pub fn greet_reply_bytes() -> (v: Vec<u8>)
    ensures
        v@ == greet_reply(),
{
    let mut v: Vec<u8> = Vec::new();
    v.push(0x77);
    v.push(0x74);
    v.push(0x70);
    v.push(0x0d);
    v.push(0x0a);
    proof {
        assert(v@ =~= greet_reply());
    }
    v
}

/// Builds the preamble.
pub fn preamble_bytes() -> (v: Vec<u8>)
    ensures
        v@ == preamble(),
{
    let mut v: Vec<u8> = Vec::new();
    v.push(0x00);
    v.push(0xd3);
    v.push(0x02);
    v.push(0x2b);
    proof {
        assert(v@ =~= preamble());
    }
    v
}

/// Builds the session command.
pub fn session_send_bytes() -> (v: Vec<u8>)
    ensures
        v@ == session_send(),
{
    let v = frame8(0x2b, 0, 0, 0, 0, 0, 0, 0);
    proof {
        assert(v@ =~= session_send());
    }
    v
}

/// Builds the expected session acknowledgment.
pub fn session_reply_bytes() -> (v: Vec<u8>)
    ensures
        v@ == session_reply(),
{
    let v = frame6(0x2b, 0, 0, 1, 0, 0);
    proof {
        assert(v@ =~= session_reply());
    }
    v
}

/// Builds the version query.
pub fn version_send_bytes() -> (v: Vec<u8>)
    ensures
        v@ == version_send(),
{
    let v = frame8(0x20, 0, 0, 0x08, 0, 0, 0, 0);
    proof {
        assert(v@ =~= version_send());
    }
    v
}

/// Builds the expected version-reply header.
pub fn version_reply_bytes() -> (v: Vec<u8>)
    ensures
        v@ == version_reply(),
{
    let v = frame6(0x20, 0, 0, 0, 0x08, 0x14);
    proof {
        assert(v@ =~= version_reply());
    }
    v
}

/// Builds the expected version-reply trailer.
pub fn version_trailer_bytes() -> (v: Vec<u8>)
    ensures
        v@ == version_trailer(),
{
    let v = frame8(0, 0, 0, 0, 0, 0, 0, 0);
    proof {
        assert(v@ =~= version_trailer());
    }
    v
}

/// Builds the image-type query.
pub fn type_query_send_bytes() -> (v: Vec<u8>)
    ensures
        v@ == type_query_send(),
{
    let v = frame8(0x26, 0, 0, 0, 0, 0, 0, 0);
    proof {
        assert(v@ =~= type_query_send());
    }
    v
}

/// Builds the expected image-type reply header.
pub fn type_query_reply_bytes() -> (v: Vec<u8>)
    ensures
        v@ == type_query_reply(),
{
    let v = frame6(0x26, 0, 0, 0, 0x08, 0x04);
    proof {
        assert(v@ =~= type_query_reply());
    }
    v
}

/// Builds the image-type selection command.
pub fn type_select_send_bytes() -> (v: Vec<u8>)
    ensures
        v@ == type_select_send(),
{
    let mut v = frame8(0x27, 0, 0, 0, 1, 0, 0, 0);
    v.push(0);
    proof {
        assert(v@ =~= type_select_send());
    }
    v
}

/// Builds the expected image-type selection acknowledgment.
pub fn type_select_reply_bytes() -> (v: Vec<u8>)
    ensures
        v@ == type_select_reply(),
{
    let v = frame6(0x27, 0, 0, 0, 0x08, 0);
    proof {
        assert(v@ =~= type_select_reply());
    }
    v
}

/// Builds the end-of-image command.
pub fn end_send_bytes() -> (v: Vec<u8>)
    ensures
        v@ == end_send(),
{
    let v = frame8(0, 0, 0, 0, 0, 0, 0, 0);
    proof {
        assert(v@ =~= end_send());
    }
    v
}

/// Builds the expected end-of-image acknowledgment.
pub fn end_reply_bytes() -> (v: Vec<u8>)
    ensures
        v@ == end_reply(),
{
    let v = frame6(0, 0, 0, 0, 0x08, 0);
    proof {
        assert(v@ =~= end_reply());
    }
    v
}

/// Builds a block request for the given counter and remaining length.
pub fn request_send_bytes(ctr: u8, remaining: u32) -> (v: Vec<u8>)
    ensures
        v@ == request_send(ctr, remaining),
{
    let mut v = frame8(0x2a, ctr, 0, 0, 0x04, 0, 0, 0);
    let mut tail = le32_encode(remaining);
    v.append(&mut tail);
    proof {
        assert(v@ =~= request_send(ctr, remaining));
    }
    v
}

/// Builds the expected block-request acknowledgment.
pub fn request_reply_bytes(ctr: u8) -> (v: Vec<u8>)
    ensures
        v@ == request_reply(ctr),
{
    let v = frame6(0x2a, ctr, 0, 0, 0x08, 0x04);
    proof {
        assert(v@ =~= request_reply(ctr));
    }
    v
}

/// Builds a data-block header for the given counter and payload length.
pub fn data_send_bytes(ctr: u8, len: u32) -> (v: Vec<u8>)
    ensures
        v@ == data_send(ctr, len),
{
    let mut v: Vec<u8> = Vec::new();
    v.push(0x22);
    v.push(ctr);
    v.push(0);
    v.push(0);
    let mut tail = le32_encode(len);
    v.append(&mut tail);
    proof {
        assert(v@ =~= data_send(ctr, len));
    }
    v
}

/// Builds the expected data-block acknowledgment.
pub fn data_reply_bytes(ctr: u8) -> (v: Vec<u8>)
    ensures
        v@ == data_reply(ctr),
{
    let v = frame6(0x22, ctr, 0, 0, 0x08, 0);
    proof {
        assert(v@ =~= data_reply(ctr));
    }
    v
}

/// Builds a six-byte frame.
fn frame6(b0: u8, b1: u8, b2: u8, b3: u8, b4: u8, b5: u8) -> (v: Vec<u8>)
    ensures
        v@ == seq![b0, b1, b2, b3, b4, b5],
{
    let mut v: Vec<u8> = Vec::new();
    v.push(b0);
    v.push(b1);
    v.push(b2);
    v.push(b3);
    v.push(b4);
    v.push(b5);
    proof {
        assert(v@ =~= seq![b0, b1, b2, b3, b4, b5]);
    }
    v
}

/// Builds an eight-byte frame.
fn frame8(b0: u8, b1: u8, b2: u8, b3: u8, b4: u8, b5: u8, b6: u8, b7: u8) -> (v: Vec<u8>)
    ensures
        v@ == seq![b0, b1, b2, b3, b4, b5, b6, b7],
{
    let mut v: Vec<u8> = Vec::new();
    v.push(b0);
    v.push(b1);
    v.push(b2);
    v.push(b3);
    v.push(b4);
    v.push(b5);
    v.push(b6);
    v.push(b7);
    proof {
        assert(v@ =~= seq![b0, b1, b2, b3, b4, b5, b6, b7]);
    }
    v
}

} // verus!
