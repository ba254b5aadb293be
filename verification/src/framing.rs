//! The frame header of the wire protocol's length-prefixed framing, as the
//! codec collaborator defines it: six bytes, of which the third carries the
//! message type id and the last three the payload length, little endian.
//! Decoding payloads stays with the codec; reading the header is the one
//! pure computation the process edge needs, so it is stated here.

use vstd::prelude::*;

verus! {

/// Reads a six-byte frame header: the message type id and the payload length
/// that follows the header on the wire.
pub fn parse_frame_header(header: [u8; 6]) -> (r: (u8, usize))
    ensures
        r.0 == header@[2],
        r.1 == header@[3] + header@[4] * 0x100 + header@[5] * 0x10000,
{
    let type_id = header[2];
    let length = header[3] as usize + (header[4] as usize) * 0x100 + (header[5] as usize)
        * 0x10000;
    (type_id, length)
}

} // verus!
