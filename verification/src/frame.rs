use vstd::prelude::*;
use vstd::string::StringExecFns;

use crate::decimal::{decimal, push_decimal};
use crate::error::ProtocolError;

verus! {

/// Largest payload, in bytes, that a frame may carry (16 MiB).
pub const MAX_PAYLOAD_SIZE: usize = 16 * 1024 * 1024;

/// Length of the fixed header that precedes every payload.
pub const HEADER_LEN: usize = 8;

/// Two bytes of `x`, most significant first.
pub open spec fn be16(x: u16) -> Seq<u8> {
    seq![(x / 256) as u8, (x % 256) as u8]
}

/// Four bytes of `x`, most significant first.
pub open spec fn be32(x: u32) -> Seq<u8> {
    seq![(x / 0x100_0000) as u8, (x / 0x1_0000 % 256) as u8, (x / 256 % 256) as u8, (x % 256) as u8]
}

/// The wire form shared by requests and responses:
/// `| id (2) | code (2) | payload length (4) | payload |`, all big-endian.
pub open spec fn frame_bytes(id: u16, code: u16, payload: Seq<u8>) -> Seq<u8> {
    be16(id) + be16(code) + be32(payload.len() as u32) + payload
}

/// The 16-bit big-endian number held in bytes `i` and `i + 1` of `h`.
pub open spec fn be16_at(h: Seq<u8>, i: int) -> u16 {
    (h[i] * 256 + h[i + 1]) as u16
}

/// The payload length announced by a header: bytes 4..8, big-endian.
pub open spec fn header_payload_size(h: Seq<u8>) -> nat {
    (h[4] * 0x100_0000 + h[5] * 0x1_0000 + h[6] * 256 + h[7]) as nat
}

/// The text of the error reported for a payload of `size` bytes over the limit.
pub open spec fn size_limit_text(size: nat) -> Seq<char> {
    "payload size "@ + decimal(size) + " exceeds limit "@ + decimal(MAX_PAYLOAD_SIZE as nat)
}

/// Builds the message `"payload size {size} exceeds limit {MAX_PAYLOAD_SIZE}"`.
fn size_limit_message(size: u64) -> (m: String)
    ensures
        m@ == size_limit_text(size as nat),
{
    let mut m = String::new();
    m.append("payload size ");
    push_decimal(&mut m, size);
    m.append(" exceeds limit ");
    push_decimal(&mut m, MAX_PAYLOAD_SIZE as u64);
    m
}

/// Reading back an encoded frame: the header of the bytes that
/// [`RequestFrame::encode`] produces announces the request's id, its command
/// code and its payload length, and the payload follows the 8 header bytes.
/// So a response decoder that is handed these bytes gives back every field.
pub proof fn law_encoded_header_reads_back(id: u16, code: u16, payload: Seq<u8>)
    requires
        payload.len() <= MAX_PAYLOAD_SIZE,
    ensures
        frame_bytes(id, code, payload).len() == HEADER_LEN + payload.len(),
        be16_at(frame_bytes(id, code, payload), 0) == id,
        be16_at(frame_bytes(id, code, payload), 2) == code,
        header_payload_size(frame_bytes(id, code, payload).take(HEADER_LEN as int)) == payload.len(),
        frame_bytes(id, code, payload).skip(HEADER_LEN as int) == payload,
{
    let w = frame_bytes(id, code, payload);
    let n = payload.len() as u32;
    assert(w.skip(8) =~= payload);
    assert(w[0] == (id / 256) as u8 && w[1] == (id % 256) as u8);
    assert(w[2] == (code / 256) as u8 && w[3] == (code % 256) as u8);
    assert(w[4] == (n / 0x100_0000) as u8);
    assert(w[5] == (n / 0x1_0000 % 256) as u8);
    assert(w[6] == (n / 256 % 256) as u8);
    assert(w[7] == (n % 256) as u8);
    assert(((id / 256) as u8) * 256 + ((id % 256) as u8) == id) by (nonlinear_arith);
    assert(((code / 256) as u8) * 256 + ((code % 256) as u8) == code) by (nonlinear_arith);
    assert(((n / 0x100_0000) as u8) * 0x100_0000 + ((n / 0x1_0000 % 256) as u8) * 0x1_0000
        + ((n / 256 % 256) as u8) * 256 + ((n % 256) as u8) == n) by (nonlinear_arith);
}

/// Every 8-byte header is the encoding of the fields read from it: writing
/// back its id, its code and a payload of the announced length gives the
/// header followed by that payload.
pub proof fn law_header_fields_rewrite_header(h: Seq<u8>, payload: Seq<u8>)
    requires
        h.len() == HEADER_LEN,
        payload.len() == header_payload_size(h),
    ensures
        frame_bytes(be16_at(h, 0), be16_at(h, 2), payload) == h + payload,
{
    let w = frame_bytes(be16_at(h, 0), be16_at(h, 2), payload);
    let id = be16_at(h, 0);
    let code = be16_at(h, 2);
    let n = payload.len() as u32;
    let (b0, b1, b2, b3, b4, b5, b6, b7) = (h[0], h[1], h[2], h[3], h[4], h[5], h[6], h[7]);
    assert(id == b0 * 256 + b1);
    assert(code == b2 * 256 + b3);
    assert(n == b4 * 0x100_0000 + b5 * 0x1_0000 + b6 * 256 + b7);
    assert((id / 256) as u8 == b0 && (id % 256) as u8 == b1) by (nonlinear_arith)
        requires id == b0 * 256 + b1;
    assert((code / 256) as u8 == b2 && (code % 256) as u8 == b3) by (nonlinear_arith)
        requires code == b2 * 256 + b3;
    assert((n / 0x100_0000) as u8 == b4 && (n / 0x1_0000 % 256) as u8 == b5
        && (n / 256 % 256) as u8 == b6 && (n % 256) as u8 == b7) by (nonlinear_arith)
        requires n == b4 * 0x100_0000 + b5 * 0x1_0000 + b6 * 256 + b7;
    assert(w =~= h + payload);
}

/// A request sent by the client to the server.
#[derive(Debug, Clone)]
pub struct RequestFrame {
    pub device_id: u16,
    pub command_id: u16,
    pub payload: Vec<u8>,
}

/// A response sent by the server to the client.
#[derive(Debug, Clone)]
pub struct ResponseFrame {
    pub device_id: u16,
    pub answer_code: u16,
    pub payload: Vec<u8>,
}

impl RequestFrame {
    /// The bytes of this request on the wire.
    pub open spec fn wire(&self) -> Seq<u8> {
        frame_bytes(self.device_id, self.command_id, self.payload@)
    }

    /// Serialises the request. A payload longer than [`MAX_PAYLOAD_SIZE`] is
    /// refused with an `EncodeError` that names its size and the limit.
    pub fn encode(&self) -> (r: Result<Vec<u8>, ProtocolError>)
        ensures
            self.payload.len() <= MAX_PAYLOAD_SIZE <==> r is Ok,
            r matches Ok(bytes) ==> bytes@ == self.wire(),
            r matches Err(e) ==> e matches ProtocolError::EncodeError(m) && m@ == size_limit_text(
                self.payload.len() as nat,
            ),
    {
        let len = self.payload.len();
        if len > MAX_PAYLOAD_SIZE {
            return Err(ProtocolError::EncodeError(size_limit_message(len as u64)));
        }
        let size = len as u32;
        let mut buf: Vec<u8> = Vec::with_capacity(HEADER_LEN + len);
        buf.push((self.device_id / 256) as u8);
        buf.push((self.device_id % 256) as u8);
        buf.push((self.command_id / 256) as u8);
        buf.push((self.command_id % 256) as u8);
        buf.push((size / 0x100_0000) as u8);
        buf.push((size / 0x1_0000 % 256) as u8);
        buf.push((size / 256 % 256) as u8);
        buf.push((size % 256) as u8);
        let ghost head = buf@;
        buf.extend_from_slice(self.payload.as_slice());
        assert(buf@ =~= head + self.payload@);
        assert(head =~= be16(self.device_id) + be16(self.command_id) + be32(size));
        Ok(buf)
    }
}

impl ResponseFrame {
    /// Builds a response from its 8-byte header and the payload received
    /// after it. A header that announces more than [`MAX_PAYLOAD_SIZE`]
    /// bytes is refused with a `DecodeError` that names the size and the limit.
    pub fn decode(header: &[u8; 8], payload: Vec<u8>) -> (r: Result<Self, ProtocolError>)
        ensures
            header_payload_size(header@) <= MAX_PAYLOAD_SIZE <==> r is Ok,
            r matches Ok(f) ==> {
                &&& f.device_id == be16_at(header@, 0)
                &&& f.answer_code == be16_at(header@, 2)
                &&& f.payload@ == payload@
            },
            r matches Err(e) ==> e matches ProtocolError::DecodeError(m) && m@ == size_limit_text(
                header_payload_size(header@),
            ),
    {
        let device_id: u16 = (header[0] as u16) * 256 + header[1] as u16;
        let answer_code: u16 = (header[2] as u16) * 256 + header[3] as u16;
        let size: u32 = (header[4] as u32) * 0x100_0000 + (header[5] as u32) * 0x1_0000
            + (header[6] as u32) * 256 + header[7] as u32;
        if size > MAX_PAYLOAD_SIZE as u32 {
            return Err(ProtocolError::DecodeError(size_limit_message(size as u64)));
        }
        Ok(ResponseFrame { device_id, answer_code, payload })
    }

    /// Reads only the payload length from a header, so that a receiver knows
    /// how many bytes to wait for. Refused as [`ResponseFrame::decode`] refuses it.
    pub fn payload_size_from_header(header: &[u8; 8]) -> (r: Result<usize, ProtocolError>)
        ensures
            header_payload_size(header@) <= MAX_PAYLOAD_SIZE <==> r is Ok,
            r matches Ok(n) ==> n == header_payload_size(header@),
            r matches Err(e) ==> e matches ProtocolError::DecodeError(m) && m@ == size_limit_text(
                header_payload_size(header@),
            ),
    {
        let size: u32 = (header[4] as u32) * 0x100_0000 + (header[5] as u32) * 0x1_0000
            + (header[6] as u32) * 256 + header[7] as u32;
        if size > MAX_PAYLOAD_SIZE as u32 {
            return Err(ProtocolError::DecodeError(size_limit_message(size as u64)));
        }
        Ok(size as usize)
    }
}

} // verus!
