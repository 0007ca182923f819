//! The wire protocol: message types, frames and padding.
//!
//! A frame is the protocol version in one byte, the length of the payload as
//! a big-endian 32-bit number, and the payload.

pub mod message;

use vstd::prelude::*;
use vstd::slice::*;

use crate::bytes;
use crate::text;

verus! {

/// Wire protocol version — bump on breaking changes
pub const PROTOCOL_VERSION: u8 = 3;

/// Fixed message padding block size (traffic analysis resistance)
pub const PAD_BLOCK_SIZE: usize = 512;

/// The length of the number that stands in front of a padded payload.
pub const LENGTH_SIZE: usize = 4;

/// Maximum frame payload size: 1 MiB (for file chunks)
pub const MAX_FRAME_SIZE: u32 = 1_048_576;

/// Why a frame could not be exchanged.
#[derive(Debug, Clone)]
pub enum ProtoError {
    Io(String),
    Serde(String),
    VersionMismatch { got: u8, expected: u8 },
    FrameTooLarge { size: u32, max: u32 },
    ConnectionClosed,
}

impl ProtoError {
    /// The text of an error.
    pub open spec fn text(self) -> Seq<char> {
        match self {
            ProtoError::Io(e) => "IO error: "@ + e@,
            ProtoError::Serde(e) => "Serialization error: "@ + e@,
            ProtoError::VersionMismatch { got, expected } => "Protocol version mismatch: got "@
                + text::decimal(got as nat) + ", expected "@ + text::decimal(expected as nat),
            ProtoError::FrameTooLarge { size, max } => "Frame too large: "@ + text::decimal(
                size as nat,
            ) + " bytes (max "@ + text::decimal(max as nat) + ")"@,
            ProtoError::ConnectionClosed => "Connection closed"@,
        }
    }

    /// The text of an error.
    pub fn message(&self) -> (r: String)
        ensures
            r@ == self.text(),
    {
        match self {
            ProtoError::Io(e) => text::join2("IO error: ", e.as_str()),
            ProtoError::Serde(e) => text::join2("Serialization error: ", e.as_str()),
            ProtoError::VersionMismatch { got, expected } => text::join4(
                "Protocol version mismatch: got ",
                text::decimal_text(*got as u64).as_str(),
                ", expected ",
                text::decimal_text(*expected as u64).as_str(),
            ),
            ProtoError::FrameTooLarge { size, max } => text::join5(
                "Frame too large: ",
                text::decimal_text(*size as u64).as_str(),
                " bytes (max ",
                text::decimal_text(*max as u64).as_str(),
                ")",
            ),
            ProtoError::ConnectionClosed => "Connection closed".to_owned(),
        }
    }
}

// ── Numbers in four bytes ───────────────────────────────────

/// A number in four bytes, the most significant one first.
pub open spec fn be32(n: u32) -> Seq<u8> {
    seq![
        (n / 0x100_0000) as u8,
        (n / 0x1_0000 % 0x100) as u8,
        (n / 0x100 % 0x100) as u8,
        (n % 0x100) as u8,
    ]
}

/// A number in four bytes, the least significant one first.
pub open spec fn le32(n: u32) -> Seq<u8> {
    be32(n).reverse()
}

/// The number whose bytes are `a`, `b`, `c`, `d`, the most significant first.
pub open spec fn from_be32(a: u8, b: u8, c: u8, d: u8) -> u32 {
    (a * 0x100_0000 + b * 0x1_0000 + c * 0x100 + d) as u32
}

/// Four bytes hold a number exactly.
pub proof fn lemma_be32(n: u32)
    ensures
        be32(n).len() == 4,
        from_be32(be32(n)[0], be32(n)[1], be32(n)[2], be32(n)[3]) == n,
{
    assert(n == n / 0x100_0000 * 0x100_0000 + n / 0x1_0000 % 0x100 * 0x1_0000 + n / 0x100 % 0x100
        * 0x100 + n % 0x100);
}

fn be_bytes(n: u32) -> (r: [u8; 4])
    ensures
        r@ == be32(n),
{
    let r = [
        (n / 0x100_0000) as u8,
        (n / 0x1_0000 % 0x100) as u8,
        (n / 0x100 % 0x100) as u8,
        (n % 0x100) as u8,
    ];
    assert(r@ =~= be32(n));
    r
}

fn le_bytes(n: u32) -> (r: [u8; 4])
    ensures
        r@ == le32(n),
{
    let b = be_bytes(n);
    let r = [b[3], b[2], b[1], b[0]];
    assert(r@ =~= le32(n));
    r
}

// ── Frames ──────────────────────────────────────────────────

/// The length of a payload as a frame can tell it.
pub open spec fn announced(payload: Seq<u8>) -> u32 {
    if payload.len() <= u32::MAX {
        payload.len() as u32
    } else {
        u32::MAX
    }
}

/// The bytes of the frame for a payload.
pub open spec fn frame(payload: Seq<u8>) -> Seq<u8> {
    seq![PROTOCOL_VERSION] + be32(announced(payload)) + payload
}

/// The frame for a payload. It is refused where the payload is longer than the
/// limit.
pub fn encode_frame(payload: &[u8]) -> (r: Result<Vec<u8>, ProtoError>)
    ensures
        match r {
            Ok(bytes) => payload@.len() <= MAX_FRAME_SIZE && bytes@ == frame(payload@),
            Err(e) => payload@.len() > MAX_FRAME_SIZE && e == (ProtoError::FrameTooLarge {
                size: announced(payload@),
                max: MAX_FRAME_SIZE,
            }),
        },
{
    let len: u32 = if payload.len() as u64 <= u32::MAX as u64 {
        payload.len() as u32
    } else {
        u32::MAX
    };
    if len > MAX_FRAME_SIZE {
        return Err(ProtoError::FrameTooLarge { size: len, max: MAX_FRAME_SIZE });
    }
    let mut out: Vec<u8> = Vec::new();
    out.push(PROTOCOL_VERSION);
    bytes::append(&mut out, be_bytes(len).as_slice());
    bytes::append(&mut out, payload);
    assert(out@ =~= frame(payload@));
    Ok(out)
}

/// Checks the first byte of a frame.
pub fn check_version(version: u8) -> (r: Result<(), ProtoError>)
    ensures
        match r {
            Ok(_) => version == PROTOCOL_VERSION,
            Err(e) => version != PROTOCOL_VERSION && e == (ProtoError::VersionMismatch {
                got: version,
                expected: PROTOCOL_VERSION,
            }),
        },
{
    if version != PROTOCOL_VERSION {
        Err(ProtoError::VersionMismatch { got: version, expected: PROTOCOL_VERSION })
    } else {
        Ok(())
    }
}

/// Reads the length that follows the version: how long the payload is.
pub fn check_length(header: [u8; 4]) -> (r: Result<u32, ProtoError>)
    ensures
        ({
            let len = from_be32(header@[0], header@[1], header@[2], header@[3]);
            match r {
                Ok(n) => len <= MAX_FRAME_SIZE && n == len,
                Err(e) => len > MAX_FRAME_SIZE && e == (ProtoError::FrameTooLarge {
                    size: len,
                    max: MAX_FRAME_SIZE,
                }),
            }
        }),
{
    let len: u32 = header[0] as u32 * 0x100_0000 + header[1] as u32 * 0x1_0000 + header[2] as u32
        * 0x100 + header[3] as u32;
    if len > MAX_FRAME_SIZE {
        Err(ProtoError::FrameTooLarge { size: len, max: MAX_FRAME_SIZE })
    } else {
        Ok(len)
    }
}

/// What the failure to read the first byte of a frame means: the end of the
/// stream there is the end of the connection.
pub fn first_byte_error(end_of_stream: bool, cause: String) -> (r: ProtoError)
    ensures
        end_of_stream ==> r == ProtoError::ConnectionClosed,
        !end_of_stream ==> r == ProtoError::Io(cause),
{
    if end_of_stream {
        ProtoError::ConnectionClosed
    } else {
        ProtoError::Io(cause)
    }
}

/// What a reader makes of a stream of bytes: the payload of the first frame
/// and the rest of the stream, once all of the frame is there.
pub open spec fn parse_frame(stream: Seq<u8>) -> Option<(Seq<u8>, Seq<u8>)> {
    if stream.len() < 5 || stream[0] != PROTOCOL_VERSION {
        None
    } else {
        let len = from_be32(stream[1], stream[2], stream[3], stream[4]);
        if len > MAX_FRAME_SIZE || stream.len() < 5 + len {
            None
        } else {
            Some((stream.subrange(5, 5 + len), stream.skip(5 + len)))
        }
    }
}

/// What a frame carries is read back exactly, and nothing of what follows it
/// is touched.
pub proof fn law_frame_is_read_back(payload: Seq<u8>, rest: Seq<u8>)
    requires
        payload.len() <= MAX_FRAME_SIZE,
    ensures
        parse_frame(frame(payload) + rest) == Some((payload, rest)),
{
    let stream = frame(payload) + rest;
    let n = payload.len() as u32;
    lemma_be32(n);
    assert(stream.subrange(1, 5) =~= be32(n));
    assert(stream[1] == be32(n)[0] && stream[2] == be32(n)[1] && stream[3] == be32(n)[2]
        && stream[4] == be32(n)[3]);
    assert(stream.subrange(5, 5 + n) =~= payload);
    assert(stream.skip(5 + n) =~= rest);
}

// ── Padding ─────────────────────────────────────────────────

/// The length of a payload after padding: the least multiple of the block size
/// that has room for the payload and for the four bytes of its length.
pub open spec fn padded_len(len: nat) -> nat {
    ((len + 3) / PAD_BLOCK_SIZE as nat + 1) * PAD_BLOCK_SIZE as nat
}

/// Zero bytes.
pub open spec fn zeros(n: nat) -> Seq<u8> {
    Seq::new(n, |i: int| 0u8)
}

/// A payload behind its length, brought to the padded length by zero bytes.
pub open spec fn padded(data: Seq<u8>) -> Seq<u8> {
    le32(data.len() as u32) + data + zeros((padded_len(data.len()) - 4 - data.len()) as nat)
}

/// What padding hides: the bytes that the leading length counts, if they are
/// there.
pub open spec fn unpadded(bytes: Seq<u8>) -> Option<Seq<u8>> {
    if bytes.len() < 4 {
        None
    } else {
        let len = from_be32(bytes[3], bytes[2], bytes[1], bytes[0]);
        if len + 4 > bytes.len() {
            None
        } else {
            Some(bytes.subrange(4, 4 + len))
        }
    }
}

/// Pads a payload to a multiple of the block size.
pub fn pad_payload(data: &[u8]) -> (r: Vec<u8>)
    requires
        data@.len() + LENGTH_SIZE + PAD_BLOCK_SIZE <= usize::MAX,
    ensures
        r@ == padded(data@),
        r@.len() == padded_len(data@.len()),
        r@.len() % PAD_BLOCK_SIZE as nat == 0,
{
    let full: usize = (data.len() + 3) / PAD_BLOCK_SIZE;
    assert(full * PAD_BLOCK_SIZE <= data@.len() + 3);
    let padded_len: usize = (full + 1) * PAD_BLOCK_SIZE;
    let mut out: Vec<u8> = Vec::with_capacity(padded_len);
    let len: u32 = #[verifier::truncate]
    (data.len() as u32);
    bytes::append(&mut out, le_bytes(len).as_slice());
    bytes::append(&mut out, data);
    assert(out@ =~= le32(data@.len() as u32) + data@);
    out.resize(padded_len, 0);
    assert(out@ =~= padded(data@));
    out
}

/// Takes the padding off.
pub fn unpad_payload(padded: &[u8]) -> (r: Option<Vec<u8>>)
    ensures
        bytes::opt_bytes(r) == unpadded(padded@),
{
    if padded.len() < 4 {
        return None;
    }
    let len: u32 = padded[3] as u32 * 0x100_0000 + padded[2] as u32 * 0x1_0000 + padded[1] as u32
        * 0x100 + padded[0] as u32;
    if len as usize > padded.len() - 4 {
        return None;
    }
    Some(bytes::copy_bytes(slice_subrange(padded, 4, 4 + len as usize)))
}

/// Padding is undone exactly, for every payload whose length fits in the four
/// bytes that are kept for it.
pub proof fn law_padding_is_undone(data: Seq<u8>)
    requires
        data.len() <= u32::MAX,
    ensures
        unpadded(padded(data)) == Some(data),
{
    let n = data.len() as u32;
    lemma_be32(n);
    let p = padded(data);
    assert(p.take(4) =~= le32(n));
    assert(p[0] == le32(n)[0] && p[1] == le32(n)[1] && p[2] == le32(n)[2] && p[3] == le32(n)[3]);
    assert(p.subrange(4, 4 + n) =~= data);
}

/// A padded payload fills whole blocks, and no block more than it needs.
pub proof fn law_padding_fills_blocks(data: Seq<u8>)
    ensures
        padded(data).len() == padded_len(data.len()),
        padded_len(data.len()) % PAD_BLOCK_SIZE as nat == 0,
        data.len() + 4 <= padded_len(data.len()) < data.len() + 4 + PAD_BLOCK_SIZE,
{
}

/// The length of a padded payload tells the length of the payload only up to
/// the block size.
pub proof fn law_padding_hides_length(a: Seq<u8>, b: Seq<u8>)
    requires
        (a.len() + 3) / PAD_BLOCK_SIZE as nat == (b.len() + 3) / PAD_BLOCK_SIZE as nat,
    ensures
        padded(a).len() == padded(b).len(),
{
}

/// A frame is its version, then the length of the payload with the most
/// significant byte first, then the payload.
pub proof fn law_frame_is_version_length_payload(payload: Seq<u8>)
    requires
        payload.len() <= MAX_FRAME_SIZE,
    ensures
        ({
            let f = frame(payload);
            &&& f.len() == 5 + payload.len()
            &&& f[0] == PROTOCOL_VERSION
            &&& f[1] * 0x100_0000 + f[2] * 0x1_0000 + f[3] * 0x100 + f[4] == payload.len()
            &&& f.skip(5) == payload
        }),
{
    let f = frame(payload);
    lemma_be32(payload.len() as u32);
    assert(f.subrange(1, 5) =~= be32(payload.len() as u32));
    assert(f[1] == be32(payload.len() as u32)[0] && f[2] == be32(payload.len() as u32)[1] && f[3]
        == be32(payload.len() as u32)[2] && f[4] == be32(payload.len() as u32)[3]);
    assert(f.skip(5) =~= payload);
}

/// Four bytes stand for the number that they spell in the system of 256, the first
/// byte the most significant.
pub proof fn law_four_bytes_spell_a_number(a: u8, b: u8, c: u8, d: u8)
    ensures
        from_be32(a, b, c, d) == a * 0x100_0000 + b * 0x1_0000 + c * 0x100 + d,
{
}

/// A payload of any length announces its length, up to what four bytes can tell.
pub proof fn law_length_is_announced(payload: Seq<u8>)
    ensures
        payload.len() <= u32::MAX ==> announced(payload) == payload.len(),
        payload.len() > u32::MAX ==> announced(payload) == u32::MAX,
{
}

/// A padded payload is the length of the payload, with the least significant byte
/// first, then the payload, and then nothing but zeros.
pub proof fn law_padding_is_length_payload_zeros(data: Seq<u8>, i: int)
    requires
        data.len() <= u32::MAX,
    ensures
        ({
            let p = padded(data);
            &&& p[0] + p[1] * 0x100 + p[2] * 0x1_0000 + p[3] * 0x100_0000 == data.len()
            &&& p.subrange(4, 4 + data.len() as int) == data
            &&& 4 + data.len() <= i < p.len() ==> p[i] == 0
        }),
{
    let p = padded(data);
    let n = data.len() as u32;
    lemma_be32(n);
    assert(p.take(4) =~= le32(n));
    assert(p[0] == le32(n)[0] && p[1] == le32(n)[1] && p[2] == le32(n)[2] && p[3] == le32(n)[3]);
    assert(p.subrange(4, 4 + data.len() as int) =~= data);
}

/// What stands behind a length is taken as far as the length says, and nothing is
/// taken where there is less than that.
pub proof fn law_unpadding_takes_what_the_length_says(bytes: Seq<u8>)
    ensures
        bytes.len() < 4 ==> unpadded(bytes) is None,
        bytes.len() >= 4 ==> {
            let n = bytes[0] + bytes[1] * 0x100 + bytes[2] * 0x1_0000 + bytes[3] * 0x100_0000;
            &&& 4 + n <= bytes.len() ==> unpadded(bytes) == Some(bytes.subrange(4, 4 + n))
            &&& 4 + n > bytes.len() ==> unpadded(bytes) is None
        },
{
}

/// An error tells what was the matter, with the numbers or the words that belong to
/// it.
pub proof fn law_frame_errors_say_what_failed(cause: String, got: u8, size: u32, max: u32)
    ensures
        ProtoError::Io(cause).text() == "IO error: "@ + cause@,
        ProtoError::Serde(cause).text() == "Serialization error: "@ + cause@,
        ProtoError::ConnectionClosed.text() == "Connection closed"@,
        (ProtoError::VersionMismatch { got, expected: PROTOCOL_VERSION }).text()
            == "Protocol version mismatch: got "@ + text::decimal(got as nat) + ", expected "@
            + text::decimal(PROTOCOL_VERSION as nat),
        (ProtoError::FrameTooLarge { size, max }).text() == "Frame too large: "@ + text::decimal(
            size as nat,
        ) + " bytes (max "@ + text::decimal(max as nat) + ")"@,
{
}

} // verus!
