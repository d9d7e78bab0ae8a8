//! The wire protocol: the values every message shares and the framing that
//! carries each serialized message.
//!
//! A frame is a `u32` little-endian payload length followed by the payload.
//! A reader refuses any frame that announces more than `MAX_FRAME_SIZE` bytes.
use vstd::prelude::*;

verus! {

// Modifier bitfield carried in key messages.
pub const MOD_SHIFT: u8 = 0x01;

pub const MOD_CTRL: u8 = 0x02;

pub const MOD_ALT: u8 = 0x04;

pub const MOD_META: u8 = 0x08;

/// The largest payload a reader accepts: 1 MiB.
pub const MAX_FRAME_SIZE: u32 = 1024 * 1024;

#[derive(Debug, Clone, Copy, PartialEq, Eq, Structural)]
pub enum MouseButton {
    Left,
    Right,
    Middle,
}

/// Why a frame cannot be read.
#[derive(Debug, Clone, Copy, PartialEq, Eq, Structural)]
pub enum FrameError {
    /// The length prefix announces more than `MAX_FRAME_SIZE` bytes.
    TooLarge { len: u32 },
}

/// The four little-endian bytes of `x`.
pub open spec fn le_bytes(x: u32) -> Seq<u8> {
    seq![
        (x % 256) as u8,
        ((x / 256) % 256) as u8,
        ((x / 65536) % 256) as u8,
        (x / 16777216) as u8,
    ]
}

/// The number whose little-endian bytes are the first four of `b`.
pub open spec fn from_le_bytes(b: Seq<u8>) -> u32
    recommends
        b.len() >= 4,
{
    (b[0] + 256 * b[1] + 65536 * b[2] + 16777216 * b[3]) as u32
}

/// The bytes of the frame that carries `payload`.
pub open spec fn frame_bytes(payload: Seq<u8>) -> Seq<u8> {
    le_bytes(payload.len() as u32) + payload
}

/// What a reader makes of a frame header: the payload length, or the refusal.
pub open spec fn spec_frame_len(header: Seq<u8>) -> Result<u32, FrameError> {
    let len = from_le_bytes(header);
    if len > MAX_FRAME_SIZE {
        Err(FrameError::TooLarge { len })
    } else {
        Ok(len)
    }
}

/// The length prefix for a payload of `len` bytes.
pub fn frame_header(len: u32) -> (header: [u8; 4])
    ensures
        header@ == le_bytes(len),
{
    let header = [
        (len % 256) as u8,
        ((len / 256) % 256) as u8,
        ((len / 65536) % 256) as u8,
        (len / 16777216) as u8,
    ];
    assert(header@ =~= le_bytes(len));
    header
}

/// The frame that carries `payload`: its length as a little-endian `u32`, then
/// the payload. As the length is written as a `u32`, a payload of 4 GiB or more
/// gets its length modulo 2^32; no message comes near that.
pub fn encode_frame(payload: &[u8]) -> (frame: Vec<u8>)
    ensures
        frame@ == frame_bytes(payload@),
{
    let len = payload.len() as u32;
    let header = frame_header(len);
    let mut frame: Vec<u8> = Vec::new();
    frame.push(header[0]);
    frame.push(header[1]);
    frame.push(header[2]);
    frame.push(header[3]);
    frame.extend_from_slice(payload);
    assert(frame@ =~= frame_bytes(payload@));
    frame
}

/// Read a frame header: the payload length it announces, or `TooLarge` when
/// that is more than `MAX_FRAME_SIZE`.
pub fn frame_len(header: [u8; 4]) -> (r: Result<u32, FrameError>)
    ensures
        r == spec_frame_len(header@),
{
    let len: u32 = header[0] as u32 + (header[1] as u32) * 256 + (header[2] as u32) * 65536
        + (header[3] as u32) * 16777216;
    if len > MAX_FRAME_SIZE {
        Err(FrameError::TooLarge { len })
    } else {
        Ok(len)
    }
}

/// Reading the little-endian bytes of a number gives the number back.
pub proof fn lemma_le_bytes_roundtrip(x: u32)
    ensures
        from_le_bytes(le_bytes(x)) == x,
{
}

/// A frame read from the front of a stream gives back the payload that was
/// written, and leaves the stream just after it: frames written one after
/// another are read back one after another, in order.
pub proof fn lemma_frame_roundtrip(payload: Seq<u8>, rest: Seq<u8>)
    requires
        payload.len() <= MAX_FRAME_SIZE,
    ensures
        ({
            let stream = frame_bytes(payload) + rest;
            &&& spec_frame_len(stream.take(4)) == Ok::<u32, FrameError>(payload.len() as u32)
            &&& stream.skip(4).take(payload.len() as int) == payload
            &&& stream.skip(4 + payload.len() as int) == rest
        }),
{
    let stream = frame_bytes(payload) + rest;
    lemma_le_bytes_roundtrip(payload.len() as u32);
    assert(stream.take(4) =~= le_bytes(payload.len() as u32));
    assert(stream.skip(4).take(payload.len() as int) =~= payload);
    assert(stream.skip(4 + payload.len() as int) =~= rest);
}

/// A header announcing more than `MAX_FRAME_SIZE` bytes is refused, whatever follows it.
pub proof fn lemma_oversized_frame_refused(len: u32, rest: Seq<u8>)
    requires
        len > MAX_FRAME_SIZE,
    ensures
        spec_frame_len((le_bytes(len) + rest).take(4)) == Err::<u32, FrameError>(
            FrameError::TooLarge { len },
        ),
{
    lemma_le_bytes_roundtrip(len);
    assert((le_bytes(len) + rest).take(4) =~= le_bytes(len));
}

} // verus!
