//! Message framing: a 4-byte big-endian length, then the message body.
//!
//! The body is JSON; turning messages into JSON and back belongs to the
//! network layer. This module builds and reads the frame around it.
use vstd::prelude::*;

use crate::msg::MAX_MSG_SIZE;

verus! {

/// The number a 4-byte big-endian header stands for.
pub open spec fn be_value(b: Seq<u8>) -> int {
    ((b[0] as int * 256 + b[1] as int) * 256 + b[2] as int) * 256 + b[3] as int
}

/// The 4-byte big-endian header of a body of `len` bytes; the length is
/// taken modulo 2^32, as a `u32` would hold it.
pub open spec fn be_header(len: int) -> Seq<u8> {
    let n = len % 0x1_0000_0000;
    seq![(n / 0x100_0000) as u8, (n / 0x1_0000 % 256) as u8, (n / 0x100 % 256) as u8, (n % 256) as u8]
}

/// Why a frame header is refused.
#[derive(Clone, Copy, Debug, PartialEq, Eq, Structural)]
pub enum FrameError {
    /// The announced body is longer than `MAX_MSG_SIZE`; holds the length.
    TooLarge(u32),
}

/// The header announcing a body of `len` bytes.
pub fn frame_header(len: usize) -> (h: [u8; 4])
    ensures
        h@ == be_header(len as int),
{
    let n: u64 = (len as u64) % 0x1_0000_0000;
    let h = [(n / 0x100_0000) as u8, (n / 0x1_0000 % 256) as u8, (n / 0x100 % 256) as u8, (n % 256) as u8];
    assert(h@ =~= be_header(len as int));
    h
}

/// The frame of a body: its header, then the body.
pub fn encode_frame(body: &[u8]) -> (r: Vec<u8>)
    ensures
        r@ == be_header(body@.len() as int) + body@,
{
    let h = frame_header(body.len());
    let mut out: Vec<u8> = Vec::new();
    out.push(h[0]);
    out.push(h[1]);
    out.push(h[2]);
    out.push(h[3]);
    let n = body.len();
    for i in 0..n
        invariant
            n == body@.len(),
            out@ == h@ + body@.take(i as int),
    {
        out.push(body[i]);
        assert(body@.take(i + 1) =~= body@.take(i as int).push(body@[i as int]));
        assert(out@ =~= h@ + body@.take(i + 1));
    }
    assert(body@.take(n as int) =~= body@);
    out
}

/// Length of the body announced by a header; refused when it is above
/// `MAX_MSG_SIZE`.
pub fn decode_frame_len(header: [u8; 4]) -> (r: Result<usize, FrameError>)
    ensures
        be_value(header@) <= MAX_MSG_SIZE ==> r == Ok::<usize, FrameError>(be_value(header@) as usize),
        be_value(header@) > MAX_MSG_SIZE ==> r == Err::<usize, FrameError>(
            FrameError::TooLarge(be_value(header@) as u32),
        ),
{
    let v: u32 = ((header[0] as u32 * 256 + header[1] as u32) * 256 + header[2] as u32) * 256
        + header[3] as u32;
    if v as usize > MAX_MSG_SIZE {
        Err(FrameError::TooLarge(v))
    } else {
        Ok(v as usize)
    }
}

/// Reading a header gives back the length it was written with: for any body
/// that a 4-byte length can announce, the header of its frame announces its
/// length, and the body follows the header. The reader accepts the frame
/// exactly when the body is at most `MAX_MSG_SIZE` bytes long.
pub proof fn law_frame_roundtrip(body: Seq<u8>)
    requires
        body.len() < 0x1_0000_0000,
    ensures
        be_value(be_header(body.len() as int)) == body.len(),
        be_value(be_header(body.len() as int)) <= MAX_MSG_SIZE <==> body.len() <= MAX_MSG_SIZE,
        (be_header(body.len() as int) + body).subrange(4, 4 + body.len() as int) == body,
{
    let n = body.len() as int;
    assert(n % 0x1_0000_0000 == n);
    let h = be_header(n);
    assert(be_value(h) == n) by (nonlinear_arith)
        requires
            0 <= n < 0x1_0000_0000,
            h[0] == (n / 0x100_0000) as u8,
            h[1] == (n / 0x1_0000 % 256) as u8,
            h[2] == (n / 0x100 % 256) as u8,
            h[3] == (n % 256) as u8,
            be_value(h) == ((h[0] as int * 256 + h[1] as int) * 256 + h[2] as int) * 256 + h[3] as int,
    ;
    assert((h + body).subrange(4, 4 + n) =~= body);
}

} // verus!
