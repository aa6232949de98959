//! Length-prefixed frames: a little-endian 32-bit count of the bytes that
//! follow, then the body.

use vstd::prelude::*;
use crate::wire::{push_u32_le, read_u32_le, u32_from_le, u32_le};

verus! {

/// The longest body a session accepts.
pub const MAX_FRAME_LEN: u32 = 1_000_000;

/// Why a frame is refused.
#[derive(Debug, Clone, Copy, PartialEq, Eq, Structural)]
pub enum FrameError {
    /// The announced length is zero.
    Empty,
    /// The announced length is over the limit.
    TooLong,
}

/// A body with its length in front.
pub open spec fn framed(body: Seq<u8>) -> Seq<u8> {
    u32_le(body.len() as u32) + body
}

/// Puts the length of `body` in front of it. `None` where the length does
/// not fit in 32 bits.
pub fn frame(body: &[u8]) -> (r: Option<Vec<u8>>)
    ensures
        body@.len() <= u32::MAX ==> r is Some && r->0@ == framed(body@),
        body@.len() > u32::MAX ==> r is None,
{
    let n: usize = body.len();
    if n > u32::MAX as usize {
        return None;
    }
    let mut out: Vec<u8> = Vec::new();
    push_u32_le(&mut out, n as u32);
    let mut i: usize = 0;
    while i < n
        invariant
            i <= n,
            n == body@.len(),
            out@ == u32_le(n as u32) + body@.subrange(0, i as int),
        decreases n - i,
    {
        out.push(body[i]);
        i = i + 1;
        assert(out@ =~= u32_le(n as u32) + body@.subrange(0, i as int));
    }
    assert(body@.subrange(0, n as int) =~= body@);
    Some(out)
}

/// The body length that a 4-byte prefix announces.
pub fn frame_len(prefix: &[u8; 4]) -> (len: u32)
    ensures
        len == u32_from_le(prefix@),
{
    let b0: u32 = prefix[0] as u32;
    let b1: u32 = prefix[1] as u32;
    let b2: u32 = prefix[2] as u32;
    let b3: u32 = prefix[3] as u32;
    b0 + 0x100 * b1 + 0x1_0000 * b2 + 0x100_0000 * b3
}

/// Accepts the announced length of a session message: at least one byte and
/// at most `MAX_FRAME_LEN`; any other length ends the session.
pub fn check_frame_len(len: u32) -> (r: Result<usize, FrameError>)
    ensures
        len == 0 ==> r == Err::<usize, FrameError>(FrameError::Empty),
        len > MAX_FRAME_LEN ==> r == Err::<usize, FrameError>(FrameError::TooLong),
        0 < len <= MAX_FRAME_LEN ==> r == Ok::<usize, FrameError>(len as usize),
{
    if len == 0 {
        Err(FrameError::Empty)
    } else if len > MAX_FRAME_LEN {
        Err(FrameError::TooLong)
    } else {
        Ok(len as usize)
    }
}

} // verus!
