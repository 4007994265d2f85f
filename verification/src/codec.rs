//! Fixed-width frame codec: one `u64` per frame, 8 bytes, little-endian.
//!
//! Decoding is stateful: a codec instance produces at most one frame. Once a
//! frame has been produced the codec is exhausted and every further decode
//! yields "no more frames", which enforces the one-exchange-per-connection
//! model. Before the first frame, a buffer holding fewer than 8 bytes is an
//! immediate frame error, not a wait condition.

use vstd::prelude::*;

verus! {

/// Number of bytes in one wire frame.
pub const FRAME_LEN: usize = 8;

/// The little-endian bytes of `v`, least significant first.
pub open spec fn frame_of(v: u64) -> Seq<u8> {
    seq![
        v as u8,
        (v >> 8) as u8,
        (v >> 16) as u8,
        (v >> 24) as u8,
        (v >> 32) as u8,
        (v >> 40) as u8,
        (v >> 48) as u8,
        (v >> 56) as u8,
    ]
}

/// The value carried by the first 8 bytes of `s`, read little-endian.
pub open spec fn frame_value(s: Seq<u8>) -> u64
    recommends
        s.len() >= 8,
{
    (s[0] as u64) | ((s[1] as u64) << 8) | ((s[2] as u64) << 16) | ((s[3] as u64) << 24)
        | ((s[4] as u64) << 32) | ((s[5] as u64) << 40) | ((s[6] as u64) << 48) | ((s[7]
        as u64) << 56)
}

/// Reading back the encoded bytes of `v` yields `v` again.
pub proof fn lemma_frame_round_trip(v: u64)
    ensures
        frame_of(v).len() == 8,
        frame_value(frame_of(v)) == v,
{
    assert(((v as u8) as u64) | (((v >> 8) as u8 as u64) << 8) | (((v >> 16) as u8 as u64) << 16)
        | (((v >> 24) as u8 as u64) << 24) | (((v >> 32) as u8 as u64) << 32) | (((v >> 40) as u8
        as u64) << 40) | (((v >> 48) as u8 as u64) << 48) | (((v >> 56) as u8 as u64) << 56)
        == v) by (bit_vector);
}

/// A decode failure: the bytes currently buffered do not hold a whole frame.
#[derive(Clone, Copy, Debug, PartialEq, Eq, Structural)]
pub struct FrameError;

/// Codec for a single frame. `done` records whether the one frame this
/// instance may produce has already been produced.
pub struct UintCodec {
    done: bool,
}

impl UintCodec {
    /// Whether this codec has already produced its one frame.
    pub closed spec fn is_done(&self) -> bool {
        self.done
    }

    /// A fresh codec, ready to produce one frame.
    pub fn new() -> (c: UintCodec)
        ensures
            !c.is_done(),
    {
        UintCodec { done: false }
    }

    /// Append the 8-byte little-endian frame of `item` to `buf`.
    /// Encoding has no precondition and cannot fail.
    pub fn encode(&mut self, item: u64, buf: &mut Vec<u8>)
        ensures
            final(buf)@ == old(buf)@ + frame_of(item),
            final(self).is_done() == old(self).is_done(),
    {
        buf.push(item as u8);
        buf.push((item >> 8) as u8);
        buf.push((item >> 16) as u8);
        buf.push((item >> 24) as u8);
        buf.push((item >> 32) as u8);
        buf.push((item >> 40) as u8);
        buf.push((item >> 48) as u8);
        buf.push((item >> 56) as u8);
        assert(buf@ =~= old(buf)@ + frame_of(item));
    }

    /// Try to decode one frame from the front of `buf`.
    ///
    /// An exhausted codec reports "no more frames" (`Ok(None)`) and leaves the
    /// buffer alone. A fresh codec consumes exactly 8 bytes and yields their
    /// value, or fails at once when fewer than 8 bytes are buffered.
    pub fn decode(&mut self, buf: &mut Vec<u8>) -> (r: Result<Option<u64>, FrameError>)
        ensures
            old(self).is_done() ==> r == Ok::<Option<u64>, FrameError>(None)
                && final(self).is_done() && final(buf)@ == old(buf)@,
            !old(self).is_done() && old(buf)@.len() >= 8 ==> r == Ok::<Option<u64>, FrameError>(
                Some(frame_value(old(buf)@)),
            ) && final(self).is_done() && final(buf)@ == old(buf)@.skip(8),
            !old(self).is_done() && old(buf)@.len() < 8 ==> r == Err::<Option<u64>, FrameError>(
                FrameError,
            ) && !final(self).is_done() && final(buf)@ == old(buf)@,
    {
        if self.done {
            return Ok(None);
        }
        if buf.len() >= FRAME_LEN {
            self.done = true;
            let b0 = buf[0] as u64;
            let b1 = buf[1] as u64;
            let b2 = buf[2] as u64;
            let b3 = buf[3] as u64;
            let b4 = buf[4] as u64;
            let b5 = buf[5] as u64;
            let b6 = buf[6] as u64;
            let b7 = buf[7] as u64;
            let v = b0 | (b1 << 8) | (b2 << 16) | (b3 << 24) | (b4 << 32) | (b5 << 40) | (b6 << 48)
                | (b7 << 56);
            let rest = buf.split_off(FRAME_LEN);
            *buf = rest;
            assert(buf@ =~= old(buf)@.skip(8));
            Ok(Some(v))
        } else {
            Err(FrameError)
        }
    }
}

} // verus!
