//! The wire protocol descriptor shared by both roles: a transport is built by
//! pairing a byte stream with a frame codec, and each connection gets a fresh
//! codec, so each connection carries at most one frame in each direction.

use vstd::prelude::*;
use crate::codec::UintCodec;

verus! {

/// Marker for the one-exchange-per-connection `u64` protocol; requests and
/// responses use the same frame layout.
pub struct UintProto;

impl UintProto {
    /// The codec half of a new transport binding: every connection starts
    /// with a fresh codec, still able to produce its one frame. The byte
    /// stream it is paired with belongs to the I/O layer.
    pub fn bind_transport(&self) -> (c: UintCodec)
        ensures
            !c.is_done(),
    {
        UintCodec::new()
    }
}

} // verus!
