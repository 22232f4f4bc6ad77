//! A realtime-multiplayer transport facade: connect to a matchmaking
//! backend, exchange opaque binary match messages, and observe peers
//! joining and leaving, behind one backend-agnostic surface.

pub mod client;
pub mod codec;
pub mod handshake;
pub mod mailbox;
pub mod model;

use vstd::prelude::*;

verus! {

/// The crate's version, packed as `major << 24 | minor << 16 | patch`.
pub fn quad_nakama_crate_version() -> (r: u32)
    ensures
        r == 0x0001_0001u32,
{
    let r: u32 = (0u32 << 24) | (1u32 << 16) | 1u32;
    proof {
        assert(((0u32 << 24) | (1u32 << 16) | 1u32) == 0x0001_0001u32) by (bit_vector);
    }
    r
}

} // verus!
