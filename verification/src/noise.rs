//! Deterministic pseudo-random noise for jitter simulation.
//!
//! A 64-bit state is mixed by three fixed shift-and-xor steps per call.
//! The same seed always produces the same stream, so a replayed tick
//! sequence reproduces its noise exactly. This is a reproducibility tool,
//! not a cryptographic generator.

use vstd::prelude::*;

verus! {

/// One mixing step of the noise generator: three shift-and-xor rounds.
pub open spec fn spec_xorshift(state: u64) -> u64 {
    let a = state ^ (state << 13);
    let b = a ^ (a >> 7);
    b ^ (b << 17)
}

/// Advance the noise generator state by one step.
pub fn xorshift(state: u64) -> (r: u64)
    ensures
        r == spec_xorshift(state),
{
    let mut s = state;
    s = s ^ (s << 13);
    s = s ^ (s >> 7);
    s = s ^ (s << 17);
    s
}

} // verus!
