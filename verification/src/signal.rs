//! The ternary motor signal: a polarity and a magnitude.
//!
//! Motor (efferent) tracts carry commands in this form: polarity -1, 0 or
//! +1 gives the direction (contract, rest, release), and the magnitude a
//! bounded 0..=255 strength. A silent channel is polarity 0 with
//! magnitude 0.

use vstd::prelude::*;

verus! {

/// A polarity-and-magnitude motor signal.
#[derive(Clone, Copy, Debug, PartialEq, Eq, Structural)]
pub struct Signal {
    /// Direction of the command: -1, 0 or +1.
    pub polarity: i8,
    /// Strength of the command, 0..=255.
    pub magnitude: u8,
}

/// The silent signal: polarity 0, magnitude 0.
pub open spec fn zero_signal() -> Signal {
    Signal { polarity: 0, magnitude: 0 }
}

impl Signal {
    /// A signal is well formed when its polarity is -1, 0 or +1.
    pub open spec fn wf(self) -> bool {
        -1 <= self.polarity <= 1
    }

    /// The silent signal.
    pub fn zero() -> (r: Signal)
        ensures
            r == zero_signal(),
    {
        Signal { polarity: 0, magnitude: 0 }
    }
}

impl Default for Signal {
    /// The default signal is silent.
    fn default() -> (r: Signal)
        ensures
            r == zero_signal(),
    {
        Signal { polarity: 0, magnitude: 0 }
    }
}

} // verus!
