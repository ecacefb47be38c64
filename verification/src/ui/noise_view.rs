//! Outcome of the noise view.
use vstd::prelude::*;

verus! {

/// What the user did in the noise view during one frame.
#[derive(Clone, Copy, Debug, PartialEq, Eq, Structural)]
pub struct NoiseResponse {
    /// The kind or the volume changed.
    pub changed: bool,
    /// Playback was asked to start or stop.
    pub play_toggle: bool,
}

} // verus!
