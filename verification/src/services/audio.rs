//! Noise kinds and the decisions of the noise player.
use vstd::prelude::*;

verus! {

/// Kinds of continuous noise.
#[derive(Clone, Copy, Debug, PartialEq, Eq, Structural)]
pub enum NoiseKind {
    White,
    Pink,
    Brown,
}

/// Name of a noise kind shown in the interface.
pub open spec fn noise_label(kind: NoiseKind) -> Seq<char> {
    match kind {
        NoiseKind::White => "Blanco"@,
        NoiseKind::Pink => "Rosa"@,
        NoiseKind::Brown => "Marrón"@,
    }
}

impl NoiseKind {
    /// Every kind, in the order shown to the user.
    pub const ALL: [NoiseKind; 3] = [NoiseKind::White, NoiseKind::Pink, NoiseKind::Brown];

    /// Name shown in the interface.
    pub fn label(self) -> (r: &'static str)
        ensures
            r@ == noise_label(self),
    {
        match self {
            NoiseKind::White => "Blanco",
            NoiseKind::Pink => "Rosa",
            NoiseKind::Brown => "Marrón",
        }
    }
}

/// What the player does when another kind of noise is chosen.
#[derive(Clone, Copy, Debug, PartialEq, Eq, Structural)]
pub enum KindChange {
    /// The same kind: nothing to do.
    Keep,
    /// Stop any playback, switch to the new kind, and start it again when
    /// `restart` (it was playing before).
    Switch { restart: bool },
}

/// The player's response to choosing `requested` while `current` is
/// selected and `playing` tells whether it sounds.
pub fn kind_change(current: NoiseKind, requested: NoiseKind, playing: bool) -> (r: KindChange)
    ensures
        r == if current == requested {
            KindChange::Keep
        } else {
            KindChange::Switch { restart: playing }
        },
{
    if current == requested {
        KindChange::Keep
    } else {
        KindChange::Switch { restart: playing }
    }
}

/// A volume percentage limited to 100.
pub fn capped_volume(volume: u8) -> (r: u8)
    ensures
        r == if volume <= 100 { volume } else { 100 },
{
    if volume <= 100 {
        volume
    } else {
        100
    }
}

/// What the play button does.
#[derive(Clone, Copy, Debug, PartialEq, Eq, Structural)]
pub enum PlayToggle {
    /// Stop the noise that is playing.
    Stop,
    /// Start the noise, creating the output first when there is none.
    Start { create_output: bool },
}

/// The play button's effect, given whether an audio output exists and
/// whether it is playing.
pub fn play_toggle(has_output: bool, playing: bool) -> (r: PlayToggle)
    ensures
        r == if has_output && playing {
            PlayToggle::Stop
        } else {
            PlayToggle::Start { create_output: !has_output }
        },
{
    if has_output && playing {
        PlayToggle::Stop
    } else {
        PlayToggle::Start { create_output: !has_output }
    }
}

} // verus!
