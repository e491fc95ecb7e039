//! The play / stop flag that the user toggles.

use vstd::prelude::*;

verus! {

/// Whether playback is on. The consumers at UI rate drain only while it is;
/// the render callback keeps its deadline either way.
#[derive(Clone, Copy, Debug, PartialEq, Eq, Structural)]
pub struct PlaybackState {
    /// Whether playback is on.
    pub is_playing: bool,
}

impl PlaybackState {
    /// Stopped, as the application starts.
    pub fn new() -> (state: Self)
        ensures
            !state.is_playing,
    {
        PlaybackState { is_playing: false }
    }

    /// Flips the flag. Returns whether playback has just begun, in which
    /// case the host sends the play command to the player.
    pub fn toggle(&mut self) -> (started: bool)
        ensures
            final(self).is_playing == !old(self).is_playing,
            started == final(self).is_playing,
    {
        self.is_playing = !self.is_playing;
        self.is_playing
    }
}

} // verus!
