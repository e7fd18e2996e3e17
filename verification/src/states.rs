//! The transport states of a voice.

use vstd::prelude::*;

verus! {

/// The state a voice can be in.
#[derive(Clone, Copy, PartialEq, Eq, Debug, Structural)]
pub enum State {
    /// Never played since it was created.
    Initial,
    /// Currently playing.
    Playing,
    /// Suspended; `play` resumes in place.
    Paused,
    /// Stopped, by request or because the voice ran out of audio.
    Stopped,
}

} // verus!
