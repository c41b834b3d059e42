//! Commands that a controller sends to a running playback engine.

use vstd::prelude::*;
use crate::media::MediaSpec;

verus! {

/// One control request. Requests are applied one at a time, in the order
/// they were sent.
#[derive(Clone, Copy, PartialEq, Eq, Debug, Structural)]
pub enum PlayerCommand {
    /// Switch to a new source with the given format.
    Play(MediaSpec),
    /// Leave the paused state.
    Resume,
    /// Enter the paused state, keeping everything that is buffered.
    Pause,
}

} // verus!
