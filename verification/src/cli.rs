//! The shape of a command-line invocation.

use vstd::prelude::*;

verus! {

/// Maintenance of the media library.
#[derive(Clone, Copy, PartialEq, Eq, Debug, Structural)]
pub enum PlayListCommands {
    Init,
    Refresh,
}

/// What the program was asked to do.
#[derive(Clone, Debug)]
pub enum Commands {
    /// Play one file on one output device.
    Play { path: String, device: String },
    /// Work on the media library.
    PlayList { command: PlayListCommands },
}

/// A parsed invocation.
#[derive(Clone, Debug)]
pub struct Args {
    pub command: Commands,
}

} // verus!
