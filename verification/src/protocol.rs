//! Commands the control surface sends to the playback daemon.
//!
//! The datagram channel that carries them — sockets, encoding, buffering —
//! lives in the surrounding shell; this module only defines what a command
//! is.

use vstd::prelude::*;

use crate::Weights;

verus! {

/// Upper bound, in bytes, on one encoded command on the wire.
pub const GUI_COMMAND_BUF_LEN: usize = 1024;

/// One command from the control surface.
#[derive(Debug)]
pub enum GUICommand {
    /// Replace the band weights and restart playback with them.
    SetWeights(Weights),
    /// Pause or resume playback.
    Toggle,
    /// Shut the daemon down.
    Quit,
}

impl Clone for GUICommand {
    /// A copy carries the same command, weights included.
    fn clone(&self) -> (r: Self)
        ensures
            self is Toggle ==> r is Toggle,
            self is Quit ==> r is Quit,
            self matches GUICommand::SetWeights(w) ==> (r matches GUICommand::SetWeights(w2)
                && w2@ == w@),
    {
        match self {
            GUICommand::SetWeights(w) => GUICommand::SetWeights(w.clone()),
            GUICommand::Toggle => GUICommand::Toggle,
            GUICommand::Quit => GUICommand::Quit,
        }
    }
}

} // verus!
