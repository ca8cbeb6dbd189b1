//! Construction-time failures of the noise core.

use vstd::prelude::*;

verus! {

/// Everything that can go wrong while building the core's data structures.
///
/// All failures are synchronous construction errors; once a stream exists,
/// stepping it never fails.
#[derive(Clone, Copy, Debug, PartialEq, Eq, Structural)]
pub enum Error {
    /// A buffer did not have the exact length a constructor demanded.
    LengthMismatch,
    /// A chunk list was empty where at least one chunk was needed.
    EmptyChunks,
    /// Fewer than two chunks were supplied to the blending constructor.
    TooFewChunks,
    /// A chunk was too short to leave room for a full blend window at each
    /// of its ends.
    ChunkTooShort,
    /// A blend window of zero samples was requested.
    ZeroWindow,
}

} // verus!
