//! Procedural colored-noise core: band-weight curves, fixed-length sample
//! chunks, and the streaming engine that turns chunks into an endless,
//! click-free sequence of output frames.
//!
//! Audio samples are carried throughout as the raw bit patterns of their
//! IEEE 754 single-precision encodings (`u32`).  All structural logic —
//! buffer invariants, cursor arithmetic, blend-window bookkeeping, chunk
//! rotation, channel layout — is verified here; the numeric work on the
//! encoded values (interpolation, transforms, random draws) is performed by
//! the surrounding, unverified shell, which exchanges bit patterns with this
//! library.

use vstd::prelude::*;

pub mod audio_bridge;
pub mod equalizer;
pub mod error;
pub mod generator;
pub mod protocol;
pub mod samples;
pub mod slots;

use crate::error::Error;

verus! {

/// Number of logarithmically spaced frequency bands under user control.
pub const WEIGHTS_NUM: usize = 32;

/// Bit pattern of the largest admissible band weight (the encoding of one).
pub const SEGMENTS_WEIGHT_MAX: u32 = 0x3F80_0000;

/// A full set of band weights: one encoded amplitude per frequency band.
///
/// Every value of this type holds exactly [`WEIGHTS_NUM`] entries.
#[derive(Debug)]
pub struct Weights {
    v: Vec<u32>,
}

impl Clone for Weights {
    /// A copy carries the same band weights.
    fn clone(&self) -> (r: Self)
        ensures
            r@ == self@,
    {
        proof {
            use_type_invariant(self);
        }
        Weights { v: self.v.clone() }
    }
}

impl View for Weights {
    type V = Seq<u32>;

    closed spec fn view(&self) -> Seq<u32> {
        self.v@
    }
}

impl Weights {
    #[verifier::type_invariant]
    closed spec fn type_inv(self) -> bool {
        self.v@.len() == WEIGHTS_NUM
    }

    /// Wraps a vector of encoded weights; fails unless it holds exactly
    /// [`WEIGHTS_NUM`] entries.
    pub fn new(v: Vec<u32>) -> (r: Result<Weights, Error>)
        ensures
            r is Ok <==> v@.len() == WEIGHTS_NUM,
            r matches Ok(w) ==> w@ == v@,
    {
        if v.len() == WEIGHTS_NUM {
            Ok(Weights { v })
        } else {
            Err(Error::LengthMismatch)
        }
    }

    /// The number of bands; always [`WEIGHTS_NUM`].
    pub fn len(&self) -> (n: usize)
        ensures
            n == self@.len(),
            n == WEIGHTS_NUM,
    {
        proof {
            use_type_invariant(self);
        }
        self.v.len()
    }

    /// The encoded weight of band `i`.
    pub fn get(&self, i: usize) -> (w: u32)
        requires
            i < WEIGHTS_NUM,
        ensures
            w == self@[i as int],
    {
        proof {
            use_type_invariant(self);
        }
        self.v[i]
    }

}

impl Default for Weights {
    /// Every band at full weight.
    fn default() -> (w: Weights)
        ensures
            w@.len() == WEIGHTS_NUM,
            forall|i: int| 0 <= i < WEIGHTS_NUM ==> w@[i] == SEGMENTS_WEIGHT_MAX,
    {
        let mut v: Vec<u32> = Vec::new();
        let mut i: usize = 0;
        while i < WEIGHTS_NUM
            invariant
                i <= WEIGHTS_NUM,
                v@.len() == i,
                forall|j: int| 0 <= j < i ==> v@[j] == SEGMENTS_WEIGHT_MAX,
            decreases WEIGHTS_NUM - i,
        {
            v.push(SEGMENTS_WEIGHT_MAX);
            i = i + 1;
        }
        Weights { v }
    }
}

} // verus!
