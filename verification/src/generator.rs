//! The structural side of the frequency-weight curve that shapes a noise
//! spectrum: which band a queried frequency falls into, whether it clamps to
//! an edge of the audible range, and between which two band weights it
//! interpolates.
//!
//! Frequencies and band positions arrive as the raw bit patterns of their
//! IEEE 754 single-precision encodings.  For encodings of non-negative
//! values, the unsigned order of the bit patterns agrees with the numeric
//! order of the values, so range checks and the integer part of a band
//! position are decided here exactly, without any numeric computation.  The
//! caller supplies the band position (a logarithm of the frequency ratio)
//! and performs the final interpolation between the two selected weights.

use vstd::prelude::*;

use crate::Weights;
use crate::WEIGHTS_NUM;

verus! {

/// Bit pattern of the lowest controllable frequency, 20 Hz.
pub const MIN_FREQ: u32 = 0x41A0_0000;

/// Bit pattern of the highest controllable frequency, 20 000 Hz.
pub const MAX_FREQ: u32 = 0x469C_4000;

/// Bit pattern of the highest band position, 31.
pub const BAND_MAX: u32 = 0x41F8_0000;

/// Where a queried frequency falls relative to the controllable range.
#[derive(Clone, Copy, Debug, PartialEq, Eq, Structural)]
pub enum FreqClass {
    /// At or below 20 Hz (or not a positive finite frequency at all):
    /// clamps to the first band.
    BelowMin,
    /// At or above 20 000 Hz: clamps to the last band.
    AboveMax,
    /// Strictly between the two edges: interpolated between two bands.
    Interior,
}

/// Classifies a frequency encoding against the controllable range.
///
/// Encodings with the sign bit set (negative values) count as below the
/// minimum, and encodings at or above the pattern of 20 000 Hz — which
/// include the encodings of infinity and of every quiet or signalling
/// not-a-number — count as above the maximum, so every input falls in
/// exactly one class.
pub fn classify_frequency(freq: u32) -> (c: FreqClass)
    ensures
        c is BelowMin <==> (freq >= 0x8000_0000 || freq <= MIN_FREQ),
        c is AboveMax <==> (freq < 0x8000_0000 && MAX_FREQ <= freq),
        c is Interior <==> (MIN_FREQ < freq < MAX_FREQ),
{
    if freq >= 0x8000_0000 || freq <= MIN_FREQ {
        FreqClass::BelowMin
    } else if freq >= MAX_FREQ {
        FreqClass::AboveMax
    } else {
        FreqClass::Interior
    }
}

/// The weight a clamped query returns: the first band's weight below the
/// range, the last band's above it, and none for an interior query, which
/// needs interpolation instead.
pub fn edge_weight(weights: &Weights, class: FreqClass) -> (r: Option<u32>)
    ensures
        class is BelowMin ==> r == Some(weights@[0]),
        class is AboveMax ==> r == Some(weights@[WEIGHTS_NUM - 1]),
        class is Interior ==> r is None,
{
    match class {
        FreqClass::BelowMin => Some(weights.get(0)),
        FreqClass::AboveMax => Some(weights.get(WEIGHTS_NUM - 1)),
        FreqClass::Interior => None,
    }
}

/// The IEEE 754 single-precision encoding of the integer `k`, for
/// `0 <= k <= 31`, written out arithmetically: a biased exponent of
/// `127 + floor(log2 k)` in the high bits and the fraction of `k` scaled
/// into the 23 mantissa bits.
pub open spec fn band_bits_of_int(k: int) -> int {
    if k == 0 {
        0
    } else if k < 2 {
        0x3F80_0000
    } else if k < 4 {
        0x4000_0000 + (k - 2) * 0x40_0000
    } else if k < 8 {
        0x4080_0000 + (k - 4) * 0x20_0000
    } else if k < 16 {
        0x4100_0000 + (k - 8) * 0x10_0000
    } else {
        0x4180_0000 + (k - 16) * 0x08_0000
    }
}

/// Computes [`band_bits_of_int`] for one band index.
fn band_code(k: usize) -> (r: u32)
    requires
        k <= 31,
    ensures
        r == band_bits_of_int(k as int),
{
    if k == 0 {
        0
    } else if k < 2 {
        0x3F80_0000
    } else if k < 4 {
        0x4000_0000 + (k as u32 - 2) * 0x40_0000
    } else if k < 8 {
        0x4080_0000 + (k as u32 - 4) * 0x20_0000
    } else if k < 16 {
        0x4100_0000 + (k as u32 - 8) * 0x10_0000
    } else {
        0x4180_0000 + (k as u32 - 16) * 0x08_0000
    }
}

/// The two bands an interior band position selects, with the encoding of
/// the lower band: interpolation runs from band `lo` to band `hi` with the
/// fraction `position - floor(position)`, which the caller derives from
/// `clamped` and `floor_bits`.
#[derive(Clone, Copy, Debug, PartialEq, Eq, Structural)]
pub struct BandMix {
    /// Index of the band at or just below the position.
    pub lo: usize,
    /// Index of the band just above the position; equals `lo` exactly when
    /// the position is a whole band index.
    pub hi: usize,
    /// The encoding of `lo` as a number, the floor of the position.
    pub floor_bits: u32,
    /// The position clamped into the band range.
    pub clamped: u32,
}

/// Clamps a band position into `[0, 31]` and selects the two bands it
/// falls between.
///
/// The position is the encoding of a fractional band index.  Encodings
/// with the sign bit set clamp to zero; encodings at or above the pattern
/// of 31 — including those of infinity and of every not-a-number — clamp
/// to 31.  In between, `lo` is the largest whole band index whose encoding
/// does not exceed the clamped position; since the unsigned order of
/// non-negative encodings is the numeric order of their values, `lo` is
/// exactly the floor of the position.
pub fn band_interpolation(position: u32) -> (r: BandMix)
    ensures
        r.clamped == if position >= 0x8000_0000 {
            0u32
        } else if position >= BAND_MAX {
            BAND_MAX
        } else {
            position
        },
        r.lo <= 31,
        band_bits_of_int(r.lo as int) <= r.clamped,
        r.lo < 31 ==> r.clamped < band_bits_of_int(r.lo as int + 1),
        r.floor_bits == band_bits_of_int(r.lo as int),
        r.hi == if r.floor_bits == r.clamped {
            r.lo as int
        } else {
            r.lo as int + 1
        },
        r.hi <= 31,
{
    let clamped: u32 = if position >= 0x8000_0000 {
        0
    } else if position >= BAND_MAX {
        BAND_MAX
    } else {
        position
    };
    let mut lo: usize = 0;
    let mut lo_bits: u32 = 0;
    let mut settled = false;
    while !settled && lo < 31
        invariant
            lo <= 31,
            lo_bits == band_bits_of_int(lo as int),
            band_bits_of_int(lo as int) <= clamped,
            settled ==> (lo < 31 && clamped < band_bits_of_int(lo as int + 1)),
        decreases 31 - lo, if settled {
            0int
        } else {
            1int
        },
    {
        let above = band_code(lo + 1);
        if above <= clamped {
            lo = lo + 1;
            lo_bits = above;
        } else {
            settled = true;
        }
    }
    proof {
        if lo == 31 {
            assert(band_bits_of_int(31) == BAND_MAX as int);
            assert(clamped <= BAND_MAX);
        }
    }
    let hi = if lo_bits == clamped {
        lo
    } else {
        lo + 1
    };
    BandMix { lo, hi, floor_bits: lo_bits, clamped }
}

} // verus!
