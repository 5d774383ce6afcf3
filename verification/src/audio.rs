//! The static description of a PCM stream, as the player reads it from a
//! RIFF/WAVE header.

use vstd::prelude::*;
use crate::SampleEncoding;

verus! {

/// The format of a PCM stream: how many interleaved channels it has, how
/// many sample frames pass per second, and how each sample is stored.
#[derive(Clone, Copy, PartialEq, Eq, Structural, Debug)]
pub struct AudioFormat {
    /// Number of interleaved channels; at least one.
    pub channels: u16,
    /// Sample frames per second, in hertz; at least one.
    pub sample_rate: u32,
    /// Width of one stored sample; at least one bit.
    pub bits_per_sample: u16,
    /// Whether samples are signed integers or floating-point values.
    pub encoding: SampleEncoding,
}

impl AudioFormat {
    /// A format is well formed when every numeric field is strictly positive.
    pub open spec fn wf(self) -> bool {
        &&& self.channels >= 1
        &&& self.sample_rate >= 1
        &&& self.bits_per_sample >= 1
    }
}

/// What a WAV header states about its file: the stream format and the total
/// number of sample frames in the data chunk.
#[derive(Clone, Copy, PartialEq, Eq, Structural, Debug)]
pub struct WavMetadata {
    /// The stream format from the `fmt ` chunk.
    pub format: AudioFormat,
    /// Total sample frames (samples per channel) in the data chunk.
    pub total_frames: u32,
}

impl WavMetadata {
    /// Metadata is well formed when its format is.
    pub open spec fn wf(self) -> bool {
        self.format.wf()
    }
}

} // verus!
