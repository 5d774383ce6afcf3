//! A minimal command-line audio player library.
//!
//! The library holds the logic of the player: the audio format model, the
//! metadata report (file size, bit rate, encoding, channels, sample rate,
//! duration), and the driver decisions (argument checking, error lines,
//! the playback poll loop). Reading the file and talking to the audio
//! device are left to the thin binary around the library.

use vstd::prelude::*;

pub mod audio;
pub mod driver;
pub mod report;
pub mod text;

verus! {

/// How the samples of a stream are encoded.
#[derive(Clone, Copy, PartialEq, Eq, Structural, Debug)]
pub enum SampleEncoding {
    /// Signed integer PCM samples.
    Int,
    /// Floating-point PCM samples.
    Float,
}

} // verus!
