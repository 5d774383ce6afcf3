//! The metadata report: the block of lines the player prints for a WAV file
//! before playing it.
//!
//! All quantities are computed in fixed-point integer arithmetic. The two
//! `<xx.xx>M` figures are hundredths rounded to nearest, ties to even — the
//! rounding `{:.2}` applies to an exactly-representable binary value. Note
//! that the file-size figure, `frames * bits_per_sample / 4 / 1024 / 1024`,
//! is not the file's byte count (that would be
//! `frames * channels * bits_per_sample / 8`); the report format is fixed,
//! dimensionally odd or not, so the figure is computed exactly as printed.

use vstd::prelude::*;
use vstd::arithmetic::div_mod::{
    lemma_div_nonincreasing, lemma_fundamental_div_mod, lemma_mod_mod, lemma_multiply_divide_lt,
};
use vstd::string::*;
use crate::SampleEncoding;
use crate::audio::WavMetadata;
use crate::text::{dec_rep, fixed2_rep, pad2_rep, u64_to_dec, u64_to_fixed2, u64_to_pad2};

verus! {

/// Rounds the rational `num / den` to the nearest integer, ties to even.
pub open spec fn round_half_even(num: nat, den: nat) -> nat {
    let q = num / den;
    let r = num % den;
    if 2 * r < den {
        q
    } else if 2 * r > den {
        q + 1
    } else if q % 2 == 0 {
        q
    } else {
        q + 1
    }
}

/// Computes [`round_half_even`] on machine integers.
pub fn round_half_even_u64(num: u64, den: u64) -> (r: u64)
    requires
        1 <= den < 0x8000_0000_0000_0000,
        num < 0x8000_0000_0000_0000,
    ensures
        r as nat == round_half_even(num as nat, den as nat),
{
    let q: u64 = num / den;
    let rem: u64 = num % den;
    proof {
        lemma_div_nonincreasing(num as int, den as int);
    }
    if 2 * rem < den {
        q
    } else if 2 * rem > den {
        q + 1
    } else if q % 2 == 0 {
        q
    } else {
        q + 1
    }
}

/// Whole seconds of audio in the file: `total_frames / sample_rate`.
pub open spec fn duration_whole_seconds(m: WavMetadata) -> nat {
    m.total_frames as nat / m.format.sample_rate as nat
}

/// The `HH` field of the duration; not clamped.
pub open spec fn duration_hours(m: WavMetadata) -> nat {
    duration_whole_seconds(m) / 3600
}

/// The `MM` field of the duration.
pub open spec fn duration_minutes(m: WavMetadata) -> nat {
    (duration_whole_seconds(m) % 3600) / 60
}

/// The `SS` field of the duration.
pub open spec fn duration_seconds(m: WavMetadata) -> nat {
    duration_whole_seconds(m) % 60
}

/// The `CC` field of the duration: hundredths of the fractional second,
/// truncated, i.e. `floor(100 * (total_frames mod rate) / rate)`.
pub open spec fn duration_hundredths(m: WavMetadata) -> nat {
    (m.total_frames as nat % m.format.sample_rate as nat) * 100 / m.format.sample_rate as nat
}

/// The four printed fields of a duration, `HH:MM:SS.CC`.
#[derive(Clone, Copy, PartialEq, Eq, Structural, Debug)]
pub struct DurationFields {
    /// Whole hours; may exceed two digits.
    pub hours: u32,
    /// Whole minutes past the hour; below 60.
    pub minutes: u32,
    /// Whole seconds past the minute; below 60.
    pub seconds: u32,
    /// Hundredths of the fractional second, truncated; below 100.
    pub hundredths: u32,
}

/// Splits the file's play time into the printed duration fields.
///
/// The three clock fields decompose the whole-second count exactly, so no
/// time is lost or invented by the split.
pub fn duration_fields(m: &WavMetadata) -> (d: DurationFields)
    requires
        m.wf(),
    ensures
        d.hours == duration_hours(*m),
        d.minutes == duration_minutes(*m),
        d.seconds == duration_seconds(*m),
        d.hundredths == duration_hundredths(*m),
        d.minutes < 60,
        d.seconds < 60,
        d.hundredths < 100,
        d.hours * 3600 + d.minutes * 60 + d.seconds == duration_whole_seconds(*m),
{
    let frames: u32 = m.total_frames;
    let rate: u32 = m.format.sample_rate;
    let whole: u32 = frames / rate;
    let hours: u32 = whole / 3600;
    let minutes: u32 = (whole % 3600) / 60;
    let seconds: u32 = whole % 60;
    let rem: u64 = (frames % rate) as u64;
    proof {
        lemma_multiply_divide_lt(rem as int * 100, rate as int, 100);
        lemma_fundamental_div_mod(whole as int, 3600);
        lemma_fundamental_div_mod((whole % 3600) as int, 60);
        lemma_mod_mod(whole as int, 60, 60);
    }
    let hundredths: u32 = (rem * 100 / (rate as u64)) as u32;
    DurationFields { hours, minutes, seconds, hundredths }
}

/// The `HH:MM:SS.CC` text of the duration fields.
pub open spec fn duration_rep(m: WavMetadata) -> Seq<char> {
    pad2_rep(duration_hours(m)) + ":"@ + pad2_rep(duration_minutes(m)) + ":"@ + pad2_rep(
        duration_seconds(m),
    ) + "."@ + pad2_rep(duration_hundredths(m))
}

/// Writes the duration of the file as `HH:MM:SS.CC`.
pub fn duration_text(m: &WavMetadata) -> (s: String)
    requires
        m.wf(),
    ensures
        s@ == duration_rep(*m),
{
    let d = duration_fields(m);
    let mut s = u64_to_pad2(d.hours as u64);
    s.append(":");
    let mm = u64_to_pad2(d.minutes as u64);
    s.append(mm.as_str());
    s.append(":");
    let ss = u64_to_pad2(d.seconds as u64);
    s.append(ss.as_str());
    s.append(".");
    let cc = u64_to_pad2(d.hundredths as u64);
    s.append(cc.as_str());
    s
}

/// The file-size figure in hundredths: `frames * bits / 4 / 1024 / 1024`,
/// scaled by 100 and rounded to nearest, ties to even.
pub open spec fn file_size_hundredths(m: WavMetadata) -> nat {
    round_half_even(25 * m.total_frames as nat * m.format.bits_per_sample as nat, 0x10_0000)
}

/// The bit-rate figure in hundredths: `bits * rate / 1024 / 1024`, scaled by
/// 100 and rounded to nearest, ties to even.
pub open spec fn bit_rate_hundredths(m: WavMetadata) -> nat {
    round_half_even(25 * m.format.bits_per_sample as nat * m.format.sample_rate as nat, 0x4_0000)
}

/// Computes [`file_size_hundredths`] on machine integers.
pub fn file_size_hundredths_u64(m: &WavMetadata) -> (r: u64)
    ensures
        r as nat == file_size_hundredths(*m),
{
    let frames: u64 = m.total_frames as u64;
    let bits: u64 = m.format.bits_per_sample as u64;
    proof {
        assert(25 * frames * bits < 0x8000_0000_0000_0000) by (nonlinear_arith)
            requires
                frames < 0x1_0000_0000,
                bits < 0x1_0000,
        ;
    }
    let num: u64 = 25 * frames * bits;
    round_half_even_u64(num, 0x10_0000)
}

/// Computes [`bit_rate_hundredths`] on machine integers.
pub fn bit_rate_hundredths_u64(m: &WavMetadata) -> (r: u64)
    ensures
        r as nat == bit_rate_hundredths(*m),
{
    let bits: u64 = m.format.bits_per_sample as u64;
    let rate: u64 = m.format.sample_rate as u64;
    proof {
        assert(25 * bits * rate < 0x8000_0000_0000_0000) by (nonlinear_arith)
            requires
                bits < 0x1_0000,
                rate < 0x1_0000_0000,
        ;
    }
    let num: u64 = 25 * bits * rate;
    round_half_even_u64(num, 0x4_0000)
}

/// The label printed for a sample encoding.
pub open spec fn encoding_name(e: SampleEncoding) -> Seq<char> {
    match e {
        SampleEncoding::Int => "Integer PCM"@,
        SampleEncoding::Float => "Floating Point PCM"@,
    }
}

/// Returns the label printed for a sample encoding.
pub fn encoding_label(e: SampleEncoding) -> (s: &'static str)
    ensures
        s@ == encoding_name(e),
{
    match e {
        SampleEncoding::Int => "Integer PCM",
        SampleEncoding::Float => "Floating Point PCM",
    }
}

/// The whole metadata block, newlines included, exactly as it is printed.
pub open spec fn report_text(path: Seq<char>, m: WavMetadata) -> Seq<char> {
    "\n"@ + path + ":\n\n"@ + " File Size: "@ + fixed2_rep(file_size_hundredths(m)) + "M\n"@
        + "  Bit Rate: "@ + fixed2_rep(bit_rate_hundredths(m)) + "M\n"@ + "  Encoding: "@
        + encoding_name(m.format.encoding) + "\n"@ + "  Channels: "@ + dec_rep(
        m.format.channels as nat,
    ) + " @ "@ + dec_rep(m.format.bits_per_sample as nat) + "-bit\n"@ + "Samplerate: "@ + dec_rep(
        m.format.sample_rate as nat,
    ) + "Hz\n"@ + "  Duration: "@ + duration_rep(m) + "\n"@
}

/// Builds the metadata block for `path`, ready to be written to the text
/// sink verbatim.
pub fn metadata_report(path: &str, m: &WavMetadata) -> (s: String)
    requires
        m.wf(),
    ensures
        s@ == report_text(path@, *m),
{
    let mut s = String::from_str("\n");
    s.append(path);
    s.append(":\n\n");
    s.append(" File Size: ");
    let fs = u64_to_fixed2(file_size_hundredths_u64(m));
    s.append(fs.as_str());
    s.append("M\n");
    s.append("  Bit Rate: ");
    let br = u64_to_fixed2(bit_rate_hundredths_u64(m));
    s.append(br.as_str());
    s.append("M\n");
    s.append("  Encoding: ");
    s.append(encoding_label(m.format.encoding));
    s.append("\n");
    s.append("  Channels: ");
    let ch = u64_to_dec(m.format.channels as u64);
    s.append(ch.as_str());
    s.append(" @ ");
    let bits = u64_to_dec(m.format.bits_per_sample as u64);
    s.append(bits.as_str());
    s.append("-bit\n");
    s.append("Samplerate: ");
    let rate = u64_to_dec(m.format.sample_rate as u64);
    s.append(rate.as_str());
    s.append("Hz\n");
    s.append("  Duration: ");
    let dur = duration_text(m);
    s.append(dur.as_str());
    s.append("\n");
    s
}

} // verus!
