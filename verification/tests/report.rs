use rplay::audio::{AudioFormat, WavMetadata};
use rplay::report::{
    bit_rate_hundredths_u64, duration_fields, duration_text, encoding_label,
    file_size_hundredths_u64, metadata_report, round_half_even_u64, DurationFields,
};
use rplay::SampleEncoding;

fn meta(channels: u16, rate: u32, bits: u16, enc: SampleEncoding, frames: u32) -> WavMetadata {
    WavMetadata {
        format: AudioFormat {
            channels,
            sample_rate: rate,
            bits_per_sample: bits,
            encoding: enc,
        },
        total_frames: frames,
    }
}

#[test]
fn report_block_for_three_second_stereo_wav() {
    let m = meta(2, 44100, 16, SampleEncoding::Int, 132300);
    let s = metadata_report("test.wav", &m);
    let expected = "\ntest.wav:\n\n File Size: 0.50M\n  Bit Rate: 0.67M\n  Encoding: Integer PCM\n  Channels: 2 @ 16-bit\nSamplerate: 44100Hz\n  Duration: 00:00:03.00\n";
    assert_eq!(s, expected);
}

#[test]
fn report_lines_three_second_stereo_wav() {
    let m = meta(2, 44100, 16, SampleEncoding::Int, 132300);
    let s = metadata_report("test.wav", &m);
    assert!(s.contains("Samplerate: 44100Hz"));
    assert!(s.contains("Channels: 2 @ 16-bit"));
    assert!(s.contains("Encoding: Integer PCM"));
    assert!(s.contains("Duration: 00:00:03.00"));
}

#[test]
fn duration_zero_frames() {
    let m = meta(1, 44100, 16, SampleEncoding::Int, 0);
    assert_eq!(duration_text(&m), "00:00:00.00");
}

#[test]
fn duration_3661_seconds() {
    let m = meta(1, 44100, 16, SampleEncoding::Int, 3661 * 44100);
    assert_eq!(duration_text(&m), "01:01:01.00");
}

#[test]
fn duration_fractional_second_truncates() {
    // 505 frames at 1000 Hz: 0.505 s of audio, printed as 50 hundredths.
    let m = meta(1, 1000, 16, SampleEncoding::Int, 505);
    let d = duration_fields(&m);
    assert_eq!(d.hundredths, 50);
    assert_eq!(duration_text(&m), "00:00:00.50");
}

#[test]
fn duration_fields_decompose() {
    let m = meta(2, 8000, 8, SampleEncoding::Int, 8000 * 3700 / 10);
    let d = duration_fields(&m);
    assert_eq!(
        d,
        DurationFields { hours: 0, minutes: 6, seconds: 10, hundredths: 0 }
    );
}

#[test]
fn duration_hours_not_clamped() {
    // 360000 seconds is a hundred hours: the HH field grows past two digits.
    let m = meta(1, 10, 16, SampleEncoding::Int, 3_600_000);
    assert_eq!(duration_text(&m), "100:00:00.00");
}

#[test]
fn file_size_figure() {
    let m = meta(2, 44100, 16, SampleEncoding::Int, 132300);
    assert_eq!(file_size_hundredths_u64(&m), 50);
}

#[test]
fn bit_rate_figure() {
    let m = meta(2, 44100, 16, SampleEncoding::Int, 132300);
    assert_eq!(bit_rate_hundredths_u64(&m), 67);
}

#[test]
fn encoding_labels() {
    assert_eq!(encoding_label(SampleEncoding::Int), "Integer PCM");
    assert_eq!(encoding_label(SampleEncoding::Float), "Floating Point PCM");
}

#[test]
fn float_encoding_in_report() {
    let m = meta(1, 48000, 32, SampleEncoding::Float, 0);
    let s = metadata_report("f.wav", &m);
    assert!(s.contains("  Encoding: Floating Point PCM\n"));
    assert!(s.contains("  Channels: 1 @ 32-bit\n"));
    assert!(s.contains("Samplerate: 48000Hz\n"));
}

#[test]
fn rounding_is_to_nearest() {
    assert_eq!(round_half_even_u64(7, 4), 2); // 1.75 rounds up
    assert_eq!(round_half_even_u64(9, 4), 2); // 2.25 rounds down
}

#[test]
fn rounding_ties_go_to_even() {
    assert_eq!(round_half_even_u64(1, 2), 0); // 0.5 -> 0
    assert_eq!(round_half_even_u64(3, 2), 2); // 1.5 -> 2
    assert_eq!(round_half_even_u64(10, 4), 2); // 2.5 -> 2
    assert_eq!(round_half_even_u64(14, 4), 4); // 3.5 -> 4
}
