//! The control-flow decisions of the player: argument checking, the exact
//! error lines, and the step the poll loop takes while playback drains.
//!
//! The binary around the library performs the effects (printing, sleeping,
//! talking to the device); every line it prints and every pause it makes is
//! decided here.

use vstd::prelude::*;
use vstd::string::*;

verus! {

/// The usage line, printed when the argument count is wrong.
pub open spec fn usage_text() -> Seq<char> {
    "Usage: rplay <audio_file>"@
}

/// Returns the usage line.
pub fn usage_line() -> (s: String)
    ensures
        s@ == usage_text(),
{
    String::from_str("Usage: rplay <audio_file>")
}

/// Decides what to do with the argument list. `argc` counts the program
/// name itself, so exactly one positional argument means `argc == 2`.
///
/// The usage line comes back precisely when the count is wrong: with zero
/// or with two or more positional arguments the caller must print it and
/// exit with failure; with exactly one it must not.
pub fn args_decision(argc: usize) -> (r: Option<String>)
    ensures
        r is None <==> argc == 2,
        r is Some ==> r->0@ == usage_text(),
{
    if argc != 2 {
        Some(usage_line())
    } else {
        None
    }
}

/// The line printed when the metadata report could not be produced;
/// `err` describes why.
pub fn metadata_failure_line(err: &str) -> (s: String)
    ensures
        s@ == "Failed to print audio file info: "@ + err@,
{
    let mut s = String::from_str("Failed to print audio file info: ");
    s.append(err);
    s
}

/// The description carried by a metadata failure when the WAV header could
/// not be opened or parsed; `err` is the reader's account of the fault.
pub fn wav_open_failure(err: &str) -> (s: String)
    ensures
        s@ == "Failed to open file: "@ + err@,
{
    let mut s = String::from_str("Failed to open file: ");
    s.append(err);
    s
}

/// The line printed when the audio file itself cannot be opened for
/// playback.
pub fn open_failure_line(path: &str) -> (s: String)
    ensures
        s@ == "Failed to open file: "@ + path@,
{
    let mut s = String::from_str("Failed to open file: ");
    s.append(path);
    s
}

/// The line printed when no decoder recognises the file.
pub fn decode_failure_line(path: &str) -> (s: String)
    ensures
        s@ == "Failed to decode audio file: "@ + path@,
{
    let mut s = String::from_str("Failed to decode audio file: ");
    s.append(path);
    s
}

/// The line printed after playback has fully drained.
pub fn done_line() -> (s: String)
    ensures
        s@ == "Done."@,
{
    String::from_str("Done.")
}

/// What the control thread does next while waiting for playback to end.
#[derive(Clone, Copy, PartialEq, Eq, Structural, Debug)]
pub enum PollStep {
    /// Sleep this many milliseconds, then ask the sink again.
    Poll { wait_ms: u64 },
    /// The sink is empty: sleep this many milliseconds so the device plays
    /// out its internal buffer, then report completion.
    Drain { wait_ms: u64 },
}

/// Decides the next step of the wait loop from the sink's emptiness.
///
/// While the sink still holds frames the thread polls every 100 ms; the
/// moment the sink reports empty it waits a final full second and is done.
pub fn poll_step(sink_empty: bool) -> (r: PollStep)
    ensures
        !sink_empty ==> r == (PollStep::Poll { wait_ms: 100u64 }),
        sink_empty ==> r == (PollStep::Drain { wait_ms: 1000u64 }),
{
    if sink_empty {
        PollStep::Drain { wait_ms: 1000 }
    } else {
        PollStep::Poll { wait_ms: 100 }
    }
}

} // verus!
