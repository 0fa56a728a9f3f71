//! What the supervisor is told about the outside world.
//!
//! The supervisor itself touches neither the terminal, the capture process
//! nor the file system. Whoever drives it performs each request and reports
//! the result as one of the events below.

use vstd::prelude::*;
use crate::clock::Elapsed;

verus! {

/// The key whose press ends the recording.
pub const CANCEL_KEY: char = 'q';

/// The time in milliseconds that one poll of the terminal may wait.
pub const TICK_MILLIS: u64 = 100;

/// What one poll of the terminal yielded within the tick.
#[derive(Clone, Copy, Debug, PartialEq, Eq, Structural)]
pub enum Input {
    /// Nothing arrived before the tick was over.
    Quiet,
    /// A key that stands for a character.
    Char { key: char },
    /// Any other key.
    OtherKey,
    /// Something that is no key at all, such as a resize.
    OtherEvent,
}

impl Input {
    /// Whether this input is a press of the cancellation key.
    pub open spec fn is_cancel(self) -> bool {
        self == (Input::Char { key: CANCEL_KEY })
    }

    /// Whether this input is a press of the cancellation key.
    pub fn cancels(&self) -> (b: bool)
        ensures
            b == self.is_cancel(),
    {
        match *self {
            Input::Char { key } => key == CANCEL_KEY,
            _ => false,
        }
    }
}

/// What one probe of the capture process found, without waiting for it.
#[derive(Clone, Copy, Debug, PartialEq, Eq, Structural)]
pub enum ChildStatus {
    /// The process is gone; `code` is its exit code where it left one.
    Exited { code: Option<i32> },
    StillRunning,
    /// The probe itself failed. The process is taken to be running still.
    Unknown,
}

/// The result of a request, as reported by whoever performed it.
#[derive(Clone, Copy, Debug, PartialEq, Eq, Structural)]
pub enum Event {
    /// The capture tool was launched.
    Spawned,
    /// The capture tool could not be found or launched.
    SpawnFailed,
    /// The terminal is in raw mode now.
    RawModeEntered,
    /// The terminal refused to enter raw mode.
    RawModeRefused,
    /// The poll of the terminal came back, `elapsed` after the start.
    Input { input: Input, elapsed: Elapsed },
    /// The poll of the terminal failed.
    InputFailed,
    /// The probe of the capture process came back, `elapsed` after the start.
    Probed { status: ChildStatus, elapsed: Elapsed },
    /// The status line was written.
    Rendered,
    /// The status line could not be written.
    RenderFailed,
    /// The capture process was told to stop and has been waited for.
    ChildReaped,
    /// The terminal has left raw mode.
    RawModeLeft,
    /// The attempt to leave raw mode failed.
    RawModeStuck,
    /// The temporary file was looked for.
    TempFile { exists: bool },
    /// The temporary file now bears its final name.
    Renamed,
    /// The rename failed; the temporary file is where it was.
    RenameFailed,
}

} // verus!
