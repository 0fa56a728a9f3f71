//! The supervisor's state machine.
//!
//! A session moves through a fixed order of requests: launch the capture
//! tool, enter raw mode, then tick (poll the terminal, probe the capture
//! process, redraw the status line) until the user cancels or the capture
//! process is found gone; leave raw mode; look for the temporary file and
//! rename it. `next` is the whole rule, `advance` computes it.

use vstd::prelude::*;
use crate::clock::Elapsed;
use crate::events::{ChildStatus, Event};

verus! {

/// Why the recording ended.
#[derive(Clone, Copy, Debug, PartialEq, Eq, Structural)]
pub enum ExitReason {
    UserCancelled,
    ProcessExitedUnexpectedly,
}

/// The state of the tick loop. A stopped state holds the time that had
/// elapsed when the loop decided to stop; nothing reads the clock after that.
#[derive(Clone, Copy, Debug, PartialEq, Eq, Structural)]
pub enum PollerState {
    Running,
    StoppedByUser { final_duration: Elapsed },
    StoppedByProcessExit { final_duration: Elapsed },
}

impl PollerState {
    /// Why the loop stopped, and nothing while it runs.
    pub open spec fn reason(self) -> Option<ExitReason> {
        match self {
            PollerState::Running => None,
            PollerState::StoppedByUser { .. } => Some(ExitReason::UserCancelled),
            PollerState::StoppedByProcessExit { .. } => Some(
                ExitReason::ProcessExitedUnexpectedly,
            ),
        }
    }

    /// The time that had elapsed when the loop stopped, and nothing while
    /// it runs.
    pub open spec fn duration(self) -> Option<Elapsed> {
        match self {
            PollerState::Running => None,
            PollerState::StoppedByUser { final_duration } => Some(final_duration),
            PollerState::StoppedByProcessExit { final_duration } => Some(final_duration),
        }
    }

    /// Why the loop stopped, once it has.
    pub fn exit_reason(&self) -> (r: Option<ExitReason>)
        ensures
            r == self.reason(),
    {
        match *self {
            PollerState::Running => None,
            PollerState::StoppedByUser { .. } => Some(ExitReason::UserCancelled),
            PollerState::StoppedByProcessExit { .. } => Some(
                ExitReason::ProcessExitedUnexpectedly,
            ),
        }
    }

    /// The time that had elapsed when the loop stopped, once it has.
    pub fn final_duration(&self) -> (d: Option<Elapsed>)
        ensures
            d == self.duration(),
    {
        match *self {
            PollerState::Running => None,
            PollerState::StoppedByUser { final_duration } => Some(final_duration),
            PollerState::StoppedByProcessExit { final_duration } => Some(final_duration),
        }
    }
}

/// The terminal's raw mode, as a resource that is taken once and given back
/// once.
#[derive(Clone, Copy, Debug, PartialEq, Eq, Structural)]
pub enum RawMode {
    NotEntered,
    Held,
    /// The one attempt to leave raw mode has been made.
    Released,
}

/// The capture process, as far as the supervisor knows.
#[derive(Clone, Copy, Debug, PartialEq, Eq, Structural)]
pub enum CaptureProcess {
    NotSpawned,
    Alive,
    /// The process has exited and has been waited for.
    Reaped,
}

/// Which dealing with the terminal went wrong.
#[derive(Clone, Copy, Debug, PartialEq, Eq, Structural)]
pub enum Fault {
    EnableRawMode,
    Input,
    Display,
    DisableRawMode,
}

/// How a session ended.
#[derive(Clone, Copy, Debug, PartialEq, Eq, Structural)]
pub enum Ending {
    /// The recording bears its final name.
    Saved,
    SpawnFailed,
    TerminalFailed { fault: Fault },
    /// There was no temporary file to rename.
    MissingFile,
    RenameFailed,
}

/// Which answer the session is waiting for.
#[derive(Clone, Copy, Debug, PartialEq, Eq, Structural)]
pub enum Phase {
    Spawning,
    EnteringRawMode,
    Polling,
    Probing,
    /// The status line for `elapsed` is being written.
    Rendering { elapsed: Elapsed },
    Terminating,
    /// Raw mode is being left; `fault` is what broke the loop, if anything.
    LeavingRawMode { fault: Option<Fault> },
    Checking,
    Renaming,
    Finished { ending: Ending },
}

/// What the session asks its driver to do next.
#[derive(Clone, Copy, Debug, PartialEq, Eq, Structural)]
pub enum Request {
    Spawn,
    EnableRawMode,
    PollInput,
    ProbeChild,
    Render,
    TerminateChild,
    DisableRawMode,
    CheckTempFile,
    Rename,
    Finish,
}

/// The whole state of a session but for its file names.
#[derive(Clone, Copy, Debug, PartialEq, Eq, Structural)]
pub struct Control {
    pub phase: Phase,
    pub poller: PollerState,
    pub raw_mode: RawMode,
    pub child: CaptureProcess,
}

/// The state in which every session starts: about to launch the capture tool.
pub open spec fn initial() -> Control {
    Control {
        phase: Phase::Spawning,
        poller: PollerState::Running,
        raw_mode: RawMode::NotEntered,
        child: CaptureProcess::NotSpawned,
    }
}

/// The request that a session in state `c` is waiting to have answered.
pub open spec fn pending(c: Control) -> Request {
    match c.phase {
        Phase::Spawning => Request::Spawn,
        Phase::EnteringRawMode => Request::EnableRawMode,
        Phase::Polling => Request::PollInput,
        Phase::Probing => Request::ProbeChild,
        Phase::Rendering { .. } => Request::Render,
        Phase::Terminating => Request::TerminateChild,
        Phase::LeavingRawMode { .. } => Request::DisableRawMode,
        Phase::Checking => Request::CheckTempFile,
        Phase::Renaming => Request::Rename,
        Phase::Finished { .. } => Request::Finish,
    }
}

/// The ending of a session that leaves raw mode after `fault` broke its loop
/// and `left` says whether leaving worked. The first fault is the one
/// reported.
pub open spec fn ending_after_release(fault: Option<Fault>, left: bool) -> Option<Ending> {
    match fault {
        Some(f) => Some(Ending::TerminalFailed { fault: f }),
        None => if left {
            None
        } else {
            Some(Ending::TerminalFailed { fault: Fault::DisableRawMode })
        },
    }
}

/// The state that follows `c` when `e` is reported, or `None` where `e` is
/// no answer to the pending request.
pub open spec fn next(c: Control, e: Event) -> Option<Control> {
    match c.phase {
        Phase::Spawning => match e {
            Event::Spawned => Some(
                Control { phase: Phase::EnteringRawMode, child: CaptureProcess::Alive, ..c },
            ),
            Event::SpawnFailed => Some(
                Control { phase: Phase::Finished { ending: Ending::SpawnFailed }, ..c },
            ),
            _ => None,
        },
        Phase::EnteringRawMode => match e {
            Event::RawModeEntered => Some(
                Control { phase: Phase::Polling, raw_mode: RawMode::Held, ..c },
            ),
            Event::RawModeRefused => Some(
                Control {
                    phase: Phase::Finished {
                        ending: Ending::TerminalFailed { fault: Fault::EnableRawMode },
                    },
                    ..c
                },
            ),
            _ => None,
        },
        Phase::Polling => match e {
            Event::Input { input, elapsed } => if input.is_cancel() {
                Some(
                    Control {
                        phase: Phase::Terminating,
                        poller: PollerState::StoppedByUser { final_duration: elapsed },
                        ..c
                    },
                )
            } else {
                Some(Control { phase: Phase::Probing, ..c })
            },
            Event::InputFailed => Some(
                Control { phase: Phase::LeavingRawMode { fault: Some(Fault::Input) }, ..c },
            ),
            _ => None,
        },
        Phase::Probing => match e {
            Event::Probed { status, elapsed } => if status is Exited {
                Some(
                    Control {
                        phase: Phase::LeavingRawMode { fault: None },
                        poller: PollerState::StoppedByProcessExit { final_duration: elapsed },
                        child: CaptureProcess::Reaped,
                        ..c
                    },
                )
            } else {
                Some(Control { phase: Phase::Rendering { elapsed }, ..c })
            },
            _ => None,
        },
        Phase::Rendering { .. } => match e {
            Event::Rendered => Some(Control { phase: Phase::Polling, ..c }),
            Event::RenderFailed => Some(
                Control { phase: Phase::LeavingRawMode { fault: Some(Fault::Display) }, ..c },
            ),
            _ => None,
        },
        Phase::Terminating => match e {
            Event::ChildReaped => Some(
                Control {
                    phase: Phase::LeavingRawMode { fault: None },
                    child: CaptureProcess::Reaped,
                    ..c
                },
            ),
            _ => None,
        },
        Phase::LeavingRawMode { fault } => if e == Event::RawModeLeft || e == Event::RawModeStuck {
            Some(
                Control {
                    phase: match ending_after_release(fault, e == Event::RawModeLeft) {
                        Some(ending) => Phase::Finished { ending },
                        None => Phase::Checking,
                    },
                    raw_mode: RawMode::Released,
                    ..c
                },
            )
        } else {
            None
        },
        Phase::Checking => match e {
            Event::TempFile { exists } => Some(
                Control {
                    phase: if exists {
                        Phase::Renaming
                    } else {
                        Phase::Finished { ending: Ending::MissingFile }
                    },
                    ..c
                },
            ),
            _ => None,
        },
        Phase::Renaming => match e {
            Event::Renamed => Some(
                Control { phase: Phase::Finished { ending: Ending::Saved }, ..c },
            ),
            Event::RenameFailed => Some(
                Control { phase: Phase::Finished { ending: Ending::RenameFailed }, ..c },
            ),
            _ => None,
        },
        Phase::Finished { .. } => None,
    }
}

/// What holds of every state that a session can reach: which resources are
/// held, and what is known of the capture process and of the loop, at each
/// point of the fixed order.
pub open spec fn wf(c: Control) -> bool {
    let never_started = c.raw_mode == RawMode::NotEntered && c.poller == PollerState::Running;
    let looping = c.raw_mode == RawMode::Held && c.poller == PollerState::Running && c.child
        == CaptureProcess::Alive;
    let stopped = c.poller != PollerState::Running && c.child == CaptureProcess::Reaped;
    match c.phase {
        Phase::Spawning => never_started && c.child == CaptureProcess::NotSpawned,
        Phase::EnteringRawMode => never_started && c.child == CaptureProcess::Alive,
        Phase::Polling => looping,
        Phase::Probing => looping,
        Phase::Rendering { .. } => looping,
        Phase::Terminating => c.raw_mode == RawMode::Held && c.poller is StoppedByUser && c.child
            == CaptureProcess::Alive,
        Phase::LeavingRawMode { fault } => match fault {
            Some(f) => looping && (f == Fault::Input || f == Fault::Display),
            None => c.raw_mode == RawMode::Held && stopped,
        },
        Phase::Checking => c.raw_mode == RawMode::Released && stopped,
        Phase::Renaming => c.raw_mode == RawMode::Released && stopped,
        Phase::Finished { ending } => match ending {
            Ending::SpawnFailed => never_started && c.child == CaptureProcess::NotSpawned,
            Ending::TerminalFailed { fault } => match fault {
                Fault::EnableRawMode => never_started && c.child == CaptureProcess::Alive,
                Fault::Input => c.raw_mode == RawMode::Released && c.poller
                    == PollerState::Running && c.child == CaptureProcess::Alive,
                Fault::Display => c.raw_mode == RawMode::Released && c.poller
                    == PollerState::Running && c.child == CaptureProcess::Alive,
                Fault::DisableRawMode => c.raw_mode == RawMode::Released && stopped,
            },
            Ending::Saved => c.raw_mode == RawMode::Released && stopped,
            Ending::MissingFile => c.raw_mode == RawMode::Released && stopped,
            Ending::RenameFailed => c.raw_mode == RawMode::Released && stopped,
        },
    }
}

impl Control {
    /// The state in which every session starts.
    pub fn start() -> (c: Control)
        ensures
            c == initial(),
    {
        Control {
            phase: Phase::Spawning,
            poller: PollerState::Running,
            raw_mode: RawMode::NotEntered,
            child: CaptureProcess::NotSpawned,
        }
    }

    /// The request that is waiting to be answered.
    pub fn request(&self) -> (r: Request)
        ensures
            r == pending(*self),
    {
        match self.phase {
            Phase::Spawning => Request::Spawn,
            Phase::EnteringRawMode => Request::EnableRawMode,
            Phase::Polling => Request::PollInput,
            Phase::Probing => Request::ProbeChild,
            Phase::Rendering { .. } => Request::Render,
            Phase::Terminating => Request::TerminateChild,
            Phase::LeavingRawMode { .. } => Request::DisableRawMode,
            Phase::Checking => Request::CheckTempFile,
            Phase::Renaming => Request::Rename,
            Phase::Finished { .. } => Request::Finish,
        }
    }

    /// How the session ended, once it has.
    pub fn ending(&self) -> (r: Option<Ending>)
        ensures
            r == (match self.phase {
                Phase::Finished { ending } => Some(ending),
                _ => None,
            }),
    {
        match self.phase {
            Phase::Finished { ending } => Some(ending),
            _ => None,
        }
    }

    /// The state after `event`, or `None` where `event` does not answer the
    /// pending request.
    pub fn advance(&self, event: Event) -> (r: Option<Control>)
        ensures
            r == next(*self, event),
    {
        let c = *self;
        match c.phase {
            Phase::Spawning => match event {
                Event::Spawned => Some(
                    Control { phase: Phase::EnteringRawMode, child: CaptureProcess::Alive, ..c },
                ),
                Event::SpawnFailed => Some(finished(c, Ending::SpawnFailed)),
                _ => None,
            },
            Phase::EnteringRawMode => match event {
                Event::RawModeEntered => Some(
                    Control { phase: Phase::Polling, raw_mode: RawMode::Held, ..c },
                ),
                Event::RawModeRefused => Some(
                    finished(c, Ending::TerminalFailed { fault: Fault::EnableRawMode }),
                ),
                _ => None,
            },
            Phase::Polling => match event {
                Event::Input { input, elapsed } => {
                    if input.cancels() {
                        Some(
                            Control {
                                phase: Phase::Terminating,
                                poller: PollerState::StoppedByUser { final_duration: elapsed },
                                ..c
                            },
                        )
                    } else {
                        Some(Control { phase: Phase::Probing, ..c })
                    }
                },
                Event::InputFailed => Some(
                    Control { phase: Phase::LeavingRawMode { fault: Some(Fault::Input) }, ..c },
                ),
                _ => None,
            },
            Phase::Probing => match event {
                Event::Probed { status, elapsed } => match status {
                    ChildStatus::Exited { .. } => Some(
                        Control {
                            phase: Phase::LeavingRawMode { fault: None },
                            poller: PollerState::StoppedByProcessExit { final_duration: elapsed },
                            child: CaptureProcess::Reaped,
                            ..c
                        },
                    ),
                    _ => Some(Control { phase: Phase::Rendering { elapsed }, ..c }),
                },
                _ => None,
            },
            Phase::Rendering { .. } => match event {
                Event::Rendered => Some(Control { phase: Phase::Polling, ..c }),
                Event::RenderFailed => Some(
                    Control { phase: Phase::LeavingRawMode { fault: Some(Fault::Display) }, ..c },
                ),
                _ => None,
            },
            Phase::Terminating => match event {
                Event::ChildReaped => Some(
                    Control {
                        phase: Phase::LeavingRawMode { fault: None },
                        child: CaptureProcess::Reaped,
                        ..c
                    },
                ),
                _ => None,
            },
            Phase::LeavingRawMode { fault } => {
                let left = match event {
                    Event::RawModeLeft => true,
                    Event::RawModeStuck => false,
                    _ => {
                        return None;
                    },
                };
                let phase = match fault {
                    Some(f) => Phase::Finished { ending: Ending::TerminalFailed { fault: f } },
                    None => if left {
                        Phase::Checking
                    } else {
                        Phase::Finished {
                            ending: Ending::TerminalFailed { fault: Fault::DisableRawMode },
                        }
                    },
                };
                Some(Control { phase, raw_mode: RawMode::Released, ..c })
            },
            Phase::Checking => match event {
                Event::TempFile { exists } => {
                    if exists {
                        Some(Control { phase: Phase::Renaming, ..c })
                    } else {
                        Some(finished(c, Ending::MissingFile))
                    }
                },
                _ => None,
            },
            Phase::Renaming => match event {
                Event::Renamed => Some(finished(c, Ending::Saved)),
                Event::RenameFailed => Some(finished(c, Ending::RenameFailed)),
                _ => None,
            },
            Phase::Finished { .. } => None,
        }
    }
}

/// `c` brought to its end.
fn finished(c: Control, ending: Ending) -> (r: Control)
    ensures
        r == (Control { phase: Phase::Finished { ending }, ..c }),
{
    Control { phase: Phase::Finished { ending }, ..c }
}

} // verus!
