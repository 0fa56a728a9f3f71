//! What a session asks its driver to do, with all that the driver needs to
//! do it.

use vstd::prelude::*;
use crate::control::{pending, Control, Ending, Phase, Request};
use crate::events::TICK_MILLIS;
use crate::names::{final_name, status_text};
use crate::report::{verdict_view, SessionError, SessionErrorView};

verus! {

/// One request of a session to its driver, with what the driver needs to
/// perform it.
#[derive(Debug, PartialEq, Eq)]
pub enum Action {
    /// Launch the capture tool so that it writes to `temp_path`, with its
    /// output and error streams discarded. Answered by `Spawned` or
    /// `SpawnFailed`.
    Spawn { temp_path: String },
    /// Answered by `RawModeEntered` or `RawModeRefused`.
    EnableRawMode,
    /// Wait for input from the terminal, `timeout_ms` milliseconds at most.
    /// Answered by `Input` or `InputFailed`.
    PollInput { timeout_ms: u64 },
    /// Look whether the capture process has exited, without waiting for it.
    /// Answered by `Probed`.
    ProbeChild,
    /// Write `line` to the terminal. Answered by `Rendered` or
    /// `RenderFailed`.
    Render { line: String },
    /// Tell the capture process to stop and wait until it has exited.
    /// Answered by `ChildReaped`.
    TerminateChild,
    /// Answered by `RawModeLeft` or `RawModeStuck`.
    DisableRawMode,
    /// Look whether a file exists at `path`. Answered by `TempFile`.
    CheckTempFile { path: String },
    /// Rename the file at `from` to `to`. Answered by `Renamed` or
    /// `RenameFailed`.
    Rename { from: String, to: String },
    /// The session is over; `verdict` is the final path or the error.
    Finish { verdict: Result<String, SessionError> },
}

/// An action with its texts as sequences of characters.
pub enum ActionView {
    Spawn { temp_path: Seq<char> },
    EnableRawMode,
    PollInput { timeout_ms: u64 },
    ProbeChild,
    Render { line: Seq<char> },
    TerminateChild,
    DisableRawMode,
    CheckTempFile { path: Seq<char> },
    Rename { from: Seq<char>, to: Seq<char> },
    Finish { verdict: Result<Seq<char>, SessionErrorView> },
}

impl View for Action {
    type V = ActionView;

    open spec fn view(&self) -> ActionView {
        match *self {
            Action::Spawn { temp_path } => ActionView::Spawn { temp_path: temp_path@ },
            Action::EnableRawMode => ActionView::EnableRawMode,
            Action::PollInput { timeout_ms } => ActionView::PollInput { timeout_ms },
            Action::ProbeChild => ActionView::ProbeChild,
            Action::Render { line } => ActionView::Render { line: line@ },
            Action::TerminateChild => ActionView::TerminateChild,
            Action::DisableRawMode => ActionView::DisableRawMode,
            Action::CheckTempFile { path } => ActionView::CheckTempFile { path: path@ },
            Action::Rename { from, to } => ActionView::Rename { from: from@, to: to@ },
            Action::Finish { verdict } => ActionView::Finish { verdict: verdict_view(verdict) },
        }
    }
}

impl ActionView {
    /// The request that this action spells out.
    pub open spec fn request(self) -> Request {
        match self {
            ActionView::Spawn { .. } => Request::Spawn,
            ActionView::EnableRawMode => Request::EnableRawMode,
            ActionView::PollInput { .. } => Request::PollInput,
            ActionView::ProbeChild => Request::ProbeChild,
            ActionView::Render { .. } => Request::Render,
            ActionView::TerminateChild => Request::TerminateChild,
            ActionView::DisableRawMode => Request::DisableRawMode,
            ActionView::CheckTempFile { .. } => Request::CheckTempFile,
            ActionView::Rename { .. } => Request::Rename,
            ActionView::Finish { .. } => Request::Finish,
        }
    }
}

impl Action {
    /// The request that this action spells out.
    pub fn request(&self) -> (r: Request)
        ensures
            r == self@.request(),
    {
        match self {
            Action::Spawn { .. } => Request::Spawn,
            Action::EnableRawMode => Request::EnableRawMode,
            Action::PollInput { .. } => Request::PollInput,
            Action::ProbeChild => Request::ProbeChild,
            Action::Render { .. } => Request::Render,
            Action::TerminateChild => Request::TerminateChild,
            Action::DisableRawMode => Request::DisableRawMode,
            Action::CheckTempFile { .. } => Request::CheckTempFile,
            Action::Rename { .. } => Request::Rename,
            Action::Finish { .. } => Request::Finish,
        }
    }
}

/// The words that are shown before the pending action of a session in state
/// `c` is performed: how to stop, at the start; that the recording stops,
/// before the capture process is terminated; that the capture process is
/// gone, before raw mode is left on its account.
pub open spec fn notice_text(c: Control) -> Option<Seq<char>> {
    match c.phase {
        Phase::Spawning => Some("Press 'q' to stop recording..."@),
        Phase::Terminating => Some("\r\nStopping recording..."@),
        Phase::LeavingRawMode { .. } => if c.poller is StoppedByProcessExit {
            Some("\r\npw-record exited unexpectedly."@)
        } else {
            None
        },
        _ => None,
    }
}

/// The seconds that the final name of a session in state `c` shows: those of
/// the duration that was recorded when the loop stopped.
pub open spec fn recorded_secs(c: Control) -> nat {
    c.poller.duration()->0.secs()
}

/// The result of a session of `prefix` and `temp_path` that ended with
/// `ending` in state `c`.
pub open spec fn verdict_of(
    prefix: Seq<char>,
    temp_path: Seq<char>,
    c: Control,
    ending: Ending,
) -> Result<Seq<char>, SessionErrorView> {
    match ending {
        Ending::Saved => Ok(final_name(prefix, recorded_secs(c))),
        Ending::SpawnFailed => Err(SessionErrorView::Spawn),
        Ending::TerminalFailed { fault } => Err(SessionErrorView::TerminalMode { fault }),
        Ending::MissingFile => Err(SessionErrorView::MissingFile { temp_path }),
        Ending::RenameFailed => Err(
            SessionErrorView::Rename { from: temp_path, to: final_name(prefix, recorded_secs(c)) },
        ),
    }
}

/// The action that a session of `prefix` and `temp_path` in state `c` is
/// waiting to have performed.
pub open spec fn action_of(prefix: Seq<char>, temp_path: Seq<char>, c: Control) -> ActionView {
    match c.phase {
        Phase::Spawning => ActionView::Spawn { temp_path },
        Phase::EnteringRawMode => ActionView::EnableRawMode,
        Phase::Polling => ActionView::PollInput { timeout_ms: TICK_MILLIS },
        Phase::Probing => ActionView::ProbeChild,
        Phase::Rendering { elapsed } => ActionView::Render { line: status_text(elapsed.secs()) },
        Phase::Terminating => ActionView::TerminateChild,
        Phase::LeavingRawMode { .. } => ActionView::DisableRawMode,
        Phase::Checking => ActionView::CheckTempFile { path: temp_path },
        Phase::Renaming => ActionView::Rename {
            from: temp_path,
            to: final_name(prefix, recorded_secs(c)),
        },
        Phase::Finished { ending } => ActionView::Finish {
            verdict: verdict_of(prefix, temp_path, c, ending),
        },
    }
}

/// The action of a session spells out the request that its state has
/// pending.
pub proof fn lemma_action_spells_the_request(prefix: Seq<char>, temp_path: Seq<char>, c: Control)
    ensures
        action_of(prefix, temp_path, c).request() == pending(c),
{
}

} // verus!
