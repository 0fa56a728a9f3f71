//! A recording session: the state machine together with the names that its
//! requests speak of.
//!
//! A driver asks for the pending action, performs it, reports the result with
//! `step`, and goes on with the action that `step` returns until that action
//! is `Finish`.

use vstd::pervasive::unreached;
use vstd::prelude::*;
use crate::action::{action_of, notice_text, recorded_secs, verdict_of, Action, ActionView};
use crate::clock::Elapsed;
use crate::control::{
    initial, next, pending, wf, Control, Ending, ExitReason, Phase, PollerState,
};
use crate::events::{Event, TICK_MILLIS};
use crate::finalizer::{conclude, rename_order, RenameOrder};
use crate::names::{final_name, status_line, temp_name, temp_path};
use crate::report::{verdict_view, SessionError};
use crate::traces::{after, lemma_step_keeps_wf};

verus! {

/// One recording, from the launch of the capture tool to the renamed file.
#[derive(Debug)]
pub struct RecordingSession {
    prefix: String,
    temp_path: String,
    control: Control,
}

/// What a session is made of: the prefix of the final name, the file that
/// the capture tool writes to, and the state of the machine.
pub struct SessionView {
    pub prefix: Seq<char>,
    pub temp_path: Seq<char>,
    pub control: Control,
}

impl View for RecordingSession {
    type V = SessionView;

    closed spec fn view(&self) -> SessionView {
        SessionView { prefix: self.prefix@, temp_path: self.temp_path@, control: self.control }
    }
}

impl SessionView {
    /// The action that the session is waiting to have performed.
    pub open spec fn action(self) -> ActionView {
        action_of(self.prefix, self.temp_path, self.control)
    }
}

impl RecordingSession {
    #[verifier::type_invariant]
    spec fn well_formed(self) -> bool {
        wf(self.control)
    }

    /// A session that records to the temporary file named after `prefix`.
    pub fn new(prefix: String) -> (s: RecordingSession)
        ensures
            s@ == (SessionView {
                prefix: prefix@,
                temp_path: temp_name(prefix@),
                control: initial(),
            }),
    {
        let temp_path = temp_path(prefix.as_str());
        RecordingSession { prefix, temp_path, control: Control::start() }
    }

    /// A session that records to `temp_path`.
    pub fn with_temp_path(prefix: String, temp_path: String) -> (s: RecordingSession)
        ensures
            s@ == (SessionView { prefix: prefix@, temp_path: temp_path@, control: initial() }),
    {
        RecordingSession { prefix, temp_path, control: Control::start() }
    }

    /// The prefix of the final name.
    pub fn prefix(&self) -> (p: &str)
        ensures
            p@ == self@.prefix,
    {
        self.prefix.as_str()
    }

    /// The file that the capture tool writes to.
    pub fn temp_path(&self) -> (p: &str)
        ensures
            p@ == self@.temp_path,
    {
        self.temp_path.as_str()
    }

    /// The state of the session, which is well-formed at all times.
    pub fn control(&self) -> (c: Control)
        ensures
            c == self@.control,
            wf(c),
    {
        proof {
            use_type_invariant(self);
        }
        self.control
    }

    /// The state of the tick loop.
    pub fn poller_state(&self) -> (p: PollerState)
        ensures
            p == self@.control.poller,
    {
        self.control.poller
    }

    /// Why the recording ended, once it has.
    pub fn exit_reason(&self) -> (r: Option<ExitReason>)
        ensures
            r == self@.control.poller.reason(),
    {
        self.control.poller.exit_reason()
    }

    /// The duration of the recording, once it has ended.
    pub fn final_duration(&self) -> (d: Option<Elapsed>)
        ensures
            d == self@.control.poller.duration(),
    {
        self.control.poller.final_duration()
    }

    /// Whether the session is over.
    pub fn is_finished(&self) -> (b: bool)
        ensures
            b == self@.control.phase is Finished,
    {
        match self.control.phase {
            Phase::Finished { .. } => true,
            _ => false,
        }
    }

    /// The duration that was recorded when the loop stopped. Every state in
    /// which a final name is asked for has one.
    fn recorded(&self) -> (d: Elapsed)
        requires
            self.control.poller != PollerState::Running,
        ensures
            d.secs() == recorded_secs(self.control),
    {
        match self.control.poller.final_duration() {
            Some(d) => d,
            None => unreached(),
        }
    }

    /// The rename of the temporary file to the name that shows the recorded
    /// duration.
    fn rename(&self) -> (order: RenameOrder)
        requires
            self.control.poller != PollerState::Running,
        ensures
            order.from@ == self@.temp_path,
            order.to@ == final_name(self@.prefix, recorded_secs(self@.control)),
    {
        rename_order(self.temp_path.as_str(), self.prefix.as_str(), self.recorded())
    }

    /// The result of a session that ended with `ending`.
    fn verdict_for(&self, ending: Ending) -> (verdict: Result<String, SessionError>)
        requires
            self.control.phase == (Phase::Finished { ending }),
            wf(self.control),
        ensures
            verdict_view(verdict) == verdict_of(self@.prefix, self@.temp_path, self@.control, ending),
    {
        match ending {
            Ending::Saved => conclude(self.rename(), true),
            Ending::SpawnFailed => Err(SessionError::Spawn),
            Ending::TerminalFailed { fault } => Err(SessionError::TerminalMode { fault }),
            Ending::MissingFile => Err(
                SessionError::MissingFile { temp_path: self.temp_path.clone() },
            ),
            Ending::RenameFailed => conclude(self.rename(), false),
        }
    }

    /// The result of the session, once it has finished.
    pub fn verdict(&self) -> (v: Option<Result<String, SessionError>>)
        ensures
            match self@.control.phase {
                Phase::Finished { ending } => v matches Some(verdict) && verdict_view(verdict)
                    == verdict_of(self@.prefix, self@.temp_path, self@.control, ending),
                _ => v is None,
            },
    {
        proof {
            use_type_invariant(self);
        }
        match self.control.phase {
            Phase::Finished { ending } => Some(self.verdict_for(ending)),
            _ => None,
        }
    }

    /// The words to show before the pending action is performed, if any.
    pub fn notice(&self) -> (n: Option<&'static str>)
        ensures
            match notice_text(self@.control) {
                Some(text) => n matches Some(s) && s@ == text,
                None => n is None,
            },
    {
        match self.control.phase {
            Phase::Spawning => Some("Press 'q' to stop recording..."),
            Phase::Terminating => Some("\r\nStopping recording..."),
            Phase::LeavingRawMode { .. } => match self.control.poller {
                PollerState::StoppedByProcessExit { .. } => Some(
                    "\r\npw-record exited unexpectedly.",
                ),
                _ => None,
            },
            _ => None,
        }
    }

    /// The action that the session is waiting to have performed.
    pub fn pending(&self) -> (a: Action)
        ensures
            a@ == self@.action(),
            a@.request() == pending(self@.control),
    {
        proof {
            use_type_invariant(self);
        }
        match self.control.phase {
            Phase::Spawning => Action::Spawn { temp_path: self.temp_path.clone() },
            Phase::EnteringRawMode => Action::EnableRawMode,
            Phase::Polling => Action::PollInput { timeout_ms: TICK_MILLIS },
            Phase::Probing => Action::ProbeChild,
            Phase::Rendering { elapsed } => Action::Render { line: status_line(elapsed) },
            Phase::Terminating => Action::TerminateChild,
            Phase::LeavingRawMode { .. } => Action::DisableRawMode,
            Phase::Checking => Action::CheckTempFile { path: self.temp_path.clone() },
            Phase::Renaming => {
                let order = self.rename();
                Action::Rename { from: order.from, to: order.to }
            },
            Phase::Finished { ending } => Action::Finish { verdict: self.verdict_for(ending) },
        }
    }

    /// Takes the report of `event`. Where `event` answers the pending
    /// request, the session moves on and the next action is returned. Any
    /// other event changes nothing and is answered by `None`.
    pub fn step(&mut self, event: Event) -> (r: Option<Action>)
        ensures
            final(self)@.prefix == old(self)@.prefix,
            final(self)@.temp_path == old(self)@.temp_path,
            final(self)@.control == after(old(self)@.control, event),
            wf(final(self)@.control),
            match r {
                Some(a) => next(old(self)@.control, event) is Some && a@ == final(self)@.action(),
                None => next(old(self)@.control, event) is None,
            },
    {
        proof {
            use_type_invariant(&*self);
            lemma_step_keeps_wf(self.control, event);
        }
        match self.control.advance(event) {
            Some(n) => {
                self.control = n;
                Some(self.pending())
            },
            None => None,
        }
    }
}

} // verus!
