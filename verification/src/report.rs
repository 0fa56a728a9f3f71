//! How a session ends, and the words in which it says so.

use vstd::prelude::*;
use vstd::string::*;
use crate::control::Fault;

verus! {

/// Why a session failed.
#[derive(Debug, PartialEq, Eq)]
pub enum SessionError {
    /// The capture tool could not be found or launched.
    Spawn,
    /// The terminal failed at `fault`.
    TerminalMode { fault: Fault },
    /// There was no file at `temp_path` when the recording had ended, so
    /// nothing was renamed.
    MissingFile { temp_path: String },
    /// The rename of `from` to `to` failed; the file at `from` is untouched.
    Rename { from: String, to: String },
}

/// An error with its paths as sequences of characters.
pub enum SessionErrorView {
    Spawn,
    TerminalMode { fault: Fault },
    MissingFile { temp_path: Seq<char> },
    Rename { from: Seq<char>, to: Seq<char> },
}

impl View for SessionError {
    type V = SessionErrorView;

    open spec fn view(&self) -> SessionErrorView {
        match *self {
            SessionError::Spawn => SessionErrorView::Spawn,
            SessionError::TerminalMode { fault } => SessionErrorView::TerminalMode { fault },
            SessionError::MissingFile { temp_path } => SessionErrorView::MissingFile {
                temp_path: temp_path@,
            },
            SessionError::Rename { from, to } => SessionErrorView::Rename { from: from@, to: to@ },
        }
    }
}

/// The view of a session's result: the final path, or the error.
pub open spec fn verdict_view(verdict: Result<String, SessionError>) -> Result<
    Seq<char>,
    SessionErrorView,
> {
    match verdict {
        Ok(path) => Ok(path@),
        Err(error) => Err(error@),
    }
}

/// The words for a failure of the terminal.
pub open spec fn fault_text(fault: Fault) -> Seq<char> {
    match fault {
        Fault::EnableRawMode => "Error: Could not enter raw terminal mode."@,
        Fault::Input => "Error: Could not read from the terminal."@,
        Fault::Display => "Error: Could not write to the terminal."@,
        Fault::DisableRawMode => "Error: Could not leave raw terminal mode."@,
    }
}

/// The one message for each error, with the paths that it is about.
pub open spec fn error_text(error: SessionErrorView) -> Seq<char> {
    match error {
        SessionErrorView::Spawn => "Error: Failed to start pw-record."@,
        SessionErrorView::TerminalMode { fault } => fault_text(fault),
        SessionErrorView::MissingFile { temp_path } =>
            "\rError: Temporary recording file was not found: "@ + temp_path,
        SessionErrorView::Rename { from, to } => "\rError: Could not rename "@ + from + " to "@
            + to,
    }
}

/// The message for a recording that was saved at `path`. It clears the
/// status line before it.
pub open spec fn saved_text(path: Seq<char>) -> Seq<char> {
    "\r\x1B[2KRecording saved to: "@ + path
}

/// The exit code of the program for the result of a session: zero for a
/// recording that was saved, one for every failure.
pub open spec fn exit_status(verdict: Result<Seq<char>, SessionErrorView>) -> u8 {
    if verdict is Ok {
        0
    } else {
        1
    }
}

impl SessionError {
    /// The message to show for this error.
    pub fn message(&self) -> (text: String)
        ensures
            text@ == error_text(self@),
    {
        match self {
            SessionError::Spawn => "Error: Failed to start pw-record.".to_owned(),
            SessionError::TerminalMode { fault } => match fault {
                Fault::EnableRawMode => "Error: Could not enter raw terminal mode.".to_owned(),
                Fault::Input => "Error: Could not read from the terminal.".to_owned(),
                Fault::Display => "Error: Could not write to the terminal.".to_owned(),
                Fault::DisableRawMode => "Error: Could not leave raw terminal mode.".to_owned(),
            },
            SessionError::MissingFile { temp_path } => {
                let mut text = "\rError: Temporary recording file was not found: ".to_owned();
                text.append(temp_path.as_str());
                text
            },
            SessionError::Rename { from, to } => {
                let mut text = "\rError: Could not rename ".to_owned();
                text.append(from.as_str());
                text.append(" to ");
                text.append(to.as_str());
                text
            },
        }
    }
}

/// The message to show for a recording that was saved at `path`.
pub fn saved_message(path: &str) -> (text: String)
    ensures
        text@ == saved_text(path@),
{
    let mut text = "\r\x1B[2KRecording saved to: ".to_owned();
    text.append(path);
    text
}

/// The exit code of the program for the result of a session.
pub fn exit_code(verdict: &Result<String, SessionError>) -> (code: u8)
    ensures
        code == exit_status(verdict_view(*verdict)),
        code == 0 <==> *verdict is Ok,
{
    match verdict {
        Ok(_) => 0,
        Err(_) => 1,
    }
}

} // verus!
