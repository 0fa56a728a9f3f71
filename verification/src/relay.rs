//! Relaying a stream through a named pipe: what to do about the pipe, how the
//! player is started, and how the program exits.

use vstd::prelude::*;
use vstd::string::*;

verus! {

/// What is to be done about the pipe before the player starts.
#[derive(Clone, Copy, Debug, PartialEq, Eq, Structural)]
pub enum PipeStep {
    /// Nothing is at the path: make the pipe.
    Create,
    /// A pipe is there already.
    Use,
    /// Something else is at the path: give up.
    Reject,
}

/// What is to be done about the pipe: made where nothing is at its path,
/// used where a pipe is, rejected where anything else is.
pub open spec fn pipe_step_of(exists: bool, is_fifo: bool) -> PipeStep {
    if !exists {
        PipeStep::Create
    } else if is_fifo {
        PipeStep::Use
    } else {
        PipeStep::Reject
    }
}

/// What is to be done about the pipe, given whether anything exists at its
/// path and, if so, whether that is a named pipe.
pub fn pipe_step(exists: bool, is_fifo: bool) -> (step: PipeStep)
    ensures
        step == pipe_step_of(exists, is_fifo),
{
    if !exists {
        PipeStep::Create
    } else if is_fifo {
        PipeStep::Use
    } else {
        PipeStep::Reject
    }
}

/// The path of the pipe.
pub fn pipe_path() -> (path: &'static str)
    ensures
        path@ == "/tmp/relay"@,
{
    "/tmp/relay"
}

/// The arguments that every run of the player gets: raw video and audio into
/// the pipe, and a quiet resolver that does not wait.
pub open spec fn fixed_arguments() -> Seq<Seq<char>> {
    seq![
        "--o=/tmp/relay"@,
        "--of=nut"@,
        "--ovc=rawvideo"@,
        "--oac=pcm_s16le"@,
        "--msg-level=all=status,ffmpeg=fatal"@,
        "--ytdl-raw-options=sleep-interval=0,max-sleep-interval=0,socket-timeout=5,no-playlist="@,
    ]
}

/// The one argument of a bound that was given, and none for one that was not.
pub open spec fn bound_argument(flag: Seq<char>, bound: Option<Seq<char>>) -> Seq<Seq<char>> {
    match bound {
        Some(at) => seq![flag + at],
        None => seq![],
    }
}

/// The arguments of the player: the fixed ones, then the start and the end
/// where they were given, then the input.
pub open spec fn player_arguments(
    input: Seq<char>,
    start: Option<Seq<char>>,
    end: Option<Seq<char>>,
) -> Seq<Seq<char>> {
    fixed_arguments() + bound_argument("--start="@, start) + bound_argument("--end="@, end)
        + seq![input]
}

/// The characters of a bound that may be absent.
pub open spec fn bound_of(bound: Option<&str>) -> Option<Seq<char>> {
    match bound {
        Some(at) => Some(at@),
        None => None,
    }
}

/// The arguments of the player for `input`, played from `start` to `end`
/// where these are given.
pub fn player_args(input: &str, start: Option<&str>, end: Option<&str>) -> (args: Vec<String>)
    ensures
        args.deep_view() == player_arguments(input@, bound_of(start), bound_of(end)),
{
    let mut args: Vec<String> = Vec::new();
    args.push("--o=/tmp/relay".to_owned());
    args.push("--of=nut".to_owned());
    args.push("--ovc=rawvideo".to_owned());
    args.push("--oac=pcm_s16le".to_owned());
    args.push("--msg-level=all=status,ffmpeg=fatal".to_owned());
    args.push(
        "--ytdl-raw-options=sleep-interval=0,max-sleep-interval=0,socket-timeout=5,no-playlist=".to_owned(),
    );
    assert(args.deep_view() =~= fixed_arguments());
    if let Some(at) = start {
        let mut arg = "--start=".to_owned();
        arg.append(at);
        args.push(arg);
    }
    assert(args.deep_view() =~= fixed_arguments() + bound_argument("--start="@, bound_of(start)));
    if let Some(at) = end {
        let mut arg = "--end=".to_owned();
        arg.append(at);
        args.push(arg);
    }
    assert(args.deep_view() =~= fixed_arguments() + bound_argument("--start="@, bound_of(start))
        + bound_argument("--end="@, bound_of(end)));
    args.push(input.to_owned());
    assert(args.deep_view() =~= player_arguments(input@, bound_of(start), bound_of(end)));
    args
}

/// The exit code of the program for the way the player ended: zero where it
/// succeeded, else the player's own code, or one where it left none.
pub open spec fn exit_status(success: bool, code: Option<i32>) -> i32 {
    if success {
        0
    } else {
        match code {
            Some(code) => code,
            None => 1,
        }
    }
}

/// The exit code of the program, given whether the player succeeded and the
/// code that it left.
pub fn exit_code(success: bool, code: Option<i32>) -> (status: i32)
    ensures
        status == exit_status(success, code),
{
    if success {
        0
    } else {
        match code {
            Some(code) => code,
            None => 1,
        }
    }
}

} // verus!
