//! The file names and the status line of a recording.

use vstd::prelude::*;
use vstd::string::*;
use crate::clock::{clock_text, push_clock, Elapsed};

verus! {

/// The name under which the capture tool writes while it records.
pub open spec fn temp_name(prefix: Seq<char>) -> Seq<char> {
    prefix + "-temp.wav"@
}

/// The name that a recording of `secs` seconds bears in the end: the prefix,
/// then the duration in square brackets.
pub open spec fn final_name(prefix: Seq<char>, secs: nat) -> Seq<char> {
    prefix + "-["@ + clock_text(secs) + "].wav"@
}

/// The status line after `secs` seconds. It begins with a carriage return,
/// so that it is written over the line before it.
pub open spec fn status_text(secs: nat) -> Seq<char> {
    "\rRecording: "@ + clock_text(secs) + " "@
}

/// The arguments with which the capture tool records what is being played
/// into the file `temp_path`.
pub open spec fn capture_arguments(temp_path: Seq<char>) -> Seq<Seq<char>> {
    seq!["-P"@, "{ stream.capture.sink=true }"@, temp_path]
}

/// The final name of a recording never is the temporary name of the same
/// prefix, so that the rename moves the file.
pub proof fn lemma_final_name_is_not_temp_name(prefix: Seq<char>, secs: nat)
    ensures
        final_name(prefix, secs) != temp_name(prefix),
{
    reveal_strlit("-temp.wav");
    reveal_strlit("-[");
    reveal_strlit("].wav");
    let i = prefix.len() as int + 1;
    assert(final_name(prefix, secs)[i] == '[');
    assert(temp_name(prefix)[i] == 't');
}

/// The name under which the capture tool writes while it records.
pub fn temp_path(prefix: &str) -> (path: String)
    ensures
        path@ == temp_name(prefix@),
{
    let mut path = prefix.to_owned();
    path.append("-temp.wav");
    path
}

/// The final name for a recording that took `duration`; the fraction of a
/// second is dropped.
pub fn final_path(prefix: &str, duration: Elapsed) -> (path: String)
    ensures
        path@ == final_name(prefix@, duration.secs()),
{
    let mut path = prefix.to_owned();
    path.append("-[");
    push_clock(&mut path, duration.whole_seconds());
    path.append("].wav");
    path
}

/// The status line to show `elapsed` after the start.
pub fn status_line(elapsed: Elapsed) -> (line: String)
    ensures
        line@ == status_text(elapsed.secs()),
{
    let mut line = "\rRecording: ".to_owned();
    push_clock(&mut line, elapsed.whole_seconds());
    line.append(" ");
    line
}

/// The name of the capture tool.
pub fn capture_program() -> (name: &'static str)
    ensures
        name@ == "pw-record"@,
{
    "pw-record"
}

/// The arguments of the capture tool for a recording into `temp_path`.
pub fn capture_args(temp_path: &str) -> (args: Vec<String>)
    ensures
        args.deep_view() == capture_arguments(temp_path@),
{
    let mut args: Vec<String> = Vec::new();
    args.push("-P".to_owned());
    args.push("{ stream.capture.sink=true }".to_owned());
    args.push(temp_path.to_owned());
    assert(args.deep_view() =~= capture_arguments(temp_path@));
    args
}

} // verus!
