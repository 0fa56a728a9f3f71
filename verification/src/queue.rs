//! Sending a stream to the music player daemon: where the daemon listens,
//! how the stream is resolved, and what the queue is told.

use vstd::prelude::*;
use vstd::string::*;

verus! {

/// The socket below the runtime directory `dir`.
pub open spec fn runtime_socket_name(dir: Seq<char>) -> Seq<char> {
    dir + "/mpd/socket"@
}

/// The socket below the home directory `home`.
pub open spec fn home_socket_name(home: Seq<char>) -> Seq<char> {
    home + "/.config/mpd/socket"@
}

/// Where the daemon listens: the configured host if there is one; else the
/// socket below the runtime directory if that directory is known and the
/// socket exists; else the socket below the home directory; and nowhere if
/// the home directory is unknown too.
pub open spec fn host_of(
    configured: Option<Seq<char>>,
    runtime_dir: Option<Seq<char>>,
    runtime_socket_exists: bool,
    home: Option<Seq<char>>,
) -> Option<Seq<char>> {
    if configured is Some {
        configured
    } else if runtime_dir is Some && runtime_socket_exists {
        Some(runtime_socket_name(runtime_dir->0))
    } else if home is Some {
        Some(home_socket_name(home->0))
    } else {
        None
    }
}

/// The characters of a string that may be absent.
pub open spec fn text_of(s: Option<String>) -> Option<Seq<char>> {
    match s {
        Some(s) => Some(s@),
        None => None,
    }
}

/// The path of the socket below the runtime directory `dir`.
pub fn runtime_socket(dir: &str) -> (path: String)
    ensures
        path@ == runtime_socket_name(dir@),
{
    let mut path = dir.to_owned();
    path.append("/mpd/socket");
    path
}

/// The path of the socket below the home directory `home`.
pub fn home_socket(home: &str) -> (path: String)
    ensures
        path@ == home_socket_name(home@),
{
    let mut path = home.to_owned();
    path.append("/.config/mpd/socket");
    path
}

/// Where the daemon listens, given what the environment holds and whether
/// the socket below the runtime directory exists.
pub fn resolve_host(
    configured: Option<String>,
    runtime_dir: Option<String>,
    runtime_socket_exists: bool,
    home: Option<String>,
) -> (host: Option<String>)
    ensures
        text_of(host) == host_of(
            text_of(configured),
            text_of(runtime_dir),
            runtime_socket_exists,
            text_of(home),
        ),
{
    if let Some(host) = configured {
        return Some(host);
    }
    if let Some(dir) = runtime_dir {
        if runtime_socket_exists {
            return Some(runtime_socket(dir.as_str()));
        }
    }
    match home {
        Some(home) => Some(home_socket(home.as_str())),
        None => None,
    }
}

/// The arguments with which the resolver prints the audio stream behind
/// `input`.
pub open spec fn resolver_arguments(input: Seq<char>) -> Seq<Seq<char>> {
    seq!["--no-check-certificate"@, "--no-playlist"@, "-f"@, "bestaudio"@, "-g"@, input]
}

/// The arguments of the resolver for `input`.
pub fn resolver_args(input: &str) -> (args: Vec<String>)
    ensures
        args.deep_view() == resolver_arguments(input@),
{
    let mut args: Vec<String> = Vec::new();
    args.push("--no-check-certificate".to_owned());
    args.push("--no-playlist".to_owned());
    args.push("-f".to_owned());
    args.push("bestaudio".to_owned());
    args.push("-g".to_owned());
    args.push(input.to_owned());
    assert(args.deep_view() =~= resolver_arguments(input@));
    args
}

/// What the daemon is doing when a stream arrives.
#[derive(Clone, Copy, Debug, PartialEq, Eq, Structural)]
pub enum Playback {
    Playing,
    /// Nothing is playing; `playlist_empty` says whether anything is queued.
    Stopped { playlist_empty: bool },
}

/// One command to the daemon's queue.
#[derive(Clone, Copy, Debug, PartialEq, Eq, Structural)]
pub enum QueueStep {
    Clear,
    Add,
    Play,
}

/// What the queue is told when a stream arrives: while something plays the
/// stream is added and nothing else; otherwise it is added and played, after
/// the queue was cleared of what was left in it.
pub open spec fn plan_of(playback: Playback) -> Seq<QueueStep> {
    match playback {
        Playback::Playing => seq![QueueStep::Add],
        Playback::Stopped { playlist_empty } => if playlist_empty {
            seq![QueueStep::Add, QueueStep::Play]
        } else {
            seq![QueueStep::Clear, QueueStep::Add, QueueStep::Play]
        },
    }
}

/// The commands to the queue, in their order, for a stream that arrives
/// during `playback`.
pub fn queue_plan(playback: Playback) -> (plan: Vec<QueueStep>)
    ensures
        plan@ == plan_of(playback),
{
    let mut plan: Vec<QueueStep> = Vec::new();
    match playback {
        Playback::Playing => {
            plan.push(QueueStep::Add);
        },
        Playback::Stopped { playlist_empty } => {
            if !playlist_empty {
                plan.push(QueueStep::Clear);
            }
            plan.push(QueueStep::Add);
            plan.push(QueueStep::Play);
        },
    }
    assert(plan@ =~= plan_of(playback));
    plan
}

/// The arguments of the queue's client for `step`, with `url` as the stream.
pub open spec fn step_arguments(step: QueueStep, url: Seq<char>) -> Seq<Seq<char>> {
    match step {
        QueueStep::Clear => seq!["clear"@],
        QueueStep::Add => seq!["add"@, url],
        QueueStep::Play => seq!["play"@],
    }
}

/// The arguments of the queue's client for `step`.
pub fn step_args(step: QueueStep, url: &str) -> (args: Vec<String>)
    ensures
        args.deep_view() == step_arguments(step, url@),
{
    let mut args: Vec<String> = Vec::new();
    match step {
        QueueStep::Clear => {
            args.push("clear".to_owned());
        },
        QueueStep::Add => {
            args.push("add".to_owned());
            args.push(url.to_owned());
        },
        QueueStep::Play => {
            args.push("play".to_owned());
        },
    }
    assert(args.deep_view() =~= step_arguments(step, url@));
    args
}

} // verus!
