use audio_tools::queue::{
    home_socket, queue_plan, resolve_host, resolver_args, runtime_socket, step_args, Playback,
    QueueStep,
};
use audio_tools::relay::{exit_code, pipe_path, pipe_step, player_args, PipeStep};

fn strings(items: &[&str]) -> Vec<String> {
    items.iter().map(|s| s.to_string()).collect()
}

#[test]
fn sockets_lie_below_their_directories() {
    assert_eq!(runtime_socket("/run/user/1000"), "/run/user/1000/mpd/socket");
    assert_eq!(home_socket("/home/me"), "/home/me/.config/mpd/socket");
}

#[test]
fn a_configured_host_is_taken_first() {
    let host = resolve_host(
        Some("localhost".to_string()),
        Some("/run/user/1000".to_string()),
        true,
        Some("/home/me".to_string()),
    );
    assert_eq!(host, Some("localhost".to_string()));
}

#[test]
fn the_runtime_socket_is_taken_where_it_exists() {
    let host =
        resolve_host(None, Some("/run/user/1000".to_string()), true, Some("/home/me".to_string()));
    assert_eq!(host, Some("/run/user/1000/mpd/socket".to_string()));
    let without_home = resolve_host(None, Some("/run/user/1000".to_string()), true, None);
    assert_eq!(without_home, Some("/run/user/1000/mpd/socket".to_string()));
}

#[test]
fn the_home_socket_is_the_fallback() {
    let missing =
        resolve_host(None, Some("/run/user/1000".to_string()), false, Some("/home/me".to_string()));
    assert_eq!(missing, Some("/home/me/.config/mpd/socket".to_string()));
    let no_runtime_dir = resolve_host(None, None, true, Some("/home/me".to_string()));
    assert_eq!(no_runtime_dir, Some("/home/me/.config/mpd/socket".to_string()));
}

#[test]
fn no_host_without_a_home() {
    assert_eq!(resolve_host(None, None, false, None), None);
    assert_eq!(resolve_host(None, Some("/run/user/1000".to_string()), false, None), None);
}

#[test]
fn the_resolver_is_asked_for_the_best_audio_stream() {
    assert_eq!(
        resolver_args("https://example.org/v"),
        strings(&[
            "--no-check-certificate",
            "--no-playlist",
            "-f",
            "bestaudio",
            "-g",
            "https://example.org/v"
        ])
    );
}

#[test]
fn a_stream_is_only_added_while_something_plays() {
    assert_eq!(queue_plan(Playback::Playing), vec![QueueStep::Add]);
}

#[test]
fn a_stream_is_added_and_played_on_an_empty_queue() {
    assert_eq!(
        queue_plan(Playback::Stopped { playlist_empty: true }),
        vec![QueueStep::Add, QueueStep::Play]
    );
}

#[test]
fn a_stale_queue_is_cleared_first() {
    assert_eq!(
        queue_plan(Playback::Stopped { playlist_empty: false }),
        vec![QueueStep::Clear, QueueStep::Add, QueueStep::Play]
    );
}

#[test]
fn each_queue_step_has_its_arguments() {
    assert_eq!(step_args(QueueStep::Clear, "u"), strings(&["clear"]));
    assert_eq!(step_args(QueueStep::Add, "http://s/a"), strings(&["add", "http://s/a"]));
    assert_eq!(step_args(QueueStep::Play, "u"), strings(&["play"]));
}

#[test]
fn the_pipe_is_made_where_nothing_is() {
    assert_eq!(pipe_step(false, false), PipeStep::Create);
    assert_eq!(pipe_step(false, true), PipeStep::Create);
}

#[test]
fn a_pipe_that_exists_is_used() {
    assert_eq!(pipe_step(true, true), PipeStep::Use);
}

#[test]
fn anything_else_at_the_path_is_rejected() {
    assert_eq!(pipe_step(true, false), PipeStep::Reject);
}

#[test]
fn the_pipe_lies_in_tmp() {
    assert_eq!(pipe_path(), "/tmp/relay");
}

const FIXED: [&str; 6] = [
    "--o=/tmp/relay",
    "--of=nut",
    "--ovc=rawvideo",
    "--oac=pcm_s16le",
    "--msg-level=all=status,ffmpeg=fatal",
    "--ytdl-raw-options=sleep-interval=0,max-sleep-interval=0,socket-timeout=5,no-playlist=",
];

#[test]
fn the_player_gets_the_fixed_arguments_and_the_input() {
    let mut expected = strings(&FIXED);
    expected.push("URL".to_string());
    assert_eq!(player_args("URL", None, None), expected);
}

#[test]
fn the_player_gets_the_bounds_that_were_given() {
    let mut both = strings(&FIXED);
    both.extend(strings(&["--start=00:00:00", "--end=00:00:10", "URL"]));
    assert_eq!(player_args("URL", Some("00:00:00"), Some("00:00:10")), both);

    let mut start_only = strings(&FIXED);
    start_only.extend(strings(&["--start=5", "URL"]));
    assert_eq!(player_args("URL", Some("5"), None), start_only);

    let mut end_only = strings(&FIXED);
    end_only.extend(strings(&["--end=7", "URL"]));
    assert_eq!(player_args("URL", None, Some("7")), end_only);
}

#[test]
fn the_relay_exits_with_the_players_code() {
    assert_eq!(exit_code(true, Some(0)), 0);
    assert_eq!(exit_code(true, None), 0);
    assert_eq!(exit_code(false, Some(2)), 2);
    assert_eq!(exit_code(false, Some(-1)), -1);
    assert_eq!(exit_code(false, None), 1);
}
