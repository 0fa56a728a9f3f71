//! What holds of whole sessions: of every sequence of events, whatever the
//! driver reports and in whatever order.

use vstd::prelude::*;
use crate::clock::Elapsed;
use crate::control::{
    initial, next, pending, wf, CaptureProcess, Control, Ending, Phase, PollerState, RawMode,
    Request,
};
use crate::events::{ChildStatus, Event, Input};

verus! {

/// The state after `e` is reported in `c`. An event that does not answer the
/// pending request changes nothing.
pub open spec fn after(c: Control, e: Event) -> Control {
    match next(c, e) {
        Some(n) => n,
        None => c,
    }
}

/// The state after `events` are reported one by one, starting in `c`.
pub open spec fn run(c: Control, events: Seq<Event>) -> Control
    decreases events.len(),
{
    if events.len() == 0 {
        c
    } else {
        after(run(c, events.drop_last()), events.last())
    }
}

/// How often, while `events` are reported one by one starting in `c`, the
/// session answers an event with `request`.
pub open spec fn times_issued(c: Control, events: Seq<Event>, request: Request) -> nat
    decreases events.len(),
{
    if events.len() == 0 {
        0
    } else {
        let earlier = times_issued(c, events.drop_last(), request);
        match next(run(c, events.drop_last()), events.last()) {
            Some(n) => if pending(n) == request {
                earlier + 1
            } else {
                earlier
            },
            None => earlier,
        }
    }
}

/// How often, while `events` are reported one by one starting in `c`, the
/// session accepts a report of `event`.
pub open spec fn times_accepted(c: Control, events: Seq<Event>, event: Event) -> nat
    decreases events.len(),
{
    if events.len() == 0 {
        0
    } else {
        let earlier = times_accepted(c, events.drop_last(), event);
        if events.last() == event && next(run(c, events.drop_last()), event) is Some {
            earlier + 1
        } else {
            earlier
        }
    }
}

/// One tick of a session that polls: the poll of the terminal is reported
/// and, where the session then asks for it, the probe of the capture process.
pub open spec fn tick(
    c: Control,
    input: Input,
    polled_at: Elapsed,
    status: ChildStatus,
    probed_at: Elapsed,
) -> Control {
    let polled = after(c, Event::Input { input, elapsed: polled_at });
    if pending(polled) == Request::ProbeChild {
        after(polled, Event::Probed { status, elapsed: probed_at })
    } else {
        polled
    }
}

/// Whether a session in state `c` has come to the rename or beyond it.
pub open spec fn rename_issued(c: Control) -> bool {
    ||| c.phase == Phase::Renaming
    ||| c.phase == (Phase::Finished { ending: Ending::Saved })
    ||| c.phase == (Phase::Finished { ending: Ending::RenameFailed })
}

/// Whether a session in state `c` has issued `request` already. This is
/// meant for the requests outside the tick loop, each of which has its one
/// place in the order of a session.
pub open spec fn issued(c: Control, request: Request) -> bool {
    match request {
        Request::Spawn => true,
        Request::EnableRawMode => c.child != CaptureProcess::NotSpawned,
        Request::TerminateChild => c.poller is StoppedByUser,
        Request::DisableRawMode => c.phase is LeavingRawMode || c.raw_mode == RawMode::Released,
        Request::CheckTempFile => {
            ||| c.phase == Phase::Checking
            ||| rename_issued(c)
            ||| c.phase == (Phase::Finished { ending: Ending::MissingFile })
        },
        Request::Rename => rename_issued(c),
        Request::Finish => c.phase is Finished,
        _ => false,
    }
}

/// Whether `request` is one of the three that every tick repeats.
pub open spec fn in_tick_loop(request: Request) -> bool {
    request == Request::PollInput || request == Request::ProbeChild || request == Request::Render
}

/// Every step leads from a well-formed state to a well-formed state.
pub proof fn lemma_step_keeps_wf(c: Control, e: Event)
    requires
        wf(c),
    ensures
        wf(after(c, e)),
{
}

/// Every state that a session reaches is well-formed.
pub proof fn lemma_run_keeps_wf(c: Control, events: Seq<Event>)
    requires
        wf(c),
    ensures
        wf(run(c, events)),
    decreases events.len(),
{
    if events.len() > 0 {
        lemma_run_keeps_wf(c, events.drop_last());
        lemma_step_keeps_wf(run(c, events.drop_last()), events.last());
    }
}

/// A finished session stays as it is, whatever is reported to it.
pub proof fn lemma_finished_is_absorbing(c: Control, events: Seq<Event>)
    requires
        c.phase is Finished,
    ensures
        run(c, events) == c,
    decreases events.len(),
{
    if events.len() > 0 {
        lemma_finished_is_absorbing(c, events.drop_last());
    }
}

/// Once the loop has stopped, neither the reason nor the recorded duration
/// changes again.
pub proof fn lemma_stop_is_recorded_once(c: Control, events: Seq<Event>)
    requires
        wf(c),
        c.poller != PollerState::Running,
    ensures
        run(c, events).poller == c.poller,
    decreases events.len(),
{
    if events.len() > 0 {
        lemma_stop_is_recorded_once(c, events.drop_last());
        lemma_run_keeps_wf(c, events.drop_last());
    }
}

/// Once the loop has stopped it is over: whatever is reported, the session
/// never again asks for a poll, a probe or the status line.
pub proof fn lemma_loop_ends_with_the_stop(c: Control, events: Seq<Event>)
    requires
        wf(c),
        c.poller != PollerState::Running,
    ensures
        !in_tick_loop(pending(run(c, events))),
{
    lemma_stop_is_recorded_once(c, events);
    lemma_run_keeps_wf(c, events);
}

/// A press of the cancellation key decides the tick: the session stops as
/// cancelled by the user, with the time of the poll as its duration, and
/// asks for the capture process to be terminated, whatever a probe of that
/// process would have found.
pub proof fn lemma_cancel_wins_the_tick(
    c: Control,
    input: Input,
    polled_at: Elapsed,
    status: ChildStatus,
    probed_at: Elapsed,
)
    requires
        c.phase == Phase::Polling,
        input.is_cancel(),
    ensures
        tick(c, input, polled_at, status, probed_at).poller == (PollerState::StoppedByUser {
            final_duration: polled_at,
        }),
        pending(tick(c, input, polled_at, status, probed_at)) == Request::TerminateChild,
{
}

/// Without a press of the cancellation key the probe decides the tick: a
/// process that has exited stops the session, with the time of the probe as
/// its duration and raw mode to be left next; otherwise the loop goes on by
/// drawing the status line.
pub proof fn lemma_probe_decides_the_tick(
    c: Control,
    input: Input,
    polled_at: Elapsed,
    status: ChildStatus,
    probed_at: Elapsed,
)
    requires
        c.phase == Phase::Polling,
        !input.is_cancel(),
    ensures
        status is Exited ==> tick(c, input, polled_at, status, probed_at).poller == (
        PollerState::StoppedByProcessExit { final_duration: probed_at }) && pending(
            tick(c, input, polled_at, status, probed_at),
        ) == Request::DisableRawMode,
        !(status is Exited) ==> tick(c, input, polled_at, status, probed_at) == (Control {
            phase: Phase::Rendering { elapsed: probed_at },
            ..c
        }),
{
}

/// A request outside the tick loop is issued by the one step that first
/// brings the session to its place in the order, and by no other.
proof fn lemma_step_issues_once(c: Control, e: Event, request: Request)
    requires
        wf(c),
        !in_tick_loop(request),
    ensures
        match next(c, e) {
            Some(n) => if pending(n) == request {
                !issued(c, request) && issued(n, request)
            } else {
                issued(n, request) == issued(c, request)
            },
            None => true,
        },
{
}

/// The steps that issue a request outside the tick loop are counted by
/// whether the session has come to that request's place at the end and had
/// not at the start.
proof fn lemma_issued_counts(c: Control, events: Seq<Event>, request: Request)
    requires
        wf(c),
        !in_tick_loop(request),
    ensures
        times_issued(c, events, request) + (if issued(c, request) {
            1nat
        } else {
            0nat
        }) == (if issued(run(c, events), request) {
            1nat
        } else {
            0nat
        }),
    decreases events.len(),
{
    if events.len() > 0 {
        lemma_issued_counts(c, events.drop_last(), request);
        lemma_run_keeps_wf(c, events.drop_last());
        lemma_step_issues_once(run(c, events.drop_last()), events.last(), request);
    }
}

/// Raw mode is entered by the one step that takes the session out of the
/// state in which it never was.
proof fn lemma_entered_counts(c: Control, events: Seq<Event>)
    requires
        wf(c),
    ensures
        times_accepted(c, events, Event::RawModeEntered) + (if c.raw_mode != RawMode::NotEntered {
            1nat
        } else {
            0nat
        }) == (if run(c, events).raw_mode != RawMode::NotEntered {
            1nat
        } else {
            0nat
        }),
    decreases events.len(),
{
    if events.len() > 0 {
        lemma_entered_counts(c, events.drop_last());
        lemma_run_keeps_wf(c, events.drop_last());
    }
}

/// A temporary file is found missing by the one step that ends the session
/// with that error.
proof fn lemma_missing_counts(c: Control, events: Seq<Event>)
    requires
        wf(c),
    ensures
        times_accepted(c, events, Event::TempFile { exists: false }) + (if c.phase == (
        Phase::Finished { ending: Ending::MissingFile }) {
            1nat
        } else {
            0nat
        }) == (if run(c, events).phase == (Phase::Finished { ending: Ending::MissingFile }) {
            1nat
        } else {
            0nat
        }),
    decreases events.len(),
{
    if events.len() > 0 {
        lemma_missing_counts(c, events.drop_last());
        lemma_run_keeps_wf(c, events.drop_last());
    }
}

/// In a session from its start, whatever events are reported: each request
/// outside the tick loop is issued at most once, the launch of the capture
/// tool never again after the start.
pub proof fn lemma_requests_are_issued_once(events: Seq<Event>, request: Request)
    requires
        !in_tick_loop(request),
    ensures
        times_issued(initial(), events, request) <= 1,
        times_issued(initial(), events, Request::Spawn) == 0,
        times_issued(initial(), events, request) == 1 <==> request != Request::Spawn && issued(
            run(initial(), events),
            request,
        ),
{
    lemma_issued_counts(initial(), events, request);
    lemma_issued_counts(initial(), events, Request::Spawn);
}

/// In a session from its start, whatever events are reported: raw mode is
/// entered at most once and the request to leave it is issued at most once,
/// and only after raw mode was entered. A session that has finished has
/// issued that request exactly if it entered raw mode, whichever way it
/// ended, and is not left holding raw mode. In particular it has issued
/// the request exactly once if its loop stopped, be it by the user or by the
/// exit of the capture process.
pub proof fn lemma_raw_mode_is_released_once(events: Seq<Event>)
    ensures
        run(initial(), events).phase is Finished && run(initial(), events).poller
            != PollerState::Running ==> times_issued(initial(), events, Request::DisableRawMode)
            == 1,
        times_issued(initial(), events, Request::DisableRawMode) <= times_accepted(
            initial(),
            events,
            Event::RawModeEntered,
        ) <= 1,
        run(initial(), events).phase is Finished ==> times_issued(
            initial(),
            events,
            Request::DisableRawMode,
        ) == times_accepted(initial(), events, Event::RawModeEntered),
        run(initial(), events).phase is Finished ==> run(initial(), events).raw_mode
            != RawMode::Held,
{
    lemma_issued_counts(initial(), events, Request::DisableRawMode);
    lemma_entered_counts(initial(), events);
    lemma_run_keeps_wf(initial(), events);
}

/// In a session from its start, whatever events are reported: the capture
/// process is ordered to terminate at most once, exactly when the user
/// cancelled, and never once it was found to have exited by itself.
pub proof fn lemma_child_is_terminated_once(events: Seq<Event>)
    ensures
        times_issued(initial(), events, Request::TerminateChild) == (if run(
            initial(),
            events,
        ).poller is StoppedByUser {
            1nat
        } else {
            0nat
        }),
{
    lemma_issued_counts(initial(), events, Request::TerminateChild);
}

/// In a session from its start, whatever events are reported: while the
/// session asks for the temporary file to be looked for or renamed, the loop
/// has stopped with its reason and duration recorded, the capture process has
/// exited and been waited for, and raw mode has been left.
pub proof fn lemma_finalizer_runs_last(events: Seq<Event>)
    ensures
        ({
            let c = run(initial(), events);
            pending(c) == Request::CheckTempFile || pending(c) == Request::Rename ==> {
                &&& c.poller.reason() is Some
                &&& c.poller.duration() is Some
                &&& c.child == CaptureProcess::Reaped
                &&& c.raw_mode == RawMode::Released
            }
        }),
{
    lemma_run_keeps_wf(initial(), events);
}

/// In a session from its start, whatever events are reported: once the
/// temporary file was found missing, the session has ended with that error
/// and has never asked for a rename.
pub proof fn lemma_missing_file_ends_without_rename(events: Seq<Event>)
    requires
        times_accepted(initial(), events, Event::TempFile { exists: false }) > 0,
    ensures
        run(initial(), events).phase == (Phase::Finished { ending: Ending::MissingFile }),
        times_issued(initial(), events, Request::Rename) == 0,
{
    lemma_missing_counts(initial(), events);
    lemma_issued_counts(initial(), events, Request::Rename);
}

} // verus!
