//! The decisions behind three small audio tools, with every one of them
//! proved.
//!
//! The heart is the supervisor of a recording session. It launches a capture
//! tool, watches the keyboard and the capture process tick by tick while it
//! shows the elapsed time, and in the end gives the recording a name that
//! holds its duration. The supervisor does no input or output itself: it is
//! a state machine that hands out one request at a time and takes the
//! result as an event, so that what it guarantees holds whatever the world
//! reports.
//!
//! - [`clock`]: elapsed time and its `HH:MM:SS` rendering
//! - [`names`]: the file names and the status line of a recording
//! - [`events`], [`control`]: the state machine
//! - [`traces`]: what holds of every session
//! - [`action`], [`report`], [`session`]: the machine with its file names,
//!   as a driver uses it
//! - [`finalizer`]: the rename at the end
//! - [`queue`], [`relay`]: the decisions of the two smaller tools

pub mod action;
pub mod clock;
pub mod control;
pub mod events;
pub mod finalizer;
pub mod names;
pub mod queue;
pub mod relay;
pub mod report;
pub mod session;
pub mod traces;
