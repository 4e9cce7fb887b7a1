//! Playback-session control for an internet-radio terminal player.
//!
//! The crate decides; it performs no I/O. A driver owns the player process,
//! the terminal and the clock, hands each event to the session, and carries
//! out the action it gets back.
//!
//! - [`backend`]: the player backends, what each can do while it runs, and
//!   which one a host gets.
//! - [`launch`]: the command that starts a backend on a stream.
//! - [`control`]: level and mute state, and how a change reaches the player.
//! - [`station`]: the station table and moving through it.
//! - [`keys`]: which key asks for which operation.
//! - [`session`]: the session itself, as a state machine over events and
//!   actions.
//! - [`ui`]: the snapshot the dashboard is drawn from, and its texts.
//! - [`text`]: decimal numerals and padded fields.

pub mod backend;
pub mod control;
pub mod keys;
pub mod launch;
pub mod session;
pub mod station;
pub mod text;
pub mod ui;
