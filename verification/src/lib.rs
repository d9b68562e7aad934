//! Temporal aggregation core of a community meditation tracker.
//!
//! Two pieces of logic are the heart of it. The streak calculator derives a member's current
//! and longest run of consecutive practice days from the days on which the member logged a
//! session, with a cached record that spares every lookup but the first a full scan of the
//! log. The refresh scheduler decides when the expensive aggregate views are rebuilt: it waits
//! for the next noon or midnight, runs its jobs one after another with a cooldown between
//! them, and repeats every twelve hours.
//!
//! Nothing in this crate performs I/O. The host reads the session log, the clock and the
//! database, and hands plain values to the functions below.
//!
//! - [`runs`], [`streak`] and [`lookup`] are the streak calculator: the mathematics of runs of
//!   days, the streaks of a history, and a lookup as a conversation with the store.
//! - [`clock`], [`timeframe`] and [`scheduler`] are the refresh scheduler: the anchors of the
//!   wall clock, the aggregate views, and the scheduler as a state machine.
//! - [`chart`] and [`leaderboard`] say how the refreshed views are read.
//! - [`offset`] and [`stats`] hold what a member can choose when logging and when asking for
//!   statistics.
//! - [`retry`] says when a failed database connection is tried again.

pub mod runs;
pub mod streak;
pub mod lookup;
pub mod clock;
pub mod timeframe;
pub mod scheduler;
pub mod chart;
pub mod leaderboard;
pub mod offset;
pub mod stats;
pub mod retry;
