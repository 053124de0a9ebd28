//! The state and decision core of an always-on status console: a page state
//! machine driven by a small physical control panel, the rule that picks the
//! one calendar event to show, and the shaping of the feeds it displays.
//!
//! Nothing here performs I/O. Key handlers return the [`command::Action`]
//! that the caller has to carry out, and the feed functions work on values
//! that the caller has already fetched.

pub mod calendar;
pub mod command;
pub mod github;
pub mod home;
pub mod json;
pub mod keyboard;
pub mod pattern;
pub mod poller;
pub mod pull_requests;
pub mod shortcuts;
pub mod slider;
pub mod state;
pub mod style;
pub mod text;
pub mod timestamps;

pub use command::{Action, Command};
pub use state::{AppState, CalendarEvent, GitHubNotification, PageState, PullRequest};
