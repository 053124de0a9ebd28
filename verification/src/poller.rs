//! What the periodic feed tasks decide: how often each runs and what a
//! finished fetch does to the shared state.
//!
//! Each feed owns one field of the state and replaces it whole. A fetch
//! that failed changes nothing: the console keeps showing what it had.

use vstd::prelude::*;
use crate::state::{AppState, CalendarEvent, GitHubNotification, PullRequest};

verus! {

/// Seconds between two fetches of the calendar.
pub const CALENDAR_INTERVAL: u64 = 60;

/// Seconds between two fetches of the notifications.
pub const NOTIFICATIONS_INTERVAL: u64 = 120;

/// Seconds between two fetches of the pull requests.
pub const PULLS_INTERVAL: u64 = 180;

/// Milliseconds between two turns of the refresh ticker.
pub const REFRESH_INTERVAL_MS: u64 = 200;

/// Milliseconds the input task sleeps between two polls of the device.
pub const INPUT_POLL_MS: u64 = 10;

/// Why a feed could not be read.
#[derive(Clone, Copy, Debug, PartialEq, Eq, Structural)]
pub enum FeedError {
    /// The request failed before a response was read.
    Transport,
    /// The response is not a JSON document.
    NotJson,
}

impl AppState {
    /// Publishes the outcome of a calendar fetch: the choice replaces the
    /// one shown, also when it is "no event"; a failure keeps what is
    /// shown.
    pub fn store_calendar(&mut self, fetched: Result<Option<CalendarEvent>, FeedError>)
        ensures
            *final(self) == (match fetched {
                Ok(pick) => AppState { calendar: pick, ..*old(self) },
                Err(_) => *old(self),
            }),
    {
        match fetched {
            Ok(pick) => {
                self.calendar = pick;
            },
            Err(_) => {},
        }
    }

    /// Publishes the outcome of a notification fetch.
    pub fn store_notifications(&mut self, fetched: Result<Vec<GitHubNotification>, FeedError>)
        ensures
            *final(self) == (match fetched {
                Ok(list) => AppState { notifications: list, ..*old(self) },
                Err(_) => *old(self),
            }),
    {
        match fetched {
            Ok(list) => {
                self.notifications = list;
            },
            Err(_) => {},
        }
    }

    /// Publishes the outcome of a search for open pull requests.
    pub fn store_open_prs(&mut self, fetched: Result<Vec<PullRequest>, FeedError>)
        ensures
            *final(self) == (match fetched {
                Ok(list) => AppState { open_prs: list, ..*old(self) },
                Err(_) => *old(self),
            }),
    {
        match fetched {
            Ok(list) => {
                self.open_prs = list;
            },
            Err(_) => {},
        }
    }

    /// Publishes the outcome of a search for closed pull requests.
    pub fn store_closed_prs(&mut self, fetched: Result<Vec<PullRequest>, FeedError>)
        ensures
            *final(self) == (match fetched {
                Ok(list) => AppState { closed_prs: list, ..*old(self) },
                Err(_) => *old(self),
            }),
    {
        match fetched {
            Ok(list) => {
                self.closed_prs = list;
            },
            Err(_) => {},
        }
    }
}

} // verus!
