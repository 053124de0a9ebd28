//! The shared record of the console: the active page with its sub-state and
//! the data that the feeds last delivered.

use vstd::prelude::*;
use crate::command::{Action, Command};
use crate::home::HomeState;
use crate::keyboard::Key;
use crate::pull_requests::PullRequestsState;
use crate::slider::ListPosition;

verus! {

/// The calendar event chosen for display.
#[derive(Clone, Debug, PartialEq, Eq)]
pub struct CalendarEvent {
    pub title: String,
    /// Display text of the event's time span.
    pub time: String,
    /// Start instant in seconds since the epoch.
    pub start: i64,
    /// Direct-launch URL of the event's conference, where one could be
    /// derived.
    pub zoom_url: Option<String>,
}

/// A [`CalendarEvent`] with its texts as character sequences.
pub struct CalendarEventView {
    pub title: Seq<char>,
    pub time: Seq<char>,
    pub start: i64,
    pub zoom_url: Option<Seq<char>>,
}

impl View for CalendarEvent {
    type V = CalendarEventView;

    open spec fn view(&self) -> CalendarEventView {
        CalendarEventView {
            title: self.title@,
            time: self.time@,
            start: self.start,
            zoom_url: crate::text::optional_text(self.zoom_url),
        }
    }
}

/// One notification of the code-review feed.
#[derive(Clone, Debug, PartialEq, Eq)]
pub struct GitHubNotification {
    pub title: String,
    /// Why the notification was raised.
    pub action: String,
    pub repository: String,
    /// Instant of the last update in seconds since the epoch.
    pub time: i64,
    /// Web address of the notification's subject.
    pub url: String,
}

/// A [`GitHubNotification`] with its texts as character sequences.
pub struct NotificationView {
    pub title: Seq<char>,
    pub action: Seq<char>,
    pub repository: Seq<char>,
    pub time: i64,
    pub url: Seq<char>,
}

impl View for GitHubNotification {
    type V = NotificationView;

    open spec fn view(&self) -> NotificationView {
        NotificationView {
            title: self.title@,
            action: self.action@,
            repository: self.repository@,
            time: self.time,
            url: self.url@,
        }
    }
}

/// One pull request written by the console's user.
#[derive(Clone, Debug, PartialEq, Eq)]
pub struct PullRequest {
    pub title: String,
    pub url: String,
    /// Instant of the last update in seconds since the epoch.
    pub updated_at: i64,
    pub repo_name: String,
}

/// A [`PullRequest`] with its texts as character sequences.
pub struct PullRequestView {
    pub title: Seq<char>,
    pub url: Seq<char>,
    pub updated_at: i64,
    pub repo_name: Seq<char>,
}

impl View for PullRequest {
    type V = PullRequestView;

    open spec fn view(&self) -> PullRequestView {
        PullRequestView {
            title: self.title@,
            url: self.url@,
            updated_at: self.updated_at,
            repo_name: self.repo_name@,
        }
    }
}

/// The active page with the sub-state it owns.
#[derive(Clone, Copy, Debug, PartialEq, Eq)]
pub enum PageState {
    Home(HomeState),
    /// The shortcut grid; `selected` is the group chosen by a first key
    /// press, if one is pending.
    Shortcuts { selected: Option<usize> },
    PullRequests(PullRequestsState),
}

impl PageState {
    /// The Home page in its initial sub-state.
    pub fn home() -> (page: Self)
        ensures
            page == PageState::Home(HomeState { slider: 0, selected: 0, scroll: 0 }),
    {
        Self::Home(HomeState::default())
    }

    /// The Shortcuts page with no group selected.
    pub fn shortcuts() -> (page: Self)
        ensures
            page == (PageState::Shortcuts { selected: None }),
    {
        Self::Shortcuts { selected: None }
    }

    /// The pull-request page in its initial sub-state.
    pub fn pull_requests() -> (page: Self)
        ensures
            page == PageState::PullRequests(PullRequestsState::initial()),
    {
        Self::PullRequests(PullRequestsState::default())
    }
}

/// Everything the console shows: written by the feeds and the key handlers,
/// read by the renderer.
#[derive(Clone, Debug, PartialEq, Eq)]
pub struct AppState {
    pub page: PageState,
    pub clock: String,
    pub calendar: Option<CalendarEvent>,
    pub notifications: Vec<GitHubNotification>,
    pub open_prs: Vec<PullRequest>,
    pub closed_prs: Vec<PullRequest>,
}

impl AppState {
    /// The state at startup: the Home page, empty feeds and the given clock
    /// text.
    pub fn new(clock: String) -> (state: Self)
        ensures
            state.page == PageState::Home(HomeState { slider: 0, selected: 0, scroll: 0 }),
            state.clock == clock,
            state.calendar is None,
            state.notifications@.len() == 0,
            state.open_prs@.len() == 0,
            state.closed_prs@.len() == 0,
    {
        Self {
            page: PageState::home(),
            clock,
            calendar: None,
            notifications: Vec::new(),
            open_prs: Vec::new(),
            closed_prs: Vec::new(),
        }
    }

    /// Whether `key` can be handled on the active page: a slider key on a
    /// page with a list carries a position the control can take and does
    /// not push the scroll offset out of the range of `usize`.
    pub open spec fn accepts(self, key: Key) -> bool {
        match (self.page, key) {
            (PageState::Home(hs), Key::Slider(pos)) => hs.position().can_slide(pos),
            (PageState::PullRequests(s), Key::Slider(pos)) => s.position().can_slide(pos),
            _ => true,
        }
    }

    /// Whether a heartbeat tick can be applied without the scroll offset
    /// leaving the range of `usize`.
    pub open spec fn can_beat(self) -> bool {
        match self.page {
            PageState::Home(hs) => hs.position().can_beat(),
            PageState::Shortcuts { .. } => true,
            PageState::PullRequests(s) => s.position().can_beat(),
        }
    }

    /// The state after `key` was pressed.
    pub open spec fn after_key(self, key: Key) -> AppState {
        match self.page {
            PageState::Home(_) => self.home_after_key(key),
            PageState::Shortcuts { .. } => self.shortcuts_after_key(key),
            PageState::PullRequests(_) => self.pulls_after_key(key),
        }
    }

    /// What pressing `key` asks of the command executor.
    pub open spec fn action_of(self, key: Key) -> crate::command::ActionView {
        match self.page {
            PageState::Home(_) => self.home_action(key),
            PageState::Shortcuts { .. } => self.shortcuts_action(key),
            PageState::PullRequests(_) => self.pulls_action(key),
        }
    }

    /// The state after one heartbeat tick: the active page's list position
    /// advances, everything else stays.
    pub open spec fn after_heartbeat(self) -> AppState {
        match self.page {
            PageState::Home(_) => self.home_after_beat(),
            PageState::Shortcuts { .. } => self,
            PageState::PullRequests(_) => self.pulls_after_beat(),
        }
    }

    /// A key press changes the page and its sub-state, and nothing else.
    pub proof fn lemma_keys_change_only_the_page(self, key: Key)
        ensures
            self.after_key(key) == (AppState { page: self.after_key(key).page, ..self }),
    {
    }

    /// A heartbeat tick changes the page's sub-state, and nothing else; on
    /// every page it leaves the slider level as it is.
    pub proof fn lemma_heartbeat_changes_only_the_page(self)
        ensures
            self.after_heartbeat() == (AppState { page: self.after_heartbeat().page, ..self }),
            self.page is Home ==> self.after_heartbeat().page is Home,
            self.page is Shortcuts ==> self.after_heartbeat().page == self.page,
            self.page is PullRequests ==> self.after_heartbeat().page is PullRequests,
    {
    }

    /// The legends of the four page keys on the active page.
    pub fn commands(&self) -> (cmds: Vec<Command>)
        ensures
            cmds@.len() == 4,
            cmds@ == match self.page {
                PageState::Home(_) => self.home_legends(),
                PageState::Shortcuts { .. } => self.shortcuts_legends(),
                PageState::PullRequests(_) => self.pulls_legends(),
            },
    {
        match self.page {
            PageState::Home(_) => self.commands_home(),
            PageState::Shortcuts { .. } => self.commands_shortcuts(),
            PageState::PullRequests(_) => self.commands_prs(),
        }
    }

    /// Whether `key` can be handled on the active page.
    pub fn accepts_key(&self, key: Key) -> (ok: bool)
        ensures
            ok == self.accepts(key),
    {
        match (self.page, key) {
            (PageState::Home(hs), Key::Slider(pos)) => {
                let p = ListPosition { slider: hs.slider, selected: hs.selected, scroll: hs.scroll };
                p.slides(pos)
            },
            (PageState::PullRequests(s), Key::Slider(pos)) => {
                let p = ListPosition { slider: s.slider, selected: s.selected, scroll: s.scroll };
                p.slides(pos)
            },
            _ => true,
        }
    }

    /// Whether a heartbeat tick can be applied.
    pub fn can_tick(&self) -> (ok: bool)
        ensures
            ok == self.can_beat(),
    {
        match self.page {
            PageState::Home(hs) => {
                let p = ListPosition { slider: hs.slider, selected: hs.selected, scroll: hs.scroll };
                p.beats()
            },
            PageState::Shortcuts { .. } => true,
            PageState::PullRequests(s) => {
                let p = ListPosition { slider: s.slider, selected: s.selected, scroll: s.scroll };
                p.beats()
            },
        }
    }

    /// Delivers one key press to the handler of the active page and returns
    /// what the press asks of the command executor.
    pub fn handle_key(&mut self, key: Key) -> (action: Action)
        requires
            old(self).accepts(key),
        ensures
            *final(self) == old(self).after_key(key),
            action@ == old(self).action_of(key),
    {
        match self.page {
            PageState::Home(_) => self.handle_kbd_home(key),
            PageState::Shortcuts { .. } => self.handle_kbd_shortcuts(key),
            PageState::PullRequests(_) => self.handle_kbd_pull_requests(key),
        }
    }

    /// Applies one heartbeat tick to the active page.
    pub fn heartbeat(&mut self)
        requires
            old(self).can_beat(),
        ensures
            *final(self) == old(self).after_heartbeat(),
    {
        match self.page {
            PageState::Home(_) => self.heartbeat_home(),
            PageState::Shortcuts { .. } => (),
            PageState::PullRequests(_) => self.heartbeat_pulls(),
        }
    }

    /// One turn of the refresh ticker: a heartbeat tick and a new clock
    /// text.
    pub fn tick(&mut self, clock: String)
        requires
            old(self).can_beat(),
        ensures
            *final(self) == (AppState { clock, ..old(self).after_heartbeat() }),
    {
        self.heartbeat();
        self.clock = clock;
    }
}

} // verus!
