//! The Home page: the chosen calendar event above the list of
//! notifications.

use vstd::prelude::*;
use crate::command::{Action, ActionView, Command};
use crate::keyboard::Key;
use crate::slider::ListPosition;
use crate::state::{AppState, CalendarEvent, PageState};

verus! {

/// Sub-state of the Home page: where the notification list stands.
#[derive(Clone, Copy, Debug, PartialEq, Eq, Structural)]
pub struct HomeState {
    pub slider: usize,
    pub selected: usize,
    pub scroll: usize,
}

impl Default for HomeState {
    fn default() -> (hs: Self)
        ensures
            hs == (HomeState { slider: 0, selected: 0, scroll: 0 }),
    {
        HomeState { slider: 0, selected: 0, scroll: 0 }
    }
}

impl HomeState {
    /// The list position held by this sub-state.
    pub open spec fn position(self) -> ListPosition {
        ListPosition { slider: self.slider, selected: self.selected, scroll: self.scroll }
    }

    /// The sub-state that holds the list position `p`.
    pub open spec fn at(p: ListPosition) -> HomeState {
        HomeState { slider: p.slider, selected: p.selected, scroll: p.scroll }
    }
}

/// The program that joining a meeting launches with the quick-join URL.
pub const JOIN_PROGRAM: &'static str = "xdg-open";

impl AppState {
    /// The quick-join URL of the chosen calendar event, if it has one.
    pub open spec fn join_url(self) -> Option<Seq<char>> {
        match self.calendar {
            Some(CalendarEvent { zoom_url: Some(url), .. }) => Some(url@),
            _ => None,
        }
    }

    /// The request that joins the chosen event's conference, or nothing
    /// when there is no quick-join URL.
    pub open spec fn join_action(self) -> ActionView {
        match self.join_url() {
            Some(url) => ActionView::Run(seq![JOIN_PROGRAM@, url]),
            None => ActionView::Nothing,
        }
    }

    /// The state after `key` was pressed on the Home page.
    pub open spec fn home_after_key(self, key: Key) -> AppState
        recommends
            self.page is Home,
    {
        let hs = self.page->Home_0;
        match key {
            Key::LCD2 => AppState {
                page: PageState::PullRequests(crate::pull_requests::PullRequestsState::initial()),
                ..self
            },
            Key::LCD4 => AppState { page: PageState::Shortcuts { selected: None }, ..self },
            Key::Slider(pos) => AppState {
                page: PageState::Home(
                    HomeState::at(
                        crate::slider::after_slide(hs.position(), pos, self.notifications.len()),
                    ),
                ),
                ..self
            },
            _ => self,
        }
    }

    /// What pressing `key` on the Home page asks of the command executor:
    /// the first page key and Execute join the chosen event's conference.
    pub open spec fn home_action(self, key: Key) -> ActionView {
        match key {
            Key::LCD1 | Key::Execute => self.join_action(),
            _ => ActionView::Nothing,
        }
    }

    /// The state after one heartbeat tick on the Home page.
    pub open spec fn home_after_beat(self) -> AppState
        recommends
            self.page is Home,
    {
        AppState {
            page: PageState::Home(
                HomeState::at(crate::slider::after_beat(self.page->Home_0.position())),
            ),
            ..self
        }
    }

    /// The key legends of the Home page.
    pub open spec fn home_legends(self) -> Seq<Command> {
        seq![
            if self.join_url() is Some {
                Command { name: "JOIN", selected: true }
            } else {
                Command { name: "   ", selected: false }
            },
            Command { name: "PRS", selected: false },
            Command { name: "CAL", selected: false },
            Command { name: "SHCT", selected: false },
        ]
    }

    fn join(&self) -> (action: Action)
        ensures
            action@ == self.join_action(),
    {
        match &self.calendar {
            Some(CalendarEvent { zoom_url: Some(zoom_url), .. }) => Action::run_with(
                JOIN_PROGRAM,
                zoom_url.as_str(),
            ),
            _ => Action::Nothing,
        }
    }

    /// Handles a key press on the Home page.
    ///
    /// The first page key and Execute join the conference of the chosen
    /// calendar event, the second page key opens the pull-request page, the
    /// fourth the shortcut grid, and the slider moves through the
    /// notifications. Every other key is ignored.
    pub fn handle_kbd_home(&mut self, key: Key) -> (action: Action)
        requires
            old(self).page is Home,
            old(self).accepts(key),
        ensures
            *final(self) == old(self).home_after_key(key),
            action@ == old(self).home_action(key),
    {
        let hs = match self.page {
            PageState::Home(hs) => hs,
            _ => HomeState::default(),
        };
        match key {
            Key::LCD1 | Key::Execute => self.join(),
            Key::LCD2 => {
                self.page = PageState::pull_requests();
                Action::Nothing
            },
            Key::LCD4 => {
                self.page = PageState::shortcuts();
                Action::Nothing
            },
            Key::Slider(pos) => {
                let p = ListPosition { slider: hs.slider, selected: hs.selected, scroll: hs.scroll };
                let p = p.slide(pos, self.notifications.len());
                self.page = PageState::Home(
                    HomeState { slider: p.slider, selected: p.selected, scroll: p.scroll },
                );
                Action::Nothing
            },
            _ => Action::Nothing,
        }
    }

    /// The legends of the four page keys on the Home page; the first is
    /// highlighted while the chosen event can be joined and blank
    /// otherwise.
    pub fn commands_home(&self) -> (cmds: Vec<Command>)
        ensures
            cmds@ == self.home_legends(),
    {
        let joinable = match &self.calendar {
            Some(CalendarEvent { zoom_url: Some(_), .. }) => true,
            _ => false,
        };
        let mut commands: Vec<Command> = Vec::new();
        if joinable {
            commands.push(Command::selected("JOIN"));
        } else {
            commands.push(Command::empty());
        }
        commands.push(Command::new("PRS"));
        commands.push(Command::new("CAL"));
        commands.push(Command::new("SHCT"));
        assert(commands@ =~= self.home_legends());
        commands
    }

    /// Applies one heartbeat tick to the Home page.
    pub fn heartbeat_home(&mut self)
        requires
            old(self).page is Home,
            old(self).can_beat(),
        ensures
            *final(self) == old(self).home_after_beat(),
    {
        let hs = match self.page {
            PageState::Home(hs) => hs,
            _ => HomeState::default(),
        };
        let p = ListPosition { slider: hs.slider, selected: hs.selected, scroll: hs.scroll };
        let p = p.beat();
        self.page = PageState::Home(
            HomeState { slider: p.slider, selected: p.selected, scroll: p.scroll },
        );
    }
}

} // verus!
