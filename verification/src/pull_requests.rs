//! The pull-request page: three sub-pages over the lists of the user's own
//! pull requests.

use vstd::prelude::*;
use crate::command::{Action, ActionView, Command};
use crate::keyboard::Key;
use crate::slider::ListPosition;
use crate::state::{AppState, PageState, PullRequest};

verus! {

/// The sub-pages of the pull-request page.
#[derive(Clone, Copy, Debug, PartialEq, Eq, Structural)]
pub enum Page {
    /// Pull requests that are still open.
    InProgress,
    /// Pull requests that were closed or merged.
    Submitted,
    /// Pull requests waiting for the user's review; no feed fills it.
    Review,
}

/// Sub-state of the pull-request page: the sub-page shown and where its
/// list stands.
#[derive(Clone, Copy, Debug, PartialEq, Eq, Structural)]
pub struct PullRequestsState {
    pub page: Page,
    pub selected: usize,
    pub scroll: usize,
    pub slider: usize,
}

impl PullRequestsState {
    /// The sub-state the page is entered with.
    pub open spec fn initial() -> PullRequestsState {
        PullRequestsState { page: Page::InProgress, selected: 0, scroll: 0, slider: 0 }
    }

    /// The list position held by this sub-state.
    pub open spec fn position(self) -> ListPosition {
        ListPosition { slider: self.slider, selected: self.selected, scroll: self.scroll }
    }

    /// This sub-state with its list position replaced by `p`.
    pub open spec fn moved_to(self, p: ListPosition) -> PullRequestsState {
        PullRequestsState { page: self.page, selected: p.selected, scroll: p.scroll, slider: p.slider }
    }

    /// The sub-state the page is entered with: the open pull requests, first
    /// row, nothing scrolled.
    pub fn default() -> (s: Self)
        ensures
            s == Self::initial(),
    {
        Self { page: Page::InProgress, selected: 0, scroll: 0, slider: 0 }
    }
}

impl AppState {
    /// The list that sub-page `page` shows.
    pub open spec fn pulls(self, page: Page) -> Seq<PullRequest> {
        match page {
            Page::InProgress => self.open_prs@,
            Page::Submitted => self.closed_prs@,
            Page::Review => Seq::empty(),
        }
    }

    /// The state after `key` was pressed on the pull-request page.
    pub open spec fn pulls_after_key(self, key: Key) -> AppState
        recommends
            self.page is PullRequests,
    {
        let s = self.page->PullRequests_0;
        match key {
            Key::LCD1 => AppState {
                page: PageState::PullRequests(PullRequestsState { page: Page::InProgress, ..s }),
                ..self
            },
            Key::LCD2 => AppState {
                page: PageState::PullRequests(PullRequestsState { page: Page::Submitted, ..s }),
                ..self
            },
            Key::LCD3 => AppState {
                page: PageState::PullRequests(PullRequestsState { page: Page::Review, ..s }),
                ..self
            },
            Key::Abort => AppState {
                page: PageState::Home(crate::home::HomeState { slider: 0, selected: 0, scroll: 0 }),
                ..self
            },
            Key::Slider(pos) => AppState {
                page: PageState::PullRequests(
                    s.moved_to(
                        crate::slider::after_slide(
                            s.position(),
                            pos,
                            self.pulls(s.page).len() as usize,
                        ),
                    ),
                ),
                ..self
            },
            _ => self,
        }
    }

    /// What pressing `key` on the pull-request page asks of the command
    /// executor: Execute opens the pull request under the selection, if
    /// there is one.
    pub open spec fn pulls_action(self, key: Key) -> ActionView
        recommends
            self.page is PullRequests,
    {
        let s = self.page->PullRequests_0;
        let list = self.pulls(s.page);
        let target = s.position().target();
        if key == Key::Execute && target < list.len() {
            ActionView::OpenUrl(list[target].url@)
        } else {
            ActionView::Nothing
        }
    }

    /// The state after one heartbeat tick on the pull-request page.
    pub open spec fn pulls_after_beat(self) -> AppState
        recommends
            self.page is PullRequests,
    {
        let s = self.page->PullRequests_0;
        AppState {
            page: PageState::PullRequests(s.moved_to(crate::slider::after_beat(s.position()))),
            ..self
        }
    }

    /// The key legends of the pull-request page.
    pub open spec fn pulls_legends(self) -> Seq<Command>
        recommends
            self.page is PullRequests,
    {
        let page = self.page->PullRequests_0.page;
        seq![
            Command { name: "IPR", selected: page == Page::InProgress },
            Command { name: "SUB", selected: page == Page::Submitted },
            Command { name: "REV", selected: page == Page::Review },
            Command { name: "   ", selected: false },
        ]
    }

    fn pulls_state(&self) -> (s: PullRequestsState)
        requires
            self.page is PullRequests,
        ensures
            s == self.page->PullRequests_0,
    {
        match self.page {
            PageState::PullRequests(s) => s,
            _ => PullRequestsState::default(),
        }
    }

    /// Handles a key press on the pull-request page.
    ///
    /// The first three page keys choose the sub-page and leave the list
    /// position as it is, Abort returns to a fresh Home page, Execute opens
    /// the selected pull request and the slider moves through the list of
    /// the current sub-page. Every other key is ignored.
    pub fn handle_kbd_pull_requests(&mut self, key: Key) -> (action: Action)
        requires
            old(self).page is PullRequests,
            old(self).accepts(key),
        ensures
            *final(self) == old(self).pulls_after_key(key),
            action@ == old(self).pulls_action(key),
    {
        let num_pulls = self.get_pulls().len();
        let s = self.pulls_state();
        match key {
            Key::LCD1 => {
                self.page = PageState::PullRequests(PullRequestsState { page: Page::InProgress, ..s });
                Action::Nothing
            },
            Key::LCD2 => {
                self.page = PageState::PullRequests(PullRequestsState { page: Page::Submitted, ..s });
                Action::Nothing
            },
            Key::LCD3 => {
                self.page = PageState::PullRequests(PullRequestsState { page: Page::Review, ..s });
                Action::Nothing
            },
            Key::Abort => {
                self.page = PageState::home();
                Action::Nothing
            },
            Key::Execute => {
                let pulls = self.get_pulls();
                match s.selected.checked_add(s.scroll) {
                    Some(target) => {
                        if target < pulls.len() {
                            Action::open(pulls[target].url.as_str())
                        } else {
                            Action::Nothing
                        }
                    },
                    None => Action::Nothing,
                }
            },
            Key::Slider(pos) => {
                let p = ListPosition { slider: s.slider, selected: s.selected, scroll: s.scroll };
                let p = p.slide(pos, num_pulls);
                self.page = PageState::PullRequests(
                    PullRequestsState {
                        page: s.page,
                        selected: p.selected,
                        scroll: p.scroll,
                        slider: p.slider,
                    },
                );
                Action::Nothing
            },
            _ => Action::Nothing,
        }
    }

    /// Applies one heartbeat tick to the pull-request page.
    pub fn heartbeat_pulls(&mut self)
        requires
            old(self).page is PullRequests,
            old(self).can_beat(),
        ensures
            *final(self) == old(self).pulls_after_beat(),
    {
        let s = self.pulls_state();
        let p = ListPosition { slider: s.slider, selected: s.selected, scroll: s.scroll };
        let p = p.beat();
        self.page = PageState::PullRequests(
            PullRequestsState { page: s.page, selected: p.selected, scroll: p.scroll, slider: p.slider },
        );
    }

    /// The list of the current sub-page: the open pull requests, the closed
    /// ones, or nothing for the review sub-page.
    pub fn get_pulls(&self) -> (list: &[PullRequest])
        requires
            self.page is PullRequests,
        ensures
            list@ == self.pulls(self.page->PullRequests_0.page),
    {
        let s = self.pulls_state();
        match s.page {
            Page::InProgress => self.open_prs.as_slice(),
            Page::Submitted => self.closed_prs.as_slice(),
            Page::Review => vstd::slice::slice_subrange(self.open_prs.as_slice(), 0, 0),
        }
    }

    /// The legends of the four page keys on the pull-request page; the one
    /// of the current sub-page is highlighted.
    pub fn commands_prs(&self) -> (cmds: Vec<Command>)
        requires
            self.page is PullRequests,
        ensures
            cmds@ == self.pulls_legends(),
    {
        let s = self.pulls_state();
        let mut commands: Vec<Command> = Vec::new();
        commands.push(Command { name: "IPR", selected: s.page == Page::InProgress });
        commands.push(Command { name: "SUB", selected: s.page == Page::Submitted });
        commands.push(Command { name: "REV", selected: s.page == Page::Review });
        commands.push(Command::empty());
        assert(commands@ =~= self.pulls_legends());
        commands
    }
}

} // verus!
