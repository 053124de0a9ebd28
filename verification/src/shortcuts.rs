//! The Shortcuts page: a small grid of named programs, reached with two key
//! presses, the first for the group and the second for the slot in it.

use vstd::prelude::*;
use crate::command::{Action, ActionView, Command};
use crate::keyboard::Key;
use crate::state::{AppState, PageState};

verus! {

/// Number of groups in the grid.
pub const GROUPS: usize = 2;

/// Number of slots in each group, one for each of the first three page keys.
pub const SLOTS: usize = 3;

/// The slot that a page key stands for on this page, if it has one.
pub open spec fn slot_of(key: Key) -> Option<usize> {
    match key {
        Key::LCD1 => Some(0usize),
        Key::LCD2 => Some(1usize),
        Key::LCD3 => Some(2usize),
        _ => None,
    }
}

/// The program at `slot` of `group`, if the grid has such a place.
pub open spec fn shortcut_at(group: usize, slot: usize) -> Option<&'static str> {
    if group == 0 && slot == 0 {
        Some("guvcview")
    } else if group == 0 && slot == 1 {
        Some("zoom")
    } else if group == 0 && slot == 2 {
        Some("screenshot")
    } else if group == 1 && slot == 0 {
        Some("slack")
    } else if group == 1 && slot == 1 {
        Some("something")
    } else if group == 1 && slot == 2 {
        Some("shutdown")
    } else {
        None
    }
}

/// Looks up the program at `slot` of `group`.
pub fn shortcut(group: usize, slot: usize) -> (name: Option<&'static str>)
    ensures
        name == shortcut_at(group, slot),
        name is Some <==> group < GROUPS && slot < SLOTS,
{
    match (group, slot) {
        (0, 0) => Some("guvcview"),
        (0, 1) => Some("zoom"),
        (0, 2) => Some("screenshot"),
        (1, 0) => Some("slack"),
        (1, 1) => Some("something"),
        (1, 2) => Some("shutdown"),
        _ => None,
    }
}

impl AppState {
    /// The state after `key` was pressed on the Shortcuts page.
    pub open spec fn shortcuts_after_key(self, key: Key) -> AppState
        recommends
            self.page is Shortcuts,
    {
        let selected = self.page->Shortcuts_selected;
        let home = PageState::Home(crate::home::HomeState { slider: 0, selected: 0, scroll: 0 });
        match key {
            Key::LCD1 | Key::LCD2 | Key::LCD3 => AppState {
                page: PageState::Shortcuts {
                    selected: if selected is Some {
                        None
                    } else {
                        slot_of(key)
                    },
                },
                ..self
            },
            Key::Abort => AppState {
                page: if selected is Some {
                    PageState::Shortcuts { selected: None }
                } else {
                    home
                },
                ..self
            },
            Key::LCD4 => AppState { page: home, ..self },
            _ => self,
        }
    }

    /// What pressing `key` on the Shortcuts page asks of the command
    /// executor: with a group selected, a page key that has a slot launches
    /// the program at that place of the grid.
    pub open spec fn shortcuts_action(self, key: Key) -> ActionView
        recommends
            self.page is Shortcuts,
    {
        match (self.page->Shortcuts_selected, slot_of(key)) {
            (Some(group), Some(slot)) => match shortcut_at(group, slot) {
                Some(name) => ActionView::Run(seq![name@]),
                None => ActionView::Nothing,
            },
            _ => ActionView::Nothing,
        }
    }

    /// The key legends of the Shortcuts page: the page draws the grid
    /// itself, so the keys carry no legend.
    pub open spec fn shortcuts_legends(self) -> Seq<Command> {
        Seq::new(4, |i: int| Command { name: "   ", selected: false })
    }

    fn press_slot(&mut self, selected: Option<usize>, slot: usize) -> (action: Action)
        requires
            old(self).page == (PageState::Shortcuts { selected }),
            slot < SLOTS,
        ensures
            *final(self) == (AppState {
                page: PageState::Shortcuts {
                    selected: if selected is Some {
                        None
                    } else {
                        Some(slot)
                    },
                },
                ..*old(self)
            }),
            action@ == (match selected {
                Some(group) => match shortcut_at(group, slot) {
                    Some(name) => ActionView::Run(seq![name@]),
                    None => ActionView::Nothing,
                },
                None => ActionView::Nothing,
            }),
    {
        match selected {
            Some(group) => {
                self.page = PageState::Shortcuts { selected: None };
                match shortcut(group, slot) {
                    Some(name) => Action::run_alone(name),
                    None => Action::Nothing,
                }
            },
            None => {
                self.page = PageState::Shortcuts { selected: Some(slot) };
                Action::Nothing
            },
        }
    }

    /// Handles a key press on the Shortcuts page.
    ///
    /// The first press of one of the three slot keys selects the group of
    /// that number. The second press launches the program at the pressed
    /// key's slot of the selected group, if the grid has one there, and
    /// clears the selection. Abort clears a pending selection, and with none
    /// pending returns to a fresh Home page, as the fourth page key always
    /// does. Every other key is ignored.
    pub fn handle_kbd_shortcuts(&mut self, key: Key) -> (action: Action)
        requires
            old(self).page is Shortcuts,
        ensures
            *final(self) == old(self).shortcuts_after_key(key),
            action@ == old(self).shortcuts_action(key),
    {
        let selected = match self.page {
            PageState::Shortcuts { selected } => selected,
            _ => None,
        };
        match key {
            Key::LCD1 => self.press_slot(selected, 0),
            Key::LCD2 => self.press_slot(selected, 1),
            Key::LCD3 => self.press_slot(selected, 2),
            Key::Abort => {
                if selected.is_some() {
                    self.page = PageState::Shortcuts { selected: None };
                } else {
                    self.page = PageState::home();
                }
                Action::Nothing
            },
            Key::LCD4 => {
                self.page = PageState::home();
                Action::Nothing
            },
            _ => Action::Nothing,
        }
    }

    /// The legends of the four page keys on the Shortcuts page: all blank.
    pub fn commands_shortcuts(&self) -> (cmds: Vec<Command>)
        ensures
            cmds@ == self.shortcuts_legends(),
    {
        let mut commands: Vec<Command> = Vec::new();
        commands.push(Command::empty());
        commands.push(Command::empty());
        commands.push(Command::empty());
        commands.push(Command::empty());
        assert(commands@ =~= self.shortcuts_legends());
        commands
    }
}

} // verus!
