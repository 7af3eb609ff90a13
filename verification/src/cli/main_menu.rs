//! The main menu's entries and selection.

use vstd::prelude::*;

verus! {

/// What the selected menu entry means.
#[derive(Debug, Clone, Copy, PartialEq, Eq, Structural)]
pub enum MainMenuAction {
    CreateProject,
    Exit,
}

/// The menu: its entry labels and which entry is selected.
#[derive(Debug, Clone)]
pub struct MainMenu {
    pub items: Vec<String>,
    pub selected: Option<usize>,
}

impl MainMenu {
    /// The two-entry menu with the first entry selected.
    pub fn new() -> (r: MainMenu)
        ensures
            r.items@.len() == 2,
            r.selected == Some(0usize),
    {
        let mut items: Vec<String> = Vec::new();
        items.push("Create New Project".to_owned());
        items.push("Exit".to_owned());
        MainMenu { items, selected: Some(0) }
    }

    /// Move the selection down, wrapping to the top.
    pub fn next(&mut self)
        ensures
            final(self).items == old(self).items,
            final(self).selected == Some(
                (match old(self).selected {
                    Some(i) => if i + 1 >= old(self).items@.len() {
                        0usize
                    } else {
                        (i + 1) as usize
                    },
                    None => 0usize,
                }),
            ),
    {
        let i: usize = match self.selected {
            Some(i) => {
                if self.items.len() == 0 || i >= self.items.len() - 1 {
                    0
                } else {
                    i + 1
                }
            },
            None => 0,
        };
        self.selected = Some(i);
    }

    /// Move the selection up, wrapping to the bottom.
    pub fn previous(&mut self)
        ensures
            final(self).items == old(self).items,
            final(self).selected == Some(
                (match old(self).selected {
                    Some(i) => if i == 0 {
                        (if old(self).items@.len() == 0 {
                            0int
                        } else {
                            old(self).items@.len() - 1
                        }) as usize
                    } else {
                        (i - 1) as usize
                    },
                    None => 0usize,
                }),
            ),
    {
        let i: usize = match self.selected {
            Some(i) => {
                if i == 0 {
                    if self.items.len() == 0 {
                        0
                    } else {
                        self.items.len() - 1
                    }
                } else {
                    i - 1
                }
            },
            None => 0,
        };
        self.selected = Some(i);
    }

    /// What the selection means: the first entry creates a project, the
    /// second exits.
    pub fn get_selected_action(&self) -> (r: Option<MainMenuAction>)
        ensures
            r == (match self.selected {
                Some(0usize) => Some(MainMenuAction::CreateProject),
                Some(1usize) => Some(MainMenuAction::Exit),
                _ => None::<MainMenuAction>,
            }),
    {
        match self.selected {
            Some(0) => Some(MainMenuAction::CreateProject),
            Some(1) => Some(MainMenuAction::Exit),
            _ => None,
        }
    }
}

} // verus!
