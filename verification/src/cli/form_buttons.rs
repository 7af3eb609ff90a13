//! A row of form buttons and which of them holds the focus.

use vstd::prelude::*;

verus! {

/// What pressing a button means.
#[derive(Debug, Clone, Copy, PartialEq, Eq, Structural)]
pub enum ButtonAction {
    Submit,
    Cancel,
    Back,
    Next,
}

/// A labelled button.
#[derive(Debug, Clone)]
pub struct Button {
    pub label: String,
    pub action: ButtonAction,
    pub is_focused: bool,
}

impl Button {
    pub fn new(label: &str, action: ButtonAction) -> (r: Button)
        ensures
            r.label@ == label@,
            r.action == action,
            r.is_focused == false,
    {
        Button { label: label.to_owned(), action, is_focused: false }
    }

    pub fn focused(self, focused: bool) -> (r: Button)
        ensures
            r == (Button { is_focused: focused, ..self }),
    {
        Button { is_focused: focused, ..self }
    }
}

/// The next focus position, cycling forward over `len` buttons.
pub open spec fn next_index_spec(i: int, len: int) -> int {
    if len == 0 {
        i
    } else if i + 1 >= len {
        0
    } else {
        i + 1
    }
}

/// The previous focus position, cycling backward over `len` buttons.
pub open spec fn previous_index_spec(i: int, len: int) -> int {
    if len == 0 {
        i
    } else if i == 0 {
        len - 1
    } else {
        i - 1
    }
}

/// A row of buttons with one focus position.
#[derive(Debug, Clone)]
pub struct FormButtons {
    pub buttons: Vec<Button>,
    pub focused_index: usize,
}

impl FormButtons {
    /// An empty row.
    pub fn new() -> (r: FormButtons)
        ensures
            r.buttons@.len() == 0,
            r.focused_index == 0,
    {
        FormButtons { buttons: Vec::new(), focused_index: 0 }
    }

    /// A row holding the given buttons, focused on the first.
    pub fn with_buttons(buttons: Vec<Button>) -> (r: FormButtons)
        ensures
            r.buttons == buttons,
            r.focused_index == 0,
    {
        FormButtons { buttons, focused_index: 0 }
    }

    /// Append a button.
    pub fn add_button(self, button: Button) -> (r: FormButtons)
        ensures
            r.buttons@ == self.buttons@.push(button),
            r.focused_index == self.focused_index,
    {
        let mut s = self;
        s.buttons.push(button);
        s
    }

    /// Move the focus to the given position; out of range, nothing
    /// changes.
    pub fn focused_index(self, index: usize) -> (r: FormButtons)
        ensures
            r.buttons == self.buttons,
            r.focused_index == (if index < self.buttons@.len() {
                index
            } else {
                self.focused_index
            }),
    {
        let mut s = self;
        if index < s.buttons.len() {
            s.focused_index = index;
        }
        s
    }

    /// The action of the focused button, if the focus is in range.
    pub fn get_focused_action(&self) -> (r: Option<ButtonAction>)
        ensures
            r == (if self.focused_index < self.buttons@.len() {
                Some(self.buttons@[self.focused_index as int].action)
            } else {
                None::<ButtonAction>
            }),
    {
        if self.focused_index < self.buttons.len() {
            Some(self.buttons[self.focused_index].action)
        } else {
            None
        }
    }

    /// Move the focus forward, wrapping around.
    pub fn next_button(&mut self)
        ensures
            final(self).buttons == old(self).buttons,
            final(self).focused_index == next_index_spec(
                old(self).focused_index as int,
                old(self).buttons@.len() as int,
            ),
    {
        if self.buttons.len() > 0 {
            if self.focused_index >= self.buttons.len() - 1 {
                self.focused_index = 0;
            } else {
                self.focused_index = self.focused_index + 1;
            }
        }
    }

    /// Move the focus backward, wrapping around.
    pub fn previous_button(&mut self)
        ensures
            final(self).buttons == old(self).buttons,
            final(self).focused_index == previous_index_spec(
                old(self).focused_index as int,
                old(self).buttons@.len() as int,
            ),
    {
        if self.buttons.len() > 0 {
            if self.focused_index == 0 {
                self.focused_index = self.buttons.len() - 1;
            } else {
                self.focused_index = self.focused_index - 1;
            }
        }
    }
}

} // verus!
