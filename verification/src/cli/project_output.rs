//! The screen shown after a project was created.

use vstd::prelude::*;
use crate::cli::form_buttons::{
    next_index_spec, previous_index_spec, Button, ButtonAction, FormButtons,
};
use crate::project::Project;

verus! {

/// The created project, with Create Another / Main Menu / Exit buttons.
pub struct ProjectOutput {
    pub project: Project,
    pub buttons: FormButtons,
}

impl ProjectOutput {
    /// An output screen for the given project, focused on Create
    /// Another.
    pub fn new(project: Project) -> (r: ProjectOutput)
        ensures
            r.project == project,
            r.buttons.buttons@.len() == 3,
            r.buttons.focused_index == 0,
            r.buttons.buttons@[0].action == ButtonAction::Next,
            r.buttons.buttons@[0].label@ == "Create Another"@,
            r.buttons.buttons@[1].action == ButtonAction::Back,
            r.buttons.buttons@[1].label@ == "Main Menu"@,
            r.buttons.buttons@[2].action == ButtonAction::Cancel,
            r.buttons.buttons@[2].label@ == "Exit"@,
    {
        let buttons = FormButtons::new().add_button(
            Button::new("Create Another", ButtonAction::Next),
        ).add_button(Button::new("Main Menu", ButtonAction::Back)).add_button(
            Button::new("Exit", ButtonAction::Cancel),
        );
        ProjectOutput { project, buttons }
    }

    /// Move the button focus forward, wrapping around.
    pub fn next_button(&mut self)
        ensures
            *final(self) == (ProjectOutput { buttons: final(self).buttons, ..*old(self) }),
            final(self).buttons.buttons == old(self).buttons.buttons,
            final(self).buttons.focused_index == next_index_spec(
                old(self).buttons.focused_index as int,
                old(self).buttons.buttons@.len() as int,
            ),
    {
        self.buttons.next_button();
    }

    /// Move the button focus backward, wrapping around.
    pub fn previous_button(&mut self)
        ensures
            *final(self) == (ProjectOutput { buttons: final(self).buttons, ..*old(self) }),
            final(self).buttons.buttons == old(self).buttons.buttons,
            final(self).buttons.focused_index == previous_index_spec(
                old(self).buttons.focused_index as int,
                old(self).buttons.buttons@.len() as int,
            ),
    {
        self.buttons.previous_button();
    }

    /// The focused button's action.
    pub fn get_selected_action(&self) -> (r: Option<ButtonAction>)
        ensures
            r == (if self.buttons.focused_index < self.buttons.buttons@.len() {
                Some(self.buttons.buttons@[self.buttons.focused_index as int].action)
            } else {
                None::<ButtonAction>
            }),
    {
        self.buttons.get_focused_action()
    }
}

} // verus!
