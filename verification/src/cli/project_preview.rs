//! The confirmation screen shown before a project is created.

use vstd::prelude::*;
use crate::cli::form_buttons::{
    next_index_spec, previous_index_spec, Button, ButtonAction, FormButtons,
};
use crate::cli::form_state::ProjectFormState;

verus! {

/// The form contents under review, with Confirm / Back to Edit / Cancel
/// buttons.
#[derive(Debug, Clone)]
pub struct ProjectPreview {
    pub form_state: ProjectFormState,
    pub buttons: FormButtons,
}

impl ProjectPreview {
    /// A preview of the given form, focused on Confirm.
    pub fn new(form_state: ProjectFormState) -> (r: ProjectPreview)
        ensures
            r.form_state == form_state,
            r.buttons.buttons@.len() == 3,
            r.buttons.focused_index == 0,
            r.buttons.buttons@[0].action == ButtonAction::Submit,
            r.buttons.buttons@[0].label@ == "Confirm"@,
            r.buttons.buttons@[1].action == ButtonAction::Back,
            r.buttons.buttons@[1].label@ == "Back to Edit"@,
            r.buttons.buttons@[2].action == ButtonAction::Cancel,
            r.buttons.buttons@[2].label@ == "Cancel"@,
    {
        let buttons = FormButtons::new().add_button(
            Button::new("Confirm", ButtonAction::Submit),
        ).add_button(Button::new("Back to Edit", ButtonAction::Back)).add_button(
            Button::new("Cancel", ButtonAction::Cancel),
        );
        ProjectPreview { form_state, buttons }
    }

    /// Move the button focus forward, wrapping around.
    pub fn next_button(&mut self)
        ensures
            *final(self) == (ProjectPreview { buttons: final(self).buttons, ..*old(self) }),
            final(self).buttons.buttons == old(self).buttons.buttons,
            final(self).buttons.focused_index == next_index_spec(
                old(self).buttons.focused_index as int,
                old(self).buttons.buttons@.len() as int,
            ),
    {
        self.buttons.next_button();
    }

    /// Move the button focus backward, wrapping around.
    pub fn previous_button(&mut self)
        ensures
            *final(self) == (ProjectPreview { buttons: final(self).buttons, ..*old(self) }),
            final(self).buttons.buttons == old(self).buttons.buttons,
            final(self).buttons.focused_index == previous_index_spec(
                old(self).buttons.focused_index as int,
                old(self).buttons.buttons@.len() as int,
            ),
    {
        self.buttons.previous_button();
    }

    /// The focused button's action.
    pub fn get_selected_action(&self) -> (r: Option<ButtonAction>)
        ensures
            r == (if self.buttons.focused_index < self.buttons.buttons@.len() {
                Some(self.buttons.buttons@[self.buttons.focused_index as int].action)
            } else {
                None::<ButtonAction>
            }),
    {
        self.buttons.get_focused_action()
    }
}

} // verus!
