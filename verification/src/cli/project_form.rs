//! The project creation screen: a form plus its submit/cancel buttons,
//! and the typing rules for each field.

use vstd::prelude::*;
use crate::cli::form_buttons::{Button, ButtonAction, FormButtons};
use crate::cli::form_state::{
    next_field_spec, previous_field_spec, seq_contains_str, spec_form_msgs, spec_form_valid,
    vec_contains_string, FormField, ProjectFormState,
};
use crate::strings::{
    byte_len, char_is_typable, is_blank, is_typable, pop_char, push_char, spec_trim, str_byte_len,
    str_is_blank, trim_str,
};

verus! {

/// The project creation screen's state.
#[derive(Debug, Clone)]
pub struct ProjectForm {
    pub form_state: ProjectFormState,
    pub buttons: FormButtons,
    pub current_tag_input: String,
}

/// What typing `c` does to a single-line value with the given byte
/// budget: a typable character is appended while the budget is not yet
/// reached.
pub open spec fn typed_line(value: Seq<char>, c: char, budget: nat) -> Seq<char> {
    if is_typable(c) && byte_len(value) < budget {
        value.push(c)
    } else {
        value
    }
}

/// What typing `c` does to the multiline description: as `typed_line`,
/// with a line feed also accepted.
pub open spec fn typed_description(value: Seq<char>, c: char) -> Seq<char> {
    if (is_typable(c) || c == '\n') && byte_len(value) < 500 {
        value.push(c)
    } else {
        value
    }
}

impl ProjectForm {
    /// A fresh form with its two buttons, Create Project and Cancel.
    pub fn new() -> (r: ProjectForm)
        ensures
            r.form_state.name@ == Seq::<char>::empty(),
            r.form_state.description@ == Seq::<char>::empty(),
            r.form_state.tags@.len() == 0,
            r.form_state.current_field == FormField::Name,
            r.form_state.validation_errors@.len() == 0,
            r.current_tag_input@ == Seq::<char>::empty(),
            r.buttons.buttons@.len() == 2,
            r.buttons.focused_index == 0,
            r.buttons.buttons@[0].action == ButtonAction::Submit,
            r.buttons.buttons@[0].label@ == "Create Project"@,
            r.buttons.buttons@[1].action == ButtonAction::Cancel,
            r.buttons.buttons@[1].label@ == "Cancel"@,
    {
        let buttons = FormButtons::new().add_button(
            Button::new("Create Project", ButtonAction::Submit),
        ).add_button(Button::new("Cancel", ButtonAction::Cancel));
        ProjectForm {
            form_state: ProjectFormState::new(),
            buttons,
            current_tag_input: String::new(),
        }
    }

    /// Replace the form contents, keeping the buttons.
    pub fn with_form_state(self, form_state: ProjectFormState) -> (r: ProjectForm)
        ensures
            r == (ProjectForm { form_state, ..self }),
    {
        ProjectForm { form_state, ..self }
    }

    pub fn get_form_state(&self) -> (r: &ProjectFormState)
        ensures
            *r == self.form_state,
    {
        &self.form_state
    }

    pub fn get_form_state_mut(&mut self) -> (r: &mut ProjectFormState)
        ensures
            *r == old(self).form_state,
            *final(self) == (ProjectForm { form_state: *final(r), ..*old(self) }),
    {
        &mut self.form_state
    }

    /// Type one character into the focused field. The name and the tag
    /// input take printable characters and spaces up to their budgets
    /// (100 and 50 bytes); the description also takes line feeds, up to
    /// 500 bytes; the submit row takes nothing.
    pub fn handle_char_input(&mut self, c: char)
        ensures
            match old(self).form_state.current_field {
                FormField::Name => {
                    &&& *final(self) == (ProjectForm {
                        form_state: final(self).form_state,
                        ..*old(self)
                    })
                    &&& final(self).form_state == (ProjectFormState {
                        name: final(self).form_state.name,
                        ..old(self).form_state
                    })
                    &&& final(self).form_state.name@ == typed_line(
                        old(self).form_state.name@,
                        c,
                        100,
                    )
                },
                FormField::Description => {
                    &&& *final(self) == (ProjectForm {
                        form_state: final(self).form_state,
                        ..*old(self)
                    })
                    &&& final(self).form_state == (ProjectFormState {
                        description: final(self).form_state.description,
                        ..old(self).form_state
                    })
                    &&& final(self).form_state.description@ == typed_description(
                        old(self).form_state.description@,
                        c,
                    )
                },
                FormField::Tags => {
                    &&& *final(self) == (ProjectForm {
                        current_tag_input: final(self).current_tag_input,
                        ..*old(self)
                    })
                    &&& final(self).current_tag_input@ == typed_line(
                        old(self).current_tag_input@,
                        c,
                        50,
                    )
                },
                FormField::Submit => *final(self) == *old(self),
            },
    {
        match self.form_state.current_field {
            FormField::Name => {
                if char_is_typable(c) {
                    if str_byte_len(self.form_state.name.as_str()) < 100 {
                        push_char(&mut self.form_state.name, c);
                    }
                }
            },
            FormField::Description => {
                if char_is_typable(c) || c == '\n' {
                    if str_byte_len(self.form_state.description.as_str()) < 500 {
                        push_char(&mut self.form_state.description, c);
                    }
                }
            },
            FormField::Tags => {
                if char_is_typable(c) {
                    if str_byte_len(self.current_tag_input.as_str()) < 50 {
                        push_char(&mut self.current_tag_input, c);
                    }
                }
            },
            FormField::Submit => {},
        }
    }

    /// Delete the last character of the focused field, if any.
    pub fn handle_backspace(&mut self)
        ensures
            match old(self).form_state.current_field {
                FormField::Name => {
                    &&& *final(self) == (ProjectForm {
                        form_state: final(self).form_state,
                        ..*old(self)
                    })
                    &&& final(self).form_state == (ProjectFormState {
                        name: final(self).form_state.name,
                        ..old(self).form_state
                    })
                    &&& final(self).form_state.name@ == (if old(self).form_state.name@.len() > 0 {
                        old(self).form_state.name@.drop_last()
                    } else {
                        old(self).form_state.name@
                    })
                },
                FormField::Description => {
                    &&& *final(self) == (ProjectForm {
                        form_state: final(self).form_state,
                        ..*old(self)
                    })
                    &&& final(self).form_state == (ProjectFormState {
                        description: final(self).form_state.description,
                        ..old(self).form_state
                    })
                    &&& final(self).form_state.description@ == (if old(self).form_state.description@.len() > 0 {
                        old(self).form_state.description@.drop_last()
                    } else {
                        old(self).form_state.description@
                    })
                },
                FormField::Tags => {
                    &&& *final(self) == (ProjectForm {
                        current_tag_input: final(self).current_tag_input,
                        ..*old(self)
                    })
                    &&& final(self).current_tag_input@ == (if old(self).current_tag_input@.len() > 0 {
                        old(self).current_tag_input@.drop_last()
                    } else {
                        old(self).current_tag_input@
                    })
                },
                FormField::Submit => *final(self) == *old(self),
            },
    {
        match self.form_state.current_field {
            FormField::Name => {
                pop_char(&mut self.form_state.name);
            },
            FormField::Description => {
                pop_char(&mut self.form_state.description);
            },
            FormField::Tags => {
                pop_char(&mut self.current_tag_input);
            },
            FormField::Submit => {},
        }
    }

    /// Enter in the description inserts a line feed (within budget); in
    /// the tag field it commits the trimmed pending tag when it is new
    /// and non-blank; elsewhere it moves the focus forward.
    pub fn handle_enter(&mut self)
        ensures
            match old(self).form_state.current_field {
                FormField::Description => {
                    &&& *final(self) == (ProjectForm {
                        form_state: final(self).form_state,
                        ..*old(self)
                    })
                    &&& final(self).form_state == (ProjectFormState {
                        description: final(self).form_state.description,
                        ..old(self).form_state
                    })
                    &&& final(self).form_state.description@ == (if byte_len(
                        old(self).form_state.description@,
                    ) < 500 {
                        old(self).form_state.description@.push('\n')
                    } else {
                        old(self).form_state.description@
                    })
                },
                FormField::Tags => {
                    let t = spec_trim(old(self).current_tag_input@);
                    if t.len() > 0 {
                        &&& *final(self) == (ProjectForm {
                            form_state: final(self).form_state,
                            current_tag_input: final(self).current_tag_input,
                            ..*old(self)
                        })
                        &&& final(self).form_state == (ProjectFormState {
                            tags: final(self).form_state.tags,
                            ..old(self).form_state
                        })
                        &&& (if seq_contains_str(old(self).form_state.tags@, t) {
                            final(self).form_state.tags@ == old(self).form_state.tags@
                        } else {
                            let prior = old(self).form_state.tags@;
                            &&& final(self).form_state.tags@.len() == prior.len() + 1
                            &&& final(self).form_state.tags@[prior.len() as int]@ == t
                            &&& forall|i: int| 0 <= i < prior.len()
                                ==> final(self).form_state.tags@[i] == prior[i]
                        })
                        &&& final(self).current_tag_input@ == Seq::<char>::empty()
                    } else {
                        *final(self) == *old(self)
                    }
                },
                _ => {
                    &&& *final(self) == (ProjectForm {
                        form_state: final(self).form_state,
                        ..*old(self)
                    })
                    &&& final(self).form_state == (ProjectFormState {
                        current_field: next_field_spec(old(self).form_state.current_field),
                        ..old(self).form_state
                    })
                },
            },
    {
        match self.form_state.current_field {
            FormField::Description => {
                if str_byte_len(self.form_state.description.as_str()) < 500 {
                    push_char(&mut self.form_state.description, '\n');
                }
            },
            FormField::Tags => {
                let tag = trim_str(self.current_tag_input.as_str());
                if !tag.as_str().is_empty() {
                    if !vec_contains_string(&self.form_state.tags, tag.as_str()) {
                        self.form_state.tags.push(tag);
                    }
                    self.current_tag_input = String::new();
                }
            },
            _ => {
                self.next_field();
            },
        }
    }

    /// Move the focus to the next field, cycling forward.
    pub fn next_field(&mut self)
        ensures
            *final(self) == (ProjectForm { form_state: final(self).form_state, ..*old(self) }),
            final(self).form_state == (ProjectFormState {
                current_field: next_field_spec(old(self).form_state.current_field),
                ..old(self).form_state
            }),
    {
        self.form_state.next_field();
    }

    /// Move the focus to the previous field, cycling backward.
    pub fn previous_field(&mut self)
        ensures
            *final(self) == (ProjectForm { form_state: final(self).form_state, ..*old(self) }),
            final(self).form_state == (ProjectFormState {
                current_field: previous_field_spec(old(self).form_state.current_field),
                ..old(self).form_state
            }),
    {
        self.form_state.previous_field();
    }

    /// Move the button focus forward, only while the submit row holds
    /// the focus.
    pub fn next_button(&mut self)
        ensures
            *final(self) == (ProjectForm { buttons: final(self).buttons, ..*old(self) }),
            final(self).buttons.buttons == old(self).buttons.buttons,
            old(self).form_state.current_field != FormField::Submit ==> final(self).buttons == old(self).buttons,
            old(self).form_state.current_field == FormField::Submit ==> final(self).buttons.focused_index == crate::cli::form_buttons::next_index_spec(
                old(self).buttons.focused_index as int,
                old(self).buttons.buttons@.len() as int,
            ),
    {
        if self.form_state.current_field == FormField::Submit {
            self.buttons.next_button();
        }
    }

    /// Move the button focus backward, only while the submit row holds
    /// the focus.
    pub fn previous_button(&mut self)
        ensures
            *final(self) == (ProjectForm { buttons: final(self).buttons, ..*old(self) }),
            final(self).buttons.buttons == old(self).buttons.buttons,
            old(self).form_state.current_field != FormField::Submit ==> final(self).buttons == old(self).buttons,
            old(self).form_state.current_field == FormField::Submit ==> final(self).buttons.focused_index == crate::cli::form_buttons::previous_index_spec(
                old(self).buttons.focused_index as int,
                old(self).buttons.buttons@.len() as int,
            ),
    {
        if self.form_state.current_field == FormField::Submit {
            self.buttons.previous_button();
        }
    }

    /// The focused button's action, only while the submit row holds the
    /// focus.
    pub fn get_selected_action(&self) -> (r: Option<ButtonAction>)
        ensures
            r == (if self.form_state.current_field == FormField::Submit {
                if self.buttons.focused_index < self.buttons.buttons@.len() {
                    Some(self.buttons.buttons@[self.buttons.focused_index as int].action)
                } else {
                    None::<ButtonAction>
                }
            } else {
                None::<ButtonAction>
            }),
    {
        if self.form_state.current_field == FormField::Submit {
            self.buttons.get_focused_action()
        } else {
            None
        }
    }

    /// Check the form contents; the first violated rule's message is
    /// returned.
    pub fn validate(&self) -> (r: Result<(), String>)
        ensures
            r is Ok <==> spec_form_valid(self.form_state.name@, self.form_state.description@),
            r matches Err(m) ==> {
                let msgs = spec_form_msgs(self.form_state.name@, self.form_state.description@);
                msgs.len() > 0 && m@ == msgs[0]
            },
    {
        if str_is_blank(self.form_state.name.as_str()) {
            return Err("Project name is required".to_owned());
        }
        if str_byte_len(self.form_state.name.as_str()) > 100 {
            return Err("Project name must be 100 characters or less".to_owned());
        }
        if str_byte_len(self.form_state.description.as_str()) > 500 {
            return Err("Description must be 500 characters or less".to_owned());
        }
        Ok(())
    }
}

} // verus!
