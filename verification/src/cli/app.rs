//! The terminal client's screens and the rules that map key presses to
//! state transitions. The embedding program reads keys and draws the
//! state; every decision stands here.

use vstd::prelude::*;
use crate::cli::form_buttons::ButtonAction;
use crate::cli::form_state::{same_form, FormField, ProjectFormState};
use crate::cli::main_menu::{MainMenu, MainMenuAction};
use crate::cli::project_form::ProjectForm;
use crate::cli::project_handler::ProjectHandler;
use crate::cli::project_output::ProjectOutput;
use crate::cli::project_preview::ProjectPreview;
use crate::factories::person_factory::basic_person;
use crate::person::Person;

verus! {

/// A key press, as far as the client distinguishes them.
#[derive(Debug, Clone, Copy, PartialEq, Eq, Structural)]
pub enum KeyInput {
    Up,
    Down,
    Left,
    Right,
    Enter,
    Tab,
    BackTab,
    Esc,
    Backspace,
    Char(char),
    Other,
}

/// Which screen is showing.
#[derive(Debug, Clone, Copy, PartialEq, Eq, Structural)]
pub enum Screen {
    MainMenu,
    ProjectForm,
    ProjectPreview,
    ProjectOutput,
}

/// An untouched project form.
pub open spec fn fresh_form(f: ProjectForm) -> bool {
    &&& f.form_state.name@ == Seq::<char>::empty()
    &&& f.form_state.description@ == Seq::<char>::empty()
    &&& f.form_state.tags@.len() == 0
    &&& f.form_state.current_field == FormField::Name
    &&& f.current_tag_input@ == Seq::<char>::empty()
}

impl ProjectFormState {
    /// A copy of the form contents, field for field.
    pub fn snapshot(&self) -> (r: ProjectFormState)
        ensures
            same_form(r, *self),
            r.validation_errors@.len() == self.validation_errors@.len(),
    {
        let mut tags: Vec<String> = Vec::new();
        let n = self.tags.len();
        let mut j: usize = 0;
        while j < n
            invariant
                n == self.tags@.len(),
                j <= n,
                tags@.len() == j,
                forall|k: int| 0 <= k < j ==> tags@[k] == self.tags@[k],
            decreases n - j,
        {
            tags.push(self.tags[j].clone());
            j += 1;
        }
        let mut errors: Vec<String> = Vec::new();
        let n2 = self.validation_errors.len();
        let mut j2: usize = 0;
        while j2 < n2
            invariant
                n2 == self.validation_errors@.len(),
                j2 <= n2,
                errors@.len() == j2,
                forall|k: int| 0 <= k < j2 ==> errors@[k] == self.validation_errors@[k],
            decreases n2 - j2,
        {
            errors.push(self.validation_errors[j2].clone());
            j2 += 1;
        }
        let r = ProjectFormState {
            name: self.name.clone(),
            description: self.description.clone(),
            tags,
            current_field: self.current_field,
            validation_errors: errors,
            tag_input: self.tag_input.clone(),
        };
        proof {
            assert(r.tags@ =~= self.tags@);
            assert(r.validation_errors@ =~= self.validation_errors@);
        }
        r
    }
}

/// The whole client state.
pub struct App {
    pub current_screen: Screen,
    pub should_quit: bool,
    pub default_user: Person,
    pub project_handler: ProjectHandler,
    pub main_menu: MainMenu,
    pub project_form: ProjectForm,
    pub project_preview: Option<ProjectPreview>,
    pub project_output: Option<ProjectOutput>,
}

impl App {
    /// A client at the main menu, with a default user and a fresh form.
    pub fn new() -> (r: App)
        ensures
            r.current_screen == Screen::MainMenu,
            r.should_quit == false,
            fresh_form(r.project_form),
            r.project_preview is None,
            r.project_output is None,
    {
        App {
            current_screen: Screen::MainMenu,
            should_quit: false,
            default_user: basic_person(),
            project_handler: ProjectHandler::new(),
            main_menu: MainMenu::new(),
            project_form: ProjectForm::new(),
            project_preview: None,
            project_output: None,
        }
    }

    pub fn current_screen(&self) -> (r: Screen)
        ensures
            r == self.current_screen,
    {
        self.current_screen
    }

    pub fn should_quit(&self) -> (r: bool)
        ensures
            r == self.should_quit,
    {
        self.should_quit
    }

    /// Dispatch one key press to the showing screen's rules.
    pub fn handle_event(&mut self, key: KeyInput) {
        match self.current_screen {
            Screen::MainMenu => self.handle_main_menu_event(key),
            Screen::ProjectForm => self.handle_project_form_event(key),
            Screen::ProjectPreview => self.handle_project_preview_event(key),
            Screen::ProjectOutput => self.handle_project_output_event(key),
        }
    }

    /// At the main menu: Up and Down move the selection; Enter follows
    /// the selected entry, opening a fresh project form or asking to
    /// quit; `q` and Esc quit.
    pub fn handle_main_menu_event(&mut self, key: KeyInput)
        ensures
            key == KeyInput::Enter ==> match old(self).main_menu.selected {
                Some(0usize) => {
                    &&& final(self).current_screen == Screen::ProjectForm
                    &&& fresh_form(final(self).project_form)
                    &&& final(self).should_quit == old(self).should_quit
                },
                Some(1usize) => {
                    &&& final(self).should_quit == true
                    &&& final(self).current_screen == old(self).current_screen
                },
                _ => *final(self) == *old(self),
            },
            key == KeyInput::Esc || key == KeyInput::Char('q') ==> {
                &&& final(self).should_quit == true
                &&& final(self).current_screen == old(self).current_screen
            },
            key == KeyInput::Up || key == KeyInput::Down ==> {
                &&& final(self).current_screen == old(self).current_screen
                &&& final(self).should_quit == old(self).should_quit
            },
            (match key {
                KeyInput::Up => false,
                KeyInput::Down => false,
                KeyInput::Enter => false,
                KeyInput::Esc => false,
                KeyInput::Char(c) => c != 'q',
                _ => true,
            }) ==> *final(self) == *old(self),
    {
        match key {
            KeyInput::Up => {
                self.main_menu.previous();
            },
            KeyInput::Down => {
                self.main_menu.next();
            },
            KeyInput::Enter => {
                match self.main_menu.get_selected_action() {
                    Some(MainMenuAction::CreateProject) => {
                        self.current_screen = Screen::ProjectForm;
                        self.project_form = ProjectForm::new();
                    },
                    Some(MainMenuAction::Exit) => {
                        self.should_quit = true;
                    },
                    None => {},
                }
            },
            KeyInput::Char(c) => {
                if c == 'q' {
                    self.should_quit = true;
                }
            },
            KeyInput::Esc => {
                self.should_quit = true;
            },
            _ => {},
        }
    }

    /// On the form: Tab and BackTab move the field focus; Left and Right
    /// move the button focus on the submit row; typing edits the focused
    /// field; Enter presses the focused button on the submit row — a
    /// valid form goes to preview, Cancel returns to the menu — and acts
    /// on the focused field elsewhere; Esc returns to the menu.
    pub fn handle_project_form_event(&mut self, key: KeyInput)
        ensures
            key == KeyInput::Esc ==> {
                &&& final(self).current_screen == Screen::MainMenu
                &&& final(self).should_quit == old(self).should_quit
            },
            key == KeyInput::Enter && old(self).project_form.form_state.current_field
                == FormField::Submit && old(self).project_form.buttons.focused_index < old(self).project_form.buttons.buttons@.len() ==> {
                let action = old(self).project_form.buttons.buttons@[old(self).project_form.buttons.focused_index as int].action;
                &&& (action == ButtonAction::Submit && crate::cli::form_state::spec_form_valid(
                    old(self).project_form.form_state.name@,
                    old(self).project_form.form_state.description@,
                )) ==> {
                    &&& final(self).current_screen == Screen::ProjectPreview
                    &&& final(self).project_preview matches Some(pv) && same_form(
                        pv.form_state,
                        old(self).project_form.form_state,
                    )
                }
                &&& action == ButtonAction::Cancel ==> final(self).current_screen
                    == Screen::MainMenu
            },
            final(self).should_quit == old(self).should_quit,
    {
        match key {
            KeyInput::Tab => {
                self.project_form.next_field();
            },
            KeyInput::BackTab => {
                self.project_form.previous_field();
            },
            KeyInput::Enter => {
                match self.project_form.get_selected_action() {
                    Some(ButtonAction::Submit) => {
                        match self.project_form.validate() {
                            Ok(_) => {
                                let snapshot = self.project_form.get_form_state().snapshot();
                                self.project_preview = Some(ProjectPreview::new(snapshot));
                                self.current_screen = Screen::ProjectPreview;
                            },
                            Err(_) => {},
                        }
                    },
                    Some(ButtonAction::Cancel) => {
                        self.current_screen = Screen::MainMenu;
                    },
                    Some(_) => {},
                    None => {
                        self.project_form.handle_enter();
                    },
                }
            },
            KeyInput::Left => {
                self.project_form.previous_button();
            },
            KeyInput::Right => {
                self.project_form.next_button();
            },
            KeyInput::Esc => {
                self.current_screen = Screen::MainMenu;
            },
            KeyInput::Char(c) => {
                self.project_form.handle_char_input(c);
            },
            KeyInput::Backspace => {
                self.project_form.handle_backspace();
            },
            _ => {},
        }
    }

    /// On the preview: Left and Right move the button focus; Enter
    /// follows the focused button — Confirm creates the project from the
    /// form and shows it, Back returns to the form, Cancel to the menu;
    /// Esc returns to the form.
    pub fn handle_project_preview_event(&mut self, key: KeyInput)
        ensures
            key == KeyInput::Esc ==> final(self).current_screen == Screen::ProjectForm,
            key == KeyInput::Enter ==> match old(self).project_preview {
                None => true,
                Some(pv) => pv.buttons.focused_index < pv.buttons.buttons@.len() ==> {
                    let action = pv.buttons.buttons@[pv.buttons.focused_index as int].action;
                &&& action == ButtonAction::Submit ==> {
                    &&& final(self).current_screen == Screen::ProjectOutput
                    &&& final(self).project_output matches Some(out) && out.project.name@ == old(self).project_form.form_state.name@ && out.project.owner_id == Some(
                        old(self).default_user.id,
                    )
                }
                    &&& action == ButtonAction::Back ==> final(self).current_screen
                        == Screen::ProjectForm
                    &&& action == ButtonAction::Cancel ==> final(self).current_screen
                        == Screen::MainMenu
                },
            },
            final(self).should_quit == old(self).should_quit,
    {
        match key {
            KeyInput::Left => {
                match &mut self.project_preview {
                    Some(preview) => preview.previous_button(),
                    None => {},
                }
            },
            KeyInput::Right => {
                match &mut self.project_preview {
                    Some(preview) => preview.next_button(),
                    None => {},
                }
            },
            KeyInput::Enter => {
                let action = match &self.project_preview {
                    Some(preview) => preview.get_selected_action(),
                    None => None,
                };
                match action {
                    Some(ButtonAction::Submit) => {
                        match self.project_handler.create_project(
                            &self.project_form.form_state,
                            &self.default_user,
                        ) {
                            Ok(project) => {
                                self.project_output = Some(ProjectOutput::new(project));
                                self.current_screen = Screen::ProjectOutput;
                            },
                            Err(_) => {
                                proof {
                                    assert(false);
                                }
                            },
                        }
                    },
                    Some(ButtonAction::Back) => {
                        self.current_screen = Screen::ProjectForm;
                    },
                    Some(ButtonAction::Cancel) => {
                        self.current_screen = Screen::MainMenu;
                    },
                    _ => {},
                }
            },
            KeyInput::Esc => {
                self.current_screen = Screen::ProjectForm;
            },
            _ => {},
        }
    }

    /// On the output screen: Left and Right move the button focus; Enter
    /// follows the focused button — Create Another opens a fresh form,
    /// Main Menu returns to the menu, Exit quits; Esc returns to the
    /// menu. Leaving the screen clears the preview and output.
    pub fn handle_project_output_event(&mut self, key: KeyInput)
        ensures
            key == KeyInput::Esc ==> {
                &&& final(self).current_screen == Screen::MainMenu
                &&& fresh_form(final(self).project_form)
                &&& final(self).project_preview is None
                &&& final(self).project_output is None
            },
            key == KeyInput::Enter ==> match old(self).project_output {
                None => true,
                Some(out) => out.buttons.focused_index < out.buttons.buttons@.len() ==> {
                    let action = out.buttons.buttons@[out.buttons.focused_index as int].action;
                    &&& action == ButtonAction::Next ==> {
                        &&& final(self).current_screen == Screen::ProjectForm
                        &&& fresh_form(final(self).project_form)
                        &&& final(self).project_preview is None
                        &&& final(self).project_output is None
                    }
                    &&& action == ButtonAction::Back ==> {
                        &&& final(self).current_screen == Screen::MainMenu
                        &&& fresh_form(final(self).project_form)
                        &&& final(self).project_preview is None
                        &&& final(self).project_output is None
                    }
                    &&& action == ButtonAction::Cancel ==> final(self).should_quit == true
                },
            },
    {
        match key {
            KeyInput::Left => {
                match &mut self.project_output {
                    Some(output) => output.previous_button(),
                    None => {},
                }
            },
            KeyInput::Right => {
                match &mut self.project_output {
                    Some(output) => output.next_button(),
                    None => {},
                }
            },
            KeyInput::Enter => {
                let action = match &self.project_output {
                    Some(output) => output.get_selected_action(),
                    None => None,
                };
                match action {
                    Some(ButtonAction::Next) => {
                        self.current_screen = Screen::ProjectForm;
                        self.project_form = ProjectForm::new();
                        self.project_preview = None;
                        self.project_output = None;
                    },
                    Some(ButtonAction::Back) => {
                        self.current_screen = Screen::MainMenu;
                        self.project_form = ProjectForm::new();
                        self.project_preview = None;
                        self.project_output = None;
                    },
                    Some(ButtonAction::Cancel) => {
                        self.should_quit = true;
                    },
                    _ => {},
                }
            },
            KeyInput::Esc => {
                self.current_screen = Screen::MainMenu;
                self.project_form = ProjectForm::new();
                self.project_preview = None;
                self.project_output = None;
            },
            _ => {},
        }
    }
}

} // verus!
