use project_tracker::cli::app::{App, KeyInput, Screen};
use project_tracker::cli::form_buttons::{Button, ButtonAction, FormButtons};
use project_tracker::cli::form_state::{FormField, ProjectFormState};
use project_tracker::cli::main_menu::{MainMenu, MainMenuAction};
use project_tracker::cli::project_form::ProjectForm;
use project_tracker::cli::project_handler::ProjectHandler;
use project_tracker::cli::tag_selector::TagSelector;
use project_tracker::cli::text_input::TextInput;
use project_tracker::factories::person_factory::basic_person;
use project_tracker::schedulable::Schedulable;
use project_tracker::HasId;

#[test]
fn form_state_validates_name_and_description() {
    let mut form = ProjectFormState::new();
    assert!(!form.validate());
    assert_eq!(form.validation_errors, vec!["Project name is required".to_string()]);
    assert!(!form.is_valid());

    form.name = "A project".to_string();
    assert!(form.validate());
    assert!(form.validation_errors.is_empty());
    assert!(form.is_valid());

    form.name = "x".repeat(101);
    assert!(!form.validate());
    assert_eq!(
        form.validation_errors,
        vec!["Project name must be 100 characters or less".to_string()]
    );

    form.name = "ok".to_string();
    form.description = "d".repeat(501);
    assert!(!form.validate());
    assert_eq!(
        form.validation_errors,
        vec!["Description must be 500 characters or less".to_string()]
    );
}

#[test]
fn form_state_unicode_whitespace_name_counts_as_blank() {
    let mut form = ProjectFormState::new();
    form.name = "\u{a0}\u{2003}\u{b}".to_string();
    assert!(!form.is_valid());
    assert!(!form.validate());
    assert_eq!(form.validation_errors, vec!["Project name is required".to_string()]);
}

#[test]
fn form_state_tag_input_is_trimmed_and_deduplicated() {
    let mut form = ProjectFormState::new();
    form.tag_input = "  rust  ".to_string();
    form.add_tag();
    assert_eq!(form.tags, vec!["rust".to_string()]);
    assert_eq!(form.tag_input, "");

    form.tag_input = "rust".to_string();
    form.add_tag();
    assert_eq!(form.tags.len(), 1);

    form.tag_input = "   ".to_string();
    form.add_tag();
    assert_eq!(form.tags.len(), 1);

    form.remove_tag(0);
    assert!(form.tags.is_empty());
    form.remove_tag(5);
    assert!(form.tags.is_empty());
}

#[test]
fn form_state_field_focus_cycles() {
    let mut form = ProjectFormState::new();
    assert_eq!(form.current_field, FormField::Name);
    form.next_field();
    assert_eq!(form.current_field, FormField::Description);
    form.next_field();
    assert_eq!(form.current_field, FormField::Tags);
    form.next_field();
    assert_eq!(form.current_field, FormField::Submit);
    form.next_field();
    assert_eq!(form.current_field, FormField::Name);
    form.previous_field();
    assert_eq!(form.current_field, FormField::Submit);
}

#[test]
fn form_buttons_focus_wraps_both_ways() {
    let mut buttons = FormButtons::new()
        .add_button(Button::new("One", ButtonAction::Submit))
        .add_button(Button::new("Two", ButtonAction::Back))
        .add_button(Button::new("Three", ButtonAction::Cancel));
    assert_eq!(buttons.get_focused_action(), Some(ButtonAction::Submit));
    buttons.next_button();
    assert_eq!(buttons.get_focused_action(), Some(ButtonAction::Back));
    buttons.next_button();
    buttons.next_button();
    assert_eq!(buttons.get_focused_action(), Some(ButtonAction::Submit));
    buttons.previous_button();
    assert_eq!(buttons.get_focused_action(), Some(ButtonAction::Cancel));
    let empty = FormButtons::new();
    assert_eq!(empty.get_focused_action(), None);
}

#[test]
fn text_input_builder_accumulates_settings() {
    let input = TextInput::new("Name")
        .value("hello".to_string())
        .focused(true)
        .multiline(true)
        .max_length(500)
        .placeholder("type here");
    assert_eq!(input.title, "Name");
    assert_eq!(input.value, "hello");
    assert!(input.is_focused);
    assert!(input.is_multiline);
    assert_eq!(input.max_length, 500);
    assert_eq!(input.placeholder, "type here");
}

#[test]
fn tag_selector_builder_accumulates_settings() {
    let selector = TagSelector::new()
        .tags(vec!["a".to_string(), "b".to_string()])
        .input_value("c".to_string())
        .focused(true);
    assert_eq!(selector.tags.len(), 2);
    assert_eq!(selector.input_value, "c");
    assert!(selector.is_focused);
}

#[test]
fn main_menu_selection_wraps() {
    let mut menu = MainMenu::new();
    assert_eq!(menu.get_selected_action(), Some(MainMenuAction::CreateProject));
    menu.next();
    assert_eq!(menu.get_selected_action(), Some(MainMenuAction::Exit));
    menu.next();
    assert_eq!(menu.get_selected_action(), Some(MainMenuAction::CreateProject));
    menu.previous();
    assert_eq!(menu.get_selected_action(), Some(MainMenuAction::Exit));
}

#[test]
fn project_form_typing_respects_fields_and_budgets() {
    let mut form = ProjectForm::new();
    form.handle_char_input('H');
    form.handle_char_input('i');
    assert_eq!(form.form_state.name, "Hi");
    form.handle_char_input('\n');
    assert_eq!(form.form_state.name, "Hi");
    form.handle_backspace();
    assert_eq!(form.form_state.name, "H");

    form.next_field();
    form.handle_char_input('d');
    form.handle_enter();
    assert_eq!(form.form_state.description, "d\n");

    form.next_field();
    form.handle_char_input('t');
    form.handle_char_input('a');
    form.handle_char_input('g');
    form.handle_enter();
    assert_eq!(form.form_state.tags, vec!["tag".to_string()]);
    assert_eq!(form.current_tag_input, "");
}

#[test]
fn project_form_submit_row_drives_buttons() {
    let mut form = ProjectForm::new();
    assert_eq!(form.get_selected_action(), None);
    form.next_button();
    form.form_state.current_field = FormField::Submit;
    assert_eq!(form.get_selected_action(), Some(ButtonAction::Submit));
    form.next_button();
    assert_eq!(form.get_selected_action(), Some(ButtonAction::Cancel));
    form.previous_button();
    assert_eq!(form.get_selected_action(), Some(ButtonAction::Submit));
}

#[test]
fn project_form_validate_reports_first_violation() {
    let mut form = ProjectForm::new();
    assert_eq!(form.validate(), Err("Project name is required".to_string()));
    form.form_state.name = "ok".to_string();
    assert_eq!(form.validate(), Ok(()));
    form.form_state.description = "d".repeat(501);
    assert_eq!(
        form.validate(),
        Err("Description must be 500 characters or less".to_string())
    );
}

#[test]
fn project_handler_builds_the_project_from_the_form() {
    let user = basic_person();
    let mut form = ProjectFormState::new();
    form.name = "From the form".to_string();
    form.description = "   ".to_string();
    form.tags = vec!["one".to_string(), "two".to_string()];
    let handler = ProjectHandler::new();
    let project = handler.create_project(&form, &user).unwrap();
    assert_eq!(project.name(), "From the form");
    assert_eq!(project.owner_id().unwrap(), user.id());
    assert!(!project.has_description());
    assert_eq!(project.tags().len(), 2);
}

#[test]
fn app_walks_from_menu_to_created_project() {
    let mut app = App::new();
    assert_eq!(app.current_screen(), Screen::MainMenu);

    app.handle_event(KeyInput::Enter);
    assert_eq!(app.current_screen(), Screen::ProjectForm);

    for c in "My project".chars() {
        app.handle_event(KeyInput::Char(c));
    }
    app.handle_event(KeyInput::Tab);
    app.handle_event(KeyInput::Tab);
    app.handle_event(KeyInput::Tab);
    app.handle_event(KeyInput::Enter);
    assert_eq!(app.current_screen(), Screen::ProjectPreview);

    app.handle_event(KeyInput::Enter);
    assert_eq!(app.current_screen(), Screen::ProjectOutput);
    let created = app.project_output.as_ref().unwrap();
    assert_eq!(created.project.name(), "My project");

    app.handle_event(KeyInput::Enter);
    assert_eq!(app.current_screen(), Screen::ProjectForm);
    assert!(app.project_output.is_none());
}

#[test]
fn app_quits_from_the_menu() {
    let mut app = App::new();
    assert!(!app.should_quit());
    app.handle_event(KeyInput::Char('q'));
    assert!(app.should_quit());

    let mut app = App::new();
    app.handle_event(KeyInput::Down);
    app.handle_event(KeyInput::Enter);
    assert!(app.should_quit());
}

#[test]
fn app_invalid_form_stays_on_the_form() {
    let mut app = App::new();
    app.handle_event(KeyInput::Enter);
    assert_eq!(app.current_screen(), Screen::ProjectForm);
    app.handle_event(KeyInput::Tab);
    app.handle_event(KeyInput::Tab);
    app.handle_event(KeyInput::Tab);
    app.handle_event(KeyInput::Enter);
    assert_eq!(app.current_screen(), Screen::ProjectForm);
}
