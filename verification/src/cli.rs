//! The terminal client's state: form contents, focus and navigation,
//! screens, and the event-to-state-transition rules. Drawing the state on
//! a terminal is the embedding program's business; everything that
//! decides is here.

pub mod form_state;
pub mod form_buttons;
pub mod text_input;
pub mod tag_selector;
pub mod main_menu;
pub mod project_form;
pub mod project_preview;
pub mod project_output;
pub mod project_handler;
pub mod app;
