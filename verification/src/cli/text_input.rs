//! A text input field's display state.

use vstd::prelude::*;

verus! {

/// A titled text field: its value, focus, line mode, length budget and
/// placeholder.
#[derive(Debug, Clone)]
pub struct TextInput {
    pub title: String,
    pub value: String,
    pub is_focused: bool,
    pub is_multiline: bool,
    pub max_length: usize,
    pub placeholder: String,
}

impl TextInput {
    /// An empty single-line field with a 100-byte budget.
    pub fn new(title: &str) -> (r: TextInput)
        ensures
            r.title@ == title@,
            r.value@ == Seq::<char>::empty(),
            r.is_focused == false,
            r.is_multiline == false,
            r.max_length == 100,
            r.placeholder@ == Seq::<char>::empty(),
    {
        TextInput {
            title: title.to_owned(),
            value: String::new(),
            is_focused: false,
            is_multiline: false,
            max_length: 100,
            placeholder: String::new(),
        }
    }

    pub fn value(self, value: String) -> (r: TextInput)
        ensures
            r == (TextInput { value, ..self }),
    {
        TextInput { value, ..self }
    }

    pub fn focused(self, focused: bool) -> (r: TextInput)
        ensures
            r == (TextInput { is_focused: focused, ..self }),
    {
        TextInput { is_focused: focused, ..self }
    }

    pub fn multiline(self, multiline: bool) -> (r: TextInput)
        ensures
            r == (TextInput { is_multiline: multiline, ..self }),
    {
        TextInput { is_multiline: multiline, ..self }
    }

    pub fn max_length(self, max_length: usize) -> (r: TextInput)
        ensures
            r == (TextInput { max_length, ..self }),
    {
        TextInput { max_length, ..self }
    }

    pub fn placeholder(self, placeholder: &str) -> (r: TextInput)
        ensures
            r == (TextInput { placeholder: r.placeholder, ..self }),
            r.placeholder@ == placeholder@,
    {
        TextInput { placeholder: placeholder.to_owned(), ..self }
    }
}

} // verus!
