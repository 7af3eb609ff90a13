//! The tag picker's display state.

use vstd::prelude::*;

verus! {

/// The chosen tags, the pending input, and the focus.
#[derive(Debug, Clone)]
pub struct TagSelector {
    pub tags: Vec<String>,
    pub input_value: String,
    pub is_focused: bool,
}

impl TagSelector {
    /// An empty, unfocused picker.
    pub fn new() -> (r: TagSelector)
        ensures
            r.tags@.len() == 0,
            r.input_value@ == Seq::<char>::empty(),
            r.is_focused == false,
    {
        TagSelector { tags: Vec::new(), input_value: String::new(), is_focused: false }
    }

    pub fn tags(self, tags: Vec<String>) -> (r: TagSelector)
        ensures
            r == (TagSelector { tags, ..self }),
    {
        TagSelector { tags, ..self }
    }

    pub fn input_value(self, value: String) -> (r: TagSelector)
        ensures
            r == (TagSelector { input_value: value, ..self }),
    {
        TagSelector { input_value: value, ..self }
    }

    pub fn focused(self, focused: bool) -> (r: TagSelector)
        ensures
            r == (TagSelector { is_focused: focused, ..self }),
    {
        TagSelector { is_focused: focused, ..self }
    }
}

} // verus!
