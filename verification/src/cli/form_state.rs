//! The project creation form's contents and focus.

use vstd::prelude::*;
use crate::strings::{byte_len, is_blank, spec_trim, str_byte_len, str_is_blank, trim_str};

verus! {

/// The form field that holds the focus.
#[derive(Debug, Clone, Copy, PartialEq, Eq, Structural)]
pub enum FormField {
    Name,
    Description,
    Tags,
    Submit,
}

/// The field after `f`, cycling forward.
pub open spec fn next_field_spec(f: FormField) -> FormField {
    match f {
        FormField::Name => FormField::Description,
        FormField::Description => FormField::Tags,
        FormField::Tags => FormField::Submit,
        FormField::Submit => FormField::Name,
    }
}

/// The field before `f`, cycling backward.
pub open spec fn previous_field_spec(f: FormField) -> FormField {
    match f {
        FormField::Name => FormField::Submit,
        FormField::Description => FormField::Name,
        FormField::Tags => FormField::Description,
        FormField::Submit => FormField::Tags,
    }
}

/// The contents of the project creation form.
#[derive(Debug, Clone)]
pub struct ProjectFormState {
    pub name: String,
    pub description: String,
    pub tags: Vec<String>,
    pub current_field: FormField,
    pub validation_errors: Vec<String>,
    pub tag_input: String,
}

/// A form is valid when the name is neither blank nor over 100 bytes and
/// the description is at most 500 bytes.
pub open spec fn spec_form_valid(name: Seq<char>, description: Seq<char>) -> bool {
    &&& !is_blank(name)
    &&& byte_len(name) <= 100
    &&& byte_len(description) <= 500
}

/// The messages a validation pass collects, in order: at most one for the
/// name, then one for the description.
pub open spec fn spec_form_msgs(name: Seq<char>, description: Seq<char>) -> Seq<Seq<char>> {
    (if is_blank(name) {
        seq!["Project name is required"@]
    } else if byte_len(name) > 100 {
        seq!["Project name must be 100 characters or less"@]
    } else {
        Seq::<Seq<char>>::empty()
    }) + (if byte_len(description) > 500 {
        seq!["Description must be 500 characters or less"@]
    } else {
        Seq::<Seq<char>>::empty()
    })
}

/// Two form states hold the same contents, character for character.
pub open spec fn same_form(a: ProjectFormState, b: ProjectFormState) -> bool {
    &&& a.name@ == b.name@
    &&& a.description@ == b.description@
    &&& a.tags@.len() == b.tags@.len()
    &&& forall|i: int| 0 <= i < a.tags@.len() ==> (#[trigger] a.tags@[i])@ == b.tags@[i]@
    &&& a.current_field == b.current_field
    &&& a.tag_input@ == b.tag_input@
}

/// Whether some string of the list holds exactly these characters.
pub open spec fn seq_contains_str(ss: Seq<String>, s: Seq<char>) -> bool {
    exists|i: int| 0 <= i < ss.len() && (#[trigger] ss[i])@ == s
}

/// Whether the list holds a string with exactly the characters of `x`.
pub fn vec_contains_string(v: &Vec<String>, x: &str) -> (r: bool)
    ensures
        r == seq_contains_str(v@, x@),
{
    let n = v.len();
    let mut j: usize = 0;
    while j < n
        invariant
            n == v@.len(),
            j <= n,
            forall|k: int| 0 <= k < j ==> (#[trigger] v@[k])@ != x@,
        decreases n - j,
    {
        if crate::strings::str_eq(v[j].as_str(), x) {
            return true;
        }
        j += 1;
    }
    false
}

impl Default for ProjectFormState {
    /// An empty form focused on the name field.
    fn default() -> (r: ProjectFormState)
        ensures
            r.name@ == Seq::<char>::empty(),
            r.description@ == Seq::<char>::empty(),
            r.tags@.len() == 0,
            r.current_field == FormField::Name,
            r.validation_errors@.len() == 0,
            r.tag_input@ == Seq::<char>::empty(),
    {
        ProjectFormState {
            name: String::new(),
            description: String::new(),
            tags: Vec::new(),
            current_field: FormField::Name,
            validation_errors: Vec::new(),
            tag_input: String::new(),
        }
    }
}

impl ProjectFormState {
    /// An empty form focused on the name field.
    pub fn new() -> (r: ProjectFormState)
        ensures
            r.name@ == Seq::<char>::empty(),
            r.description@ == Seq::<char>::empty(),
            r.tags@.len() == 0,
            r.current_field == FormField::Name,
            r.validation_errors@.len() == 0,
            r.tag_input@ == Seq::<char>::empty(),
    {
        Self::default()
    }

    /// Re-check the form, replacing the collected messages; the form
    /// passes exactly when no message is collected.
    pub fn validate(&mut self) -> (r: bool)
        ensures
            *final(self) == (ProjectFormState {
                validation_errors: final(self).validation_errors,
                ..*old(self)
            }),
            ({
                let msgs = spec_form_msgs(old(self).name@, old(self).description@);
                &&& final(self).validation_errors@.len() == msgs.len()
                &&& forall|i: int| 0 <= i < msgs.len() ==> (
                #[trigger] final(self).validation_errors@[i])@ == msgs[i]
            }),
            r == spec_form_valid(old(self).name@, old(self).description@),
    {
        self.validation_errors.clear();
        if str_is_blank(self.name.as_str()) {
            self.validation_errors.push("Project name is required".to_owned());
        } else if str_byte_len(self.name.as_str()) > 100 {
            self.validation_errors.push(
                "Project name must be 100 characters or less".to_owned(),
            );
        }
        if str_byte_len(self.description.as_str()) > 500 {
            self.validation_errors.push("Description must be 500 characters or less".to_owned());
        }
        self.validation_errors.len() == 0
    }

    /// Whether the form would pass validation, without touching it.
    pub fn is_valid(&self) -> (r: bool)
        ensures
            r == spec_form_valid(self.name@, self.description@),
    {
        !str_is_blank(self.name.as_str()) && str_byte_len(self.name.as_str()) <= 100
            && str_byte_len(self.description.as_str()) <= 500
    }

    /// Take the pending tag input: trimmed, non-blank and not yet present
    /// it joins the tags and the input clears; otherwise nothing changes.
    pub fn add_tag(&mut self)
        ensures
            ({
                let t = spec_trim(old(self).tag_input@);
                if t.len() > 0 && !seq_contains_str(old(self).tags@, t) {
                    &&& *final(self) == (ProjectFormState {
                        tags: final(self).tags,
                        tag_input: final(self).tag_input,
                        ..*old(self)
                    })
                    &&& final(self).tags@.len() == old(self).tags@.len() + 1
                    &&& final(self).tags@[old(self).tags@.len() as int]@ == t
                    &&& forall|i: int| 0 <= i < old(self).tags@.len() ==> final(self).tags@[i]
                        == old(self).tags@[i]
                    &&& final(self).tag_input@ == Seq::<char>::empty()
                } else {
                    *final(self) == *old(self)
                }
            }),
    {
        let tag = trim_str(self.tag_input.as_str());
        if !tag.as_str().is_empty() && !vec_contains_string(&self.tags, tag.as_str()) {
            self.tags.push(tag);
            self.tag_input = String::new();
        }
    }

    /// Remove the tag at the given position; out of range, nothing
    /// changes.
    pub fn remove_tag(&mut self, index: usize)
        ensures
            *final(self) == (ProjectFormState { tags: final(self).tags, ..*old(self) }),
            final(self).tags@ == (if index < old(self).tags@.len() {
                old(self).tags@.remove(index as int)
            } else {
                old(self).tags@
            }),
    {
        if index < self.tags.len() {
            self.tags.remove(index);
        }
    }

    /// Reset the form to its default state.
    pub fn clear(&mut self)
        ensures
            final(self).name@ == Seq::<char>::empty(),
            final(self).description@ == Seq::<char>::empty(),
            final(self).tags@.len() == 0,
            final(self).current_field == FormField::Name,
            final(self).validation_errors@.len() == 0,
            final(self).tag_input@ == Seq::<char>::empty(),
    {
        *self = Self::default();
    }

    /// Move the focus to the next field, cycling forward.
    pub fn next_field(&mut self)
        ensures
            *final(self) == (ProjectFormState {
                current_field: next_field_spec(old(self).current_field),
                ..*old(self)
            }),
    {
        self.current_field = match self.current_field {
            FormField::Name => FormField::Description,
            FormField::Description => FormField::Tags,
            FormField::Tags => FormField::Submit,
            FormField::Submit => FormField::Name,
        };
    }

    /// Move the focus to the previous field, cycling backward.
    pub fn previous_field(&mut self)
        ensures
            *final(self) == (ProjectFormState {
                current_field: previous_field_spec(old(self).current_field),
                ..*old(self)
            }),
    {
        self.current_field = match self.current_field {
            FormField::Name => FormField::Submit,
            FormField::Description => FormField::Name,
            FormField::Tags => FormField::Description,
            FormField::Submit => FormField::Tags,
        };
    }
}

} // verus!
