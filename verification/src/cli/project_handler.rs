//! Turning a finished form into a project.

use vstd::prelude::*;
use crate::builders::project_builder::ProjectBuilder;
use crate::builders::tag_builder::TagBuilder;
use crate::cli::form_state::ProjectFormState;
use crate::errors::Error;
use crate::id::Id;
use crate::person::Person;
use crate::project::Project;
use crate::strings::{is_blank, str_is_blank};
use crate::{HasId, TagKind};

verus! {

/// Builds projects from form contents.
pub struct ProjectHandler;

impl ProjectHandler {
    pub fn new() -> ProjectHandler {
        ProjectHandler
    }

    /// A project built from the form: the form's name, the given default
    /// owner, the description when it is not blank, and one freshly
    /// created tag per tag name on the form.
    pub fn create_project(&self, form_state: &ProjectFormState, default_user: &Person) -> (r:
        Result<Project, Error>)
        ensures
            r matches Ok(p) ==> {
                &&& p.name@ == form_state.name@
                &&& p.owner_id == Some(default_user.id)
                &&& (if is_blank(form_state.description@) {
                    p.description is None
                } else {
                    p.description matches Some(d) && d@ == form_state.description@
                })
                &&& p.tags@.len() == form_state.tags@.len()
                &&& p.children@.len() == 0
                &&& p.dependencies@.len() == 0
            },
            r is Ok,
    {
        let builder = ProjectBuilder::new().with_name(form_state.name.as_str()).with_owner_id(
            default_user.id(),
        );
        let b2 = if !str_is_blank(form_state.description.as_str()) {
            builder.with_description(form_state.description.as_str())
        } else {
            builder
        };
        let tag_ids = self.create_tags_from_strings(&form_state.tags);
        let b3 = if tag_ids.len() > 0 {
            b2.with_tags(tag_ids)
        } else {
            b2
        };
        Ok(Project::from_builder(b3))
    }

    /// One freshly created tag per name, in order.
    fn create_tags_from_strings(&self, tag_names: &Vec<String>) -> (r: Vec<Id<TagKind>>)
        ensures
            r@.len() == tag_names@.len(),
    {
        let mut tag_ids: Vec<Id<TagKind>> = Vec::new();
        let n = tag_names.len();
        let mut j: usize = 0;
        while j < n
            invariant
                n == tag_names@.len(),
                j <= n,
                tag_ids@.len() == j,
            decreases n - j,
        {
            let tag = TagBuilder::new().with_name(tag_names[j].as_str()).build();
            tag_ids.push(tag.id());
            j += 1;
        }
        tag_ids
    }
}

} // verus!
