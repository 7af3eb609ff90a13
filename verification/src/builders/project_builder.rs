//! Staging area for a [`crate::project::Project`].

use vstd::prelude::*;
use crate::clock::Timestamp;
use crate::id::Id;
use crate::project::Project;
use crate::schedulable::ProjectSubElement;
use crate::status::ProjectStatus;
use crate::vecs::copy_vec;
use crate::{HasId, PersonKind, ProjectKind, TagKind};

verus! {

pub struct ProjectBuilder {
    pub id: Id<ProjectKind>,
    pub name: String,
    pub owner_id: Option<Id<PersonKind>>,
    pub description: Option<String>,
    pub tags: Vec<Id<TagKind>>,
    pub start_date: Option<Timestamp>,
    pub due_date: Option<Timestamp>,
    pub children: Vec<ProjectSubElement>,
    pub dependencies: Vec<Id<ProjectKind>>,
    pub status: ProjectStatus,
}

impl ProjectBuilder {
    /// A builder holding a fresh identifier and all-default fields.
    pub fn new() -> (r: ProjectBuilder)
        ensures
            r.name@ == Seq::<char>::empty(),
            r.owner_id is None,
            r.description is None,
            r.tags@.len() == 0,
            r.start_date is None,
            r.due_date is None,
            r.children@.len() == 0,
            r.dependencies@.len() == 0,
            r.status == ProjectStatus::NotStarted,
    {
        ProjectBuilder {
            id: Id::new(),
            name: String::new(),
            owner_id: None,
            description: None,
            tags: Vec::new(),
            start_date: None,
            due_date: None,
            children: Vec::new(),
            dependencies: Vec::new(),
            status: ProjectStatus::NotStarted,
        }
    }

    /// Use the given identifier instead of the generated one, as when
    /// reconstructing a project from storage.
    pub fn with_id(self, id: Id<ProjectKind>) -> (r: ProjectBuilder)
        ensures
            r == (ProjectBuilder { id, ..self }),
    {
        ProjectBuilder { id, ..self }
    }

    pub fn with_name(self, name: &str) -> (r: ProjectBuilder)
        ensures
            r == (ProjectBuilder { name: r.name, ..self }),
            r.name@ == name@,
    {
        ProjectBuilder { name: name.to_owned(), ..self }
    }

    pub fn with_owner_id(self, owner_id: Id<PersonKind>) -> (r: ProjectBuilder)
        ensures
            r == (ProjectBuilder { owner_id: Some(owner_id), ..self }),
    {
        ProjectBuilder { owner_id: Some(owner_id), ..self }
    }

    pub fn with_description(self, description: &str) -> (r: ProjectBuilder)
        ensures
            r == (ProjectBuilder { description: r.description, ..self }),
            r.description matches Some(d) && d@ == description@,
    {
        ProjectBuilder { description: Some(description.to_owned()), ..self }
    }

    /// Append the given tags to the ones already staged.
    pub fn with_tags(self, tags: Vec<Id<TagKind>>) -> (r: ProjectBuilder)
        ensures
            r == (ProjectBuilder { tags: r.tags, ..self }),
            r.tags@ == self.tags@ + tags@,
    {
        let mut staged = self;
        let mut more = tags;
        staged.tags.append(&mut more);
        staged
    }

    /// Stage a start date.
    pub fn with_star_date(self, start_date: Timestamp) -> (r: ProjectBuilder)
        ensures
            r == (ProjectBuilder { start_date: Some(start_date), ..self }),
    {
        ProjectBuilder { start_date: Some(start_date), ..self }
    }

    pub fn with_start_date(self, start_date: Option<Timestamp>) -> (r: ProjectBuilder)
        ensures
            r == (ProjectBuilder { start_date, ..self }),
    {
        ProjectBuilder { start_date, ..self }
    }

    pub fn with_due_date(self, due_date: Option<Timestamp>) -> (r: ProjectBuilder)
        ensures
            r == (ProjectBuilder { due_date, ..self }),
    {
        ProjectBuilder { due_date, ..self }
    }

    pub fn with_children(self, children: Vec<ProjectSubElement>) -> (r: ProjectBuilder)
        ensures
            r == (ProjectBuilder { children, ..self }),
    {
        ProjectBuilder { children, ..self }
    }

    pub fn with_dependencies(self, dependencies: Vec<Id<ProjectKind>>) -> (r: ProjectBuilder)
        ensures
            r == (ProjectBuilder { dependencies, ..self }),
    {
        ProjectBuilder { dependencies, ..self }
    }

    pub fn with_status(self, status: ProjectStatus) -> (r: ProjectBuilder)
        ensures
            r == (ProjectBuilder { status, ..self }),
    {
        ProjectBuilder { status, ..self }
    }

    pub fn name(&self) -> (r: String)
        ensures
            r@ == self.name@,
    {
        self.name.clone()
    }

    pub fn owner_id(&self) -> (r: Option<Id<PersonKind>>)
        ensures
            r == self.owner_id,
    {
        self.owner_id
    }

    pub fn description(&self) -> (r: Option<String>)
        ensures
            match r {
                Some(d) => self.description matches Some(sd) && d@ == sd@,
                None => self.description is None,
            },
    {
        match &self.description {
            Some(d) => Some(d.clone()),
            None => None,
        }
    }

    pub fn tags(&self) -> (r: Vec<Id<TagKind>>)
        ensures
            r@ == self.tags@,
    {
        copy_vec(&self.tags)
    }

    pub fn start_date(&self) -> (r: Option<Timestamp>)
        ensures
            r == self.start_date,
    {
        self.start_date
    }

    pub fn due_date(&self) -> (r: Option<Timestamp>)
        ensures
            r == self.due_date,
    {
        self.due_date
    }

    pub fn children(&self) -> (r: Vec<ProjectSubElement>)
        ensures
            r@ == self.children@,
    {
        copy_vec(&self.children)
    }

    pub fn dependencies(&self) -> (r: Vec<Id<ProjectKind>>)
        ensures
            r@ == self.dependencies@,
    {
        copy_vec(&self.dependencies)
    }

    pub fn status(&self) -> (r: ProjectStatus)
        ensures
            r == self.status,
    {
        self.status
    }

    /// The finished project.
    pub fn build(self) -> (r: Project)
        ensures
            r.id == self.id,
            r.name == self.name,
            r.owner_id == self.owner_id,
            r.description == self.description,
            r.tags == self.tags,
            r.start_date == self.start_date,
            r.due_date == self.due_date,
            r.children == self.children,
            r.dependencies == self.dependencies,
            r.status == self.status,
    {
        Project::from_builder(self)
    }
}

impl HasId for ProjectBuilder {
    type Entity = ProjectKind;

    fn id(&self) -> (r: Id<ProjectKind>)
        ensures
            r == self.id,
    {
        self.id
    }
}

} // verus!
