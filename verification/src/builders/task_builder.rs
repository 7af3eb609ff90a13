//! Staging area for a [`crate::task::Task`].

use vstd::prelude::*;
use crate::clock::Timestamp;
use crate::id::Id;
use crate::status::SchedulableItemStatus;
use crate::task::Task;
use crate::vecs::copy_vec;
use crate::{HasId, PersonKind, TagKind, TaskKind};

verus! {

pub struct TaskBuilder {
    pub id: Id<TaskKind>,
    pub name: String,
    pub owner_id: Option<Id<PersonKind>>,
    pub description: Option<String>,
    pub tags: Vec<Id<TagKind>>,
    pub start_date: Option<Timestamp>,
    pub due_date: Option<Timestamp>,
    pub children: Vec<Id<TaskKind>>,
    pub dependencies: Vec<Id<TaskKind>>,
    pub status: SchedulableItemStatus,
}

impl TaskBuilder {
    /// A builder holding a fresh identifier and all-default fields.
    pub fn new() -> (r: TaskBuilder)
        ensures
            r.name@ == Seq::<char>::empty(),
            r.owner_id is None,
            r.description is None,
            r.tags@.len() == 0,
            r.start_date is None,
            r.due_date is None,
            r.children@.len() == 0,
            r.dependencies@.len() == 0,
            r.status == SchedulableItemStatus::NotStarted,
    {
        TaskBuilder {
            id: Id::new(),
            name: String::new(),
            owner_id: None,
            description: None,
            tags: Vec::new(),
            start_date: None,
            due_date: None,
            children: Vec::new(),
            dependencies: Vec::new(),
            status: SchedulableItemStatus::NotStarted,
        }
    }

    /// Use the given identifier instead of the generated one, as when
    /// reconstructing a task from storage.
    pub fn with_id(self, id: Id<TaskKind>) -> (r: TaskBuilder)
        ensures
            r == (TaskBuilder { id, ..self }),
    {
        TaskBuilder { id, ..self }
    }

    pub fn with_name(self, name: &str) -> (r: TaskBuilder)
        ensures
            r == (TaskBuilder { name: r.name, ..self }),
            r.name@ == name@,
    {
        TaskBuilder { name: name.to_owned(), ..self }
    }

    pub fn with_owner_id(self, owner_id: Id<PersonKind>) -> (r: TaskBuilder)
        ensures
            r == (TaskBuilder { owner_id: Some(owner_id), ..self }),
    {
        TaskBuilder { owner_id: Some(owner_id), ..self }
    }

    pub fn with_description(self, description: &str) -> (r: TaskBuilder)
        ensures
            r == (TaskBuilder { description: r.description, ..self }),
            r.description matches Some(d) && d@ == description@,
    {
        TaskBuilder { description: Some(description.to_owned()), ..self }
    }

    /// Append the given tags to the ones already staged.
    pub fn with_tags(self, tags: Vec<Id<TagKind>>) -> (r: TaskBuilder)
        ensures
            r == (TaskBuilder { tags: r.tags, ..self }),
            r.tags@ == self.tags@ + tags@,
    {
        let mut staged = self;
        let mut more = tags;
        staged.tags.append(&mut more);
        staged
    }

    /// Stage a start date.
    pub fn with_star_date(self, start_date: Timestamp) -> (r: TaskBuilder)
        ensures
            r == (TaskBuilder { start_date: Some(start_date), ..self }),
    {
        TaskBuilder { start_date: Some(start_date), ..self }
    }

    pub fn with_start_date(self, start_date: Option<Timestamp>) -> (r: TaskBuilder)
        ensures
            r == (TaskBuilder { start_date, ..self }),
    {
        TaskBuilder { start_date, ..self }
    }

    pub fn with_due_date(self, due_date: Option<Timestamp>) -> (r: TaskBuilder)
        ensures
            r == (TaskBuilder { due_date, ..self }),
    {
        TaskBuilder { due_date, ..self }
    }

    pub fn with_children(self, children: Vec<Id<TaskKind>>) -> (r: TaskBuilder)
        ensures
            r == (TaskBuilder { children, ..self }),
    {
        TaskBuilder { children, ..self }
    }

    pub fn with_dependencies(self, dependencies: Vec<Id<TaskKind>>) -> (r: TaskBuilder)
        ensures
            r == (TaskBuilder { dependencies, ..self }),
    {
        TaskBuilder { dependencies, ..self }
    }

    pub fn with_status(self, status: SchedulableItemStatus) -> (r: TaskBuilder)
        ensures
            r == (TaskBuilder { status, ..self }),
    {
        TaskBuilder { status, ..self }
    }

    pub fn name(&self) -> (r: String)
        ensures
            r@ == self.name@,
    {
        self.name.clone()
    }

    pub fn owner_id(&self) -> (r: Option<Id<PersonKind>>)
        ensures
            r == self.owner_id,
    {
        self.owner_id
    }

    pub fn description(&self) -> (r: Option<String>)
        ensures
            match r {
                Some(d) => self.description matches Some(sd) && d@ == sd@,
                None => self.description is None,
            },
    {
        match &self.description {
            Some(d) => Some(d.clone()),
            None => None,
        }
    }

    pub fn tags(&self) -> (r: Vec<Id<TagKind>>)
        ensures
            r@ == self.tags@,
    {
        copy_vec(&self.tags)
    }

    pub fn start_date(&self) -> (r: Option<Timestamp>)
        ensures
            r == self.start_date,
    {
        self.start_date
    }

    pub fn due_date(&self) -> (r: Option<Timestamp>)
        ensures
            r == self.due_date,
    {
        self.due_date
    }

    pub fn children(&self) -> (r: Vec<Id<TaskKind>>)
        ensures
            r@ == self.children@,
    {
        copy_vec(&self.children)
    }

    pub fn dependencies(&self) -> (r: Vec<Id<TaskKind>>)
        ensures
            r@ == self.dependencies@,
    {
        copy_vec(&self.dependencies)
    }

    pub fn status(&self) -> (r: SchedulableItemStatus)
        ensures
            r == self.status,
    {
        self.status
    }

    /// The finished task.
    pub fn build(self) -> (r: Task)
        ensures
            r.id == self.id,
            r.name == self.name,
            r.owner_id == self.owner_id,
            r.description == self.description,
            r.tags == self.tags,
            r.start_date == self.start_date,
            r.due_date == self.due_date,
            r.children == self.children,
            r.dependencies == self.dependencies,
            r.status == self.status,
    {
        Task::from_builder(self)
    }
}

impl HasId for TaskBuilder {
    type Entity = TaskKind;

    fn id(&self) -> (r: Id<TaskKind>)
        ensures
            r == self.id,
    {
        self.id
    }
}

} // verus!
