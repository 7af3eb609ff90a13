//! Tasks: schedulable entities whose children and dependencies are other
//! tasks.

use vstd::prelude::*;
use crate::builders::task_builder::TaskBuilder;
use crate::clock::{self, Timestamp};
use crate::id::Id;
use crate::schedulable::{
    due_set_at, lemma_item_obeys_eq, spec_valid_due_date, spec_valid_start_date, started_at,
    ProjectSubElement, Schedulable, SchedulableItem,
};
use crate::status::{
    archive_spec, cancel_spec, demote_spec, promote_spec, SchedulableItemStatus,
};
use crate::vecs::{
    absent_guard, add_step, all_removable, copy_vec, fold_add, fold_ok, fold_remove, fold_step,
    lemma_fold_add_snoc, lemma_fold_ok_prefix, lemma_fold_remove_snoc, lemma_fold_step_snoc,
    not_self_guard, remove_first, vec_contains, vec_remove_first,
};
use crate::vecs::lemma_all_removable_prefix;
use crate::{HasId, PersonKind, TagKind, TaskKind};

verus! {

/// One step of adding a child to a task: a task reference is appended
/// unless it is the task itself; a project reference is never a valid
/// task child and is dropped.
pub open spec fn task_child_add_step(own: Id<TaskKind>) -> spec_fn(
    Seq<Id<TaskKind>>,
    SchedulableItem,
) -> Seq<Id<TaskKind>> {
    |s: Seq<Id<TaskKind>>, c: SchedulableItem|
        match c {
            SchedulableItem::Task(id) => if id != own {
                s.push(id)
            } else {
                s
            },
            SchedulableItem::Project(_) => s,
        }
}

/// One step of removing a child from a task: a task reference has its
/// first occurrence removed; a project reference changes nothing.
pub open spec fn task_child_remove_step() -> spec_fn(
    Seq<Id<TaskKind>>,
    SchedulableItem,
) -> Seq<Id<TaskKind>> {
    |s: Seq<Id<TaskKind>>, c: SchedulableItem|
        match c {
            SchedulableItem::Task(id) => remove_first(s, id),
            SchedulableItem::Project(_) => s,
        }
}

/// Whether one child-removal step is in bounds: a task reference must be
/// present; a project reference is a no-op and always in bounds.
pub open spec fn task_child_removable() -> spec_fn(Seq<Id<TaskKind>>, SchedulableItem) -> bool {
    |s: Seq<Id<TaskKind>>, c: SchedulableItem|
        match c {
            SchedulableItem::Task(id) => s.contains(id),
            SchedulableItem::Project(_) => true,
        }
}

/// A task never accepts itself as a child: the add step drops a task
/// reference to the adding task, whatever the children held.
pub proof fn lemma_self_child_rejected(own: Id<TaskKind>, children: Seq<Id<TaskKind>>)
    ensures
        task_child_add_step(own)(children, SchedulableItem::Task(own)) == children,
{
}

/// A task never accepts itself as a dependency: the guarded append drops
/// the adding task's own identifier, whatever the dependencies held.
pub proof fn lemma_self_dependency_rejected(own: Id<TaskKind>, deps: Seq<Id<TaskKind>>)
    ensures
        add_step(deps, own, not_self_guard(own)) == deps,
{
}

/// A task: identifier, name, optional owner and description, tags,
/// optional start and due dates, child tasks, task dependencies, and a
/// lifecycle status.
#[derive(Debug)]
pub struct Task {
    pub id: Id<TaskKind>,
    pub name: String,
    pub owner_id: Option<Id<PersonKind>>,
    pub description: Option<String>,
    pub tags: Vec<Id<TagKind>>,
    pub start_date: Option<Timestamp>,
    pub due_date: Option<Timestamp>,
    pub children: Vec<Id<TaskKind>>,
    pub dependencies: Vec<Id<TaskKind>>,
    pub status: SchedulableItemStatus,
}

impl Task {
    /// A task with a fresh identifier and the given name.
    pub fn new(name: &str) -> (r: Task)
        ensures
            r.name@ == name@,
            r.status == SchedulableItemStatus::NotStarted,
            r.children@.len() == 0,
            r.dependencies@.len() == 0,
    {
        TaskBuilder::new().with_name(name).build()
    }

    /// The finished task a builder describes.
    pub fn from_builder(builder: TaskBuilder) -> (r: Task)
        ensures
            r.id == builder.id,
            r.name == builder.name,
            r.owner_id == builder.owner_id,
            r.description == builder.description,
            r.tags == builder.tags,
            r.start_date == builder.start_date,
            r.due_date == builder.due_date,
            r.children == builder.children,
            r.dependencies == builder.dependencies,
            r.status == builder.status,
    {
        Task {
            id: builder.id,
            name: builder.name,
            owner_id: builder.owner_id,
            description: builder.description,
            tags: builder.tags,
            start_date: builder.start_date,
            due_date: builder.due_date,
            children: builder.children,
            dependencies: builder.dependencies,
            status: builder.status,
        }
    }

    /// True when the dependency list holds the identifier.
    pub fn has_dependency(&self, dependency_to_validate: &Id<TaskKind>) -> (r: bool)
        ensures
            r == self.dependencies@.contains(*dependency_to_validate),
    {
        proof {
            crate::id::lemma_id_obeys_eq::<TaskKind>();
        }
        vec_contains(&self.dependencies, dependency_to_validate)
    }

    /// Add a dependency; a self-reference is invalid and the add is a
    /// no-op.
    pub fn add_dependency(&mut self, task_id: Id<TaskKind>)
        ensures
            *final(self) == (Task { dependencies: final(self).dependencies, ..*old(self) }),
            final(self).dependencies@ == add_step(
                old(self).dependencies@,
                task_id,
                not_self_guard(old(self).id),
            ),
    {
        if self.is_valid_dependency(&task_id) {
            self.dependencies.push(task_id);
        }
    }

    /// Add each of the given dependencies in order, skipping
    /// self-references.
    pub fn add_dependencies(&mut self, task_ids: Vec<Id<TaskKind>>)
        ensures
            *final(self) == (Task { dependencies: final(self).dependencies, ..*old(self) }),
            final(self).dependencies@ == fold_add(
                old(self).dependencies@,
                task_ids@,
                not_self_guard(old(self).id),
            ),
    {
        let ghost keep = not_self_guard::<Id<TaskKind>>(self.id);
        let n = task_ids.len();
        let mut j: usize = 0;
        while j < n
            invariant
                n == task_ids@.len(),
                j <= n,
                *self == (Task { dependencies: self.dependencies, ..*old(self) }),
                keep == not_self_guard::<Id<TaskKind>>(old(self).id),
                self.dependencies@ == fold_add(
                    old(self).dependencies@,
                    task_ids@.take(j as int),
                    keep,
                ),
            decreases n - j,
        {
            self.add_dependency(task_ids[j]);
            proof {
                lemma_fold_add_snoc(old(self).dependencies@, task_ids@, keep, j as int);
            }
            j += 1;
        }
        proof {
            assert(task_ids@.take(n as int) =~= task_ids@);
        }
    }

    /// Remove a dependency; it must be present.
    pub fn remove_dependency(&mut self, dependency_task_id: Id<TaskKind>)
        requires
            old(self).dependencies@.contains(dependency_task_id),
        ensures
            *final(self) == (Task { dependencies: final(self).dependencies, ..*old(self) }),
            final(self).dependencies@ == remove_first(
                old(self).dependencies@,
                dependency_task_id,
            ),
    {
        proof {
            crate::id::lemma_id_obeys_eq::<TaskKind>();
        }
        vec_remove_first(&mut self.dependencies, &dependency_task_id);
    }

    /// Remove each of the given dependencies in order; each must be
    /// present when its turn comes.
    pub fn remove_dependencies(&mut self, dependency_task_ids: Vec<Id<TaskKind>>)
        requires
            all_removable(old(self).dependencies@, dependency_task_ids@),
        ensures
            *final(self) == (Task { dependencies: final(self).dependencies, ..*old(self) }),
            final(self).dependencies@ == fold_remove(
                old(self).dependencies@,
                dependency_task_ids@,
            ),
    {
        let n = dependency_task_ids.len();
        let mut j: usize = 0;
        while j < n
            invariant
                n == dependency_task_ids@.len(),
                j <= n,
                *self == (Task { dependencies: self.dependencies, ..*old(self) }),
                all_removable(old(self).dependencies@, dependency_task_ids@),
                self.dependencies@ == fold_remove(
                    old(self).dependencies@,
                    dependency_task_ids@.take(j as int),
                ),
            decreases n - j,
        {
            proof {
                lemma_all_removable_prefix(
                    old(self).dependencies@,
                    dependency_task_ids@,
                    j as int,
                );
                lemma_fold_remove_snoc(old(self).dependencies@, dependency_task_ids@, j as int);
            }
            self.remove_dependency(dependency_task_ids[j]);
            j += 1;
        }
        proof {
            assert(dependency_task_ids@.take(n as int) =~= dependency_task_ids@);
        }
    }

    /// A dependency is valid when it is not the task itself.
    pub fn is_valid_dependency(&self, dependency_task_id: &Id<TaskKind>) -> (r: bool)
        ensures
            r == (*dependency_task_id != self.id),
    {
        proof {
            crate::id::lemma_id_eq(*dependency_task_id, self.id);
        }
        !(dependency_task_id.token == self.id.token)
    }

    /// Whether the candidate due date is valid, judged at the given
    /// instant: with a start date set, the due date must not precede it;
    /// with none set, the due date must not precede `now`.
    pub fn is_valid_due_date_at(&self, due_date: Option<Timestamp>, now: Timestamp) -> (r: bool)
        ensures
            r == spec_valid_due_date(self.start_date, due_date, now),
    {
        match (self.start_date, due_date) {
            (Some(s), Some(d)) => s.millis <= d.millis,
            (None, Some(d)) => d.millis >= now.millis,
            _ => true,
        }
    }

    /// Set the due date, judged at the given instant; an invalid
    /// candidate leaves the task unchanged.
    pub fn set_due_date_at(&mut self, due_date: Timestamp, now: Timestamp)
        ensures
            *final(self) == (Task {
                due_date: if spec_valid_due_date(old(self).start_date, Some(due_date), now) {
                    Some(due_date)
                } else {
                    old(self).due_date
                },
                ..*old(self)
            }),
    {
        if self.is_valid_due_date_at(Some(due_date), now) {
            self.due_date = Some(due_date);
        }
    }
}

impl HasId for Task {
    type Entity = TaskKind;

    fn id(&self) -> (r: Id<TaskKind>)
        ensures
            r == self.id,
    {
        self.id
    }
}

impl Schedulable for Task {
    type ChildType = Id<TaskKind>;

    type DependencyType = Id<TaskKind>;

    open spec fn can_remove_tags(&self, tags: Seq<Id<TagKind>>) -> bool {
        all_removable(self.tags@, tags)
    }

    open spec fn can_remove_child(&self, child: SchedulableItem) -> bool {
        task_child_removable()(self.children@, child)
    }

    open spec fn can_remove_children(&self, children: Seq<SchedulableItem>) -> bool {
        fold_ok(self.children@, children, task_child_remove_step(), task_child_removable())
    }

    fn name(&self) -> (r: &str)
        ensures
            r@ == self.name@,
    {
        self.name.as_str()
    }

    fn owner_id(&self) -> (r: Option<Id<PersonKind>>)
        ensures
            r == self.owner_id,
    {
        self.owner_id
    }

    fn description(&self) -> (r: &str)
        ensures
            match self.description {
                Some(d) => r@ == d@,
                None => r@ == Seq::<char>::empty(),
            },
    {
        match &self.description {
            Some(d) => d.as_str(),
            None => {
                proof {
                    reveal_strlit("");
                    assert(""@ =~= Seq::<char>::empty());
                }
                ""
            },
        }
    }

    fn tags(&self) -> (r: Vec<Id<TagKind>>)
        ensures
            r@ == self.tags@,
    {
        copy_vec(&self.tags)
    }

    fn start_date(&self) -> (r: Option<Timestamp>)
        ensures
            r == self.start_date,
    {
        self.start_date
    }

    fn due_date(&self) -> (r: Option<Timestamp>)
        ensures
            r == self.due_date,
    {
        self.due_date
    }

    fn status(&self) -> (r: SchedulableItemStatus)
        ensures
            r == self.status,
    {
        self.status
    }

    fn children(&self) -> (r: Vec<Id<TaskKind>>)
        ensures
            r@ == self.children@,
    {
        copy_vec(&self.children)
    }

    fn dependencies(&self) -> (r: Vec<Id<TaskKind>>)
        ensures
            r@ == self.dependencies@,
    {
        copy_vec(&self.dependencies)
    }

    fn has_owner(&self) -> (r: bool)
        ensures
            r == self.owner_id.is_some(),
    {
        self.owner_id.is_some()
    }

    fn has_description(&self) -> (r: bool)
        ensures
            r == self.description.is_some(),
    {
        self.description.is_some()
    }

    fn has_tags(&self) -> (r: bool)
        ensures
            r == (self.tags@.len() > 0),
    {
        self.tags.len() > 0
    }

    fn has_start_date(&self) -> (r: bool)
        ensures
            r == self.start_date.is_some(),
    {
        self.start_date.is_some()
    }

    fn has_due_date(&self) -> (r: bool)
        ensures
            r == self.due_date.is_some(),
    {
        self.due_date.is_some()
    }

    fn has_child(&self, child_to_validate: &SchedulableItem) -> (r: bool)
        ensures
            r == match *child_to_validate {
                SchedulableItem::Task(id) => self.children@.contains(id),
                SchedulableItem::Project(_) => false,
            },
    {
        match child_to_validate {
            SchedulableItem::Task(task_id) => {
                proof {
                    crate::id::lemma_id_obeys_eq::<TaskKind>();
                }
                vec_contains(&self.children, task_id)
            },
            SchedulableItem::Project(_) => false,
        }
    }

    fn has_children(&self) -> (r: bool)
        ensures
            r == (self.children@.len() > 0),
    {
        self.children.len() > 0
    }

    fn has_dependencies(&self) -> (r: bool)
        ensures
            r == (self.dependencies@.len() > 0),
    {
        self.dependencies.len() > 0
    }

    fn rename(&mut self, name: &str)
        ensures
            *final(self) == (Task { name: final(self).name, ..*old(self) }),
            final(self).name@ == name@,
    {
        self.name = name.to_owned();
    }

    fn transfer_ownership(&mut self, owner_id: Id<PersonKind>)
        ensures
            *final(self) == (Task { owner_id: Some(owner_id), ..*old(self) }),
    {
        self.owner_id = Some(owner_id);
    }

    fn set_description(&mut self, description: &str)
        ensures
            *final(self) == (Task { description: final(self).description, ..*old(self) }),
            final(self).description matches Some(d) && d@ == description@,
    {
        self.description = Some(description.to_owned());
    }

    fn clear_description(&mut self)
        ensures
            *final(self) == (Task { description: None, ..*old(self) }),
    {
        self.description = None;
    }

    fn add_tag(&mut self, tag_id: Id<TagKind>)
        ensures
            *final(self) == (Task { tags: final(self).tags, ..*old(self) }),
            final(self).tags@ == add_step(old(self).tags@, tag_id, absent_guard()),
    {
        if self.is_valid_tag(&tag_id) {
            self.tags.push(tag_id);
        }
    }

    fn add_tags(&mut self, tags: Vec<Id<TagKind>>)
        ensures
            *final(self) == (Task { tags: final(self).tags, ..*old(self) }),
            final(self).tags@ == fold_add(old(self).tags@, tags@, absent_guard()),
    {
        let n = tags.len();
        let mut j: usize = 0;
        while j < n
            invariant
                n == tags@.len(),
                j <= n,
                *self == (Task { tags: self.tags, ..*old(self) }),
                self.tags@ == fold_add(
                    old(self).tags@,
                    tags@.take(j as int),
                    absent_guard::<Id<TagKind>>(),
                ),
            decreases n - j,
        {
            self.add_tag(tags[j]);
            proof {
                lemma_fold_add_snoc(
                    old(self).tags@,
                    tags@,
                    absent_guard::<Id<TagKind>>(),
                    j as int,
                );
            }
            j += 1;
        }
        proof {
            assert(tags@.take(n as int) =~= tags@);
        }
    }

    fn remove_tag(&mut self, tag: Id<TagKind>)
        ensures
            *final(self) == (Task { tags: final(self).tags, ..*old(self) }),
            final(self).tags@ == remove_first(old(self).tags@, tag),
    {
        proof {
            crate::id::lemma_id_obeys_eq::<TagKind>();
        }
        if vec_contains(&self.tags, &tag) {
            vec_remove_first(&mut self.tags, &tag);
        } else {
            proof {
                old(self).tags@.index_of_first_ensures(tag);
            }
        }
    }

    fn remove_tags(&mut self, tags: Vec<Id<TagKind>>)
        ensures
            *final(self) == (Task { tags: final(self).tags, ..*old(self) }),
            final(self).tags@ == fold_remove(old(self).tags@, tags@),
    {
        let n = tags.len();
        let mut j: usize = 0;
        while j < n
            invariant
                n == tags@.len(),
                j <= n,
                *self == (Task { tags: self.tags, ..*old(self) }),
                all_removable(old(self).tags@, tags@),
                self.tags@ == fold_remove(old(self).tags@, tags@.take(j as int)),
            decreases n - j,
        {
            proof {
                lemma_all_removable_prefix(old(self).tags@, tags@, j as int);
                lemma_fold_remove_snoc(old(self).tags@, tags@, j as int);
            }
            self.remove_tag(tags[j]);
            j += 1;
        }
        proof {
            assert(tags@.take(n as int) =~= tags@);
        }
    }

    fn remove_all_tags(&mut self)
        ensures
            *final(self) == (Task { tags: final(self).tags, ..*old(self) }),
            final(self).tags@.len() == 0,
    {
        self.tags.clear();
    }

    fn start_now(&mut self)
        ensures
            *final(self) == (Task { start_date: final(self).start_date, ..*old(self) }),
            exists|drawn: Timestamp| final(self).start_date == #[trigger] started_at(
                old(self).start_date,
                old(self).due_date,
                drawn,
            ),
            old(self).due_date is None ==> final(self).start_date is Some,
            old(self).start_date is Some ==> final(self).start_date is Some,
    {
        let now = clock::now();
        self.start_at_date(now);
        proof {
            assert(self.start_date == started_at(
                old(self).start_date,
                old(self).due_date,
                now,
            ));
        }
    }

    fn start_at_date(&mut self, start_date: Timestamp)
        ensures
            *final(self) == (Task {
                start_date: if spec_valid_start_date(Some(start_date), old(self).due_date) {
                    Some(start_date)
                } else {
                    old(self).start_date
                },
                ..*old(self)
            }),
    {
        if self.is_valid_start_date(Some(start_date)) {
            self.start_date = Some(start_date);
        }
    }

    fn remove_start_date(&mut self)
        ensures
            *final(self) == (Task { start_date: None, ..*old(self) }),
    {
        self.start_date = None;
    }

    fn set_due_date(&mut self, due_date: Timestamp)
        ensures
            *final(self) == (Task { due_date: final(self).due_date, ..*old(self) }),
            exists|drawn: Timestamp| final(self).due_date == #[trigger] due_set_at(
                old(self).start_date,
                old(self).due_date,
                due_date,
                drawn,
            ),
            old(self).start_date matches Some(s) ==> final(self).due_date == (
            if s.millis <= due_date.millis {
                Some(due_date)
            } else {
                old(self).due_date
            }),
            final(self).due_date == old(self).due_date || final(self).due_date == Some(due_date),
    {
        let now = clock::now();
        self.set_due_date_at(due_date, now);
        proof {
            assert(self.due_date == due_set_at(
                old(self).start_date,
                old(self).due_date,
                due_date,
                now,
            ));
        }
    }

    fn remove_due_date(&mut self)
        ensures
            *final(self) == (Task { due_date: None, ..*old(self) }),
    {
        self.due_date = None;
    }

    fn add_child(&mut self, child: SchedulableItem)
        ensures
            *final(self) == (Task { children: final(self).children, ..*old(self) }),
            final(self).children@ == task_child_add_step(old(self).id)(old(self).children@, child),
    {
        if self.is_valid_child(&child) {
            if let SchedulableItem::Task(task_id) = child {
                self.children.push(task_id);
            }
        }
    }

    fn add_children(&mut self, children: Vec<SchedulableItem>)
        ensures
            *final(self) == (Task { children: final(self).children, ..*old(self) }),
            final(self).children@ == fold_step(
                old(self).children@,
                children@,
                task_child_add_step(old(self).id),
            ),
    {
        let ghost step = task_child_add_step(self.id);
        let n = children.len();
        let mut j: usize = 0;
        while j < n
            invariant
                n == children@.len(),
                j <= n,
                *self == (Task { children: self.children, ..*old(self) }),
                step == task_child_add_step(old(self).id),
                self.children@ == fold_step(old(self).children@, children@.take(j as int), step),
            decreases n - j,
        {
            self.add_child(children[j]);
            proof {
                lemma_fold_step_snoc(old(self).children@, children@, step, j as int);
            }
            j += 1;
        }
        proof {
            assert(children@.take(n as int) =~= children@);
        }
    }

    fn remove_child(&mut self, child: SchedulableItem)
        ensures
            *final(self) == (Task { children: final(self).children, ..*old(self) }),
            final(self).children@ == task_child_remove_step()(old(self).children@, child),
    {
        if let SchedulableItem::Task(task_id) = child {
            proof {
                crate::id::lemma_id_obeys_eq::<TaskKind>();
            }
            vec_remove_first(&mut self.children, &task_id);
        }
    }

    fn remove_children(&mut self, children: Vec<SchedulableItem>)
        ensures
            *final(self) == (Task { children: final(self).children, ..*old(self) }),
            final(self).children@ == fold_step(
                old(self).children@,
                children@,
                task_child_remove_step(),
            ),
    {
        let ghost step = task_child_remove_step();
        let ghost ok = task_child_removable();
        let n = children.len();
        let mut j: usize = 0;
        while j < n
            invariant
                n == children@.len(),
                j <= n,
                *self == (Task { children: self.children, ..*old(self) }),
                step == task_child_remove_step(),
                ok == task_child_removable(),
                fold_ok(old(self).children@, children@, step, ok),
                self.children@ == fold_step(old(self).children@, children@.take(j as int), step),
            decreases n - j,
        {
            proof {
                lemma_fold_ok_prefix(old(self).children@, children@, step, ok, j as int);
                lemma_fold_step_snoc(old(self).children@, children@, step, j as int);
            }
            self.remove_child(children[j]);
            j += 1;
        }
        proof {
            assert(children@.take(n as int) =~= children@);
        }
    }

    fn remove_all_children(&mut self)
        ensures
            *final(self) == (Task { children: final(self).children, ..*old(self) }),
            final(self).children@.len() == 0,
    {
        self.children.clear();
    }

    fn remove_all_dependencies(&mut self)
        ensures
            *final(self) == (Task { dependencies: final(self).dependencies, ..*old(self) }),
            final(self).dependencies@.len() == 0,
    {
        self.dependencies.clear();
    }

    fn promote(&mut self)
        ensures
            *final(self) == (Task { status: promote_spec(old(self).status), ..*old(self) }),
    {
        match self.status {
            SchedulableItemStatus::NotStarted => self.status = SchedulableItemStatus::Planned,
            SchedulableItemStatus::Planned => self.status = SchedulableItemStatus::InProgress,
            SchedulableItemStatus::InProgress => self.status = SchedulableItemStatus::InReview,
            SchedulableItemStatus::InReview => self.status = SchedulableItemStatus::Completed,
            _ => (),
        }
    }

    fn demote(&mut self)
        ensures
            *final(self) == (Task { status: demote_spec(old(self).status), ..*old(self) }),
    {
        match self.status {
            SchedulableItemStatus::InReview => self.status = SchedulableItemStatus::InProgress,
            SchedulableItemStatus::InProgress => self.status = SchedulableItemStatus::Planned,
            SchedulableItemStatus::Planned => self.status = SchedulableItemStatus::NotStarted,
            _ => (),
        }
    }

    fn archive(&mut self)
        ensures
            *final(self) == (Task { status: archive_spec(old(self).status), ..*old(self) }),
    {
        if !(self.status == SchedulableItemStatus::Archived) {
            self.status = SchedulableItemStatus::Archived;
        }
    }

    fn cancel(&mut self)
        ensures
            *final(self) == (Task { status: cancel_spec(old(self).status), ..*old(self) }),
    {
        match self.status {
            SchedulableItemStatus::Archived => (),
            SchedulableItemStatus::Completed => (),
            _ => {
                self.status = SchedulableItemStatus::Canceled;
            },
        }
    }

    /// A tag is valid when it is not already present.
    fn is_valid_tag(&self, tag_id: &Id<TagKind>) -> (r: bool)
        ensures
            r == !self.tags@.contains(*tag_id),
    {
        proof {
            crate::id::lemma_id_obeys_eq::<TagKind>();
        }
        !vec_contains(&self.tags, tag_id)
    }

    fn is_valid_start_date(&self, start_date: Option<Timestamp>) -> (r: bool)
        ensures
            r == spec_valid_start_date(start_date, self.due_date),
    {
        match (start_date, self.due_date) {
            (Some(s), Some(d)) => s.millis <= d.millis,
            _ => true,
        }
    }

    /// Whether the candidate due date is valid; with no start date set
    /// the answer consults the current time, so only the clock-free cases
    /// are pinned down here (see `is_valid_due_date_at`).
    fn is_valid_due_date(&self, due_date: Option<Timestamp>) -> (r: bool)
        ensures
            exists|drawn: Timestamp| r == #[trigger] spec_valid_due_date(
                self.start_date,
                due_date,
                drawn,
            ),
            match (self.start_date, due_date) {
                (Some(s), Some(d)) => r == (s.millis <= d.millis),
                (_, None) => r == true,
                _ => true,
            },
    {
        let now = clock::now();
        self.is_valid_due_date_at(due_date, now)
    }

    /// A child is valid when it is a task reference other than the task
    /// itself; a project reference is never a valid task child.
    fn is_valid_child(&self, child_to_validate: &SchedulableItem) -> (r: bool)
        ensures
            r == match *child_to_validate {
                SchedulableItem::Task(id) => id != self.id,
                SchedulableItem::Project(_) => false,
            },
    {
        match child_to_validate {
            SchedulableItem::Task(task_id) => {
                proof {
                    crate::id::lemma_id_eq(*task_id, self.id);
                }
                !(task_id.token == self.id.token)
            },
            SchedulableItem::Project(_) => false,
        }
    }
}

} // verus!
