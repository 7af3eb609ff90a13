//! Projects: schedulable entities whose children may be projects or tasks
//! and whose dependencies are other projects.

use vstd::prelude::*;
use crate::builders::project_builder::ProjectBuilder;
use crate::clock::{self, Timestamp};
use crate::id::Id;
use crate::schedulable::{
    due_set_at, lemma_item_obeys_eq, spec_valid_due_date, spec_valid_start_date, started_at,
    ProjectSubElement, Schedulable, SchedulableItem,
};
use crate::status::{
    archive_spec, cancel_spec, demote_spec, promote_spec, ProjectStatus, SchedulableItemStatus,
};
use crate::vecs::{
    absent_guard, add_step, all_removable, copy_vec, fold_add, fold_remove, lemma_fold_add_snoc,
    lemma_fold_remove_snoc, remove_first, vec_contains, vec_equal, vec_remove_first,
};
use crate::vecs::lemma_all_removable_prefix;
use crate::{HasId, PersonKind, ProjectKind, TagKind, TaskKind};

verus! {

/// The guard on adding a child to a project: a project reference must not
/// be the project itself; a task reference is always structurally valid.
pub open spec fn project_child_guard(own: Id<ProjectKind>) -> spec_fn(
    Seq<SchedulableItem>,
    SchedulableItem,
) -> bool {
    |s: Seq<SchedulableItem>, c: SchedulableItem|
        match c {
            SchedulableItem::Project(id) => id != own,
            SchedulableItem::Task(_) => true,
        }
}

/// The project references among a list of children, in order.
pub open spec fn project_refs(s: Seq<SchedulableItem>) -> Seq<Id<ProjectKind>>
    decreases s.len(),
{
    if s.len() == 0 {
        Seq::empty()
    } else {
        project_refs(s.drop_last()) + (match s.last() {
            SchedulableItem::Project(id) => seq![id],
            SchedulableItem::Task(_) => Seq::empty(),
        })
    }
}

/// The task references among a list of children, in order.
pub open spec fn task_refs(s: Seq<SchedulableItem>) -> Seq<Id<TaskKind>>
    decreases s.len(),
{
    if s.len() == 0 {
        Seq::empty()
    } else {
        task_refs(s.drop_last()) + (match s.last() {
            SchedulableItem::Task(id) => seq![id],
            SchedulableItem::Project(_) => Seq::empty(),
        })
    }
}

/// A project never accepts itself as a child: the guarded append drops a
/// project reference to the adding project, whatever the children held.
pub proof fn lemma_self_child_rejected(own: Id<ProjectKind>, children: Seq<SchedulableItem>)
    ensures
        add_step(children, SchedulableItem::Project(own), project_child_guard(own)) == children,
{
}

/// A project never accepts itself as a dependency: the guarded append
/// drops the adding project's own identifier, whatever the dependencies
/// held.
pub proof fn lemma_self_dependency_rejected(own: Id<ProjectKind>, deps: Seq<Id<ProjectKind>>)
    ensures
        add_step(deps, own, crate::vecs::not_self_guard(own)) == deps,
{
}

/// A project: identifier, name, optional owner and description, tags,
/// optional start and due dates, tagged-union children, project
/// dependencies, and a lifecycle status.
#[derive(Debug)]
pub struct Project {
    pub id: Id<ProjectKind>,
    pub name: String,
    pub owner_id: Option<Id<PersonKind>>,
    pub description: Option<String>,
    pub tags: Vec<Id<TagKind>>,
    pub start_date: Option<Timestamp>,
    pub due_date: Option<Timestamp>,
    pub children: Vec<ProjectSubElement>,
    pub dependencies: Vec<Id<ProjectKind>>,
    pub status: ProjectStatus,
}

impl Project {
    /// The finished project a builder describes.
    pub fn from_builder(builder: ProjectBuilder) -> (r: Project)
        ensures
            r.id == builder.id,
            r.name == builder.name,
            r.owner_id == builder.owner_id,
            r.description == builder.description,
            r.tags == builder.tags,
            r.start_date == builder.start_date,
            r.due_date == builder.due_date,
            r.children == builder.children,
            r.dependencies == builder.dependencies,
            r.status == builder.status,
    {
        Project {
            id: builder.id,
            name: builder.name,
            owner_id: builder.owner_id,
            description: builder.description,
            tags: builder.tags,
            start_date: builder.start_date,
            due_date: builder.due_date,
            children: builder.children,
            dependencies: builder.dependencies,
            status: builder.status,
        }
    }

    /// The children that are projects, in order.
    pub fn project_children(&self) -> (r: Vec<Id<ProjectKind>>)
        ensures
            r@ == project_refs(self.children@),
    {
        let mut r: Vec<Id<ProjectKind>> = Vec::new();
        let n = self.children.len();
        let mut j: usize = 0;
        while j < n
            invariant
                n == self.children@.len(),
                j <= n,
                r@ == project_refs(self.children@.take(j as int)),
            decreases n - j,
        {
            proof {
                assert(self.children@.take(j as int + 1).drop_last() =~= self.children@.take(
                    j as int,
                ));
                assert(self.children@.take(j as int + 1).last() == self.children@[j as int]);
            }
            match self.children[j] {
                SchedulableItem::Project(id) => {
                    r.push(id);
                    proof {
                        assert(r@ =~= project_refs(self.children@.take(j as int + 1)));
                    }
                },
                SchedulableItem::Task(_) => {
                    proof {
                        assert(r@ =~= project_refs(self.children@.take(j as int + 1)));
                    }
                },
            }
            j += 1;
        }
        proof {
            assert(self.children@.take(n as int) =~= self.children@);
        }
        r
    }

    /// The children that are tasks, in order.
    pub fn task_children(&self) -> (r: Vec<Id<TaskKind>>)
        ensures
            r@ == task_refs(self.children@),
    {
        let mut r: Vec<Id<TaskKind>> = Vec::new();
        let n = self.children.len();
        let mut j: usize = 0;
        while j < n
            invariant
                n == self.children@.len(),
                j <= n,
                r@ == task_refs(self.children@.take(j as int)),
            decreases n - j,
        {
            proof {
                assert(self.children@.take(j as int + 1).drop_last() =~= self.children@.take(
                    j as int,
                ));
                assert(self.children@.take(j as int + 1).last() == self.children@[j as int]);
            }
            match self.children[j] {
                SchedulableItem::Task(id) => {
                    r.push(id);
                    proof {
                        assert(r@ =~= task_refs(self.children@.take(j as int + 1)));
                    }
                },
                SchedulableItem::Project(_) => {
                    proof {
                        assert(r@ =~= task_refs(self.children@.take(j as int + 1)));
                    }
                },
            }
            j += 1;
        }
        proof {
            assert(self.children@.take(n as int) =~= self.children@);
        }
        r
    }

    /// True when the dependency list holds the identifier.
    pub fn has_dependency(&self, dependency_to_validate: &Id<ProjectKind>) -> (r: bool)
        ensures
            r == self.dependencies@.contains(*dependency_to_validate),
    {
        proof {
            crate::id::lemma_id_obeys_eq::<ProjectKind>();
        }
        vec_contains(&self.dependencies, dependency_to_validate)
    }

    /// Add a dependency; a self-reference is invalid and the add is a
    /// no-op.
    pub fn add_dependency(&mut self, project_id: Id<ProjectKind>)
        ensures
            *final(self) == (Project { dependencies: final(self).dependencies, ..*old(self) }),
            final(self).dependencies@ == add_step(
                old(self).dependencies@,
                project_id,
                crate::vecs::not_self_guard(old(self).id),
            ),
    {
        if self.is_valid_dependency(&project_id) {
            self.dependencies.push(project_id);
        }
    }

    /// Add each of the given dependencies in order, skipping
    /// self-references.
    pub fn add_dependencies(&mut self, project_ids: Vec<Id<ProjectKind>>)
        ensures
            *final(self) == (Project { dependencies: final(self).dependencies, ..*old(self) }),
            final(self).dependencies@ == fold_add(
                old(self).dependencies@,
                project_ids@,
                crate::vecs::not_self_guard(old(self).id),
            ),
    {
        let ghost keep = crate::vecs::not_self_guard::<Id<ProjectKind>>(self.id);
        let n = project_ids.len();
        let mut j: usize = 0;
        while j < n
            invariant
                n == project_ids@.len(),
                j <= n,
                *self == (Project { dependencies: self.dependencies, ..*old(self) }),
                keep == crate::vecs::not_self_guard::<Id<ProjectKind>>(old(self).id),
                self.dependencies@ == fold_add(
                    old(self).dependencies@,
                    project_ids@.take(j as int),
                    keep,
                ),
            decreases n - j,
        {
            self.add_dependency(project_ids[j]);
            proof {
                lemma_fold_add_snoc(old(self).dependencies@, project_ids@, keep, j as int);
            }
            j += 1;
        }
        proof {
            assert(project_ids@.take(n as int) =~= project_ids@);
        }
    }

    /// Remove a dependency; it must be present.
    pub fn remove_dependency(&mut self, dependency_project_id: Id<ProjectKind>)
        requires
            old(self).dependencies@.contains(dependency_project_id),
        ensures
            *final(self) == (Project { dependencies: final(self).dependencies, ..*old(self) }),
            final(self).dependencies@ == remove_first(
                old(self).dependencies@,
                dependency_project_id,
            ),
    {
        proof {
            crate::id::lemma_id_obeys_eq::<ProjectKind>();
        }
        vec_remove_first(&mut self.dependencies, &dependency_project_id);
    }

    /// Remove each of the given dependencies in order; each must be
    /// present when its turn comes.
    pub fn remove_dependencies(&mut self, dependency_project_ids: Vec<Id<ProjectKind>>)
        requires
            all_removable(old(self).dependencies@, dependency_project_ids@),
        ensures
            *final(self) == (Project { dependencies: final(self).dependencies, ..*old(self) }),
            final(self).dependencies@ == fold_remove(
                old(self).dependencies@,
                dependency_project_ids@,
            ),
    {
        let n = dependency_project_ids.len();
        let mut j: usize = 0;
        while j < n
            invariant
                n == dependency_project_ids@.len(),
                j <= n,
                *self == (Project { dependencies: self.dependencies, ..*old(self) }),
                all_removable(old(self).dependencies@, dependency_project_ids@),
                self.dependencies@ == fold_remove(
                    old(self).dependencies@,
                    dependency_project_ids@.take(j as int),
                ),
            decreases n - j,
        {
            proof {
                lemma_all_removable_prefix(
                    old(self).dependencies@,
                    dependency_project_ids@,
                    j as int,
                );
                lemma_fold_remove_snoc(
                    old(self).dependencies@,
                    dependency_project_ids@,
                    j as int,
                );
            }
            self.remove_dependency(dependency_project_ids[j]);
            j += 1;
        }
        proof {
            assert(dependency_project_ids@.take(n as int) =~= dependency_project_ids@);
        }
    }

    /// A dependency is valid when it is not the project itself.
    pub fn is_valid_dependency(&self, dependency_project_id: &Id<ProjectKind>) -> (r: bool)
        ensures
            r == (*dependency_project_id != self.id),
    {
        proof {
            crate::id::lemma_id_eq(*dependency_project_id, self.id);
        }
        !(dependency_project_id.token == self.id.token)
    }

    /// Whether the candidate due date is valid, judged at the given
    /// instant: with a start date set, the due date must not precede it;
    /// with none set, the due date must not precede `now`.
    pub fn is_valid_due_date_at(&self, due_date: Option<Timestamp>, now: Timestamp) -> (r: bool)
        ensures
            r == spec_valid_due_date(self.start_date, due_date, now),
    {
        match (self.start_date, due_date) {
            (Some(s), Some(d)) => s.millis <= d.millis,
            (None, Some(d)) => d.millis >= now.millis,
            _ => true,
        }
    }

    /// Set the due date, judged at the given instant; an invalid
    /// candidate leaves the project unchanged.
    pub fn set_due_date_at(&mut self, due_date: Timestamp, now: Timestamp)
        ensures
            *final(self) == (Project {
                due_date: if spec_valid_due_date(old(self).start_date, Some(due_date), now) {
                    Some(due_date)
                } else {
                    old(self).due_date
                },
                ..*old(self)
            }),
    {
        if self.is_valid_due_date_at(Some(due_date), now) {
            self.due_date = Some(due_date);
        }
    }
}

impl PartialEq for Project {
    /// Projects are compared field by field; strings by their characters
    /// and lists element by element.
    fn eq(&self, other: &Project) -> (r: bool)
    {
        proof {
            crate::id::lemma_id_obeys_eq::<ProjectKind>();
            crate::id::lemma_id_obeys_eq::<PersonKind>();
            crate::id::lemma_id_obeys_eq::<TagKind>();
            lemma_item_obeys_eq();
        }
        let ids_eq = self.id.token == other.id.token;
        let name_eq = self.name.eq(&other.name);
        let owner_eq = match (&self.owner_id, &other.owner_id) {
            (Some(a), Some(b)) => a.token == b.token,
            (None, None) => true,
            _ => false,
        };
        let desc_eq = match (&self.description, &other.description) {
            (Some(a), Some(b)) => a.eq(b),
            (None, None) => true,
            _ => false,
        };
        let tags_eq = vec_equal(&self.tags, &other.tags);
        let start_eq = match (&self.start_date, &other.start_date) {
            (Some(a), Some(b)) => a.millis == b.millis,
            (None, None) => true,
            _ => false,
        };
        let due_eq = match (&self.due_date, &other.due_date) {
            (Some(a), Some(b)) => a.millis == b.millis,
            (None, None) => true,
            _ => false,
        };
        let children_eq = vec_equal(&self.children, &other.children);
        let deps_eq = vec_equal(&self.dependencies, &other.dependencies);
        let status_eq = self.status == other.status;
        proof {
            crate::id::lemma_id_eq(self.id, other.id);
            if self.owner_id is Some && other.owner_id is Some {
                crate::id::lemma_id_eq(self.owner_id->Some_0, other.owner_id->Some_0);
            }
        }
        ids_eq && name_eq && owner_eq && desc_eq && tags_eq && start_eq && due_eq && children_eq
            && deps_eq && status_eq
    }
}

impl vstd::std_specs::cmp::PartialEqSpecImpl for Project {
    open spec fn obeys_eq_spec() -> bool {
        true
    }

    open spec fn eq_spec(&self, other: &Project) -> bool {
        &&& self.id == other.id
        &&& self.name@ == other.name@
        &&& self.owner_id == other.owner_id
        &&& match (self.description, other.description) {
            (Some(a), Some(b)) => a@ == b@,
            (None, None) => true,
            _ => false,
        }
        &&& self.tags@ == other.tags@
        &&& self.start_date == other.start_date
        &&& self.due_date == other.due_date
        &&& self.children@ == other.children@
        &&& self.dependencies@ == other.dependencies@
        &&& self.status == other.status
    }
}

impl HasId for Project {
    type Entity = ProjectKind;

    fn id(&self) -> (r: Id<ProjectKind>)
        ensures
            r == self.id,
    {
        self.id
    }
}

impl Schedulable for Project {
    type ChildType = ProjectSubElement;

    type DependencyType = Id<ProjectKind>;

    open spec fn can_remove_tags(&self, tags: Seq<Id<TagKind>>) -> bool {
        all_removable(self.tags@, tags)
    }

    open spec fn can_remove_child(&self, child: SchedulableItem) -> bool {
        self.children@.contains(child)
    }

    open spec fn can_remove_children(&self, children: Seq<SchedulableItem>) -> bool {
        all_removable(self.children@, children)
    }

    fn name(&self) -> (r: &str)
        ensures
            r@ == self.name@,
    {
        self.name.as_str()
    }

    fn owner_id(&self) -> (r: Option<Id<PersonKind>>)
        ensures
            r == self.owner_id,
    {
        self.owner_id
    }

    fn description(&self) -> (r: &str)
        ensures
            match self.description {
                Some(d) => r@ == d@,
                None => r@ == Seq::<char>::empty(),
            },
    {
        match &self.description {
            Some(d) => d.as_str(),
            None => {
                proof {
                    reveal_strlit("");
                    assert(""@ =~= Seq::<char>::empty());
                }
                ""
            },
        }
    }

    fn tags(&self) -> (r: Vec<Id<TagKind>>)
        ensures
            r@ == self.tags@,
    {
        copy_vec(&self.tags)
    }

    fn start_date(&self) -> (r: Option<Timestamp>)
        ensures
            r == self.start_date,
    {
        self.start_date
    }

    fn due_date(&self) -> (r: Option<Timestamp>)
        ensures
            r == self.due_date,
    {
        self.due_date
    }

    fn status(&self) -> (r: SchedulableItemStatus)
        ensures
            r == self.status,
    {
        self.status
    }

    fn children(&self) -> (r: Vec<ProjectSubElement>)
        ensures
            r@ == self.children@,
    {
        copy_vec(&self.children)
    }

    fn dependencies(&self) -> (r: Vec<Id<ProjectKind>>)
        ensures
            r@ == self.dependencies@,
    {
        copy_vec(&self.dependencies)
    }

    fn has_owner(&self) -> (r: bool)
        ensures
            r == self.owner_id.is_some(),
    {
        self.owner_id.is_some()
    }

    fn has_description(&self) -> (r: bool)
        ensures
            r == self.description.is_some(),
    {
        self.description.is_some()
    }

    fn has_tags(&self) -> (r: bool)
        ensures
            r == (self.tags@.len() > 0),
    {
        self.tags.len() > 0
    }

    fn has_start_date(&self) -> (r: bool)
        ensures
            r == self.start_date.is_some(),
    {
        self.start_date.is_some()
    }

    fn has_due_date(&self) -> (r: bool)
        ensures
            r == self.due_date.is_some(),
    {
        self.due_date.is_some()
    }

    fn has_child(&self, child_to_validate: &SchedulableItem) -> (r: bool)
        ensures
            r == self.children@.contains(*child_to_validate),
    {
        proof {
            lemma_item_obeys_eq();
        }
        vec_contains(&self.children, child_to_validate)
    }

    fn has_children(&self) -> (r: bool)
        ensures
            r == (self.children@.len() > 0),
    {
        self.children.len() > 0
    }

    fn has_dependencies(&self) -> (r: bool)
        ensures
            r == (self.dependencies@.len() > 0),
    {
        self.dependencies.len() > 0
    }

    fn rename(&mut self, name: &str)
        ensures
            *final(self) == (Project { name: final(self).name, ..*old(self) }),
            final(self).name@ == name@,
    {
        self.name = name.to_owned();
    }

    fn transfer_ownership(&mut self, owner_id: Id<PersonKind>)
        ensures
            *final(self) == (Project { owner_id: Some(owner_id), ..*old(self) }),
    {
        self.owner_id = Some(owner_id);
    }

    fn set_description(&mut self, description: &str)
        ensures
            *final(self) == (Project { description: final(self).description, ..*old(self) }),
            final(self).description matches Some(d) && d@ == description@,
    {
        self.description = Some(description.to_owned());
    }

    fn clear_description(&mut self)
        ensures
            *final(self) == (Project { description: None, ..*old(self) }),
    {
        self.description = None;
    }

    fn add_tag(&mut self, tag_id: Id<TagKind>)
        ensures
            *final(self) == (Project { tags: final(self).tags, ..*old(self) }),
            final(self).tags@ == add_step(old(self).tags@, tag_id, absent_guard()),
    {
        if self.is_valid_tag(&tag_id) {
            self.tags.push(tag_id);
        }
    }

    fn add_tags(&mut self, tags: Vec<Id<TagKind>>)
        ensures
            *final(self) == (Project { tags: final(self).tags, ..*old(self) }),
            final(self).tags@ == fold_add(old(self).tags@, tags@, absent_guard()),
    {
        let n = tags.len();
        let mut j: usize = 0;
        while j < n
            invariant
                n == tags@.len(),
                j <= n,
                *self == (Project { tags: self.tags, ..*old(self) }),
                self.tags@ == fold_add(
                    old(self).tags@,
                    tags@.take(j as int),
                    absent_guard::<Id<TagKind>>(),
                ),
            decreases n - j,
        {
            self.add_tag(tags[j]);
            proof {
                lemma_fold_add_snoc(
                    old(self).tags@,
                    tags@,
                    absent_guard::<Id<TagKind>>(),
                    j as int,
                );
            }
            j += 1;
        }
        proof {
            assert(tags@.take(n as int) =~= tags@);
        }
    }

    fn remove_tag(&mut self, tag: Id<TagKind>)
        ensures
            *final(self) == (Project { tags: final(self).tags, ..*old(self) }),
            final(self).tags@ == remove_first(old(self).tags@, tag),
    {
        proof {
            crate::id::lemma_id_obeys_eq::<TagKind>();
        }
        if vec_contains(&self.tags, &tag) {
            vec_remove_first(&mut self.tags, &tag);
        } else {
            proof {
                old(self).tags@.index_of_first_ensures(tag);
            }
        }
    }

    fn remove_tags(&mut self, tags: Vec<Id<TagKind>>)
        ensures
            *final(self) == (Project { tags: final(self).tags, ..*old(self) }),
            final(self).tags@ == fold_remove(old(self).tags@, tags@),
    {
        let n = tags.len();
        let mut j: usize = 0;
        while j < n
            invariant
                n == tags@.len(),
                j <= n,
                *self == (Project { tags: self.tags, ..*old(self) }),
                all_removable(old(self).tags@, tags@),
                self.tags@ == fold_remove(old(self).tags@, tags@.take(j as int)),
            decreases n - j,
        {
            proof {
                lemma_all_removable_prefix(old(self).tags@, tags@, j as int);
                lemma_fold_remove_snoc(old(self).tags@, tags@, j as int);
            }
            self.remove_tag(tags[j]);
            j += 1;
        }
        proof {
            assert(tags@.take(n as int) =~= tags@);
        }
    }

    fn remove_all_tags(&mut self)
        ensures
            *final(self) == (Project { tags: final(self).tags, ..*old(self) }),
            final(self).tags@.len() == 0,
    {
        self.tags.clear();
    }

    fn start_now(&mut self)
        ensures
            *final(self) == (Project { start_date: final(self).start_date, ..*old(self) }),
            exists|drawn: Timestamp| final(self).start_date == #[trigger] started_at(
                old(self).start_date,
                old(self).due_date,
                drawn,
            ),
            old(self).due_date is None ==> final(self).start_date is Some,
            old(self).start_date is Some ==> final(self).start_date is Some,
    {
        let now = clock::now();
        self.start_at_date(now);
        proof {
            assert(self.start_date == started_at(
                old(self).start_date,
                old(self).due_date,
                now,
            ));
        }
    }

    fn start_at_date(&mut self, start_date: Timestamp)
        ensures
            *final(self) == (Project {
                start_date: if spec_valid_start_date(Some(start_date), old(self).due_date) {
                    Some(start_date)
                } else {
                    old(self).start_date
                },
                ..*old(self)
            }),
    {
        if self.is_valid_start_date(Some(start_date)) {
            self.start_date = Some(start_date);
        }
    }

    fn remove_start_date(&mut self)
        ensures
            *final(self) == (Project { start_date: None, ..*old(self) }),
    {
        self.start_date = None;
    }

    fn set_due_date(&mut self, due_date: Timestamp)
        ensures
            *final(self) == (Project { due_date: final(self).due_date, ..*old(self) }),
            exists|drawn: Timestamp| final(self).due_date == #[trigger] due_set_at(
                old(self).start_date,
                old(self).due_date,
                due_date,
                drawn,
            ),
            old(self).start_date matches Some(s) ==> final(self).due_date == (
            if s.millis <= due_date.millis {
                Some(due_date)
            } else {
                old(self).due_date
            }),
            final(self).due_date == old(self).due_date || final(self).due_date == Some(due_date),
    {
        let now = clock::now();
        self.set_due_date_at(due_date, now);
        proof {
            assert(self.due_date == due_set_at(
                old(self).start_date,
                old(self).due_date,
                due_date,
                now,
            ));
        }
    }

    fn remove_due_date(&mut self)
        ensures
            *final(self) == (Project { due_date: None, ..*old(self) }),
    {
        self.due_date = None;
    }

    fn add_child(&mut self, child: SchedulableItem)
        ensures
            *final(self) == (Project { children: final(self).children, ..*old(self) }),
            final(self).children@ == add_step(
                old(self).children@,
                child,
                project_child_guard(old(self).id),
            ),
    {
        if self.is_valid_child(&child) {
            self.children.push(child);
        }
    }

    fn add_children(&mut self, children: Vec<SchedulableItem>)
        ensures
            *final(self) == (Project { children: final(self).children, ..*old(self) }),
            final(self).children@ == fold_add(
                old(self).children@,
                children@,
                project_child_guard(old(self).id),
            ),
    {
        let ghost keep = project_child_guard(self.id);
        let n = children.len();
        let mut j: usize = 0;
        while j < n
            invariant
                n == children@.len(),
                j <= n,
                *self == (Project { children: self.children, ..*old(self) }),
                keep == project_child_guard(old(self).id),
                self.children@ == fold_add(old(self).children@, children@.take(j as int), keep),
            decreases n - j,
        {
            self.add_child(children[j]);
            proof {
                lemma_fold_add_snoc(old(self).children@, children@, keep, j as int);
            }
            j += 1;
        }
        proof {
            assert(children@.take(n as int) =~= children@);
        }
    }

    fn remove_child(&mut self, child: SchedulableItem)
        ensures
            *final(self) == (Project { children: final(self).children, ..*old(self) }),
            final(self).children@ == remove_first(old(self).children@, child),
    {
        proof {
            lemma_item_obeys_eq();
        }
        vec_remove_first(&mut self.children, &child);
    }

    fn remove_children(&mut self, children: Vec<SchedulableItem>)
        ensures
            *final(self) == (Project { children: final(self).children, ..*old(self) }),
            final(self).children@ == fold_remove(old(self).children@, children@),
    {
        let n = children.len();
        let mut j: usize = 0;
        while j < n
            invariant
                n == children@.len(),
                j <= n,
                *self == (Project { children: self.children, ..*old(self) }),
                all_removable(old(self).children@, children@),
                self.children@ == fold_remove(old(self).children@, children@.take(j as int)),
            decreases n - j,
        {
            proof {
                lemma_all_removable_prefix(old(self).children@, children@, j as int);
                lemma_fold_remove_snoc(old(self).children@, children@, j as int);
            }
            self.remove_child(children[j]);
            j += 1;
        }
        proof {
            assert(children@.take(n as int) =~= children@);
        }
    }

    fn remove_all_children(&mut self)
        ensures
            *final(self) == (Project { children: final(self).children, ..*old(self) }),
            final(self).children@.len() == 0,
    {
        self.children.clear();
    }

    fn remove_all_dependencies(&mut self)
        ensures
            *final(self) == (Project { dependencies: final(self).dependencies, ..*old(self) }),
            final(self).dependencies@.len() == 0,
    {
        self.dependencies.clear();
    }

    fn promote(&mut self)
        ensures
            *final(self) == (Project { status: promote_spec(old(self).status), ..*old(self) }),
    {
        match self.status {
            SchedulableItemStatus::NotStarted => self.status = SchedulableItemStatus::Planned,
            SchedulableItemStatus::Planned => self.status = SchedulableItemStatus::InProgress,
            SchedulableItemStatus::InProgress => self.status = SchedulableItemStatus::InReview,
            SchedulableItemStatus::InReview => self.status = SchedulableItemStatus::Completed,
            _ => (),
        }
    }

    fn demote(&mut self)
        ensures
            *final(self) == (Project { status: demote_spec(old(self).status), ..*old(self) }),
    {
        match self.status {
            SchedulableItemStatus::InReview => self.status = SchedulableItemStatus::InProgress,
            SchedulableItemStatus::InProgress => self.status = SchedulableItemStatus::Planned,
            SchedulableItemStatus::Planned => self.status = SchedulableItemStatus::NotStarted,
            _ => (),
        }
    }

    fn archive(&mut self)
        ensures
            *final(self) == (Project { status: archive_spec(old(self).status), ..*old(self) }),
    {
        if !(self.status == SchedulableItemStatus::Archived) {
            self.status = SchedulableItemStatus::Archived;
        }
    }

    fn cancel(&mut self)
        ensures
            *final(self) == (Project { status: cancel_spec(old(self).status), ..*old(self) }),
    {
        match self.status {
            SchedulableItemStatus::Archived => (),
            SchedulableItemStatus::Completed => (),
            _ => {
                self.status = SchedulableItemStatus::Canceled;
            },
        }
    }

    /// A tag is valid when it is not already present.
    fn is_valid_tag(&self, tag_id: &Id<TagKind>) -> (r: bool)
        ensures
            r == !self.tags@.contains(*tag_id),
    {
        proof {
            crate::id::lemma_id_obeys_eq::<TagKind>();
        }
        !vec_contains(&self.tags, tag_id)
    }

    fn is_valid_start_date(&self, start_date: Option<Timestamp>) -> (r: bool)
        ensures
            r == spec_valid_start_date(start_date, self.due_date),
    {
        match (start_date, self.due_date) {
            (Some(s), Some(d)) => s.millis <= d.millis,
            _ => true,
        }
    }

    /// Whether the candidate due date is valid; with no start date set
    /// the answer consults the current time, so only the clock-free cases
    /// are pinned down here (see `is_valid_due_date_at`).
    fn is_valid_due_date(&self, due_date: Option<Timestamp>) -> (r: bool)
        ensures
            exists|drawn: Timestamp| r == #[trigger] spec_valid_due_date(
                self.start_date,
                due_date,
                drawn,
            ),
            match (self.start_date, due_date) {
                (Some(s), Some(d)) => r == (s.millis <= d.millis),
                (_, None) => r == true,
                _ => true,
            },
    {
        let now = clock::now();
        self.is_valid_due_date_at(due_date, now)
    }

    /// A child is valid unless it is a project reference to the project
    /// itself.
    fn is_valid_child(&self, child_to_validate: &SchedulableItem) -> (r: bool)
        ensures
            r == match *child_to_validate {
                SchedulableItem::Project(id) => id != self.id,
                SchedulableItem::Task(_) => true,
            },
    {
        match child_to_validate {
            SchedulableItem::Project(child_project_id) => {
                proof {
                    crate::id::lemma_id_eq(*child_project_id, self.id);
                }
                !(child_project_id.token == self.id.token)
            },
            SchedulableItem::Task(_) => true,
        }
    }
}

} // verus!
