//! The schedulable capability: the uniform get/set/validate surface that
//! projects and tasks share.
//!
//! The two kinds differ only in the concrete type of their children and
//! dependencies: a project's child is either a project or a task (a tagged
//! union), a task's children and both kinds' dependencies are same-kind
//! identifiers.

use vstd::prelude::*;
use crate::clock::Timestamp;
use crate::id::Id;
use crate::status::SchedulableItemStatus;
use crate::{PersonKind, ProjectKind, TagKind, TaskKind};

verus! {

/// A reference to a child entity: either a project or a task.
#[derive(Clone, Copy, Debug)]
pub enum SchedulableItem {
    Project(Id<ProjectKind>),
    Task(Id<TaskKind>),
}

/// A project's child element; the same tagged union.
pub type ProjectSubElement = SchedulableItem;

impl PartialEq for SchedulableItem {
    fn eq(&self, other: &SchedulableItem) -> (r: bool)
    {
        match (self, other) {
            (SchedulableItem::Project(a), SchedulableItem::Project(b)) => a.token == b.token,
            (SchedulableItem::Task(a), SchedulableItem::Task(b)) => a.token == b.token,
            _ => false,
        }
    }
}

impl vstd::std_specs::cmp::PartialEqSpecImpl for SchedulableItem {
    open spec fn obeys_eq_spec() -> bool {
        true
    }

    open spec fn eq_spec(&self, other: &SchedulableItem) -> bool {
        match (*self, *other) {
            (SchedulableItem::Project(a), SchedulableItem::Project(b)) => a.token == b.token,
            (SchedulableItem::Task(a), SchedulableItem::Task(b)) => a.token == b.token,
            _ => false,
        }
    }
}

/// The executable `==` of child references agrees with mathematical
/// equality.
pub proof fn lemma_item_obeys_eq()
    ensures
        crate::vecs::eq_is_spec_eq::<SchedulableItem>(),
{
    assert forall|a: SchedulableItem, b: SchedulableItem| #[trigger]
        vstd::std_specs::cmp::PartialEqSpec::eq_spec(&a, &b) <==> a == b by {
        match (a, b) {
            (SchedulableItem::Project(x), SchedulableItem::Project(y)) => {
                crate::id::lemma_id_eq(x, y);
            },
            (SchedulableItem::Task(x), SchedulableItem::Task(y)) => {
                crate::id::lemma_id_eq(x, y);
            },
            _ => {},
        }
    }
}

/// A candidate start date is valid when no due date is set, or when it
/// does not fall after the due date. Clearing the start date (a `None`
/// candidate) is always valid.
pub open spec fn spec_valid_start_date(start: Option<Timestamp>, due: Option<Timestamp>) -> bool {
    match (start, due) {
        (Some(s), Some(d)) => s.millis <= d.millis,
        _ => true,
    }
}

/// A candidate due date is valid when a start date is set and does not
/// fall after it; with no start date set, the due date must not lie in the
/// past of `now`. Clearing the due date (a `None` candidate) is always
/// valid.
pub open spec fn spec_valid_due_date(
    start: Option<Timestamp>,
    due: Option<Timestamp>,
    now: Timestamp,
) -> bool {
    match (start, due) {
        (Some(s), Some(d)) => s.millis <= d.millis,
        (None, Some(d)) => d.millis >= now.millis,
        _ => true,
    }
}

/// The start date after an attempt to start at `drawn`: `drawn` when it
/// is valid against the set due date, else the start date unchanged.
pub open spec fn started_at(
    start: Option<Timestamp>,
    due: Option<Timestamp>,
    drawn: Timestamp,
) -> Option<Timestamp> {
    if spec_valid_start_date(Some(drawn), due) {
        Some(drawn)
    } else {
        start
    }
}

/// The due date after an attempt to set `candidate`, judged at `drawn`:
/// `candidate` when it is valid, else the due date unchanged.
pub open spec fn due_set_at(
    start: Option<Timestamp>,
    due: Option<Timestamp>,
    candidate: Timestamp,
    drawn: Timestamp,
) -> Option<Timestamp> {
    if spec_valid_due_date(start, Some(candidate), drawn) {
        Some(candidate)
    } else {
        due
    }
}

/// Schedule ordering: whenever the due date would fall strictly before
/// the start date, the pair is rejected from both sides — such a due date
/// is invalid against the set start date, and such a start date is
/// invalid against the set due date, whatever instant the check runs at.
pub proof fn lemma_schedule_ordering(start: Timestamp, due: Timestamp, now: Timestamp)
    requires
        due.millis < start.millis,
    ensures
        !spec_valid_due_date(Some(start), Some(due), now),
        !spec_valid_start_date(Some(start), Some(due)),
{
}

/// The shared operation surface of projects and tasks.
///
/// The contracts live on the two implementations, which Verus holds to
/// them; generic callers see the bare signatures. The `can_remove_*` spec
/// members guard the fail-fast removals: removing an absent element is a
/// caller error, so each implementation states when a removal is in
/// bounds and the removal methods require it.
pub trait Schedulable {
    type ChildType;

    type DependencyType;

    /// Whether these tags can be removed, each in turn.
    spec fn can_remove_tags(&self, tags: Seq<Id<TagKind>>) -> bool;

    /// Whether this child can be removed.
    spec fn can_remove_child(&self, child: SchedulableItem) -> bool;

    /// Whether these children can be removed, each in turn.
    spec fn can_remove_children(&self, children: Seq<SchedulableItem>) -> bool;

    fn name(&self) -> &str;

    fn owner_id(&self) -> Option<Id<PersonKind>>;

    fn description(&self) -> &str;

    fn tags(&self) -> Vec<Id<TagKind>>;

    fn start_date(&self) -> Option<Timestamp>;

    fn due_date(&self) -> Option<Timestamp>;

    fn status(&self) -> SchedulableItemStatus;

    fn children(&self) -> Vec<Self::ChildType>;

    fn dependencies(&self) -> Vec<Self::DependencyType>;

    fn has_owner(&self) -> bool;

    fn has_description(&self) -> bool;

    fn has_tags(&self) -> bool;

    fn has_start_date(&self) -> bool;

    fn has_due_date(&self) -> bool;

    fn has_child(&self, child_to_validate: &SchedulableItem) -> bool;

    fn has_children(&self) -> bool;

    fn has_dependencies(&self) -> bool;

    fn rename(&mut self, name: &str);

    fn transfer_ownership(&mut self, owner_id: Id<PersonKind>);

    fn set_description(&mut self, description: &str);

    fn clear_description(&mut self);

    fn add_tag(&mut self, tag_id: Id<TagKind>);

    fn add_tags(&mut self, tags: Vec<Id<TagKind>>);

    fn remove_tag(&mut self, tag: Id<TagKind>);

    fn remove_tags(&mut self, tags: Vec<Id<TagKind>>)
        requires
            old(self).can_remove_tags(tags@),
    ;

    fn remove_all_tags(&mut self);

    /// Set the start date to the current time, subject to the same check
    /// as `start_at_date`.
    fn start_now(&mut self);

    /// Set the start date; an invalid candidate leaves the entity
    /// unchanged.
    fn start_at_date(&mut self, start_date: Timestamp);

    fn remove_start_date(&mut self);

    /// Set the due date; an invalid candidate leaves the entity
    /// unchanged.
    fn set_due_date(&mut self, due_date: Timestamp);

    fn remove_due_date(&mut self);

    fn add_child(&mut self, child: SchedulableItem);

    fn add_children(&mut self, children: Vec<SchedulableItem>);

    fn remove_child(&mut self, child: SchedulableItem)
        requires
            old(self).can_remove_child(child),
    ;

    fn remove_children(&mut self, children: Vec<SchedulableItem>)
        requires
            old(self).can_remove_children(children@),
    ;

    fn remove_all_children(&mut self);

    fn remove_all_dependencies(&mut self);

    fn promote(&mut self);

    fn demote(&mut self);

    fn archive(&mut self);

    fn cancel(&mut self);

    fn is_valid_tag(&self, tag_id: &Id<TagKind>) -> bool;

    fn is_valid_start_date(&self, start_date: Option<Timestamp>) -> bool;

    fn is_valid_due_date(&self, due_date: Option<Timestamp>) -> bool;

    fn is_valid_child(&self, child_to_validate: &SchedulableItem) -> bool;
}

} // verus!
