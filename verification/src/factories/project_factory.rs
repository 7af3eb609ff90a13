//! Sample projects.

use vstd::prelude::*;
use crate::builders::project_builder::ProjectBuilder;
use crate::clock::{self, MILLIS_PER_DAY};
use crate::factories::person_factory::sample_person;
use crate::factories::tag_factory::sample_tags_list;
use crate::factories::task_factory::sample_task;
use crate::project::Project;
use crate::schedulable::SchedulableItem;
use crate::status::SchedulableItemStatus;
use crate::HasId;

verus! {

/// A project with default values.
pub fn basic_project() -> (r: Project)
    ensures
        r.name@ == Seq::<char>::empty(),
        r.status == SchedulableItemStatus::NotStarted,
{
    ProjectBuilder::new().build()
}

/// A project with a sample title.
pub fn sample_project() -> (r: Project)
    ensures
        r.name@ == "This is a sample project title"@,
        r.status == SchedulableItemStatus::NotStarted,
        r.tags@.len() == 0,
        r.children@.len() == 0,
        r.dependencies@.len() == 0,
        r.start_date is None,
        r.due_date is None,
        r.owner_id is None,
{
    ProjectBuilder::new().with_name("This is a sample project title").build()
}

/// Three fresh sample projects as child references.
pub fn sample_projects_list() -> (r: Vec<SchedulableItem>)
    ensures
        r@.len() == 3,
        forall|i: int| 0 <= i < r@.len() ==> r@[i] is Project,
{
    let project1 = sample_project();
    let project2 = sample_project();
    let project3 = sample_project();
    let mut r: Vec<SchedulableItem> = Vec::new();
    r.push(SchedulableItem::Project(project1.id()));
    r.push(SchedulableItem::Project(project2.id()));
    r.push(SchedulableItem::Project(project3.id()));
    r
}

/// A project carrying three sample tags.
pub fn sample_project_with_tags() -> (r: Project)
    ensures
        r.tags@.len() == 3,
{
    let tags = sample_tags_list();
    ProjectBuilder::new().with_name("Sample Project with Tags").with_tags(tags).build()
}

/// A project due a day from now.
pub fn sample_project_with_due_date() -> (r: Project)
    ensures
        r.due_date is Some,
{
    let due_date = Some(clock::now().offset(MILLIS_PER_DAY));
    ProjectBuilder::new().with_due_date(due_date).build()
}

/// A project with three sample child projects.
pub fn sample_project_with_child_projects() -> (r: Project)
    ensures
        r.children@.len() == 3,
{
    let children = sample_projects_list();
    ProjectBuilder::new().with_children(children).build()
}

/// A project with three child projects and three child tasks.
pub fn sample_project_with_child_projects_and_tasks() -> (r: Project)
    ensures
        r.children@.len() == 6,
{
    let sub_project_1 = sample_project();
    let sub_project_2 = sample_project();
    let sub_project_3 = sample_project();
    let child_task_1 = sample_task();
    let child_task_2 = sample_task();
    let child_task_3 = sample_task();
    let mut children: Vec<SchedulableItem> = Vec::new();
    children.push(SchedulableItem::Project(sub_project_1.id()));
    children.push(SchedulableItem::Project(sub_project_2.id()));
    children.push(SchedulableItem::Project(sub_project_3.id()));
    children.push(SchedulableItem::Task(child_task_1.id()));
    children.push(SchedulableItem::Task(child_task_2.id()));
    children.push(SchedulableItem::Task(child_task_3.id()));
    ProjectBuilder::new().with_children(children).build()
}

pub fn sample_planned_project() -> (r: Project)
    ensures
        r.status == SchedulableItemStatus::Planned,
{
    ProjectBuilder::new().with_status(SchedulableItemStatus::Planned).build()
}

pub fn sample_in_progress_project() -> (r: Project)
    ensures
        r.status == SchedulableItemStatus::InProgress,
{
    ProjectBuilder::new().with_status(SchedulableItemStatus::InProgress).build()
}

pub fn sample_in_review_project() -> (r: Project)
    ensures
        r.status == SchedulableItemStatus::InReview,
{
    ProjectBuilder::new().with_status(SchedulableItemStatus::InReview).build()
}

pub fn sample_completed_project() -> (r: Project)
    ensures
        r.status == SchedulableItemStatus::Completed,
{
    ProjectBuilder::new().with_status(SchedulableItemStatus::Completed).build()
}

pub fn sample_archived_project() -> (r: Project)
    ensures
        r.status == SchedulableItemStatus::Archived,
{
    ProjectBuilder::new().with_status(SchedulableItemStatus::Archived).build()
}

pub fn sample_canceled_project() -> (r: Project)
    ensures
        r.status == SchedulableItemStatus::Canceled,
{
    ProjectBuilder::new().with_status(SchedulableItemStatus::Canceled).build()
}

/// A project depending on one sample project.
pub fn sample_project_with_dependencies() -> (r: Project)
    ensures
        r.dependencies@.len() == 1,
{
    let dependency = sample_project();
    let mut deps = Vec::new();
    deps.push(dependency.id());
    ProjectBuilder::new().with_dependencies(deps).build()
}

/// A fully populated project, as a stand-in wire payload.
pub fn sample_project_for_dto() -> (r: Project)
    ensures
        r.owner_id is Some,
        r.start_date is Some,
        r.due_date is Some,
        r.tags@.len() == 3,
        r.children@.len() == 3,
{
    let now = clock::now();
    ProjectBuilder::new().with_name("DTO Project").with_owner_id(
        sample_person().id(),
    ).with_description("This is a sample DTO project").with_start_date(Some(now)).with_due_date(
        Some(now.offset(30 * MILLIS_PER_DAY)),
    ).with_tags(sample_tags_list()).with_children(sample_projects_list()).build()
}

} // verus!
