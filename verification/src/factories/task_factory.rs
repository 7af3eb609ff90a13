//! Sample tasks.

use vstd::prelude::*;
use crate::builders::task_builder::TaskBuilder;
use crate::clock::{self, MILLIS_PER_DAY};
use crate::factories::person_factory::sample_person;
use crate::factories::tag_factory::sample_tags_list;
use crate::id::Id;
use crate::status::SchedulableItemStatus;
use crate::task::Task;
use crate::{HasId, TaskKind};

verus! {

/// A task with default values.
pub fn basic_task() -> (r: Task)
    ensures
        r.name@ == Seq::<char>::empty(),
        r.status == SchedulableItemStatus::NotStarted,
{
    TaskBuilder::new().build()
}

/// A task with a sample name and description.
pub fn sample_task() -> (r: Task)
    ensures
        r.name@ == "This is a sample task"@,
        r.status == SchedulableItemStatus::NotStarted,
        r.tags@.len() == 0,
        r.children@.len() == 0,
        r.dependencies@.len() == 0,
        r.start_date is None,
        r.due_date is None,
        r.owner_id is None,
{
    TaskBuilder::new().with_name("This is a sample task").with_description(
        "This is a sample task",
    ).build()
}

/// The identifiers of three fresh sample tasks.
pub fn sample_tasks_list() -> (r: Vec<Id<TaskKind>>)
    ensures
        r@.len() == 3,
{
    let task_1 = sample_task();
    let task_2 = sample_task();
    let task_3 = sample_task();
    let mut r: Vec<Id<TaskKind>> = Vec::new();
    r.push(task_1.id());
    r.push(task_2.id());
    r.push(task_3.id());
    r
}

/// A task owned by a sample person.
pub fn sample_task_with_owner() -> (r: Task)
    ensures
        r.owner_id is Some,
{
    let owner = sample_person();
    TaskBuilder::new().with_owner_id(owner.id()).build()
}

/// A task carrying three sample tags.
pub fn sample_task_with_tags() -> (r: Task)
    ensures
        r.tags@.len() == 3,
{
    let tags = sample_tags_list();
    TaskBuilder::new().with_tags(tags).build()
}

/// A task due a day from now.
pub fn sample_task_with_due_date() -> (r: Task)
    ensures
        r.due_date is Some,
{
    let due_date = clock::now().offset(MILLIS_PER_DAY);
    TaskBuilder::new().with_due_date(Some(due_date)).build()
}

/// A task with three sample child tasks.
pub fn sample_task_with_children() -> (r: Task)
    ensures
        r.children@.len() == 3,
{
    let children = sample_tasks_list();
    TaskBuilder::new().with_children(children).build()
}

/// A task depending on one sample task.
pub fn sample_task_with_dependencies() -> (r: Task)
    ensures
        r.dependencies@.len() == 1,
{
    let dependency = sample_task();
    let mut deps: Vec<Id<TaskKind>> = Vec::new();
    deps.push(dependency.id());
    TaskBuilder::new().with_dependencies(deps).build()
}

pub fn sample_planned_task() -> (r: Task)
    ensures
        r.status == SchedulableItemStatus::Planned,
{
    TaskBuilder::new().with_status(SchedulableItemStatus::Planned).build()
}

pub fn sample_in_progress_task() -> (r: Task)
    ensures
        r.status == SchedulableItemStatus::InProgress,
{
    TaskBuilder::new().with_status(SchedulableItemStatus::InProgress).build()
}

pub fn sample_in_review_task() -> (r: Task)
    ensures
        r.status == SchedulableItemStatus::InReview,
{
    TaskBuilder::new().with_status(SchedulableItemStatus::InReview).build()
}

pub fn sample_completed_task() -> (r: Task)
    ensures
        r.status == SchedulableItemStatus::Completed,
{
    TaskBuilder::new().with_status(SchedulableItemStatus::Completed).build()
}

pub fn sample_archived_task() -> (r: Task)
    ensures
        r.status == SchedulableItemStatus::Archived,
{
    TaskBuilder::new().with_status(SchedulableItemStatus::Archived).build()
}

pub fn sample_canceled_task() -> (r: Task)
    ensures
        r.status == SchedulableItemStatus::Canceled,
{
    TaskBuilder::new().with_status(SchedulableItemStatus::Canceled).build()
}

/// A task starting and due a day from now.
pub fn sample_scheduled_task() -> (r: Task)
    ensures
        r.start_date is Some,
        r.due_date is Some,
{
    let start_date = clock::now().offset(MILLIS_PER_DAY);
    let due_date = start_date;
    TaskBuilder::new().with_start_date(Some(start_date)).with_due_date(Some(due_date)).build()
}

/// A fully populated task, as a stand-in wire payload.
pub fn sample_task_for_dto() -> (r: Task)
    ensures
        r.owner_id is Some,
        r.start_date is Some,
        r.due_date is Some,
        r.tags@.len() == 3,
        r.children@.len() == 3,
        r.dependencies@.len() == 3,
{
    let now = clock::now();
    TaskBuilder::new().with_name("This is a sample task").with_owner_id(
        sample_person().id(),
    ).with_description("This is a sample DTO task").with_start_date(Some(now)).with_due_date(
        Some(now.offset(30 * MILLIS_PER_DAY)),
    ).with_tags(sample_tags_list()).with_children(sample_tasks_list()).with_dependencies(
        sample_tasks_list(),
    ).build()
}

} // verus!
