use chrono::{Duration, Utc};
use project_tracker::builders::task_builder::TaskBuilder;
use project_tracker::clock::Timestamp;
use project_tracker::factories::task_factory::{
    sample_archived_task, sample_canceled_task, sample_completed_task, sample_in_progress_task,
    sample_in_review_task, sample_planned_task, sample_task, sample_task_with_children,
    sample_task_with_dependencies, sample_task_with_due_date, sample_task_with_tags,
};
use project_tracker::person::Person;
use project_tracker::schedulable::{Schedulable, SchedulableItem};
use project_tracker::status::ProjectStatus;
use project_tracker::tag::Tag;
use project_tracker::HasId;

fn ts(d: chrono::DateTime<Utc>) -> Timestamp {
    Timestamp::from_millis(d.timestamp_millis())
}

#[test]
fn create_task() {
    let task = TaskBuilder::new().with_name("This is a sample project title").build();
    assert_eq!(task.name(), "This is a sample project title");
}

#[test]
fn rename_task() {
    let name = "Sample";
    let mut task = sample_task();
    task.rename(name);
    assert_eq!(task.name(), name);
}

#[test]
fn create_task_id() {
    let task = sample_task();
    let task_id = task.id().to_string();
    assert!(task_id.starts_with("task-"));
}

#[test]
fn assign_task_owner() {
    let owner = Person::new("Test", "McTesty");
    let task = TaskBuilder::new().with_owner_id(owner.id()).build();
    assert!(task.has_owner());
    assert_eq!(task.owner_id().unwrap().clone(), owner.id());
}

#[test]
fn transfer_task_ownership() {
    let owner_new = Person::new("Newbie", "McNewsy");
    let mut task = sample_task();
    task.transfer_ownership(owner_new.id());
    assert!(task.has_owner());
    assert_eq!(task.owner_id().unwrap().clone(), owner_new.id());
}

#[test]
fn create_task_with_description() {
    let description = "This is a sample description";
    let task = TaskBuilder::new().with_description(description).build();
    assert!(task.has_description());
    assert_eq!(task.description(), description);
}

#[test]
fn clear_task_description() {
    let description = "This is a sample description";
    let mut task = TaskBuilder::new().with_description(description).build();
    task.clear_description();
    assert!(!task.has_description());
    assert_eq!(task.description(), "");
}

#[test]
fn task_tests_add_tag() {
    let test_tag = Tag::new("TestTag");
    let mut task = sample_task();
    task.add_tag(test_tag.id());
    assert!(task.has_tags());
    assert!(task.tags().contains(&test_tag.id().clone()));
}

#[test]
fn task_tests_add_multiple_tags() {
    let test_tag_1 = Tag::new("TestTag1");
    let test_tag_2 = Tag::new("TestTag2");
    let test_tag_3 = Tag::new("TestTag3");
    let test_tags = vec![test_tag_1.id(), test_tag_2.id(), test_tag_3.id()];
    let mut task = sample_task();
    task.add_tags(test_tags.clone());
    assert!(task.has_tags());
    for tag in test_tags {
        assert!(task.tags().contains(&tag.clone()));
    }
}

#[test]
fn task_tests_clear_tags() {
    let mut task = sample_task_with_tags();
    assert!(task.has_tags());
    task.remove_all_tags();
    assert!(!task.has_tags());
}

#[test]
fn task_tests_remove_tag() {
    let test_tag = Tag::new("TestTag");
    let mut task = TaskBuilder::new().with_tags(vec![test_tag.id()]).build();
    assert!(task.has_tags());
    task.remove_tag(test_tag.id());
    assert!(!task.has_tags());
}

#[test]
fn task_tests_remove_multiple_tags() {
    let test_tag_1 = Tag::new("TestTag1");
    let test_tag_2 = Tag::new("TestTag2");
    let test_tag_3 = Tag::new("TestTag3");
    let test_tags = vec![test_tag_1.id(), test_tag_2.id(), test_tag_3.id()];
    let test_tags_to_remove = vec![test_tag_1.id(), test_tag_2.id()];
    let mut task = TaskBuilder::new().with_tags(test_tags.clone()).build();
    for tag in test_tags {
        assert!(task.tags().contains(&tag.clone()));
    }
    task.remove_tags(test_tags_to_remove.clone());
    assert!(task.has_tags());
    for tag in test_tags_to_remove {
        assert!(!task.tags().contains(&tag.clone()));
    }
    assert!(task.tags().contains(&test_tag_3.id().clone()));
}

#[test]
fn create_task_with_start_now() {
    let before = Utc::now().timestamp_millis();
    let mut task = TaskBuilder::new().build();
    task.start_now();
    let after = Utc::now().timestamp_millis();
    assert!(task.has_start_date());
    let start = task.start_date().unwrap().millis();
    assert!(before <= start && start <= after);
}

#[test]
fn create_task_with_start_tomorrow() {
    let now = Utc::now();
    let tomorrow = now + Duration::days(1);
    let mut task = TaskBuilder::new().build();
    task.start_at_date(ts(tomorrow));
    assert!(task.has_start_date());
    assert_eq!(tomorrow.timestamp_millis(), task.start_date().unwrap().millis());
}

#[test]
fn create_task_with_start_yesterday() {
    let now = Utc::now();
    let yesterday = now - Duration::days(1);
    let mut task = TaskBuilder::new().build();
    task.start_at_date(ts(yesterday));
    assert!(task.has_start_date());
    assert_eq!(yesterday.timestamp_millis(), task.start_date().unwrap().millis());
}

#[test]
fn task_tests_remove_start_date() {
    let mut task = TaskBuilder::new().with_star_date(ts(Utc::now())).build();
    assert!(task.has_start_date());
    task.remove_start_date();
    assert!(!task.has_start_date());
}

#[test]
fn task_tests_set_due_date_tomorrow() {
    let mut task = sample_task();
    let mut due_date = Utc::now();
    due_date += Duration::days(1);
    assert!(!task.has_due_date());
    task.set_due_date(ts(due_date));
    assert!(task.has_due_date());
    assert_eq!(due_date.timestamp_millis(), task.due_date().unwrap().millis());
}

#[test]
fn task_tests_set_due_date_yesterday() {
    let mut task = sample_task();
    let mut due_date = Utc::now();
    due_date -= Duration::days(1);
    assert!(!task.has_due_date());
    assert!(!task.is_valid_due_date(Some(ts(due_date))));
    task.set_due_date(ts(due_date));
    assert!(!task.has_due_date());
}

#[test]
fn task_tests_remove_due_date() {
    let mut task = sample_task_with_due_date();
    assert!(task.has_due_date());
    task.remove_due_date();
    assert!(!task.has_due_date());
}

#[test]
fn task_tests_promote_from_not_started() {
    let mut task = sample_task();
    task.promote();
    assert!(task.status() == ProjectStatus::Planned);
}

#[test]
fn task_tests_demote_from_not_started() {
    let mut task = sample_task();
    task.demote();
    assert!(task.status() == ProjectStatus::NotStarted);
}

#[test]
fn task_tests_promote_from_planned() {
    let mut task = sample_planned_task();
    task.promote();
    assert!(task.status() == ProjectStatus::InProgress);
}

#[test]
fn task_tests_demote_from_planned() {
    let mut task = sample_planned_task();
    task.demote();
    assert!(task.status() == ProjectStatus::NotStarted);
}

#[test]
fn task_tests_promote_from_in_progress() {
    let mut task = sample_in_progress_task();
    task.promote();
    assert!(task.status() == ProjectStatus::InReview);
}

#[test]
fn task_tests_demote_from_in_progress() {
    let mut task = sample_in_progress_task();
    task.demote();
    assert!(task.status() == ProjectStatus::Planned);
}

#[test]
fn task_tests_promote_from_in_review() {
    let mut task = sample_in_review_task();
    task.promote();
    assert!(task.status() == ProjectStatus::Completed);
}

#[test]
fn task_tests_demote_from_in_review() {
    let mut task = sample_in_review_task();
    task.demote();
    assert!(task.status() == ProjectStatus::InProgress);
}

#[test]
fn task_tests_promote_from_completed() {
    let mut task = sample_completed_task();
    task.promote();
    assert!(task.status() == ProjectStatus::Completed);
}

#[test]
fn task_tests_demote_from_completed() {
    let mut task = sample_completed_task();
    task.demote();
    assert!(task.status() == ProjectStatus::Completed);
}

#[test]
fn task_tests_archive() {
    let mut task = sample_task();
    task.archive();
    assert!(task.status() == ProjectStatus::Archived);
    let mut task = sample_planned_task();
    task.archive();
    assert!(task.status() == ProjectStatus::Archived);
    let mut task = sample_in_progress_task();
    task.archive();
    assert!(task.status() == ProjectStatus::Archived);
    let mut task = sample_in_review_task();
    task.archive();
    assert!(task.status() == ProjectStatus::Archived);
    let mut task = sample_completed_task();
    task.archive();
    assert!(task.status() == ProjectStatus::Archived);
    let mut task = sample_canceled_task();
    task.archive();
    assert!(task.status() == ProjectStatus::Archived);
}

#[test]
fn task_tests_promote_from_archived() {
    let mut task = sample_archived_task();
    task.promote();
    assert!(task.status() == ProjectStatus::Archived);
}

#[test]
fn task_tests_demote_from_archived() {
    let mut task = sample_archived_task();
    task.demote();
    assert!(task.status() == ProjectStatus::Archived);
}

#[test]
fn task_tests_cancel() {
    let mut task = sample_task();
    task.cancel();
    assert!(task.status() == ProjectStatus::Canceled);
}

#[test]
fn task_tests_cancel_archived_project() {
    let mut task = sample_archived_task();
    task.cancel();
    assert!(task.status() == ProjectStatus::Archived);
}

#[test]
fn task_tests_promote_from_canceled() {
    let mut task = sample_canceled_task();
    task.promote();
    assert!(task.status() == ProjectStatus::Canceled);
}

#[test]
fn task_tests_demote_from_canceled() {
    let mut task = sample_canceled_task();
    task.demote();
    assert!(task.status() == ProjectStatus::Canceled);
}

#[test]
fn add_child_task() {
    let mut task = sample_task();
    let child_task = sample_task();
    task.add_child(SchedulableItem::Task(child_task.id()));
    assert!(task.has_children());
    assert!(task.children().len() == 1);
}

#[test]
fn add_multiple_child_tasks() {
    let mut task = sample_task();
    let child_task_1 = sample_task();
    let child_task_2 = sample_task();
    let child_task_3 = sample_task();
    let children = vec![
        SchedulableItem::Task(child_task_1.id()),
        SchedulableItem::Task(child_task_2.id()),
        SchedulableItem::Task(child_task_3.id()),
    ];
    task.add_children(children);
    assert!(task.has_children());
    assert!(task.children().len() == 3);
}

#[test]
fn remove_child_task() {
    let mut task = sample_task();
    let child_task_1 = sample_task();
    let child_task_2 = sample_task();
    let child_task_3 = sample_task();
    let children = vec![
        SchedulableItem::Task(child_task_1.id()),
        SchedulableItem::Task(child_task_2.id()),
        SchedulableItem::Task(child_task_3.id()),
    ];
    task.add_children(children);
    assert!(task.has_children());
    assert!(task.children().len() == 3);
    task.remove_child(SchedulableItem::Task(child_task_2.id()));
    assert!(task.has_children());
    assert!(task.children().len() == 2);
}

#[test]
fn remove_multiple_child_tasks() {
    let mut task = sample_task();
    let child_task_1 = sample_task();
    let child_task_2 = sample_task();
    let child_task_3 = sample_task();
    let children = vec![
        SchedulableItem::Task(child_task_1.id()),
        SchedulableItem::Task(child_task_2.id()),
        SchedulableItem::Task(child_task_3.id()),
    ];
    let children_to_remove = vec![
        SchedulableItem::Task(child_task_1.id()),
        SchedulableItem::Task(child_task_3.id()),
    ];
    task.add_children(children);
    assert!(task.has_children());
    assert!(task.children().len() == 3);
    task.remove_children(children_to_remove);
    assert!(task.has_children());
    assert!(task.children().len() == 1);
    assert!(task.children().contains(&child_task_2.id().clone()));
}

#[test]
fn task_tests_remove_all_children() {
    let mut task = sample_task_with_children();
    assert!(task.has_children());
    task.remove_all_children();
    assert!(!task.has_children());
}

#[test]
fn task_tests_add_dependency() {
    let mut task = sample_task();
    let dependency = sample_task();
    task.add_dependency(dependency.id());
    assert!(task.has_dependencies());
}

#[test]
fn task_tests_remove_dependency() {
    let mut task = sample_task();
    let dependency = sample_task();
    task.add_dependency(dependency.id());
    assert!(task.has_dependencies());
    task.remove_dependency(dependency.id());
    assert!(!task.has_dependencies());
}

#[test]
fn task_tests_add_dependencies() {
    let mut task = sample_task();
    let dependency_1 = sample_task();
    let dependency_2 = sample_task();
    task.add_dependencies(vec![dependency_1.id(), dependency_2.id()]);
    assert!(task.has_dependencies());
    assert_eq!(task.dependencies().len(), 2);
}

#[test]
fn task_tests_remove_dependencies() {
    let mut task = sample_task();
    let dependency_1 = sample_task();
    let dependency_2 = sample_task();
    let dependency_3 = sample_task();
    task.add_dependencies(vec![dependency_1.id(), dependency_2.id(), dependency_3.id()]);
    task.remove_dependencies(vec![dependency_1.id(), dependency_2.id()]);
    assert!(task.has_dependencies());
    assert!(task.has_dependency(&dependency_3.id()));
    assert_eq!(task.dependencies().len(), 1);
}

#[test]
fn task_tests_remove_all_dependencies() {
    let mut task = sample_task_with_dependencies();
    task.remove_all_dependencies();
    assert!(!task.has_dependencies());
}

#[test]
fn task_rejects_itself_as_child_and_dependency() {
    let mut task = sample_task();
    let own = task.id();
    task.add_child(SchedulableItem::Task(own));
    assert_eq!(task.children().len(), 0);
    task.add_dependency(own);
    assert_eq!(task.dependencies().len(), 0);
}

#[test]
fn task_rejects_project_reference_as_child() {
    let mut task = sample_task();
    let project_ref = SchedulableItem::Project(
        project_tracker::factories::project_factory::sample_project().id(),
    );
    assert!(!task.is_valid_child(&project_ref));
    task.add_child(project_ref);
    assert_eq!(task.children().len(), 0);
}
