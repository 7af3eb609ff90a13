use chrono::{Duration, Utc};
use project_tracker::builders::project_builder::ProjectBuilder;
use project_tracker::clock::Timestamp;
use project_tracker::factories::project_factory::{
    sample_archived_project, sample_canceled_project, sample_completed_project,
    sample_in_progress_project, sample_in_review_project, sample_planned_project, sample_project,
    sample_project_with_child_projects_and_tasks, sample_project_with_dependencies,
    sample_project_with_due_date, sample_project_with_tags,
};
use project_tracker::person::Person;
use project_tracker::schedulable::{ProjectSubElement, Schedulable};
use project_tracker::status::ProjectStatus;
use project_tracker::tag::Tag;
use project_tracker::task::Task;
use project_tracker::HasId;

fn ts(d: chrono::DateTime<Utc>) -> Timestamp {
    Timestamp::from_millis(d.timestamp_millis())
}

#[test]
fn create_project() {
    let project_name = "This is a sample project title";
    let project = ProjectBuilder::new().with_name(project_name).build();
    assert_eq!(project.name(), project_name);
}

#[test]
fn rename_project() {
    let project_name_new = "This is a different project title";
    let mut project = sample_project();
    assert_ne!(project.name(), project_name_new);
    project.rename(project_name_new);
    assert_eq!(project.name(), project_name_new);
}

#[test]
fn create_project_id() {
    let project = sample_project();
    let project_id = project.id().to_string();
    assert!(project_id.starts_with("project-"));
}

#[test]
fn assign_owner() {
    let owner = Person::new("Test", "McTesty");
    let project = ProjectBuilder::new().with_owner_id(owner.id()).build();
    assert!(project.has_owner());
    assert_eq!(project.owner_id().unwrap().clone(), owner.id());
}

#[test]
fn transfer_ownership() {
    let owner_new = Person::new("Newbie", "McNewsy");
    let mut project = sample_project();
    project.transfer_ownership(owner_new.id());
    assert!(project.has_owner());
    assert_eq!(project.owner_id().unwrap().clone(), owner_new.id());
}

#[test]
fn create_project_with_description() {
    let description = "This is a sample description";
    let project = ProjectBuilder::new().with_description(description).build();
    assert!(project.has_description());
    assert_eq!(project.description(), description);
}

#[test]
fn clear_project_description() {
    let description = "This is a sample description";
    let mut project = ProjectBuilder::new().with_description(description).build();
    project.clear_description();
    assert!(!project.has_description());
    assert_eq!(project.description(), "");
}

#[test]
fn project_tests_add_tag() {
    let test_tag = Tag::new("TestTag");
    let mut project = sample_project();
    project.add_tag(test_tag.id());
    assert!(project.has_tags());
    assert!(project.tags().contains(&test_tag.id().clone()));
}

#[test]
fn project_tests_add_multiple_tags() {
    let test_tag_1 = Tag::new("TestTag1");
    let test_tag_2 = Tag::new("TestTag2");
    let test_tag_3 = Tag::new("TestTag3");
    let test_tags = vec![test_tag_1.id(), test_tag_2.id(), test_tag_3.id()];
    let mut project = sample_project();
    project.add_tags(test_tags.clone());
    assert!(project.has_tags());
    for tag in test_tags {
        assert!(project.tags().contains(&tag.clone()));
    }
}

#[test]
fn project_tests_clear_tags() {
    let mut project = sample_project_with_tags();
    assert!(project.has_tags());
    project.remove_all_tags();
    assert!(!project.has_tags());
}

#[test]
fn project_tests_remove_tag() {
    let test_tag = Tag::new("TestTag");
    let mut project = ProjectBuilder::new().with_tags(vec![test_tag.id()]).build();
    assert!(project.has_tags());
    project.remove_tag(test_tag.id());
    assert!(!project.has_tags());
}

#[test]
fn project_tests_remove_multiple_tags() {
    let test_tag_1 = Tag::new("TestTag1");
    let test_tag_2 = Tag::new("TestTag2");
    let test_tag_3 = Tag::new("TestTag3");
    let test_tags = vec![test_tag_1.id(), test_tag_2.id(), test_tag_3.id()];
    let test_tags_to_remove = vec![test_tag_1.id(), test_tag_2.id()];
    let mut project = ProjectBuilder::new().with_tags(test_tags.clone()).build();
    for tag in test_tags {
        assert!(project.tags().contains(&tag.clone()));
    }
    project.remove_tags(test_tags_to_remove.clone());
    assert!(project.has_tags());
    for tag in test_tags_to_remove {
        assert!(!project.tags().contains(&tag.clone()));
    }
    assert!(project.tags().contains(&test_tag_3.id().clone()));
}

#[test]
fn create_project_with_start_now() {
    let before = Utc::now().timestamp_millis();
    let mut project = ProjectBuilder::new().build();
    project.start_now();
    let after = Utc::now().timestamp_millis();
    assert!(project.has_start_date());
    let start = project.start_date().unwrap().millis();
    assert!(before <= start && start <= after);
}

#[test]
fn create_project_with_start_tomorrow() {
    let now = Utc::now();
    let tomorrow = now + Duration::days(1);
    let mut project = ProjectBuilder::new().build();
    project.start_at_date(ts(tomorrow));
    assert!(project.has_start_date());
    assert_eq!(tomorrow.timestamp_millis(), project.start_date().unwrap().millis());
}

#[test]
fn create_project_with_start_yesterday() {
    let now = Utc::now();
    let yesterday = now - Duration::days(1);
    let mut project = ProjectBuilder::new().build();
    project.start_at_date(ts(yesterday));
    assert!(project.has_start_date());
    assert_eq!(yesterday.timestamp_millis(), project.start_date().unwrap().millis());
}

#[test]
fn project_tests_remove_start_date() {
    let mut project = ProjectBuilder::new().with_star_date(ts(Utc::now())).build();
    assert!(project.has_start_date());
    project.remove_start_date();
    assert!(!project.has_start_date());
}

#[test]
fn project_tests_set_due_date_tomorrow() {
    let mut project = sample_project();
    let mut due_date = Utc::now();
    due_date += Duration::days(1);
    assert!(!project.has_due_date());
    project.set_due_date(ts(due_date));
    assert!(project.has_due_date());
    assert_eq!(due_date.timestamp_millis(), project.due_date().unwrap().millis());
}

#[test]
fn project_tests_set_due_date_yesterday() {
    let mut project = sample_project();
    let mut due_date = Utc::now();
    due_date -= Duration::days(1);
    assert!(!project.has_due_date());
    assert!(!project.is_valid_due_date(Some(ts(due_date))));
    project.set_due_date(ts(due_date));
    assert!(!project.has_due_date());
}

#[test]
fn project_tests_remove_due_date() {
    let mut project = sample_project_with_due_date();
    assert!(project.has_due_date());
    project.remove_due_date();
    assert!(!project.has_due_date());
}

#[test]
fn project_tests_promote_from_not_started() {
    let mut project = sample_project();
    project.promote();
    assert!(project.status() == ProjectStatus::Planned);
}

#[test]
fn project_tests_demote_from_not_started() {
    let mut project = sample_project();
    project.demote();
    assert!(project.status() == ProjectStatus::NotStarted);
}

#[test]
fn project_tests_promote_from_planned() {
    let mut project = sample_planned_project();
    project.promote();
    assert!(project.status() == ProjectStatus::InProgress);
}

#[test]
fn project_tests_demote_from_planned() {
    let mut project = sample_planned_project();
    project.demote();
    assert!(project.status() == ProjectStatus::NotStarted);
}

#[test]
fn project_tests_promote_from_in_progress() {
    let mut project = sample_in_progress_project();
    project.promote();
    assert!(project.status() == ProjectStatus::InReview);
}

#[test]
fn project_tests_demote_from_in_progress() {
    let mut project = sample_in_progress_project();
    project.demote();
    assert!(project.status() == ProjectStatus::Planned);
}

#[test]
fn project_tests_promote_from_in_review() {
    let mut project = sample_in_review_project();
    project.promote();
    assert!(project.status() == ProjectStatus::Completed);
}

#[test]
fn project_tests_demote_from_in_review() {
    let mut project = sample_in_review_project();
    project.demote();
    assert!(project.status() == ProjectStatus::InProgress);
}

#[test]
fn project_tests_promote_from_completed() {
    let mut project = sample_completed_project();
    project.promote();
    assert!(project.status() == ProjectStatus::Completed);
}

#[test]
fn project_tests_demote_from_completed() {
    let mut project = sample_completed_project();
    project.demote();
    assert!(project.status() == ProjectStatus::Completed);
}

#[test]
fn project_tests_archive() {
    let mut project = sample_project();
    project.archive();
    assert!(project.status() == ProjectStatus::Archived);
    let mut project = sample_planned_project();
    project.archive();
    assert!(project.status() == ProjectStatus::Archived);
    let mut project = sample_in_progress_project();
    project.archive();
    assert!(project.status() == ProjectStatus::Archived);
    let mut project = sample_in_review_project();
    project.archive();
    assert!(project.status() == ProjectStatus::Archived);
    let mut project = sample_completed_project();
    project.archive();
    assert!(project.status() == ProjectStatus::Archived);
    let mut project = sample_canceled_project();
    project.archive();
    assert!(project.status() == ProjectStatus::Archived);
}

#[test]
fn project_tests_promote_from_archived() {
    let mut project = sample_archived_project();
    project.promote();
    assert!(project.status() == ProjectStatus::Archived);
}

#[test]
fn project_tests_demote_from_archived() {
    let mut project = sample_archived_project();
    project.demote();
    assert!(project.status() == ProjectStatus::Archived);
}

#[test]
fn project_tests_cancel() {
    let mut project = sample_project();
    project.cancel();
    assert!(project.status() == ProjectStatus::Canceled);
}

#[test]
fn project_tests_cancel_archived_project() {
    let mut project = sample_archived_project();
    project.cancel();
    assert!(project.status() == ProjectStatus::Archived);
}

#[test]
fn project_tests_promote_from_canceled() {
    let mut project = sample_canceled_project();
    project.promote();
    assert!(project.status() == ProjectStatus::Canceled);
}

#[test]
fn project_tests_demote_from_canceled() {
    let mut project = sample_canceled_project();
    project.demote();
    assert!(project.status() == ProjectStatus::Canceled);
}

#[test]
fn add_child_project_to_project() {
    let mut project = sample_project();
    let child_project = sample_project();
    assert_ne!(project, child_project);
    project.add_child(ProjectSubElement::Project(child_project.id()));
    assert!(project.has_children());
    assert!(project.children().len() == 1);
    assert!(project.project_children().len() == 1);
    assert!(project.task_children().len() == 0);
}

#[test]
fn add_multiple_child_projects_to_project() {
    let mut project = sample_project();
    let children = vec![
        ProjectSubElement::Project(sample_project().id()),
        ProjectSubElement::Project(sample_project().id()),
        ProjectSubElement::Project(sample_project().id()),
    ];
    project.add_children(children);
    assert!(project.has_children());
    assert!(project.children().len() == 3);
    assert!(project.project_children().len() == 3);
    assert!(project.task_children().len() == 0);
}

#[test]
fn remove_child_project_from_project() {
    let mut project = sample_project();
    let child_project_2 = sample_project();
    let children = vec![
        ProjectSubElement::Project(sample_project().id()),
        ProjectSubElement::Project(child_project_2.id()),
        ProjectSubElement::Project(sample_project().id()),
    ];
    project.add_children(children);
    project.remove_child(ProjectSubElement::Project(child_project_2.id()));
    assert!(!project.has_child(&ProjectSubElement::Project(child_project_2.id())));
}

#[test]
fn remove_multiple_child_projects_from_project() {
    let mut project = sample_project();
    let child_project_1 = sample_project();
    let child_project_2 = sample_project();
    let child_project_3 = sample_project();
    let children = vec![
        ProjectSubElement::Project(child_project_1.id()),
        ProjectSubElement::Project(child_project_2.id()),
        ProjectSubElement::Project(child_project_3.id()),
    ];
    let children_to_remove = vec![
        ProjectSubElement::Project(child_project_1.id()),
        ProjectSubElement::Project(child_project_3.id()),
    ];
    project.add_children(children);
    project.remove_children(children_to_remove);
    assert!(project.has_children());
    assert!(project.children().len() == 1);
    assert!(project.project_children().len() == 1);
    assert!(project.task_children().len() == 0);
    assert!(project.has_child(&ProjectSubElement::Project(child_project_2.id())));
}

#[test]
fn add_child_task_to_project() {
    let mut project = sample_project();
    let task_name = "This is a child task title";
    let child_task = Task::new(task_name);
    project.add_child(ProjectSubElement::Task(child_task.id()));
    assert!(project.has_children());
    assert!(project.children().len() == 1);
    assert!(project.project_children().len() == 0);
    assert!(project.task_children().len() == 1);
}

#[test]
fn add_multiple_child_tasks_to_project() {
    let mut project = sample_project();
    let child_task_1 = Task::new("This is a child project title 1");
    let child_task_2 = Task::new("This is a child project title 2");
    let child_task_3 = Task::new("This is a child project title 3");
    let children = vec![
        ProjectSubElement::Task(child_task_1.id()),
        ProjectSubElement::Task(child_task_2.id()),
        ProjectSubElement::Task(child_task_3.id()),
    ];
    project.add_children(children);
    assert!(project.has_children());
    assert!(project.children().len() == 3);
    assert!(project.project_children().len() == 0);
    assert!(project.task_children().len() == 3);
}

#[test]
fn remove_child_task_from_project() {
    let mut project = sample_project();
    let child_task_1 = Task::new("This is a child project title 1");
    let child_task_2 = Task::new("This is a child project title 2");
    let child_task_3 = Task::new("This is a child project title 3");
    let children = vec![
        ProjectSubElement::Task(child_task_1.id()),
        ProjectSubElement::Task(child_task_2.id()),
        ProjectSubElement::Task(child_task_3.id()),
    ];
    project.add_children(children);
    assert!(project.has_children());
    assert!(project.children().len() == 3);
    assert!(project.project_children().len() == 0);
    assert!(project.task_children().len() == 3);
    project.remove_child(ProjectSubElement::Task(child_task_2.id()));
    assert!(project.has_children());
    assert!(project.children().len() == 2);
    assert!(project.project_children().len() == 0);
    assert!(project.task_children().len() == 2);
}

#[test]
fn remove_multiple_child_tasks_from_project() {
    let mut project = sample_project();
    let child_task_1 = Task::new("This is a child project title 1");
    let child_task_2 = Task::new("This is a child project title 2");
    let child_task_3 = Task::new("This is a child project title 3");
    let children = vec![
        ProjectSubElement::Task(child_task_1.id()),
        ProjectSubElement::Task(child_task_2.id()),
        ProjectSubElement::Task(child_task_3.id()),
    ];
    let children_to_remove = vec![
        ProjectSubElement::Task(child_task_1.id()),
        ProjectSubElement::Task(child_task_3.id()),
    ];
    project.add_children(children);
    assert!(project.has_children());
    assert!(project.children().len() == 3);
    assert!(project.project_children().len() == 0);
    assert!(project.task_children().len() == 3);
    project.remove_children(children_to_remove);
    assert!(project.has_children());
    assert!(project.children().len() == 1);
    assert!(project.project_children().len() == 0);
    assert!(project.task_children().len() == 1);
    assert!(project.task_children().contains(&child_task_2.id().clone()));
}

#[test]
fn add_mixed_children_to_project() {
    let mut project = sample_project();
    let child_project_1 = sample_project();
    let child_project_2 = sample_project();
    let child_project_3 = sample_project();
    let child_task_1 = Task::new("This is a child project title 1");
    let child_task_2 = Task::new("This is a child project title 2");
    let child_task_3 = Task::new("This is a child project title 3");
    let children = vec![
        ProjectSubElement::Project(child_project_1.id()),
        ProjectSubElement::Project(child_project_2.id()),
        ProjectSubElement::Project(child_project_3.id()),
        ProjectSubElement::Task(child_task_1.id()),
        ProjectSubElement::Task(child_task_2.id()),
        ProjectSubElement::Task(child_task_3.id()),
    ];
    project.add_children(children);
    assert!(project.has_children());
    assert!(project.children().len() == 6);
    assert!(project.project_children().len() == 3);
    assert!(project.task_children().len() == 3);
}

#[test]
fn project_tests_remove_all_children() {
    let mut project = sample_project_with_child_projects_and_tasks();
    assert!(project.has_children());
    project.remove_all_children();
    assert!(!project.has_children());
}

#[test]
fn project_tests_add_dependency() {
    let mut project = sample_project();
    let dependency = sample_project();
    project.add_dependency(dependency.id());
    assert!(project.has_dependencies());
}

#[test]
fn project_tests_remove_dependency() {
    let mut project = sample_project();
    let dependency = sample_project();
    project.add_dependency(dependency.id());
    assert!(project.has_dependencies());
    project.remove_dependency(dependency.id());
    assert!(!project.has_dependencies());
}

#[test]
fn project_tests_add_dependencies() {
    let mut project = sample_project();
    let dependency_1 = sample_project();
    let dependency_2 = sample_project();
    project.add_dependencies(vec![dependency_1.id(), dependency_2.id()]);
    assert!(project.has_dependencies());
    assert_eq!(project.dependencies().len(), 2);
}

#[test]
fn project_tests_remove_dependencies() {
    let mut project = sample_project();
    let dependency_1 = sample_project();
    let dependency_2 = sample_project();
    let dependency_3 = sample_project();
    project.add_dependencies(vec![dependency_1.id(), dependency_2.id(), dependency_3.id()]);
    project.remove_dependencies(vec![dependency_1.id(), dependency_2.id()]);
    assert!(project.has_dependencies());
    assert!(project.has_dependency(&dependency_3.id()));
    assert_eq!(project.dependencies().len(), 1);
}

#[test]
fn project_tests_remove_all_dependencies() {
    let mut project = sample_project_with_dependencies();
    project.remove_all_dependencies();
    assert!(!project.has_dependencies());
}

#[test]
fn project_rejects_itself_as_child() {
    let mut project = sample_project();
    let own = project.id();
    project.add_child(ProjectSubElement::Project(own));
    assert_eq!(project.children().len(), 0);
    assert!(!project.has_children());
}

#[test]
fn project_rejects_itself_as_dependency() {
    let mut project = sample_project();
    let own = project.id();
    project.add_dependency(own);
    assert_eq!(project.dependencies().len(), 0);
    assert!(!project.has_dependencies());
}

#[test]
fn duplicate_tag_is_not_added_twice() {
    let tag = Tag::new("TestTag");
    let mut project = sample_project();
    project.add_tag(tag.id());
    assert!(!project.is_valid_tag(&tag.id()));
    project.add_tag(tag.id());
    assert_eq!(project.tags().len(), 1);
}
