use chrono::{Duration, Utc};
use project_tracker::builders::project_builder::ProjectBuilder;
use project_tracker::builders::task_builder::TaskBuilder;
use project_tracker::clock::Timestamp;
use project_tracker::dto::project_dto::ProjectDTO;
use project_tracker::dto::task_dto::TaskDTO;
use project_tracker::errors::Error;
use project_tracker::record::{ProjectRecord, TaskRecord};
use project_tracker::schedulable::{ProjectSubElement, Schedulable};
use project_tracker::services::project_services::{create_project, validate, validate_at};
use project_tracker::services::task_services::create_task;
use project_tracker::status::{status_from_name, SchedulableItemStatus};
use project_tracker::task::Task;
use project_tracker::HasId;

fn ts(d: chrono::DateTime<Utc>) -> Timestamp {
    Timestamp::from_millis(d.timestamp_millis())
}

#[test]
fn scenario_fresh_project_passes_validation() {
    let project = ProjectBuilder::new().with_name("Launch").build();
    assert_eq!(project.status(), SchedulableItemStatus::NotStarted);
    let result = validate(project);
    assert!(result.is_ok());
    assert_eq!(result.unwrap().name(), "Launch");
}

#[test]
fn scenario_planned_project_with_past_start_is_rejected() {
    let yesterday = ts(Utc::now() - Duration::days(1));
    let project = ProjectBuilder::new()
        .with_name("Launch")
        .with_status(SchedulableItemStatus::Planned)
        .with_star_date(yesterday)
        .build();
    let result = validate(project);
    match result {
        Err(Error::Multiple(errors)) => {
            assert_eq!(errors.len(), 1);
            match &errors[0] {
                Error::InvalidPayload(msg) => {
                    assert_eq!(msg, "Provided project has status inconsistent with provided data");
                }
                other => panic!("unexpected error: {other:?}"),
            }
        }
        other => panic!("expected a collected validation failure, got {other:?}"),
    }
}

#[test]
fn scenario_self_child_is_never_recorded() {
    let mut project = ProjectBuilder::new().with_name("Launch").build();
    let own = project.id();
    project.add_child(ProjectSubElement::Project(own));
    assert_eq!(project.children().len(), 0);
    let result = validate(project);
    assert!(result.is_ok());
}

#[test]
fn scenario_due_tomorrow_then_start_after_due() {
    let tomorrow = ts(Utc::now() + Duration::days(1));
    let day_after = ts(Utc::now() + Duration::days(2));
    let mut task = TaskBuilder::new().with_name("Deadline").build();
    assert!(task.is_valid_due_date(Some(tomorrow)));
    task.set_due_date(tomorrow);
    assert!(task.has_due_date());
    assert!(!task.is_valid_start_date(Some(day_after)));
    task.start_at_date(day_after);
    assert!(!task.has_start_date());
}

#[test]
fn validation_collects_every_violation_at_once() {
    let now = ts(Utc::now());
    let start = ts(Utc::now() + Duration::days(2));
    let due = ts(Utc::now() + Duration::days(1));
    let mut project = ProjectBuilder::new()
        .with_name("Broken")
        .with_status(SchedulableItemStatus::Completed)
        .with_star_date(start)
        .build();
    project.due_date = Some(due);
    project.children.push(ProjectSubElement::Project(project.id));
    project.dependencies.push(project.id);
    let result = validate_at(project, now);
    match result {
        Err(Error::Multiple(errors)) => {
            assert_eq!(errors.len(), 4);
            let expected = [
                "Provided project has incorrect schedule",
                "Provided project has status inconsistent with provided data",
                "Provided project cannot be its own parent",
                "Provided project cannot be its own dependency",
            ];
            for (error, want) in errors.iter().zip(expected.iter()) {
                match error {
                    Error::InvalidPayload(msg) => assert_eq!(msg, want),
                    other => panic!("unexpected error: {other:?}"),
                }
            }
        }
        other => panic!("expected a collected validation failure, got {other:?}"),
    }
}

#[test]
fn validation_accepts_in_progress_project_between_its_dates() {
    let now = ts(Utc::now());
    let start = ts(Utc::now() - Duration::days(1));
    let due = ts(Utc::now() + Duration::days(1));
    let project = ProjectBuilder::new()
        .with_name("Running")
        .with_status(SchedulableItemStatus::InProgress)
        .with_star_date(start)
        .with_due_date(Some(due))
        .build();
    assert!(validate_at(project, now).is_ok());
}

#[test]
fn project_dto_round_trips_through_the_wire_shape() {
    let owner = project_tracker::factories::person_factory::sample_person();
    let child = Task::new("child");
    let dep = project_tracker::factories::project_factory::sample_project();
    let start = ts(Utc::now() - Duration::days(1));
    let due = ts(Utc::now() + Duration::days(3));
    let project = ProjectBuilder::new()
        .with_name("Wire")
        .with_owner_id(owner.id())
        .with_description("over the wire")
        .with_star_date(start)
        .with_due_date(Some(due))
        .with_children(vec![ProjectSubElement::Task(child.id())])
        .with_dependencies(vec![dep.id()])
        .with_status(SchedulableItemStatus::InProgress)
        .build();
    let expected_id = project.id();
    let dto = ProjectDTO::from_project(&project);
    assert_eq!(dto.id, expected_id.to_string());
    let back = dto.to_project().expect("a rendered project parses back");
    assert_eq!(back.id(), expected_id);
    assert_eq!(back.name(), "Wire");
    assert_eq!(back.owner_id().unwrap(), owner.id());
    assert_eq!(back.description(), "over the wire");
    assert_eq!(back.start_date().unwrap().millis(), start.millis());
    assert_eq!(back.due_date().unwrap().millis(), due.millis());
    assert_eq!(back.children().len(), 1);
    assert_eq!(back.dependencies(), vec![dep.id()]);
    assert_eq!(back.status(), SchedulableItemStatus::InProgress);
}

#[test]
fn project_dto_with_a_bad_id_is_rejected() {
    let project = project_tracker::factories::project_factory::sample_project();
    let mut dto = ProjectDTO::from_project(&project);
    dto.id = "task-00000000000000000000000000".to_string();
    match dto.to_project() {
        Err(Error::ParseError(_)) => {}
        other => panic!("expected a parse error, got {other:?}"),
    }
}

#[test]
fn project_dto_with_a_bad_date_is_rejected() {
    let project = project_tracker::factories::project_factory::sample_project();
    let mut dto = ProjectDTO::from_project(&project);
    dto.start_date = Some("not a date".to_string());
    match dto.to_project() {
        Err(Error::ProjectError(msg)) => assert_eq!(msg, "Invalid project start date"),
        other => panic!("expected a date error, got {other:?}"),
    }
}

#[test]
fn create_project_validates_the_parsed_payload() {
    let yesterday = ts(Utc::now() - Duration::days(1));
    let project = ProjectBuilder::new()
        .with_name("Launch")
        .with_status(SchedulableItemStatus::Planned)
        .with_star_date(yesterday)
        .build();
    let dto = ProjectDTO::from_project(&project);
    match create_project(dto) {
        Err(Error::Multiple(_)) => {}
        other => panic!("expected a validation failure, got {other:?}"),
    }
    let good = ProjectBuilder::new().with_name("Launch").build();
    let dto = ProjectDTO::from_project(&good);
    assert!(create_project(dto).is_ok());
}

#[test]
fn task_dto_round_trips_through_the_wire_shape() {
    let child = Task::new("child");
    let task = TaskBuilder::new()
        .with_name("Wire task")
        .with_description("task payload")
        .with_children(vec![child.id()])
        .with_status(SchedulableItemStatus::Planned)
        .build();
    let expected_id = task.id();
    let dto = TaskDTO::from_task(&task);
    let back = create_task(dto).expect("a rendered task parses back");
    assert_eq!(back.id(), expected_id);
    assert_eq!(back.name(), "Wire task");
    assert_eq!(back.children(), vec![child.id()]);
    assert_eq!(back.status(), SchedulableItemStatus::Planned);
}

#[test]
fn task_dto_with_a_bad_child_is_rejected() {
    let task = Task::new("t");
    let mut dto = TaskDTO::from_task(&task);
    dto.children.push("person-00000000000000000000000000".to_string());
    match dto.to_task() {
        Err(Error::ProjectError(msg)) => assert_eq!(msg, "Invalid child task"),
        other => panic!("expected a child error, got {other:?}"),
    }
}

#[test]
fn project_record_round_trips_and_sniffs_children() {
    let child_task = Task::new("child");
    let child_project = project_tracker::factories::project_factory::sample_project();
    let project = ProjectBuilder::new()
        .with_name("Stored")
        .with_description("kept")
        .with_children(vec![
            ProjectSubElement::Project(child_project.id()),
            ProjectSubElement::Task(child_task.id()),
        ])
        .with_status(SchedulableItemStatus::InReview)
        .build();
    let id = project.id();
    let record = ProjectRecord::from_project(&project);
    assert_eq!(record.status, "InReview");
    assert_eq!(record.children.len(), 2);
    let back = record.into_project(id).expect("a stored project reads back");
    assert_eq!(back.id(), id);
    assert_eq!(back.name(), "Stored");
    assert_eq!(back.description(), "kept");
    assert_eq!(
        back.children(),
        vec![
            ProjectSubElement::Project(child_project.id()),
            ProjectSubElement::Task(child_task.id()),
        ]
    );
    assert_eq!(back.status(), SchedulableItemStatus::InReview);
}

#[test]
fn project_record_rejects_an_unknown_child_kind() {
    let project = project_tracker::factories::project_factory::sample_project();
    let id = project.id();
    let mut record = ProjectRecord::from_project(&project);
    record.children.push("person-00000000000000000000000000".to_string());
    match record.into_project(id) {
        Err(project_tracker::errors::DatabaseError::QueryError(msg)) => {
            assert_eq!(msg, "Unknown child type");
        }
        other => panic!("expected a query error, got {other:?}"),
    }
}

#[test]
fn project_record_rejects_an_unknown_status_name() {
    let project = project_tracker::factories::project_factory::sample_project();
    let id = project.id();
    let mut record = ProjectRecord::from_project(&project);
    record.status = "Paused".to_string();
    match record.into_project(id) {
        Err(project_tracker::errors::DatabaseError::QueryError(msg)) => {
            assert_eq!(msg, "Invalid status");
        }
        other => panic!("expected a query error, got {other:?}"),
    }
}

#[test]
fn task_record_round_trips() {
    let task = TaskBuilder::new()
        .with_name("Stored task")
        .with_status(SchedulableItemStatus::Canceled)
        .build();
    let id = task.id();
    let record = TaskRecord::from_task(&task);
    assert_eq!(record.status, "Canceled");
    let back = record.into_task(id).expect("a stored task reads back");
    assert_eq!(back.id(), id);
    assert_eq!(back.name(), "Stored task");
    assert_eq!(back.status(), SchedulableItemStatus::Canceled);
}

#[test]
fn timestamp_offset_adds_and_clamps() {
    let t = Timestamp::from_millis(1_000);
    assert_eq!(t.offset(500).millis(), 1_500);
    assert_eq!(t.offset(-2_000).millis(), -1_000);
    assert_eq!(Timestamp::from_millis(i64::MAX).offset(1).millis(), i64::MAX);
    assert_eq!(Timestamp::from_millis(i64::MIN).offset(-1).millis(), i64::MIN);
}

#[test]
fn id_string_form_is_prefix_dash_and_26_token_chars() {
    let project = project_tracker::factories::project_factory::sample_project();
    let s = project.id().to_string();
    assert_eq!(s.len(), "project".len() + 1 + 26);
    let token = &s["project-".len()..];
    assert_eq!(token.len(), 26);
    assert!(!token.contains('-'));
}

#[test]
fn every_status_name_parses_back() {
    let statuses = [
        SchedulableItemStatus::NotStarted,
        SchedulableItemStatus::Planned,
        SchedulableItemStatus::InProgress,
        SchedulableItemStatus::InReview,
        SchedulableItemStatus::Completed,
        SchedulableItemStatus::Archived,
        SchedulableItemStatus::Canceled,
    ];
    for status in statuses {
        assert_eq!(status_from_name(&status.to_string()), Some(status));
    }
    assert_eq!(status_from_name("Paused"), None);
}
