//! Project services: the cross-field validation engine and the
//! creation-time checks built on it.
//!
//! Validation inspects a fully assembled project once, at an acceptance
//! boundary: the schedule must be ordered, the status must be consistent
//! with the dates at the moment of the check, and the project must not
//! list itself among its own children or dependencies. All violations are
//! collected and reported together.

use vstd::prelude::*;
use crate::clock::{self, Timestamp};
use crate::dto::project_dto::{dto_parses_to_project, project_dto_parses, ProjectDTO};
use crate::errors::{is_invalid_payload, Error};
use crate::factories::project_factory::{basic_project, sample_project_for_dto};
use crate::project::Project;
use crate::schedulable::SchedulableItem;
use crate::status::SchedulableItemStatus;

verus! {

/// Query parameters naming a project.
#[derive(Clone, Debug)]
pub struct ProjectParameters {
    pub id: String,
}

/// Both dates are set and the due date falls before the start date.
pub open spec fn spec_incorrect_schedule(
    start: Option<Timestamp>,
    due: Option<Timestamp>,
) -> bool {
    match (start, due) {
        (Some(s), Some(d)) => d.millis < s.millis,
        _ => false,
    }
}

/// The status/date consistency table, judged at `now`: NotStarted must
/// not have already started; Planned needs a future start date;
/// InProgress needs a started start date and an unexpired due date, if
/// any; InReview needs both, the due date set; Completed needs both dates
/// in the past; Archived and Canceled are unconstrained.
pub open spec fn spec_status_consistent(
    status: SchedulableItemStatus,
    start: Option<Timestamp>,
    due: Option<Timestamp>,
    now: Timestamp,
) -> bool {
    match status {
        SchedulableItemStatus::NotStarted => match start {
            Some(s) => s.millis > now.millis,
            None => true,
        },
        SchedulableItemStatus::Planned => match start {
            Some(s) => s.millis > now.millis,
            None => false,
        },
        SchedulableItemStatus::InProgress => match (start, due) {
            (Some(s), Some(d)) => s.millis <= now.millis && d.millis >= now.millis,
            (Some(s), None) => s.millis <= now.millis,
            _ => false,
        },
        SchedulableItemStatus::InReview => match (start, due) {
            (Some(s), Some(d)) => s.millis <= now.millis && d.millis >= now.millis,
            _ => false,
        },
        SchedulableItemStatus::Completed => match (start, due) {
            (Some(s), Some(d)) => s.millis <= now.millis && d.millis <= now.millis,
            _ => false,
        },
        _ => true,
    }
}

/// The project lists itself among its own children.
pub open spec fn spec_own_parent(project: Project) -> bool {
    project.children@.contains(SchedulableItem::Project(project.id))
}

/// The project lists itself among its own dependencies.
pub open spec fn spec_depends_on_self(project: Project) -> bool {
    project.dependencies@.contains(project.id)
}

/// The messages of the collected validation errors, one per violated
/// rule, in the order the rules are checked.
pub open spec fn spec_validation_msgs(
    bad_schedule: bool,
    bad_status: bool,
    own_parent: bool,
    own_dependency: bool,
) -> Seq<Seq<char>> {
    (if bad_schedule {
        seq!["Provided project has incorrect schedule"@]
    } else {
        Seq::<Seq<char>>::empty()
    }) + (if bad_status {
        seq!["Provided project has status inconsistent with provided data"@]
    } else {
        Seq::<Seq<char>>::empty()
    }) + (if own_parent {
        seq!["Provided project cannot be its own parent"@]
    } else {
        Seq::<Seq<char>>::empty()
    }) + (if own_dependency {
        seq!["Provided project cannot be its own dependency"@]
    } else {
        Seq::<Seq<char>>::empty()
    })
}

fn has_incorrect_schedule(project: &Project) -> (r: bool)
    ensures
        r == spec_incorrect_schedule(project.start_date, project.due_date),
{
    match (project.start_date, project.due_date) {
        (Some(start_date), Some(due_date)) => due_date.millis < start_date.millis,
        _ => false,
    }
}

fn has_inconsistent_status(project: &Project, now: Timestamp) -> (r: bool)
    ensures
        r == !spec_status_consistent(project.status, project.start_date, project.due_date, now),
{
    match project.status {
        SchedulableItemStatus::NotStarted => match project.start_date {
            Some(s) => s.millis <= now.millis,
            None => false,
        },
        SchedulableItemStatus::Planned => match project.start_date {
            Some(s) => s.millis <= now.millis,
            None => true,
        },
        SchedulableItemStatus::InProgress => match (project.start_date, project.due_date) {
            (Some(s), Some(d)) => !(s.millis <= now.millis && d.millis >= now.millis),
            (Some(s), None) => !(s.millis <= now.millis),
            _ => true,
        },
        SchedulableItemStatus::InReview => match (project.start_date, project.due_date) {
            (Some(s), Some(d)) => !(s.millis <= now.millis && d.millis >= now.millis),
            _ => true,
        },
        SchedulableItemStatus::Completed => match (project.start_date, project.due_date) {
            (Some(s), Some(d)) => !(s.millis <= now.millis && d.millis <= now.millis),
            _ => true,
        },
        _ => false,
    }
}

fn is_own_parent(project: &Project) -> (r: bool)
    ensures
        r == spec_own_parent(*project),
{
    proof {
        crate::schedulable::lemma_item_obeys_eq();
    }
    crate::vecs::vec_contains(&project.children, &SchedulableItem::Project(project.id))
}

fn depends_on_self(project: &Project) -> (r: bool)
    ensures
        r == spec_depends_on_self(*project),
{
    proof {
        crate::id::lemma_id_obeys_eq::<crate::ProjectKind>();
    }
    crate::vecs::vec_contains(&project.dependencies, &project.id)
}

/// The whole-entity validation pass, judged at the given instant. The
/// project is accepted unchanged when every rule holds; otherwise every
/// violated rule contributes one error, and the collected list is
/// returned at once.
pub fn validate_at(project: Project, now: Timestamp) -> (r: Result<Project, Error>)
    ensures
        ({
            let bad_schedule = spec_incorrect_schedule(project.start_date, project.due_date);
            let bad_status = !spec_status_consistent(
                project.status,
                project.start_date,
                project.due_date,
                now,
            );
            let own_parent = spec_own_parent(project);
            let own_dependency = spec_depends_on_self(project);
            match r {
                Ok(p) => {
                    &&& p == project
                    &&& !bad_schedule
                    &&& !bad_status
                    &&& !own_parent
                    &&& !own_dependency
                },
                Err(e) => match e {
                    Error::Multiple(es) => {
                        let msgs = spec_validation_msgs(
                            bad_schedule,
                            bad_status,
                            own_parent,
                            own_dependency,
                        );
                        (bad_schedule || bad_status || own_parent || own_dependency) && es@.len()
                            == msgs.len() && forall|i: int|
                            0 <= i < es@.len() ==> is_invalid_payload(#[trigger] es@[i], msgs[i])
                    },
                    _ => false,
                },
            }
        }),
{
    let mut errors: Vec<Error> = Vec::new();
    let bad_schedule = has_incorrect_schedule(&project);
    let bad_status = has_inconsistent_status(&project, now);
    let own_parent = is_own_parent(&project);
    let own_dependency = depends_on_self(&project);
    if bad_schedule {
        errors.push(
            Error::InvalidPayload("Provided project has incorrect schedule".to_owned()),
        );
    }
    if bad_status {
        errors.push(
            Error::InvalidPayload(
                "Provided project has status inconsistent with provided data".to_owned(),
            ),
        );
    }
    if own_parent {
        errors.push(Error::InvalidPayload("Provided project cannot be its own parent".to_owned()));
    }
    if own_dependency {
        errors.push(
            Error::InvalidPayload("Provided project cannot be its own dependency".to_owned()),
        );
    }
    if errors.len() == 0 {
        Ok(project)
    } else {
        proof {
            let msgs = spec_validation_msgs(bad_schedule, bad_status, own_parent, own_dependency);
            assert(errors@.len() == msgs.len());
            assert forall|i: int| 0 <= i < errors@.len() implies is_invalid_payload(
                #[trigger] errors@[i],
                msgs[i],
            ) by {
            }
        }
        Err(Error::Multiple(errors))
    }
}

/// The whole-entity validation pass, judged at the current time. What
/// holds of every outcome is that the four rules were checked against
/// one single instant, as `validate_at` states.
pub fn validate(project: Project) -> (r: Result<Project, Error>)
    ensures
        r matches Ok(p) ==> {
            &&& p == project
            &&& !spec_incorrect_schedule(project.start_date, project.due_date)
            &&& !spec_own_parent(project)
            &&& !spec_depends_on_self(project)
            &&& exists|now: Timestamp|
                spec_status_consistent(project.status, project.start_date, project.due_date, now)
        },
        r is Err ==> exists|now: Timestamp|
            {
                ||| spec_incorrect_schedule(project.start_date, project.due_date)
                ||| !spec_status_consistent(
                    project.status,
                    project.start_date,
                    project.due_date,
                    now,
                )
                ||| spec_own_parent(project)
                ||| spec_depends_on_self(project)
            },
{
    let now = clock::now();
    validate_at(project, now)
}

/// Convert a wire payload into a project and validate it; no partially
/// valid project is ever returned. Success hands back exactly the parsed
/// project, and failure happens only on a payload that does not parse or
/// whose parsed project violates a validation rule (the status rule
/// judged at the instant the check ran).
pub fn create_project(payload: ProjectDTO) -> (r: Result<Project, Error>)
    ensures
        r matches Ok(p) ==> {
            &&& project_dto_parses(payload)
            &&& dto_parses_to_project(payload, p)
            &&& !spec_incorrect_schedule(p.start_date, p.due_date)
            &&& !spec_own_parent(p)
            &&& !spec_depends_on_self(p)
            &&& exists|now: Timestamp|
                spec_status_consistent(p.status, p.start_date, p.due_date, now)
        },
        !project_dto_parses(payload) ==> r is Err,
        r is Err ==> !project_dto_parses(payload) || exists|p: Project, now: Timestamp|
            #![trigger dto_parses_to_project(payload, p), spec_status_consistent(p.status, p.start_date, p.due_date, now)]
            {
                &&& dto_parses_to_project(payload, p)
                &&& {
                    ||| spec_incorrect_schedule(p.start_date, p.due_date)
                    ||| !spec_status_consistent(p.status, p.start_date, p.due_date, now)
                    ||| spec_own_parent(p)
                    ||| spec_depends_on_self(p)
                }
            },
{
    let project = match payload.to_project() {
        Ok(p) => p,
        Err(e) => {
            return Err(e);
        },
    };
    let ghost parsed = project;
    let r = validate(project);
    proof {
        if r is Err {
            let now0 = choose|now: Timestamp|
                {
                    ||| spec_incorrect_schedule(parsed.start_date, parsed.due_date)
                    ||| !spec_status_consistent(
                        parsed.status,
                        parsed.start_date,
                        parsed.due_date,
                        now,
                    )
                    ||| spec_own_parent(parsed)
                    ||| spec_depends_on_self(parsed)
                };
            assert(dto_parses_to_project(payload, parsed) && {
                ||| spec_incorrect_schedule(parsed.start_date, parsed.due_date)
                ||| !spec_status_consistent(
                    parsed.status,
                    parsed.start_date,
                    parsed.due_date,
                    now0,
                )
                ||| spec_own_parent(parsed)
                ||| spec_depends_on_self(parsed)
            });
        }
    }
    r
}

/// Placeholder listing: sample payloads, until a repository is wired in.
pub fn get_all_projects() -> (r: Vec<ProjectDTO>)
    ensures
        r@.len() == 6,
{
    let mut r: Vec<ProjectDTO> = Vec::new();
    let mut j: usize = 0;
    while j < 6
        invariant
            j <= 6,
            r@.len() == j,
        decreases 6 - j,
    {
        let p = sample_project_for_dto();
        r.push(ProjectDTO::from_project(&p));
        j += 1;
    }
    r
}

/// Placeholder lookup: a default payload, until a repository is wired in.
pub fn get_project_from_id(id: String) -> (r: Result<ProjectDTO, Error>)
    ensures
        r is Ok,
{
    let project = basic_project();
    Ok(ProjectDTO::from_project(&project))
}

} // verus!

