//! The task wire payload.

use vstd::prelude::*;
use crate::builders::task_builder::TaskBuilder;
use crate::clock::rfc3339_millis;
use crate::dto::project_dto::{date_dto_parses_to, ids_all_parse, ids_parse_to, parse_ids};
use crate::errors::Error;
use crate::id::{spec_id_str, spec_parse_id, Id};
use crate::status::SchedulableItemStatus;
use crate::task::Task;
use crate::{PersonKind, TagKind, TaskKind};

verus! {

/// A task as it travels over the API: identifiers and dates as strings.
#[derive(Clone, Debug)]
pub struct TaskDTO {
    pub id: String,
    pub name: String,
    pub owner_id: Option<String>,
    pub description: Option<String>,
    pub tags: Vec<String>,
    pub start_date: Option<String>,
    pub due_date: Option<String>,
    pub children: Vec<String>,
    pub dependencies: Vec<String>,
    pub status: SchedulableItemStatus,
}

/// Every field of the payload parses: the identifiers under their kinds
/// and the dates as RFC 3339.
pub open spec fn task_dto_parses(dto: TaskDTO) -> bool {
    &&& spec_parse_id::<TaskKind>(dto.id@) is Ok
    &&& match dto.owner_id {
        Some(s) => spec_parse_id::<PersonKind>(s@) is Ok,
        None => true,
    }
    &&& ids_all_parse::<TagKind>(dto.tags@)
    &&& match dto.start_date {
        Some(s) => rfc3339_millis(s@) is Some,
        None => true,
    }
    &&& match dto.due_date {
        Some(s) => rfc3339_millis(s@) is Some,
        None => true,
    }
    &&& ids_all_parse::<TaskKind>(dto.children@)
    &&& ids_all_parse::<TaskKind>(dto.dependencies@)
}

impl TaskDTO {
    pub fn id(&self) -> (r: String)
        ensures
            r@ == self.id@,
    {
        self.id.clone()
    }

    /// The wire form of a task: identifiers rendered canonically and
    /// dates rendered as RFC 3339. A date is dropped only when it lies
    /// outside the renderable range.
    pub fn from_task(task: &Task) -> (r: TaskDTO)
        ensures
            r.id@ == spec_id_str::<TaskKind>(task.id.token),
            r.name@ == task.name@,
            match task.owner_id {
                Some(o) => r.owner_id matches Some(s) && s@ == spec_id_str::<PersonKind>(o.token),
                None => r.owner_id is None,
            },
            r.description matches Some(d) && d@ == match task.description {
                Some(td) => td@,
                None => Seq::<char>::empty(),
            },
            r.tags@.len() == task.tags@.len(),
            forall|i: int| 0 <= i < task.tags@.len() ==> (#[trigger] r.tags@[i])@ == spec_id_str::<
                TagKind,
            >(task.tags@[i].token),
            match task.start_date {
                Some(t) => r.start_date matches Some(s) ==> s@ == crate::clock::rfc3339_of(
                    t.millis,
                ),
                None => r.start_date is None,
            },
            match task.due_date {
                Some(t) => r.due_date matches Some(s) ==> s@ == crate::clock::rfc3339_of(t.millis),
                None => r.due_date is None,
            },
            r.children@.len() == task.children@.len(),
            forall|i: int| 0 <= i < task.children@.len() ==> (#[trigger] r.children@[i])@
                == spec_id_str::<TaskKind>(task.children@[i].token),
            r.dependencies@.len() == task.dependencies@.len(),
            forall|i: int| 0 <= i < task.dependencies@.len() ==> (#[trigger] r.dependencies@[i])@
                == spec_id_str::<TaskKind>(task.dependencies@[i].token),
            r.status == task.status,
    {
        let id = task.id.to_string();
        let name = task.name.clone();
        let owner_id = match &task.owner_id {
            Some(o) => Some(o.to_string()),
            None => None,
        };
        let description = match &task.description {
            Some(d) => d.clone(),
            None => String::new(),
        };
        let tags = render_task_ids_of_tags(&task.tags);
        let start_date = match &task.start_date {
            Some(t) => crate::clock::render_rfc3339(t.millis),
            None => None,
        };
        let due_date = match &task.due_date {
            Some(t) => crate::clock::render_rfc3339(t.millis),
            None => None,
        };
        let children = render_task_ids(&task.children);
        let dependencies = render_task_ids(&task.dependencies);
        TaskDTO {
            id,
            name,
            owner_id,
            description: Some(description),
            tags,
            start_date,
            due_date,
            children,
            dependencies,
            status: task.status,
        }
    }

    /// Parse the payload back into a task. Succeeds exactly when every
    /// identifier parses under its kind and every date parses as RFC
    /// 3339; an absent description becomes the empty description, as the
    /// wire format does not distinguish the two.
    pub fn to_task(self) -> (r: Result<Task, Error>)
        ensures
            r is Ok <==> task_dto_parses(self),
            r matches Ok(t) ==> {
                &&& spec_parse_id::<TaskKind>(self.id@) == Ok::<Id<TaskKind>, crate::id::ParseIdError>(t.id)
                &&& t.name@ == self.name@
                &&& match self.owner_id {
                    Some(s) => t.owner_id matches Some(o) && spec_parse_id::<PersonKind>(s@)
                        == Ok::<Id<PersonKind>, crate::id::ParseIdError>(o),
                    None => t.owner_id is None,
                }
                &&& t.description matches Some(d) && d@ == match self.description {
                    Some(sd) => sd@,
                    None => Seq::<char>::empty(),
                }
                &&& ids_parse_to::<TagKind>(self.tags@, t.tags@)
                &&& date_dto_parses_to(self.start_date, t.start_date)
                &&& date_dto_parses_to(self.due_date, t.due_date)
                &&& ids_parse_to::<TaskKind>(self.children@, t.children@)
                &&& ids_parse_to::<TaskKind>(self.dependencies@, t.dependencies@)
                &&& t.status == self.status
            },
            r matches Err(e) ==> (e is ParseError || e is ProjectError),
    {
        let id = match Id::<TaskKind>::parse(self.id.as_str()) {
            Ok(id) => id,
            Err(e) => {
                return Err(Error::ParseError(e));
            },
        };
        let owner_id = match &self.owner_id {
            Some(s) => match Id::<PersonKind>::parse(s.as_str()) {
                Ok(o) => Some(o),
                Err(e) => {
                    return Err(Error::ParseError(e));
                },
            },
            None => None,
        };
        let description = match &self.description {
            Some(d) => d.clone(),
            None => String::new(),
        };
        let tags = match parse_ids::<TagKind>(&self.tags) {
            Some(tags) => tags,
            None => {
                return Err(Error::ProjectError("Invalid task tag id".to_owned()));
            },
        };
        let start_date = match crate::dto::project_dto::parse_date_field(&self.start_date) {
            Ok(t) => t,
            Err(_) => {
                return Err(Error::ProjectError("Invalid task start date".to_owned()));
            },
        };
        let due_date = match crate::dto::project_dto::parse_date_field(&self.due_date) {
            Ok(t) => t,
            Err(_) => {
                return Err(Error::ProjectError("Invalid task due date".to_owned()));
            },
        };
        let children = match parse_ids::<TaskKind>(&self.children) {
            Some(cs) => cs,
            None => {
                return Err(Error::ProjectError("Invalid child task".to_owned()));
            },
        };
        let dependencies = match parse_ids::<TaskKind>(&self.dependencies) {
            Some(ds) => ds,
            None => {
                return Err(Error::ProjectError("Invalid task dependency".to_owned()));
            },
        };
        let builder = TaskBuilder::new().with_id(id).with_name(self.name.as_str());
        let b2 = match owner_id {
            Some(o) => builder.with_owner_id(o),
            None => builder,
        };
        Ok(
            b2.with_description(description.as_str()).with_tags(tags).with_start_date(
                start_date,
            ).with_due_date(due_date).with_children(children).with_dependencies(
                dependencies,
            ).with_status(self.status).build(),
        )
    }
}

/// Render a list of task identifiers canonically.
fn render_task_ids(ids: &Vec<Id<TaskKind>>) -> (r: Vec<String>)
    ensures
        r@.len() == ids@.len(),
        forall|i: int| 0 <= i < ids@.len() ==> (#[trigger] r@[i])@ == spec_id_str::<TaskKind>(
            ids@[i].token,
        ),
{
    let mut r: Vec<String> = Vec::new();
    let n = ids.len();
    let mut j: usize = 0;
    while j < n
        invariant
            n == ids@.len(),
            j <= n,
            r@.len() == j,
            forall|k: int| 0 <= k < j ==> (#[trigger] r@[k])@ == spec_id_str::<TaskKind>(
                ids@[k].token,
            ),
        decreases n - j,
    {
        r.push(ids[j].to_string());
        j += 1;
    }
    r
}

/// Render a list of tag identifiers canonically.
fn render_task_ids_of_tags(ids: &Vec<Id<TagKind>>) -> (r: Vec<String>)
    ensures
        r@.len() == ids@.len(),
        forall|i: int| 0 <= i < ids@.len() ==> (#[trigger] r@[i])@ == spec_id_str::<TagKind>(
            ids@[i].token,
        ),
{
    let mut r: Vec<String> = Vec::new();
    let n = ids.len();
    let mut j: usize = 0;
    while j < n
        invariant
            n == ids@.len(),
            j <= n,
            r@.len() == j,
            forall|k: int| 0 <= k < j ==> (#[trigger] r@[k])@ == spec_id_str::<TagKind>(
                ids@[k].token,
            ),
        decreases n - j,
    {
        r.push(ids[j].to_string());
        j += 1;
    }
    r
}

} // verus!
