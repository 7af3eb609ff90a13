//! Storage records: the flattened shapes in which entities are persisted.
//!
//! A record carries identifiers as plain strings and the status by its
//! name. A project's tagged-union children are flattened to bare
//! identifier strings on write and disambiguated again on read by their
//! kind prefix — a lossy round trip that only the prefixes hold together.

use vstd::prelude::*;
use crate::builders::project_builder::ProjectBuilder;
use crate::builders::task_builder::TaskBuilder;
use crate::clock::Timestamp;
use crate::dto::project_dto::{ids_all_parse, ids_parse_to, parse_ids};
use crate::errors::DatabaseError;
use crate::id::{spec_id_str, spec_parse_id, Id, ParseIdError};
use crate::project::Project;
use crate::schedulable::SchedulableItem;
use crate::status::{spec_status_from_name, status_from_name};
use crate::task::Task;
use crate::{PersonKind, ProjectKind, TagKind, TaskKind};

verus! {

/// A project as it is persisted: identifiers as strings, the status by
/// name, children flattened to bare identifier strings.
#[derive(Clone, Debug)]
pub struct ProjectRecord {
    pub name: String,
    pub owner_id: Option<String>,
    pub description: Option<String>,
    pub tags: Vec<String>,
    pub start_date: Option<Timestamp>,
    pub due_date: Option<Timestamp>,
    pub children: Vec<String>,
    pub dependencies: Vec<String>,
    pub status: String,
}

/// A task as it is persisted.
#[derive(Clone, Debug)]
pub struct TaskRecord {
    pub name: String,
    pub owner_id: Option<String>,
    pub description: Option<String>,
    pub tags: Vec<String>,
    pub start_date: Option<Timestamp>,
    pub due_date: Option<Timestamp>,
    pub children: Vec<String>,
    pub dependencies: Vec<String>,
    pub status: String,
}

/// What reading back a flattened child string yields: a string with the
/// project prefix must decode as a project identifier; any other string
/// must decode as a task identifier; everything else is rejected.
pub open spec fn spec_sniff_child(s: Seq<char>) -> Option<SchedulableItem> {
    match spec_parse_id::<ProjectKind>(s) {
        Ok(id) => Some(SchedulableItem::Project(id)),
        Err(ParseIdError::WrongPrefix) => match spec_parse_id::<TaskKind>(s) {
            Ok(id) => Some(SchedulableItem::Task(id)),
            _ => None,
        },
        _ => None,
    }
}

/// Disambiguate one flattened child string by its kind prefix.
fn sniff_child(s: &str) -> (r: Option<SchedulableItem>)
    ensures
        r == spec_sniff_child(s@),
{
    match Id::<ProjectKind>::parse(s) {
        Ok(id) => Some(SchedulableItem::Project(id)),
        Err(ParseIdError::WrongPrefix) => match Id::<TaskKind>::parse(s) {
            Ok(id) => Some(SchedulableItem::Task(id)),
            _ => None,
        },
        _ => None,
    }
}

/// Every flattened child string disambiguates.
pub open spec fn children_all_sniff(ss: Seq<String>) -> bool {
    forall|i: int| 0 <= i < ss.len() ==> spec_sniff_child(#[trigger] ss[i]@) is Some
}

/// The flattened child strings disambiguate, element for element, to
/// exactly these children.
pub open spec fn children_sniff_to(ss: Seq<String>, items: Seq<SchedulableItem>) -> bool {
    &&& items.len() == ss.len()
    &&& forall|i: int| 0 <= i < ss.len() ==> spec_sniff_child(#[trigger] ss[i]@) == Some(items[i])
}

/// Disambiguate each flattened child string; nothing is returned when
/// any fails.
fn sniff_children(ss: &Vec<String>) -> (r: Option<Vec<SchedulableItem>>)
    ensures
        r matches Some(items) ==> children_sniff_to(ss@, items@),
        r is Some <==> children_all_sniff(ss@),
{
    let mut items: Vec<SchedulableItem> = Vec::new();
    let n = ss.len();
    let mut j: usize = 0;
    while j < n
        invariant
            n == ss@.len(),
            j <= n,
            items@.len() == j,
            forall|k: int| 0 <= k < j ==> spec_sniff_child(#[trigger] ss@[k]@) == Some(items@[k]),
        decreases n - j,
    {
        match sniff_child(ss[j].as_str()) {
            Some(item) => {
                items.push(item);
            },
            None => {
                return None;
            },
        }
        j += 1;
    }
    Some(items)
}

impl ProjectRecord {
    /// Flatten a project into its persisted shape. An empty description
    /// is persisted as no description, and each child — project or task —
    /// becomes its bare identifier string.
    pub fn from_project(project: &Project) -> (r: ProjectRecord)
        ensures
            r.name@ == project.name@,
            match project.owner_id {
                Some(o) => r.owner_id matches Some(s) && s@ == spec_id_str::<PersonKind>(o.token),
                None => r.owner_id is None,
            },
            match project.description {
                Some(d) => if d@.len() == 0 {
                    r.description is None
                } else {
                    r.description matches Some(rd) && rd@ == d@
                },
                None => r.description is None,
            },
            r.tags@.len() == project.tags@.len(),
            forall|i: int| 0 <= i < project.tags@.len() ==> (#[trigger] r.tags@[i])@
                == spec_id_str::<TagKind>(project.tags@[i].token),
            r.start_date == project.start_date,
            r.due_date == project.due_date,
            r.children@.len() == project.children@.len(),
            forall|i: int| 0 <= i < project.children@.len() ==> (#[trigger] r.children@[i])@ == (
            match project.children@[i] {
                SchedulableItem::Project(id) => spec_id_str::<ProjectKind>(id.token),
                SchedulableItem::Task(id) => spec_id_str::<TaskKind>(id.token),
            }),
            r.dependencies@.len() == project.dependencies@.len(),
            forall|i: int| 0 <= i < project.dependencies@.len() ==> (
            #[trigger] r.dependencies@[i])@ == spec_id_str::<ProjectKind>(
                project.dependencies@[i].token,
            ),
            r.status@ == project.status.spec_name(),
    {
        let name = project.name.clone();
        let owner_id = match &project.owner_id {
            Some(o) => Some(o.to_string()),
            None => None,
        };
        let description = match &project.description {
            Some(d) => if d.as_str().is_empty() {
                None
            } else {
                Some(d.clone())
            },
            None => None,
        };
        let mut tags: Vec<String> = Vec::new();
        let n_tags = project.tags.len();
        let mut j: usize = 0;
        while j < n_tags
            invariant
                n_tags == project.tags@.len(),
                j <= n_tags,
                tags@.len() == j,
                forall|k: int| 0 <= k < j ==> (#[trigger] tags@[k])@ == spec_id_str::<TagKind>(
                    project.tags@[k].token,
                ),
            decreases n_tags - j,
        {
            tags.push(project.tags[j].to_string());
            j += 1;
        }
        let mut children: Vec<String> = Vec::new();
        let n_children = project.children.len();
        let mut j2: usize = 0;
        while j2 < n_children
            invariant
                n_children == project.children@.len(),
                j2 <= n_children,
                children@.len() == j2,
                forall|k: int| 0 <= k < j2 ==> (#[trigger] children@[k])@ == (
                match project.children@[k] {
                    SchedulableItem::Project(id) => spec_id_str::<ProjectKind>(id.token),
                    SchedulableItem::Task(id) => spec_id_str::<TaskKind>(id.token),
                }),
            decreases n_children - j2,
        {
            match &project.children[j2] {
                SchedulableItem::Project(id) => children.push(id.to_string()),
                SchedulableItem::Task(id) => children.push(id.to_string()),
            }
            j2 += 1;
        }
        let mut dependencies: Vec<String> = Vec::new();
        let n_deps = project.dependencies.len();
        let mut j3: usize = 0;
        while j3 < n_deps
            invariant
                n_deps == project.dependencies@.len(),
                j3 <= n_deps,
                dependencies@.len() == j3,
                forall|k: int| 0 <= k < j3 ==> (#[trigger] dependencies@[k])@ == spec_id_str::<
                    ProjectKind,
                >(project.dependencies@[k].token),
            decreases n_deps - j3,
        {
            dependencies.push(project.dependencies[j3].to_string());
            j3 += 1;
        }
        ProjectRecord {
            name,
            owner_id,
            description,
            tags,
            start_date: project.start_date,
            due_date: project.due_date,
            children,
            dependencies,
            status: project.status.name().to_owned(),
        }
    }

    /// Rebuild a project from its persisted shape under the given
    /// identifier. Succeeds exactly when the status name and every
    /// identifier string parses — the children under their sniffed kind
    /// prefixes.
    pub fn into_project(self, id: Id<ProjectKind>) -> (r: Result<Project, DatabaseError>)
        ensures
            r is Ok <==> {
                &&& spec_status_from_name(self.status@) is Some
                &&& match self.owner_id {
                    Some(s) => spec_parse_id::<PersonKind>(s@) is Ok,
                    None => true,
                }
                &&& ids_all_parse::<TagKind>(self.tags@)
                &&& children_all_sniff(self.children@)
                &&& ids_all_parse::<ProjectKind>(self.dependencies@)
            },
            r matches Ok(p) ==> {
                &&& p.id == id
                &&& p.name@ == self.name@
                &&& match self.owner_id {
                    Some(s) => p.owner_id matches Some(o) && spec_parse_id::<PersonKind>(s@)
                        == Ok::<Id<PersonKind>, ParseIdError>(o),
                    None => p.owner_id is None,
                }
                &&& match self.description {
                    Some(d) => if d@.len() == 0 {
                        p.description is None
                    } else {
                        p.description matches Some(pd) && pd@ == d@
                    },
                    None => p.description is None,
                }
                &&& ids_parse_to::<TagKind>(self.tags@, p.tags@)
                &&& p.start_date == self.start_date
                &&& p.due_date == self.due_date
                &&& children_sniff_to(self.children@, p.children@)
                &&& ids_parse_to::<ProjectKind>(self.dependencies@, p.dependencies@)
                &&& spec_status_from_name(self.status@) == Some(p.status)
            },
            r matches Err(e) ==> e is QueryError,
    {
        let status = match status_from_name(self.status.as_str()) {
            Some(s) => s,
            None => {
                return Err(DatabaseError::QueryError("Invalid status".to_owned()));
            },
        };
        let owner_id = match &self.owner_id {
            Some(s) => match Id::<PersonKind>::parse(s.as_str()) {
                Ok(o) => Some(o),
                Err(_) => {
                    return Err(DatabaseError::QueryError("Invalid owner_id".to_owned()));
                },
            },
            None => None,
        };
        let tags = match parse_ids::<TagKind>(&self.tags) {
            Some(tags) => tags,
            None => {
                return Err(DatabaseError::QueryError("Invalid tag ID".to_owned()));
            },
        };
        let children = match sniff_children(&self.children) {
            Some(cs) => cs,
            None => {
                return Err(DatabaseError::QueryError("Unknown child type".to_owned()));
            },
        };
        let dependencies = match parse_ids::<ProjectKind>(&self.dependencies) {
            Some(ds) => ds,
            None => {
                return Err(DatabaseError::QueryError("Invalid dependency ID".to_owned()));
            },
        };
        let builder = ProjectBuilder::new().with_id(id).with_name(self.name.as_str()).with_status(
            status,
        ).with_tags(tags).with_children(children).with_dependencies(dependencies);
        let b2 = match owner_id {
            Some(o) => builder.with_owner_id(o),
            None => builder,
        };
        let b3 = match &self.description {
            Some(d) => if d.as_str().is_empty() {
                b2
            } else {
                b2.with_description(d.as_str())
            },
            None => b2,
        };
        Ok(
            b3.with_start_date(self.start_date).with_due_date(self.due_date).build(),
        )
    }
}

impl TaskRecord {
    /// Flatten a task into its persisted shape. An empty description is
    /// persisted as no description.
    pub fn from_task(task: &Task) -> (r: TaskRecord)
        ensures
            r.name@ == task.name@,
            match task.owner_id {
                Some(o) => r.owner_id matches Some(s) && s@ == spec_id_str::<PersonKind>(o.token),
                None => r.owner_id is None,
            },
            match task.description {
                Some(d) => if d@.len() == 0 {
                    r.description is None
                } else {
                    r.description matches Some(rd) && rd@ == d@
                },
                None => r.description is None,
            },
            r.tags@.len() == task.tags@.len(),
            forall|i: int| 0 <= i < task.tags@.len() ==> (#[trigger] r.tags@[i])@ == spec_id_str::<
                TagKind,
            >(task.tags@[i].token),
            r.start_date == task.start_date,
            r.due_date == task.due_date,
            r.children@.len() == task.children@.len(),
            forall|i: int| 0 <= i < task.children@.len() ==> (#[trigger] r.children@[i])@
                == spec_id_str::<TaskKind>(task.children@[i].token),
            r.dependencies@.len() == task.dependencies@.len(),
            forall|i: int| 0 <= i < task.dependencies@.len() ==> (#[trigger] r.dependencies@[i])@
                == spec_id_str::<TaskKind>(task.dependencies@[i].token),
            r.status@ == task.status.spec_name(),
    {
        let name = task.name.clone();
        let owner_id = match &task.owner_id {
            Some(o) => Some(o.to_string()),
            None => None,
        };
        let description = match &task.description {
            Some(d) => if d.as_str().is_empty() {
                None
            } else {
                Some(d.clone())
            },
            None => None,
        };
        let mut tags: Vec<String> = Vec::new();
        let n_tags = task.tags.len();
        let mut j: usize = 0;
        while j < n_tags
            invariant
                n_tags == task.tags@.len(),
                j <= n_tags,
                tags@.len() == j,
                forall|k: int| 0 <= k < j ==> (#[trigger] tags@[k])@ == spec_id_str::<TagKind>(
                    task.tags@[k].token,
                ),
            decreases n_tags - j,
        {
            tags.push(task.tags[j].to_string());
            j += 1;
        }
        let mut children: Vec<String> = Vec::new();
        let n_children = task.children.len();
        let mut j2: usize = 0;
        while j2 < n_children
            invariant
                n_children == task.children@.len(),
                j2 <= n_children,
                children@.len() == j2,
                forall|k: int| 0 <= k < j2 ==> (#[trigger] children@[k])@ == spec_id_str::<
                    TaskKind,
                >(task.children@[k].token),
            decreases n_children - j2,
        {
            children.push(task.children[j2].to_string());
            j2 += 1;
        }
        let mut dependencies: Vec<String> = Vec::new();
        let n_deps = task.dependencies.len();
        let mut j3: usize = 0;
        while j3 < n_deps
            invariant
                n_deps == task.dependencies@.len(),
                j3 <= n_deps,
                dependencies@.len() == j3,
                forall|k: int| 0 <= k < j3 ==> (#[trigger] dependencies@[k])@ == spec_id_str::<
                    TaskKind,
                >(task.dependencies@[k].token),
            decreases n_deps - j3,
        {
            dependencies.push(task.dependencies[j3].to_string());
            j3 += 1;
        }
        TaskRecord {
            name,
            owner_id,
            description,
            tags,
            start_date: task.start_date,
            due_date: task.due_date,
            children,
            dependencies,
            status: task.status.name().to_owned(),
        }
    }

    /// Rebuild a task from its persisted shape under the given
    /// identifier. Succeeds exactly when the status name and every
    /// identifier string parses.
    pub fn into_task(self, id: Id<TaskKind>) -> (r: Result<Task, DatabaseError>)
        ensures
            r is Ok <==> {
                &&& spec_status_from_name(self.status@) is Some
                &&& match self.owner_id {
                    Some(s) => spec_parse_id::<PersonKind>(s@) is Ok,
                    None => true,
                }
                &&& ids_all_parse::<TagKind>(self.tags@)
                &&& ids_all_parse::<TaskKind>(self.children@)
                &&& ids_all_parse::<TaskKind>(self.dependencies@)
            },
            r matches Ok(t) ==> {
                &&& t.id == id
                &&& t.name@ == self.name@
                &&& match self.owner_id {
                    Some(s) => t.owner_id matches Some(o) && spec_parse_id::<PersonKind>(s@)
                        == Ok::<Id<PersonKind>, ParseIdError>(o),
                    None => t.owner_id is None,
                }
                &&& match self.description {
                    Some(d) => if d@.len() == 0 {
                        t.description is None
                    } else {
                        t.description matches Some(td) && td@ == d@
                    },
                    None => t.description is None,
                }
                &&& ids_parse_to::<TagKind>(self.tags@, t.tags@)
                &&& t.start_date == self.start_date
                &&& t.due_date == self.due_date
                &&& ids_parse_to::<TaskKind>(self.children@, t.children@)
                &&& ids_parse_to::<TaskKind>(self.dependencies@, t.dependencies@)
                &&& spec_status_from_name(self.status@) == Some(t.status)
            },
            r matches Err(e) ==> e is QueryError,
    {
        let status = match status_from_name(self.status.as_str()) {
            Some(s) => s,
            None => {
                return Err(DatabaseError::QueryError("Invalid status".to_owned()));
            },
        };
        let owner_id = match &self.owner_id {
            Some(s) => match Id::<PersonKind>::parse(s.as_str()) {
                Ok(o) => Some(o),
                Err(_) => {
                    return Err(DatabaseError::QueryError("Invalid owner_id".to_owned()));
                },
            },
            None => None,
        };
        let tags = match parse_ids::<TagKind>(&self.tags) {
            Some(tags) => tags,
            None => {
                return Err(DatabaseError::QueryError("Invalid tag ID".to_owned()));
            },
        };
        let children = match parse_ids::<TaskKind>(&self.children) {
            Some(cs) => cs,
            None => {
                return Err(DatabaseError::QueryError("Invalid child task ID".to_owned()));
            },
        };
        let dependencies = match parse_ids::<TaskKind>(&self.dependencies) {
            Some(ds) => ds,
            None => {
                return Err(DatabaseError::QueryError("Invalid dependency ID".to_owned()));
            },
        };
        let builder = TaskBuilder::new().with_id(id).with_name(self.name.as_str()).with_status(
            status,
        ).with_tags(tags).with_children(children).with_dependencies(dependencies);
        let b2 = match owner_id {
            Some(o) => builder.with_owner_id(o),
            None => builder,
        };
        let b3 = match &self.description {
            Some(d) => if d.as_str().is_empty() {
                b2
            } else {
                b2.with_description(d.as_str())
            },
            None => b2,
        };
        Ok(
            b3.with_start_date(self.start_date).with_due_date(self.due_date).build(),
        )
    }
}

} // verus!
