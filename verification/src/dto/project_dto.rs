//! The project wire payload.

use vstd::prelude::*;
use crate::builders::project_builder::ProjectBuilder;
use crate::clock::{parse_rfc3339, render_rfc3339, rfc3339_millis, rfc3339_of, Timestamp};
use crate::errors::Error;
use crate::id::{spec_id_str, spec_parse_id, Id};
use crate::project::Project;
use crate::schedulable::SchedulableItem;
use crate::status::SchedulableItemStatus;
use crate::{EntityType, PersonKind, ProjectKind, TagKind, TaskKind};

verus! {

/// A child reference on the wire: the child's identifier string, tagged
/// with its kind.
#[derive(Clone, Debug)]
pub enum SchedulableItemDTO {
    Project(String),
    Task(String),
}

/// A project as it travels over the API: identifiers and dates as
/// strings.
#[derive(Clone, Debug)]
pub struct ProjectDTO {
    pub id: String,
    pub name: String,
    pub owner_id: Option<String>,
    pub description: Option<String>,
    pub tags: Vec<String>,
    pub start_date: Option<String>,
    pub due_date: Option<String>,
    pub children: Vec<SchedulableItemDTO>,
    pub dependencies: Vec<String>,
    pub status: SchedulableItemStatus,
}

/// Every string of the list parses as an identifier of kind `K`.
pub open spec fn ids_all_parse<K: EntityType>(ss: Seq<String>) -> bool {
    forall|i: int| 0 <= i < ss.len() ==> spec_parse_id::<K>(ss[i]@) is Ok
}

/// The strings parse, element for element, to exactly these identifiers.
pub open spec fn ids_parse_to<K: EntityType>(ss: Seq<String>, ids: Seq<Id<K>>) -> bool {
    &&& ids.len() == ss.len()
    &&& forall|i: int| 0 <= i < ss.len() ==> spec_parse_id::<K>(#[trigger] ss[i]@) == Ok::<Id<K>, crate::id::ParseIdError>(ids[i])
}

/// The wire child reference parses under its tagged kind.
pub open spec fn child_dto_parses(c: SchedulableItemDTO) -> bool {
    match c {
        SchedulableItemDTO::Project(s) => spec_parse_id::<ProjectKind>(s@) is Ok,
        SchedulableItemDTO::Task(s) => spec_parse_id::<TaskKind>(s@) is Ok,
    }
}

/// The wire child reference parses to exactly this child.
pub open spec fn child_dto_parses_to(c: SchedulableItemDTO, item: SchedulableItem) -> bool {
    match (c, item) {
        (SchedulableItemDTO::Project(s), SchedulableItem::Project(id)) => spec_parse_id::<
            ProjectKind,
        >(s@) == Ok::<Id<ProjectKind>, crate::id::ParseIdError>(id),
        (SchedulableItemDTO::Task(s), SchedulableItem::Task(id)) => spec_parse_id::<TaskKind>(s@)
            == Ok::<Id<TaskKind>, crate::id::ParseIdError>(id),
        _ => false,
    }
}

/// The optional wire date parses to exactly this optional instant.
pub open spec fn date_dto_parses_to(s: Option<String>, t: Option<Timestamp>) -> bool {
    match (s, t) {
        (Some(ds), Some(dt)) => rfc3339_millis(ds@) == Some(dt.millis),
        (None, None) => true,
        _ => false,
    }
}

/// Every field of the payload parses: the identifiers under their kinds
/// and the dates as RFC 3339.
pub open spec fn project_dto_parses(dto: ProjectDTO) -> bool {
    &&& spec_parse_id::<ProjectKind>(dto.id@) is Ok
    &&& match dto.owner_id {
        Some(s) => spec_parse_id::<PersonKind>(s@) is Ok,
        None => true,
    }
    &&& ids_all_parse::<TagKind>(dto.tags@)
    &&& match dto.start_date {
        Some(s) => rfc3339_millis(s@) is Some,
        None => true,
    }
    &&& match dto.due_date {
        Some(s) => rfc3339_millis(s@) is Some,
        None => true,
    }
    &&& forall|i: int| 0 <= i < dto.children@.len() ==> child_dto_parses(
        #[trigger] dto.children@[i],
    )
    &&& ids_all_parse::<ProjectKind>(dto.dependencies@)
}

/// The payload parses to exactly this project: each identifier under its
/// kind, the dates as RFC 3339, an absent description as the empty
/// description, and the status carried over.
pub open spec fn dto_parses_to_project(dto: ProjectDTO, p: Project) -> bool {
    &&& spec_parse_id::<ProjectKind>(dto.id@) == Ok::<Id<ProjectKind>, crate::id::ParseIdError>(
        p.id,
    )
    &&& p.name@ == dto.name@
    &&& match dto.owner_id {
        Some(s) => p.owner_id matches Some(o) && spec_parse_id::<PersonKind>(s@) == Ok::<
            Id<PersonKind>,
            crate::id::ParseIdError,
        >(o),
        None => p.owner_id is None,
    }
    &&& p.description matches Some(d) && d@ == match dto.description {
        Some(sd) => sd@,
        None => Seq::<char>::empty(),
    }
    &&& ids_parse_to::<TagKind>(dto.tags@, p.tags@)
    &&& date_dto_parses_to(dto.start_date, p.start_date)
    &&& date_dto_parses_to(dto.due_date, p.due_date)
    &&& p.children@.len() == dto.children@.len()
    &&& forall|i: int| 0 <= i < dto.children@.len() ==> child_dto_parses_to(
        #[trigger] dto.children@[i],
        p.children@[i],
    )
    &&& ids_parse_to::<ProjectKind>(dto.dependencies@, p.dependencies@)
    &&& p.status == dto.status
}

/// Parse each string of the list as an identifier of kind `K`; nothing is
/// returned when any of them fails.
pub fn parse_ids<K: EntityType>(ss: &Vec<String>) -> (r: Option<Vec<Id<K>>>)
    ensures
        r matches Some(ids) ==> ids_parse_to::<K>(ss@, ids@),
        r is Some <==> ids_all_parse::<K>(ss@),
{
    let mut ids: Vec<Id<K>> = Vec::new();
    let n = ss.len();
    let mut j: usize = 0;
    while j < n
        invariant
            n == ss@.len(),
            j <= n,
            ids@.len() == j,
            forall|k: int| 0 <= k < j ==> spec_parse_id::<K>(#[trigger] ss@[k]@) == Ok::<Id<K>, crate::id::ParseIdError>(ids@[k]),
        decreases n - j,
    {
        match Id::<K>::parse(ss[j].as_str()) {
            Ok(id) => {
                ids.push(id);
            },
            Err(_) => {
                return None;
            },
        }
        j += 1;
    }
    Some(ids)
}

/// Parse each wire child reference; nothing is returned when any fails.
fn parse_children(cs: &Vec<SchedulableItemDTO>) -> (r: Option<Vec<SchedulableItem>>)
    ensures
        r matches Some(items) ==> {
            &&& items@.len() == cs@.len()
            &&& forall|i: int| 0 <= i < cs@.len() ==> child_dto_parses_to(
                #[trigger] cs@[i],
                items@[i],
            )
        },
        r is Some <==> (forall|i: int| 0 <= i < cs@.len() ==> child_dto_parses(#[trigger] cs@[i])),
{
    let mut items: Vec<SchedulableItem> = Vec::new();
    let n = cs.len();
    let mut j: usize = 0;
    while j < n
        invariant
            n == cs@.len(),
            j <= n,
            items@.len() == j,
            forall|k: int| 0 <= k < j ==> child_dto_parses_to(#[trigger] cs@[k], items@[k]),
        decreases n - j,
    {
        match &cs[j] {
            SchedulableItemDTO::Project(s) => {
                match Id::<ProjectKind>::parse(s.as_str()) {
                    Ok(id) => {
                        items.push(SchedulableItem::Project(id));
                    },
                    Err(_) => {
                        return None;
                    },
                }
            },
            SchedulableItemDTO::Task(s) => {
                match Id::<TaskKind>::parse(s.as_str()) {
                    Ok(id) => {
                        items.push(SchedulableItem::Task(id));
                    },
                    Err(_) => {
                        return None;
                    },
                }
            },
        }
        j += 1;
    }
    Some(items)
}

/// Parse an optional RFC 3339 date string; an `Err` names the failing
/// string.
pub fn parse_date_field(s: &Option<String>) -> (r: Result<Option<Timestamp>, ()>)
    ensures
        r matches Ok(t) ==> date_dto_parses_to(*s, t),
        r is Ok <==> match *s {
            Some(ds) => rfc3339_millis(ds@) is Some,
            None => true,
        },
{
    match s {
        Some(ds) => match parse_rfc3339(ds.as_str()) {
            Some(m) => Ok(Some(Timestamp::from_millis(m))),
            None => Err(()),
        },
        None => Ok(None),
    }
}

impl SchedulableItemDTO {
    /// The wire form of a child reference: its identifier string under
    /// its kind's tag.
    pub fn from_item(item: &SchedulableItem) -> (r: SchedulableItemDTO)
        ensures
            match *item {
                SchedulableItem::Project(id) => r matches SchedulableItemDTO::Project(s) && s@
                    == spec_id_str::<ProjectKind>(id.token),
                SchedulableItem::Task(id) => r matches SchedulableItemDTO::Task(s) && s@
                    == spec_id_str::<TaskKind>(id.token),
            },
    {
        match item {
            SchedulableItem::Project(id) => SchedulableItemDTO::Project(id.to_string()),
            SchedulableItem::Task(id) => SchedulableItemDTO::Task(id.to_string()),
        }
    }

    /// Parse the wire child reference back, under its tagged kind.
    pub fn to_item(&self) -> (r: Result<SchedulableItem, Error>)
        ensures
            r matches Ok(item) ==> child_dto_parses_to(*self, item),
            r is Ok <==> child_dto_parses(*self),
    {
        match self {
            SchedulableItemDTO::Project(s) => match Id::<ProjectKind>::parse(s.as_str()) {
                Ok(id) => Ok(SchedulableItem::Project(id)),
                Err(e) => Err(Error::ParseError(e)),
            },
            SchedulableItemDTO::Task(s) => match Id::<TaskKind>::parse(s.as_str()) {
                Ok(id) => Ok(SchedulableItem::Task(id)),
                Err(e) => Err(Error::ParseError(e)),
            },
        }
    }
}

impl ProjectDTO {
    pub fn id(&self) -> (r: String)
        ensures
            r@ == self.id@,
    {
        self.id.clone()
    }

    /// The wire form of a project: identifiers rendered canonically and
    /// dates rendered as RFC 3339. A date is dropped only when it lies
    /// outside the renderable range.
    pub fn from_project(project: &Project) -> (r: ProjectDTO)
        ensures
            r.id@ == spec_id_str::<ProjectKind>(project.id.token),
            r.name@ == project.name@,
            match project.owner_id {
                Some(o) => r.owner_id matches Some(s) && s@ == spec_id_str::<PersonKind>(o.token),
                None => r.owner_id is None,
            },
            r.description matches Some(d) && d@ == match project.description {
                Some(pd) => pd@,
                None => Seq::<char>::empty(),
            },
            r.tags@.len() == project.tags@.len(),
            forall|i: int| 0 <= i < project.tags@.len() ==> (#[trigger] r.tags@[i])@
                == spec_id_str::<TagKind>(project.tags@[i].token),
            match project.start_date {
                Some(t) => r.start_date matches Some(s) ==> s@ == rfc3339_of(t.millis),
                None => r.start_date is None,
            },
            match project.due_date {
                Some(t) => r.due_date matches Some(s) ==> s@ == rfc3339_of(t.millis),
                None => r.due_date is None,
            },
            r.children@.len() == project.children@.len(),
            forall|i: int| 0 <= i < project.children@.len() ==> match project.children@[i] {
                SchedulableItem::Project(id) => (#[trigger] r.children@[i])
                    matches SchedulableItemDTO::Project(s) && s@ == spec_id_str::<ProjectKind>(
                    id.token,
                ),
                SchedulableItem::Task(id) => r.children@[i] matches SchedulableItemDTO::Task(s)
                    && s@ == spec_id_str::<TaskKind>(id.token),
            },
            r.dependencies@.len() == project.dependencies@.len(),
            forall|i: int| 0 <= i < project.dependencies@.len() ==> (
            #[trigger] r.dependencies@[i])@ == spec_id_str::<ProjectKind>(
                project.dependencies@[i].token,
            ),
            r.status == project.status,
    {
        let id = project.id.to_string();
        let name = project.name.clone();
        let owner_id = match &project.owner_id {
            Some(o) => Some(o.to_string()),
            None => None,
        };
        let description = match &project.description {
            Some(d) => d.clone(),
            None => String::new(),
        };
        let mut tags: Vec<String> = Vec::new();
        let n_tags = project.tags.len();
        let mut j: usize = 0;
        while j < n_tags
            invariant
                n_tags == project.tags@.len(),
                j <= n_tags,
                tags@.len() == j,
                forall|k: int| 0 <= k < j ==> (#[trigger] tags@[k])@ == spec_id_str::<TagKind>(
                    project.tags@[k].token,
                ),
            decreases n_tags - j,
        {
            tags.push(project.tags[j].to_string());
            j += 1;
        }
        let start_date = match &project.start_date {
            Some(t) => render_rfc3339(t.millis),
            None => None,
        };
        let due_date = match &project.due_date {
            Some(t) => render_rfc3339(t.millis),
            None => None,
        };
        let mut children: Vec<SchedulableItemDTO> = Vec::new();
        let n_children = project.children.len();
        let mut j2: usize = 0;
        while j2 < n_children
            invariant
                n_children == project.children@.len(),
                j2 <= n_children,
                children@.len() == j2,
                forall|k: int| 0 <= k < j2 ==> match project.children@[k] {
                    SchedulableItem::Project(id) => (#[trigger] children@[k])
                        matches SchedulableItemDTO::Project(s) && s@ == spec_id_str::<ProjectKind>(
                        id.token,
                    ),
                    SchedulableItem::Task(id) => children@[k] matches SchedulableItemDTO::Task(s)
                        && s@ == spec_id_str::<TaskKind>(id.token),
                },
            decreases n_children - j2,
        {
            children.push(SchedulableItemDTO::from_item(&project.children[j2]));
            j2 += 1;
        }
        let mut dependencies: Vec<String> = Vec::new();
        let n_deps = project.dependencies.len();
        let mut j3: usize = 0;
        while j3 < n_deps
            invariant
                n_deps == project.dependencies@.len(),
                j3 <= n_deps,
                dependencies@.len() == j3,
                forall|k: int| 0 <= k < j3 ==> (#[trigger] dependencies@[k])@ == spec_id_str::<
                    ProjectKind,
                >(project.dependencies@[k].token),
            decreases n_deps - j3,
        {
            dependencies.push(project.dependencies[j3].to_string());
            j3 += 1;
        }
        ProjectDTO {
            id,
            name,
            owner_id,
            description: Some(description),
            tags,
            start_date,
            due_date,
            children,
            dependencies,
            status: project.status,
        }
    }

    /// Parse the payload back into a project. Succeeds exactly when every
    /// identifier parses under its kind and every date parses as RFC
    /// 3339; an absent description becomes the empty description, as the
    /// wire format does not distinguish the two.
    pub fn to_project(self) -> (r: Result<Project, Error>)
        ensures
            r is Ok <==> project_dto_parses(self),
            r matches Ok(p) ==> dto_parses_to_project(self, p),
            r matches Err(e) ==> (e is ParseError || e is ProjectError),
    {
        let id = match Id::<ProjectKind>::parse(self.id.as_str()) {
            Ok(id) => id,
            Err(e) => {
                return Err(Error::ParseError(e));
            },
        };
        let owner_id = match &self.owner_id {
            Some(s) => match Id::<PersonKind>::parse(s.as_str()) {
                Ok(o) => Some(o),
                Err(e) => {
                    return Err(Error::ParseError(e));
                },
            },
            None => None,
        };
        let description = match &self.description {
            Some(d) => d.clone(),
            None => String::new(),
        };
        let tags = match parse_ids::<TagKind>(&self.tags) {
            Some(tags) => tags,
            None => {
                return Err(Error::ProjectError("Invalid project tag id".to_owned()));
            },
        };
        let start_date = match parse_date_field(&self.start_date) {
            Ok(t) => t,
            Err(_) => {
                return Err(Error::ProjectError("Invalid project start date".to_owned()));
            },
        };
        let due_date = match parse_date_field(&self.due_date) {
            Ok(t) => t,
            Err(_) => {
                return Err(Error::ProjectError("Invalid project due date".to_owned()));
            },
        };
        let children = match parse_children(&self.children) {
            Some(cs) => cs,
            None => {
                return Err(Error::ProjectError("Invalid project child id".to_owned()));
            },
        };
        let dependencies = match parse_ids::<ProjectKind>(&self.dependencies) {
            Some(ds) => ds,
            None => {
                return Err(Error::ProjectError("Invalid project dependency".to_owned()));
            },
        };
        let builder = ProjectBuilder::new().with_id(id).with_name(self.name.as_str());
        let b2 = match owner_id {
            Some(o) => builder.with_owner_id(o),
            None => builder,
        };
        Ok(
            b2.with_description(description.as_str()).with_tags(tags).with_start_date(
                start_date,
            ).with_due_date(due_date).with_children(children).with_dependencies(
                dependencies,
            ).with_status(self.status).build(),
        )
    }
}

} // verus!
