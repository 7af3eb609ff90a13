//! Wire payloads: the plain-string shapes in which entities travel over
//! the API, and their checked conversions to and from the entity types.

pub mod project_dto;
pub mod task_dto;
