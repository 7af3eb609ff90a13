//! The request-handling services: payload conversion and the whole-entity
//! validation pass that guards acceptance.

pub mod project_services;
pub mod task_services;
