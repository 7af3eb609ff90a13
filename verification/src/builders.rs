//! Builders: unchecked staging objects, one per entity kind.
//!
//! A builder starts from a fresh identifier and all-default fields,
//! accumulates values through `with_` setters that validate nothing, and
//! produces the finished entity with `build`. Reconstructing an entity
//! from storage supplies the persisted identifier through `with_id`.

pub mod person_builder;
pub mod project_builder;
pub mod tag_builder;
pub mod task_builder;
