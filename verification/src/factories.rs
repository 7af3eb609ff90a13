//! Ready-made sample entities: a plain value of each kind, and the richer
//! samples the tests and placeholder services build on.

pub mod person_factory;
pub mod tag_factory;
pub mod project_factory;
pub mod task_factory;
