//! Core model of a project/task tracker: typed identifiers, entity records
//! with builders, a shared schedulable capability over projects and tasks,
//! a seven-state status lifecycle, and schedule/relationship validation.

pub mod builders;
pub mod cli;
pub mod clock;
pub mod dto;
pub mod errors;
pub mod factories;
pub mod id;
pub mod person;
pub mod project;
pub mod record;
pub mod schedulable;
pub mod services;
pub mod status;
pub mod strings;
pub mod tag;
pub mod task;
pub mod vecs;

use vstd::prelude::*;
use crate::id::Id;

verus! {

/// An entity kind with a fixed identifier prefix. Implemented by the four
/// marker types below, which tag identifiers at the type level so that
/// identifiers of different kinds can never be mixed up.
pub trait EntityType {
    /// The prefix as a mathematical sequence of characters.
    spec fn spec_prefix() -> Seq<char>;

    /// The prefix never contains the separator and is never empty, so the
    /// canonical string form of an identifier splits unambiguously.
    proof fn prefix_wf()
        ensures
            forall|i: int| 0 <= i < Self::spec_prefix().len() ==> Self::spec_prefix()[i] != '-',
            Self::spec_prefix().len() > 0,
    ;

    fn prefix() -> (r: &'static str)
        ensures
            r@ == Self::spec_prefix(),
    ;
}

/// Type-level tag for person identifiers.
#[derive(Clone, Copy, Debug, PartialEq, Eq, Structural)]
pub struct PersonKind;

/// Type-level tag for tag identifiers.
#[derive(Clone, Copy, Debug, PartialEq, Eq, Structural)]
pub struct TagKind;

/// Type-level tag for project identifiers.
#[derive(Clone, Copy, Debug, PartialEq, Eq, Structural)]
pub struct ProjectKind;

/// Type-level tag for task identifiers.
#[derive(Clone, Copy, Debug, PartialEq, Eq, Structural)]
pub struct TaskKind;

impl EntityType for PersonKind {
    open spec fn spec_prefix() -> Seq<char> {
        "person"@
    }

    proof fn prefix_wf() {
        reveal_strlit("person");
    }

    fn prefix() -> (r: &'static str) {
        "person"
    }
}

impl EntityType for TagKind {
    open spec fn spec_prefix() -> Seq<char> {
        "tag"@
    }

    proof fn prefix_wf() {
        reveal_strlit("tag");
    }

    fn prefix() -> (r: &'static str) {
        "tag"
    }
}

impl EntityType for ProjectKind {
    open spec fn spec_prefix() -> Seq<char> {
        "project"@
    }

    proof fn prefix_wf() {
        reveal_strlit("project");
    }

    fn prefix() -> (r: &'static str) {
        "project"
    }
}

impl EntityType for TaskKind {
    open spec fn spec_prefix() -> Seq<char> {
        "task"@
    }

    proof fn prefix_wf() {
        reveal_strlit("task");
    }

    fn prefix() -> (r: &'static str) {
        "task"
    }
}

/// An entity (or builder) that carries a typed identifier.
pub trait HasId {
    type Entity;

    fn id(&self) -> Id<Self::Entity>;
}

} // verus!
