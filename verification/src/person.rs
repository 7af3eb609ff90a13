//! People: owners of projects and tasks.

use vstd::prelude::*;
use crate::builders::person_builder::PersonBuilder;
use crate::id::Id;
use crate::{HasId, PersonKind};

verus! {

/// A person: an identifier and a first and last name. No further
/// invariants.
pub struct Person {
    pub id: Id<PersonKind>,
    pub first_name: String,
    pub last_name: String,
}

impl Person {
    /// A person with a fresh identifier and the given names.
    pub fn new(first_name: &str, last_name: &str) -> (r: Person)
        ensures
            r.first_name@ == first_name@,
            r.last_name@ == last_name@,
    {
        PersonBuilder::new().with_first_name(first_name).with_last_name(last_name).build()
    }

    /// The finished person a builder describes.
    pub fn from_builder(builder: PersonBuilder) -> (r: Person)
        ensures
            r.id == builder.id,
            r.first_name == builder.first_name,
            r.last_name == builder.last_name,
    {
        Person { id: builder.id, first_name: builder.first_name, last_name: builder.last_name }
    }

    pub fn has_first_name(&self) -> (r: bool)
        ensures
            r == (self.first_name@.len() != 0),
    {
        !self.first_name.as_str().is_empty()
    }

    pub fn first_name(&self) -> (r: &str)
        ensures
            r@ == self.first_name@,
    {
        self.first_name.as_str()
    }

    pub fn set_first_name(&mut self, first_name: &str)
        ensures
            final(self).first_name@ == first_name@,
            final(self).id == old(self).id,
            final(self).last_name == old(self).last_name,
    {
        self.first_name = first_name.to_owned();
    }

    pub fn has_last_name(&self) -> (r: bool)
        ensures
            r == (self.last_name@.len() != 0),
    {
        !self.last_name.as_str().is_empty()
    }

    pub fn last_name(&self) -> (r: &str)
        ensures
            r@ == self.last_name@,
    {
        self.last_name.as_str()
    }

    pub fn set_last_name(&mut self, last_name: &str)
        ensures
            final(self).last_name@ == last_name@,
            final(self).id == old(self).id,
            final(self).first_name == old(self).first_name,
    {
        self.last_name = last_name.to_owned();
    }

    /// Replace both names at once.
    pub fn rename(&mut self, first_name: &str, last_name: &str)
        ensures
            final(self).first_name@ == first_name@,
            final(self).last_name@ == last_name@,
            final(self).id == old(self).id,
    {
        self.first_name = first_name.to_owned();
        self.last_name = last_name.to_owned();
    }
}

impl HasId for Person {
    type Entity = PersonKind;

    fn id(&self) -> (r: Id<PersonKind>)
        ensures
            r == self.id,
    {
        self.id
    }
}

} // verus!
