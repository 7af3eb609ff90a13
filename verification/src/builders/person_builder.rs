//! Staging area for a [`crate::person::Person`].

use vstd::prelude::*;
use crate::id::Id;
use crate::person::Person;
use crate::{HasId, PersonKind};

verus! {

pub struct PersonBuilder {
    pub id: Id<PersonKind>,
    pub first_name: String,
    pub last_name: String,
}

impl PersonBuilder {
    /// A builder holding a fresh identifier and empty names.
    pub fn new() -> (r: PersonBuilder)
        ensures
            r.first_name@ == Seq::<char>::empty(),
            r.last_name@ == Seq::<char>::empty(),
    {
        PersonBuilder { id: Id::new(), first_name: String::new(), last_name: String::new() }
    }

    /// Use the given identifier instead of the generated one.
    pub fn with_id(self, id: Id<PersonKind>) -> (r: PersonBuilder)
        ensures
            r.id == id,
            r.first_name == self.first_name,
            r.last_name == self.last_name,
    {
        PersonBuilder { id, ..self }
    }

    pub fn with_first_name(self, first_name: &str) -> (r: PersonBuilder)
        ensures
            r.first_name@ == first_name@,
            r.id == self.id,
            r.last_name == self.last_name,
    {
        PersonBuilder { first_name: first_name.to_owned(), ..self }
    }

    pub fn with_last_name(self, last_name: &str) -> (r: PersonBuilder)
        ensures
            r.last_name@ == last_name@,
            r.id == self.id,
            r.first_name == self.first_name,
    {
        PersonBuilder { last_name: last_name.to_owned(), ..self }
    }

    pub fn first_name(&self) -> (r: String)
        ensures
            r@ == self.first_name@,
    {
        self.first_name.clone()
    }

    pub fn last_name(&self) -> (r: String)
        ensures
            r@ == self.last_name@,
    {
        self.last_name.clone()
    }

    /// The finished person.
    pub fn build(self) -> (r: Person)
        ensures
            r.id == self.id,
            r.first_name == self.first_name,
            r.last_name == self.last_name,
    {
        Person::from_builder(self)
    }
}

impl HasId for PersonBuilder {
    type Entity = PersonKind;

    fn id(&self) -> (r: Id<PersonKind>)
        ensures
            r == self.id,
    {
        self.id
    }
}

} // verus!
