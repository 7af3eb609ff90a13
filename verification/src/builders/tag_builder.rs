//! Staging area for a [`crate::tag::Tag`].

use vstd::prelude::*;
use crate::id::Id;
use crate::tag::Tag;
use crate::vecs::copy_vec;
use crate::{HasId, TagKind};

verus! {

pub struct TagBuilder {
    pub id: Id<TagKind>,
    pub name: String,
    pub description: Option<String>,
    pub parents: Vec<Id<TagKind>>,
}

impl TagBuilder {
    /// A builder holding a fresh identifier, an empty name and
    /// description, and no parents.
    pub fn new() -> (r: TagBuilder)
        ensures
            r.name@ == Seq::<char>::empty(),
            r.description matches Some(d) && d@ == Seq::<char>::empty(),
            r.parents@.len() == 0,
    {
        TagBuilder {
            id: Id::new(),
            name: String::new(),
            description: Some(String::new()),
            parents: Vec::new(),
        }
    }

    /// Use the given identifier instead of the generated one.
    pub fn with_id(self, id: Id<TagKind>) -> (r: TagBuilder)
        ensures
            r == (TagBuilder { id, ..self }),
    {
        TagBuilder { id, ..self }
    }

    pub fn with_name(self, name: &str) -> (r: TagBuilder)
        ensures
            r.name@ == name@,
            r.id == self.id,
            r.description == self.description,
            r.parents == self.parents,
    {
        TagBuilder { name: name.to_owned(), ..self }
    }

    pub fn with_description(self, description: &str) -> (r: TagBuilder)
        ensures
            r.description matches Some(d) && d@ == description@,
            r.id == self.id,
            r.name == self.name,
            r.parents == self.parents,
    {
        TagBuilder { description: Some(description.to_owned()), ..self }
    }

    pub fn with_parents(self, parents: Vec<Id<TagKind>>) -> (r: TagBuilder)
        ensures
            r == (TagBuilder { parents, ..self }),
    {
        TagBuilder { parents, ..self }
    }

    pub fn name(&self) -> (r: String)
        ensures
            r@ == self.name@,
    {
        self.name.clone()
    }

    pub fn description(&self) -> (r: Option<String>)
        ensures
            match r {
                Some(d) => self.description matches Some(sd) && d@ == sd@,
                None => self.description is None,
            },
    {
        match &self.description {
            Some(d) => Some(d.clone()),
            None => None,
        }
    }

    pub fn parents(&self) -> (r: Vec<Id<TagKind>>)
        ensures
            r@ == self.parents@,
    {
        copy_vec(&self.parents)
    }

    /// The finished tag.
    pub fn build(self) -> (r: Tag)
        ensures
            r.id == self.id,
            r.name == self.name,
            r.description == self.description,
            r.parents == self.parents,
    {
        Tag::from_builder(self)
    }
}

impl HasId for TagBuilder {
    type Entity = TagKind;

    fn id(&self) -> (r: Id<TagKind>)
        ensures
            r == self.id,
    {
        self.id
    }
}

} // verus!
