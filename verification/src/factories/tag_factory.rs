//! Sample tags.

use vstd::prelude::*;
use crate::builders::tag_builder::TagBuilder;
use crate::id::Id;
use crate::tag::Tag;
use crate::{HasId, TagKind};

verus! {

/// A tag with default values.
pub fn basic_tag() -> (r: Tag)
    ensures
        r.name@ == Seq::<char>::empty(),
{
    TagBuilder::new().build()
}

/// A tag with a sample name and description.
pub fn sample_tag() -> (r: Tag)
    ensures
        r.name@ == "SampleTag"@,
        r.description matches Some(d) && d@ == "This is a sample Tag"@,
        r.parents@.len() == 0,
{
    TagBuilder::new().with_name("SampleTag").with_description("This is a sample Tag").build()
}

/// The identifiers of three fresh tags.
pub fn sample_tags_list() -> (r: Vec<Id<TagKind>>)
    ensures
        r@.len() == 3,
{
    let tag1 = TagBuilder::new().build();
    let tag2 = TagBuilder::new().build();
    let tag3 = TagBuilder::new().build();
    let mut r: Vec<Id<TagKind>> = Vec::new();
    r.push(tag1.id());
    r.push(tag2.id());
    r.push(tag3.id());
    r
}

/// A tag with two fresh parents.
pub fn sample_child_tag() -> (r: Tag) {
    let mut tag1 = TagBuilder::new().build();
    let tag2 = TagBuilder::new().build();
    let tag3 = TagBuilder::new().build();
    let mut parents: Vec<Id<TagKind>> = Vec::new();
    parents.push(tag2.id());
    parents.push(tag3.id());
    tag1.add_parents(parents);
    tag1
}

} // verus!
