//! Tags: named labels that projects and tasks carry, with an ordered list
//! of parent tags.
//!
//! A tag's one invariant is shallow: it never lists itself as its own
//! direct parent. Longer cycles in the parent graph are not checked.

use vstd::prelude::*;
use vstd::string::StrSliceExecFns;
use crate::builders::tag_builder::TagBuilder;
use crate::id::Id;
use crate::strings::is_space;
use crate::vecs::{
    add_step, all_removable, copy_vec, fold_add, fold_remove, lemma_all_removable_prefix,
    lemma_fold_add_snoc, lemma_fold_remove_snoc, not_self_guard, remove_first, vec_remove_first,
};
use crate::{HasId, TagKind};

verus! {

/// A tag: identifier, name, optional description, and the identifiers of
/// its parent tags in insertion order.
pub struct Tag {
    pub id: Id<TagKind>,
    pub name: String,
    pub description: Option<String>,
    pub parents: Vec<Id<TagKind>>,
}

impl Tag {
    /// A tag with a fresh identifier and the given name.
    pub fn new(name: &str) -> (r: Tag)
        ensures
            r.name@ == name@,
            r.parents@.len() == 0,
    {
        TagBuilder::new().with_name(name).build()
    }

    /// The finished tag a builder describes.
    pub fn from_builder(builder: TagBuilder) -> (r: Tag)
        ensures
            r.id == builder.id,
            r.name == builder.name,
            r.description == builder.description,
            r.parents == builder.parents,
    {
        Tag {
            id: builder.id,
            name: builder.name,
            description: builder.description,
            parents: builder.parents,
        }
    }

    pub fn name(&self) -> (r: &str)
        ensures
            r@ == self.name@,
    {
        self.name.as_str()
    }

    /// Rename the tag; a name holding whitespace is invalid and the rename
    /// is a no-op.
    pub fn rename(&mut self, name: &str)
        ensures
            final(self).name@ == (if spec_valid_tag_name(name@) {
                name@
            } else {
                old(self).name@
            }),
            final(self).id == old(self).id,
            final(self).description == old(self).description,
            final(self).parents == old(self).parents,
    {
        if self.is_valid_name(name) {
            self.name = name.to_owned();
        }
    }

    pub fn has_description(&self) -> (r: bool)
        ensures
            r == self.description.is_some(),
    {
        self.description.is_some()
    }

    /// The description, or the empty string when none is set.
    pub fn description(&self) -> (r: &str)
        ensures
            match self.description {
                Some(d) => r@ == d@,
                None => r@ == Seq::<char>::empty(),
            },
    {
        match &self.description {
            Some(d) => d.as_str(),
            None => {
                proof {
                    reveal_strlit("");
                    assert(""@ =~= Seq::<char>::empty());
                }
                ""
            },
        }
    }

    pub fn set_description(&mut self, description: &str)
        ensures
            final(self).description matches Some(d) && d@ == description@,
            final(self).id == old(self).id,
            final(self).name == old(self).name,
            final(self).parents == old(self).parents,
    {
        self.description = Some(description.to_owned());
    }

    pub fn clear_description(&mut self)
        ensures
            *final(self) == (Tag { description: None, ..*old(self) }),
    {
        self.description = None;
    }

    pub fn has_parents(&self) -> (r: bool)
        ensures
            r == (self.parents@.len() > 0),
    {
        self.parents.len() > 0
    }

    /// The parent identifiers, in insertion order.
    pub fn parents(&self) -> (r: Vec<Id<TagKind>>)
        ensures
            r@ == self.parents@,
    {
        copy_vec(&self.parents)
    }

    /// Add a parent; a direct self-reference is invalid and the add is a
    /// no-op.
    pub fn add_parent(&mut self, tag_id: Id<TagKind>)
        ensures
            *final(self) == (Tag {
                parents: final(self).parents,
                ..*old(self)
            }),
            final(self).parents@ == add_step(
                old(self).parents@,
                tag_id,
                not_self_guard(old(self).id),
            ),
    {
        if self.is_valid_parent(&tag_id) {
            self.parents.push(tag_id);
        }
    }

    /// Add each of the given parents in order, skipping self-references.
    pub fn add_parents(&mut self, tags: Vec<Id<TagKind>>)
        ensures
            *final(self) == (Tag {
                parents: final(self).parents,
                ..*old(self)
            }),
            final(self).parents@ == fold_add(
                old(self).parents@,
                tags@,
                not_self_guard(old(self).id),
            ),
    {
        let ghost keep = not_self_guard::<Id<TagKind>>(self.id);
        let n = tags.len();
        let mut j: usize = 0;
        while j < n
            invariant
                n == tags@.len(),
                j <= n,
                self.id == old(self).id,
                self.name == old(self).name,
                self.description == old(self).description,
                keep == not_self_guard::<Id<TagKind>>(old(self).id),
                self.parents@ == fold_add(old(self).parents@, tags@.take(j as int), keep),
            decreases n - j,
        {
            self.add_parent(tags[j]);
            proof {
                lemma_fold_add_snoc(old(self).parents@, tags@, keep, j as int);
            }
            j += 1;
        }
        proof {
            assert(tags@.take(n as int) =~= tags@);
        }
    }

    /// Remove a parent; the parent must be present.
    pub fn remove_parent(&mut self, tag: Id<TagKind>)
        requires
            old(self).parents@.contains(tag),
        ensures
            *final(self) == (Tag {
                parents: final(self).parents,
                ..*old(self)
            }),
            final(self).parents@ == remove_first(old(self).parents@, tag),
    {
        proof {
            crate::id::lemma_id_obeys_eq::<TagKind>();
        }
        vec_remove_first(&mut self.parents, &tag);
    }

    /// Remove each of the given parents in order; each must be present
    /// when its turn comes.
    pub fn remove_parents(&mut self, tags: Vec<Id<TagKind>>)
        requires
            all_removable(old(self).parents@, tags@),
        ensures
            *final(self) == (Tag {
                parents: final(self).parents,
                ..*old(self)
            }),
            final(self).parents@ == fold_remove(old(self).parents@, tags@),
    {
        let n = tags.len();
        let mut j: usize = 0;
        while j < n
            invariant
                n == tags@.len(),
                j <= n,
                self.id == old(self).id,
                self.name == old(self).name,
                self.description == old(self).description,
                all_removable(old(self).parents@, tags@),
                self.parents@ == fold_remove(old(self).parents@, tags@.take(j as int)),
            decreases n - j,
        {
            proof {
                lemma_all_removable_prefix(old(self).parents@, tags@, j as int);
                lemma_fold_remove_snoc(old(self).parents@, tags@, j as int);
            }
            self.remove_parent(tags[j]);
            j += 1;
        }
        proof {
            assert(tags@.take(n as int) =~= tags@);
        }
    }

    pub fn remove_all_parents(&mut self)
        ensures
            *final(self) == (Tag {
                parents: final(self).parents,
                ..*old(self)
            }),
            final(self).parents@.len() == 0,
    {
        self.parents.clear();
    }

    /// A tag name is valid when it holds no whitespace.
    pub fn is_valid_name(&self, name: &str) -> (r: bool)
        ensures
            r == spec_valid_tag_name(name@),
    {
        !contains_space(name)
    }

    /// A parent is valid when it is not the tag itself.
    pub fn is_valid_parent(&self, parent_to_validate: &Id<TagKind>) -> (r: bool)
        ensures
            r == (*parent_to_validate != self.id),
    {
        proof {
            crate::id::lemma_id_eq::<TagKind>(*parent_to_validate, self.id);
        }
        !(self.id == *parent_to_validate)
    }
}

impl HasId for Tag {
    type Entity = TagKind;

    fn id(&self) -> (r: Id<TagKind>)
        ensures
            r == self.id,
    {
        self.id
    }
}

/// A valid tag name holds no whitespace at all.
pub open spec fn spec_valid_tag_name(name: Seq<char>) -> bool {
    forall|i: int| 0 <= i < name.len() ==> !is_space(#[trigger] name[i])
}

fn contains_space(s: &str) -> (r: bool)
    ensures
        r == !spec_valid_tag_name(s@),
{
    let n = s.unicode_len();
    let mut j: usize = 0;
    while j < n
        invariant
            n == s@.len(),
            j <= n,
            forall|k: int| 0 <= k < j ==> !is_space(#[trigger] s@[k]),
        decreases n - j,
    {
        if crate::strings::char_is_space(s.get_char(j)) {
            return true;
        }
        j += 1;
    }
    false
}

} // verus!
