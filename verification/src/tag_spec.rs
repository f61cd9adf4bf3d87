//! A tag: a number and a name.

use vstd::prelude::*;
use vstd::std_specs::cmp::PartialEqSpecImpl;
use crate::error::TagError;
use crate::model::Entry;

verus! {

/// One tag: its number on the wire and its short symbolic name.
///
/// A `TagSpec` never changes after it is made, and its name is never empty.
#[derive(Debug, Eq)]
pub struct TagSpec {
    number: u64,
    name: String,
}

impl View for TagSpec {
    type V = Entry;

    closed spec fn view(&self) -> Entry {
        (self.number, self.name@)
    }
}

impl TagSpec {
    #[verifier::type_invariant]
    spec fn named(self) -> bool {
        self.name@.len() > 0
    }

    /// Pairs `number` with `name`; an empty name is refused.
    pub fn new(number: u64, name: &str) -> (made: Result<TagSpec, TagError>)
        ensures
            name@.len() == 0 ==> made == Err::<TagSpec, TagError>(TagError::InvalidTagSpec),
            name@.len() > 0 ==> made is Ok && made->Ok_0@ == (number, name@),
    {
        if name.is_empty() {
            Err(TagError::InvalidTagSpec)
        } else {
            Ok(TagSpec { number, name: name.to_owned() })
        }
    }

    /// Pairs `number` with a name that is known to have a character.
    pub(crate) fn from_parts(number: u64, name: String) -> (made: TagSpec)
        requires
            name@.len() > 0,
        ensures
            made@ == (number, name@),
    {
        TagSpec { number, name }
    }

    /// The tag's number.
    pub fn number(&self) -> (number: u64)
        ensures
            number == self@.0,
    {
        self.number
    }

    /// The tag's name.
    pub fn name(&self) -> (name: &str)
        ensures
            name@ == self@.1,
            name@.len() > 0,
    {
        proof {
            use_type_invariant(self);
        }
        self.name.as_str()
    }

    /// Whether the two tags have the same name.
    pub fn same_name(&self, other: &TagSpec) -> (same: bool)
        ensures
            same == (self@.1 == other@.1),
    {
        self.name == other.name
    }

    /// Whether the tag's name is `name`.
    pub(crate) fn is_named(&self, name: &String) -> (same: bool)
        ensures
            same == (self@.1 == name@),
    {
        self.name == *name
    }
}

/// The number and name of each tag, in order.
pub open spec fn entries_of(specs: Seq<TagSpec>) -> Seq<Entry> {
    specs.map_values(|s: TagSpec| s@)
}

impl Clone for TagSpec {
    fn clone(&self) -> (copy: TagSpec)
        ensures
            copy@ == self@,
    {
        proof {
            use_type_invariant(self);
        }
        TagSpec { number: self.number, name: self.name.clone() }
    }
}

impl PartialEq for TagSpec {
    fn eq(&self, other: &TagSpec) -> (same: bool) {
        self.number == other.number && self.name == other.name
    }
}

impl PartialEqSpecImpl for TagSpec {
    open spec fn obeys_eq_spec() -> bool {
        true
    }

    open spec fn eq_spec(&self, other: &TagSpec) -> bool {
        self@ == other@
    }
}

} // verus!
