//! The codec's store of tags, `dcbor::TagsStore`, as this crate sees it.
//!
//! The store is not verified. Each function here makes one call into it, and
//! its contract says what the store's source shows of that call; the rest of
//! the crate is proved from these contracts.

use vstd::prelude::*;
use dcbor::{Tag, TagsStore, TagsStoreTrait};
use crate::model::TableView;

verus! {

/// `dcbor::TagsStore`, the codec's table of tags. Nothing in it can be seen
/// from here; what it holds is spoken of through `store_names` and
/// `store_numbers`.
#[verifier::external_type_specification]
#[verifier::external_body]
pub struct ExTagsStore(TagsStore);

/// The name that a store holds under each tag number: for each key of the
/// store's map by value, the name of the tag that stands there.
pub uninterp spec fn store_names(store: TagsStore) -> Map<u64, Seq<char>>;

/// The tag number that a store holds under each name: for each key of the
/// store's map by name, the value of the tag that stands there.
pub uninterp spec fn store_numbers(store: TagsStore) -> Map<Seq<char>, u64>;

/// Both maps of a store.
pub open spec fn table_of(store: TagsStore) -> TableView {
    TableView { by_number: store_names(store), by_name: store_numbers(store) }
}

/// `TagsStore::default`: a store with no tag in it.
#[verifier::external_body]
pub(crate) fn store_new() -> (store: TagsStore)
    ensures
        store_names(store) == (Map::<u64, Seq<char>>::empty()),
        store_numbers(store) == (Map::<Seq<char>, u64>::empty()),
{
    TagsStore::default()
}

/// `TagsStore::insert` of `Tag::new(number, name)`. The store panics on an
/// empty name and on a number that it holds under another name, so both are
/// left out. Otherwise it puts the tag under its number and under its name,
/// over whatever stood there, and touches nothing else.
#[verifier::external_body]
pub(crate) fn store_insert(store: &mut TagsStore, number: u64, name: &str)
    requires
        name@.len() > 0,
        store_names(*old(store)).contains_key(number) ==> store_names(*old(store))[number]
            == name@,
    ensures
        store_names(*final(store)) == store_names(*old(store)).insert(number, name@),
        store_numbers(*final(store)) == store_numbers(*old(store)).insert(name@, number),
{
    store.insert(Tag::new(number, name))
}

/// `TagsStore::tag_for_value`, handing out the name of the tag found: the
/// name held under `number`, if the store holds one. Every tag in a store has
/// a name, since the store takes no tag without one.
#[verifier::external_body]
pub(crate) fn store_name_of(store: &TagsStore, number: u64) -> (name: Option<String>)
    ensures
        name is Some <==> store_names(*store).contains_key(number),
        name is Some ==> name->0@ == store_names(*store)[number],
{
    store.tag_for_value(number).and_then(|tag| tag.name())
}

/// `TagsStore::tag_for_name`, handing out the value of the tag found: the
/// number held under `name`, if the store holds one.
#[verifier::external_body]
pub(crate) fn store_number_of(store: &TagsStore, name: &str) -> (number: Option<u64>)
    ensures
        number is Some <==> store_numbers(*store).contains_key(name@),
        number is Some ==> number->0 == store_numbers(*store)[name@],
{
    store.tag_for_name(name).map(|tag| tag.value())
}

/// `dcbor::register_tags_in`: registers the tags that the codec itself
/// defines, which is the date tag, number 1, under the name "date", and tells
/// the store how to print a date. The tag goes through the store's insertion,
/// so a store that holds 1 under another name is left out. With its
/// `num-bigint` feature the codec would register two tags more; this crate
/// does not turn that feature on.
#[verifier::external_body]
pub(crate) fn store_register_codec_tags(store: &mut TagsStore)
    requires
        store_names(*old(store)).contains_key(1) ==> store_names(*old(store))[1] == "date"@,
    ensures
        store_names(*final(store)) == store_names(*old(store)).insert(1, "date"@),
        store_numbers(*final(store)) == store_numbers(*old(store)).insert("date"@, 1),
{
    dcbor::register_tags_in(store)
}

} // verus!
