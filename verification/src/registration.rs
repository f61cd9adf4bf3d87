//! Registration of the catalog in a store, and what holds of a store after
//! it.

use vstd::prelude::*;
use dcbor::TagsStore;
use crate::catalog::{
    catalog, lemma_registration_set_distinct, registration_set, registration_tags,
};
use crate::error::TagError;
use crate::model::{
    distinct_entries, lemma_first_clash_none, lemma_first_clash_prefix, lemma_insert_all_holds,
    lemma_insert_all_presence, lemma_insert_all_step, lemma_insert_all_twice, lemma_next_fits,
    lists_name, lists_number, TableView,
};
use crate::store::{
    store_insert, store_name_of, store_number_of, store_register_codec_tags, table_of,
};
use crate::tag_spec::{entries_of, TagSpec};

verus! {

/// Whether the store holds the tag's number under another name
/// (`DuplicateTagNumber`) or, failing that, its name under another number
/// (`DuplicateTagName`).
fn clash_with(store: &TagsStore, spec: &TagSpec) -> (clash: Option<TagError>)
    ensures
        clash == table_of(*store).clash(spec@.0, spec@.1),
{
    match store_name_of(store, spec.number()) {
        Some(held) => {
            if !spec.is_named(&held) {
                return Some(TagError::DuplicateTagNumber);
            }
        },
        None => {},
    }
    match store_number_of(store, spec.name()) {
        Some(held) => {
            if held != spec.number() {
                return Some(TagError::DuplicateTagName);
            }
        },
        None => {},
    }
    None
}

/// The clash of the first of `specs` that clashes with the store.
fn first_clash_with(store: &TagsStore, specs: &Vec<TagSpec>) -> (clash: Option<TagError>)
    ensures
        clash == table_of(*store).first_clash(entries_of(specs@)),
{
    let ghost entries = entries_of(specs@);
    let mut i: usize = 0;
    while i < specs.len()
        invariant
            i <= specs.len(),
            entries == entries_of(specs@),
            table_of(*store).first_clash(entries.take(i as int)) is None,
        decreases specs.len() - i,
    {
        let clash = clash_with(store, &specs[i]);
        proof {
            assert(entries.take(i + 1).drop_last() =~= entries.take(i as int));
        }
        if clash.is_some() {
            proof {
                lemma_first_clash_prefix(table_of(*store), entries, i + 1);
            }
            return clash;
        }
        i += 1;
    }
    proof {
        assert(entries.take(specs.len() as int) =~= entries);
    }
    None
}

/// Registers the codec's own tags and then the catalog in `tags_store`.
///
/// A tag that the store already holds, under the same number and name, is
/// put in again, which changes nothing; so a second registration is harmless.
/// A store that holds one of the numbers under another name, or one of the
/// names under another number, is a mistake of the caller and is left out
/// here: `try_register_tags_in` tests for it.
pub fn register_tags_in(tags_store: &mut TagsStore)
    requires
        table_of(*old(tags_store)).first_clash(registration_set()) is None,
    ensures
        table_of(*final(tags_store)) == table_of(*old(tags_store)).insert_all(registration_set()),
{
    let ghost before = table_of(*tags_store);
    let ghost set = registration_set();
    proof {
        lemma_registration_set_distinct();
        lemma_next_fits(before, set, 0);
        lemma_insert_all_step(before, set, 0);
    }
    store_register_codec_tags(tags_store);
    let specs = catalog();
    let mut i: usize = 0;
    while i < specs.len()
        invariant
            i <= specs.len(),
            set == registration_set(),
            set.len() == specs.len() + 1,
            forall|j: int| 0 <= j < specs.len() ==> set[j + 1] == (#[trigger] specs@[j])@,
            distinct_entries(set),
            before.first_clash(set) is None,
            table_of(*tags_store) == before.insert_all(set.take(i + 1)),
        decreases specs.len() - i,
    {
        let spec = &specs[i];
        proof {
            lemma_next_fits(before, set, i + 1);
            lemma_insert_all_step(before, set, i + 1);
        }
        store_insert(tags_store, spec.number(), spec.name());
        i += 1;
    }
    proof {
        assert(set.take(specs.len() + 1) =~= set);
    }
}

/// Registers the codec's own tags and the catalog in `tags_store`, unless the
/// store holds one of their numbers under another name or one of their names
/// under another number. Then nothing is changed, and the clash of the first
/// such tag is returned.
pub fn try_register_tags_in(tags_store: &mut TagsStore) -> (done: Result<(), TagError>)
    ensures
        match table_of(*old(tags_store)).first_clash(registration_set()) {
            None => done is Ok && table_of(*final(tags_store))
                == table_of(*old(tags_store)).insert_all(registration_set()),
            Some(e) => done == Err::<(), TagError>(e) && table_of(*final(tags_store))
                == table_of(*old(tags_store)),
        },
{
    let specs = registration_tags();
    match first_clash_with(tags_store, &specs) {
        Some(e) => Err(e),
        None => {
            register_tags_in(tags_store);
            Ok(())
        },
    }
}

/// A table with nothing in it takes the registration set.
pub proof fn lemma_empty_table_registers()
    ensures
        TableView::empty().first_clash(registration_set()) is None,
{
    lemma_first_clash_none(TableView::empty(), registration_set());
}

/// After a registration every tag of the registration set is found under its
/// number, with its name, whatever the table held before.
pub proof fn lemma_round_trip_by_number(t: TableView, i: int)
    requires
        0 <= i < registration_set().len(),
    ensures
        t.insert_all(registration_set()).has_number(registration_set()[i].0),
        t.insert_all(registration_set()).by_number[registration_set()[i].0]
            == registration_set()[i].1,
{
    lemma_registration_set_distinct();
    lemma_insert_all_holds(t, registration_set(), i);
}

/// After a registration every tag of the registration set is found under its
/// name, with its number, whatever the table held before.
pub proof fn lemma_round_trip_by_name(t: TableView, i: int)
    requires
        0 <= i < registration_set().len(),
    ensures
        t.insert_all(registration_set()).has_name(registration_set()[i].1),
        t.insert_all(registration_set()).by_name[registration_set()[i].1]
            == registration_set()[i].0,
{
    lemma_registration_set_distinct();
    lemma_insert_all_holds(t, registration_set(), i);
}

/// A table that held nothing before its registration holds the numbers and
/// the names of the registration set and no others.
pub proof fn lemma_registered_exactly(number: u64, name: Seq<char>)
    ensures
        TableView::empty().insert_all(registration_set()).has_number(number) <==> lists_number(
            registration_set(),
            number,
        ),
        TableView::empty().insert_all(registration_set()).has_name(name) <==> lists_name(
            registration_set(),
            name,
        ),
{
    lemma_insert_all_presence(TableView::empty(), registration_set(), number, name);
}

/// A second registration finds no clash and changes nothing.
pub proof fn lemma_registration_idempotent(t: TableView)
    ensures
        t.insert_all(registration_set()).first_clash(registration_set()) is None,
        t.insert_all(registration_set()).insert_all(registration_set()) == t.insert_all(
            registration_set(),
        ),
{
    lemma_registration_set_distinct();
    lemma_insert_all_twice(t, registration_set());
}

/// Two tags of the registration set never stand in each other's way: they
/// differ in number and in name, and after a registration each is found
/// under its own number and under its own name. So a superseded number and
/// its successor are both recognised.
pub proof fn lemma_tags_coexist(t: TableView, i: int, j: int)
    requires
        0 <= i < registration_set().len(),
        0 <= j < registration_set().len(),
        i != j,
    ensures
        registration_set()[i].0 != registration_set()[j].0,
        registration_set()[i].1 != registration_set()[j].1,
        t.insert_all(registration_set()).by_number[registration_set()[i].0]
            == registration_set()[i].1,
        t.insert_all(registration_set()).by_number[registration_set()[j].0]
            == registration_set()[j].1,
        t.insert_all(registration_set()).by_name[registration_set()[i].1]
            == registration_set()[i].0,
        t.insert_all(registration_set()).by_name[registration_set()[j].1]
            == registration_set()[j].0,
{
    lemma_registration_set_distinct();
    lemma_insert_all_holds(t, registration_set(), i);
    lemma_insert_all_holds(t, registration_set(), j);
}

} // verus!
