//! A table of tags that takes each number and each name once.

use vstd::prelude::*;
use dcbor::TagsStore;
use crate::catalog::{lemma_registration_set_distinct, registration_set};
use crate::error::TagError;
use crate::model::{
    lemma_insert_all_consistent, lemma_insert_all_presence, lemma_insert_all_step,
    lemma_try_insert_all_ok, lemma_try_insert_all_prefix, lemma_try_insert_all_step, lists_name,
    lists_number, TableView,
};
use crate::registration::try_register_tags_in;
use crate::store::{store_insert, store_name_of, store_new, store_number_of, table_of};
use crate::tag_spec::{entries_of, TagSpec};

verus! {

/// A table of tags, found by number and by name.
///
/// No number and no name stands in it twice, and what is found under a number
/// is found under its name too. The tags are kept in a `dcbor::TagsStore`, which
/// the codec reads when it prints tagged items.
pub struct TagTable {
    store: TagsStore,
}

impl View for TagTable {
    type V = TableView;

    closed spec fn view(&self) -> TableView {
        table_of(self.store)
    }
}

/// Whether one of the first `k` tags has the number `number`.
fn number_listed(specs: &Vec<TagSpec>, k: usize, number: u64) -> (found: bool)
    requires
        k <= specs.len(),
    ensures
        found == lists_number(entries_of(specs@).take(k as int), number),
{
    let ghost front = entries_of(specs@).take(k as int);
    let mut j: usize = 0;
    while j < k
        invariant
            j <= k <= specs.len(),
            front == entries_of(specs@).take(k as int),
            forall|i: int| 0 <= i < j ==> (#[trigger] front[i]).0 != number,
        decreases k - j,
    {
        if specs[j].number() == number {
            assert(front[j as int].0 == number);
            return true;
        }
        j += 1;
    }
    false
}

/// Whether one of the first `k` tags has the name of `wanted`.
fn name_listed(specs: &Vec<TagSpec>, k: usize, wanted: &TagSpec) -> (found: bool)
    requires
        k <= specs.len(),
    ensures
        found == lists_name(entries_of(specs@).take(k as int), wanted@.1),
{
    let ghost front = entries_of(specs@).take(k as int);
    let mut j: usize = 0;
    while j < k
        invariant
            j <= k <= specs.len(),
            front == entries_of(specs@).take(k as int),
            forall|i: int| 0 <= i < j ==> (#[trigger] front[i]).1 != wanted@.1,
        decreases k - j,
    {
        if specs[j].same_name(wanted) {
            assert(front[j as int].1 == wanted@.1);
            return true;
        }
        j += 1;
    }
    false
}

impl Default for TagTable {
    fn default() -> (table: TagTable)
        ensures
            table@ == TableView::empty(),
            table@.consistent(),
    {
        TagTable::new()
    }
}

impl TagTable {
    #[verifier::type_invariant]
    spec fn mirrored(self) -> bool {
        table_of(self.store).consistent()
    }

    /// A table with no tag in it.
    pub fn new() -> (table: TagTable)
        ensures
            table@ == TableView::empty(),
            table@.consistent(),
    {
        TagTable { store: store_new() }
    }

    /// Puts one new tag in. A tag whose number is taken is refused with
    /// `DuplicateTagNumber`, one whose name is taken with `DuplicateTagName`;
    /// where both are taken the number is reported. A refusal changes nothing.
    pub fn insert(&mut self, spec: TagSpec) -> (done: Result<(), TagError>)
        ensures
            match old(self)@.try_insert(spec@.0, spec@.1) {
                Ok(t) => done is Ok && final(self)@ == t,
                Err(e) => done == Err::<(), TagError>(e) && final(self)@ == old(self)@,
            },
            final(self)@.consistent(),
    {
        proof {
            use_type_invariant(&*self);
        }
        let number = spec.number();
        let name = spec.name();
        if store_name_of(&self.store, number).is_some() {
            return Err(TagError::DuplicateTagNumber);
        }
        if store_number_of(&self.store, name).is_some() {
            return Err(TagError::DuplicateTagName);
        }
        let mut store = store_new();
        std::mem::swap(&mut store, &mut self.store);
        store_insert(&mut store, number, name);
        self.store = store;
        Ok(())
    }

    /// Puts a batch of new tags in, all of them or none. The batch is tried
    /// in order, each tag against the table and against the tags before it in
    /// the batch; the first refusal is returned and nothing is changed.
    pub fn insert_all(&mut self, specs: Vec<TagSpec>) -> (done: Result<(), TagError>)
        ensures
            match old(self)@.try_insert_all(entries_of(specs@)) {
                Ok(t) => done is Ok && final(self)@ == t,
                Err(e) => done == Err::<(), TagError>(e) && final(self)@ == old(self)@,
            },
            final(self)@.consistent(),
    {
        proof {
            use_type_invariant(&*self);
        }
        let ghost before = self@;
        let ghost entries = entries_of(specs@);
        let n = specs.len();
        let mut k: usize = 0;
        while k < n
            invariant
                k <= n == specs.len(),
                entries == entries_of(specs@),
                before == table_of(self.store),
                before.consistent(),
                before.try_insert_all(entries.take(k as int)) is Ok,
            decreases n - k,
        {
            let spec = &specs[k];
            let number = spec.number();
            proof {
                lemma_try_insert_all_step(before, entries, k as int);
                lemma_try_insert_all_ok(before, entries.take(k as int));
                lemma_insert_all_presence(before, entries.take(k as int), spec@.0, spec@.1);
            }
            if store_name_of(&self.store, number).is_some() || number_listed(&specs, k, number) {
                proof {
                    lemma_try_insert_all_prefix(before, entries, k + 1);
                }
                return Err(TagError::DuplicateTagNumber);
            }
            if store_number_of(&self.store, spec.name()).is_some() || name_listed(&specs, k, spec) {
                proof {
                    lemma_try_insert_all_prefix(before, entries, k + 1);
                }
                return Err(TagError::DuplicateTagName);
            }
            k += 1;
        }
        proof {
            assert(entries.take(n as int) =~= entries);
            lemma_try_insert_all_ok(before, entries);
        }
        let mut store = store_new();
        std::mem::swap(&mut store, &mut self.store);
        let mut k: usize = 0;
        while k < n
            invariant
                k <= n == specs.len(),
                entries == entries_of(specs@),
                before.try_insert_all(entries) is Ok,
                table_of(store) == before.insert_all(entries.take(k as int)),
                table_of(store).consistent(),
                table_of(self.store).consistent(),
            decreases n - k,
        {
            let spec = &specs[k];
            let name = spec.name();
            proof {
                lemma_try_insert_all_step(before, entries, k as int);
                if before.try_insert_all(entries.take(k + 1)) is Err {
                    lemma_try_insert_all_prefix(before, entries, k + 1);
                }
                lemma_try_insert_all_ok(before, entries.take(k as int));
                lemma_insert_all_step(before, entries, k as int);
            }
            store_insert(&mut store, spec.number(), name);
            k += 1;
        }
        self.store = store;
        Ok(())
    }

    /// Registers the codec's own tags and the catalog. A tag that the table
    /// already holds is passed over, so that a second registration changes
    /// nothing. Where the table holds one of the numbers under another name,
    /// or one of the names under another number, nothing is changed and the
    /// clash of the first such tag is returned.
    pub fn register_tags(&mut self) -> (done: Result<(), TagError>)
        ensures
            match old(self)@.first_clash(registration_set()) {
                None => done is Ok && final(self)@ == old(self)@.insert_all(registration_set()),
                Some(e) => done == Err::<(), TagError>(e) && final(self)@ == old(self)@,
            },
            final(self)@.consistent(),
    {
        proof {
            use_type_invariant(&*self);
            lemma_registration_set_distinct();
            if self@.first_clash(registration_set()) is None {
                lemma_insert_all_consistent(self@, registration_set());
            }
        }
        let mut store = store_new();
        std::mem::swap(&mut store, &mut self.store);
        let done = try_register_tags_in(&mut store);
        self.store = store;
        done
    }

    /// The tag with the number `number`, if the table holds one. Its name
    /// leads back to it, as the table is consistent.
    pub fn lookup_by_number(&self, number: u64) -> (found: Option<TagSpec>)
        ensures
            found is Some <==> self@.has_number(number),
            found is Some ==> found->0@ == (number, self@.by_number[number]),
            self@.consistent(),
    {
        proof {
            use_type_invariant(self);
        }
        match store_name_of(&self.store, number) {
            Some(name) => Some(TagSpec::from_parts(number, name)),
            None => None,
        }
    }

    /// The tag with the name `name`, if the table holds one. Its number
    /// leads back to it, as the table is consistent.
    pub fn lookup_by_name(&self, name: &str) -> (found: Option<TagSpec>)
        ensures
            found is Some <==> self@.has_name(name@),
            found is Some ==> found->0@ == (self@.by_name[name@], name@),
            self@.consistent(),
    {
        proof {
            use_type_invariant(self);
        }
        match store_number_of(&self.store, name) {
            Some(number) => Some(TagSpec::from_parts(number, name.to_owned())),
            None => None,
        }
    }

    /// Whether the table holds a tag with the number `number`.
    pub fn contains_number(&self, number: u64) -> (held: bool)
        ensures
            held == self@.has_number(number),
    {
        store_name_of(&self.store, number).is_some()
    }

    /// Whether the table holds a tag with the name `name`.
    pub fn contains_name(&self, name: &str) -> (held: bool)
        ensures
            held == self@.has_name(name@),
    {
        store_number_of(&self.store, name).is_some()
    }

    /// The store that holds the tags, for the codec to read.
    pub fn store(&self) -> (store: &TagsStore)
        ensures
            table_of(*store) == self@,
            self@.consistent(),
    {
        proof {
            use_type_invariant(self);
        }
        &self.store
    }
}

} // verus!
