//! What a table of tags is, as mathematics: two maps, what it means to put a
//! tag or a run of tags into them, and what follows from that.
//!
//! The executable code states its contracts over these definitions.

use vstd::prelude::*;
use crate::error::TagError;

verus! {

/// A tag as the contracts speak of it: its number and the characters of its
/// name.
pub type Entry = (u64, Seq<char>);

/// What a tag table holds: the name under each number and the number under
/// each name.
#[verifier::ext_equal]
pub struct TableView {
    pub by_number: Map<u64, Seq<char>>,
    pub by_name: Map<Seq<char>, u64>,
}

/// Some entry of `entries` has the number `number`.
pub open spec fn lists_number(entries: Seq<Entry>, number: u64) -> bool {
    exists|i: int| 0 <= i < entries.len() && (#[trigger] entries[i]).0 == number
}

/// Some entry of `entries` has the name `name`.
pub open spec fn lists_name(entries: Seq<Entry>, name: Seq<char>) -> bool {
    exists|i: int| 0 <= i < entries.len() && (#[trigger] entries[i]).1 == name
}

/// No two entries share a number, and no two share a name.
pub open spec fn distinct_entries(entries: Seq<Entry>) -> bool {
    forall|i: int, j: int|
        0 <= i < j < entries.len() ==> (#[trigger] entries[i]).0 != (#[trigger] entries[j]).0
            && entries[i].1 != entries[j].1
}

/// Every entry has a name of at least one character.
pub open spec fn named_entries(entries: Seq<Entry>) -> bool {
    forall|i: int| 0 <= i < entries.len() ==> (#[trigger] entries[i]).1.len() > 0
}

impl TableView {
    /// The table with nothing in it.
    pub open spec fn empty() -> TableView {
        TableView { by_number: Map::empty(), by_name: Map::empty() }
    }

    /// The table holds a tag with the number `number`.
    pub open spec fn has_number(self, number: u64) -> bool {
        self.by_number.contains_key(number)
    }

    /// The table holds a tag with the name `name`.
    pub open spec fn has_name(self, name: Seq<char>) -> bool {
        self.by_name.contains_key(name)
    }

    /// How many tags the table holds.
    pub open spec fn len(self) -> nat {
        self.by_number.dom().len()
    }

    /// The table is finite, the two maps mirror each other, and no name is
    /// empty: what stands under a number stands under its name too, with that
    /// number, and the other way round.
    pub open spec fn consistent(self) -> bool {
        &&& self.by_number.dom().finite()
        &&& self.by_name.dom().finite()
        &&& forall|n: u64| #[trigger]
            self.by_number.contains_key(n) ==> {
                &&& self.by_number[n].len() > 0
                &&& self.by_name.contains_key(self.by_number[n])
                &&& self.by_name[self.by_number[n]] == n
            }
        &&& forall|s: Seq<char>| #[trigger]
            self.by_name.contains_key(s) ==> {
                &&& self.by_number.contains_key(self.by_name[s])
                &&& self.by_number[self.by_name[s]] == s
            }
    }

    /// The table after `name` is put under `number` and `number` under `name`,
    /// over whatever stood there.
    pub open spec fn insert(self, number: u64, name: Seq<char>) -> TableView {
        TableView {
            by_number: self.by_number.insert(number, name),
            by_name: self.by_name.insert(name, number),
        }
    }

    /// The table after every entry is put in, in order.
    pub open spec fn insert_all(self, entries: Seq<Entry>) -> TableView
        decreases entries.len(),
    {
        if entries.len() == 0 {
            self
        } else {
            self.insert_all(entries.drop_last()).insert(entries.last().0, entries.last().1)
        }
    }

    /// What stands in the way of the pair, if anything: the number held under
    /// another name (`DuplicateTagNumber`) or, failing that, the name held
    /// under another number (`DuplicateTagName`). A pair that the table holds
    /// as it is does not clash.
    pub open spec fn clash(self, number: u64, name: Seq<char>) -> Option<TagError> {
        if self.has_number(number) && self.by_number[number] != name {
            Some(TagError::DuplicateTagNumber)
        } else if self.has_name(name) && self.by_name[name] != number {
            Some(TagError::DuplicateTagName)
        } else {
            None
        }
    }

    /// The clash of the first entry that has one.
    pub open spec fn first_clash(self, entries: Seq<Entry>) -> Option<TagError>
        decreases entries.len(),
    {
        if entries.len() == 0 {
            None
        } else {
            match self.first_clash(entries.drop_last()) {
                Some(e) => Some(e),
                None => self.clash(entries.last().0, entries.last().1),
            }
        }
    }

    /// The table holds none of the numbers and none of the names of `entries`.
    pub open spec fn lacks_all(self, entries: Seq<Entry>) -> bool {
        forall|i: int|
            0 <= i < entries.len() ==> !self.has_number((#[trigger] entries[i]).0)
                && !self.has_name(entries[i].1)
    }

    /// A new pair put in, or the reason it is refused: a number that is taken
    /// comes before a name that is taken.
    pub open spec fn try_insert(self, number: u64, name: Seq<char>) -> Result<TableView, TagError> {
        if self.has_number(number) {
            Err(TagError::DuplicateTagNumber)
        } else if self.has_name(name) {
            Err(TagError::DuplicateTagName)
        } else {
            Ok(self.insert(number, name))
        }
    }

    /// Every entry put in as a new pair, in order, or the reason the first one
    /// that is refused is refused.
    pub open spec fn try_insert_all(self, entries: Seq<Entry>) -> Result<
        TableView,
        TagError,
    >
        decreases entries.len(),
    {
        if entries.len() == 0 {
            Ok(self)
        } else {
            match self.try_insert_all(entries.drop_last()) {
                Ok(t) => t.try_insert(entries.last().0, entries.last().1),
                Err(e) => Err(e),
            }
        }
    }
}

/// Putting in one entry more is one `insert` on top of the entries before it.
pub proof fn lemma_insert_all_step(t: TableView, entries: Seq<Entry>, k: int)
    requires
        0 <= k < entries.len(),
    ensures
        t.insert_all(entries.take(k + 1)) == t.insert_all(entries.take(k)).insert(
            entries[k].0,
            entries[k].1,
        ),
{
    assert(entries.take(k + 1).drop_last() =~= entries.take(k));
}

/// After `insert_all` a number is present if it was present before or is
/// listed, and the same holds of a name.
pub proof fn lemma_insert_all_presence(
    t: TableView,
    entries: Seq<Entry>,
    number: u64,
    name: Seq<char>,
)
    ensures
        t.insert_all(entries).has_number(number) <==> t.has_number(number) || lists_number(
            entries,
            number,
        ),
        t.insert_all(entries).has_name(name) <==> t.has_name(name) || lists_name(entries, name),
    decreases entries.len(),
{
    if entries.len() > 0 {
        let front = entries.drop_last();
        lemma_insert_all_presence(t, front, number, name);
        if lists_number(entries, number) {
            let i = choose|i: int| 0 <= i < entries.len() && (#[trigger] entries[i]).0 == number;
            if i < front.len() {
                assert(front[i].0 == number);
            }
        }
        if lists_name(entries, name) {
            let i = choose|i: int| 0 <= i < entries.len() && (#[trigger] entries[i]).1 == name;
            if i < front.len() {
                assert(front[i].1 == name);
            }
        }
    }
}

/// `insert_all` leaves alone what stands under a number or a name that is not
/// listed.
pub proof fn lemma_insert_all_untouched(
    t: TableView,
    entries: Seq<Entry>,
    number: u64,
    name: Seq<char>,
)
    ensures
        !lists_number(entries, number) ==> t.insert_all(entries).by_number[number]
            == t.by_number[number],
        !lists_name(entries, name) ==> t.insert_all(entries).by_name[name] == t.by_name[name],
    decreases entries.len(),
{
    if entries.len() > 0 {
        lemma_insert_all_untouched(t, entries.drop_last(), number, name);
    }
}

/// Where no two entries share a number or a name, each entry is found again
/// after `insert_all`, under its number and under its name, whatever the table
/// held before.
pub proof fn lemma_insert_all_holds(t: TableView, entries: Seq<Entry>, i: int)
    requires
        distinct_entries(entries),
        0 <= i < entries.len(),
    ensures
        t.insert_all(entries).has_number(entries[i].0),
        t.insert_all(entries).by_number[entries[i].0] == entries[i].1,
        t.insert_all(entries).has_name(entries[i].1),
        t.insert_all(entries).by_name[entries[i].1] == entries[i].0,
    decreases entries.len(),
{
    if i < entries.len() - 1 {
        lemma_insert_all_holds(t, entries.drop_last(), i);
    }
}

/// No entry clashes exactly if `first_clash` finds none.
pub proof fn lemma_first_clash_none(t: TableView, entries: Seq<Entry>)
    ensures
        t.first_clash(entries) is None <==> forall|i: int|
            0 <= i < entries.len() ==> t.clash((#[trigger] entries[i]).0, entries[i].1) is None,
    decreases entries.len(),
{
    if entries.len() > 0 {
        let front = entries.drop_last();
        lemma_first_clash_none(t, front);
        if t.first_clash(entries) is None {
            assert forall|i: int| 0 <= i < entries.len() implies t.clash(
                (#[trigger] entries[i]).0,
                entries[i].1,
            ) is None by {
                if i < front.len() {
                    assert(front[i] == entries[i]);
                }
            }
        }
    }
}

/// A clash among the first `k` entries is the clash of the whole.
pub proof fn lemma_first_clash_prefix(t: TableView, entries: Seq<Entry>, k: int)
    requires
        0 <= k <= entries.len(),
        t.first_clash(entries.take(k)) is Some,
    ensures
        t.first_clash(entries) == t.first_clash(entries.take(k)),
    decreases entries.len() - k,
{
    if k < entries.len() {
        assert(entries.take(k + 1).drop_last() =~= entries.take(k));
        lemma_first_clash_prefix(t, entries, k + 1);
    } else {
        assert(entries.take(k) =~= entries);
    }
}

/// A new pair makes a table one tag larger.
pub proof fn lemma_try_insert_grows(t: TableView, number: u64, name: Seq<char>)
    requires
        t.consistent(),
        t.try_insert(number, name) is Ok,
    ensures
        t.try_insert(number, name)->Ok_0.len() == t.len() + 1,
{
}

/// Where the entries are distinct and none clashes with the table, none
/// clashes with the table as it is after the entries before it are put in.
pub proof fn lemma_next_fits(t: TableView, entries: Seq<Entry>, k: int)
    requires
        distinct_entries(entries),
        t.first_clash(entries) is None,
        0 <= k < entries.len(),
    ensures
        t.insert_all(entries.take(k)).clash(entries[k].0, entries[k].1) is None,
{
    let front = entries.take(k);
    let next = entries[k];
    lemma_first_clash_none(t, entries);
    lemma_insert_all_presence(t, front, next.0, next.1);
    lemma_insert_all_untouched(t, front, next.0, next.1);
}

/// Entries that are distinct and named, none of which clashes with a
/// consistent table, leave it consistent.
pub proof fn lemma_insert_all_consistent(t: TableView, entries: Seq<Entry>)
    requires
        t.consistent(),
        distinct_entries(entries),
        named_entries(entries),
        t.first_clash(entries) is None,
    ensures
        t.insert_all(entries).consistent(),
    decreases entries.len(),
{
    if entries.len() > 0 {
        lemma_insert_all_consistent(t, entries.drop_last());
        lemma_next_fits(t, entries, entries.len() - 1);
    }
}

/// Putting the same distinct entries in a second time finds no clash and
/// changes nothing.
pub proof fn lemma_insert_all_twice(t: TableView, entries: Seq<Entry>)
    requires
        distinct_entries(entries),
    ensures
        t.insert_all(entries).first_clash(entries) is None,
        t.insert_all(entries).insert_all(entries) == t.insert_all(entries),
{
    let once = t.insert_all(entries);
    assert forall|i: int| 0 <= i < entries.len() implies once.has_number((#[trigger] entries[i]).0)
        && once.by_number[entries[i].0] == entries[i].1 && once.has_name(entries[i].1)
        && once.by_name[entries[i].1] == entries[i].0 by {
        lemma_insert_all_holds(t, entries, i);
    }
    lemma_first_clash_none(once, entries);
    lemma_insert_all_absorbed(once, entries, entries.len() as int);
    assert(entries.take(entries.len() as int) =~= entries);
}

/// Entries that a table already holds, each under its number and its name,
/// change nothing when they are put in.
pub proof fn lemma_insert_all_absorbed(t: TableView, entries: Seq<Entry>, k: int)
    requires
        0 <= k <= entries.len(),
        forall|i: int|
            0 <= i < entries.len() ==> t.has_number((#[trigger] entries[i]).0)
                && t.by_number[entries[i].0] == entries[i].1 && t.has_name(entries[i].1)
                && t.by_name[entries[i].1] == entries[i].0,
    ensures
        t.insert_all(entries.take(k)) == t,
    decreases k,
{
    if k > 0 {
        lemma_insert_all_absorbed(t, entries, k - 1);
        lemma_insert_all_step(t, entries, k - 1);
    }
}

/// One entry more is tried on what the entries before it gave.
pub proof fn lemma_try_insert_all_step(t: TableView, entries: Seq<Entry>, k: int)
    requires
        0 <= k < entries.len(),
    ensures
        t.try_insert_all(entries.take(k + 1)) == (match t.try_insert_all(entries.take(k)) {
            Ok(u) => u.try_insert(entries[k].0, entries[k].1),
            Err(e) => Err(e),
        }),
{
    assert(entries.take(k + 1).drop_last() =~= entries.take(k));
}

/// Where no entry is refused, what comes out is what `insert_all` gives.
pub proof fn lemma_try_insert_all_ok(t: TableView, entries: Seq<Entry>)
    requires
        t.try_insert_all(entries) is Ok,
    ensures
        t.try_insert_all(entries) == Ok::<TableView, TagError>(t.insert_all(entries)),
    decreases entries.len(),
{
    if entries.len() > 0 {
        lemma_try_insert_all_ok(t, entries.drop_last());
    }
}

/// A refusal among the first `k` entries is the refusal of the whole.
pub proof fn lemma_try_insert_all_prefix(t: TableView, entries: Seq<Entry>, k: int)
    requires
        0 <= k <= entries.len(),
        t.try_insert_all(entries.take(k)) is Err,
    ensures
        t.try_insert_all(entries) == t.try_insert_all(entries.take(k)),
    decreases entries.len() - k,
{
    if k < entries.len() {
        lemma_try_insert_all_step(t, entries, k);
        lemma_try_insert_all_prefix(t, entries, k + 1);
    } else {
        assert(entries.take(k) =~= entries);
    }
}

/// A batch is taken whole exactly if no two of its entries share a number or
/// a name and the table holds none of its numbers and none of its names.
pub proof fn lemma_try_insert_all_accepts(t: TableView, entries: Seq<Entry>)
    ensures
        t.try_insert_all(entries) is Ok <==> distinct_entries(entries) && t.lacks_all(entries),
    decreases entries.len(),
{
    if entries.len() > 0 {
        let front = entries.drop_last();
        let last = entries.last();
        let end = entries.len() - 1;
        lemma_try_insert_all_accepts(t, front);
        lemma_insert_all_presence(t, front, last.0, last.1);
        if t.try_insert_all(entries) is Ok {
            lemma_try_insert_all_ok(t, front);
            assert forall|a: int, b: int| 0 <= a < b < entries.len() implies (#[trigger] entries[a]).0
                != (#[trigger] entries[b]).0 && entries[a].1 != entries[b].1 by {
                assert(front[a] == entries[a]);
                if b < end {
                    assert(front[b] == entries[b]);
                }
            }
            assert forall|i: int| 0 <= i < entries.len() implies !t.has_number(
                (#[trigger] entries[i]).0,
            ) && !t.has_name(entries[i].1) by {
                if i < end {
                    assert(front[i] == entries[i]);
                }
            }
        }
        if distinct_entries(entries) && t.lacks_all(entries) {
            lemma_try_insert_all_ok(t, front);
        }
    }
}

} // verus!
