//! The keyed list of database entries shown one row per entry.
use vstd::prelude::*;
use vstd::string::*;

verus! {

/// One row of the list: a key that identifies the row, and its value.
#[derive(Debug, Clone)]
pub struct DatabaseEntry {
    pub key: String,
    pub value: i32,
}

/// The keys of a list of entries, in order.
pub open spec fn keys_of(entries: Seq<DatabaseEntry>) -> Seq<Seq<char>> {
    entries.map_values(|e: DatabaseEntry| e.key@)
}

/// No two entries share a key.
pub open spec fn keys_unique(entries: Seq<DatabaseEntry>) -> bool {
    forall|i: int, j: int|
        0 <= i < entries.len() && 0 <= j < entries.len() && i != j
            ==> #[trigger] entries[i].key@ != #[trigger] entries[j].key@
}

/// Every value can still be raised by one.
pub open spec fn all_below_max(entries: Seq<DatabaseEntry>) -> bool {
    forall|i: int| 0 <= i < entries.len() ==> #[trigger] entries[i].value < i32::MAX
}

/// The value shown for row `id`: its entry's value, or 0 where there is none.
pub open spec fn spec_value_at(entries: Seq<DatabaseEntry>, id: int) -> int {
    if 0 <= id < entries.len() {
        entries[id].value as int
    } else {
        0
    }
}

/// The list the page starts with: `foo` with value 1, then `bar` with value 2.
pub fn initial_entries() -> (r: Vec<DatabaseEntry>)
    ensures
        r@.len() == 2,
        r@[0].key@ == "foo"@,
        r@[0].value == 1,
        r@[1].key@ == "bar"@,
        r@[1].value == 2,
        keys_unique(r@),
{
    proof {
        reveal_strlit("foo");
        reveal_strlit("bar");
    }
    let foo = DatabaseEntry { key: String::from_str("foo"), value: 1 };
    let bar = DatabaseEntry { key: String::from_str("bar"), value: 2 };
    let r = vec![foo, bar];
    assert(r@[0].key@[0] != r@[1].key@[0]);
    r
}

/// Whether every value can be raised by one without leaving `i32`.
pub fn can_increment_all(entries: &Vec<DatabaseEntry>) -> (r: bool)
    ensures
        r == all_below_max(entries@),
{
    let mut i: usize = 0;
    while i < entries.len()
        invariant
            i <= entries@.len(),
            forall|k: int| 0 <= k < i ==> #[trigger] entries@[k].value < i32::MAX,
        decreases entries@.len() - i,
    {
        if entries[i].value == i32::MAX {
            return false;
        }
        i += 1;
    }
    true
}

/// Raises the value of every entry by one; keys and order stay as they are.
pub fn increment_all(entries: &mut Vec<DatabaseEntry>)
    requires
        all_below_max(old(entries)@),
    ensures
        final(entries)@.len() == old(entries)@.len(),
        keys_of(final(entries)@) == keys_of(old(entries)@),
        forall|i: int|
            0 <= i < old(entries)@.len() ==> #[trigger] final(entries)@[i].value
                == old(entries)@[i].value + 1,
        keys_unique(old(entries)@) ==> keys_unique(final(entries)@),
{
    let ghost start = entries@;
    let mut i: usize = 0;
    while i < entries.len()
        invariant
            i <= entries@.len(),
            entries@.len() == start.len(),
            all_below_max(start),
            forall|k: int| 0 <= k < start.len() ==> #[trigger] entries@[k].key@ == start[k].key@,
            forall|k: int| 0 <= k < i ==> #[trigger] entries@[k].value == start[k].value + 1,
            forall|k: int| i <= k < start.len() ==> #[trigger] entries@[k].value == start[k].value,
        decreases entries@.len() - i,
    {
        let entry = DatabaseEntry { key: entries[i].key.clone(), value: entries[i].value + 1 };
        entries.set(i, entry);
        i += 1;
    }
    assert(keys_of(entries@) =~= keys_of(start));
}

/// The value shown for row `id`: its entry's value, or 0 past the end.
pub fn value_at(entries: &Vec<DatabaseEntry>, id: usize) -> (r: i32)
    ensures
        r as int == spec_value_at(entries@, id as int),
{
    if id < entries.len() {
        entries[id].value
    } else {
        0
    }
}

} // verus!
