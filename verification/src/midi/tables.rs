use vstd::prelude::*;

verus! {

/// How many entries each table of the MIDI mapper can hold.
pub const MAX_MAPPINGS: usize = 128;

/// A list of at most `MAX_MAPPINGS` controller mappings, each written as the
/// triple (parameter index, MIDI controller, transform tag). It is stored in a
/// `heapless::Vec` of fixed capacity, which Verus cannot see into.
#[verifier::external_body]
pub struct MappingList {
    items: heapless::Vec<(usize, u8, u8), heapless::consts::U128>,
}

/// What a `MappingList` holds, in order.
pub uninterp spec fn mapping_list_items(list: MappingList) -> Seq<(usize, u8, u8)>;

/// A map from integer keys to integer values with at most `MAX_MAPPINGS`
/// entries, stored in a `heapless::FnvIndexMap` of fixed capacity.
#[verifier::external_body]
pub struct IndexTable {
    entries: heapless::FnvIndexMap<usize, usize, heapless::consts::U128>,
}

/// What an `IndexTable` holds.
pub uninterp spec fn index_table_entries(table: IndexTable) -> Map<usize, usize>;

impl MappingList {
    /// `heapless::Vec::new`: an empty vector.
    #[verifier::external_body]
    pub(crate) fn new() -> (list: MappingList)
        ensures
            mapping_list_items(list) == Seq::<(usize, u8, u8)>::empty(),
    {
        MappingList { items: heapless::Vec::new() }
    }

    /// `heapless::Vec::push`: appends the item when the vector holds fewer
    /// than its capacity (`MAX_MAPPINGS`) items, and otherwise leaves the
    /// vector as it was and hands the item back (here: returns `false`).
    #[verifier::external_body]
    pub(crate) fn push(&mut self, item: (usize, u8, u8)) -> (pushed: bool)
        ensures
            pushed == (mapping_list_items(*old(self)).len() < MAX_MAPPINGS),
            pushed ==> mapping_list_items(*final(self)) == mapping_list_items(*old(self)).push(item),
            !pushed ==> mapping_list_items(*final(self)) == mapping_list_items(*old(self)),
    {
        self.items.push(item).is_ok()
    }

    /// `heapless::Vec::len` (through `Deref` to a slice): the number of items,
    /// which never exceeds the capacity.
    #[verifier::external_body]
    pub(crate) fn len(&self) -> (n: usize)
        ensures
            n == mapping_list_items(*self).len(),
            n <= MAX_MAPPINGS,
    {
        self.items.len()
    }

    /// Indexing a `heapless::Vec` (through `Deref` to a slice): the item at
    /// position `i`, which must be below the length (else it panics).
    #[verifier::external_body]
    pub(crate) fn get(&self, i: usize) -> (item: (usize, u8, u8))
        requires
            i < mapping_list_items(*self).len(),
        ensures
            item == mapping_list_items(*self)[i as int],
    {
        self.items[i]
    }
}

impl IndexTable {
    /// `heapless::FnvIndexMap::new`: an empty map.
    #[verifier::external_body]
    pub(crate) fn new() -> (created: IndexTable)
        ensures
            index_table_entries(created).dom().finite(),
            index_table_entries(created) =~= Map::empty(),
    {
        IndexTable { entries: heapless::FnvIndexMap::new() }
    }

    /// `heapless::FnvIndexMap::insert`: when the map already holds its
    /// capacity (`MAX_MAPPINGS`) of entries it is left as it was (`Err` in the
    /// outside crate; here `false`), even for a key that it holds; otherwise
    /// the key is bound to the value, replacing any earlier value.
    #[verifier::external_body]
    pub(crate) fn insert(&mut self, key: usize, value: usize) -> (inserted: bool)
        ensures
            index_table_entries(*final(self)).dom().finite(),
            inserted == (index_table_entries(*old(self)).dom().len() < MAX_MAPPINGS),
            inserted ==> index_table_entries(*final(self)) == index_table_entries(*old(self)).insert(key, value),
            !inserted ==> index_table_entries(*final(self)) == index_table_entries(*old(self)),
    {
        self.entries.insert(key, value).is_ok()
    }

    /// `heapless::FnvIndexMap::get`: the value bound to the key, if any.
    #[verifier::external_body]
    pub(crate) fn get(&self, key: usize) -> (value: Option<usize>)
        ensures
            value == (if index_table_entries(*self).dom().contains(key) {
                Some(index_table_entries(*self)[key])
            } else {
                None::<usize>
            }),
    {
        self.entries.get(&key).copied()
    }
}

} // verus!
