//! The storage abstraction: tables of key/value entries, addressed by name.
use vstd::prelude::*;
use crate::value::{Value, ValueModel, Kvpair, pairs_view};

mod memory;

pub use memory::MemTable;

verus! {

/// The entries of one table, by key.
pub type TableModel = Map<Seq<char>, ValueModel>;

/// All tables, by name.
pub type StoreModel = Map<Seq<char>, TableModel>;

/// The entries of table `t`: none where no table of that name exists yet.
pub open spec fn table_of(m: StoreModel, t: Seq<char>) -> TableModel {
    if m.contains_key(t) {
        m[t]
    } else {
        Map::empty()
    }
}

/// The value of key `k` in table `t`, if any.
pub open spec fn lookup(m: StoreModel, t: Seq<char>, k: Seq<char>) -> Option<ValueModel> {
    if table_of(m, t).contains_key(k) {
        Some(table_of(m, t)[k])
    } else {
        None
    }
}

/// The store after key `k` of table `t` is set to `v`; the table is created
/// if it did not exist.
pub open spec fn store_set(m: StoreModel, t: Seq<char>, k: Seq<char>, v: ValueModel) -> StoreModel {
    m.insert(t, table_of(m, t).insert(k, v))
}

/// The store after key `k` of table `t` is removed; a missing table stays
/// missing.
pub open spec fn store_del(m: StoreModel, t: Seq<char>, k: Seq<char>) -> StoreModel {
    if m.contains_key(t) {
        m.insert(t, m[t].remove(k))
    } else {
        m
    }
}

/// The view of an optional value.
pub open spec fn option_view(r: Option<Value>) -> Option<ValueModel> {
    match r {
        Some(v) => Some(v@),
        None => None,
    }
}

/// `pairs` lists every entry of `t` exactly once, and nothing else.
pub open spec fn lists_exactly(pairs: Seq<(Seq<char>, ValueModel)>, t: TableModel) -> bool {
    &&& forall|i: int, j: int| 0 <= i < j < pairs.len() ==> pairs[i].0 != pairs[j].0
    &&& forall|i: int|
        0 <= i < pairs.len() ==> t.contains_key(#[trigger] pairs[i].0) && t[pairs[i].0] == pairs[i].1
    &&& forall|k: Seq<char>|
        t.contains_key(k) ==> exists|i: int| 0 <= i < pairs.len() && #[trigger] pairs[i].0 == k
}

/// A backend that holds named tables of entries. Every read hands out copies.
pub trait Storage {
    /// The backend's internal invariant.
    spec fn wf(&self) -> bool;

    /// What the backend holds.
    spec fn tables(&self) -> StoreModel;

    /// The entries of `table` in the order in which the backend lists them.
    spec fn listing(&self, table: Seq<char>) -> Seq<(Seq<char>, ValueModel)>;

    /// The value of `key` in `table`, or `None` where there is none.
    fn get(&self, table: &str, key: &str) -> (r: Option<Value>)
        requires
            self.wf(),
        ensures
            option_view(r) == lookup(self.tables(), table@, key@),
    ;

    /// Sets `key` of `table` to `value`, creating the table if needed, and
    /// returns the value that was there before, if any.
    fn set(&mut self, table: &str, key: &str, value: Value) -> (r: Option<Value>)
        requires
            old(self).wf(),
        ensures
            final(self).wf(),
            final(self).tables() == store_set(old(self).tables(), table@, key@, value@),
            option_view(r) == lookup(old(self).tables(), table@, key@),
    ;

    /// Removes `key` of `table` and returns its value, or `None` where there
    /// was none.
    fn del(&mut self, table: &str, key: &str) -> (r: Option<Value>)
        requires
            old(self).wf(),
        ensures
            final(self).wf(),
            final(self).tables() == store_del(old(self).tables(), table@, key@),
            option_view(r) == lookup(old(self).tables(), table@, key@),
    ;

    /// Whether `table` holds `key`.
    fn contains(&self, table: &str, key: &str) -> (r: bool)
        requires
            self.wf(),
        ensures
            r == table_of(self.tables(), table@).contains_key(key@),
    ;

    /// Every entry of `table`, each once, in listing order; empty for a
    /// missing table.
    fn get_all(&self, table: &str) -> (r: Vec<Kvpair>)
        requires
            self.wf(),
        ensures
            pairs_view(r@) == self.listing(table@),
            lists_exactly(self.listing(table@), table_of(self.tables(), table@)),
    ;

    /// How many entries `table` lists.
    fn entry_count(&self, table: &str) -> (r: usize)
        requires
            self.wf(),
        ensures
            r == self.listing(table@).len(),
            lists_exactly(self.listing(table@), table_of(self.tables(), table@)),
    ;

    /// A copy of the entry at `index` of the listing of `table`: the entries
    /// one at a time, in the order `get_all` gives them; `None` past the end.
    fn get_entry(&self, table: &str, index: usize) -> (r: Option<Kvpair>)
        requires
            self.wf(),
        ensures
            match r {
                Some(p) => index < self.listing(table@).len() && p@ == self.listing(table@)[index as int],
                None => index >= self.listing(table@).len(),
            },
            lists_exactly(self.listing(table@), table_of(self.tables(), table@)),
    ;
}

} // verus!
