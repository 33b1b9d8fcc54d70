//! The in-memory backend: one entry list per table, tables made on first write.
use vstd::prelude::*;
use crate::value::{Value, ValueModel, Kvpair, pairs_view};
use super::{
    Storage, TableModel, StoreModel, table_of, lookup, store_set, store_del, option_view,
    lists_exactly,
};

verus! {

/// One named table. Its keys are unique; `model` is what it holds.
struct Table {
    name: String,
    entries: Vec<Kvpair>,
    model: Ghost<TableModel>,
}

impl Table {
    spec fn wf(&self) -> bool {
        &&& forall|i: int, j: int|
            0 <= i < j < self.entries@.len() ==> self.entries@[i].key@ != self.entries@[j].key@
        &&& forall|i: int|
            0 <= i < self.entries@.len() ==> self.model@.contains_key(
                #[trigger] self.entries@[i].key@,
            ) && self.model@[self.entries@[i].key@] == self.entries@[i].value@
        &&& forall|k: Seq<char>|
            self.model@.contains_key(k) ==> exists|i: int|
                0 <= i < self.entries@.len() && #[trigger] self.entries@[i].key@ == k
    }

    fn empty(name: String) -> (r: Table)
        ensures
            r.wf(),
            r.name@ == name@,
            r.model@ == TableModel::empty(),
    {
        Table { name, entries: Vec::new(), model: Ghost(Map::empty()) }
    }

    /// The position of `key`, if the table holds it.
    fn find(&self, key: &String) -> (r: Option<usize>)
        requires
            self.wf(),
        ensures
            match r {
                Some(i) => i < self.entries@.len() && self.entries@[i as int].key@ == key@,
                None => !self.model@.contains_key(key@),
            },
    {
        let mut i: usize = 0;
        while i < self.entries.len()
            invariant
                i <= self.entries@.len(),
                forall|j: int| 0 <= j < i ==> self.entries@[j].key@ != key@,
            decreases self.entries@.len() - i,
        {
            if self.entries[i].key == *key {
                return Some(i);
            }
            i += 1;
        }
        None
    }

    fn get(&self, key: &String) -> (r: Option<Value>)
        requires
            self.wf(),
        ensures
            option_view(r) == (if self.model@.contains_key(key@) {
                Some(self.model@[key@])
            } else {
                None
            }),
    {
        match self.find(key) {
            Some(i) => Some(self.entries[i].value.duplicate()),
            None => None,
        }
    }

    fn set(&mut self, key: String, value: Value) -> (r: Option<Value>)
        requires
            old(self).wf(),
        ensures
            final(self).wf(),
            final(self).name == old(self).name,
            final(self).model@ == old(self).model@.insert(key@, value@),
            option_view(r) == (if old(self).model@.contains_key(key@) {
                Some(old(self).model@[key@])
            } else {
                None
            }),
    {
        let ghost k = key@;
        let ghost v = value@;
        match self.find(&key) {
            Some(i) => {
                let mut p = Kvpair { key, value };
                self.entries.set_and_swap(i, &mut p);
                self.model = Ghost(self.model@.insert(k, v));
                assert forall|kk: Seq<char>| self.model@.contains_key(kk) implies exists|j: int|
                    0 <= j < self.entries@.len() && #[trigger] self.entries@[j].key@ == kk by {
                    if kk == k {
                        assert(self.entries@[i as int].key@ == kk);
                    } else {
                        let j = choose|j: int|
                            0 <= j < old(self).entries@.len() && #[trigger] old(self).entries@[j].key@
                                == kk;
                        assert(self.entries@[j].key@ == kk);
                    }
                }
                Some(p.value)
            },
            None => {
                self.entries.push(Kvpair { key, value });
                self.model = Ghost(self.model@.insert(k, v));
                assert forall|kk: Seq<char>| self.model@.contains_key(kk) implies exists|j: int|
                    0 <= j < self.entries@.len() && #[trigger] self.entries@[j].key@ == kk by {
                    if kk == k {
                        assert(self.entries@[self.entries@.len() - 1].key@ == kk);
                    } else {
                        let j = choose|j: int|
                            0 <= j < old(self).entries@.len() && #[trigger] old(self).entries@[j].key@
                                == kk;
                        assert(self.entries@[j].key@ == kk);
                    }
                }
                None
            },
        }
    }

    fn del(&mut self, key: &String) -> (r: Option<Value>)
        requires
            old(self).wf(),
        ensures
            final(self).wf(),
            final(self).name == old(self).name,
            final(self).model@ == old(self).model@.remove(key@),
            option_view(r) == (if old(self).model@.contains_key(key@) {
                Some(old(self).model@[key@])
            } else {
                None
            }),
    {
        match self.find(key) {
            Some(i) => {
                let p = self.entries.remove(i);
                self.model = Ghost(self.model@.remove(key@));
                assert forall|a: int, b: int| 0 <= a < b < self.entries@.len() implies
                    self.entries@[a].key@ != self.entries@[b].key@ by {
                    let oa = if a < i { a } else { a + 1 };
                    let ob = if b < i { b } else { b + 1 };
                    assert(self.entries@[a] == old(self).entries@[oa]);
                    assert(self.entries@[b] == old(self).entries@[ob]);
                }
                assert forall|a: int| 0 <= a < self.entries@.len() implies self.model@.contains_key(
                    #[trigger] self.entries@[a].key@,
                ) && self.model@[self.entries@[a].key@] == self.entries@[a].value@ by {
                    let oa = if a < i { a } else { a + 1 };
                    assert(self.entries@[a] == old(self).entries@[oa]);
                }
                assert forall|kk: Seq<char>| self.model@.contains_key(kk) implies exists|j: int|
                    0 <= j < self.entries@.len() && #[trigger] self.entries@[j].key@ == kk by {
                    let j = choose|j: int|
                        0 <= j < old(self).entries@.len() && #[trigger] old(self).entries@[j].key@
                            == kk;
                    if j < i {
                        assert(self.entries@[j] == old(self).entries@[j]);
                    } else {
                        assert(self.entries@[j - 1] == old(self).entries@[j]);
                    }
                }
                Some(p.value)
            },
            None => {
                assert(self.model@.remove(key@) =~= self.model@);
                None
            },
        }
    }

    /// The entries, in order, list what the table holds, each key once.
    proof fn lemma_listing(&self)
        requires
            self.wf(),
        ensures
            lists_exactly(pairs_view(self.entries@), self.model@),
    {
        let ps = pairs_view(self.entries@);
        assert forall|k: Seq<char>| self.model@.contains_key(k) implies exists|j: int|
            0 <= j < ps.len() && #[trigger] ps[j].0 == k by {
            let j = choose|j: int|
                0 <= j < self.entries@.len() && #[trigger] self.entries@[j].key@ == k;
            assert(ps[j].0 == self.entries@[j].key@);
        }
    }

    /// Copies of every entry, in the table's order.
    fn get_all(&self) -> (r: Vec<Kvpair>)
        ensures
            pairs_view(r@) == pairs_view(self.entries@),
    {
        let mut r: Vec<Kvpair> = Vec::new();
        let mut i: usize = 0;
        while i < self.entries.len()
            invariant
                i <= self.entries@.len(),
                r@.len() == i,
                forall|j: int| 0 <= j < i ==> (#[trigger] r@[j])@ == self.entries@[j]@,
            decreases self.entries@.len() - i,
        {
            let e = &self.entries[i];
            let p = Kvpair { key: e.key.clone(), value: e.value.duplicate() };
            assert(p@ == self.entries@[i as int]@);
            r.push(p);
            i += 1;
        }
        assert(pairs_view(r@) =~= pairs_view(self.entries@));
        r
    }

    /// A copy of the entry at `index` of the table's order, if there is one.
    fn entry_at(&self, index: usize) -> (r: Option<Kvpair>)
        ensures
            match r {
                Some(p) => index < self.entries@.len() && p@ == self.entries@[index as int]@,
                None => index >= self.entries@.len(),
            },
    {
        if index < self.entries.len() {
            let e = &self.entries[index];
            Some(Kvpair { key: e.key.clone(), value: e.value.duplicate() })
        } else {
            None
        }
    }
}

/// The in-memory backend: every table by name, each created on its first
/// write and never removed.
pub struct MemTable {
    tables: Vec<Table>,
    model: Ghost<StoreModel>,
}

/// `tables` have distinct names, each is well formed, and `model` holds
/// exactly their contents by name.
spec fn registry_ok(tables: Seq<Table>, model: StoreModel) -> bool {
    &&& forall|i: int, j: int| 0 <= i < j < tables.len() ==> tables[i].name@ != tables[j].name@
    &&& forall|i: int|
        0 <= i < tables.len() ==> tables[i].wf() && model.contains_key(#[trigger] tables[i].name@)
            && model[tables[i].name@] == tables[i].model@
    &&& forall|t: Seq<char>|
        model.contains_key(t) ==> exists|i: int| 0 <= i < tables.len() && #[trigger] tables[i].name@ == t
}

/// Putting back, at its own position, a table of the same name keeps the
/// registry sound once the model records its new contents.
proof fn lemma_replace_table(tables: Seq<Table>, model: StoreModel, i: int, tb: Table)
    requires
        registry_ok(tables, model),
        0 <= i < tables.len(),
        tb.wf(),
        tb.name@ == tables[i].name@,
    ensures
        registry_ok(tables.update(i, tb), model.insert(tb.name@, tb.model@)),
{
    let nt = tables.update(i, tb);
    let nm = model.insert(tb.name@, tb.model@);
    assert forall|a: int| 0 <= a < nt.len() implies #[trigger] nt[a].name@ == tables[a].name@ by {}
    assert forall|a: int| 0 <= a < nt.len() implies nt[a].wf() && nm.contains_key(
        #[trigger] nt[a].name@,
    ) && nm[nt[a].name@] == nt[a].model@ by {
        if a != i {
            assert(tables[a].name@ != tb.name@);
        }
    }
    assert forall|t: Seq<char>| nm.contains_key(t) implies exists|j: int|
        0 <= j < nt.len() && #[trigger] nt[j].name@ == t by {
        let j = choose|j: int| 0 <= j < tables.len() && #[trigger] tables[j].name@ == t;
        assert(nt[j].name@ == t);
    }
}

/// Adding a table under a new name keeps the registry sound once the model
/// records it.
proof fn lemma_push_table(tables: Seq<Table>, model: StoreModel, tb: Table)
    requires
        registry_ok(tables, model),
        tb.wf(),
        !model.contains_key(tb.name@),
    ensures
        registry_ok(tables.push(tb), model.insert(tb.name@, tb.model@)),
{
    let nt = tables.push(tb);
    let nm = model.insert(tb.name@, tb.model@);
    let last = tables.len() as int;
    assert forall|a: int, b: int| 0 <= a < b < nt.len() implies nt[a].name@ != nt[b].name@ by {
        assert(model.contains_key(tables[a].name@));
    }
    assert forall|a: int| 0 <= a < nt.len() implies nt[a].wf() && nm.contains_key(
        #[trigger] nt[a].name@,
    ) && nm[nt[a].name@] == nt[a].model@ by {
        if a < last {
            assert(model.contains_key(tables[a].name@));
        } else {
            assert(nt[a] == tb);
        }
    }
    assert forall|t: Seq<char>| nm.contains_key(t) implies exists|j: int|
        0 <= j < nt.len() && #[trigger] nt[j].name@ == t by {
        if t == tb.name@ {
            assert(nt[last].name@ == t);
        } else {
            let j = choose|j: int| 0 <= j < tables.len() && #[trigger] tables[j].name@ == t;
            assert(nt[j].name@ == t);
        }
    }
    assert(nt[last].wf() && nm.contains_key(nt[last].name@) && nm[nt[last].name@] == nt[last].model@);
}

/// The entries of the table named `t`, in its order; none where there is no
/// such table.
spec fn listing_of(tables: Seq<Table>, t: Seq<char>) -> Seq<(Seq<char>, ValueModel)> {
    if exists|i: int| 0 <= i < tables.len() && #[trigger] tables[i].name@ == t {
        let i = choose|i: int| 0 <= i < tables.len() && #[trigger] tables[i].name@ == t;
        pairs_view(tables[i].entries@)
    } else {
        Seq::empty()
    }
}

/// The listing of a table is that of its entries, and lists its contents.
proof fn lemma_listing_of(tables: Seq<Table>, model: StoreModel, t: Seq<char>)
    requires
        registry_ok(tables, model),
    ensures
        lists_exactly(listing_of(tables, t), table_of(model, t)),
        forall|i: int|
            0 <= i < tables.len() && #[trigger] tables[i].name@ == t ==> listing_of(tables, t)
                == pairs_view(tables[i].entries@),
{
    if exists|i: int| 0 <= i < tables.len() && #[trigger] tables[i].name@ == t {
        let i = choose|i: int| 0 <= i < tables.len() && #[trigger] tables[i].name@ == t;
        tables[i].lemma_listing();
        assert forall|j: int| 0 <= j < tables.len() && #[trigger] tables[j].name@ == t implies j
            == i by {
            if j < i {
                assert(tables[j].name@ != tables[i].name@);
            } else if i < j {
                assert(tables[i].name@ != tables[j].name@);
            }
        }
    } else {
        assert(!model.contains_key(t));
        assert(table_of(model, t) =~= TableModel::empty());
    }
}

impl MemTable {
    spec fn inv(&self) -> bool {
        registry_ok(self.tables@, self.model@)
    }

    /// A backend with no tables.
    pub fn new() -> (r: MemTable)
        ensures
            r.wf(),
            r.tables() == StoreModel::empty(),
    {
        MemTable { tables: Vec::new(), model: Ghost(Map::empty()) }
    }

    /// The position of the table named `name`, if there is one.
    fn find_table(&self, name: &String) -> (r: Option<usize>)
        requires
            self.inv(),
        ensures
            match r {
                Some(i) => i < self.tables@.len() && self.tables@[i as int].name@ == name@,
                None => !self.model@.contains_key(name@),
            },
    {
        let mut i: usize = 0;
        while i < self.tables.len()
            invariant
                i <= self.tables@.len(),
                forall|j: int| 0 <= j < i ==> self.tables@[j].name@ != name@,
            decreases self.tables@.len() - i,
        {
            if self.tables[i].name == *name {
                return Some(i);
            }
            i += 1;
        }
        None
    }
}

impl Storage for MemTable {
    closed spec fn wf(&self) -> bool {
        self.inv()
    }

    closed spec fn tables(&self) -> StoreModel {
        self.model@
    }

    closed spec fn listing(&self, table: Seq<char>) -> Seq<(Seq<char>, ValueModel)> {
        listing_of(self.tables@, table)
    }

    fn get(&self, table: &str, key: &str) -> (r: Option<Value>) {
        let name = String::from_str(table);
        let k = String::from_str(key);
        match self.find_table(&name) {
            Some(i) => self.tables[i].get(&k),
            None => None,
        }
    }

    fn set(&mut self, table: &str, key: &str, value: Value) -> (r: Option<Value>) {
        let name = String::from_str(table);
        let k = String::from_str(key);
        match self.find_table(&name) {
            Some(i) => {
                let mut tb = Table::empty(String::new());
                self.tables.set_and_swap(i, &mut tb);
                let r = tb.set(k, value);
                proof {
                    lemma_replace_table(old(self).tables@, old(self).model@, i as int, tb);
                }
                self.tables.set(i, tb);
                assert(self.tables@ =~= old(self).tables@.update(i as int, tb));
                self.model = Ghost(self.model@.insert(tb.name@, tb.model@));
                r
            },
            None => {
                let mut tb = Table::empty(name);
                let r = tb.set(k, value);
                proof {
                    lemma_push_table(old(self).tables@, old(self).model@, tb);
                }
                self.tables.push(tb);
                self.model = Ghost(self.model@.insert(tb.name@, tb.model@));
                r
            },
        }
    }

    fn del(&mut self, table: &str, key: &str) -> (r: Option<Value>) {
        let name = String::from_str(table);
        let k = String::from_str(key);
        match self.find_table(&name) {
            Some(i) => {
                let mut tb = Table::empty(String::new());
                self.tables.set_and_swap(i, &mut tb);
                let r = tb.del(&k);
                proof {
                    lemma_replace_table(old(self).tables@, old(self).model@, i as int, tb);
                }
                self.tables.set(i, tb);
                assert(self.tables@ =~= old(self).tables@.update(i as int, tb));
                self.model = Ghost(self.model@.insert(tb.name@, tb.model@));
                r
            },
            None => None,
        }
    }

    fn contains(&self, table: &str, key: &str) -> (r: bool) {
        let name = String::from_str(table);
        let k = String::from_str(key);
        match self.find_table(&name) {
            Some(i) => self.tables[i].find(&k).is_some(),
            None => false,
        }
    }

    fn get_all(&self, table: &str) -> (r: Vec<Kvpair>) {
        proof {
            lemma_listing_of(self.tables@, self.model@, table@);
        }
        let name = String::from_str(table);
        match self.find_table(&name) {
            Some(i) => self.tables[i].get_all(),
            None => {
                let r: Vec<Kvpair> = Vec::new();
                assert(pairs_view(r@) =~= Seq::empty());
                r
            },
        }
    }

    fn entry_count(&self, table: &str) -> (r: usize) {
        proof {
            lemma_listing_of(self.tables@, self.model@, table@);
        }
        let name = String::from_str(table);
        match self.find_table(&name) {
            Some(i) => self.tables[i].entries.len(),
            None => 0,
        }
    }

    fn get_entry(&self, table: &str, index: usize) -> (r: Option<Kvpair>) {
        proof {
            lemma_listing_of(self.tables@, self.model@, table@);
        }
        let name = String::from_str(table);
        match self.find_table(&name) {
            Some(i) => self.tables[i].entry_at(index),
            None => None,
        }
    }
}

} // verus!
