//! Laws that relate the store's operations to one another.
use vstd::prelude::*;
use crate::value::{ValueModel, pairs_view};
use crate::command::RequestData;
use crate::storage::{StoreModel, TableModel, table_of, lookup, store_set, store_del, lists_exactly};
use crate::dispatch::{
    read_response, not_found_response, exists_response, bool_value, found_values, set_all, del_all,
    store_after, strings_view,
};
use crate::command::CommandRequest;
use crate::response::values_response;

verus! {

/// A key that was never set is not found by a read or a delete, a delete
/// leaves its table as it was, and an existence check answers false.
pub proof fn law_unset_key_not_found(m: StoreModel, t: Seq<char>, k: Seq<char>)
    requires
        !table_of(m, t).contains_key(k),
    ensures
        lookup(m, t, k) is None,
        read_response(m, t, k) == not_found_response(t, k),
        table_of(store_del(m, t, k), t) == table_of(m, t),
        exists_response(m, t, k) == values_response(seq![bool_value(false)]),
{
    assert(table_of(store_del(m, t, k), t) =~= table_of(m, t));
}

/// A read after a set returns exactly the value that was set.
pub proof fn law_set_then_get(m: StoreModel, t: Seq<char>, k: Seq<char>, v: ValueModel)
    ensures
        lookup(store_set(m, t, k, v), t, k) == Some(v),
        read_response(store_set(m, t, k, v), t, k) == values_response(seq![v]),
{
}

/// Setting a key twice leaves the second value, and the second set reports
/// the first value as the one it replaced.
pub proof fn law_set_twice(m: StoreModel, t: Seq<char>, k: Seq<char>, v1: ValueModel, v2: ValueModel)
    ensures
        lookup(store_set(m, t, k, v1), t, k) == Some(v1),
        lookup(store_set(store_set(m, t, k, v1), t, k, v2), t, k) == Some(v2),
        table_of(store_set(store_set(m, t, k, v1), t, k, v2), t) == table_of(store_set(m, t, k, v2), t),
{
    assert(table_of(store_set(store_set(m, t, k, v1), t, k, v2), t) =~= table_of(
        store_set(m, t, k, v2),
        t,
    ));
}

/// A second delete of the same key finds nothing and changes nothing.
pub proof fn law_delete_twice(m: StoreModel, t: Seq<char>, k: Seq<char>)
    ensures
        lookup(store_del(m, t, k), t, k) is None,
        read_response(store_del(m, t, k), t, k) == not_found_response(t, k),
        store_del(store_del(m, t, k), t, k) == store_del(m, t, k),
{
    if m.contains_key(t) {
        assert(store_del(m, t, k)[t].remove(k) =~= store_del(m, t, k)[t]);
        assert(store_del(store_del(m, t, k), t, k) =~= store_del(m, t, k));
    }
}

/// A batch read returns the values of the keys that are present, in the
/// order given, and leaves out the others.
pub proof fn law_batch_read_skips_missing(
    tm: TableModel,
    k1: Seq<char>,
    k2: Seq<char>,
    k3: Seq<char>,
)
    requires
        tm.contains_key(k1),
        !tm.contains_key(k2),
        tm.contains_key(k3),
    ensures
        found_values(tm, seq![k1, k2, k3]) == seq![tm[k1], tm[k3]],
{
    let s1 = seq![k1];
    let s2 = seq![k1, k2];
    let s3 = seq![k1, k2, k3];
    assert(s1.drop_last() =~= Seq::<Seq<char>>::empty());
    assert(s2.drop_last() =~= s1);
    assert(s3.drop_last() =~= s2);
    assert(found_values(tm, Seq::<Seq<char>>::empty()) == Seq::<ValueModel>::empty());
    assert(found_values(tm, s1) =~= seq![tm[k1]]);
    assert(found_values(tm, s2) =~= seq![tm[k1]]);
    assert(found_values(tm, s3) =~= seq![tm[k1], tm[k3]]);
}

proof fn lemma_fresh_sets(m: StoreModel, t: Seq<char>, pairs: Seq<(Seq<char>, ValueModel)>)
    requires
        !m.contains_key(t),
        forall|i: int, j: int| 0 <= i < j < pairs.len() ==> pairs[i].0 != pairs[j].0,
    ensures
        forall|i: int|
            0 <= i < pairs.len() ==> table_of(set_all(m, t, pairs), t).contains_key(
                #[trigger] pairs[i].0,
            ) && table_of(set_all(m, t, pairs), t)[pairs[i].0] == pairs[i].1,
        forall|k: Seq<char>|
            table_of(set_all(m, t, pairs), t).contains_key(k) ==> exists|i: int|
                0 <= i < pairs.len() && #[trigger] pairs[i].0 == k,
    decreases pairs.len(),
{
    if pairs.len() > 0 {
        let init = pairs.drop_last();
        lemma_fresh_sets(m, t, init);
        let tm = table_of(set_all(m, t, pairs), t);
        assert forall|k: Seq<char>| tm.contains_key(k) implies exists|i: int|
            0 <= i < pairs.len() && #[trigger] pairs[i].0 == k by {
            if k == pairs.last().0 {
                assert(pairs[pairs.len() - 1].0 == k);
            } else {
                assert(table_of(set_all(m, t, init), t).contains_key(k));
                let i = choose|i: int| 0 <= i < init.len() && #[trigger] init[i].0 == k;
                assert(init[i] == pairs[i]);
                assert(pairs[i].0 == k);
            }
        }
        assert forall|i: int| 0 <= i < pairs.len() implies tm.contains_key(#[trigger] pairs[i].0)
            && tm[pairs[i].0] == pairs[i].1 by {
            if i < pairs.len() - 1 {
                assert(init[i] == pairs[i]);
            }
        }
    }
}

/// After `pairs`, with distinct keys, are set in order into a table that did
/// not exist, a listing of the whole table holds exactly those entries, each
/// once, whatever order it comes in.
pub proof fn law_listing_after_distinct_sets(
    m: StoreModel,
    t: Seq<char>,
    pairs: Seq<(Seq<char>, ValueModel)>,
    listing: Seq<(Seq<char>, ValueModel)>,
)
    requires
        !m.contains_key(t),
        forall|i: int, j: int| 0 <= i < j < pairs.len() ==> pairs[i].0 != pairs[j].0,
        lists_exactly(listing, table_of(set_all(m, t, pairs), t)),
    ensures
        listing.len() == pairs.len(),
        forall|i: int| 0 <= i < pairs.len() ==> listing.contains(#[trigger] pairs[i]),
        forall|j: int| 0 <= j < listing.len() ==> pairs.contains(#[trigger] listing[j]),
{
    let tm = table_of(set_all(m, t, pairs), t);
    lemma_fresh_sets(m, t, pairs);
    assert forall|i: int| 0 <= i < pairs.len() implies listing.contains(#[trigger] pairs[i]) by {
        assert(tm.contains_key(pairs[i].0));
        let j = choose|j: int| 0 <= j < listing.len() && #[trigger] listing[j].0 == pairs[i].0;
        assert(listing[j] == pairs[i]);
    }
    assert forall|j: int| 0 <= j < listing.len() implies pairs.contains(#[trigger] listing[j]) by {
        assert(tm.contains_key(listing[j].0));
        let i = choose|i: int| 0 <= i < pairs.len() && #[trigger] pairs[i].0 == listing[j].0;
        assert(listing[j] == pairs[i]);
    }
    let lk = listing.map_values(|p: (Seq<char>, ValueModel)| p.0);
    let pk = pairs.map_values(|p: (Seq<char>, ValueModel)| p.0);
    assert(lk.no_duplicates());
    assert(pk.no_duplicates());
    lk.unique_seq_to_set();
    pk.unique_seq_to_set();
    assert forall|k: Seq<char>| lk.to_set().contains(k) <==> pk.to_set().contains(k) by {
        if lk.to_set().contains(k) {
            let j = choose|j: int| 0 <= j < lk.len() && lk[j] == k;
            assert(tm.contains_key(listing[j].0));
            let i = choose|i: int| 0 <= i < pairs.len() && #[trigger] pairs[i].0 == k;
            assert(pk[i] == k);
        }
        if pk.to_set().contains(k) {
            let i = choose|i: int| 0 <= i < pk.len() && pk[i] == k;
            assert(tm.contains_key(pairs[i].0));
            let j = choose|j: int| 0 <= j < listing.len() && #[trigger] listing[j].0 == k;
            assert(lk[j] == k);
        }
    }
    assert(lk.to_set() =~= pk.to_set());
}

proof fn lemma_set_all_other_table(
    m: StoreModel,
    t: Seq<char>,
    pairs: Seq<(Seq<char>, ValueModel)>,
    other: Seq<char>,
)
    requires
        other != t,
    ensures
        table_of(set_all(m, t, pairs), other) == table_of(m, other),
    decreases pairs.len(),
{
    if pairs.len() > 0 {
        lemma_set_all_other_table(m, t, pairs.drop_last(), other);
    }
}

proof fn lemma_del_all_other_table(m: StoreModel, t: Seq<char>, keys: Seq<Seq<char>>, other: Seq<char>)
    requires
        other != t,
    ensures
        table_of(del_all(m, t, keys), other) == table_of(m, other),
    decreases keys.len(),
{
    if keys.len() > 0 {
        lemma_del_all_other_table(m, t, keys.drop_last(), other);
    }
}

/// A command changes no table but the one it names.
pub proof fn law_command_keeps_other_tables(m: StoreModel, cmd: CommandRequest, other: Seq<char>)
    requires
        cmd.request_data is Some,
        other != cmd.request_data.unwrap().table_spec(),
    ensures
        table_of(store_after(m, cmd), other) == table_of(m, other),
{
    match cmd.request_data.unwrap() {
        RequestData::Hmset(c) => lemma_set_all_other_table(m, c.table@, pairs_view(c.pairs@), other),
        RequestData::Hmdel(c) => lemma_del_all_other_table(m, c.table@, strings_view(c.keys@), other),
        _ => {},
    }
}

} // verus!
