//! Routing of each command to storage calls, and what each returns.
use vstd::prelude::*;
use crate::value::{Scalar, ScalarModel, Value, ValueModel, values_view, pairs_view};
use crate::command::{CommandRequest, RequestData};
use crate::response::{
    CommandResponse, ResponseModel, Reply, values_response, respond_spec,
};
use crate::error::KvError;
use crate::status::Status;
use crate::storage::{
    Storage, StoreModel, TableModel, table_of, lookup, store_set, store_del, lists_exactly,
};

verus! {

/// The views of a sequence of strings.
pub open spec fn strings_view(v: Seq<String>) -> Seq<Seq<char>> {
    v.map_values(|s: String| s@)
}

/// The description carried by the error for an empty command.
pub open spec fn empty_command_text() -> Seq<char> {
    "empty command payload"@
}

/// The response for a command with no payload.
pub open spec fn invalid_response(d: Seq<char>) -> ResponseModel {
    ResponseModel {
        status: Status::BadRequest.code(),
        message: "invalid command: "@ + d,
        values: Seq::empty(),
        pairs: Seq::empty(),
    }
}

/// The response for a single key `k` of table `t` that is not there.
pub open spec fn not_found_response(t: Seq<char>, k: Seq<char>) -> ResponseModel {
    ResponseModel {
        status: Status::NotFound.code(),
        message: k + " not found in "@ + t,
        values: Seq::empty(),
        pairs: Seq::empty(),
    }
}

/// The response of a single-key read or delete: the value, or not found.
pub open spec fn read_response(m: StoreModel, t: Seq<char>, k: Seq<char>) -> ResponseModel {
    match lookup(m, t, k) {
        Some(v) => values_response(seq![v]),
        None => not_found_response(t, k),
    }
}

/// A boolean as a value.
pub open spec fn bool_value(b: bool) -> ValueModel {
    Some(ScalarModel::Bool(b))
}

/// The response of a single-key existence check.
pub open spec fn exists_response(m: StoreModel, t: Seq<char>, k: Seq<char>) -> ResponseModel {
    values_response(seq![bool_value(table_of(m, t).contains_key(k))])
}

/// The values of those of `keys` that `t` holds, in the order of `keys`.
pub open spec fn found_values(t: TableModel, keys: Seq<Seq<char>>) -> Seq<ValueModel>
    decreases keys.len(),
{
    if keys.len() == 0 {
        Seq::empty()
    } else {
        let rest = found_values(t, keys.drop_last());
        if t.contains_key(keys.last()) {
            rest.push(t[keys.last()])
        } else {
            rest
        }
    }
}

/// For each of `keys`, whether `t` holds it.
pub open spec fn presence(t: TableModel, keys: Seq<Seq<char>>) -> Seq<ValueModel> {
    keys.map_values(|k: Seq<char>| bool_value(t.contains_key(k)))
}

/// The store after each of `pairs` is set in table `t`, in order.
pub open spec fn set_all(m: StoreModel, t: Seq<char>, pairs: Seq<(Seq<char>, ValueModel)>) -> StoreModel
    decreases pairs.len(),
{
    if pairs.len() == 0 {
        m
    } else {
        store_set(set_all(m, t, pairs.drop_last()), t, pairs.last().0, pairs.last().1)
    }
}

/// The value that each of `pairs` replaced, in order; the empty value where
/// there was none.
pub open spec fn previous_values(m: StoreModel, t: Seq<char>, pairs: Seq<(Seq<char>, ValueModel)>) -> Seq<ValueModel>
    decreases pairs.len(),
{
    if pairs.len() == 0 {
        Seq::empty()
    } else {
        let before = set_all(m, t, pairs.drop_last());
        let prev = match lookup(before, t, pairs.last().0) {
            Some(v) => v,
            None => None,
        };
        previous_values(m, t, pairs.drop_last()).push(prev)
    }
}

/// The store after each of `keys` is removed from table `t`, in order.
pub open spec fn del_all(m: StoreModel, t: Seq<char>, keys: Seq<Seq<char>>) -> StoreModel
    decreases keys.len(),
{
    if keys.len() == 0 {
        m
    } else {
        store_del(del_all(m, t, keys.drop_last()), t, keys.last())
    }
}

/// The values removed by deleting each of `keys` from table `t`, in order;
/// keys that were not there contribute nothing.
pub open spec fn removed_values(m: StoreModel, t: Seq<char>, keys: Seq<Seq<char>>) -> Seq<ValueModel>
    decreases keys.len(),
{
    if keys.len() == 0 {
        Seq::empty()
    } else {
        let before = del_all(m, t, keys.drop_last());
        let rest = removed_values(m, t, keys.drop_last());
        match lookup(before, t, keys.last()) {
            Some(v) => rest.push(v),
            None => rest,
        }
    }
}

/// The store after `cmd` ran on `m`.
pub open spec fn store_after(m: StoreModel, cmd: CommandRequest) -> StoreModel {
    match cmd.request_data {
        Some(RequestData::Hset(c)) => store_set(m, c.table@, c.pair.key@, c.pair.value@),
        Some(RequestData::Hmset(c)) => set_all(m, c.table@, pairs_view(c.pairs@)),
        Some(RequestData::Hdel(c)) => store_del(m, c.table@, c.key@),
        Some(RequestData::Hmdel(c)) => del_all(m, c.table@, strings_view(c.keys@)),
        _ => m,
    }
}

/// `r` is what `cmd` answers on a store that held `m` before it ran.
pub open spec fn answers(m: StoreModel, cmd: CommandRequest, r: ResponseModel) -> bool {
    match cmd.request_data {
        None => r == invalid_response(empty_command_text()),
        Some(RequestData::Hget(c)) => r == read_response(m, c.table@, c.key@),
        Some(RequestData::Hgetall(c)) => {
            &&& r.status == Status::Success.code()
            &&& r.message == Seq::<char>::empty()
            &&& r.values == Seq::<ValueModel>::empty()
            &&& lists_exactly(r.pairs, table_of(m, c.table@))
        },
        Some(RequestData::Hmget(c)) => r == values_response(
            found_values(table_of(m, c.table@), strings_view(c.keys@)),
        ),
        Some(RequestData::Hset(c)) => r == values_response(seq![c.pair.value@]),
        Some(RequestData::Hmset(c)) => r == values_response(
            previous_values(m, c.table@, pairs_view(c.pairs@)),
        ),
        Some(RequestData::Hdel(c)) => r == read_response(m, c.table@, c.key@),
        Some(RequestData::Hmdel(c)) => r == values_response(
            removed_values(m, c.table@, strings_view(c.keys@)),
        ),
        Some(RequestData::Hexist(c)) => r == exists_response(m, c.table@, c.key@),
        Some(RequestData::Hmexist(c)) => r == values_response(
            presence(table_of(m, c.table@), strings_view(c.keys@)),
        ),
    }
}

/// The outcome of a single-key read or delete whose storage call gave `found`.
fn single_outcome(table: &String, key: &String, found: Option<Value>) -> (r: Result<Reply, KvError>)
    ensures
        respond_spec(r) == (match found {
            Some(v) => values_response(seq![v@]),
            None => not_found_response(table@, key@),
        }),
{
    match found {
        Some(v) => Ok(Reply::One(v)),
        None => Err(KvError::NotFound(table.clone(), key.clone())),
    }
}

/// Runs `cmd` against `store` and returns what storage produced, before any
/// response is built. Every command variant has its route; an empty command
/// is an invalid-command error.
pub fn run<S: Storage>(cmd: &CommandRequest, store: &mut S) -> (r: Result<Reply, KvError>)
    requires
        old(store).wf(),
    ensures
        final(store).wf(),
        final(store).tables() == store_after(old(store).tables(), *cmd),
        answers(old(store).tables(), *cmd, respond_spec(r)),
{
    let ghost m = store.tables();
    match &cmd.request_data {
        None => {
            Err(KvError::InvalidCommand(String::from_str("empty command payload")))
        },
        Some(RequestData::Hget(c)) => {
            let found = store.get(c.table.as_str(), c.key.as_str());
            single_outcome(&c.table, &c.key, found)
        },
        Some(RequestData::Hgetall(c)) => {
            let pairs = store.get_all(c.table.as_str());
            Ok(Reply::Entries(pairs))
        },
        Some(RequestData::Hmget(c)) => {
            let ghost keys = strings_view(c.keys@);
            let ghost tm = table_of(m, c.table@);
            let mut out: Vec<Value> = Vec::new();
            let mut i: usize = 0;
            while i < c.keys.len()
                invariant
                    store.wf(),
                    store.tables() == m,
                    i <= c.keys@.len(),
                    keys == strings_view(c.keys@),
                    tm == table_of(m, c.table@),
                    values_view(out@) == found_values(tm, keys.take(i as int)),
                decreases c.keys@.len() - i,
            {
                let found = store.get(c.table.as_str(), c.keys[i].as_str());
                assert(keys.take(i + 1).drop_last() =~= keys.take(i as int));
                match found {
                    Some(v) => {
                        out.push(v);
                        assert(values_view(out@) =~= found_values(tm, keys.take(i + 1)));
                    },
                    None => {},
                }
                i += 1;
            }
            assert(keys.take(i as int) =~= keys);
            Ok(Reply::Many(out))
        },
        Some(RequestData::Hset(c)) => {
            let v = c.pair.value.duplicate();
            let _ = store.set(c.table.as_str(), c.pair.key.as_str(), v);
            Ok(Reply::One(c.pair.value.duplicate()))
        },
        Some(RequestData::Hmset(c)) => {
            let ghost ps = pairs_view(c.pairs@);
            let mut out: Vec<Value> = Vec::new();
            let mut i: usize = 0;
            while i < c.pairs.len()
                invariant
                    store.wf(),
                    i <= c.pairs@.len(),
                    ps == pairs_view(c.pairs@),
                    store.tables() == set_all(m, c.table@, ps.take(i as int)),
                    values_view(out@) == previous_values(m, c.table@, ps.take(i as int)),
                decreases c.pairs@.len() - i,
            {
                let p = &c.pairs[i];
                let prev = store.set(c.table.as_str(), p.key.as_str(), p.value.duplicate());
                assert(ps.take(i + 1).drop_last() =~= ps.take(i as int));
                let pv = match prev {
                    Some(v) => v,
                    None => Value::empty(),
                };
                out.push(pv);
                assert(values_view(out@) =~= previous_values(m, c.table@, ps.take(i + 1)));
                i += 1;
            }
            assert(ps.take(i as int) =~= ps);
            Ok(Reply::Many(out))
        },
        Some(RequestData::Hdel(c)) => {
            let found = store.del(c.table.as_str(), c.key.as_str());
            single_outcome(&c.table, &c.key, found)
        },
        Some(RequestData::Hmdel(c)) => {
            let ghost keys = strings_view(c.keys@);
            let mut out: Vec<Value> = Vec::new();
            let mut i: usize = 0;
            while i < c.keys.len()
                invariant
                    store.wf(),
                    i <= c.keys@.len(),
                    keys == strings_view(c.keys@),
                    store.tables() == del_all(m, c.table@, keys.take(i as int)),
                    values_view(out@) == removed_values(m, c.table@, keys.take(i as int)),
                decreases c.keys@.len() - i,
            {
                let found = store.del(c.table.as_str(), c.keys[i].as_str());
                assert(keys.take(i + 1).drop_last() =~= keys.take(i as int));
                match found {
                    Some(v) => {
                        out.push(v);
                        assert(values_view(out@) =~= removed_values(m, c.table@, keys.take(i + 1)));
                    },
                    None => {},
                }
                i += 1;
            }
            assert(keys.take(i as int) =~= keys);
            Ok(Reply::Many(out))
        },
        Some(RequestData::Hexist(c)) => {
            let b = store.contains(c.table.as_str(), c.key.as_str());
            Ok(Reply::One(Value { value: Some(Scalar::Bool(b)) }))
        },
        Some(RequestData::Hmexist(c)) => {
            let ghost keys = strings_view(c.keys@);
            let ghost tm = table_of(m, c.table@);
            let mut out: Vec<Value> = Vec::new();
            let mut i: usize = 0;
            while i < c.keys.len()
                invariant
                    store.wf(),
                    store.tables() == m,
                    i <= c.keys@.len(),
                    keys == strings_view(c.keys@),
                    tm == table_of(m, c.table@),
                    out@.len() == i,
                    keys.len() == c.keys@.len(),
                    values_view(out@) == presence(tm, keys.take(i as int)),
                decreases c.keys@.len() - i,
            {
                let b = store.contains(c.table.as_str(), c.keys[i].as_str());
                let ghost before = out@;
                assert(keys[i as int] == c.keys@[i as int]@);
                out.push(Value { value: Some(Scalar::Bool(b)) });
                assert forall|j: int| 0 <= j <= i implies #[trigger] values_view(out@)[j] == presence(
                    tm,
                    keys.take(i + 1),
                )[j] by {
                    if j < i {
                        assert(out@[j] == before[j]);
                        assert(values_view(before)[j] == presence(tm, keys.take(i as int))[j]);
                    }
                }
                assert(values_view(out@) =~= presence(tm, keys.take(i + 1)));
                i += 1;
            }
            assert(keys.take(i as int) =~= keys);
            Ok(Reply::Many(out))
        },
    }
}

/// Runs `cmd` against `store` and builds its response. Every command variant
/// has its route; an empty command is answered with a bad-request error.
pub fn dispatch<S: Storage>(cmd: &CommandRequest, store: &mut S) -> (r: CommandResponse)
    requires
        old(store).wf(),
    ensures
        final(store).wf(),
        final(store).tables() == store_after(old(store).tables(), *cmd),
        answers(old(store).tables(), *cmd, r@),
{
    CommandResponse::from_outcome(run(cmd, store))
}

} // verus!
