//! A multi-table key-value engine: typed commands over named tables, a
//! pluggable storage abstraction with an in-memory backend, a dispatcher that
//! turns each command into a response with an HTTP-style status, and a chain
//! of observers around dispatch.
mod value;
mod status;
mod error;
mod command;
mod response;
mod storage;
mod dispatch;
mod service;
mod laws;

pub use value::{Scalar, ScalarModel, Value, ValueModel, Kvpair, values_view, pairs_view};
pub use status::Status;
pub use error::KvError;
pub use command::{
    CommandRequest, RequestData, Hget, Hgetall, Hmget, Hset, Hmset, Hdel, Hmdel, Hexist, Hmexist,
};
pub use response::{
    CommandResponse, ResponseModel, Reply, values_response, pairs_response, error_response, respond_spec,
};
pub use storage::{
    Storage, MemTable, TableModel, StoreModel, table_of, lookup, store_set, store_del, option_view,
    lists_exactly,
};
pub use dispatch::{
    dispatch, run, strings_view, empty_command_text, invalid_response, not_found_response, read_response,
    bool_value, exists_response, found_values, presence, set_all, previous_values, del_all,
    removed_values, store_after, answers,
};
pub use service::{
    Notify, Service, after_received, after_hook, notify_received, notify_executed, notify_before_send,
    notify_after_send,
};
pub use laws::{
    law_unset_key_not_found, law_set_then_get, law_set_twice, law_delete_twice,
    law_batch_read_skips_missing, law_listing_after_distinct_sets, law_command_keeps_other_tables,
};
