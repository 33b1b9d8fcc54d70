//! The closed set of commands and their constructors.
use vstd::prelude::*;
use crate::value::{Value, Kvpair};

verus! {

/// Read one key of a table.
#[derive(Debug, Clone)]
pub struct Hget {
    pub table: String,
    pub key: String,
}

/// Read every entry of a table.
#[derive(Debug, Clone)]
pub struct Hgetall {
    pub table: String,
}

/// Read several keys of a table.
#[derive(Debug, Clone)]
pub struct Hmget {
    pub table: String,
    pub keys: Vec<String>,
}

/// Set one key of a table.
#[derive(Debug, Clone)]
pub struct Hset {
    pub table: String,
    pub pair: Kvpair,
}

/// Set several keys of a table.
#[derive(Debug, Clone)]
pub struct Hmset {
    pub table: String,
    pub pairs: Vec<Kvpair>,
}

/// Remove one key of a table.
#[derive(Debug, Clone)]
pub struct Hdel {
    pub table: String,
    pub key: String,
}

/// Remove several keys of a table.
#[derive(Debug, Clone)]
pub struct Hmdel {
    pub table: String,
    pub keys: Vec<String>,
}

/// Ask whether one key is present in a table.
#[derive(Debug, Clone)]
pub struct Hexist {
    pub table: String,
    pub key: String,
}

/// Ask whether each of several keys is present in a table.
#[derive(Debug, Clone)]
pub struct Hmexist {
    pub table: String,
    pub keys: Vec<String>,
}

/// The command variants.
#[derive(Debug, Clone)]
pub enum RequestData {
    Hget(Hget),
    Hgetall(Hgetall),
    Hmget(Hmget),
    Hset(Hset),
    Hmset(Hmset),
    Hdel(Hdel),
    Hmdel(Hmdel),
    Hexist(Hexist),
    Hmexist(Hmexist),
}

/// A command as received: `None` stands for an empty payload.
#[derive(Debug, Clone)]
pub struct CommandRequest {
    pub request_data: Option<RequestData>,
}

impl RequestData {
    /// The name of the table that the command addresses.
    pub open spec fn table_spec(self) -> Seq<char> {
        match self {
            RequestData::Hget(c) => c.table@,
            RequestData::Hgetall(c) => c.table@,
            RequestData::Hmget(c) => c.table@,
            RequestData::Hset(c) => c.table@,
            RequestData::Hmset(c) => c.table@,
            RequestData::Hdel(c) => c.table@,
            RequestData::Hmdel(c) => c.table@,
            RequestData::Hexist(c) => c.table@,
            RequestData::Hmexist(c) => c.table@,
        }
    }

    /// Whether the command writes entries, and so may create its table.
    pub open spec fn writes_spec(self) -> bool {
        match self {
            RequestData::Hset(_) | RequestData::Hmset(_) => true,
            _ => false,
        }
    }
}

impl CommandRequest {
    /// The table that the command addresses; `None` for an empty command.
    pub fn table(&self) -> (r: Option<&String>)
        ensures
            match self.request_data {
                Some(d) => r is Some && r.unwrap()@ == d.table_spec(),
                None => r is None,
            },
    {
        match &self.request_data {
            Some(RequestData::Hget(c)) => Some(&c.table),
            Some(RequestData::Hgetall(c)) => Some(&c.table),
            Some(RequestData::Hmget(c)) => Some(&c.table),
            Some(RequestData::Hset(c)) => Some(&c.table),
            Some(RequestData::Hmset(c)) => Some(&c.table),
            Some(RequestData::Hdel(c)) => Some(&c.table),
            Some(RequestData::Hmdel(c)) => Some(&c.table),
            Some(RequestData::Hexist(c)) => Some(&c.table),
            Some(RequestData::Hmexist(c)) => Some(&c.table),
            None => None,
        }
    }

    /// Whether the command writes entries, and so may create its table.
    pub fn writes(&self) -> (r: bool)
        ensures
            r == match self.request_data {
                Some(d) => d.writes_spec(),
                None => false,
            },
    {
        match &self.request_data {
            Some(RequestData::Hset(_)) => true,
            Some(RequestData::Hmset(_)) => true,
            _ => false,
        }
    }

    /// A command that sets `key` of `table` to `value`.
    pub fn new_hset(table: &str, key: &str, value: Value) -> (r: Self)
        ensures
            match r.request_data {
                Some(RequestData::Hset(c)) => c.table@ == table@ && c.pair.key@ == key@
                    && c.pair.value == value,
                _ => false,
            },
    {
        CommandRequest {
            request_data: Some(
                RequestData::Hset(Hset { table: String::from_str(table), pair: Kvpair::new(key, value) }),
            ),
        }
    }

    /// A command that reads `key` of `table`.
    pub fn new_hget(table: &str, key: &str) -> (r: Self)
        ensures
            match r.request_data {
                Some(RequestData::Hget(c)) => c.table@ == table@ && c.key@ == key@,
                _ => false,
            },
    {
        CommandRequest {
            request_data: Some(
                RequestData::Hget(Hget { table: String::from_str(table), key: String::from_str(key) }),
            ),
        }
    }

    /// A command that reads every entry of `table`.
    pub fn new_hgetall(table: &str) -> (r: Self)
        ensures
            match r.request_data {
                Some(RequestData::Hgetall(c)) => c.table@ == table@,
                _ => false,
            },
    {
        CommandRequest {
            request_data: Some(RequestData::Hgetall(Hgetall { table: String::from_str(table) })),
        }
    }

    /// A command that removes `key` of `table`.
    pub fn new_hdel(table: &str, key: &str) -> (r: Self)
        ensures
            match r.request_data {
                Some(RequestData::Hdel(c)) => c.table@ == table@ && c.key@ == key@,
                _ => false,
            },
    {
        CommandRequest {
            request_data: Some(
                RequestData::Hdel(Hdel { table: String::from_str(table), key: String::from_str(key) }),
            ),
        }
    }

    /// A command that asks whether `key` is present in `table`.
    pub fn new_hexist(table: &str, key: &str) -> (r: Self)
        ensures
            match r.request_data {
                Some(RequestData::Hexist(c)) => c.table@ == table@ && c.key@ == key@,
                _ => false,
            },
    {
        CommandRequest {
            request_data: Some(
                RequestData::Hexist(Hexist { table: String::from_str(table), key: String::from_str(key) }),
            ),
        }
    }

    /// A command that reads `keys` of `table`.
    pub fn new_hmget(table: &str, keys: Vec<String>) -> (r: Self)
        ensures
            match r.request_data {
                Some(RequestData::Hmget(c)) => c.table@ == table@ && c.keys == keys,
                _ => false,
            },
    {
        CommandRequest {
            request_data: Some(RequestData::Hmget(Hmget { table: String::from_str(table), keys })),
        }
    }

    /// A command that sets each of `pairs` in `table`.
    pub fn new_hmset(table: &str, pairs: Vec<Kvpair>) -> (r: Self)
        ensures
            match r.request_data {
                Some(RequestData::Hmset(c)) => c.table@ == table@ && c.pairs == pairs,
                _ => false,
            },
    {
        CommandRequest {
            request_data: Some(RequestData::Hmset(Hmset { table: String::from_str(table), pairs })),
        }
    }

    /// A command that asks whether each of `keys` is present in `table`.
    pub fn new_hmexist(table: &str, keys: Vec<String>) -> (r: Self)
        ensures
            match r.request_data {
                Some(RequestData::Hmexist(c)) => c.table@ == table@ && c.keys == keys,
                _ => false,
            },
    {
        CommandRequest {
            request_data: Some(RequestData::Hmexist(Hmexist { table: String::from_str(table), keys })),
        }
    }

    /// A command that removes `keys` of `table`.
    pub fn new_hmdel(table: &str, keys: Vec<String>) -> (r: Self)
        ensures
            match r.request_data {
                Some(RequestData::Hmdel(c)) => c.table@ == table@ && c.keys == keys,
                _ => false,
            },
    {
        CommandRequest {
            request_data: Some(RequestData::Hmdel(Hmdel { table: String::from_str(table), keys })),
        }
    }
}

} // verus!
