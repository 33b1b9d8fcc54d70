//! Responses: a status, a message on failure, and returned values or entries.
use vstd::prelude::*;
use crate::value::{Value, ValueModel, Kvpair, values_view, pairs_view};
use crate::status::{Status, status_code};
use crate::error::KvError;

verus! {

/// The outcome of one command.
#[derive(Debug, Clone)]
pub struct CommandResponse {
    pub status: u32,
    pub message: String,
    pub values: Vec<Value>,
    pub pairs: Vec<Kvpair>,
}

/// What a response holds, as plain mathematical values.
pub struct ResponseModel {
    pub status: u32,
    pub message: Seq<char>,
    pub values: Seq<ValueModel>,
    pub pairs: Seq<(Seq<char>, ValueModel)>,
}

impl View for CommandResponse {
    type V = ResponseModel;

    open spec fn view(&self) -> ResponseModel {
        ResponseModel {
            status: self.status,
            message: self.message@,
            values: values_view(self.values@),
            pairs: pairs_view(self.pairs@),
        }
    }
}

/// A successful response that returns `values`.
pub open spec fn values_response(values: Seq<ValueModel>) -> ResponseModel {
    ResponseModel {
        status: Status::Success.code(),
        message: Seq::empty(),
        values,
        pairs: Seq::empty(),
    }
}

/// A successful response that returns `pairs`.
pub open spec fn pairs_response(pairs: Seq<(Seq<char>, ValueModel)>) -> ResponseModel {
    ResponseModel {
        status: Status::Success.code(),
        message: Seq::empty(),
        values: Seq::empty(),
        pairs,
    }
}

/// The response that reports `e`.
pub open spec fn error_response(e: KvError) -> ResponseModel {
    ResponseModel {
        status: e.status_spec().code(),
        message: e.message_spec(),
        values: Seq::empty(),
        pairs: Seq::empty(),
    }
}

/// What a command produced before its response is built.
#[derive(Debug, Clone)]
pub enum Reply {
    /// One value.
    One(Value),
    /// Values, in order.
    Many(Vec<Value>),
    /// Entries, in order.
    Entries(Vec<Kvpair>),
}

/// The response built from an outcome.
pub open spec fn respond_spec(o: Result<Reply, KvError>) -> ResponseModel {
    match o {
        Ok(Reply::One(v)) => values_response(seq![v@]),
        Ok(Reply::Many(vs)) => values_response(values_view(vs@)),
        Ok(Reply::Entries(ps)) => pairs_response(pairs_view(ps@)),
        Err(e) => error_response(e),
    }
}

impl CommandResponse {
    /// The response that reports outcome `o`.
    pub fn from_outcome(o: Result<Reply, KvError>) -> (r: Self)
        ensures
            r@ == respond_spec(o),
    {
        match o {
            Ok(Reply::One(v)) => CommandResponse::from_value(v),
            Ok(Reply::Many(vs)) => CommandResponse::from_values(vs),
            Ok(Reply::Entries(ps)) => CommandResponse::from_pairs(ps),
            Err(e) => CommandResponse::from_error(e),
        }
    }

    /// A successful response that returns the one value `v`.
    pub fn from_value(v: Value) -> (r: Self)
        ensures
            r@ == values_response(seq![v@]),
    {
        let r = CommandResponse {
            status: status_code(Status::Success),
            message: String::new(),
            values: vec![v],
            pairs: Vec::new(),
        };
        assert(r@.values =~= seq![v@]);
        assert(r@.pairs =~= Seq::<(Seq<char>, ValueModel)>::empty());
        r
    }

    /// A successful response that returns `v`, in order.
    pub fn from_values(v: Vec<Value>) -> (r: Self)
        ensures
            r@ == values_response(values_view(v@)),
    {
        let r = CommandResponse {
            status: status_code(Status::Success),
            message: String::new(),
            values: v,
            pairs: Vec::new(),
        };
        assert(r@.pairs =~= Seq::<(Seq<char>, ValueModel)>::empty());
        r
    }

    /// A successful response that returns the entries `v`, in order.
    pub fn from_pairs(v: Vec<Kvpair>) -> (r: Self)
        ensures
            r@ == pairs_response(pairs_view(v@)),
    {
        let r = CommandResponse {
            status: status_code(Status::Success),
            message: String::new(),
            values: Vec::new(),
            pairs: v,
        };
        assert(r@.values =~= Seq::<ValueModel>::empty());
        r
    }

    /// The response that reports `e`: its status and its message.
    pub fn from_error(e: KvError) -> (r: Self)
        ensures
            r@ == error_response(e),
    {
        let r = CommandResponse {
            status: e.status(),
            message: e.message(),
            values: Vec::new(),
            pairs: Vec::new(),
        };
        assert(r@.values =~= Seq::<ValueModel>::empty());
        assert(r@.pairs =~= Seq::<(Seq<char>, ValueModel)>::empty());
        r
    }
}

} // verus!
