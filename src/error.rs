//! The error kinds shared by storage and dispatch, each with its status.
use vstd::prelude::*;
use crate::status::{Status, status_code};

verus! {

/// What went wrong with one command.
#[derive(Debug, Clone)]
pub enum KvError {
    /// A single-key lookup or delete found nothing: the table, then the key.
    NotFound(String, String),
    /// The command was absent or made no sense.
    InvalidCommand(String),
    /// A failure of the backend or of a hook, unrelated to the input.
    Internal(String),
}

impl KvError {
    /// The status class of the error.
    pub open spec fn status_spec(&self) -> Status {
        match self {
            KvError::NotFound(_, _) => Status::NotFound,
            KvError::InvalidCommand(_) => Status::BadRequest,
            KvError::Internal(_) => Status::InternalError,
        }
    }

    /// The human-readable text of the error.
    pub open spec fn message_spec(&self) -> Seq<char> {
        match self {
            KvError::NotFound(t, k) => k@ + " not found in "@ + t@,
            KvError::InvalidCommand(d) => "invalid command: "@ + d@,
            KvError::Internal(d) => "internal error: "@ + d@,
        }
    }

    /// The numeric status code of the error.
    pub fn status(&self) -> (r: u32)
        ensures
            r == self.status_spec().code(),
    {
        match self {
            KvError::NotFound(_, _) => status_code(Status::NotFound),
            KvError::InvalidCommand(_) => status_code(Status::BadRequest),
            KvError::Internal(_) => status_code(Status::InternalError),
        }
    }

    /// The human-readable text of the error.
    pub fn message(&self) -> (r: String)
        ensures
            r@ == self.message_spec(),
            r@.len() > 0,
    {
        proof {
            reveal_strlit(" not found in ");
            reveal_strlit("invalid command: ");
            reveal_strlit("internal error: ");
        }
        match self {
            KvError::NotFound(t, k) => {
                let mut m = k.clone();
                m.append(" not found in ");
                m.append(t.as_str());
                m
            },
            KvError::InvalidCommand(d) => {
                let mut m = String::from_str("invalid command: ");
                m.append(d.as_str());
                m
            },
            KvError::Internal(d) => {
                let mut m = String::from_str("internal error: ");
                m.append(d.as_str());
                m
            },
        }
    }
}

} // verus!
