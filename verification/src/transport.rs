//! What crosses the boundary to the transport: the request that it is asked
//! to send, and what it reports of the answer.
//!
//! The library decides which request stands for an operation and what an
//! answer amounts to. Sending is the caller's part: it performs a `Request`
//! and hands back an `Outcome`.

use vstd::prelude::*;
use crate::json::{Json, JsonValue};
use crate::wire::Record;

verus! {

/// Whether a status is one of success: those from 200 to 299.
pub open spec fn successful(status: u16) -> bool {
    200 <= status <= 299
}

/// Whether a status is one of success.
pub fn is_successful(status: u16) -> (r: bool)
    ensures
        r == successful(status),
{
    200 <= status && status <= 299
}

/// The verb of a request.
#[derive(Debug, Clone, Copy, PartialEq, Eq, Structural)]
pub enum Method {
    Get,
    Post,
    Put,
    Patch,
    Delete,
}

/// A request for the transport to send.
#[derive(Debug, Clone, PartialEq)]
pub struct Request {
    pub method: Method,
    pub url: String,
    /// The document to send as the body, for the verbs that carry one.
    pub body: Option<Json>,
}

/// What the transport reports of a request.
#[derive(Debug, Clone, PartialEq)]
pub enum Outcome {
    /// No response was obtained.
    Unreachable,
    /// A response came: its status, and its body where that is a JSON
    /// document.
    Answered { status: u16, body: Option<Json> },
}

impl Outcome {
    /// The document that the store sent with a status of success.
    pub open spec fn document(self) -> Option<JsonValue> {
        match self {
            Outcome::Answered { status, body: Some(doc) } => if successful(status) {
                Some(doc.value())
            } else {
                None
            },
            _ => None,
        }
    }

    /// Whether the store answered with a status of success.
    pub open spec fn confirmed(self) -> bool {
        self matches Outcome::Answered { status, .. } && successful(status)
    }

    /// The record that an outcome delivers: the one that the body of a
    /// successful response is read as. A request that was not answered, a
    /// status other than success and a body that is no record of the kind
    /// all deliver nothing, and cannot be told apart.
    pub open spec fn delivered<T: Record>(self) -> Option<T::V> {
        match self.document() {
            Some(doc) => match T::read(doc) {
                Ok(record) => Some(record),
                Err(_) => None,
            },
            None => None,
        }
    }

    /// Whether the store answered with a status of success.
    pub fn is_confirmed(&self) -> (r: bool)
        ensures
            r == self.confirmed(),
    {
        match self {
            Outcome::Answered { status, .. } => is_successful(*status),
            Outcome::Unreachable => false,
        }
    }

    /// Reads the record that the outcome delivers.
    pub fn deliver<T: Record>(&self) -> (r: Option<T>)
        ensures
            r.deep_view() == self.delivered::<T>(),
            r matches Some(record) ==> T::sound(record.deep_view()),
    {
        match self {
            Outcome::Answered { status, body: Some(doc) } => {
                if is_successful(*status) {
                    match T::decode(doc) {
                        Ok(record) => Some(record),
                        Err(_) => None,
                    }
                } else {
                    None
                }
            },
            _ => None,
        }
    }
}

/// The three ways to fail cannot be told apart: no response, a response
/// without a status of success, and a response of success whose body is
/// refused each deliver nothing.
pub proof fn lemma_failures_deliver_alike<T: Record>(status: u16, body: Option<Json>)
    ensures
        Outcome::Unreachable.delivered::<T>() is None,
        !successful(status) ==> (Outcome::Answered { status, body }).delivered::<T>() is None,
        body is None ==> (Outcome::Answered { status, body }).delivered::<T>() is None,
        body matches Some(doc) && T::read(doc.value()) is Err ==> (Outcome::Answered {
            status,
            body,
        }).delivered::<T>() is None,
{
}

} // verus!
