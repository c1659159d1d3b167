//! Why a payload was refused.

use vstd::prelude::*;
use crate::scalar::Scalar;

verus! {

/// What was wrong with a field of a payload.
#[derive(Clone, Copy, Debug, PartialEq)]
pub enum Fault {
    /// A required field is not there.
    Missing,
    /// The field holds a value of another kind than the record asks for.
    Mistyped,
    /// The field holds a number outside the closed interval it is limited to.
    OutOfRange { lowest: Scalar, highest: Scalar },
    /// The field holds a tag that the enumeration does not have.
    UnknownTag,
}

/// A payload broke the schema: no record is made of it.
#[derive(Clone, Debug, PartialEq)]
pub struct SchemaViolation {
    /// The name of the field that was refused.
    pub field: String,
    pub fault: Fault,
}

/// A `SchemaViolation` as a mathematical value.
pub struct Violation {
    pub field: Seq<char>,
    pub fault: Fault,
}

impl DeepView for SchemaViolation {
    type V = Violation;

    open spec fn deep_view(&self) -> Violation {
        Violation { field: self.field@, fault: self.fault }
    }
}

impl SchemaViolation {
    pub fn new(field: &str, fault: Fault) -> (r: SchemaViolation)
        ensures
            r.deep_view() == (Violation { field: field@, fault }),
    {
        SchemaViolation { field: field.to_owned(), fault }
    }
}

} // verus!
