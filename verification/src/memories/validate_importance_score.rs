//! The importance score of a memory on the wire: a real in `[0, 1]`.

use vstd::prelude::*;
use crate::json::{Json, JsonValue};
use crate::scalar::{Scalar, ONE_BITS, ZERO_BITS};
use crate::violation::{SchemaViolation, Violation};
use crate::wire::{plain, read_limited, spec_limited};

verus! {

/// The score that a document is read as, or why it is refused.
pub open spec fn checked(value: JsonValue) -> Result<Scalar, Violation> {
    spec_limited(value, "importance_score"@, Scalar { bits: ZERO_BITS }, Scalar { bits: ONE_BITS })
}

/// Writes the score as it is, whatever it is.
pub fn serialize(score: Scalar) -> (r: Json)
    ensures
        r.value() == JsonValue::Real(score),
{
    Json::Real(score)
}

/// Reads a score: a number outside `[0, 1]` is refused.
pub fn deserialize(value: &Json) -> (r: Result<Scalar, SchemaViolation>)
    ensures
        plain(r) == checked(value.value()),
{
    read_limited(value, "importance_score", Scalar::zero(), Scalar::one())
}

} // verus!
