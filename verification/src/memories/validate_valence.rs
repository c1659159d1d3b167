//! The valence of an emotional signature on the wire: a real in `[-1, 1]`.

use vstd::prelude::*;
use crate::json::{Json, JsonValue};
use crate::scalar::{Scalar, MINUS_ONE_BITS, ONE_BITS};
use crate::violation::{SchemaViolation, Violation};
use crate::wire::{plain, read_limited, spec_limited};

verus! {

/// The valence that a document is read as, or why it is refused.
pub open spec fn checked(value: JsonValue) -> Result<Scalar, Violation> {
    spec_limited(value, "valence"@, Scalar { bits: MINUS_ONE_BITS }, Scalar { bits: ONE_BITS })
}

/// Writes the valence as it is, whatever it is.
pub fn serialize(valence: Scalar) -> (r: Json)
    ensures
        r.value() == JsonValue::Real(valence),
{
    Json::Real(valence)
}

/// Reads a valence: a number outside `[-1, 1]` is refused.
pub fn deserialize(value: &Json) -> (r: Result<Scalar, SchemaViolation>)
    ensures
        plain(r) == checked(value.value()),
{
    read_limited(value, "valence", Scalar::minus_one(), Scalar::one())
}

} // verus!
