//! The connections of a memory on the wire: a list of identifiers, each as
//! its text.

use vstd::prelude::*;
use crate::id::Id;
use crate::json::{items_view, lemma_list_view, Json, JsonValue};
use crate::violation::{Fault, SchemaViolation, Violation};
use crate::wire::{id_value, read_id, refusal, spec_id};

verus! {

/// The identifiers of a list all of whose items spell one.
pub open spec fn spec_ids(items: Seq<JsonValue>) -> Option<Seq<Id>> {
    if forall|k: int| 0 <= k < items.len() ==> spec_id(#[trigger] items[k]) is Some {
        Some(Seq::new(items.len(), |k: int| spec_id(items[k])->Some_0))
    } else {
        None
    }
}

/// The list that identifiers are written as.
pub open spec fn written(ids: Seq<Id>) -> JsonValue {
    JsonValue::List(Seq::new(ids.len(), |k: int| id_value(ids[k])))
}

/// The identifiers that a document is read as, or why it is refused: it
/// must be a list of texts that each spell an identifier.
pub open spec fn checked(value: JsonValue) -> Result<Seq<Id>, Violation> {
    match value {
        JsonValue::List(items) => match spec_ids(items) {
            Some(ids) => Ok(ids),
            None => Err(refusal("connections"@, Fault::Mistyped)),
        },
        _ => Err(refusal("connections"@, Fault::Mistyped)),
    }
}

/// Each identifier is canonical.
pub open spec fn all_canonical(ids: Seq<Id>) -> bool {
    forall|k: int| 0 <= k < ids.len() ==> (#[trigger] ids[k]).canonical()
}

/// Canonical identifiers that were written are read back as they were.
pub proof fn lemma_ids_round_trip(ids: Seq<Id>)
    requires
        all_canonical(ids),
    ensures
        checked(written(ids)) == Ok::<Seq<Id>, Violation>(ids),
{
    let items = written(ids)->List_0;
    assert forall|k: int| 0 <= k < items.len() implies spec_id(#[trigger] items[k]) == Some(
        ids[k],
    ) by {
        assert(ids[k].canonical());
    }
    assert(Seq::new(items.len(), |k: int| spec_id(items[k])->Some_0) =~= ids);
}

/// Writes identifiers as the list of their texts.
pub fn serialize(uuids: &Vec<Id>) -> (r: Json)
    ensures
        r.value() == written(uuids@),
        all_canonical(uuids@),
{
    let mut out: Vec<Json> = Vec::new();
    let mut i: usize = 0;
    while i < uuids.len()
        invariant
            i <= uuids.len(),
            out.len() == i,
            forall|k: int| 0 <= k < i ==> (#[trigger] out[k]).value() == id_value(uuids[k]),
            forall|k: int| 0 <= k < i ==> (#[trigger] uuids[k]).canonical(),
        decreases uuids.len() - i,
    {
        out.push(Json::Text(uuids[i].to_text()));
        i = i + 1;
    }
    proof {
        lemma_list_view(out);
        assert(items_view(out@) =~= written(uuids@)->List_0);
    }
    Json::List(out)
}

/// Reads identifiers from the list of their texts.
pub fn deserialize(value: &Json) -> (r: Result<Vec<Id>, SchemaViolation>)
    ensures
        match r {
            Ok(ids) => checked(value.value()) == Ok::<Seq<Id>, Violation>(ids@) && all_canonical(
                ids@,
            ),
            Err(e) => checked(value.value()) == Err::<Seq<Id>, Violation>(e.deep_view()),
        },
{
    match value {
        Json::List(items) => {
            proof {
                lemma_list_view(*items);
            }
            let mut out: Vec<Id> = Vec::new();
            let mut i: usize = 0;
            while i < items.len()
                invariant
                    i <= items.len(),
                    out.len() == i,
                    value.value() == JsonValue::List(items_view(items@)),
                    forall|k: int|
                        0 <= k < i ==> spec_id(#[trigger] items_view(items@)[k]) == Some(out[k]),
                    forall|k: int| 0 <= k < i ==> (#[trigger] out[k]).canonical(),
                decreases items.len() - i,
            {
                match read_id(&items[i]) {
                    Some(id) => {
                        out.push(id);
                    },
                    None => {
                        assert(spec_id(items_view(items@)[i as int]) is None);
                        return Err(SchemaViolation::new("connections", Fault::Mistyped));
                    },
                }
                i = i + 1;
            }
            assert(out@ =~= spec_ids(items_view(items@))->Some_0);
            Ok(out)
        },
        _ => Err(SchemaViolation::new("connections", Fault::Mistyped)),
    }
}

} // verus!
