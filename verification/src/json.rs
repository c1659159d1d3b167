//! The wire form of a record: a JSON document as a tree.
//!
//! The transport turns the bytes of a payload into a `Json` and back; which
//! tree a record is written as, and which trees are read as a record, is
//! decided here and in the modules of the records.

use vstd::prelude::*;
use crate::scalar::Scalar;

verus! {

/// A JSON document. A number is either a whole number or a single-precision
/// real; the fields of an object keep the order in which they were written.
#[derive(Debug, PartialEq)]
pub enum Json {
    Null,
    Bool(bool),
    Integer(i64),
    Real(Scalar),
    Text(String),
    List(Vec<Json>),
    Object(Vec<(String, Json)>),
}

/// A JSON document as a mathematical value.
#[verifier::ext_equal]
pub enum JsonValue {
    Null,
    Bool(bool),
    Integer(i64),
    Real(Scalar),
    Text(Seq<char>),
    List(Seq<JsonValue>),
    Object(Seq<(Seq<char>, JsonValue)>),
}

impl Json {
    /// The document as a mathematical value.
    pub open spec fn value(self) -> JsonValue
        decreases self,
    {
        match self {
            Json::Null => JsonValue::Null,
            Json::Bool(b) => JsonValue::Bool(b),
            Json::Integer(i) => JsonValue::Integer(i),
            Json::Real(x) => JsonValue::Real(x),
            Json::Text(t) => JsonValue::Text(t@),
            Json::List(items) => JsonValue::List(
                Seq::new(
                    items.len() as nat,
                    |i: int|
                        if 0 <= i < items.len() {
                            items[i].value()
                        } else {
                            JsonValue::Null
                        },
                ),
            ),
            Json::Object(fields) => JsonValue::Object(
                Seq::new(
                    fields.len() as nat,
                    |i: int|
                        if 0 <= i < fields.len() {
                            (fields[i].0@, fields[i].1.value())
                        } else {
                            (Seq::empty(), JsonValue::Null)
                        },
                ),
            ),
        }
    }
}

impl DeepView for Json {
    type V = JsonValue;

    open spec fn deep_view(&self) -> JsonValue {
        self.value()
    }
}

/// The items of a list, each as a mathematical value.
pub open spec fn items_view(items: Seq<Json>) -> Seq<JsonValue> {
    Seq::new(items.len(), |i: int| items[i].value())
}

/// The fields of an object, each as a mathematical value.
pub open spec fn entries_view(fields: Seq<(String, Json)>) -> Seq<(Seq<char>, JsonValue)> {
    Seq::new(fields.len(), |i: int| (fields[i].0@, fields[i].1.value()))
}

/// The value that a list of named entries holds under a name: that of the
/// first entry of this name.
pub open spec fn field<V>(entries: Seq<(Seq<char>, V)>, name: Seq<char>) -> Option<V>
    decreases entries.len(),
{
    if entries.len() == 0 {
        None
    } else {
        match field(entries.drop_last(), name) {
            Some(v) => Some(v),
            None => if entries.last().0 == name {
                Some(entries.last().1)
            } else {
                None
            },
        }
    }
}

impl JsonValue {
    /// The field of this name, where the document is an object that has one.
    pub open spec fn get(self, name: Seq<char>) -> Option<JsonValue> {
        match self {
            JsonValue::Object(entries) => field(entries, name),
            _ => None,
        }
    }
}

pub proof fn lemma_list_view(items: Vec<Json>)
    ensures
        Json::List(items).value() == JsonValue::List(items_view(items@)),
{
    let seen = Json::List(items).value();
    assert(seen is List);
    assert(seen->List_0.len() == items.len());
    assert(seen->List_0.len() == items@.len());
    assert forall|k: int| 0 <= k < items@.len() implies seen->List_0[k] == items_view(items@)[k] by {
        assert(seen->List_0[k] == items[k].value());
    }
    assert(seen->List_0 =~= items_view(items@));
}

pub proof fn lemma_object_view(fields: Vec<(String, Json)>)
    ensures
        Json::Object(fields).value() == JsonValue::Object(entries_view(fields@)),
{
    let seen = Json::Object(fields).value();
    assert(seen is Object);
    assert(seen->Object_0.len() == fields@.len());
    assert forall|k: int| 0 <= k < fields@.len() implies seen->Object_0[k] == entries_view(
        fields@,
    )[k] by {
        assert(seen->Object_0[k] == (fields[k].0@, fields[k].1.value()));
    }
    assert(seen->Object_0 =~= entries_view(fields@));
}

/// An entry added at the end is found under its name unless an earlier entry
/// has that name.
pub broadcast proof fn lemma_field_push<V>(
    entries: Seq<(Seq<char>, V)>,
    added: (Seq<char>, V),
    name: Seq<char>,
)
    ensures
        #[trigger] field(entries.push(added), name) == match field(entries, name) {
            Some(v) => Some(v),
            None => if added.0 == name {
                Some(added.1)
            } else {
                None
            },
        },
{
    assert(entries.push(added).drop_last() =~= entries);
}

/// No entry has the name: nothing is found.
pub proof fn lemma_field_absent<V>(entries: Seq<(Seq<char>, V)>, name: Seq<char>)
    requires
        forall|k: int| 0 <= k < entries.len() ==> (#[trigger] entries[k]).0 != name,
    ensures
        field(entries, name) is None,
    decreases entries.len(),
{
    if entries.len() > 0 {
        lemma_field_absent(entries.drop_last(), name);
    }
}

/// The first entry of the name is the one that is found.
pub proof fn lemma_field_first<V>(entries: Seq<(Seq<char>, V)>, name: Seq<char>, i: int)
    requires
        0 <= i < entries.len(),
        entries[i].0 == name,
        forall|k: int| 0 <= k < i ==> (#[trigger] entries[k]).0 != name,
    ensures
        field(entries, name) == Some(entries[i].1),
    decreases entries.len(),
{
    if i == entries.len() - 1 {
        lemma_field_absent(entries.drop_last(), name);
    } else {
        lemma_field_first(entries.drop_last(), name, i);
    }
}

impl Clone for Json {
    #[verifier::loop_isolation(false)]
    fn clone(&self) -> (r: Json)
        ensures
            r.value() == self.value(),
        decreases self,
    {
        match self {
            Json::Null => Json::Null,
            Json::Bool(b) => Json::Bool(*b),
            Json::Integer(i) => Json::Integer(*i),
            Json::Real(x) => Json::Real(*x),
            Json::Text(t) => Json::Text(t.clone()),
            Json::List(items) => {
                let mut out: Vec<Json> = Vec::new();
                let mut i: usize = 0;
                while i < items.len()
                    invariant
                        i <= items.len(),
                        out.len() == i,
                        forall|k: int| 0 <= k < i ==> out[k].value() == items[k].value(),
                    decreases items.len() - i,
                {
                    out.push(items[i].clone());
                    i = i + 1;
                }
                proof {
                    lemma_list_view(out);
                    lemma_list_view(*items);
                    assert(items_view(out@) =~= items_view(items@));
                }
                Json::List(out)
            },
            Json::Object(fields) => {
                let mut out: Vec<(String, Json)> = Vec::new();
                let mut i: usize = 0;
                while i < fields.len()
                    invariant
                        i <= fields.len(),
                        out.len() == i,
                        forall|k: int|
                            0 <= k < i ==> out[k].0@ == fields[k].0@ && out[k].1.value()
                                == fields[k].1.value(),
                    decreases fields.len() - i,
                {
                    out.push((fields[i].0.clone(), fields[i].1.clone()));
                    i = i + 1;
                }
                proof {
                    lemma_object_view(out);
                    lemma_object_view(*fields);
                    assert(entries_view(out@) =~= entries_view(fields@));
                }
                Json::Object(out)
            },
        }
    }
}

impl Json {
    /// The field of this name, where the document is an object that has one:
    /// the first, if several fields have the name.
    pub fn get<'a>(&'a self, name: &str) -> (r: Option<&'a Json>)
        ensures
            match r {
                Some(found) => self.value().get(name@) == Some(found.value()),
                None => self.value().get(name@) is None,
            },
    {
        match self {
            Json::Object(fields) => {
                proof {
                    lemma_object_view(*fields);
                }
                let wanted = name.to_owned();
                let mut i: usize = 0;
                while i < fields.len()
                    invariant
                        i <= fields.len(),
                        wanted@ == name@,
                        self.value() == JsonValue::Object(entries_view(fields@)),
                        forall|k: int|
                            0 <= k < i ==> (#[trigger] entries_view(fields@)[k]).0 != name@,
                    decreases fields.len() - i,
                {
                    if fields[i].0 == wanted {
                        proof {
                            lemma_field_first(entries_view(fields@), name@, i as int);
                            assert(entries_view(fields@)[i as int].1 == fields[i as int].1.value());
                        }
                        return Some(&fields[i].1);
                    }
                    i = i + 1;
                }
                proof {
                    lemma_field_absent(entries_view(fields@), name@);
                }
                None
            },
            _ => None,
        }
    }
}

/// Adds a field at the end of the fields of an object under construction.
pub fn put(fields: &mut Vec<(String, Json)>, name: &str, value: Json)
    ensures
        entries_view(final(fields)@) == entries_view(old(fields)@).push(
            (name@, value.value()),
        ),
        final(fields).len() == old(fields).len() + 1,
{
    fields.push((name.to_owned(), value));
    assert(entries_view(fields@) =~= entries_view(old(fields)@).push((name@, value.value())));
}

/// The fields of an object, each copied.
pub fn copy_fields(fields: &Vec<(String, Json)>) -> (r: Vec<(String, Json)>)
    ensures
        entries_view(r@) == entries_view(fields@),
{
    let mut out: Vec<(String, Json)> = Vec::new();
    let mut i: usize = 0;
    while i < fields.len()
        invariant
            i <= fields.len(),
            out.len() == i,
            forall|k: int|
                0 <= k < i ==> (#[trigger] out[k]).0@ == fields[k].0@ && out[k].1.value()
                    == fields[k].1.value(),
        decreases fields.len() - i,
    {
        out.push((fields[i].0.clone(), fields[i].1.clone()));
        i = i + 1;
    }
    assert(entries_view(out@) =~= entries_view(fields@));
    out
}

} // verus!
