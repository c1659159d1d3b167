//! Reading and writing the fields of a record on the wire.
//!
//! Each reader takes a document and the name of a field, and gives the value
//! of the field or the violation that refuses it; each has a specification
//! function of the same shape over `JsonValue`, of which the decoders of the
//! records are composed.

use vstd::prelude::*;
use crate::id::{uuid_text, Id};
use crate::json::{
    copy_fields, entries_view, items_view, lemma_list_view, lemma_object_view, put, Json,
    JsonValue,
};
use crate::scalar::Scalar;
use crate::violation::{Fault, SchemaViolation, Violation};

verus! {

/// The violation that refuses the field `name` for `fault`.
pub open spec fn refusal(name: Seq<char>, fault: Fault) -> Violation {
    Violation { field: name, fault }
}

/// What a decoder returned, as a mathematical value.
pub open spec fn outcome<T: DeepView>(r: Result<T, SchemaViolation>) -> Result<T::V, Violation> {
    match r {
        Ok(v) => Ok(v.deep_view()),
        Err(e) => Err(e.deep_view()),
    }
}

/// What a reader of a plain value returned, as a mathematical value.
pub open spec fn plain<T>(r: Result<T, SchemaViolation>) -> Result<T, Violation> {
    match r {
        Ok(v) => Ok(v),
        Err(e) => Err(e.deep_view()),
    }
}

/// A required text.
pub open spec fn spec_text(doc: JsonValue, name: Seq<char>) -> Result<Seq<char>, Violation> {
    match doc.get(name) {
        None => Err(refusal(name, Fault::Missing)),
        Some(JsonValue::Text(t)) => Ok(t),
        Some(_) => Err(refusal(name, Fault::Mistyped)),
    }
}

/// A text that may be absent, or null.
pub open spec fn spec_optional_text(doc: JsonValue, name: Seq<char>) -> Result<
    Option<Seq<char>>,
    Violation,
> {
    match doc.get(name) {
        None => Ok(None),
        Some(JsonValue::Null) => Ok(None),
        Some(JsonValue::Text(t)) => Ok(Some(t)),
        Some(_) => Err(refusal(name, Fault::Mistyped)),
    }
}

/// The real that a document is read as: a real itself, or a whole number
/// that binary32 holds exactly.
pub open spec fn spec_number(value: JsonValue) -> Option<Scalar> {
    match value {
        JsonValue::Real(x) => Some(x),
        JsonValue::Integer(i) => Scalar::whole(i as int),
        _ => None,
    }
}

/// A required real, of any size.
pub open spec fn spec_real(doc: JsonValue, name: Seq<char>) -> Result<Scalar, Violation> {
    match doc.get(name) {
        None => Err(refusal(name, Fault::Missing)),
        Some(value) => match spec_number(value) {
            Some(x) => Ok(x),
            None => Err(refusal(name, Fault::Mistyped)),
        },
    }
}

/// A document read as a real that is limited to `[lowest, highest]`: one
/// outside is refused for the field `name`, never moved into the interval.
pub open spec fn spec_limited(
    value: JsonValue,
    name: Seq<char>,
    lowest: Scalar,
    highest: Scalar,
) -> Result<Scalar, Violation> {
    match spec_number(value) {
        None => Err(refusal(name, Fault::Mistyped)),
        Some(x) => if x.within(lowest, highest) {
            Ok(x)
        } else {
            Err(refusal(name, Fault::OutOfRange { lowest, highest }))
        },
    }
}

/// A required real that is limited to `[lowest, highest]`.
pub open spec fn spec_ranged(
    doc: JsonValue,
    name: Seq<char>,
    lowest: Scalar,
    highest: Scalar,
) -> Result<Scalar, Violation> {
    match doc.get(name) {
        None => Err(refusal(name, Fault::Missing)),
        Some(value) => spec_limited(value, name, lowest, highest),
    }
}

/// A required whole number.
pub open spec fn spec_integer(doc: JsonValue, name: Seq<char>) -> Result<i64, Violation> {
    match doc.get(name) {
        None => Err(refusal(name, Fault::Missing)),
        Some(JsonValue::Integer(i)) => Ok(i),
        Some(_) => Err(refusal(name, Fault::Mistyped)),
    }
}

/// The identifier that a document spells.
pub open spec fn spec_id(value: JsonValue) -> Option<Id> {
    match value {
        JsonValue::Text(t) => Id::spec_parse(t),
        _ => None,
    }
}

/// An identifier that may be absent, or null.
pub open spec fn spec_optional_id(doc: JsonValue, name: Seq<char>) -> Result<
    Option<Id>,
    Violation,
> {
    match doc.get(name) {
        None => Ok(None),
        Some(JsonValue::Null) => Ok(None),
        Some(value) => match spec_id(value) {
            Some(id) => Ok(Some(id)),
            None => Err(refusal(name, Fault::Mistyped)),
        },
    }
}

/// The texts of a list all of whose items are texts.
pub open spec fn spec_texts(items: Seq<JsonValue>) -> Option<Seq<Seq<char>>> {
    if forall|k: int| 0 <= k < items.len() ==> (#[trigger] items[k]) is Text {
        Some(Seq::new(items.len(), |k: int| items[k]->Text_0))
    } else {
        None
    }
}

/// A required list of texts.
pub open spec fn spec_text_list(doc: JsonValue, name: Seq<char>) -> Result<
    Seq<Seq<char>>,
    Violation,
> {
    match doc.get(name) {
        None => Err(refusal(name, Fault::Missing)),
        Some(JsonValue::List(items)) => match spec_texts(items) {
            Some(texts) => Ok(texts),
            None => Err(refusal(name, Fault::Mistyped)),
        },
        Some(_) => Err(refusal(name, Fault::Mistyped)),
    }
}

/// A list of texts that may be absent, or null.
pub open spec fn spec_optional_text_list(doc: JsonValue, name: Seq<char>) -> Result<
    Option<Seq<Seq<char>>>,
    Violation,
> {
    match doc.get(name) {
        None => Ok(None),
        Some(JsonValue::Null) => Ok(None),
        Some(JsonValue::List(items)) => match spec_texts(items) {
            Some(texts) => Ok(Some(texts)),
            None => Err(refusal(name, Fault::Mistyped)),
        },
        Some(_) => Err(refusal(name, Fault::Mistyped)),
    }
}

/// The records of a list, each read by `each`: the violation of the first
/// item that is refused, if one is.
pub open spec fn decode_all<T>(
    items: Seq<JsonValue>,
    each: spec_fn(JsonValue) -> Result<T, Violation>,
) -> Result<Seq<T>, Violation>
    decreases items.len(),
{
    if items.len() == 0 {
        Ok(Seq::empty())
    } else {
        match decode_all(items.drop_last(), each) {
            Err(e) => Err(e),
            Ok(front) => match each(items.last()) {
                Err(e) => Err(e),
                Ok(v) => Ok(front.push(v)),
            },
        }
    }
}

/// A required list of records, each read by `each`.
pub open spec fn spec_records<T>(
    doc: JsonValue,
    name: Seq<char>,
    each: spec_fn(JsonValue) -> Result<T, Violation>,
) -> Result<Seq<T>, Violation> {
    match doc.get(name) {
        None => Err(refusal(name, Fault::Missing)),
        Some(JsonValue::List(items)) => decode_all(items, each),
        Some(_) => Err(refusal(name, Fault::Mistyped)),
    }
}

/// A list of records that may be absent, or null.
pub open spec fn spec_optional_records<T>(
    doc: JsonValue,
    name: Seq<char>,
    each: spec_fn(JsonValue) -> Result<T, Violation>,
) -> Result<Option<Seq<T>>, Violation> {
    match doc.get(name) {
        None => Ok(None),
        Some(JsonValue::Null) => Ok(None),
        Some(JsonValue::List(items)) => match decode_all(items, each) {
            Ok(records) => Ok(Some(records)),
            Err(e) => Err(e),
        },
        Some(_) => Err(refusal(name, Fault::Mistyped)),
    }
}

/// The list that records are written as, each by `write`.
pub open spec fn records_value<T>(records: Seq<T>, write: spec_fn(T) -> JsonValue) -> JsonValue {
    JsonValue::List(Seq::new(records.len(), |k: int| write(records[k])))
}

/// The document that an optional text is written as, where it is there.
pub open spec fn optional_text_value(text: Option<Seq<char>>) -> Option<JsonValue> {
    match text {
        Some(text) => Some(JsonValue::Text(text)),
        None => None,
    }
}

/// The list that texts are written as.
pub open spec fn texts_value(texts: Seq<Seq<char>>) -> JsonValue {
    JsonValue::List(Seq::new(texts.len(), |k: int| JsonValue::Text(texts[k])))
}

/// The text that an identifier is written as.
pub open spec fn id_value(id: Id) -> JsonValue {
    JsonValue::Text(uuid_text(id.value))
}

/// The fields with one more at the end.
pub open spec fn with(
    entries: Seq<(Seq<char>, JsonValue)>,
    name: Seq<char>,
    value: JsonValue,
) -> Seq<(Seq<char>, JsonValue)> {
    entries.push((name, value))
}

/// The fields with one more at the end where there is a value to write: an
/// absent value leaves no field, not a null.
pub open spec fn with_optional(
    entries: Seq<(Seq<char>, JsonValue)>,
    name: Seq<char>,
    value: Option<JsonValue>,
) -> Seq<(Seq<char>, JsonValue)> {
    match value {
        Some(v) => entries.push((name, v)),
        None => entries,
    }
}

/// The fields with the identifier at the end, where there is one.
pub open spec fn with_id(
    entries: Seq<(Seq<char>, JsonValue)>,
    name: Seq<char>,
    id: Option<Id>,
) -> Seq<(Seq<char>, JsonValue)> {
    match id {
        Some(id) => entries.push((name, id_value(id))),
        None => entries,
    }
}

/// A list that stops being read at a refused item is refused for that item.
pub proof fn lemma_decode_all_stops<T>(
    items: Seq<JsonValue>,
    each: spec_fn(JsonValue) -> Result<T, Violation>,
    n: int,
)
    requires
        0 <= n <= items.len(),
        decode_all(items.take(n), each) is Err,
    ensures
        decode_all(items, each) == decode_all(items.take(n), each),
    decreases items.len() - n,
{
    if n == items.len() {
        assert(items.take(n) =~= items);
    } else {
        assert(items.take(n + 1).drop_last() =~= items.take(n));
        lemma_decode_all_stops(items, each, n + 1);
    }
}

/// Reading one item more.
pub proof fn lemma_decode_all_step<T>(
    items: Seq<JsonValue>,
    each: spec_fn(JsonValue) -> Result<T, Violation>,
    n: int,
)
    requires
        0 <= n < items.len(),
    ensures
        decode_all(items.take(n + 1), each) == match decode_all(items.take(n), each) {
            Err(e) => Err(e),
            Ok(front) => match each(items[n]) {
                Err(e) => Err(e),
                Ok(v) => Ok(front.push(v)),
            },
        },
{
    assert(items.take(n + 1).drop_last() =~= items.take(n));
}

/// A list of records that each read back as themselves reads back as itself.
pub proof fn lemma_decode_all_encoded<T>(
    records: Seq<T>,
    write: spec_fn(T) -> JsonValue,
    each: spec_fn(JsonValue) -> Result<T, Violation>,
)
    requires
        forall|k: int| 0 <= k < records.len() ==> each(write(#[trigger] records[k])) == Ok::<T, Violation>(records[k]),
    ensures
        decode_all(Seq::new(records.len(), |k: int| write(records[k])), each) == Ok::<Seq<T>, Violation>(records),
    decreases records.len(),
{
    let written = Seq::new(records.len(), |k: int| write(records[k]));
    if records.len() == 0 {
        assert(records =~= Seq::empty());
    } else {
        let front = records.drop_last();
        lemma_decode_all_encoded(front, write, each);
        assert(written.drop_last() =~= Seq::new(front.len(), |k: int| write(front[k])));
        assert(written.last() == write(records.last()));
        assert(front.push(records.last()) =~= records);
    }
}

/// Texts that were written are read back as they were.
pub proof fn lemma_texts_round_trip(texts: Seq<Seq<char>>)
    ensures
        spec_texts(texts_value(texts)->List_0) == Some(texts),
{
    let items = texts_value(texts)->List_0;
    assert(Seq::new(items.len(), |k: int| items[k]->Text_0) =~= texts);
}

/// Reads a required text.
pub fn read_text(doc: &Json, name: &str) -> (r: Result<String, SchemaViolation>)
    ensures
        outcome(r) == spec_text(doc.value(), name@),
{
    match doc.get(name) {
        None => Err(SchemaViolation::new(name, Fault::Missing)),
        Some(Json::Text(t)) => Ok(t.clone()),
        Some(_) => Err(SchemaViolation::new(name, Fault::Mistyped)),
    }
}

/// Reads a text that may be absent.
pub fn read_optional_text(doc: &Json, name: &str) -> (r: Result<Option<String>, SchemaViolation>)
    ensures
        outcome(r) == spec_optional_text(doc.value(), name@),
{
    match doc.get(name) {
        None => Ok(None),
        Some(Json::Null) => Ok(None),
        Some(Json::Text(t)) => Ok(Some(t.clone())),
        Some(_) => Err(SchemaViolation::new(name, Fault::Mistyped)),
    }
}

/// Reads a document as a real.
pub fn read_number(value: &Json) -> (r: Option<Scalar>)
    ensures
        r == spec_number(value.value()),
{
    match value {
        Json::Real(x) => Some(*x),
        Json::Integer(i) => Scalar::from_integer(*i),
        _ => None,
    }
}

/// Reads a required real.
pub fn read_real(doc: &Json, name: &str) -> (r: Result<Scalar, SchemaViolation>)
    ensures
        plain(r) == spec_real(doc.value(), name@),
{
    match doc.get(name) {
        None => Err(SchemaViolation::new(name, Fault::Missing)),
        Some(value) => match read_number(value) {
            Some(x) => Ok(x),
            None => Err(SchemaViolation::new(name, Fault::Mistyped)),
        },
    }
}

/// Reads a document as a real that is limited to `[lowest, highest]`.
pub fn read_limited(value: &Json, name: &str, lowest: Scalar, highest: Scalar) -> (r: Result<
    Scalar,
    SchemaViolation,
>)
    ensures
        plain(r) == spec_limited(value.value(), name@, lowest, highest),
{
    match read_number(value) {
        None => Err(SchemaViolation::new(name, Fault::Mistyped)),
        Some(x) => if x.is_within(lowest, highest) {
            Ok(x)
        } else {
            Err(SchemaViolation::new(name, Fault::OutOfRange { lowest, highest }))
        },
    }
}

/// Reads a required real that is limited to `[lowest, highest]`.
pub fn read_ranged(doc: &Json, name: &str, lowest: Scalar, highest: Scalar) -> (r: Result<
    Scalar,
    SchemaViolation,
>)
    ensures
        plain(r) == spec_ranged(doc.value(), name@, lowest, highest),
{
    match doc.get(name) {
        None => Err(SchemaViolation::new(name, Fault::Missing)),
        Some(value) => read_limited(value, name, lowest, highest),
    }
}

/// Reads a required whole number.
pub fn read_integer(doc: &Json, name: &str) -> (r: Result<i64, SchemaViolation>)
    ensures
        plain(r) == spec_integer(doc.value(), name@),
{
    match doc.get(name) {
        None => Err(SchemaViolation::new(name, Fault::Missing)),
        Some(Json::Integer(i)) => Ok(*i),
        Some(_) => Err(SchemaViolation::new(name, Fault::Mistyped)),
    }
}

/// Reads a document as an identifier.
pub fn read_id(value: &Json) -> (r: Option<Id>)
    ensures
        r == spec_id(value.value()),
        r matches Some(id) ==> id.canonical(),
{
    match value {
        Json::Text(t) => Id::parse(t.as_str()),
        _ => None,
    }
}

/// Reads an identifier that may be absent.
pub fn read_optional_id(doc: &Json, name: &str) -> (r: Result<Option<Id>, SchemaViolation>)
    ensures
        plain(r) == spec_optional_id(doc.value(), name@),
        r matches Ok(Some(id)) ==> id.canonical(),
{
    match doc.get(name) {
        None => Ok(None),
        Some(Json::Null) => Ok(None),
        Some(value) => match read_id(value) {
            Some(id) => Ok(Some(id)),
            None => Err(SchemaViolation::new(name, Fault::Mistyped)),
        },
    }
}

/// Reads the items of a list as texts.
pub fn read_texts(items: &Vec<Json>) -> (r: Option<Vec<String>>)
    ensures
        r.deep_view() == spec_texts(items_view(items@)),
{
    let mut out: Vec<String> = Vec::new();
    let mut i: usize = 0;
    while i < items.len()
        invariant
            i <= items.len(),
            out.len() == i,
            forall|k: int| 0 <= k < i ==> (#[trigger] items_view(items@)[k]) is Text,
            forall|k: int| 0 <= k < i ==> (#[trigger] out[k])@ == items_view(items@)[k]->Text_0,
        decreases items.len() - i,
    {
        match &items[i] {
            Json::Text(t) => {
                out.push(t.clone());
            },
            _ => {
                assert(!(items_view(items@)[i as int] is Text));
                return None;
            },
        }
        i = i + 1;
    }
    assert(out.deep_view() =~= spec_texts(items_view(items@))->Some_0);
    Some(out)
}

/// Reads a required list of texts.
pub fn read_text_list(doc: &Json, name: &str) -> (r: Result<Vec<String>, SchemaViolation>)
    ensures
        outcome(r) == spec_text_list(doc.value(), name@),
{
    match doc.get(name) {
        None => Err(SchemaViolation::new(name, Fault::Missing)),
        Some(Json::List(items)) => {
            proof {
                lemma_list_view(*items);
            }
            match read_texts(items) {
                Some(texts) => Ok(texts),
                None => Err(SchemaViolation::new(name, Fault::Mistyped)),
            }
        },
        Some(_) => Err(SchemaViolation::new(name, Fault::Mistyped)),
    }
}

/// Reads a list of texts that may be absent.
pub fn read_optional_text_list(doc: &Json, name: &str) -> (r: Result<
    Option<Vec<String>>,
    SchemaViolation,
>)
    ensures
        outcome(r) == spec_optional_text_list(doc.value(), name@),
{
    match doc.get(name) {
        None => Ok(None),
        Some(Json::Null) => Ok(None),
        Some(Json::List(items)) => {
            proof {
                lemma_list_view(*items);
            }
            match read_texts(items) {
                Some(texts) => Ok(Some(texts)),
                None => Err(SchemaViolation::new(name, Fault::Mistyped)),
            }
        },
        Some(_) => Err(SchemaViolation::new(name, Fault::Mistyped)),
    }
}

/// Writes texts as a list.
pub fn write_texts(texts: &Vec<String>) -> (r: Json)
    ensures
        r.value() == texts_value(texts.deep_view()),
{
    let mut out: Vec<Json> = Vec::new();
    let mut i: usize = 0;
    while i < texts.len()
        invariant
            i <= texts.len(),
            out.len() == i,
            forall|k: int| 0 <= k < i ==> (#[trigger] out[k]).value() == JsonValue::Text(texts[k]@),
        decreases texts.len() - i,
    {
        out.push(Json::Text(texts[i].clone()));
        i = i + 1;
    }
    proof {
        lemma_list_view(out);
        assert(items_view(out@) =~= texts_value(texts.deep_view())->List_0);
    }
    Json::List(out)
}

/// Adds a text field.
pub fn put_text(fields: &mut Vec<(String, Json)>, name: &str, text: &String)
    ensures
        entries_view(final(fields)@) == with(
            entries_view(old(fields)@),
            name@,
            JsonValue::Text(text@),
        ),
{
    put(fields, name, Json::Text(text.clone()));
}

/// Adds a text field where there is a text.
pub fn put_optional_text(fields: &mut Vec<(String, Json)>, name: &str, text: &Option<String>)
    ensures
        entries_view(final(fields)@) == with_optional(
            entries_view(old(fields)@),
            name@,
            optional_text_value(text.deep_view()),
        ),
{
    match text {
        Some(t) => put(fields, name, Json::Text(t.clone())),
        None => {},
    }
}

/// Adds an identifier field where there is an identifier.
pub fn put_id(fields: &mut Vec<(String, Json)>, name: &str, id: &Option<Id>)
    ensures
        entries_view(final(fields)@) == with_id(entries_view(old(fields)@), name@, *id),
{
    match id {
        Some(id) => put(fields, name, Json::Text(id.to_text())),
        None => {},
    }
}

/// A record that has a wire form.
pub trait Record: DeepView + Sized {
    /// The document that a record is written as.
    spec fn written(record: Self::V) -> JsonValue;

    /// The record that a document is read as, or why it is refused.
    spec fn read(doc: JsonValue) -> Result<Self::V, Violation>;

    /// What the wire asks of a record: that each number which the schema
    /// limits lies in its interval, and that each identifier is canonical.
    spec fn sound(record: Self::V) -> bool;

    /// A sound record that was written is read back as it was.
    proof fn round_trip(record: Self::V)
        requires
            Self::sound(record),
        ensures
            Self::read(Self::written(record)) == Ok::<Self::V, Violation>(record),
    ;

    /// Writes the record as a document, whatever its numbers are, leaving
    /// out each optional field that is absent.
    fn encode(&self) -> (r: Json)
        ensures
            r.value() == Self::written(self.deep_view()),
    ;

    /// Reads a record from a document. A document that breaks the schema
    /// gives no record.
    fn decode(doc: &Json) -> (r: Result<Self, SchemaViolation>)
        ensures
            outcome(r) == Self::read(doc.value()),
            r matches Ok(record) ==> Self::sound(record.deep_view()),
    ;
}

/// The reader of one record, for lists of them.
pub open spec fn reader<T: Record>() -> spec_fn(JsonValue) -> Result<T::V, Violation> {
    |doc: JsonValue| T::read(doc)
}

/// The writer of one record, for lists of them.
pub open spec fn writer<T: Record>() -> spec_fn(T::V) -> JsonValue {
    |record: T::V| T::written(record)
}

/// Each record of a list is sound.
pub open spec fn all_sound<T: Record>(records: Seq<T::V>) -> bool {
    forall|k: int| 0 <= k < records.len() ==> T::sound(#[trigger] records[k])
}

/// A list of sound records that was written is read back as it was.
pub proof fn lemma_records_round_trip<T: Record>(records: Seq<T::V>)
    requires
        all_sound::<T>(records),
    ensures
        decode_all(records_value(records, writer::<T>())->List_0, reader::<T>()) == Ok::<
            Seq<T::V>,
            Violation,
        >(records),
{
    assert forall|k: int| 0 <= k < records.len() implies (reader::<T>())(
        (writer::<T>())(#[trigger] records[k]),
    ) == Ok::<T::V, Violation>(records[k]) by {
        T::round_trip(records[k]);
    }
    lemma_decode_all_encoded(records, writer::<T>(), reader::<T>());
}

/// Reads the items of a list as records.
pub fn decode_list<T: Record>(items: &Vec<Json>) -> (r: Result<Vec<T>, SchemaViolation>)
    ensures
        outcome(r) == decode_all(items_view(items@), reader::<T>()),
        r matches Ok(records) ==> all_sound::<T>(records.deep_view()),
{
    let mut out: Vec<T> = Vec::new();
    let mut i: usize = 0;
    assert(items_view(items@).take(0) =~= Seq::empty());
    assert(out.deep_view() =~= Seq::empty());
    while i < items.len()
        invariant
            i <= items.len(),
            out.len() == i,
            decode_all(items_view(items@).take(i as int), reader::<T>()) == Ok::<
                Seq<T::V>,
                Violation,
            >(out.deep_view()),
            all_sound::<T>(out.deep_view()),
        decreases items.len() - i,
    {
        proof {
            lemma_decode_all_step(items_view(items@), reader::<T>(), i as int);
        }
        let ghost before = out.deep_view();
        match T::decode(&items[i]) {
            Ok(record) => {
                out.push(record);
                assert(out.deep_view() =~= before.push(record.deep_view()));
            },
            Err(e) => {
                proof {
                    lemma_decode_all_stops(items_view(items@), reader::<T>(), i as int + 1);
                }
                return Err(e);
            },
        }
        i = i + 1;
    }
    assert(items_view(items@).take(i as int) =~= items_view(items@));
    Ok(out)
}

/// Writes records as a list.
pub fn encode_list<T: Record>(records: &Vec<T>) -> (r: Json)
    ensures
        r.value() == records_value(records.deep_view(), writer::<T>()),
{
    let mut out: Vec<Json> = Vec::new();
    let mut i: usize = 0;
    while i < records.len()
        invariant
            i <= records.len(),
            out.len() == i,
            forall|k: int|
                0 <= k < i ==> (#[trigger] out[k]).value() == T::written(records[k].deep_view()),
        decreases records.len() - i,
    {
        out.push(records[i].encode());
        i = i + 1;
    }
    proof {
        lemma_list_view(out);
        assert(items_view(out@) =~= records_value(records.deep_view(), writer::<T>())->List_0);
    }
    Json::List(out)
}

/// Reads a required list of records.
pub fn read_records<T: Record>(doc: &Json, name: &str) -> (r: Result<Vec<T>, SchemaViolation>)
    ensures
        outcome(r) == spec_records(doc.value(), name@, reader::<T>()),
        r matches Ok(records) ==> all_sound::<T>(records.deep_view()),
{
    match doc.get(name) {
        None => Err(SchemaViolation::new(name, Fault::Missing)),
        Some(Json::List(items)) => {
            proof {
                lemma_list_view(*items);
            }
            decode_list(items)
        },
        Some(_) => Err(SchemaViolation::new(name, Fault::Mistyped)),
    }
}

/// Reads a list of records that may be absent.
pub fn read_optional_records<T: Record>(doc: &Json, name: &str) -> (r: Result<
    Option<Vec<T>>,
    SchemaViolation,
>)
    ensures
        outcome(r) == spec_optional_records(doc.value(), name@, reader::<T>()),
        r matches Ok(Some(records)) ==> all_sound::<T>(records.deep_view()),
{
    match doc.get(name) {
        None => Ok(None),
        Some(Json::Null) => Ok(None),
        Some(Json::List(items)) => {
            proof {
                lemma_list_view(*items);
            }
            match decode_list(items) {
                Ok(records) => Ok(Some(records)),
                Err(e) => Err(e),
            }
        },
        Some(_) => Err(SchemaViolation::new(name, Fault::Mistyped)),
    }
}

/// The list that optional records are written as, where they are there.
pub open spec fn optional_records_value<T: Record>(records: Option<Seq<T::V>>) -> Option<
    JsonValue,
> {
    match records {
        Some(records) => Some(records_value(records, writer::<T>())),
        None => None,
    }
}

/// The list that optional texts are written as, where they are there.
pub open spec fn optional_texts_value(texts: Option<Seq<Seq<char>>>) -> Option<JsonValue> {
    match texts {
        Some(texts) => Some(texts_value(texts)),
        None => None,
    }
}

/// The document that an optional record is written as, where it is there.
pub open spec fn optional_record_value<T: Record>(record: Option<T::V>) -> Option<JsonValue> {
    match record {
        Some(record) => Some(T::written(record)),
        None => None,
    }
}

/// A record that may be absent, or null.
pub open spec fn spec_optional_record<T: Record>(doc: JsonValue, name: Seq<char>) -> Result<
    Option<T::V>,
    Violation,
> {
    match doc.get(name) {
        None => Ok(None),
        Some(JsonValue::Null) => Ok(None),
        Some(value) => match T::read(value) {
            Ok(record) => Ok(Some(record)),
            Err(e) => Err(e),
        },
    }
}

/// A required record. A field that is not there is read as a document
/// without fields, which the record refuses for its first required field.
pub open spec fn spec_record<T: Record>(doc: JsonValue, name: Seq<char>) -> Result<
    T::V,
    Violation,
> {
    match doc.get(name) {
        None => Err(refusal(name, Fault::Missing)),
        Some(value) => T::read(value),
    }
}

/// Reads a required record.
pub fn read_record<T: Record>(doc: &Json, name: &str) -> (r: Result<T, SchemaViolation>)
    ensures
        outcome(r) == spec_record::<T>(doc.value(), name@),
        r matches Ok(record) ==> T::sound(record.deep_view()),
{
    match doc.get(name) {
        None => Err(SchemaViolation::new(name, Fault::Missing)),
        Some(value) => T::decode(value),
    }
}

/// Reads a record that may be absent.
pub fn read_optional_record<T: Record>(doc: &Json, name: &str) -> (r: Result<
    Option<T>,
    SchemaViolation,
>)
    ensures
        outcome(r) == spec_optional_record::<T>(doc.value(), name@),
        r matches Ok(Some(record)) ==> T::sound(record.deep_view()),
{
    match doc.get(name) {
        None => Ok(None),
        Some(Json::Null) => Ok(None),
        Some(value) => match T::decode(value) {
            Ok(record) => Ok(Some(record)),
            Err(e) => Err(e),
        },
    }
}

/// Adds a real field.
pub fn put_real(fields: &mut Vec<(String, Json)>, name: &str, x: Scalar)
    ensures
        entries_view(final(fields)@) == with(entries_view(old(fields)@), name@, JsonValue::Real(x)),
{
    put(fields, name, Json::Real(x));
}

/// Adds a whole-number field.
pub fn put_integer(fields: &mut Vec<(String, Json)>, name: &str, i: i64)
    ensures
        entries_view(final(fields)@) == with(
            entries_view(old(fields)@),
            name@,
            JsonValue::Integer(i),
        ),
{
    put(fields, name, Json::Integer(i));
}

/// Adds a field that holds a list of texts.
pub fn put_texts(fields: &mut Vec<(String, Json)>, name: &str, texts: &Vec<String>)
    ensures
        entries_view(final(fields)@) == with(
            entries_view(old(fields)@),
            name@,
            texts_value(texts.deep_view()),
        ),
{
    put(fields, name, write_texts(texts));
}

/// Adds a field that holds a list of texts, where there is a list.
pub fn put_optional_texts(
    fields: &mut Vec<(String, Json)>,
    name: &str,
    texts: &Option<Vec<String>>,
)
    ensures
        entries_view(final(fields)@) == with_optional(
            entries_view(old(fields)@),
            name@,
            optional_texts_value(texts.deep_view()),
        ),
{
    match texts {
        Some(texts) => put(fields, name, write_texts(texts)),
        None => {},
    }
}

/// Adds a field that holds a record.
pub fn put_record<T: Record>(fields: &mut Vec<(String, Json)>, name: &str, record: &T)
    ensures
        entries_view(final(fields)@) == with(
            entries_view(old(fields)@),
            name@,
            T::written(record.deep_view()),
        ),
{
    put(fields, name, record.encode());
}

/// Adds a field that holds a record, where there is a record.
pub fn put_optional_record<T: Record>(
    fields: &mut Vec<(String, Json)>,
    name: &str,
    record: &Option<T>,
)
    ensures
        entries_view(final(fields)@) == with_optional(
            entries_view(old(fields)@),
            name@,
            optional_record_value::<T>(record.deep_view()),
        ),
{
    match record {
        Some(record) => put(fields, name, record.encode()),
        None => {},
    }
}

/// Adds a field that holds a list of records.
pub fn put_records<T: Record>(fields: &mut Vec<(String, Json)>, name: &str, records: &Vec<T>)
    ensures
        entries_view(final(fields)@) == with(
            entries_view(old(fields)@),
            name@,
            records_value(records.deep_view(), writer::<T>()),
        ),
{
    put(fields, name, encode_list(records));
}

/// Adds a field that holds a list of records, where there is a list.
pub fn put_optional_records<T: Record>(
    fields: &mut Vec<(String, Json)>,
    name: &str,
    records: &Option<Vec<T>>,
)
    ensures
        entries_view(final(fields)@) == with_optional(
            entries_view(old(fields)@),
            name@,
            optional_records_value::<T>(records.deep_view()),
        ),
{
    match records {
        Some(records) => put(fields, name, encode_list(records)),
        None => {},
    }
}

/// Whether a text is the given one.
pub fn text_is(text: &String, wanted: &str) -> (r: bool)
    ensures
        r == (text@ == wanted@),
{
    let other = wanted.to_owned();
    *text == other
}

/// The fields of an object that may be absent, each as a mathematical value.
pub open spec fn optional_entries_view(fields: Option<Vec<(String, Json)>>) -> Option<
    Seq<(Seq<char>, JsonValue)>,
> {
    match fields {
        Some(fields) => Some(entries_view(fields@)),
        None => None,
    }
}

/// The object that optional fields are written as, where they are there.
pub open spec fn optional_object_value(fields: Option<Seq<(Seq<char>, JsonValue)>>) -> Option<
    JsonValue,
> {
    match fields {
        Some(fields) => Some(JsonValue::Object(fields)),
        None => None,
    }
}

/// The fields of an object that may be absent, or null.
pub open spec fn spec_optional_object(doc: JsonValue, name: Seq<char>) -> Result<
    Option<Seq<(Seq<char>, JsonValue)>>,
    Violation,
> {
    match doc.get(name) {
        None => Ok(None),
        Some(JsonValue::Null) => Ok(None),
        Some(JsonValue::Object(fields)) => Ok(Some(fields)),
        Some(_) => Err(refusal(name, Fault::Mistyped)),
    }
}

/// Reads the fields of an object that may be absent.
pub fn read_optional_object(doc: &Json, name: &str) -> (r: Result<
    Option<Vec<(String, Json)>>,
    SchemaViolation,
>)
    ensures
        match r {
            Ok(fields) => spec_optional_object(doc.value(), name@) == Ok::<
                Option<Seq<(Seq<char>, JsonValue)>>,
                Violation,
            >(optional_entries_view(fields)),
            Err(e) => spec_optional_object(doc.value(), name@) == Err::<
                Option<Seq<(Seq<char>, JsonValue)>>,
                Violation,
            >(e.deep_view()),
        },
{
    match doc.get(name) {
        None => Ok(None),
        Some(Json::Null) => Ok(None),
        Some(Json::Object(fields)) => {
            proof {
                lemma_object_view(*fields);
            }
            Ok(Some(copy_fields(fields)))
        },
        Some(_) => Err(SchemaViolation::new(name, Fault::Mistyped)),
    }
}

/// Adds a field that holds an object, where there are fields for one.
pub fn put_optional_object(
    fields: &mut Vec<(String, Json)>,
    name: &str,
    object: &Option<Vec<(String, Json)>>,
)
    ensures
        entries_view(final(fields)@) == with_optional(
            entries_view(old(fields)@),
            name@,
            optional_object_value(optional_entries_view(*object)),
        ),
{
    match object {
        Some(inner) => {
            let copy = copy_fields(inner);
            proof {
                lemma_object_view(copy);
            }
            put(fields, name, Json::Object(copy));
        },
        None => {},
    }
}

} // verus!
