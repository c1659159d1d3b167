//! Values: the principles that guide a persona, and the tensions among them.

use vstd::prelude::*;
use crate::id::Id;
use crate::json::{entries_view, lemma_field_push, lemma_object_view, Json, JsonValue};
use crate::scalar::{Scalar, HALF_BITS, ONE_BITS, ZERO_BITS};
use crate::violation::{Fault, SchemaViolation, Violation};
use crate::wire::{
    all_sound, lemma_records_round_trip, optional_records_value, put_id, put_optional_records,
    put_real, put_text, read_optional_id, read_optional_records, read_ranged, read_text, reader,
    refusal, spec_number, spec_optional_id, spec_optional_records, spec_ranged, spec_text, with,
    with_id, with_optional, Record,
};

verus! {

/// A value that stands against another, and how the tension is resolved.
#[derive(Debug, Clone, PartialEq)]
pub struct ValueConflict {
    pub id: Option<Id>,
    pub value: String,
    pub resolution: String,
}

/// A `ValueConflict` as a mathematical value.
pub struct ValueConflictView {
    pub id: Option<Id>,
    pub value: Seq<char>,
    pub resolution: Seq<char>,
}

impl DeepView for ValueConflict {
    type V = ValueConflictView;

    open spec fn deep_view(&self) -> ValueConflictView {
        ValueConflictView { id: self.id, value: self.value@, resolution: self.resolution@ }
    }
}

impl Record for ValueConflict {
    open spec fn written(record: ValueConflictView) -> JsonValue {
        JsonValue::Object(
            with(
                with(
                    with_id(Seq::empty(), "id"@, record.id),
                    "value"@,
                    JsonValue::Text(record.value),
                ),
                "resolution"@,
                JsonValue::Text(record.resolution),
            ),
        )
    }

    open spec fn read(doc: JsonValue) -> Result<ValueConflictView, Violation> {
        match spec_optional_id(doc, "id"@) {
            Err(e) => Err(e),
            Ok(id) => match spec_text(doc, "value"@) {
                Err(e) => Err(e),
                Ok(value) => match spec_text(doc, "resolution"@) {
                    Err(e) => Err(e),
                    Ok(resolution) => Ok(ValueConflictView { id, value, resolution }),
                },
            },
        }
    }

    open spec fn sound(record: ValueConflictView) -> bool {
        record.id matches Some(id) ==> id.canonical()
    }

    proof fn round_trip(record: ValueConflictView) {
        broadcast use lemma_field_push;

        reveal_strlit("id");
        reveal_strlit("value");
        reveal_strlit("resolution");
        assert("id"@.len() == 2 && "value"@.len() == 5 && "resolution"@.len() == 10);
    }

    fn encode(&self) -> (r: Json) {
        let mut fields: Vec<(String, Json)> = Vec::new();
        assert(entries_view(fields@) =~= Seq::empty());
        put_id(&mut fields, "id", &self.id);
        put_text(&mut fields, "value", &self.value);
        put_text(&mut fields, "resolution", &self.resolution);
        proof {
            lemma_object_view(fields);
        }
        Json::Object(fields)
    }

    fn decode(doc: &Json) -> (r: Result<ValueConflict, SchemaViolation>) {
        let id = read_optional_id(doc, "id")?;
        let value = read_text(doc, "value")?;
        let resolution = read_text(doc, "resolution")?;
        Ok(ValueConflict { id, value, resolution })
    }
}

/// A principle that guides a persona: how much it weighs, and how it shows.
#[derive(Debug, Clone, PartialEq)]
pub struct Value {
    pub id: Option<Id>,
    pub name: String,
    /// The weight of the value, in `[0, 1]` on the wire.
    pub importance: Scalar,
    pub expression: String,
    pub conflicts: Option<Vec<ValueConflict>>,
}

/// A `Value` as a mathematical value.
pub struct ValueView {
    pub id: Option<Id>,
    pub name: Seq<char>,
    pub importance: Scalar,
    pub expression: Seq<char>,
    pub conflicts: Option<Seq<ValueConflictView>>,
}

impl DeepView for Value {
    type V = ValueView;

    open spec fn deep_view(&self) -> ValueView {
        ValueView {
            id: self.id,
            name: self.name@,
            importance: self.importance,
            expression: self.expression@,
            conflicts: self.conflicts.deep_view(),
        }
    }
}

impl Record for Value {
    open spec fn written(record: ValueView) -> JsonValue {
        JsonValue::Object(
            with_optional(
                with(
                    with(
                        with(
                            with_id(Seq::empty(), "id"@, record.id),
                            "name"@,
                            JsonValue::Text(record.name),
                        ),
                        "importance"@,
                        JsonValue::Real(record.importance),
                    ),
                    "expression"@,
                    JsonValue::Text(record.expression),
                ),
                "conflicts"@,
                optional_records_value::<ValueConflict>(record.conflicts),
            ),
        )
    }

    open spec fn read(doc: JsonValue) -> Result<ValueView, Violation> {
        match spec_optional_id(doc, "id"@) {
            Err(e) => Err(e),
            Ok(id) => match spec_text(doc, "name"@) {
                Err(e) => Err(e),
                Ok(name) => match spec_ranged(
                    doc,
                    "importance"@,
                    Scalar { bits: ZERO_BITS },
                    Scalar { bits: ONE_BITS },
                ) {
                    Err(e) => Err(e),
                    Ok(importance) => match spec_text(doc, "expression"@) {
                        Err(e) => Err(e),
                        Ok(expression) => match spec_optional_records(
                            doc,
                            "conflicts"@,
                            reader::<ValueConflict>(),
                        ) {
                            Err(e) => Err(e),
                            Ok(conflicts) => Ok(
                                ValueView { id, name, importance, expression, conflicts },
                            ),
                        },
                    },
                },
            },
        }
    }

    open spec fn sound(record: ValueView) -> bool {
        &&& record.id matches Some(id) ==> id.canonical()
        &&& record.importance.in_unit_interval()
        &&& record.conflicts matches Some(conflicts) ==> all_sound::<ValueConflict>(conflicts)
    }

    proof fn round_trip(record: ValueView) {
        broadcast use lemma_field_push;

        reveal_strlit("id");
        reveal_strlit("name");
        reveal_strlit("importance");
        reveal_strlit("expression");
        reveal_strlit("conflicts");
        assert("id"@.len() == 2 && "name"@.len() == 4 && "importance"@.len() == 10
            && "expression"@.len() == 10 && "conflicts"@.len() == 9);
        assert("importance"@[0] == 'i' && "expression"@[0] == 'e');
        if let Some(conflicts) = record.conflicts {
            lemma_records_round_trip::<ValueConflict>(conflicts);
        }
    }

    fn encode(&self) -> (r: Json) {
        let mut fields: Vec<(String, Json)> = Vec::new();
        assert(entries_view(fields@) =~= Seq::empty());
        put_id(&mut fields, "id", &self.id);
        put_text(&mut fields, "name", &self.name);
        put_real(&mut fields, "importance", self.importance);
        put_text(&mut fields, "expression", &self.expression);
        put_optional_records(&mut fields, "conflicts", &self.conflicts);
        proof {
            lemma_object_view(fields);
        }
        Json::Object(fields)
    }

    fn decode(doc: &Json) -> (r: Result<Value, SchemaViolation>) {
        let id = read_optional_id(doc, "id")?;
        let name = read_text(doc, "name")?;
        let importance = read_ranged(doc, "importance", Scalar::zero(), Scalar::one())?;
        let expression = read_text(doc, "expression")?;
        let conflicts = read_optional_records::<ValueConflict>(doc, "conflicts")?;
        Ok(Value { id, name, importance, expression, conflicts })
    }
}

/// A value whose importance lies in `[0, 1]`, written and then read, is the
/// value that it was.
pub proof fn lemma_value_round_trip(value: ValueView)
    requires
        Value::sound(value),
    ensures
        Value::read(Value::written(value)) == Ok::<ValueView, Violation>(value),
{
    Value::round_trip(value);
}

/// A document whose `importance` is a number outside `[0, 1]` is read as no
/// value: the number is refused, never moved into the interval.
pub proof fn lemma_value_importance_refused(doc: JsonValue)
    requires
        doc.get("importance"@) matches Some(number) && spec_number(number) matches Some(x)
            && !x.in_unit_interval(),
    ensures
        Value::read(doc) is Err,
        spec_optional_id(doc, "id"@) is Ok && spec_text(doc, "name"@) is Ok ==> Value::read(doc)
            == Err::<ValueView, Violation>(
            refusal(
                "importance"@,
                Fault::OutOfRange {
                    lowest: Scalar { bits: ZERO_BITS },
                    highest: Scalar { bits: ONE_BITS },
                },
            ),
        ),
{
}

impl Default for Value {
    /// The value without a name, of middling importance.
    fn default() -> (r: Value)
        ensures
            r.deep_view() == (ValueView {
                id: None,
                name: Seq::empty(),
                importance: Scalar { bits: HALF_BITS },
                expression: Seq::empty(),
                conflicts: None,
            }),
    {
        Value {
            id: None,
            name: String::new(),
            importance: Scalar::half(),
            expression: String::new(),
            conflicts: None,
        }
    }
}

impl Value {
    pub fn builder() -> (r: ValueBuilder)
        ensures
            r.name is None,
            r.importance is None,
            r.expression is None,
            r.conflicts is None,
    {
        ValueBuilder::new()
    }
}

/// Collects the fields of a `Value`.
pub struct ValueBuilder {
    pub name: Option<String>,
    pub importance: Option<Scalar>,
    pub expression: Option<String>,
    pub conflicts: Option<Vec<ValueConflict>>,
}

impl Default for ValueBuilder {
    fn default() -> (r: ValueBuilder)
        ensures
            r.name is None,
            r.importance is None,
            r.expression is None,
            r.conflicts is None,
    {
        ValueBuilder { name: None, importance: None, expression: None, conflicts: None }
    }
}

impl ValueBuilder {
    pub fn new() -> (r: ValueBuilder)
        ensures
            r.name is None,
            r.importance is None,
            r.expression is None,
            r.conflicts is None,
    {
        ValueBuilder { name: None, importance: None, expression: None, conflicts: None }
    }

    pub fn name(self, name: &str) -> (r: ValueBuilder)
        ensures
            r.name.deep_view() == Some(name@),
            r.importance == self.importance,
            r.expression == self.expression,
            r.conflicts == self.conflicts,
    {
        let mut next = self;
        next.name = Some(name.to_owned());
        next
    }

    /// Sets the importance, moved into `[0, 1]` where it lies outside: the
    /// builder clamps what the wire would refuse.
    pub fn importance(self, importance: Scalar) -> (r: ValueBuilder)
        ensures
            r.importance == Some(
                importance.clamped(Scalar { bits: ZERO_BITS }, Scalar { bits: ONE_BITS }),
            ),
            r.name == self.name,
            r.expression == self.expression,
            r.conflicts == self.conflicts,
    {
        let mut next = self;
        next.importance = Some(importance.clamp(Scalar::zero(), Scalar::one()));
        next
    }

    pub fn expression(self, expression: &str) -> (r: ValueBuilder)
        ensures
            r.expression.deep_view() == Some(expression@),
            r.name == self.name,
            r.importance == self.importance,
            r.conflicts == self.conflicts,
    {
        let mut next = self;
        next.expression = Some(expression.to_owned());
        next
    }

    pub fn conflicts(self, conflicts: Vec<ValueConflict>) -> (r: ValueBuilder)
        ensures
            r.conflicts == Some(conflicts),
            r.name == self.name,
            r.importance == self.importance,
            r.expression == self.expression,
    {
        let mut next = self;
        next.conflicts = Some(conflicts);
        next
    }

    /// Makes the value, or says which required field was never set: the
    /// name, the importance and the expression are required, in this order.
    pub fn build(self) -> (r: Result<Value, &'static str>)
        ensures
            match r {
                Ok(value) => {
                    &&& self.name == Some(value.name)
                    &&& self.importance == Some(value.importance)
                    &&& self.expression == Some(value.expression)
                    &&& value.id is None
                    &&& value.conflicts == self.conflicts
                },
                Err(message) => {
                    ||| self.name is None && message@ == "name is required"@
                    ||| self.name is Some && self.importance is None && message@
                        == "importance is required"@
                    ||| self.name is Some && self.importance is Some && self.expression is None
                        && message@ == "expression is required"@
                },
            },
    {
        let name = match self.name {
            Some(name) => name,
            None => { return Err("name is required"); },
        };
        let importance = match self.importance {
            Some(importance) => importance,
            None => { return Err("importance is required"); },
        };
        let expression = match self.expression {
            Some(expression) => expression,
            None => { return Err("expression is required"); },
        };
        Ok(Value { id: None, name, importance, expression, conflicts: self.conflicts })
    }
}

} // verus!
