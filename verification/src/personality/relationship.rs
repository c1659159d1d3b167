//! Relationship: how a persona stands to others, and the limits it keeps.

use vstd::prelude::*;
use crate::id::Id;
use crate::json::{entries_view, lemma_field_push, lemma_object_view, Json, JsonValue};
use crate::violation::{Fault, SchemaViolation, Violation};
use crate::wire::{
    all_sound, lemma_records_round_trip, put_id, put_record, put_records, put_text,
    read_optional_id, read_record, read_records, read_text, reader, records_value, refusal,
    spec_optional_id, spec_record, spec_records, spec_text, text_is, with, with_id, writer,
    Record,
};

verus! {

/// How firmly a boundary is kept.
#[derive(Debug, Clone, Copy, PartialEq, Eq, Structural)]
pub enum EnforcementType {
    Strict,
    Flexible,
    Situational,
}

impl DeepView for EnforcementType {
    type V = EnforcementType;

    open spec fn deep_view(&self) -> EnforcementType {
        *self
    }
}

impl Default for EnforcementType {
    fn default() -> (r: EnforcementType)
        ensures
            r == EnforcementType::Flexible,
    {
        EnforcementType::Flexible
    }
}

impl EnforcementType {
    /// The lower-case tag that stands for the variant on the wire.
    pub open spec fn tag(self) -> Seq<char> {
        match self {
            EnforcementType::Strict => "strict"@,
            EnforcementType::Flexible => "flexible"@,
            EnforcementType::Situational => "situational"@,
        }
    }

    /// The variant that a tag stands for.
    pub open spec fn of_tag(tag: Seq<char>) -> Option<EnforcementType> {
        if tag == "strict"@ {
            Some(EnforcementType::Strict)
        } else if tag == "flexible"@ {
            Some(EnforcementType::Flexible)
        } else if tag == "situational"@ {
            Some(EnforcementType::Situational)
        } else {
            None
        }
    }
}

impl Record for EnforcementType {
    open spec fn written(record: EnforcementType) -> JsonValue {
        JsonValue::Text(record.tag())
    }

    open spec fn read(doc: JsonValue) -> Result<EnforcementType, Violation> {
        match doc {
            JsonValue::Text(tag) => match EnforcementType::of_tag(tag) {
                Some(enforcement) => Ok(enforcement),
                None => Err(refusal("enforcement"@, Fault::UnknownTag)),
            },
            _ => Err(refusal("enforcement"@, Fault::Mistyped)),
        }
    }

    open spec fn sound(record: EnforcementType) -> bool {
        true
    }

    proof fn round_trip(record: EnforcementType) {
        reveal_strlit("strict");
        reveal_strlit("flexible");
        reveal_strlit("situational");
        assert("strict"@.len() == 6 && "flexible"@.len() == 8 && "situational"@.len() == 11);
    }

    fn encode(&self) -> (r: Json) {
        match self {
            EnforcementType::Strict => Json::Text("strict".to_owned()),
            EnforcementType::Flexible => Json::Text("flexible".to_owned()),
            EnforcementType::Situational => Json::Text("situational".to_owned()),
        }
    }

    fn decode(doc: &Json) -> (r: Result<EnforcementType, SchemaViolation>) {
        match doc {
            Json::Text(tag) => {
                if text_is(tag, "strict") {
                    Ok(EnforcementType::Strict)
                } else if text_is(tag, "flexible") {
                    Ok(EnforcementType::Flexible)
                } else if text_is(tag, "situational") {
                    Ok(EnforcementType::Situational)
                } else {
                    Err(SchemaViolation::new("enforcement", Fault::UnknownTag))
                }
            },
            _ => Err(SchemaViolation::new("enforcement", Fault::Mistyped)),
        }
    }
}

/// A limit that a persona keeps.
#[derive(Debug, Clone, PartialEq)]
pub struct Boundary {
    pub id: Option<Id>,
    /// What the boundary is about; `type` on the wire.
    pub boundary_type: String,
    pub description: String,
    pub enforcement: EnforcementType,
}

/// A `Boundary` as a mathematical value.
pub struct BoundaryView {
    pub id: Option<Id>,
    pub boundary_type: Seq<char>,
    pub description: Seq<char>,
    pub enforcement: EnforcementType,
}

impl DeepView for Boundary {
    type V = BoundaryView;

    open spec fn deep_view(&self) -> BoundaryView {
        BoundaryView {
            id: self.id,
            boundary_type: self.boundary_type@,
            description: self.description@,
            enforcement: self.enforcement,
        }
    }
}

impl Record for Boundary {
    open spec fn written(record: BoundaryView) -> JsonValue {
        JsonValue::Object(
            with(
                with(
                    with(
                        with_id(Seq::empty(), "id"@, record.id),
                        "type"@,
                        JsonValue::Text(record.boundary_type),
                    ),
                    "description"@,
                    JsonValue::Text(record.description),
                ),
                "enforcement"@,
                EnforcementType::written(record.enforcement),
            ),
        )
    }

    open spec fn read(doc: JsonValue) -> Result<BoundaryView, Violation> {
        match spec_optional_id(doc, "id"@) {
            Err(e) => Err(e),
            Ok(id) => match spec_text(doc, "type"@) {
                Err(e) => Err(e),
                Ok(boundary_type) => match spec_text(doc, "description"@) {
                    Err(e) => Err(e),
                    Ok(description) => match spec_record::<EnforcementType>(doc, "enforcement"@) {
                        Err(e) => Err(e),
                        Ok(enforcement) => Ok(
                            BoundaryView { id, boundary_type, description, enforcement },
                        ),
                    },
                },
            },
        }
    }

    open spec fn sound(record: BoundaryView) -> bool {
        record.id matches Some(id) ==> id.canonical()
    }

    proof fn round_trip(record: BoundaryView) {
        broadcast use lemma_field_push;

        reveal_strlit("id");
        reveal_strlit("type");
        reveal_strlit("description");
        reveal_strlit("enforcement");
        assert("id"@.len() == 2 && "type"@.len() == 4 && "description"@.len() == 11
            && "enforcement"@.len() == 11);
        assert("description"@[0] == 'd' && "enforcement"@[0] == 'e');
        EnforcementType::round_trip(record.enforcement);
    }

    fn encode(&self) -> (r: Json) {
        let mut fields: Vec<(String, Json)> = Vec::new();
        assert(entries_view(fields@) =~= Seq::empty());
        put_id(&mut fields, "id", &self.id);
        put_text(&mut fields, "type", &self.boundary_type);
        put_text(&mut fields, "description", &self.description);
        put_record(&mut fields, "enforcement", &self.enforcement);
        proof {
            lemma_object_view(fields);
        }
        Json::Object(fields)
    }

    fn decode(doc: &Json) -> (r: Result<Boundary, SchemaViolation>) {
        let id = read_optional_id(doc, "id")?;
        let boundary_type = read_text(doc, "type")?;
        let description = read_text(doc, "description")?;
        let enforcement = read_record::<EnforcementType>(doc, "enforcement")?;
        Ok(Boundary { id, boundary_type, description, enforcement })
    }
}

impl Boundary {
    /// The boundary that a persona keeps where none was chosen.
    pub open spec fn baseline() -> BoundaryView {
        BoundaryView {
            id: None,
            boundary_type: "core values"@,
            description: "becomes more formal and distant if questioned on core values"@,
            enforcement: EnforcementType::Flexible,
        }
    }
}

impl Default for Boundary {
    fn default() -> (r: Boundary)
        ensures
            r.deep_view() == Boundary::baseline(),
    {
        Boundary {
            id: None,
            boundary_type: "core values".to_owned(),
            description: "becomes more formal and distant if questioned on core values".to_owned(),
            enforcement: EnforcementType::Flexible,
        }
    }
}

/// The stance of a persona towards others.
#[derive(Debug, Clone, PartialEq)]
pub struct Relationship {
    pub id: Option<Id>,
    pub style: String,
    pub boundaries: Vec<Boundary>,
}

/// A `Relationship` as a mathematical value.
pub struct RelationshipView {
    pub id: Option<Id>,
    pub style: Seq<char>,
    pub boundaries: Seq<BoundaryView>,
}

impl DeepView for Relationship {
    type V = RelationshipView;

    open spec fn deep_view(&self) -> RelationshipView {
        RelationshipView {
            id: self.id,
            style: self.style@,
            boundaries: self.boundaries.deep_view(),
        }
    }
}

impl Record for Relationship {
    open spec fn written(record: RelationshipView) -> JsonValue {
        JsonValue::Object(
            with(
                with(
                    with_id(Seq::empty(), "id"@, record.id),
                    "style"@,
                    JsonValue::Text(record.style),
                ),
                "boundaries"@,
                records_value(record.boundaries, writer::<Boundary>()),
            ),
        )
    }

    open spec fn read(doc: JsonValue) -> Result<RelationshipView, Violation> {
        match spec_optional_id(doc, "id"@) {
            Err(e) => Err(e),
            Ok(id) => match spec_text(doc, "style"@) {
                Err(e) => Err(e),
                Ok(style) => match spec_records(doc, "boundaries"@, reader::<Boundary>()) {
                    Err(e) => Err(e),
                    Ok(boundaries) => Ok(RelationshipView { id, style, boundaries }),
                },
            },
        }
    }

    open spec fn sound(record: RelationshipView) -> bool {
        &&& record.id matches Some(id) ==> id.canonical()
        &&& all_sound::<Boundary>(record.boundaries)
    }

    proof fn round_trip(record: RelationshipView) {
        broadcast use lemma_field_push;

        reveal_strlit("id");
        reveal_strlit("style");
        reveal_strlit("boundaries");
        assert("id"@.len() == 2 && "style"@.len() == 5 && "boundaries"@.len() == 10);
        lemma_records_round_trip::<Boundary>(record.boundaries);
    }

    fn encode(&self) -> (r: Json) {
        let mut fields: Vec<(String, Json)> = Vec::new();
        assert(entries_view(fields@) =~= Seq::empty());
        put_id(&mut fields, "id", &self.id);
        put_text(&mut fields, "style", &self.style);
        put_records(&mut fields, "boundaries", &self.boundaries);
        proof {
            lemma_object_view(fields);
        }
        Json::Object(fields)
    }

    fn decode(doc: &Json) -> (r: Result<Relationship, SchemaViolation>) {
        let id = read_optional_id(doc, "id")?;
        let style = read_text(doc, "style")?;
        let boundaries = read_records::<Boundary>(doc, "boundaries")?;
        Ok(Relationship { id, style, boundaries })
    }
}

impl Relationship {
    /// The stance that a persona has where none was chosen.
    pub open spec fn baseline() -> RelationshipView {
        RelationshipView {
            id: None,
            style: "mentor-like guidance through respect and shared purpose"@,
            boundaries: seq![Boundary::baseline()],
        }
    }
}

impl Default for Relationship {
    fn default() -> (r: Relationship)
        ensures
            r.deep_view() == Relationship::baseline(),
    {
        let mut boundaries: Vec<Boundary> = Vec::new();
        boundaries.push(Boundary::default());
        assert(boundaries.deep_view() =~= Relationship::baseline().boundaries);
        Relationship {
            id: None,
            style: "mentor-like guidance through respect and shared purpose".to_owned(),
            boundaries,
        }
    }
}

} // verus!
