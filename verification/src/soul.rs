//! Soul: the whole of a persona, and the unit in which the store keeps one.

use vstd::prelude::*;
use crate::entity::{Entity, EntityView};
use crate::id::Id;
use crate::json::{entries_view, lemma_field_push, lemma_object_view, Json, JsonValue};
use crate::personality::relationship::{Relationship, RelationshipView};
use crate::personality::value::{Value, ValueView};
use crate::personality::voice::{Voice, VoiceView};
use crate::personality::{Personality, PersonalityView};
use crate::clock::today;
use crate::transport::{Method, Outcome, Request};
use crate::violation::{SchemaViolation, Violation};
use crate::wire::{
    all_sound, lemma_records_round_trip, optional_entries_view, optional_object_value,
    optional_record_value, optional_records_value, put_id, put_optional_object,
    put_optional_record, put_optional_records, put_record, put_text, read_optional_id,
    read_optional_object, read_optional_record, read_optional_records, read_record, read_text,
    id_value, reader, spec_optional_id, spec_optional_object, spec_optional_record,
    spec_optional_records, spec_record, spec_text, with, with_id, with_optional, Record,
};
use crate::{resource_path, spec_collection_path, spec_resource_path, Soulgraph};

verus! {

/// What a caller of the store is told where no soul came back, or where the
/// store did not confirm. It says no more: a request that was not answered,
/// a status other than success and a body that is no soul all end in this
/// one value.
#[derive(Debug, Clone, Copy, PartialEq, Eq, Structural)]
pub struct CorruptSoul;

impl CorruptSoul {
    pub fn to_string(&self) -> (r: String)
        ensures
            r@ == "personality is corrupted"@,
    {
        "personality is corrupted".to_owned()
    }
}

/// The whole of a persona: what it is embodied as and who it is, with the
/// version of the format it is written in.
#[derive(Debug, Clone, PartialEq)]
pub struct Soul {
    pub version: String,
    pub id: Option<Id>,
    pub entity: Entity,
    pub personality: Personality,
    pub values: Option<Vec<Value>>,
    pub voice: Option<Voice>,
    pub relationship: Option<Relationship>,
    /// Free fields: names with any document under them.
    pub metadata: Option<Vec<(String, Json)>>,
}

/// A `Soul` as a mathematical value.
pub struct SoulView {
    pub version: Seq<char>,
    pub id: Option<Id>,
    pub entity: EntityView,
    pub personality: PersonalityView,
    pub values: Option<Seq<ValueView>>,
    pub voice: Option<VoiceView>,
    pub relationship: Option<RelationshipView>,
    pub metadata: Option<Seq<(Seq<char>, JsonValue)>>,
}

impl DeepView for Soul {
    type V = SoulView;

    open spec fn deep_view(&self) -> SoulView {
        SoulView {
            version: self.version@,
            id: self.id,
            entity: self.entity.deep_view(),
            personality: self.personality.deep_view(),
            values: self.values.deep_view(),
            voice: self.voice.deep_view(),
            relationship: self.relationship.deep_view(),
            metadata: optional_entries_view(self.metadata),
        }
    }
}

/// The object that a soul is written as, given what each part is written
/// as: the fields in their order, an absent part leaving no field.
pub open spec fn soul_layout(
    version: JsonValue,
    id: Option<Id>,
    entity: JsonValue,
    personality: JsonValue,
    values: Option<JsonValue>,
    voice: Option<JsonValue>,
    relationship: Option<JsonValue>,
    metadata: Option<JsonValue>,
) -> JsonValue {
    JsonValue::Object(
        with_optional(
            with_optional(
                with_optional(
                    with_optional(
                        with(
                            with(
                                with_id(with(Seq::empty(), "version"@, version), "id"@, id),
                                "entity"@,
                                entity,
                            ),
                            "personality"@,
                            personality,
                        ),
                        "values"@,
                        values,
                    ),
                    "voice"@,
                    voice,
                ),
                "relationship"@,
                relationship,
            ),
            "metadata"@,
            metadata,
        ),
    )
}

/// Each part of a soul is found under its name in the object that the soul
/// is written as.
pub proof fn lemma_soul_layout(
    version: JsonValue,
    id: Option<Id>,
    entity: JsonValue,
    personality: JsonValue,
    values: Option<JsonValue>,
    voice: Option<JsonValue>,
    relationship: Option<JsonValue>,
    metadata: Option<JsonValue>,
)
    ensures
        ({
            let doc = soul_layout(
                version,
                id,
                entity,
                personality,
                values,
                voice,
                relationship,
                metadata,
            );
            &&& doc.get("version"@) == Some(version)
            &&& doc.get("id"@) == match id {
                Some(id) => Some(id_value(id)),
                None => None,
            }
            &&& doc.get("entity"@) == Some(entity)
            &&& doc.get("personality"@) == Some(personality)
            &&& doc.get("values"@) == values
            &&& doc.get("voice"@) == voice
            &&& doc.get("relationship"@) == relationship
            &&& doc.get("metadata"@) == metadata
        }),
{
    broadcast use lemma_field_push;

    reveal_strlit("version");
    reveal_strlit("id");
    reveal_strlit("entity");
    reveal_strlit("personality");
    reveal_strlit("values");
    reveal_strlit("voice");
    reveal_strlit("relationship");
    reveal_strlit("metadata");
    assert("version"@.len() == 7 && "id"@.len() == 2 && "entity"@.len() == 6
        && "personality"@.len() == 11 && "values"@.len() == 6 && "voice"@.len() == 5
        && "relationship"@.len() == 12 && "metadata"@.len() == 8);
    assert("entity"@[0] == 'e' && "values"@[0] == 'v');
}

impl Record for Soul {
    open spec fn written(record: SoulView) -> JsonValue {
        soul_layout(
            JsonValue::Text(record.version),
            record.id,
            Entity::written(record.entity),
            Personality::written(record.personality),
            optional_records_value::<Value>(record.values),
            optional_record_value::<Voice>(record.voice),
            optional_record_value::<Relationship>(record.relationship),
            optional_object_value(record.metadata),
        )
    }

    open spec fn read(doc: JsonValue) -> Result<SoulView, Violation> {
        match spec_text(doc, "version"@) {
            Err(e) => Err(e),
            Ok(version) => match spec_optional_id(doc, "id"@) {
                Err(e) => Err(e),
                Ok(id) => match spec_record::<Entity>(doc, "entity"@) {
                    Err(e) => Err(e),
                    Ok(entity) => match spec_record::<Personality>(doc, "personality"@) {
                        Err(e) => Err(e),
                        Ok(personality) => match spec_optional_records(
                            doc,
                            "values"@,
                            reader::<Value>(),
                        ) {
                            Err(e) => Err(e),
                            Ok(values) => match spec_optional_record::<Voice>(doc, "voice"@) {
                                Err(e) => Err(e),
                                Ok(voice) => match spec_optional_record::<Relationship>(
                                    doc,
                                    "relationship"@,
                                ) {
                                    Err(e) => Err(e),
                                    Ok(relationship) => match spec_optional_object(
                                        doc,
                                        "metadata"@,
                                    ) {
                                        Err(e) => Err(e),
                                        Ok(metadata) => Ok(
                                            SoulView {
                                                version,
                                                id,
                                                entity,
                                                personality,
                                                values,
                                                voice,
                                                relationship,
                                                metadata,
                                            },
                                        ),
                                    },
                                },
                            },
                        },
                    },
                },
            },
        }
    }

    open spec fn sound(record: SoulView) -> bool {
        &&& record.id matches Some(id) ==> id.canonical()
        &&& Entity::sound(record.entity)
        &&& Personality::sound(record.personality)
        &&& record.values matches Some(values) ==> all_sound::<Value>(values)
        &&& record.voice matches Some(voice) ==> Voice::sound(voice)
        &&& record.relationship matches Some(relationship) ==> Relationship::sound(relationship)
    }

    proof fn round_trip(record: SoulView) {
        lemma_soul_layout(
            JsonValue::Text(record.version),
            record.id,
            Entity::written(record.entity),
            Personality::written(record.personality),
            optional_records_value::<Value>(record.values),
            optional_record_value::<Voice>(record.voice),
            optional_record_value::<Relationship>(record.relationship),
            optional_object_value(record.metadata),
        );
        Entity::round_trip(record.entity);
        Personality::round_trip(record.personality);
        if let Some(values) = record.values {
            lemma_records_round_trip::<Value>(values);
        }
        if let Some(voice) = record.voice {
            Voice::round_trip(voice);
        }
        if let Some(relationship) = record.relationship {
            Relationship::round_trip(relationship);
        }
    }

    fn encode(&self) -> (r: Json) {
        let mut fields: Vec<(String, Json)> = Vec::new();
        assert(entries_view(fields@) =~= Seq::empty());
        put_text(&mut fields, "version", &self.version);
        put_id(&mut fields, "id", &self.id);
        put_record(&mut fields, "entity", &self.entity);
        put_record(&mut fields, "personality", &self.personality);
        put_optional_records(&mut fields, "values", &self.values);
        put_optional_record(&mut fields, "voice", &self.voice);
        put_optional_record(&mut fields, "relationship", &self.relationship);
        put_optional_object(&mut fields, "metadata", &self.metadata);
        proof {
            lemma_object_view(fields);
        }
        Json::Object(fields)
    }

    fn decode(doc: &Json) -> (r: Result<Soul, SchemaViolation>) {
        let version = read_text(doc, "version")?;
        let id = read_optional_id(doc, "id")?;
        let entity = read_record::<Entity>(doc, "entity")?;
        let personality = read_record::<Personality>(doc, "personality")?;
        let values = read_optional_records::<Value>(doc, "values")?;
        let voice = read_optional_record::<Voice>(doc, "voice")?;
        let relationship = read_optional_record::<Relationship>(doc, "relationship")?;
        let metadata = read_optional_object(doc, "metadata")?;
        Ok(Soul { version, id, entity, personality, values, voice, relationship, metadata })
    }
}

impl Soul {
    /// The version of the format where none was chosen.
    pub open spec fn default_version() -> Seq<char> {
        "1.0"@
    }

    /// The soul that is made where nothing was chosen, its personality
    /// stamped with the two dates.
    pub open spec fn baseline(created: Seq<char>, modified: Seq<char>) -> SoulView {
        SoulView {
            version: Soul::default_version(),
            id: None,
            entity: Entity::baseline(),
            personality: Personality::baseline(created, modified),
            values: None,
            voice: None,
            relationship: None,
            metadata: None,
        }
    }

    /// A builder without anything set.
    pub fn builder() -> (r: SoulBuilder)
        ensures
            r.version is None,
            r.entity is None,
            r.personality is None,
    {
        SoulBuilder::new()
    }

    /// The request that asks the store for the soul under `id`.
    pub fn get(id: &str, soul: Soulgraph) -> (r: Request)
        ensures
            (r.method, r.url@, r.body) == soul.request(
                Method::Get,
                spec_resource_path(id@),
                None,
            ),
    {
        let path = resource_path(id);
        soul.get(path.as_str())
    }

    /// The request that asks the store to keep a new soul.
    pub fn create(personality: &Soul, soul: Soulgraph) -> (r: Request)
        ensures
            r.method == Method::Post,
            r.url@ == soul.base_url@ + spec_collection_path(),
            r.body matches Some(doc) && doc.value() == Soul::written(personality.deep_view()),
    {
        soul.post("/personality", personality.encode())
    }

    /// The request that asks the store to drop the soul under `id`.
    pub fn delete(id: &str, soul: Soulgraph) -> (r: Request)
        ensures
            (r.method, r.url@, r.body) == soul.request(
                Method::Delete,
                spec_resource_path(id@),
                None,
            ),
    {
        let path = resource_path(id);
        soul.delete(path.as_str())
    }

    /// What the answer to a get or a create amounts to: the soul that it
    /// delivers, or the one failure that stands for all that can go wrong.
    pub fn receive(outcome: &Outcome) -> (r: Result<Soul, CorruptSoul>)
        ensures
            match r {
                Ok(soul) => outcome.delivered::<Soul>() == Some(soul.deep_view()) && Soul::sound(
                    soul.deep_view(),
                ),
                Err(_) => outcome.delivered::<Soul>() is None,
            },
    {
        match outcome.deliver::<Soul>() {
            Some(soul) => Ok(soul),
            None => Err(CorruptSoul),
        }
    }

    /// What the answer to a delete amounts to: done where the store
    /// answered with a status of success, whatever the body; the failure otherwise.
    pub fn confirm(outcome: &Outcome) -> (r: Result<(), CorruptSoul>)
        ensures
            r is Ok <==> outcome.confirmed(),
    {
        if outcome.is_confirmed() {
            Ok(())
        } else {
            Err(CorruptSoul)
        }
    }
}

impl Default for Soul {
    /// The baseline soul, its personality stamped with today's date.
    fn default() -> (r: Soul)
        ensures
            exists|created: Seq<char>, modified: Seq<char>|
                r.deep_view() == #[trigger] Soul::baseline(created, modified),
    {
        let personality = Personality::default();
        let soul = Soul {
            version: "1.0".to_owned(),
            id: None,
            entity: Entity::default(),
            personality,
            values: None,
            voice: None,
            relationship: None,
            metadata: None,
        };
        proof {
            let (created, modified) = choose|created: Seq<char>, modified: Seq<char>|
                personality.deep_view() == #[trigger] Personality::baseline(created, modified);
            assert(soul.deep_view() == Soul::baseline(created, modified));
        }
        soul
    }
}

/// Collects the parts of a `Soul`.
pub struct SoulBuilder {
    pub version: Option<String>,
    pub entity: Option<Entity>,
    pub personality: Option<Personality>,
}

impl Default for SoulBuilder {
    fn default() -> (r: SoulBuilder)
        ensures
            r.version is None,
            r.entity is None,
            r.personality is None,
    {
        SoulBuilder::new()
    }
}

impl SoulBuilder {
    pub fn new() -> (r: SoulBuilder)
        ensures
            r.version is None,
            r.entity is None,
            r.personality is None,
    {
        SoulBuilder { version: None, entity: None, personality: None }
    }

    pub fn version(self, version: String) -> (r: SoulBuilder)
        ensures
            r == (SoulBuilder { version: Some(version), ..self }),
    {
        let mut next = self;
        next.version = Some(version);
        next
    }

    pub fn entity(self, entity: Entity) -> (r: SoulBuilder)
        ensures
            r == (SoulBuilder { entity: Some(entity), ..self }),
    {
        let mut next = self;
        next.entity = Some(entity);
        next
    }

    pub fn personality(self, personality: Personality) -> (r: SoulBuilder)
        ensures
            r == (SoulBuilder { personality: Some(personality), ..self }),
    {
        let mut next = self;
        next.personality = Some(personality);
        next
    }

    /// What building gives, with the two dates as the stamps of a
    /// personality that had to be made: each part that was set, and the
    /// baseline for each that was not.
    pub open spec fn built(self, created: Seq<char>, modified: Seq<char>) -> SoulView {
        SoulView {
            version: match self.version {
                Some(version) => version@,
                None => Soul::default_version(),
            },
            id: None,
            entity: match self.entity {
                Some(entity) => entity.deep_view(),
                None => Entity::baseline(),
            },
            personality: match self.personality {
                Some(personality) => personality.deep_view(),
                None => Personality::baseline(created, modified),
            },
            values: None,
            voice: None,
            relationship: None,
            metadata: None,
        }
    }

    /// Makes the soul. It cannot fail: what was not set is the baseline. A
    /// personality that has to be made is stamped with today's date.
    pub fn build(self) -> (r: Soul)
        ensures
            exists|created: Seq<char>, modified: Seq<char>|
                r.deep_view() == #[trigger] self.built(created, modified),
    {
        let SoulBuilder { version, entity, personality } = self;
        let version = match version {
            Some(version) => version,
            None => "1.0".to_owned(),
        };
        let entity = match entity {
            Some(entity) => entity,
            None => Entity::default(),
        };
        let personality = match personality {
            Some(personality) => personality,
            None => Personality::default(),
        };
        let soul = Soul {
            version,
            id: None,
            entity,
            personality,
            values: None,
            voice: None,
            relationship: None,
            metadata: None,
        };
        proof {
            if self.personality is None {
                let (created, modified) = choose|created: Seq<char>, modified: Seq<char>|
                    personality.deep_view() == #[trigger] Personality::baseline(created, modified);
                assert(soul.deep_view() == self.built(created, modified));
            } else {
                assert(soul.deep_view() == self.built(Seq::empty(), Seq::empty()));
            }
        }
        soul
    }
}

} // verus!
