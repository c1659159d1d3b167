//! Memories: what a persona remembers, and the fragments a memory is made
//! of.

use vstd::prelude::*;
use crate::clock::now_millis;
use crate::id::Id;
use crate::json::{entries_view, lemma_field_push, lemma_object_view, put, Json, JsonValue};
use crate::memories::fragment::{Fragment, FragmentView};
use crate::scalar::{Scalar, MINUS_ONE_BITS, ONE_BITS, ZERO_BITS};
use crate::transport::{Method, Outcome, Request};
use crate::violation::{Fault, SchemaViolation, Violation};
use crate::wire::{
    all_sound, id_value, lemma_records_round_trip, lemma_texts_round_trip, put_id, put_integer,
    put_record, put_records, put_text, put_texts, read_integer, read_optional_id, read_record,
    read_records, read_text, read_text_list, reader, records_value, refusal, spec_integer,
    spec_number, spec_optional_id, spec_ranged, spec_record, spec_records,
    spec_text, spec_text_list, texts_value, with, with_id, writer, Record,
};
use crate::{resource_path, spec_collection_path, spec_resource_path, Soulgraph};

pub mod fragment;
pub mod uuid_vec_format;
pub mod validate_importance_score;
pub mod validate_intensity;
pub mod validate_valence;

verus! {

/// What a caller of the store is told where no memory came back, or where
/// the store did not confirm. It says no more: a request that was not
/// answered, a status other than success and a body that is no memory all
/// end in this one value.
#[derive(Debug, Clone, Copy, PartialEq, Eq, Structural)]
pub struct CorruptMemory;

impl CorruptMemory {
    pub fn to_string(&self) -> (r: String)
        ensures
            r@ == "personality is corrupted"@,
    {
        "personality is corrupted".to_owned()
    }
}

/// How a memory felt.
#[derive(Debug, Clone, PartialEq)]
pub struct EmotionalSignature {
    pub id: Option<Id>,
    /// From unpleasant to pleasant, in `[-1, 1]` on the wire.
    pub valence: Scalar,
    /// How strongly, in `[0, 1]` on the wire.
    pub intensity: Scalar,
}

/// An `EmotionalSignature` as a mathematical value.
pub struct EmotionalSignatureView {
    pub id: Option<Id>,
    pub valence: Scalar,
    pub intensity: Scalar,
}

impl DeepView for EmotionalSignature {
    type V = EmotionalSignatureView;

    open spec fn deep_view(&self) -> EmotionalSignatureView {
        EmotionalSignatureView { id: self.id, valence: self.valence, intensity: self.intensity }
    }
}

impl Record for EmotionalSignature {
    open spec fn written(record: EmotionalSignatureView) -> JsonValue {
        JsonValue::Object(
            with(
                with(
                    with_id(Seq::empty(), "id"@, record.id),
                    "valence"@,
                    JsonValue::Real(record.valence),
                ),
                "intensity"@,
                JsonValue::Real(record.intensity),
            ),
        )
    }

    open spec fn read(doc: JsonValue) -> Result<EmotionalSignatureView, Violation> {
        match spec_optional_id(doc, "id"@) {
            Err(e) => Err(e),
            Ok(id) => match spec_ranged(
                doc,
                "valence"@,
                Scalar { bits: MINUS_ONE_BITS },
                Scalar { bits: ONE_BITS },
            ) {
                Err(e) => Err(e),
                Ok(valence) => match spec_ranged(
                    doc,
                    "intensity"@,
                    Scalar { bits: ZERO_BITS },
                    Scalar { bits: ONE_BITS },
                ) {
                    Err(e) => Err(e),
                    Ok(intensity) => Ok(EmotionalSignatureView { id, valence, intensity }),
                },
            },
        }
    }

    open spec fn sound(record: EmotionalSignatureView) -> bool {
        &&& record.id matches Some(id) ==> id.canonical()
        &&& record.valence.in_signed_unit_interval()
        &&& record.intensity.in_unit_interval()
    }

    proof fn round_trip(record: EmotionalSignatureView) {
        broadcast use lemma_field_push;

        reveal_strlit("id");
        reveal_strlit("valence");
        reveal_strlit("intensity");
        assert("id"@.len() == 2 && "valence"@.len() == 7 && "intensity"@.len() == 9);
    }

    fn encode(&self) -> (r: Json) {
        let mut fields: Vec<(String, Json)> = Vec::new();
        assert(entries_view(fields@) =~= Seq::empty());
        put_id(&mut fields, "id", &self.id);
        put(&mut fields, "valence", validate_valence::serialize(self.valence));
        put(&mut fields, "intensity", validate_intensity::serialize(self.intensity));
        proof {
            lemma_object_view(fields);
        }
        Json::Object(fields)
    }

    fn decode(doc: &Json) -> (r: Result<EmotionalSignature, SchemaViolation>) {
        let id = read_optional_id(doc, "id")?;
        let valence = match doc.get("valence") {
            Some(value) => validate_valence::deserialize(value)?,
            None => { return Err(SchemaViolation::new("valence", Fault::Missing)); },
        };
        let intensity = match doc.get("intensity") {
            Some(value) => validate_intensity::deserialize(value)?,
            None => { return Err(SchemaViolation::new("intensity", Fault::Missing)); },
        };
        Ok(EmotionalSignature { id, valence, intensity })
    }
}

/// A signature whose valence lies in `[-1, 1]` and whose intensity lies in
/// `[0, 1]`, written and then read, is the signature that it was.
pub proof fn lemma_signature_round_trip(signature: EmotionalSignatureView)
    requires
        EmotionalSignature::sound(signature),
    ensures
        EmotionalSignature::read(EmotionalSignature::written(signature)) == Ok::<
            EmotionalSignatureView,
            Violation,
        >(signature),
{
    EmotionalSignature::round_trip(signature);
}

/// A document in which the valence or the intensity is a number outside its
/// interval is read as no signature.
pub proof fn lemma_signature_refused(doc: JsonValue)
    requires
        ({
            ||| doc.get("valence"@) matches Some(number) && spec_number(number) matches Some(x)
                && !x.in_signed_unit_interval()
            ||| doc.get("intensity"@) matches Some(number) && spec_number(number) matches Some(x)
                && !x.in_unit_interval()
        }),
    ensures
        EmotionalSignature::read(doc) is Err,
{
}

impl EmotionalSignature {
    /// The signature of a memory that felt like nothing.
    pub open spec fn baseline() -> EmotionalSignatureView {
        EmotionalSignatureView {
            id: None,
            valence: Scalar { bits: ZERO_BITS },
            intensity: Scalar { bits: ZERO_BITS },
        }
    }
}

impl Default for EmotionalSignature {
    fn default() -> (r: EmotionalSignature)
        ensures
            r.deep_view() == EmotionalSignature::baseline(),
    {
        EmotionalSignature { id: None, valence: Scalar::zero(), intensity: Scalar::zero() }
    }
}

/// What a memory is about.
#[derive(Debug, Clone, PartialEq)]
pub struct MemoryMetadata {
    pub id: Option<Id>,
    pub topic_tags: Vec<String>,
    pub personality_influence: Vec<String>,
    pub memory_type: String,
}

/// A `MemoryMetadata` as a mathematical value.
pub struct MemoryMetadataView {
    pub id: Option<Id>,
    pub topic_tags: Seq<Seq<char>>,
    pub personality_influence: Seq<Seq<char>>,
    pub memory_type: Seq<char>,
}

impl DeepView for MemoryMetadata {
    type V = MemoryMetadataView;

    open spec fn deep_view(&self) -> MemoryMetadataView {
        MemoryMetadataView {
            id: self.id,
            topic_tags: self.topic_tags.deep_view(),
            personality_influence: self.personality_influence.deep_view(),
            memory_type: self.memory_type@,
        }
    }
}

impl Record for MemoryMetadata {
    open spec fn written(record: MemoryMetadataView) -> JsonValue {
        JsonValue::Object(
            with(
                with(
                    with(
                        with_id(Seq::empty(), "id"@, record.id),
                        "topic_tags"@,
                        texts_value(record.topic_tags),
                    ),
                    "personality_influence"@,
                    texts_value(record.personality_influence),
                ),
                "memory_type"@,
                JsonValue::Text(record.memory_type),
            ),
        )
    }

    open spec fn read(doc: JsonValue) -> Result<MemoryMetadataView, Violation> {
        match spec_optional_id(doc, "id"@) {
            Err(e) => Err(e),
            Ok(id) => match spec_text_list(doc, "topic_tags"@) {
                Err(e) => Err(e),
                Ok(topic_tags) => match spec_text_list(doc, "personality_influence"@) {
                    Err(e) => Err(e),
                    Ok(personality_influence) => match spec_text(doc, "memory_type"@) {
                        Err(e) => Err(e),
                        Ok(memory_type) => Ok(
                            MemoryMetadataView {
                                id,
                                topic_tags,
                                personality_influence,
                                memory_type,
                            },
                        ),
                    },
                },
            },
        }
    }

    open spec fn sound(record: MemoryMetadataView) -> bool {
        record.id matches Some(id) ==> id.canonical()
    }

    proof fn round_trip(record: MemoryMetadataView) {
        broadcast use lemma_field_push;

        reveal_strlit("id");
        reveal_strlit("topic_tags");
        reveal_strlit("personality_influence");
        reveal_strlit("memory_type");
        assert("id"@.len() == 2 && "topic_tags"@.len() == 10 && "personality_influence"@.len()
            == 21 && "memory_type"@.len() == 11);
        lemma_texts_round_trip(record.topic_tags);
        lemma_texts_round_trip(record.personality_influence);
    }

    fn encode(&self) -> (r: Json) {
        let mut fields: Vec<(String, Json)> = Vec::new();
        assert(entries_view(fields@) =~= Seq::empty());
        put_id(&mut fields, "id", &self.id);
        put_texts(&mut fields, "topic_tags", &self.topic_tags);
        put_texts(&mut fields, "personality_influence", &self.personality_influence);
        put_text(&mut fields, "memory_type", &self.memory_type);
        proof {
            lemma_object_view(fields);
        }
        Json::Object(fields)
    }

    fn decode(doc: &Json) -> (r: Result<MemoryMetadata, SchemaViolation>) {
        let id = read_optional_id(doc, "id")?;
        let topic_tags = read_text_list(doc, "topic_tags")?;
        let personality_influence = read_text_list(doc, "personality_influence")?;
        let memory_type = read_text(doc, "memory_type")?;
        Ok(MemoryMetadata { id, topic_tags, personality_influence, memory_type })
    }
}

impl MemoryMetadata {
    /// What a memory is about where nothing was said: no tags, and the type
    /// `default`.
    pub open spec fn baseline() -> MemoryMetadataView {
        MemoryMetadataView {
            id: None,
            topic_tags: Seq::empty(),
            personality_influence: Seq::empty(),
            memory_type: "default"@,
        }
    }
}

impl Default for MemoryMetadata {
    fn default() -> (r: MemoryMetadata)
        ensures
            r.deep_view() == MemoryMetadata::baseline(),
    {
        let topic_tags: Vec<String> = Vec::new();
        let personality_influence: Vec<String> = Vec::new();
        assert(topic_tags.deep_view() =~= Seq::empty());
        assert(personality_influence.deep_view() =~= Seq::empty());
        MemoryMetadata {
            id: None,
            topic_tags,
            personality_influence,
            memory_type: "default".to_owned(),
        }
    }
}

/// Something that a persona remembers.
#[derive(Debug, Clone, PartialEq)]
pub struct Memory {
    pub id: Option<Id>,
    /// The text of the memory.
    pub memory: String,
    pub fragments: Vec<Fragment>,
    /// The memories that this one is connected to.
    pub connections: Vec<Id>,
    pub emotional_signature: EmotionalSignature,
    /// How much the memory weighs, in `[0, 1]` on the wire.
    pub importance_score: Scalar,
    /// When the memory was made, in milliseconds since the epoch.
    pub creation_date: i64,
    /// When the memory was last read, in milliseconds since the epoch.
    pub last_accessed: i64,
    pub metadata: MemoryMetadata,
}

/// A `Memory` as a mathematical value.
pub struct MemoryView {
    pub id: Option<Id>,
    pub memory: Seq<char>,
    pub fragments: Seq<FragmentView>,
    pub connections: Seq<Id>,
    pub emotional_signature: EmotionalSignatureView,
    pub importance_score: Scalar,
    pub creation_date: i64,
    pub last_accessed: i64,
    pub metadata: MemoryMetadataView,
}

impl DeepView for Memory {
    type V = MemoryView;

    open spec fn deep_view(&self) -> MemoryView {
        MemoryView {
            id: self.id,
            memory: self.memory@,
            fragments: self.fragments.deep_view(),
            connections: self.connections@,
            emotional_signature: self.emotional_signature.deep_view(),
            importance_score: self.importance_score,
            creation_date: self.creation_date,
            last_accessed: self.last_accessed,
            metadata: self.metadata.deep_view(),
        }
    }
}

/// The connections of a memory: a required list of identifiers.
pub open spec fn spec_connections(doc: JsonValue) -> Result<Seq<Id>, Violation> {
    match doc.get("connections"@) {
        None => Err(refusal("connections"@, Fault::Missing)),
        Some(value) => uuid_vec_format::checked(value),
    }
}

/// The object that a memory is written as, given what each part is written
/// as.
pub open spec fn memory_layout(
    id: Option<Id>,
    memory: JsonValue,
    fragments: JsonValue,
    connections: JsonValue,
    emotional_signature: JsonValue,
    importance_score: JsonValue,
    creation_date: JsonValue,
    last_accessed: JsonValue,
    metadata: JsonValue,
) -> JsonValue {
    JsonValue::Object(
        with(
            with(
                with(
                    with(
                        with(
                            with(
                                with(
                                    with(with_id(Seq::empty(), "id"@, id), "memory"@, memory),
                                    "fragments"@,
                                    fragments,
                                ),
                                "connections"@,
                                connections,
                            ),
                            "emotional_signature"@,
                            emotional_signature,
                        ),
                        "importance_score"@,
                        importance_score,
                    ),
                    "creation_date"@,
                    creation_date,
                ),
                "last_accessed"@,
                last_accessed,
            ),
            "metadata"@,
            metadata,
        ),
    )
}

/// Each part of a memory is found under its name in the object that the
/// memory is written as.
pub proof fn lemma_memory_layout(
    id: Option<Id>,
    memory: JsonValue,
    fragments: JsonValue,
    connections: JsonValue,
    emotional_signature: JsonValue,
    importance_score: JsonValue,
    creation_date: JsonValue,
    last_accessed: JsonValue,
    metadata: JsonValue,
)
    ensures
        ({
            let doc = memory_layout(
                id,
                memory,
                fragments,
                connections,
                emotional_signature,
                importance_score,
                creation_date,
                last_accessed,
                metadata,
            );
            &&& doc.get("id"@) == match id {
                Some(id) => Some(id_value(id)),
                None => None,
            }
            &&& doc.get("memory"@) == Some(memory)
            &&& doc.get("fragments"@) == Some(fragments)
            &&& doc.get("connections"@) == Some(connections)
            &&& doc.get("emotional_signature"@) == Some(emotional_signature)
            &&& doc.get("importance_score"@) == Some(importance_score)
            &&& doc.get("creation_date"@) == Some(creation_date)
            &&& doc.get("last_accessed"@) == Some(last_accessed)
            &&& doc.get("metadata"@) == Some(metadata)
        }),
{
    broadcast use lemma_field_push;

    reveal_strlit("id");
    reveal_strlit("memory");
    reveal_strlit("fragments");
    reveal_strlit("connections");
    reveal_strlit("emotional_signature");
    reveal_strlit("importance_score");
    reveal_strlit("creation_date");
    reveal_strlit("last_accessed");
    reveal_strlit("metadata");
    assert("id"@.len() == 2 && "memory"@.len() == 6 && "fragments"@.len() == 9
        && "connections"@.len() == 11 && "emotional_signature"@.len() == 19
        && "importance_score"@.len() == 16 && "creation_date"@.len() == 13
        && "last_accessed"@.len() == 13 && "metadata"@.len() == 8);
    assert("creation_date"@[0] == 'c' && "last_accessed"@[0] == 'l');
}

impl Record for Memory {
    open spec fn written(record: MemoryView) -> JsonValue {
        memory_layout(
            record.id,
            JsonValue::Text(record.memory),
            records_value(record.fragments, writer::<Fragment>()),
            uuid_vec_format::written(record.connections),
            EmotionalSignature::written(record.emotional_signature),
            JsonValue::Real(record.importance_score),
            JsonValue::Integer(record.creation_date),
            JsonValue::Integer(record.last_accessed),
            MemoryMetadata::written(record.metadata),
        )
    }

    open spec fn read(doc: JsonValue) -> Result<MemoryView, Violation> {
        match spec_optional_id(doc, "id"@) {
            Err(e) => Err(e),
            Ok(id) => match spec_text(doc, "memory"@) {
                Err(e) => Err(e),
                Ok(memory) => match spec_records(doc, "fragments"@, reader::<Fragment>()) {
                    Err(e) => Err(e),
                    Ok(fragments) => match spec_connections(doc) {
                        Err(e) => Err(e),
                        Ok(connections) => match spec_record::<EmotionalSignature>(
                            doc,
                            "emotional_signature"@,
                        ) {
                            Err(e) => Err(e),
                            Ok(emotional_signature) => match spec_ranged(
                                doc,
                                "importance_score"@,
                                Scalar { bits: ZERO_BITS },
                                Scalar { bits: ONE_BITS },
                            ) {
                                Err(e) => Err(e),
                                Ok(importance_score) => match spec_integer(
                                    doc,
                                    "creation_date"@,
                                ) {
                                    Err(e) => Err(e),
                                    Ok(creation_date) => match spec_integer(
                                        doc,
                                        "last_accessed"@,
                                    ) {
                                        Err(e) => Err(e),
                                        Ok(last_accessed) => match spec_record::<MemoryMetadata>(
                                            doc,
                                            "metadata"@,
                                        ) {
                                            Err(e) => Err(e),
                                            Ok(metadata) => Ok(
                                                MemoryView {
                                                    id,
                                                    memory,
                                                    fragments,
                                                    connections,
                                                    emotional_signature,
                                                    importance_score,
                                                    creation_date,
                                                    last_accessed,
                                                    metadata,
                                                },
                                            ),
                                        },
                                    },
                                },
                            },
                        },
                    },
                },
            },
        }
    }

    open spec fn sound(record: MemoryView) -> bool {
        &&& record.id matches Some(id) ==> id.canonical()
        &&& all_sound::<Fragment>(record.fragments)
        &&& uuid_vec_format::all_canonical(record.connections)
        &&& EmotionalSignature::sound(record.emotional_signature)
        &&& record.importance_score.in_unit_interval()
        &&& MemoryMetadata::sound(record.metadata)
    }

    proof fn round_trip(record: MemoryView) {
        lemma_memory_layout(
            record.id,
            JsonValue::Text(record.memory),
            records_value(record.fragments, writer::<Fragment>()),
            uuid_vec_format::written(record.connections),
            EmotionalSignature::written(record.emotional_signature),
            JsonValue::Real(record.importance_score),
            JsonValue::Integer(record.creation_date),
            JsonValue::Integer(record.last_accessed),
            MemoryMetadata::written(record.metadata),
        );
        lemma_records_round_trip::<Fragment>(record.fragments);
        uuid_vec_format::lemma_ids_round_trip(record.connections);
        EmotionalSignature::round_trip(record.emotional_signature);
        MemoryMetadata::round_trip(record.metadata);
    }

    fn encode(&self) -> (r: Json) {
        let mut fields: Vec<(String, Json)> = Vec::new();
        assert(entries_view(fields@) =~= Seq::empty());
        put_id(&mut fields, "id", &self.id);
        put_text(&mut fields, "memory", &self.memory);
        put_records(&mut fields, "fragments", &self.fragments);
        put(&mut fields, "connections", uuid_vec_format::serialize(&self.connections));
        put_record(&mut fields, "emotional_signature", &self.emotional_signature);
        put(
            &mut fields,
            "importance_score",
            validate_importance_score::serialize(self.importance_score),
        );
        put_integer(&mut fields, "creation_date", self.creation_date);
        put_integer(&mut fields, "last_accessed", self.last_accessed);
        put_record(&mut fields, "metadata", &self.metadata);
        proof {
            lemma_object_view(fields);
        }
        Json::Object(fields)
    }

    fn decode(doc: &Json) -> (r: Result<Memory, SchemaViolation>) {
        let id = read_optional_id(doc, "id")?;
        let memory = read_text(doc, "memory")?;
        let fragments = read_records::<Fragment>(doc, "fragments")?;
        let connections = match doc.get("connections") {
            Some(value) => uuid_vec_format::deserialize(value)?,
            None => { return Err(SchemaViolation::new("connections", Fault::Missing)); },
        };
        let emotional_signature = read_record::<EmotionalSignature>(doc, "emotional_signature")?;
        let importance_score = match doc.get("importance_score") {
            Some(value) => validate_importance_score::deserialize(value)?,
            None => { return Err(SchemaViolation::new("importance_score", Fault::Missing)); },
        };
        let creation_date = read_integer(doc, "creation_date")?;
        let last_accessed = read_integer(doc, "last_accessed")?;
        let metadata = read_record::<MemoryMetadata>(doc, "metadata")?;
        Ok(
            Memory {
                id,
                memory,
                fragments,
                connections,
                emotional_signature,
                importance_score,
                creation_date,
                last_accessed,
                metadata,
            },
        )
    }
}

impl Memory {
    /// The memory that is made at an instant where nothing was chosen:
    /// empty, of no weight, made and last read at that instant.
    pub open spec fn baseline(now: i64) -> MemoryView {
        MemoryView {
            id: None,
            memory: Seq::empty(),
            fragments: Seq::empty(),
            connections: Seq::empty(),
            emotional_signature: EmotionalSignature::baseline(),
            importance_score: Scalar { bits: ZERO_BITS },
            creation_date: now,
            last_accessed: now,
            metadata: MemoryMetadata::baseline(),
        }
    }

    /// The baseline memory, made at the instant given.
    pub fn baseline_at(now: i64) -> (r: Memory)
        ensures
            r.deep_view() == Memory::baseline(now),
    {
        let fragments: Vec<Fragment> = Vec::new();
        assert(fragments.deep_view() =~= Seq::empty());
        Memory {
            id: None,
            memory: String::new(),
            fragments,
            connections: Vec::new(),
            emotional_signature: EmotionalSignature::default(),
            importance_score: Scalar::zero(),
            creation_date: now,
            last_accessed: now,
            metadata: MemoryMetadata::default(),
        }
    }

    /// A builder without anything set.
    pub fn builder() -> (r: MemoryBuilder)
        ensures
            r.unset(),
    {
        MemoryBuilder::default()
    }

    /// The request that asks the store for the memory under `id`.
    pub fn get(id: &str, soul: Soulgraph) -> (r: Request)
        ensures
            (r.method, r.url@, r.body) == soul.request(
                Method::Get,
                spec_resource_path(id@),
                None,
            ),
    {
        let path = resource_path(id);
        soul.get(path.as_str())
    }

    /// The request that asks the store to keep a new memory.
    pub fn create(personality: &Memory, soul: Soulgraph) -> (r: Request)
        ensures
            r.method == Method::Post,
            r.url@ == soul.base_url@ + spec_collection_path(),
            r.body matches Some(doc) && doc.value() == Memory::written(personality.deep_view()),
    {
        soul.post("/personality", personality.encode())
    }

    /// The request that asks the store to drop the memory under `id`.
    pub fn delete(id: &str, soul: Soulgraph) -> (r: Request)
        ensures
            (r.method, r.url@, r.body) == soul.request(
                Method::Delete,
                spec_resource_path(id@),
                None,
            ),
    {
        let path = resource_path(id);
        soul.delete(path.as_str())
    }

    /// What the answer to a get or a create amounts to: the memory that it
    /// delivers, or the one failure that stands for all that can go wrong.
    pub fn receive(outcome: &Outcome) -> (r: Result<Memory, CorruptMemory>)
        ensures
            match r {
                Ok(memory) => outcome.delivered::<Memory>() == Some(memory.deep_view())
                    && Memory::sound(memory.deep_view()),
                Err(_) => outcome.delivered::<Memory>() is None,
            },
    {
        match outcome.deliver::<Memory>() {
            Some(memory) => Ok(memory),
            None => Err(CorruptMemory),
        }
    }

    /// What the answer to a delete amounts to: done where the store
    /// answered with a status of success, whatever the body; the failure otherwise.
    pub fn confirm(outcome: &Outcome) -> (r: Result<(), CorruptMemory>)
        ensures
            r is Ok <==> outcome.confirmed(),
    {
        if outcome.is_confirmed() {
            Ok(())
        } else {
            Err(CorruptMemory)
        }
    }
}

impl Default for Memory {
    /// The baseline memory, made now.
    fn default() -> (r: Memory)
        ensures
            exists|now: i64| r.deep_view() == #[trigger] Memory::baseline(now),
    {
        let now = now_millis();
        Memory::baseline_at(now)
    }
}

/// Memories, each under its identifier.
#[derive(Debug, Clone, PartialEq)]
pub struct MemoryCollection {
    pub memories: Vec<(Id, Memory)>,
}

/// Collects the fields of a `Memory`.
pub struct MemoryBuilder {
    pub memory: String,
    pub fragments: Vec<Fragment>,
    pub connections: Vec<Id>,
    pub emotional_signature: Option<EmotionalSignature>,
    pub importance_score: Scalar,
    pub last_accessed: Option<i64>,
    pub metadata: Option<MemoryMetadata>,
}

impl Default for MemoryBuilder {
    fn default() -> (r: MemoryBuilder)
        ensures
            r.unset(),
    {
        MemoryBuilder {
            memory: String::new(),
            fragments: Vec::new(),
            connections: Vec::new(),
            emotional_signature: None,
            importance_score: Scalar::zero(),
            last_accessed: None,
            metadata: None,
        }
    }
}

impl MemoryBuilder {
    /// Nothing was set: an empty memory of no weight.
    pub open spec fn unset(self) -> bool {
        &&& self.memory@ == Seq::<char>::empty()
        &&& self.fragments@.len() == 0
        &&& self.connections@.len() == 0
        &&& self.emotional_signature is None
        &&& self.importance_score.bits == ZERO_BITS
        &&& self.last_accessed is None
        &&& self.metadata is None
    }

    /// A builder for the memory of this text.
    pub fn new(memory: String) -> (r: MemoryBuilder)
        ensures
            r.memory == memory,
            r.fragments@.len() == 0,
            r.connections@.len() == 0,
            r.emotional_signature is None,
            r.importance_score.bits == ZERO_BITS,
            r.last_accessed is None,
            r.metadata is None,
    {
        MemoryBuilder {
            memory,
            fragments: Vec::new(),
            connections: Vec::new(),
            emotional_signature: None,
            importance_score: Scalar::zero(),
            last_accessed: None,
            metadata: None,
        }
    }

    /// Adds a fragment behind those that are there.
    pub fn add_fragment(self, fragment: Fragment) -> (r: MemoryBuilder)
        ensures
            r.fragments@ == self.fragments@.push(fragment),
            r == (MemoryBuilder { fragments: r.fragments, ..self }),
    {
        let mut next = self;
        next.fragments.push(fragment);
        next
    }

    /// Adds a connection behind those that are there.
    pub fn add_connection(self, connection: Id) -> (r: MemoryBuilder)
        ensures
            r.connections@ == self.connections@.push(connection),
            r == (MemoryBuilder { connections: r.connections, ..self }),
    {
        let mut next = self;
        next.connections.push(connection);
        next
    }

    pub fn emotional_signature(self, signature: EmotionalSignature) -> (r: MemoryBuilder)
        ensures
            r == (MemoryBuilder { emotional_signature: Some(signature), ..self }),
    {
        let mut next = self;
        next.emotional_signature = Some(signature);
        next
    }

    /// Sets the score as it is: the builder does not limit it.
    pub fn importance_score(self, score: Scalar) -> (r: MemoryBuilder)
        ensures
            r == (MemoryBuilder { importance_score: score, ..self }),
    {
        let mut next = self;
        next.importance_score = score;
        next
    }

    pub fn last_accessed(self, timestamp: i64) -> (r: MemoryBuilder)
        ensures
            r == (MemoryBuilder { last_accessed: Some(timestamp), ..self }),
    {
        let mut next = self;
        next.last_accessed = Some(timestamp);
        next
    }

    pub fn metadata(self, metadata: MemoryMetadata) -> (r: MemoryBuilder)
        ensures
            r == (MemoryBuilder { metadata: Some(metadata), ..self }),
    {
        let mut next = self;
        next.metadata = Some(metadata);
        next
    }

    /// What building at an instant gives: what was set; the instant as the
    /// date of creation, and as the last access where none was set; the
    /// baseline for the signature and the metadata where none was set.
    pub open spec fn built(self, now: i64) -> MemoryView {
        MemoryView {
            id: None,
            memory: self.memory@,
            fragments: self.fragments.deep_view(),
            connections: self.connections@,
            emotional_signature: match self.emotional_signature {
                Some(signature) => signature.deep_view(),
                None => EmotionalSignature::baseline(),
            },
            importance_score: self.importance_score,
            creation_date: now,
            last_accessed: match self.last_accessed {
                Some(timestamp) => timestamp,
                None => now,
            },
            metadata: match self.metadata {
                Some(metadata) => metadata.deep_view(),
                None => MemoryMetadata::baseline(),
            },
        }
    }

    /// Makes the memory at the instant given.
    pub fn build_at(self, now: i64) -> (r: Memory)
        ensures
            r.deep_view() == self.built(now),
    {
        let MemoryBuilder {
            memory,
            fragments,
            connections,
            emotional_signature,
            importance_score,
            last_accessed,
            metadata,
        } = self;
        Memory {
            id: None,
            memory,
            fragments,
            connections,
            emotional_signature: match emotional_signature {
                Some(signature) => signature,
                None => EmotionalSignature::default(),
            },
            importance_score,
            creation_date: now,
            last_accessed: match last_accessed {
                Some(timestamp) => timestamp,
                None => now,
            },
            metadata: match metadata {
                Some(metadata) => metadata,
                None => MemoryMetadata::default(),
            },
        }
    }

    /// Makes the memory. It cannot fail. The clock is read now, at the
    /// build: two builds at different instants are stamped apart.
    pub fn build(self) -> (r: Memory)
        ensures
            exists|now: i64| r.deep_view() == #[trigger] self.built(now),
            self.last_accessed matches Some(timestamp) ==> r.last_accessed == timestamp,
    {
        let now = now_millis();
        self.build_at(now)
    }
}

} // verus!
