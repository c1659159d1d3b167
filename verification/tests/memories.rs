use soulgraph::id::Id;
use soulgraph::json::Json;
use soulgraph::memories::fragment::Fragment;
use soulgraph::memories::uuid_vec_format;
use soulgraph::memories::validate_importance_score;
use soulgraph::memories::validate_intensity;
use soulgraph::memories::validate_valence;
use soulgraph::memories::{
    CorruptMemory, EmotionalSignature, Memory, MemoryBuilder, MemoryCollection, MemoryMetadata,
};
use soulgraph::scalar::Scalar;
use soulgraph::violation::Fault;
use soulgraph::wire::Record;

fn scalar(x: f32) -> Scalar {
    Scalar::from_bits(x.to_bits())
}

fn as_f32(s: Scalar) -> f32 {
    f32::from_bits(s.to_bits())
}

fn text(s: &str) -> Json {
    Json::Text(s.to_string())
}

#[test]
fn test_default_core_memory() {
    let memory = Memory::default();
    assert!(memory.id.is_none());
    assert!(memory.memory.is_empty());
    assert!(memory.fragments.is_empty());
    assert!(memory.connections.is_empty());
    assert_eq!(as_f32(memory.emotional_signature.valence), 0.0);
    assert_eq!(as_f32(memory.emotional_signature.intensity), 0.0);
    assert_eq!(as_f32(memory.importance_score), 0.0);
    assert!(memory.metadata.topic_tags.is_empty());
}

#[test]
fn test_builder_pattern() {
    let uuid = Id::from_u128(uuid::Uuid::new_v4().as_u128());
    let memory = MemoryBuilder::new("test memory".to_string())
        .add_fragment(Fragment::default())
        .add_connection(uuid)
        .emotional_signature(EmotionalSignature {
            id: None,
            valence: scalar(0.5),
            intensity: scalar(0.7),
        })
        .importance_score(scalar(0.8))
        .build();

    assert!(memory.id.is_none());
    assert_eq!(memory.memory, "test memory");
    assert_eq!(memory.fragments.len(), 1);
    assert_eq!(memory.connections, vec![uuid]);
    assert_eq!(as_f32(memory.emotional_signature.valence), 0.5);
    assert_eq!(as_f32(memory.emotional_signature.intensity), 0.7);
    assert_eq!(as_f32(memory.importance_score), 0.8);
}

#[test]
fn test_serde() {
    let memory = MemoryBuilder::new("test memory".to_string())
        .importance_score(scalar(0.8))
        .build();

    let serialized = memory.encode();
    let deserialized = Memory::decode(&serialized).unwrap();

    assert_eq!(memory.id, deserialized.id);
    assert_eq!(memory.memory, deserialized.memory);
    assert_eq!(memory.importance_score, deserialized.importance_score);
}

#[test]
fn memory_default_is_made_and_read_at_one_instant() {
    let memory = Memory::default();
    assert!(memory.creation_date > 1_600_000_000_000);
    assert_eq!(memory.creation_date, memory.last_accessed);
    assert_eq!(memory.metadata.memory_type, "default");
    let at = Memory::baseline_at(77);
    assert_eq!(at.creation_date, 77);
    assert_eq!(at.last_accessed, 77);
}

#[test]
fn memory_built_at_an_instant_is_stamped_with_it() {
    let memory = Memory::builder().build_at(1_700_000_000_000);
    assert_eq!(memory.creation_date, 1_700_000_000_000);
    assert_eq!(memory.last_accessed, 1_700_000_000_000);
    assert_eq!(memory.emotional_signature, EmotionalSignature::default());
    assert_eq!(memory.metadata, MemoryMetadata::default());

    let memory = Memory::builder().last_accessed(5).build_at(1_700_000_000_000);
    assert_eq!(memory.creation_date, 1_700_000_000_000);
    assert_eq!(memory.last_accessed, 5);

    let memory = Memory::builder().last_accessed(5).build();
    assert_eq!(memory.last_accessed, 5);
    assert!(memory.creation_date > 1_600_000_000_000);
}

#[test]
fn memory_builder_keeps_metadata_that_was_set() {
    let metadata = MemoryMetadata {
        id: None,
        topic_tags: vec!["trading".to_string()],
        personality_influence: vec!["sarcastic".to_string()],
        memory_type: "episodic".to_string(),
    };
    let memory = Memory::builder().metadata(metadata.clone()).build_at(0);
    assert_eq!(memory.metadata, metadata);
}

#[test]
fn memory_round_trips() {
    let kept = MemoryBuilder::new("the crash".to_string())
        .add_fragment(Fragment::baseline_at(12))
        .add_connection(Id::from_u128(1))
        .add_connection(Id::from_u128(u128::MAX))
        .emotional_signature(EmotionalSignature {
            id: Some(Id::from_u128(9)),
            valence: scalar(-1.0),
            intensity: scalar(1.0),
        })
        .importance_score(scalar(0.8))
        .last_accessed(99)
        .build_at(50);
    let written = kept.encode();
    assert_eq!(
        written.get("connections"),
        Some(&Json::List(vec![
            text("00000000-0000-0000-0000-000000000001"),
            text("ffffffff-ffff-ffff-ffff-ffffffffffff"),
        ]))
    );
    assert_eq!(written.get("creation_date"), Some(&Json::Integer(50)));
    assert_eq!(written.get("last_accessed"), Some(&Json::Integer(99)));
    assert_eq!(Memory::decode(&written).unwrap(), kept);
}

#[test]
fn memory_score_out_of_range_is_refused() {
    let held = Memory::builder().importance_score(scalar(1.25)).build_at(0);
    let violation = Memory::decode(&held.encode()).unwrap_err();
    assert_eq!(violation.field, "importance_score");
    assert_eq!(
        violation.fault,
        Fault::OutOfRange { lowest: scalar(0.0), highest: scalar(1.0) }
    );
}

#[test]
fn memory_with_a_bad_fragment_is_refused_for_the_fragment() {
    let mut fragment = Fragment::baseline_at(0);
    fragment.importance = scalar(2.0);
    let held = Memory::builder()
        .add_fragment(Fragment::baseline_at(0))
        .add_fragment(fragment)
        .build_at(0);
    let violation = Memory::decode(&held.encode()).unwrap_err();
    assert_eq!(violation.field, "importance");
}

#[test]
fn memory_without_connections_is_refused() {
    let fields = match Memory::baseline_at(0).encode() {
        Json::Object(fields) => fields,
        _ => panic!("a memory is written as an object"),
    };
    let without: Vec<(String, Json)> =
        fields.into_iter().filter(|field| field.0 != "connections").collect();
    let violation = Memory::decode(&Json::Object(without)).unwrap_err();
    assert_eq!(violation.field, "connections");
    assert_eq!(violation.fault, Fault::Missing);
}

#[test]
fn signature_round_trips_over_its_whole_range() {
    for valence in [-1.0f32, -0.25, -0.0, 0.0, 0.5, 1.0] {
        for intensity in [0.0f32, 0.1, 0.7, 1.0] {
            let kept = EmotionalSignature {
                id: None,
                valence: scalar(valence),
                intensity: scalar(intensity),
            };
            let read = EmotionalSignature::decode(&kept.encode()).unwrap();
            assert_eq!(read.valence.to_bits(), valence.to_bits());
            assert_eq!(read.intensity.to_bits(), intensity.to_bits());
            assert_eq!(read.id, None);
        }
    }
}

#[test]
fn signature_with_one_number_out_of_range_is_refused() {
    let bad_valence = EmotionalSignature { id: None, valence: scalar(1.5), intensity: scalar(0.5) };
    let violation = EmotionalSignature::decode(&bad_valence.encode()).unwrap_err();
    assert_eq!(violation.field, "valence");
    assert_eq!(
        violation.fault,
        Fault::OutOfRange { lowest: scalar(-1.0), highest: scalar(1.0) }
    );

    let bad_intensity =
        EmotionalSignature { id: None, valence: scalar(0.5), intensity: scalar(-0.1) };
    let violation = EmotionalSignature::decode(&bad_intensity.encode()).unwrap_err();
    assert_eq!(violation.field, "intensity");
    assert_eq!(
        violation.fault,
        Fault::OutOfRange { lowest: scalar(0.0), highest: scalar(1.0) }
    );
}

#[test]
fn signature_without_valence_is_refused() {
    let doc = Json::Object(vec![("intensity".to_string(), Json::Real(scalar(0.5)))]);
    let violation = EmotionalSignature::decode(&doc).unwrap_err();
    assert_eq!(violation.field, "valence");
    assert_eq!(violation.fault, Fault::Missing);
}

#[test]
fn metadata_of_a_memory_round_trips() {
    let kept = MemoryMetadata {
        id: Some(Id::from_u128(3)),
        topic_tags: vec!["a".to_string(), "b".to_string()],
        personality_influence: vec![],
        memory_type: "episodic".to_string(),
    };
    assert_eq!(MemoryMetadata::decode(&kept.encode()).unwrap(), kept);
    assert_eq!(
        MemoryMetadata::decode(&MemoryMetadata::default().encode()).unwrap(),
        MemoryMetadata::default()
    );
}

#[test]
fn score_valence_and_intensity_validators_alone() {
    assert_eq!(validate_importance_score::serialize(scalar(0.8)), Json::Real(scalar(0.8)));
    assert_eq!(validate_valence::serialize(scalar(-0.8)), Json::Real(scalar(-0.8)));
    assert_eq!(validate_intensity::serialize(scalar(0.8)), Json::Real(scalar(0.8)));

    assert_eq!(
        as_f32(validate_importance_score::deserialize(&Json::Real(scalar(0.8))).unwrap()),
        0.8
    );
    assert_eq!(as_f32(validate_valence::deserialize(&Json::Real(scalar(-0.8))).unwrap()), -0.8);
    assert_eq!(as_f32(validate_intensity::deserialize(&Json::Real(scalar(0.8))).unwrap()), 0.8);

    let violation = validate_importance_score::deserialize(&Json::Real(scalar(1.1))).unwrap_err();
    assert_eq!(violation.field, "importance_score");
    let violation = validate_valence::deserialize(&Json::Real(scalar(-1.1))).unwrap_err();
    assert_eq!(violation.field, "valence");
    assert_eq!(
        violation.fault,
        Fault::OutOfRange { lowest: scalar(-1.0), highest: scalar(1.0) }
    );
    let violation = validate_intensity::deserialize(&Json::Real(scalar(-0.5))).unwrap_err();
    assert_eq!(violation.field, "intensity");
    let violation = validate_intensity::deserialize(&Json::Null).unwrap_err();
    assert_eq!(violation.fault, Fault::Mistyped);
}

#[test]
fn identifier_lists_are_written_as_texts_and_read_back() {
    let ids = vec![Id::from_u128(0x550e8400_e29b_41d4_a716_446655440000), Id::from_u128(0)];
    let written = uuid_vec_format::serialize(&ids);
    assert_eq!(
        written,
        Json::List(vec![
            text("550e8400-e29b-41d4-a716-446655440000"),
            text("00000000-0000-0000-0000-000000000000"),
        ])
    );
    assert_eq!(uuid_vec_format::deserialize(&written).unwrap(), ids);
    assert_eq!(uuid_vec_format::deserialize(&Json::List(vec![])).unwrap(), vec![]);
}

#[test]
fn identifier_lists_refuse_what_spells_no_identifier() {
    let doc = Json::List(vec![text("550e8400-e29b-41d4-a716-446655440000"), text("nope")]);
    let violation = uuid_vec_format::deserialize(&doc).unwrap_err();
    assert_eq!(violation.field, "connections");
    assert_eq!(violation.fault, Fault::Mistyped);
    assert!(uuid_vec_format::deserialize(&Json::List(vec![Json::Integer(1)])).is_err());
    assert!(uuid_vec_format::deserialize(&text("550e8400-e29b-41d4-a716-446655440000")).is_err());
}

#[test]
fn collection_holds_memories_under_their_identifiers() {
    let collection = MemoryCollection { memories: vec![(Id::from_u128(1), Memory::baseline_at(0))] };
    assert_eq!(collection.memories.len(), 1);
    assert_eq!(collection.memories[0].0, Id::from_u128(1));
    assert_eq!(CorruptMemory.to_string(), "personality is corrupted");
}
