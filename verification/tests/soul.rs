use soulgraph::entity::Entity;
use soulgraph::json::Json;
use soulgraph::personality::relationship::EnforcementType;
use soulgraph::personality::Personality;
use soulgraph::scalar::Scalar;
use soulgraph::soul::{CorruptSoul, Soul, SoulBuilder};
use soulgraph::violation::Fault;
use soulgraph::wire::Record;

const DEFAULT_VERSION: &str = "1.0";

fn to_json(value: &serde_json::Value) -> Json {
    match value {
        serde_json::Value::Null => Json::Null,
        serde_json::Value::Bool(b) => Json::Bool(*b),
        serde_json::Value::Number(n) => match n.as_i64() {
            Some(i) => Json::Integer(i),
            None => Json::Real(Scalar::from_bits((n.as_f64().unwrap() as f32).to_bits())),
        },
        serde_json::Value::String(s) => Json::Text(s.clone()),
        serde_json::Value::Array(items) => Json::List(items.iter().map(to_json).collect()),
        serde_json::Value::Object(fields) => {
            Json::Object(fields.iter().map(|(k, v)| (k.clone(), to_json(v))).collect())
        }
    }
}

fn text(s: &str) -> Json {
    Json::Text(s.to_string())
}

const LUNA: &str = r#"{
        "id": "550e8400-e29b-41d4-a716-446655440000",
        "version": "1.0.0",
        "entity": {
            "id": "67e55044-10b1-426f-9247-bb680e5fe0c8",
            "form": "human",
            "occupation": "on-chain trading psychologist",
            "gender": "female",
            "age": "26",
            "background": "Behavioral economics and trading psychology",
            "expertise": ["market psychology", "trading strategies", "risk management"]
        },
        "personality": {
            "id": "8f7d3868-2985-4567-9012-f3b1c7d89abc",
            "name": "Dr. Luna",
            "traits": [
                {
                    "id": "07561834-d00f-4fee-b287-e34ef07ed812",
                    "trait": "sarcastic",
                    "strength": 0.95,
                    "expression_rules": [
                        "use irony to highlight obvious mistakes",
                        "employ mock praise for poor decisions"
                    ]
                },
                {
                    "id": "07561836-d00f-4fee-b287-e34ef07ed812",
                    "trait": "memetic",
                    "strength": 0.9,
                    "expression_rules": [
                        "reference popular trading memes",
                        "create memorable catchphrases"
                    ]
                },
                {
                    "id": "07561842-d00f-4fee-b287-e34ef07ed812",
                    "trait": "tough-love",
                    "strength": 0.85,
                    "expression_rules": [
                        "push traders out of comfort zones",
                        "maintain firm boundaries"
                    ]
                },
                {
                    "id": "07561842-d05f-4fee-b287-e34ef07ed812",
                    "trait": "mocking",
                    "strength": 0.8,
                    "expression_rules": [
                        "use playful derision",
                        "highlight absurdity in decisions"
                    ]
                }
            ],
            "values": [
                {
                    "id": "07561845-d05f-4fee-b287-e34ef07ed812",
                    "name": "no-nonsense realism",
                    "importance": 0.9,
                    "expression": "shocks traders out of complacency by calling them out directly",
                    "conflicts": []
                },
                {
                    "id": "07561854-d05f-4fee-b287-e34ef07ed812",
                    "name": "brutal honesty",
                    "importance": 0.85,
                    "expression": "highlights personal failings to spur growth and resilience",
                    "conflicts": []
                },
                {
                    "id": "07561868-d05f-4fee-b287-e34ef07ed812",
                    "name": "emotional hardening",
                    "importance": 0.8,
                    "expression": "teaches traders to ignore fear and stick to disciplined strategies, even if it hurts",
                    "conflicts": []
                }
            ],
            "voice": {
                "id": "07561868-d12f-4fee-b287-e34ef07ed812",
                "style": "ironically motivational",
                "tone": "edgy and confrontational",
                "qualities": ["sarcastic", "deadpan", "abrasive"],
                "patterns": [
                    "calls out 'PUSSY' behavior at market bottoms",
                    "mocks top-callers who keep failing until true tops form",
                    "uses degrading humor to push traders to take action",
                    "occasionally reminds them that 2025 will be better"
                ]
            },
            "relationship": {
                "id": "07561874-d12f-4fee-b287-e34ef07ed812",
                "style": "memetic tough love",
                "boundaries": [
                    {
                        "id": "07561874-d12f-4fee-b287-e34ef07ed812",
                        "type": "emotional support",
                        "description": "remains abrasive unless genuine distress is detected—then gets stern, still pushing for resilience",
                        "enforcement": "situational"
                    }
                ]
            },
            "metadata": {
                "creation_date": "2025-01-11",
                "last_modified": "2025-01-11"
            }
        }
        }"#;

#[test]
fn test_soulscript_serialization() {
    let script = Soul {
        id: None,
        version: "1.0".to_string(),
        entity: Entity::default(),
        personality: Personality::default(),
        values: None,
        voice: None,
        relationship: None,
        metadata: None,
    };

    let serialized = script.encode();
    assert_eq!(serialized.get("version"), Some(&text("1.0")));
    assert_eq!(serialized.get("entity").unwrap().get("form"), Some(&text("ai")));
}

#[test]
fn test_soulscript_deserialization() {
    let json: serde_json::Value = serde_json::from_str(LUNA).unwrap();

    let script = Soul::decode(&to_json(&json)).unwrap();
    assert_eq!(script.version, "1.0.0");
    assert_eq!(script.entity.form, "human");
}

#[test]
fn test_soul_default() {
    let soul = Soul::default();
    assert_eq!(soul.version, DEFAULT_VERSION);
    assert_eq!(soul.personality, Personality::default());
    assert_eq!(soul.entity, Entity::default());
}

#[test]
fn test_soul_builder_default() {
    let soul = Soul::builder().build();
    assert_eq!(soul.version, DEFAULT_VERSION);
    assert_eq!(soul.entity, Entity::default());
    assert_eq!(soul.personality, Personality::default());
}

#[test]
fn test_soul_builder_with_values() {
    let mut metadata = std::collections::HashMap::new();
    metadata.insert("test".to_string(), serde_json::Value::String("value".to_string()));

    let soul = Soul::builder().version("2.0".to_string()).build();

    assert_eq!(soul.version, "2.0");
}

#[test]
fn test_soul_builder_partial_construction() {
    let soul = Soul::builder().version("2.0".to_string()).build();

    assert_eq!(soul.version, "2.0");
    assert_eq!(soul.entity, Entity::default());
}

#[test]
fn test_soul_builder_chaining() {
    let entity = Entity::default();
    let personality = Personality::default();

    let soul = Soul::builder()
        .entity(entity.clone())
        .personality(personality.clone())
        .build();

    assert_eq!(soul.entity, entity);
    assert_eq!(soul.personality, personality);
}

#[test]
fn soul_from_the_wire_is_read_in_full() {
    let json: serde_json::Value = serde_json::from_str(LUNA).unwrap();
    let soul = Soul::decode(&to_json(&json)).unwrap();

    assert_eq!(
        soul.id.unwrap().as_u128(),
        uuid::Uuid::parse_str("550e8400-e29b-41d4-a716-446655440000").unwrap().as_u128()
    );
    assert_eq!(soul.entity.occupation, "on-chain trading psychologist");
    assert_eq!(soul.entity.expertise.as_ref().unwrap().len(), 3);
    assert_eq!(soul.personality.name, "Dr. Luna");
    assert_eq!(soul.personality.traits.len(), 4);
    assert_eq!(soul.personality.traits[2].trait_name, "tough-love");
    assert_eq!(f32::from_bits(soul.personality.traits[2].strength.to_bits()), 0.85);
    let values = soul.personality.values.as_ref().unwrap();
    assert_eq!(values.len(), 3);
    assert_eq!(values[1].name, "brutal honesty");
    assert_eq!(values[1].conflicts, Some(vec![]));
    assert_eq!(soul.personality.voice.as_ref().unwrap().patterns.len(), 4);
    let relationship = soul.personality.relationship.as_ref().unwrap();
    assert_eq!(relationship.boundaries[0].enforcement, EnforcementType::Situational);
    let metadata = soul.personality.metadata.as_ref().unwrap();
    assert_eq!(metadata.get("last_modified").unwrap(), "2025-01-11");
    assert_eq!(soul.values, None);
    assert_eq!(soul.metadata, None);
}

#[test]
fn soul_round_trips() {
    let json: serde_json::Value = serde_json::from_str(LUNA).unwrap();
    let soul = Soul::decode(&to_json(&json)).unwrap();
    assert_eq!(Soul::decode(&soul.encode()).unwrap(), soul);

    let mut with_extras = Soul::default();
    with_extras.voice = Some(Default::default());
    with_extras.relationship = Some(Default::default());
    with_extras.values = Some(vec![Default::default()]);
    with_extras.metadata = Some(vec![
        ("test".to_string(), text("value")),
        ("depth".to_string(), Json::List(vec![Json::Integer(1), Json::Null, Json::Bool(true)])),
    ]);
    assert_eq!(Soul::decode(&with_extras.encode()).unwrap(), with_extras);
}

#[test]
fn soul_builder_cannot_fail_and_has_no_id() {
    let soul = SoulBuilder::new().build();
    assert_eq!(soul.id, None);
    assert_eq!(soul.values, None);
    assert_eq!(soul.voice, None);
    assert_eq!(soul.relationship, None);
    assert_eq!(soul.metadata, None);
}

#[test]
fn soul_without_a_personality_is_refused_on_the_wire() {
    let doc = Json::Object(vec![
        ("version".to_string(), text("1.0")),
        ("entity".to_string(), Entity::default().encode()),
    ]);
    let violation = Soul::decode(&doc).unwrap_err();
    assert_eq!(violation.field, "personality");
    assert_eq!(violation.fault, Fault::Missing);
}

#[test]
fn soul_metadata_must_be_an_object() {
    let mut doc = match Soul::default().encode() {
        Json::Object(fields) => fields,
        _ => panic!("a soul is written as an object"),
    };
    doc.push(("metadata".to_string(), Json::Integer(1)));
    let violation = Soul::decode(&Json::Object(doc)).unwrap_err();
    assert_eq!(violation.field, "metadata");
    assert_eq!(violation.fault, Fault::Mistyped);
}

#[test]
fn soul_failure_in_words() {
    assert_eq!(CorruptSoul.to_string(), "personality is corrupted");
}
