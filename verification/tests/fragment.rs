use soulgraph::json::Json;
use soulgraph::memories::fragment::validate_emotional_valence;
use soulgraph::memories::fragment::validate_importance;
use soulgraph::memories::fragment::{Context, Fragment, FragmentBuilder, FragmentType};
use soulgraph::scalar::Scalar;
use soulgraph::violation::Fault;
use soulgraph::wire::Record;

fn scalar(x: f32) -> Scalar {
    Scalar::from_bits(x.to_bits())
}

fn as_f32(s: Scalar) -> f32 {
    f32::from_bits(s.to_bits())
}

fn text(s: &str) -> Json {
    Json::Text(s.to_string())
}

#[test]
fn test_fragment_type_default() {
    assert!(matches!(FragmentType::default(), FragmentType::Observation));
}

#[test]
fn test_context_default() {
    let context = Context::default();
    assert_eq!(context.topic, "general");
    assert_eq!(context.user_state, "neutral");
}

#[test]
fn test_fragment_default() {
    let fragment = Fragment::default();
    assert!(matches!(fragment.fragment_type, FragmentType::Observation));
    assert!(fragment.content.is_empty());
    assert!(fragment.timestamp > 0);
    assert_eq!(as_f32(fragment.importance), 0.0);
    assert_eq!(as_f32(fragment.emotional_valence), 0.0);
    assert_eq!(fragment.context.topic, "general");
    assert_eq!(fragment.context.user_state, "neutral");
}

#[test]
fn test_fragment_builder() {
    let fragment = FragmentBuilder::new(FragmentType::Reflection, "Test content".to_string())
        .importance(scalar(0.8))
        .emotional_valence(scalar(0.5))
        .context(Context {
            id: None,
            topic: "test".to_string(),
            user_state: "happy".to_string(),
        })
        .build();

    assert!(matches!(fragment.fragment_type, FragmentType::Reflection));
    assert_eq!(fragment.content, "Test content");
    assert!(fragment.timestamp > 0);
    assert_eq!(as_f32(fragment.importance), 0.8);
    assert_eq!(as_f32(fragment.emotional_valence), 0.5);
    assert_eq!(fragment.context.topic, "test");
    assert_eq!(fragment.context.user_state, "happy");
}

#[test]
fn test_fragment_serialization() {
    let fragment =
        FragmentBuilder::new(FragmentType::Observation, "Test observation".to_string())
            .importance(scalar(0.7))
            .build();

    let serialized = fragment.encode();
    let deserialized = Fragment::decode(&serialized).unwrap();

    assert!(matches!(
        deserialized.fragment_type,
        FragmentType::Observation
    ));
    assert_eq!(deserialized.content, "Test observation");
    assert_eq!(as_f32(deserialized.importance), 0.7);
}

#[test]
fn test_fragment_type_serde() {
    let json_obs = text("observation");
    let json_ref = text("reflection");

    let obs = FragmentType::decode(&json_obs).unwrap();
    let ref_type = FragmentType::decode(&json_ref).unwrap();

    assert!(matches!(obs, FragmentType::Observation));
    assert!(matches!(ref_type, FragmentType::Reflection));

    let serialized_obs = FragmentType::Observation.encode();
    let serialized_ref = FragmentType::Reflection.encode();

    assert_eq!(serialized_obs, text("observation"));
    assert_eq!(serialized_ref, text("reflection"));
}

#[test]
fn test_builder_default() {
    let builder = FragmentBuilder::default();
    let fragment = builder
        .fragment_type(FragmentType::Observation)
        .content("Default test".to_string())
        .build();

    assert!(matches!(fragment.fragment_type, FragmentType::Observation));
    assert_eq!(fragment.content, "Default test");
    assert_eq!(as_f32(fragment.importance), 0.0);
    assert_eq!(as_f32(fragment.emotional_valence), 0.0);
    assert_eq!(fragment.context.topic, "general");
}

#[test]
fn fragment_built_at_an_instant_carries_it() {
    let fragment = Fragment::builder().build_at(1_700_000_000_123);
    assert_eq!(fragment.timestamp, 1_700_000_000_123);
    assert_eq!(fragment.id, None);
    assert_eq!(fragment.context, Context::default());
    assert_eq!(Fragment::baseline_at(5).timestamp, 5);
}

#[test]
fn fragment_keeps_a_timestamp_that_was_set() {
    let fragment = Fragment::builder().timestamp(42).build();
    assert_eq!(fragment.timestamp, 42);
    let fragment = Fragment::builder().timestamp(42).build_at(1_000);
    assert_eq!(fragment.timestamp, 42);
}

#[test]
fn fragment_builder_does_not_limit_its_numbers() {
    let fragment = Fragment::builder()
        .importance(scalar(3.0))
        .emotional_valence(scalar(-2.0))
        .build_at(0);
    assert_eq!(as_f32(fragment.importance), 3.0);
    assert_eq!(as_f32(fragment.emotional_valence), -2.0);
    let violation = Fragment::decode(&fragment.encode()).unwrap_err();
    assert_eq!(violation.field, "importance");
}

#[test]
fn fragment_round_trips() {
    let kept = FragmentBuilder::new(FragmentType::Reflection, "thought".to_string())
        .importance(scalar(1.0))
        .emotional_valence(scalar(-1.0))
        .timestamp(1_700_000_000_000)
        .build();
    let written = kept.encode();
    assert_eq!(written.get("type"), Some(&text("reflection")));
    assert_eq!(written.get("timestamp"), Some(&Json::Integer(1_700_000_000_000)));
    assert!(written.get("id").is_none());
    assert_eq!(Fragment::decode(&written).unwrap(), kept);
}

#[test]
fn fragment_valence_out_of_range_is_refused() {
    let mut fragment = Fragment::baseline_at(0);
    fragment.emotional_valence = scalar(-1.5);
    let violation = Fragment::decode(&fragment.encode()).unwrap_err();
    assert_eq!(violation.field, "emotional_valence");
    assert_eq!(
        violation.fault,
        Fault::OutOfRange { lowest: scalar(-1.0), highest: scalar(1.0) }
    );
}

#[test]
fn fragment_timestamp_must_be_whole() {
    let mut fields = match Fragment::baseline_at(0).encode() {
        Json::Object(fields) => fields,
        _ => panic!("a fragment is written as an object"),
    };
    for field in fields.iter_mut() {
        if field.0 == "timestamp" {
            field.1 = Json::Real(scalar(1.5));
        }
    }
    let violation = Fragment::decode(&Json::Object(fields)).unwrap_err();
    assert_eq!(violation.field, "timestamp");
    assert_eq!(violation.fault, Fault::Mistyped);
}

#[test]
fn fragment_type_outside_the_two_tags_is_refused() {
    let violation = FragmentType::decode(&text("memory")).unwrap_err();
    assert_eq!(violation.field, "type");
    assert_eq!(violation.fault, Fault::UnknownTag);
    let violation = FragmentType::decode(&Json::Null).unwrap_err();
    assert_eq!(violation.fault, Fault::Mistyped);
}

#[test]
fn importance_validator_alone() {
    assert_eq!(validate_importance::serialize(scalar(0.3)), Json::Real(scalar(0.3)));
    assert_eq!(validate_importance::serialize(scalar(9.0)), Json::Real(scalar(9.0)));
    assert_eq!(
        as_f32(validate_importance::deserialize(&Json::Real(scalar(0.3))).unwrap()),
        0.3
    );
    assert_eq!(as_f32(validate_importance::deserialize(&Json::Integer(1)).unwrap()), 1.0);
    let violation = validate_importance::deserialize(&Json::Real(scalar(1.5))).unwrap_err();
    assert_eq!(violation.field, "importance");
    assert_eq!(
        violation.fault,
        Fault::OutOfRange { lowest: scalar(0.0), highest: scalar(1.0) }
    );
    let violation = validate_importance::deserialize(&text("high")).unwrap_err();
    assert_eq!(violation.fault, Fault::Mistyped);
}

#[test]
fn emotional_valence_validator_alone() {
    assert_eq!(
        validate_emotional_valence::serialize(scalar(-0.3)),
        Json::Real(scalar(-0.3))
    );
    for x in [-1.0f32, -0.5, 0.0, 1.0] {
        assert_eq!(
            as_f32(validate_emotional_valence::deserialize(&Json::Real(scalar(x))).unwrap()),
            x
        );
    }
    assert_eq!(
        as_f32(validate_emotional_valence::deserialize(&Json::Integer(-1)).unwrap()),
        -1.0
    );
    for x in [-1.0000001f32, 1.5, f32::NEG_INFINITY, f32::NAN] {
        let violation =
            validate_emotional_valence::deserialize(&Json::Real(scalar(x))).unwrap_err();
        assert_eq!(violation.field, "emotional_valence");
        assert_eq!(
            violation.fault,
            Fault::OutOfRange { lowest: scalar(-1.0), highest: scalar(1.0) }
        );
    }
}
