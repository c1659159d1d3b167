use soulgraph::id::Id;
use soulgraph::json::Json;
use soulgraph::personality::value::{Value, ValueBuilder, ValueConflict};
use soulgraph::scalar::Scalar;
use soulgraph::violation::Fault;
use soulgraph::wire::Record;

fn scalar(x: f32) -> Scalar {
    Scalar::from_bits(x.to_bits())
}

fn as_f32(s: Scalar) -> f32 {
    f32::from_bits(s.to_bits())
}

fn to_json(value: &serde_json::Value) -> Json {
    match value {
        serde_json::Value::Null => Json::Null,
        serde_json::Value::Bool(b) => Json::Bool(*b),
        serde_json::Value::Number(n) => match n.as_i64() {
            Some(i) => Json::Integer(i),
            None => Json::Real(scalar(n.as_f64().unwrap() as f32)),
        },
        serde_json::Value::String(s) => Json::Text(s.clone()),
        serde_json::Value::Array(items) => Json::List(items.iter().map(to_json).collect()),
        serde_json::Value::Object(fields) => {
            Json::Object(fields.iter().map(|(k, v)| (k.clone(), to_json(v))).collect())
        }
    }
}

fn has_key(doc: &Json, key: &str) -> bool {
    doc.get(key).is_some()
}

#[test]
fn value_test_value_without_conflicts() {
    let value = Value {
        id: None,
        name: "courage".to_string(),
        importance: scalar(0.8),
        expression: "faces challenges".to_string(),
        conflicts: None,
    };

    let serialized = value.encode();
    assert!(matches!(serialized, Json::Object(_)));
    assert!(!has_key(&serialized, "conflicts"));
    assert!(!has_key(&serialized, "id"));
}

#[test]
fn value_test_value_deserialization() {
    let json: serde_json::Value = serde_json::from_str(
        r#"{
            "id": "550e8400-e29b-41d4-a716-446655440000",
            "name": "integrity",
            "importance": 0.95,
            "expression": "maintains principles",
            "conflicts": [{
                "id": "550e8400-e29b-41d4-a716-446655440001",
                "value": "loyalty",
                "resolution": "balance principles with loyalty"
            }]
        }"#,
    )
    .unwrap();

    let value = Value::decode(&to_json(&json)).unwrap();
    assert_eq!(value.name, "integrity");
    assert_eq!(as_f32(value.importance), 0.95);
    assert!(value.conflicts.is_some());
    assert!(value.id.is_some());
}

#[test]
fn test_value_builder() {
    let value = ValueBuilder::new()
        .name("honesty")
        .importance(scalar(0.9))
        .expression("always tells the truth")
        .build()
        .unwrap();

    assert_eq!(value.name, "honesty");
    assert_eq!(as_f32(value.importance), 0.9);
    assert_eq!(value.expression, "always tells the truth");
    assert!(value.conflicts.is_none());
    assert!(value.id.is_none());
}

#[test]
fn test_value_builder_clamps_importance() {
    let value = ValueBuilder::new()
        .name("test")
        .importance(scalar(1.5)) // Should be clamped to 1.0
        .expression("test")
        .build()
        .unwrap();

    assert_eq!(as_f32(value.importance), 1.0);

    let value = ValueBuilder::new()
        .name("test")
        .importance(scalar(-0.5)) // Should be clamped to 0.0
        .expression("test")
        .build()
        .unwrap();

    assert_eq!(as_f32(value.importance), 0.0);
}

#[test]
fn test_value_builder_validation() {
    let result = ValueBuilder::new().build();
    assert!(result.is_err());

    let result = ValueBuilder::new().name("test").build();
    assert!(result.is_err());

    let result = ValueBuilder::new().name("test").importance(scalar(0.5)).build();
    assert!(result.is_err());
}

#[test]
fn value_builder_names_the_missing_field() {
    assert_eq!(ValueBuilder::new().build().unwrap_err(), "name is required");
    assert_eq!(
        ValueBuilder::new().name("test").build().unwrap_err(),
        "importance is required"
    );
    assert_eq!(
        ValueBuilder::new().name("test").importance(scalar(0.5)).build().unwrap_err(),
        "expression is required"
    );
}

#[test]
fn value_builder_clamp_is_exactly_one() {
    let value = Value::builder()
        .name("test")
        .importance(scalar(1.5))
        .expression("test")
        .build()
        .unwrap();
    assert_eq!(value.importance.to_bits(), 1.0f32.to_bits());
}

#[test]
fn value_builder_keeps_what_is_in_range() {
    for x in [0.0f32, 0.25, 0.5, 1.0] {
        let value = Value::builder()
            .name("n")
            .importance(scalar(x))
            .expression("e")
            .build()
            .unwrap();
        assert_eq!(value.importance.to_bits(), x.to_bits());
    }
}

#[test]
fn value_default_is_of_middling_importance() {
    let value = Value::default();
    assert_eq!(value.id, None);
    assert_eq!(value.name, "");
    assert_eq!(as_f32(value.importance), 0.5);
    assert_eq!(value.expression, "");
    assert_eq!(value.conflicts, None);
}

#[test]
fn value_round_trips_when_in_range() {
    for x in [0.0f32, 0.1, 0.5, 0.95, 1.0] {
        let kept = Value {
            id: Some(Id::from_u128(0x550e8400_e29b_41d4_a716_446655440000)),
            name: "integrity".to_string(),
            importance: scalar(x),
            expression: "maintains principles".to_string(),
            conflicts: Some(vec![ValueConflict {
                id: None,
                value: "loyalty".to_string(),
                resolution: "balance".to_string(),
            }]),
        };
        assert_eq!(Value::decode(&kept.encode()).unwrap(), kept);
    }
}

#[test]
fn value_out_of_range_is_refused_not_clamped() {
    for x in [1.5f32, -0.5, 1.0000001, f32::INFINITY, f32::NAN] {
        let doc = Json::Object(vec![
            ("name".to_string(), Json::Text("n".to_string())),
            ("importance".to_string(), Json::Real(scalar(x))),
            ("expression".to_string(), Json::Text("e".to_string())),
        ]);
        let violation = Value::decode(&doc).unwrap_err();
        assert_eq!(violation.field, "importance");
        assert_eq!(
            violation.fault,
            Fault::OutOfRange { lowest: scalar(0.0), highest: scalar(1.0) }
        );
    }
}

#[test]
fn value_written_out_of_range_is_refused_when_read() {
    let held = Value {
        id: None,
        name: "n".to_string(),
        importance: scalar(1.5),
        expression: "e".to_string(),
        conflicts: None,
    };
    let written = held.encode();
    assert_eq!(written.get("importance"), Some(&Json::Real(scalar(1.5))));
    assert!(Value::decode(&written).is_err());
}

#[test]
fn value_importance_may_be_a_whole_number() {
    for (i, x) in [(0i64, 0.0f32), (1, 1.0)] {
        let doc = Json::Object(vec![
            ("name".to_string(), Json::Text("n".to_string())),
            ("importance".to_string(), Json::Integer(i)),
            ("expression".to_string(), Json::Text("e".to_string())),
        ]);
        assert_eq!(as_f32(Value::decode(&doc).unwrap().importance), x);
    }
    let doc = Json::Object(vec![
        ("name".to_string(), Json::Text("n".to_string())),
        ("importance".to_string(), Json::Integer(2)),
        ("expression".to_string(), Json::Text("e".to_string())),
    ]);
    assert!(Value::decode(&doc).is_err());
}

#[test]
fn value_with_a_malformed_id_is_refused() {
    let doc = Json::Object(vec![
        ("id".to_string(), Json::Text("not-a-uuid".to_string())),
        ("name".to_string(), Json::Text("n".to_string())),
        ("importance".to_string(), Json::Real(scalar(0.5))),
        ("expression".to_string(), Json::Text("e".to_string())),
    ]);
    let violation = Value::decode(&doc).unwrap_err();
    assert_eq!(violation.field, "id");
    assert_eq!(violation.fault, Fault::Mistyped);
}

#[test]
fn value_conflict_errors_come_through() {
    let doc = Json::Object(vec![
        ("name".to_string(), Json::Text("n".to_string())),
        ("importance".to_string(), Json::Real(scalar(0.5))),
        ("expression".to_string(), Json::Text("e".to_string())),
        (
            "conflicts".to_string(),
            Json::List(vec![Json::Object(vec![(
                "value".to_string(),
                Json::Text("loyalty".to_string()),
            )])]),
        ),
    ]);
    let violation = Value::decode(&doc).unwrap_err();
    assert_eq!(violation.field, "resolution");
    assert_eq!(violation.fault, Fault::Missing);
}

#[test]
fn value_null_is_read_as_absent() {
    let doc = Json::Object(vec![
        ("id".to_string(), Json::Null),
        ("name".to_string(), Json::Text("n".to_string())),
        ("importance".to_string(), Json::Real(scalar(0.5))),
        ("expression".to_string(), Json::Text("e".to_string())),
        ("conflicts".to_string(), Json::Null),
    ]);
    let value = Value::decode(&doc).unwrap();
    assert_eq!(value.id, None);
    assert_eq!(value.conflicts, None);
}
