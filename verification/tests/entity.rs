use soulgraph::entity::{Entity, EntityBuilder, EntityBuilderError};
use soulgraph::id::Id;
use soulgraph::json::Json;
use soulgraph::violation::Fault;
use soulgraph::wire::Record;

#[test]
fn test_entity_default() {
    let entity = Entity::default();
    assert_eq!(entity.form, "ai");
    assert_eq!(entity.occupation, "assistant");
    assert!(entity.gender.is_none());
    assert!(entity.age.is_none());
    assert!(entity.background.is_none());
    assert!(entity.expertise.is_none());
}

#[test]
fn test_entity_builder_minimal() {
    let entity = EntityBuilder::new()
        .form("human")
        .occupation("developer")
        .build()
        .unwrap();

    assert_eq!(entity.form, "human");
    assert_eq!(entity.occupation, "developer");
    assert!(entity.id.is_none());
    assert!(entity.gender.is_none());
    assert!(entity.age.is_none());
    assert!(entity.background.is_none());
    assert!(entity.expertise.is_none());
}

#[test]
fn test_entity_builder_missing_required_fields() {
    let result = EntityBuilder::new().build();
    assert!(result.is_err());
    assert_eq!(result.unwrap_err(), EntityBuilderError::MissingForm);

    let result = EntityBuilder::new().form("human").build();
    assert!(result.is_err());
    assert_eq!(result.unwrap_err(), EntityBuilderError::MissingOccupation);
}

#[test]
fn test_entity_builder_error_display() {
    assert_eq!(
        EntityBuilderError::MissingForm.to_string(),
        "form is required"
    );
    assert_eq!(
        EntityBuilderError::MissingOccupation.to_string(),
        "occupation is required"
    );
}

#[test]
fn test_entity_builder_with_string_types() {
    let entity = EntityBuilder::new()
        .form(&"human".to_string())
        .occupation(&"developer".to_string())
        .gender(&"non-binary".to_string())
        .build()
        .unwrap();

    assert_eq!(entity.form, "human");
    assert_eq!(entity.occupation, "developer");
    assert_eq!(entity.gender, Some("non-binary".to_string()));
}

#[test]
fn entity_missing_field_is_named() {
    let error = EntityBuilder::new().form("human").build().unwrap_err();
    assert_eq!(error, EntityBuilderError::MissingOccupation);
    assert_eq!(error.missing_field(), "occupation");
    assert_eq!(EntityBuilderError::MissingForm.missing_field(), "form");
}

#[test]
fn entity_builder_full_without_id() {
    let expertise = vec!["programming".to_string(), "rust".to_string()];

    let entity = EntityBuilder::new()
        .form("human")
        .occupation("developer")
        .gender("female")
        .age("30")
        .background("Computer Science graduate")
        .expertise(expertise.clone())
        .build()
        .unwrap();

    assert_eq!(entity.id, None);
    assert_eq!(entity.form, "human");
    assert_eq!(entity.occupation, "developer");
    assert_eq!(entity.gender, Some("female".to_string()));
    assert_eq!(entity.age, Some("30".to_string()));
    assert_eq!(
        entity.background,
        Some("Computer Science graduate".to_string())
    );
    assert_eq!(entity.expertise, Some(expertise));
}

#[test]
fn entity_absent_fields_leave_no_field_on_the_wire() {
    let written = Entity::default().encode();
    assert_eq!(
        written,
        Json::Object(vec![
            ("form".to_string(), Json::Text("ai".to_string())),
            ("occupation".to_string(), Json::Text("assistant".to_string())),
        ])
    );
    assert_eq!(Entity::decode(&written).unwrap(), Entity::default());
}

#[test]
fn entity_round_trips_with_every_field() {
    let mut entity = EntityBuilder::new()
        .form("human")
        .occupation("developer")
        .gender("female")
        .age("30")
        .background("Computer Science graduate")
        .expertise(vec!["programming".to_string(), "rust".to_string()])
        .build()
        .unwrap();
    entity.id = Some(Id::from_u128(0x67e55044_10b1_426f_9247_bb680e5fe0c8));
    assert_eq!(Entity::decode(&entity.encode()).unwrap(), entity);

    let violation = Entity::decode(&Json::Object(vec![(
        "form".to_string(),
        Json::Text("human".to_string()),
    )]))
    .unwrap_err();
    assert_eq!(violation.field, "occupation");
    assert_eq!(violation.fault, Fault::Missing);
}
