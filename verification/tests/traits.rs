use soulgraph::json::Json;
use soulgraph::personality::traits::{Trait, TraitBuilder};
use soulgraph::scalar::Scalar;
use soulgraph::violation::Fault;
use soulgraph::wire::Record;

fn scalar(x: f32) -> Scalar {
    Scalar::from_bits(x.to_bits())
}

fn as_f32(s: Scalar) -> f32 {
    f32::from_bits(s.to_bits())
}

#[test]
fn test_trait_builder_default_values() {
    let trait_ = TraitBuilder::new("friendly").build();

    assert_eq!(trait_.trait_name, "friendly");
    assert_eq!(as_f32(trait_.strength), 0.5); // Check default strength
    assert!(trait_.expression_rules.is_none());
}

#[test]
fn test_trait_builder_with_strength() {
    let trait_ = TraitBuilder::new("intelligent").strength(scalar(0.8)).build();

    assert_eq!(trait_.trait_name, "intelligent");
    assert_eq!(as_f32(trait_.strength), 0.8);
    assert!(trait_.expression_rules.is_none());
}

#[test]
fn test_trait_builder_with_single_rule() {
    let trait_ = TraitBuilder::new("helpful")
        .add_expression_rule("always offers assistance")
        .build();

    assert_eq!(trait_.trait_name, "helpful");
    assert_eq!(as_f32(trait_.strength), 0.5);
    assert_eq!(
        trait_.expression_rules.unwrap(),
        vec!["always offers assistance"]
    );
}

#[test]
fn test_trait_builder_with_multiple_rules() {
    let trait_ = TraitBuilder::new("creative")
        .add_expression_rule("thinks outside the box")
        .add_expression_rule("provides unique solutions")
        .add_expression_rule("explores new possibilities")
        .build();

    let rules = trait_.expression_rules.unwrap();
    assert_eq!(rules.len(), 3);
    assert!(rules.contains(&"thinks outside the box".to_string()));
    assert!(rules.contains(&"provides unique solutions".to_string()));
    assert!(rules.contains(&"explores new possibilities".to_string()));
}

#[test]
fn test_trait_builder_full_configuration() {
    let trait_ = TraitBuilder::new("empathetic")
        .strength(scalar(0.9))
        .add_expression_rule("listens carefully")
        .add_expression_rule("shows understanding")
        .build();

    assert_eq!(trait_.trait_name, "empathetic");
    assert_eq!(as_f32(trait_.strength), 0.9);

    let rules = trait_.expression_rules.unwrap();
    assert_eq!(rules.len(), 2);
    assert_eq!(rules[0], "listens carefully");
    assert_eq!(rules[1], "shows understanding");
}

#[test]
fn test_trait_builder_method_chaining_order() {
    let trait1 = TraitBuilder::new("adaptable")
        .strength(scalar(0.7))
        .add_expression_rule("rule1")
        .build();

    let trait2 = TraitBuilder::new("adaptable")
        .add_expression_rule("rule1")
        .strength(scalar(0.7))
        .build();

    assert_eq!(trait1, trait2);
}

#[test]
fn trait_is_written_under_the_name_trait() {
    let written = TraitBuilder::new("kind").strength(scalar(0.25)).build().encode();
    assert_eq!(
        written,
        Json::Object(vec![
            ("trait".to_string(), Json::Text("kind".to_string())),
            ("strength".to_string(), Json::Real(scalar(0.25))),
        ])
    );
}

#[test]
fn trait_strength_has_no_limit_on_the_wire() {
    let doc = Json::Object(vec![
        ("trait".to_string(), Json::Text("loud".to_string())),
        ("strength".to_string(), Json::Real(scalar(7.5))),
    ]);
    let read = Trait::decode(&doc).unwrap();
    assert_eq!(as_f32(read.strength), 7.5);
    assert_eq!(read.id, None);
    assert_eq!(read.expression_rules, None);
}

#[test]
fn trait_strength_may_be_a_whole_number() {
    let doc = Json::Object(vec![
        ("trait".to_string(), Json::Text("loud".to_string())),
        ("strength".to_string(), Json::Integer(3)),
    ]);
    assert_eq!(as_f32(Trait::decode(&doc).unwrap().strength), 3.0);
}

#[test]
fn trait_without_a_name_is_refused() {
    let doc = Json::Object(vec![("strength".to_string(), Json::Real(scalar(0.5)))]);
    let violation = Trait::decode(&doc).unwrap_err();
    assert_eq!(violation.field, "trait");
    assert_eq!(violation.fault, Fault::Missing);
}

#[test]
fn trait_rules_must_be_texts() {
    let doc = Json::Object(vec![
        ("trait".to_string(), Json::Text("loud".to_string())),
        ("strength".to_string(), Json::Real(scalar(0.5))),
        ("expression_rules".to_string(), Json::List(vec![Json::Integer(1)])),
    ]);
    let violation = Trait::decode(&doc).unwrap_err();
    assert_eq!(violation.field, "expression_rules");
    assert_eq!(violation.fault, Fault::Mistyped);
}

#[test]
fn trait_round_trips() {
    let kept = TraitBuilder::new("empathetic")
        .strength(scalar(0.9))
        .add_expression_rule("listens carefully")
        .build();
    assert_eq!(Trait::decode(&kept.encode()).unwrap(), kept);
}
