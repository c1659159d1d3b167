use soulgraph::id::Id;

#[test]
fn identifier_is_written_hyphenated_in_lower_case() {
    let id = Id::from_u128(0x550E8400_E29B_41D4_A716_446655440000);
    assert_eq!(id.to_text(), "550e8400-e29b-41d4-a716-446655440000");
    assert_eq!(Id::from_u128(0).to_text(), "00000000-0000-0000-0000-000000000000");
}

#[test]
fn identifier_text_is_that_of_the_uuid_crate() {
    for _ in 0..16 {
        let uuid = uuid::Uuid::new_v4();
        let id = Id::from_u128(uuid.as_u128());
        assert_eq!(id.to_text(), uuid.to_string());
        assert_eq!(Id::parse(&uuid.to_string()), Some(id));
        assert_eq!(id.as_u128(), uuid.as_u128());
    }
}

#[test]
fn identifier_is_read_from_every_form_the_crate_reads() {
    let id = Some(Id::from_u128(0x550e8400_e29b_41d4_a716_446655440000));
    assert_eq!(Id::parse("550e8400-e29b-41d4-a716-446655440000"), id);
    assert_eq!(Id::parse("550E8400-E29B-41D4-A716-446655440000"), id);
    assert_eq!(Id::parse("550e8400e29b41d4a716446655440000"), id);
    assert_eq!(Id::parse("{550e8400-e29b-41d4-a716-446655440000}"), id);
    assert_eq!(Id::parse("urn:uuid:550e8400-e29b-41d4-a716-446655440000"), id);
}

#[test]
fn what_spells_no_identifier_is_read_as_none() {
    for text in [
        "",
        "abc",
        "550e8400-e29b-41d4-a716-44665544000",
        "550e8400-e29b-41d4-a716-4466554400000",
        "550e8400-e29b-41d4-a716-44665544000g",
        "550e8400_e29b_41d4_a716_446655440000",
    ] {
        assert_eq!(Id::parse(text), None, "{text}");
    }
}

#[test]
fn identifier_round_trips_through_its_text() {
    for value in [0u128, 1, u128::MAX, 0x0123_4567_89ab_cdef_0123_4567_89ab_cdef] {
        let id = Id::from_u128(value);
        assert_eq!(Id::parse(&id.to_text()), Some(id));
    }
}
