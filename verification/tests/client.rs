use soulgraph::{format_url, Soulgraph, SoulgraphBuilder};

#[test]
fn test_builder_new() {
    let builder = SoulgraphBuilder::new();
    assert!(builder.key.is_none());
    assert!(builder.url.is_none());
}

#[test]
fn test_builder_with_api_key() {
    let builder = SoulgraphBuilder::new().api_key("test-key");
    assert_eq!(builder.key, Some("test-key".to_string()));
}

#[test]
fn test_builder_with_base_url() {
    let builder = SoulgraphBuilder::new().base_url("http://test.com");
    assert_eq!(builder.url, Some("http://test.com".to_string()));
}

#[test]
fn test_builder_complete() {
    let soulgraph = SoulgraphBuilder::new()
        .api_key("test-key")
        .base_url("http://test.com")
        .build();

    assert_eq!(soulgraph.base_url, "http://test.com");
}

#[test]
fn format_url_joins_base_and_endpoint() {
    assert_eq!(format_url("http://test.com", "/personality/abc"), "http://test.com/personality/abc");
    assert_eq!(Soulgraph::new("k", "http://h").base_url, "http://h");
}
