use sane_search::FieldCapabilities;
use sane_search::SaneSchemaBuilder;
use sane_search::SearchError;
use sane_search::options::parse_capabilities;

#[test]
fn field_ids_increase_from_zero() {
    let mut builder = SaneSchemaBuilder::new();
    let title = builder
        .add_text_field("title", &vec!["TEXT".to_string(), "STORED".to_string()], None)
        .unwrap();
    assert_eq!(title.id, 0);
    let category = builder.add_facet_field("category").unwrap();
    assert_eq!(category.id, 1);
    let body = builder
        .add_text_field("body", &vec!["TEXT".to_string()], Some("en_stem"))
        .unwrap();
    assert_eq!(body.id, 2);
}

#[test]
fn unknown_option_token_is_configuration_error() {
    let mut builder = SaneSchemaBuilder::new();
    let r = builder.add_text_field("title", &vec!["BOGUS".to_string()], None);
    assert!(matches!(r, Err(SearchError::Configuration(_))));
    // The failed call must not have mutated the schema under construction:
    // the next field still gets the first id.
    let body = builder
        .add_text_field("body", &vec!["TEXT".to_string()], None)
        .unwrap();
    assert_eq!(body.id, 0);
}

#[test]
fn duplicate_field_name_is_configuration_error() {
    let mut builder = SaneSchemaBuilder::new();
    builder
        .add_text_field("title", &vec!["TEXT".to_string()], None)
        .unwrap();
    let r = builder.add_text_field("title", &vec!["STORED".to_string()], None);
    assert!(matches!(r, Err(SearchError::Configuration(_))));
    let r = builder.add_facet_field("title");
    assert!(matches!(r, Err(SearchError::Configuration(_))));
}

#[test]
fn capability_union_ignores_token_order() {
    let forward = parse_capabilities(&vec!["TEXT".to_string(), "STORED".to_string()]).unwrap();
    let backward = parse_capabilities(&vec!["STORED".to_string(), "TEXT".to_string()]).unwrap();
    assert_eq!(forward, backward);
    assert_eq!(
        forward,
        FieldCapabilities { text: true, stored: true, string: false }
    );
}

#[test]
fn capability_union_of_no_tokens_is_empty() {
    let caps = parse_capabilities(&vec![]).unwrap();
    assert_eq!(
        caps,
        FieldCapabilities { text: false, stored: false, string: false }
    );
}

#[test]
fn repeated_tokens_parse_like_single_ones() {
    let doubled =
        parse_capabilities(&vec!["STRING".to_string(), "STRING".to_string()]).unwrap();
    let single = parse_capabilities(&vec!["STRING".to_string()]).unwrap();
    assert_eq!(doubled, single);
}

#[test]
fn built_schema_keeps_declaration_order() {
    let mut builder = SaneSchemaBuilder::new();
    builder
        .add_text_field("title", &vec!["TEXT".to_string(), "STORED".to_string()], None)
        .unwrap();
    builder.add_facet_field("category").unwrap();
    let handle = builder.build();
    assert_eq!(handle.names(), &vec!["title".to_string(), "category".to_string()]);
}
