use sane_search::Field;
use sane_search::PreconditionKind;
use sane_search::SaneSchemaBuilder;
use sane_search::SaneSearch;
use sane_search::SearchError;

fn schema_with_title_and_category() -> (sane_search::SchemaHandle, Field, Field) {
    let mut builder = SaneSchemaBuilder::new();
    let title = builder
        .add_text_field("title", &vec!["TEXT".to_string(), "STORED".to_string()], None)
        .unwrap();
    let category = builder.add_facet_field("category").unwrap();
    (builder.build(), title, category)
}

fn session_at(dir: &tempfile::TempDir) -> (SaneSearch, Field) {
    let (schema, title, _category) = schema_with_title_and_category();
    let mut session = SaneSearch::new();
    session.set_schema(schema).unwrap();
    session
        .create_index(dir.path().to_str().unwrap())
        .unwrap();
    session.set_default_fields(vec![title]);
    (session, title)
}

#[test]
fn scenario_red_shoes_round_trip() {
    let dir = tempfile::tempdir().unwrap();
    let (mut session, _title) = session_at(&dir);
    session.create_index_writer(50_000_000).unwrap();
    session
        .add_doc(r#"{"title": "red shoes", "category": "/apparel/footwear"}"#)
        .unwrap();
    session.commit_index_writer().unwrap();
    let results = session.simple_search("red").unwrap();
    assert_eq!(results.len(), 1);
    assert!(results[0].contains("title"));
    assert!(results[0].contains("red shoes"));
}

#[test]
fn simple_search_needs_schema() {
    let session = SaneSearch::new();
    let r = session.simple_search("anything");
    assert!(matches!(
        r,
        Err(SearchError::Precondition(PreconditionKind::NoSchema))
    ));
}

#[test]
fn simple_search_needs_index() {
    let (schema, _title, _category) = schema_with_title_and_category();
    let mut session = SaneSearch::new();
    session.set_schema(schema).unwrap();
    let r = session.simple_search("anything");
    assert!(matches!(
        r,
        Err(SearchError::Precondition(PreconditionKind::NoIndex))
    ));
}

#[test]
fn simple_search_needs_default_fields() {
    let dir = tempfile::tempdir().unwrap();
    let (schema, _title, _category) = schema_with_title_and_category();
    let mut session = SaneSearch::new();
    session.set_schema(schema).unwrap();
    session
        .create_index(dir.path().to_str().unwrap())
        .unwrap();
    let r = session.simple_search("anything");
    assert!(matches!(
        r,
        Err(SearchError::Precondition(PreconditionKind::NoDefaultFields))
    ));
}

#[test]
fn simple_search_rejects_empty_default_fields() {
    let dir = tempfile::tempdir().unwrap();
    let (mut session, _title) = session_at(&dir);
    session.set_default_fields(vec![]);
    let r = session.simple_search("anything");
    assert!(matches!(
        r,
        Err(SearchError::Precondition(PreconditionKind::NoDefaultFields))
    ));
}

#[test]
fn malformed_query_is_parse_error() {
    let dir = tempfile::tempdir().unwrap();
    let (session, _title) = session_at(&dir);
    let r = session.simple_search("title:[unclosed TO");
    assert!(matches!(r, Err(SearchError::QueryParse(_))));
}

#[test]
fn writer_acquisition_is_idempotent() {
    let dir = tempfile::tempdir().unwrap();
    let (mut session, _title) = session_at(&dir);
    session.create_index_writer(50_000_000).unwrap();
    session
        .add_doc(r#"{"title": "buffered before the second acquisition"}"#)
        .unwrap();
    // Re-acquiring, even with another heap size, is a successful no-op and
    // must not discard the buffered document.
    session.create_index_writer(80_000_000).unwrap();
    assert!(session.has_writer());
    session.commit_index_writer().unwrap();
    let results = session.simple_search("buffered").unwrap();
    assert_eq!(results.len(), 1);
}

#[test]
fn create_writer_needs_index() {
    let mut session = SaneSearch::new();
    let r = session.create_index_writer(50_000_000);
    assert!(matches!(
        r,
        Err(SearchError::Precondition(PreconditionKind::NoIndex))
    ));
}

#[test]
fn add_doc_needs_writer() {
    let dir = tempfile::tempdir().unwrap();
    let (mut session, _title) = session_at(&dir);
    let r = session.add_doc(r#"{"title": "no writer yet"}"#);
    assert!(matches!(
        r,
        Err(SearchError::Precondition(PreconditionKind::NoWriter))
    ));
}

#[test]
fn nonconforming_document_is_validation_error() {
    let dir = tempfile::tempdir().unwrap();
    let (mut session, _title) = session_at(&dir);
    session.create_index_writer(50_000_000).unwrap();
    let r = session.add_doc("this is not a json object");
    assert!(matches!(r, Err(SearchError::DocumentValidation(_))));
    // A field the schema does not declare.
    let r = session.add_doc(r#"{"no_such_field": "value"}"#);
    assert!(matches!(r, Err(SearchError::DocumentValidation(_))));
    // A malformed value for a known field: a facet must be a path.
    let r = session.add_doc(r#"{"category": "missing the leading slash"}"#);
    assert!(matches!(r, Err(SearchError::DocumentValidation(_))));
    // The failed calls corrupt nothing: ingestion still works.
    session.add_doc(r#"{"title": "still fine"}"#).unwrap();
    session.commit_index_writer().unwrap();
    let results = session.simple_search("fine").unwrap();
    assert_eq!(results.len(), 1);
}

#[test]
fn commit_needs_writer() {
    let dir = tempfile::tempdir().unwrap();
    let (mut session, _title) = session_at(&dir);
    let r = session.commit_index_writer();
    assert!(matches!(
        r,
        Err(SearchError::Precondition(PreconditionKind::NoWriter))
    ));
}

#[test]
fn consume_writer_releases_it() {
    let dir = tempfile::tempdir().unwrap();
    let (mut session, _title) = session_at(&dir);
    session.create_index_writer(50_000_000).unwrap();
    assert!(session.has_writer());
    session.consume_writer().unwrap();
    assert!(!session.has_writer());
    let r = session.consume_writer();
    assert!(matches!(
        r,
        Err(SearchError::Precondition(PreconditionKind::NoWriter))
    ));
}

#[test]
fn simple_search_returns_at_most_ten_results() {
    let dir = tempfile::tempdir().unwrap();
    let (mut session, _title) = session_at(&dir);
    session.create_index_writer(50_000_000).unwrap();
    for i in 0..12 {
        session
            .add_doc(&format!(r#"{{"title": "common entry number {i}"}}"#))
            .unwrap();
    }
    session.commit_index_writer().unwrap();
    let results = session.simple_search("common").unwrap();
    assert_eq!(results.len(), 10);
}

#[test]
fn uncommitted_documents_stay_invisible() {
    let dir = tempfile::tempdir().unwrap();
    let (mut session, _title) = session_at(&dir);
    session.create_index_writer(50_000_000).unwrap();
    session.add_doc(r#"{"title": "shared word first"}"#).unwrap();
    session.commit_index_writer().unwrap();
    assert_eq!(session.simple_search("shared").unwrap().len(), 1);
    // Buffered but not yet committed: no snapshot may see it.
    session.add_doc(r#"{"title": "shared word second"}"#).unwrap();
    assert_eq!(session.simple_search("shared").unwrap().len(), 1);
    session.commit_index_writer().unwrap();
    assert_eq!(session.simple_search("shared").unwrap().len(), 2);
}

#[test]
fn open_index_recovers_field_set() {
    let dir = tempfile::tempdir().unwrap();
    {
        let (mut session, _title) = session_at(&dir);
        session.create_index_writer(50_000_000).unwrap();
        session
            .add_doc(r#"{"title": "persisted entry", "category": "/archive/old"}"#)
            .unwrap();
        session.commit_index_writer().unwrap();
        session.consume_writer().unwrap();
    }
    let mut reopened = SaneSearch::new();
    reopened
        .open_index(dir.path().to_str().unwrap())
        .unwrap();
    // The field set comes back from the index's own metadata: same names,
    // in the same order, hence the same ids.
    let names = reopened.schema_names().unwrap().clone();
    assert_eq!(names, vec!["title".to_string(), "category".to_string()]);
    reopened.set_default_fields(vec![Field { id: 0 }]);
    let results = reopened.simple_search("persisted").unwrap();
    assert_eq!(results.len(), 1);
    assert!(results[0].contains("persisted entry"));
}

#[test]
fn create_index_needs_schema() {
    let dir = tempfile::tempdir().unwrap();
    let mut session = SaneSearch::new();
    let r = session.create_index(dir.path().to_str().unwrap());
    assert!(matches!(
        r,
        Err(SearchError::Precondition(PreconditionKind::NoSchema))
    ));
}

#[test]
fn create_index_twice_at_same_path_is_storage_error() {
    let dir = tempfile::tempdir().unwrap();
    let (mut session, _title) = session_at(&dir);
    let r = session.create_index(dir.path().to_str().unwrap());
    assert!(matches!(r, Err(SearchError::Storage(_))));
}

#[test]
fn open_index_at_empty_path_is_storage_error() {
    let dir = tempfile::tempdir().unwrap();
    let mut session = SaneSearch::new();
    let r = session.open_index(dir.path().to_str().unwrap());
    assert!(matches!(r, Err(SearchError::Storage(_))));
}

#[test]
fn top_search_returns_scored_documents() {
    let dir = tempfile::tempdir().unwrap();
    let (mut session, _title) = session_at(&dir);
    session.create_index_writer(50_000_000).unwrap();
    session.add_doc(r#"{"title": "wind and rain"}"#).unwrap();
    session.add_doc(r#"{"title": "wind"}"#).unwrap();
    session.add_doc(r#"{"title": "sunshine"}"#).unwrap();
    session.commit_index_writer().unwrap();

    let query = session.parse_query("wind", &vec![Field { id: 0 }]).unwrap();
    let results = session
        .top_search(&query, tantivy::collector::TopDocs::with_limit(5))
        .unwrap();
    assert_eq!(results.len(), 2);
    // Scores travel as raw bit patterns of the engine's 32-bit floats;
    // decoded, they must be positive and ranked in descending order.
    let first = f32::from_bits(results[0].0);
    let second = f32::from_bits(results[1].0);
    assert!(first >= second);
    assert!(second > 0.0);
    assert!(results[0].1.contains("wind"));
}

#[test]
fn top_search_honors_the_collector_limit() {
    let dir = tempfile::tempdir().unwrap();
    let (mut session, _title) = session_at(&dir);
    session.create_index_writer(50_000_000).unwrap();
    for i in 0..6 {
        session
            .add_doc(&format!(r#"{{"title": "repeated term {i}"}}"#))
            .unwrap();
    }
    session.commit_index_writer().unwrap();
    let query = session.parse_query("repeated", &vec![Field { id: 0 }]).unwrap();
    let results = session
        .top_search(&query, tantivy::collector::TopDocs::with_limit(4))
        .unwrap();
    assert_eq!(results.len(), 4);
}

#[test]
fn top_search_needs_index() {
    let dir = tempfile::tempdir().unwrap();
    let (indexed, _title) = session_at(&dir);
    let query = indexed.parse_query("anything", &vec![Field { id: 0 }]).unwrap();
    let empty = SaneSearch::new();
    let r = empty.top_search(&query, tantivy::collector::TopDocs::with_limit(3));
    assert!(matches!(
        r,
        Err(SearchError::Precondition(PreconditionKind::NoIndex))
    ));
}

#[test]
fn top_search_needs_schema() {
    let dir = tempfile::tempdir().unwrap();
    let (schema, _title, _category) = schema_with_title_and_category();
    let mut session = SaneSearch::new();
    session.set_schema(schema).unwrap();
    session
        .create_index(dir.path().to_str().unwrap())
        .unwrap();
    // Hand the session a bare index without a schema.
    let mut bare = SaneSearch::new();
    let index = tantivy::Index::open_in_dir(dir.path()).unwrap();
    bare.set_index(index).unwrap();
    let query = bare.parse_query("anything", &vec![Field { id: 0 }]).unwrap();
    let r = bare.top_search(&query, tantivy::collector::TopDocs::with_limit(3));
    assert!(matches!(
        r,
        Err(SearchError::Precondition(PreconditionKind::NoSchema))
    ));
}

#[test]
fn custom_language_analyzer_is_registered_and_used() {
    let dir = tempfile::tempdir().unwrap();
    let mut builder = SaneSchemaBuilder::new();
    let inhalt = builder
        .add_text_field(
            "inhalt",
            &vec!["TEXT".to_string(), "STORED".to_string()],
            Some("de_stem"),
        )
        .unwrap();
    let mut session = SaneSearch::new();
    session.set_schema(builder.build()).unwrap();
    session.create_index(dir.path().to_str().unwrap()).unwrap();
    session.set_default_fields(vec![inhalt]);
    session.create_index_writer(50_000_000).unwrap();
    session.add_doc(r#"{"inhalt": "Hunde laufen"}"#).unwrap();
    session.commit_index_writer().unwrap();
    // The pipeline lowercases and stems German: the singular query matches
    // the ingested plural, which the built-in default tokenizer would not.
    let results = session.simple_search("hund").unwrap();
    assert_eq!(results.len(), 1);
    assert!(results[0].contains("Hunde laufen"));
}

#[test]
fn reopened_index_keeps_custom_analyzers() {
    let dir = tempfile::tempdir().unwrap();
    {
        let mut builder = SaneSchemaBuilder::new();
        let inhalt = builder
            .add_text_field(
                "inhalt",
                &vec!["TEXT".to_string(), "STORED".to_string()],
                Some("de_stem"),
            )
            .unwrap();
        let mut session = SaneSearch::new();
        session.set_schema(builder.build()).unwrap();
        session.create_index(dir.path().to_str().unwrap()).unwrap();
        session.set_default_fields(vec![inhalt]);
        session.create_index_writer(50_000_000).unwrap();
        session.add_doc(r#"{"inhalt": "Katzen schlafen"}"#).unwrap();
        session.commit_index_writer().unwrap();
        session.consume_writer().unwrap();
    }
    let mut reopened = SaneSearch::new();
    reopened.open_index(dir.path().to_str().unwrap()).unwrap();
    reopened.set_default_fields(vec![Field { id: 0 }]);
    let results = reopened.simple_search("katze").unwrap();
    assert_eq!(results.len(), 1);
}

#[test]
fn facet_value_without_leading_slash_is_validation_error() {
    let dir = tempfile::tempdir().unwrap();
    let (mut session, _title) = session_at(&dir);
    session.create_index_writer(50_000_000).unwrap();
    let r = session.add_doc(r#"{"title": "ok", "category": "apparel/footwear"}"#);
    assert!(matches!(r, Err(SearchError::DocumentValidation(_))));
    let r = session.add_doc(r#"{"title": "ok", "category": ["", "/fine"]}"#);
    assert!(matches!(r, Err(SearchError::DocumentValidation(_))));
    // A well-formed facet path still goes through.
    session
        .add_doc(r#"{"title": "ok", "category": "/apparel/footwear"}"#)
        .unwrap();
}

#[test]
fn out_of_range_default_field_is_configuration_error() {
    let dir = tempfile::tempdir().unwrap();
    let (mut session, _title) = session_at(&dir);
    session.set_default_fields(vec![Field { id: 999 }]);
    let r = session.simple_search("anything");
    assert!(matches!(r, Err(SearchError::Configuration(_))));
}

#[test]
fn parse_query_rejects_out_of_range_field() {
    let dir = tempfile::tempdir().unwrap();
    let (session, _title) = session_at(&dir);
    let r = session.parse_query("anything", &vec![Field { id: 999 }]);
    assert!(matches!(r, Err(SearchError::Configuration(_))));
    let r = SaneSearch::new().parse_query("anything", &vec![Field { id: 0 }]);
    assert!(matches!(
        r,
        Err(SearchError::Precondition(PreconditionKind::NoIndex))
    ));
}

#[test]
fn string_field_is_untokenized_and_exact() {
    let dir = tempfile::tempdir().unwrap();
    let mut builder = SaneSchemaBuilder::new();
    let sku = builder
        .add_text_field("sku", &vec!["STRING".to_string(), "STORED".to_string()], None)
        .unwrap();
    let mut session = SaneSearch::new();
    session.set_schema(builder.build()).unwrap();
    session.create_index(dir.path().to_str().unwrap()).unwrap();
    session.set_default_fields(vec![sku]);
    session.create_index_writer(50_000_000).unwrap();
    session.add_doc(r#"{"sku": "Red-Shoes"}"#).unwrap();
    session.commit_index_writer().unwrap();
    // The whole value is one term, case preserved: only the exact string
    // matches; a tokenized sub-word does not.
    let exact = session.simple_search("Red-Shoes").unwrap();
    assert_eq!(exact.len(), 1);
    assert!(exact[0].contains("Red-Shoes"));
    let partial = session.simple_search("red").unwrap();
    assert_eq!(partial.len(), 0);
}

#[test]
fn cross_session_query_is_refused_not_fatal() {
    let dir_a = tempfile::tempdir().unwrap();
    let dir_b = tempfile::tempdir().unwrap();
    // Session A: two fields; session B: one field.
    let mut builder_a = SaneSchemaBuilder::new();
    let title = builder_a
        .add_text_field("title", &vec!["TEXT".to_string(), "STORED".to_string()], None)
        .unwrap();
    builder_a
        .add_text_field("body", &vec!["TEXT".to_string()], None)
        .unwrap();
    let mut session_a = SaneSearch::new();
    session_a.set_schema(builder_a.build()).unwrap();
    session_a.create_index(dir_a.path().to_str().unwrap()).unwrap();

    let mut builder_b = SaneSchemaBuilder::new();
    builder_b
        .add_text_field("title", &vec!["TEXT".to_string(), "STORED".to_string()], None)
        .unwrap();
    let mut session_b = SaneSearch::new();
    session_b.set_schema(builder_b.build()).unwrap();
    session_b.create_index(dir_b.path().to_str().unwrap()).unwrap();

    // A query parsed over A's larger field set must be refused by B, not
    // run into the engine.
    let query = session_a
        .parse_query("anything", &vec![title, Field { id: 1 }])
        .unwrap();
    let collector = sane_search::top_docs_collector(3).unwrap();
    let r = session_b.top_search(&query, collector);
    assert!(matches!(r, Err(SearchError::Configuration(_))));
}

#[test]
fn mismatched_schema_or_index_is_refused() {
    let dir = tempfile::tempdir().unwrap();
    let (mut session, _title) = session_at(&dir);
    // A schema with a different field set cannot replace the one the held
    // index is bound to.
    let mut other = SaneSchemaBuilder::new();
    other
        .add_text_field("something_else", &vec!["TEXT".to_string()], None)
        .unwrap();
    let r = session.set_schema(other.build());
    assert!(matches!(r, Err(SearchError::Configuration(_))));
    // And a bare session still accepts any schema.
    let mut fresh = SaneSearch::new();
    let mut again = SaneSchemaBuilder::new();
    again
        .add_text_field("something_else", &vec!["TEXT".to_string()], None)
        .unwrap();
    fresh.set_schema(again.build()).unwrap();
}

#[test]
fn zero_limit_collector_is_refused() {
    let r = sane_search::top_docs_collector(0);
    assert!(matches!(r, Err(SearchError::Configuration(_))));
    assert!(sane_search::top_docs_collector(1).is_ok());
}
