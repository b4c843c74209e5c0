use vstd::prelude::*;

use crate::engine;
use crate::engine::WriteHandle;
use crate::errors::PreconditionKind;
use crate::errors::SearchError;
use crate::schema_builder::Field;
use crate::schema_builder::SchemaHandle;

verus! {

/// The mathematical state of a session: the engine index it holds (when
/// one was created or opened), the field-name view and engine value of its
/// schema (when one is set), whether the single write session is held, and
/// the ids of the configured default search fields.
pub ghost struct SessionView {
    pub index: Option<tantivy::Index>,
    pub schema: Option<Seq<Seq<char>>>,
    pub schema_engine: Option<tantivy::schema::Schema>,
    pub has_writer: bool,
    pub default_fields: Option<Seq<u32>>,
}

/// Every id designates a field of a schema with `field_count` fields.
pub open spec fn ids_in_range(ids: Seq<u32>, field_count: int) -> bool {
    forall|j: int| 0 <= j < ids.len() ==> ids[j] < field_count
}

impl SessionView {
    /// A schema is set.
    pub open spec fn has_schema(self) -> bool {
        self.schema is Some
    }

    /// An index has been created or opened.
    pub open spec fn has_index(self) -> bool {
        self.index is Some
    }

    /// The field names of the schema the held index is bound to.
    pub open spec fn index_fields(self) -> Option<Seq<Seq<char>>> {
        match self.index {
            Some(i) => Some(engine::index_field_names(i)),
            None => None,
        }
    }

    /// A non-empty set of default search fields is configured.
    pub open spec fn has_nonempty_default_fields(self) -> bool {
        match self.default_fields {
            Some(df) => df.len() > 0,
            None => false,
        }
    }

    /// Every configured default field id designates a field of the held
    /// index's schema.
    pub open spec fn default_ids_in_range(self) -> bool {
        if self.default_fields is Some && self.index is Some {
            ids_in_range(
                self.default_fields.unwrap(),
                engine::index_field_names(self.index.unwrap()).len() as int,
            )
        } else {
            true
        }
    }
}

/// The engine accepts the document text against the schema: every
/// top-level key names a schema field (the engine itself silently skips
/// unknown keys, so the library checks them), every facet-destined string
/// is a valid facet path (the engine aborts on others), and the engine's
/// own parse succeeds.
pub open spec fn document_accepted(s: tantivy::schema::Schema, json: Seq<char>) -> bool {
    &&& engine::document_fields_known(s, json)
    &&& engine::facet_values_ok(s, json)
    &&& engine::doc_parse_ok(s, json)
}

/// The documents handed back by the simple search path are exactly the
/// serializations, under the index's own schema, of the documents standing
/// at the ranked hits of some snapshot for the parsed query.
pub open spec fn simple_results_match(
    v: SessionView,
    text: Seq<char>,
    snap: tantivy::Searcher,
    docs: Seq<String>,
) -> bool {
    let q = engine::parsed_query_of(
        engine::parser_of(v.index.unwrap(), v.default_fields.unwrap()),
        text,
    );
    let hits = engine::search_hits(snap, q, 10);
    &&& docs.len() == hits.len()
    &&& forall|j: int|
        0 <= j < hits.len() ==> #[trigger] docs[j]@ == engine::doc_json_of(
            engine::searcher_doc(snap, hits[j]),
            engine::index_schema_of(v.index.unwrap()),
        )
}

/// The scored documents handed back by the generic search path are exactly
/// the scored hits of some snapshot for the caller's query and collector,
/// each address replaced by the serialization, under the index's own
/// schema, of its stored document.
pub open spec fn top_results_match(
    q: engine::RawQuery,
    c: tantivy::collector::TopDocs,
    i: tantivy::Index,
    snap: tantivy::Searcher,
    results: Seq<(u32, String)>,
) -> bool {
    let hits = engine::scored_hits(snap, q, c);
    &&& results.len() == hits.len()
    &&& forall|j: int|
        0 <= j < hits.len() ==> (#[trigger] results[j]).0 == hits[j].0 && results[j].1@
            == engine::doc_json_of(
            engine::searcher_doc(snap, hits[j].1),
            engine::index_schema_of(i),
        )
}

/// A parsed query predicate, bound to the field set of the index it was
/// parsed against.
///
/// It is built only by [`SaneSearch::parse_query`].  Its view is that
/// field set; a search checks it against the searched index's own field
/// set and refuses the query on a mismatch, since the engine aborts on a
/// query naming a field the searched index lacks.
pub struct PreparedQuery {
    raw: engine::RawQuery,
    index_fields: Vec<String>,
}

impl View for PreparedQuery {
    type V = Seq<Seq<char>>;

    closed spec fn view(&self) -> Seq<Seq<char>> {
        self.index_fields.deep_view()
    }
}

impl PreparedQuery {
    #[verifier::type_invariant]
    spec fn inv(self) -> bool {
        self.index_fields.deep_view() == engine::query_field_names(self.raw)
    }

    /// The engine predicate this query holds.
    pub closed spec fn spec_raw(&self) -> engine::RawQuery {
        self.raw
    }
}

/// Builds a ranking collector keeping the best `limit` documents by
/// score, for the generic search path.  A zero limit is refused, as the
/// engine aborts on it.
pub fn top_docs_collector(limit: usize) -> (r: Result<tantivy::collector::TopDocs, SearchError>)
    ensures
        r is Ok <==> limit >= 1,
        r matches Ok(c) ==> engine::top_docs_limit(c) == limit,
        r matches Err(e) ==> e is Configuration,
{
    if limit == 0 {
        return Err(SearchError::Configuration("the result limit must be at least one".to_owned()));
    }
    Ok(engine::top_docs_with_limit(limit))
}

/// Whether two name lists hold the same names in the same order.
fn vec_string_eq(a: &Vec<String>, b: &Vec<String>) -> (r: bool)
    ensures
        r == (a.deep_view() == b.deep_view()),
{
    if a.len() != b.len() {
        proof {
            assert(a.deep_view().len() != b.deep_view().len());
        }
        return false;
    }
    let mut i: usize = 0;
    while i < a.len()
        invariant
            0 <= i <= a@.len(),
            a@.len() == b@.len(),
            forall|j: int| 0 <= j < i ==> #[trigger] a.deep_view()[j] == b.deep_view()[j],
        decreases a@.len() - i,
    {
        if !(a[i] == b[i]) {
            proof {
                assert(a.deep_view()[i as int] != b.deep_view()[i as int]);
            }
            return false;
        }
        i = i + 1;
    }
    proof {
        assert(a.deep_view() =~= b.deep_view());
    }
    true
}

/// A search session: owns the index, the optional write session and the
/// default query fields, and exposes index lifecycle, document ingestion,
/// tokenizer registration and query execution.
///
/// Operations that need prior state (a schema, an index, a writer, default
/// fields) report a [`SearchError::Precondition`] when it is missing; none
/// of them aborts.  A held writer always belongs to a held index, and a
/// schema and an index held together always agree on their field set: the
/// setters refuse combinations that would break that.
pub struct SaneSearch {
    index: Option<tantivy::Index>,
    schema: Option<SchemaHandle>,
    index_writer: Option<WriteHandle>,
    default_search_fields: Option<Vec<Field>>,
}

impl View for SaneSearch {
    type V = SessionView;

    closed spec fn view(&self) -> SessionView {
        SessionView {
            index: self.index,
            schema: match self.schema {
                Some(h) => Some(h@),
                None => None,
            },
            schema_engine: match self.schema {
                Some(h) => Some(h.spec_engine()),
                None => None,
            },
            has_writer: self.index_writer is Some,
            default_fields: match self.default_search_fields {
                Some(fields) => Some(fields@.map_values(|f: Field| f.id)),
                None => None,
            },
        }
    }
}

/// Whether the string is a facet path the engine accepts: non-empty and
/// starting with a slash.
fn valid_facet_value(v: &String) -> (r: bool)
    ensures
        r == engine::valid_facet_path(v@),
{
    broadcast use vstd::string::axiom_spec_iter, vstd::string::next_postcondition;

    let mut it = v.as_str().chars();
    match it.next() {
        Some(c) => c == '/',
        None => false,
    }
}

/// Whether every string of the row is a valid facet path.
fn row_values_valid(values: &Vec<String>) -> (r: bool)
    ensures
        r <==> (forall|k: int|
            0 <= k < values.deep_view().len() ==> engine::valid_facet_path(
                #[trigger] values.deep_view()[k],
            )),
{
    let mut k: usize = 0;
    while k < values.len()
        invariant
            0 <= k <= values@.len(),
            forall|kk: int|
                0 <= kk < k ==> engine::valid_facet_path(#[trigger] values.deep_view()[kk]),
        decreases values@.len() - k,
    {
        if !valid_facet_value(&values[k]) {
            assert(!engine::valid_facet_path(values.deep_view()[k as int]));
            return false;
        }
        k = k + 1;
    }
    true
}

/// Whether every top-level key of the parsed document names a schema
/// field.
fn all_fields_known(schema: &SchemaHandle, pairs: &Vec<(String, Vec<String>)>) -> (r: bool)
    ensures
        r <==> (forall|a: int|
            0 <= a < pairs.deep_view().len() ==> engine::schema_field_names(
                schema.spec_engine(),
            ).contains(#[trigger] pairs.deep_view()[a].0)),
{
    let mut i: usize = 0;
    while i < pairs.len()
        invariant
            0 <= i <= pairs@.len(),
            forall|a: int|
                0 <= a < i ==> engine::schema_field_names(schema.spec_engine()).contains(
                    #[trigger] pairs.deep_view()[a].0,
                ),
        decreases pairs@.len() - i,
    {
        proof {
            assert(pairs.deep_view()[i as int].0 == pairs@[i as int].0@);
        }
        if !schema.contains_name(&pairs[i].0) {
            assert(!engine::schema_field_names(schema.spec_engine()).contains(
                pairs.deep_view()[i as int].0,
            ));
            return false;
        }
        assert(engine::schema_field_names(schema.spec_engine()).contains(
            pairs.deep_view()[i as int].0,
        ));
        i = i + 1;
    }
    true
}

/// Whether every string the document supplies for a facet field is a valid
/// facet path.
fn all_facet_values_valid(schema: &SchemaHandle, pairs: &Vec<(String, Vec<String>)>) -> (r: bool)
    ensures
        r <==> (forall|a: int, k: int|
            0 <= a < pairs.deep_view().len() && 0 <= k < pairs.deep_view()[a].1.len()
                && engine::schema_facet_names(schema.spec_engine()).contains(
                pairs.deep_view()[a].0,
            ) ==> engine::valid_facet_path(#[trigger] pairs.deep_view()[a].1[k])),
{
    let mut i: usize = 0;
    while i < pairs.len()
        invariant
            0 <= i <= pairs@.len(),
            forall|a: int, k: int|
                0 <= a < i && 0 <= k < pairs.deep_view()[a].1.len()
                    && engine::schema_facet_names(schema.spec_engine()).contains(
                    pairs.deep_view()[a].0,
                ) ==> engine::valid_facet_path(#[trigger] pairs.deep_view()[a].1[k]),
        decreases pairs@.len() - i,
    {
        proof {
            assert(pairs.deep_view()[i as int].0 == pairs@[i as int].0@);
            assert(pairs.deep_view()[i as int].1 == pairs@[i as int].1.deep_view());
        }
        if schema.is_facet_field(&pairs[i].0) {
            if !row_values_valid(&pairs[i].1) {
                proof {
                    let kk = choose|kk: int|
                        0 <= kk < pairs[i as int].1.deep_view().len() && !engine::valid_facet_path(
                            pairs[i as int].1.deep_view()[kk],
                        );
                    assert(pairs.deep_view()[i as int].1 == pairs[i as int].1.deep_view());
                    assert(!engine::valid_facet_path(pairs.deep_view()[i as int].1[kk]));
                }
                return false;
            }
        }
        i = i + 1;
    }
    true
}

impl SaneSearch {
    /// A held writer always belongs to a held index, and a schema and an
    /// index held together agree on their field set.
    #[verifier::type_invariant]
    spec fn inv(self) -> bool {
        &&& (self.index_writer is Some ==> self.index is Some)
        &&& (self.schema is Some && self.index is Some ==> self.schema.unwrap()@
            == engine::index_field_names(self.index.unwrap()))
    }

    /// A fresh session: no schema, no index, no writer, no default fields.
    pub fn new() -> (s: SaneSearch)
        ensures
            s@.schema is None,
            s@.index is None,
            !s@.has_writer,
            s@.default_fields is None,
    {
        SaneSearch { index: None, schema: None, index_writer: None, default_search_fields: None }
    }

    /// The field names of the held index, as a list.
    fn index_name_list(index: &tantivy::Index) -> (r: Vec<String>)
        ensures
            r.deep_view() == engine::index_field_names(*index),
    {
        let index_schema = engine::index_schema(index);
        engine::schema_field_name_list(&index_schema)
    }

    /// Sets the schema the session will create its index with.  When an
    /// index is already held, a schema whose field set differs from the
    /// index's is refused, so the two can never disagree.
    pub fn set_schema(&mut self, schema: SchemaHandle) -> (r: Result<(), SearchError>)
        ensures
            r is Ok <==> (old(self)@.index is None || Some(schema@) == old(self)@.index_fields()),
            match r {
                Ok(()) => {
                    &&& final(self)@.schema == Some(schema@)
                    &&& final(self)@.schema_engine == Some(schema.spec_engine())
                    &&& final(self)@.index == old(self)@.index
                    &&& final(self)@.has_writer == old(self)@.has_writer
                    &&& final(self)@.default_fields == old(self)@.default_fields
                },
                Err(e) => {
                    &&& *final(self) == *old(self)
                    &&& e is Configuration
                },
            },
    {
        proof {
            use_type_invariant(&*self);
        }
        match &self.index {
            Some(i) => {
                let index_names = Self::index_name_list(i);
                if !vec_string_eq(schema.names(), &index_names) {
                    return Err(
                        SearchError::Configuration(
                            "the schema does not match the field set of the held index".to_owned(),
                        ),
                    );
                }
            },
            None => {},
        }
        self.schema = Some(schema);
        Ok(())
    }

    /// Hands the session an already-built engine index.  When a schema is
    /// already set, an index whose field set differs from the schema's is
    /// refused.
    pub fn set_index(&mut self, index: tantivy::Index) -> (r: Result<(), SearchError>)
        ensures
            r is Ok <==> (old(self)@.schema is None || old(self)@.schema == Some(
                engine::index_field_names(index),
            )),
            match r {
                Ok(()) => {
                    &&& final(self)@.index == Some(index)
                    &&& final(self)@.schema == old(self)@.schema
                    &&& final(self)@.schema_engine == old(self)@.schema_engine
                    &&& final(self)@.has_writer == old(self)@.has_writer
                    &&& final(self)@.default_fields == old(self)@.default_fields
                },
                Err(e) => {
                    &&& *final(self) == *old(self)
                    &&& e is Configuration
                },
            },
    {
        proof {
            use_type_invariant(&*self);
        }
        match &self.schema {
            Some(h) => {
                let index_names = Self::index_name_list(&index);
                if !vec_string_eq(h.names(), &index_names) {
                    return Err(
                        SearchError::Configuration(
                            "the index does not match the field set of the set schema".to_owned(),
                        ),
                    );
                }
            },
            None => {},
        }
        self.index = Some(index);
        Ok(())
    }

    /// Configures the fields the simple query path searches by default.
    pub fn set_default_fields(&mut self, fields: Vec<Field>)
        ensures
            final(self)@.default_fields == Some(fields@.map_values(|f: Field| f.id)),
            final(self)@.schema == old(self)@.schema,
            final(self)@.schema_engine == old(self)@.schema_engine,
            final(self)@.index == old(self)@.index,
            final(self)@.has_writer == old(self)@.has_writer,
    {
        proof {
            use_type_invariant(&*self);
        }
        self.default_search_fields = Some(fields);
    }

    /// Registers the three custom per-language analyzers (`de_stem`,
    /// `es_stem`, `fr_stem`) on the index: simple tokenization, a
    /// 40-character token length cap, lowercasing, then language-specific
    /// stemming.  Registration is idempotent per index object.
    fn register_custom_text_analyzers(index: &tantivy::Index) {
        let de_stem = engine::stem_analyzer_de();
        engine::register_analyzer(index, "de_stem", de_stem);
        let es_stem = engine::stem_analyzer_es();
        engine::register_analyzer(index, "es_stem", es_stem);
        let fr_stem = engine::stem_analyzer_fr();
        engine::register_analyzer(index, "fr_stem", fr_stem);
    }

    /// Creates a new persisted index at `path`, bound to the session's
    /// schema, and registers the custom analyzers on it.
    ///
    /// Without a schema this is a precondition violation; an engine failure
    /// (the directory already holds an index, cannot be written, ...) is a
    /// storage error.  On failure the session is unchanged.
    pub fn create_index(&mut self, path: &str) -> (r: Result<(), SearchError>)
        ensures
            match r {
                Ok(()) => {
                    &&& old(self)@.schema is Some
                    &&& final(self)@.index_fields() == old(self)@.schema
                    &&& final(self)@.schema == old(self)@.schema
                    &&& final(self)@.schema_engine == old(self)@.schema_engine
                    &&& final(self)@.has_writer == old(self)@.has_writer
                    &&& final(self)@.default_fields == old(self)@.default_fields
                },
                Err(e) => {
                    &&& *final(self) == *old(self)
                    &&& (e is Precondition <==> old(self)@.schema is None)
                    &&& (old(self)@.schema is None ==> e matches SearchError::Precondition(
                        PreconditionKind::NoSchema,
                    ))
                    &&& (e is Precondition || e is Storage)
                },
            },
            old(self)@.schema is None ==> r is Err,
    {
        proof {
            use_type_invariant(&*self);
        }
        let schema = match &self.schema {
            Some(h) => h,
            None => {
                return Err(SearchError::Precondition(PreconditionKind::NoSchema));
            },
        };
        match engine::index_create_in_dir(path, schema.engine_schema()) {
            Ok(index) => {
                Self::register_custom_text_analyzers(&index);
                self.index = Some(index);
                Ok(())
            },
            Err(e) => Err(SearchError::Storage(engine::storage_error_message(&e))),
        }
    }

    /// Opens the index persisted at `path`, recovers its schema from the
    /// index's own stored metadata (any schema already set on the session
    /// is discarded), and registers the custom analyzers on it.
    ///
    /// A path that does not hold a valid index is a storage error; the
    /// session is then unchanged.
    pub fn open_index(&mut self, path: &str) -> (r: Result<(), SearchError>)
        ensures
            match r {
                Ok(()) => {
                    &&& final(self)@.index_fields() is Some
                    &&& final(self)@.schema == final(self)@.index_fields()
                    &&& final(self)@.has_writer == old(self)@.has_writer
                    &&& final(self)@.default_fields == old(self)@.default_fields
                },
                Err(e) => {
                    &&& *final(self) == *old(self)
                    &&& e is Storage
                },
            },
    {
        proof {
            use_type_invariant(&*self);
        }
        match engine::index_open_in_dir(path) {
            Ok(index) => {
                Self::register_custom_text_analyzers(&index);
                let engine_schema = engine::index_schema(&index);
                self.schema = None;
                self.index = Some(index);
                self.schema = Some(SchemaHandle::from_engine(engine_schema));
                Ok(())
            },
            Err(e) => Err(SearchError::Storage(engine::storage_error_message(&e))),
        }
    }

    /// Acquires the single write session, bounded to `heap_size` bytes of
    /// buffering.
    ///
    /// Acquisition is idempotent: when a writer is already held the call
    /// succeeds, changes nothing, and in particular discards no buffered
    /// document.  Without an index this is a precondition violation; an
    /// engine refusal (a memory budget out of range, a held lock) is a
    /// storage error.
    pub fn create_index_writer(&mut self, heap_size: usize) -> (r: Result<(), SearchError>)
        ensures
            old(self)@.has_writer ==> r is Ok && *final(self) == *old(self),
            match r {
                Ok(()) => {
                    &&& old(self)@.index is Some
                    &&& final(self)@.has_writer
                    &&& final(self)@.index == old(self)@.index
                    &&& final(self)@.schema == old(self)@.schema
                    &&& final(self)@.schema_engine == old(self)@.schema_engine
                    &&& final(self)@.default_fields == old(self)@.default_fields
                },
                Err(e) => {
                    &&& *final(self) == *old(self)
                    &&& (e is Precondition <==> old(self)@.index is None)
                    &&& (old(self)@.index is None ==> e matches SearchError::Precondition(
                        PreconditionKind::NoIndex,
                    ))
                    &&& (e is Precondition || e is Storage)
                },
            },
            old(self)@.index is None ==> r is Err,
    {
        proof {
            use_type_invariant(&*self);
        }
        let index = match &self.index {
            Some(i) => i,
            None => {
                return Err(SearchError::Precondition(PreconditionKind::NoIndex));
            },
        };
        if self.index_writer.is_some() {
            return Ok(());
        }
        match engine::index_writer(index, heap_size) {
            Ok(writer) => {
                self.index_writer = Some(writer);
                Ok(())
            },
            Err(e) => Err(SearchError::Storage(engine::storage_error_message(&e))),
        }
    }

    /// Parses a JSON document against the session's schema and buffers it
    /// in the active writer; it becomes visible only after a commit.
    ///
    /// Without a writer, or without a schema, this is a precondition
    /// violation.  A document that does not conform to the schema — a key
    /// naming no schema field, a facet value that is not a path, or
    /// anything the engine's own parse rejects — is a validation error,
    /// exactly then.  No outcome corrupts or discards the documents
    /// already buffered.
    pub fn add_doc(&mut self, json: &str) -> (r: Result<(), SearchError>)
        ensures
            *final(self) == *old(self),
            match r {
                Ok(()) => {
                    &&& old(self)@.has_writer && old(self)@.schema is Some
                    &&& document_accepted(old(self)@.schema_engine.unwrap(), json@)
                },
                Err(e) => {
                    &&& (!old(self)@.has_writer ==> e matches SearchError::Precondition(
                        PreconditionKind::NoWriter,
                    ))
                    &&& (old(self)@.has_writer && old(self)@.schema is None
                        ==> e matches SearchError::Precondition(PreconditionKind::NoSchema))
                    &&& (old(self)@.has_writer && old(self)@.schema is Some ==> {
                        &&& (e is DocumentValidation <==> !document_accepted(
                            old(self)@.schema_engine.unwrap(),
                            json@,
                        ))
                        &&& (e is DocumentValidation || e is Storage)
                    })
                },
            },
            !old(self)@.has_writer || old(self)@.schema is None ==> r is Err,
    {
        let writer = match &self.index_writer {
            Some(w) => w,
            None => {
                return Err(SearchError::Precondition(PreconditionKind::NoWriter));
            },
        };
        let schema = match &self.schema {
            Some(h) => h,
            None => {
                return Err(SearchError::Precondition(PreconditionKind::NoSchema));
            },
        };
        match engine::json_object_string_values(json) {
            Some(pairs) => {
                proof {
                    assert(old(self)@.schema_engine == Some(schema.spec_engine()));
                    assert(engine::json_string_fields(json@) == Some(pairs.deep_view()));
                }
                if !all_fields_known(schema, &pairs) {
                    proof {
                        let aa = choose|aa: int|
                            0 <= aa < pairs.deep_view().len() && !engine::schema_field_names(
                                schema.spec_engine(),
                            ).contains(pairs.deep_view()[aa].0);
                        assert(engine::json_string_fields(json@).unwrap()[aa]
                            == pairs.deep_view()[aa]);
                        assert(!engine::document_fields_known(schema.spec_engine(), json@));
                    }
                    return Err(
                        SearchError::DocumentValidation(
                            "a document field does not exist in the schema".to_owned(),
                        ),
                    );
                }
                if !all_facet_values_valid(schema, &pairs) {
                    proof {
                        let (aa, kk) = choose|aa: int, kk: int|
                            0 <= aa < pairs.deep_view().len() && 0 <= kk
                                < pairs.deep_view()[aa].1.len() && engine::schema_facet_names(
                                schema.spec_engine(),
                            ).contains(pairs.deep_view()[aa].0) && !engine::valid_facet_path(
                                pairs.deep_view()[aa].1[kk],
                            );
                        assert(engine::json_string_fields(json@).unwrap()[aa]
                            == pairs.deep_view()[aa]);
                        assert(!engine::facet_values_ok(schema.spec_engine(), json@));
                    }
                    return Err(
                        SearchError::DocumentValidation(
                            "a facet value must be a path starting with a slash".to_owned(),
                        ),
                    );
                }
            },
            None => {},
        }
        let doc = match engine::parse_document(schema.engine_schema(), json) {
            Ok(d) => d,
            Err(e) => {
                return Err(SearchError::DocumentValidation(engine::doc_error_message(&e)));
            },
        };
        match engine::writer_add_document(writer, doc) {
            Ok(_stamp) => Ok(()),
            Err(e) => Err(SearchError::Storage(engine::storage_error_message(&e))),
        }
    }

    /// Flushes every buffered document durably to the index, making them
    /// visible to search snapshots acquired afterwards.  May be called
    /// repeatedly over the writer's life.
    ///
    /// Without a writer this is a precondition violation; an engine failure
    /// is a storage error and leaves the session object valid.
    pub fn commit_index_writer(&mut self) -> (r: Result<(), SearchError>)
        ensures
            final(self)@ == old(self)@,
            match r {
                Ok(()) => old(self)@.has_writer,
                Err(e) => {
                    &&& (e is Precondition <==> !old(self)@.has_writer)
                    &&& (!old(self)@.has_writer ==> (e matches SearchError::Precondition(
                        PreconditionKind::NoWriter,
                    )) && *final(self) == *old(self))
                    &&& (e is Precondition || e is Storage)
                },
            },
            !old(self)@.has_writer ==> r is Err,
    {
        proof {
            use_type_invariant(&*self);
        }
        let mut held: Option<WriteHandle> = None;
        std::mem::swap(&mut held, &mut self.index_writer);
        match held {
            Some(mut writer) => {
                let res = engine::writer_commit(&mut writer);
                self.index_writer = Some(writer);
                match res {
                    Ok(_stamp) => Ok(()),
                    Err(e) => Err(SearchError::Storage(engine::storage_error_message(&e))),
                }
            },
            None => Err(SearchError::Precondition(PreconditionKind::NoWriter)),
        }
    }

    /// Detaches and discards the write session.  Without a writer this is a
    /// precondition violation.
    pub fn consume_writer(&mut self) -> (r: Result<(), SearchError>)
        ensures
            r is Ok <==> old(self)@.has_writer,
            match r {
                Ok(()) => {
                    &&& !final(self)@.has_writer
                    &&& final(self)@.index == old(self)@.index
                    &&& final(self)@.schema == old(self)@.schema
                    &&& final(self)@.schema_engine == old(self)@.schema_engine
                    &&& final(self)@.default_fields == old(self)@.default_fields
                },
                Err(e) => {
                    &&& *final(self) == *old(self)
                    &&& e matches SearchError::Precondition(PreconditionKind::NoWriter)
                },
            },
    {
        proof {
            use_type_invariant(&*self);
        }
        if self.index_writer.is_some() {
            self.index_writer = None;
            Ok(())
        } else {
            Err(SearchError::Precondition(PreconditionKind::NoWriter))
        }
    }

    /// Parses free text into a query predicate over the given fields of
    /// this session's index, bound to that index's field set.
    ///
    /// Without an index this is a precondition violation; a field id out
    /// of range for the index's schema is a configuration error (the
    /// engine would otherwise abort on the first query); malformed query
    /// syntax is a parse error.
    pub fn parse_query(&self, text: &str, fields: &Vec<Field>) -> (r: Result<
        PreparedQuery,
        SearchError,
    >)
        ensures
            ({
                let ids = fields@.map_values(|f: Field| f.id);
                match r {
                    Ok(q) => {
                        &&& self@.has_index()
                        &&& ids_in_range(
                            ids,
                            engine::index_field_names(self@.index.unwrap()).len() as int,
                        )
                        &&& engine::query_parse_ok(
                            engine::parser_of(self@.index.unwrap(), ids),
                            text@,
                        )
                        &&& q@ == engine::index_field_names(self@.index.unwrap())
                        &&& engine::query_field_names(q.spec_raw()) == q@
                        &&& q.spec_raw() == engine::parsed_query_of(
                            engine::parser_of(self@.index.unwrap(), ids),
                            text@,
                        )
                    },
                    Err(e) => {
                        &&& (e is Precondition <==> !self@.has_index())
                        &&& (!self@.has_index() ==> e matches SearchError::Precondition(
                            PreconditionKind::NoIndex,
                        ))
                        &&& (self@.has_index() ==> (e is Configuration <==> !ids_in_range(
                            ids,
                            engine::index_field_names(self@.index.unwrap()).len() as int,
                        )))
                        &&& (self@.has_index() && ids_in_range(
                            ids,
                            engine::index_field_names(self@.index.unwrap()).len() as int,
                        ) ==> e is QueryParse && !engine::query_parse_ok(
                            engine::parser_of(self@.index.unwrap(), ids),
                            text@,
                        ))
                    },
                }
            }),
    {
        let index = match &self.index {
            Some(i) => i,
            None => {
                return Err(SearchError::Precondition(PreconditionKind::NoIndex));
            },
        };
        let index_names = Self::index_name_list(index);
        let field_count = index_names.len();
        let mut ids: Vec<u32> = Vec::new();
        let mut i: usize = 0;
        while i < fields.len()
            invariant
                0 <= i <= fields@.len(),
                ids@.len() == i,
                forall|j: int| 0 <= j < i ==> #[trigger] ids@[j] == fields@[j].id,
                forall|j: int|
                    0 <= j < i ==> #[trigger] fields@[j].id < engine::index_field_names(
                        *index,
                    ).len(),
                field_count == engine::index_field_names(*index).len(),
                self@.index == Some(*index),
            decreases fields@.len() - i,
        {
            let id = fields[i].id;
            if id as usize >= field_count {
                proof {
                    assert(self@.index == Some(*index));
                    assert(fields@.map_values(|f: Field| f.id)[i as int] == fields@[i as int].id);
                    assert(!ids_in_range(
                        fields@.map_values(|f: Field| f.id),
                        engine::index_field_names(*index).len() as int,
                    ));
                }
                return Err(
                    SearchError::Configuration(
                        "a search field id is out of range for the index".to_owned(),
                    ),
                );
            }
            ids.push(id);
            i = i + 1;
        }
        proof {
            assert(self@.index == Some(*index));
            assert forall|j: int| 0 <= j < ids@.len() implies #[trigger] ids@[j]
                < engine::index_field_names(*index).len() by {
                assert(ids@[j] == fields@[j].id);
            }
            assert(ids_in_range(ids@, engine::index_field_names(*index).len() as int));
            assert(ids@ =~= fields@.map_values(|f: Field| f.id));
        }
        let parser = engine::query_parser_for_index(index, &ids);
        match engine::parser_parse_query(&parser, text) {
            Ok(raw) => Ok(PreparedQuery { raw, index_fields: index_names }),
            Err(e) => Err(SearchError::QueryParse(engine::query_error_message(&e))),
        }
    }

    /// Parses `query` against the configured default search fields, runs it
    /// on a fresh snapshot of the index, and returns the matching stored
    /// documents serialized to JSON under the index's schema, ranked by
    /// descending relevance, at most ten of them.
    ///
    /// A missing schema, index or (non-empty) default field set is a
    /// precondition violation; a configured field id out of range for the
    /// index is a configuration error; malformed query syntax is a parse
    /// error, exactly then; engine failures are storage errors.  Writes
    /// committed after the snapshot is taken are not visible to this call.
    #[verifier::rlimit(100)]
    #[verifier::spinoff_prover]
    pub fn simple_search(&self, query: &str) -> (r: Result<Vec<String>, SearchError>)
        ensures
            match r {
                Ok(docs) => {
                    &&& self@.has_schema()
                    &&& self@.has_index()
                    &&& self@.has_nonempty_default_fields()
                    &&& self@.default_ids_in_range()
                    &&& engine::query_parse_ok(
                        engine::parser_of(self@.index.unwrap(), self@.default_fields.unwrap()),
                        query@,
                    )
                    &&& docs@.len() <= 10
                    &&& exists|snap: tantivy::Searcher|
                        #[trigger] simple_results_match(self@, query@, snap, docs@)
                },
                Err(e) => {
                    &&& (!self@.has_schema() ==> e matches SearchError::Precondition(
                        PreconditionKind::NoSchema,
                    ))
                    &&& (self@.has_schema() && !self@.has_index()
                        ==> e matches SearchError::Precondition(PreconditionKind::NoIndex))
                    &&& (self@.has_schema() && self@.has_index()
                        && !self@.has_nonempty_default_fields()
                        ==> e matches SearchError::Precondition(PreconditionKind::NoDefaultFields))
                    &&& (e is Precondition <==> !(self@.has_schema() && self@.has_index()
                        && self@.has_nonempty_default_fields()))
                    &&& (self@.has_schema() && self@.has_index()
                        && self@.has_nonempty_default_fields() ==> (e is Configuration
                        <==> !self@.default_ids_in_range()))
                    &&& (self@.has_schema() && self@.has_index()
                        && self@.has_nonempty_default_fields() && self@.default_ids_in_range()
                        ==> (e is QueryParse <==> !engine::query_parse_ok(
                        engine::parser_of(self@.index.unwrap(), self@.default_fields.unwrap()),
                        query@,
                    )))
                    &&& (e is Precondition || e is Configuration || e is QueryParse
                        || e is Storage)
                },
            },
    {
        let schema = match &self.schema {
            Some(h) => h,
            None => {
                return Err(SearchError::Precondition(PreconditionKind::NoSchema));
            },
        };
        let index = match &self.index {
            Some(i) => i,
            None => {
                return Err(SearchError::Precondition(PreconditionKind::NoIndex));
            },
        };
        let default_fields = match &self.default_search_fields {
            Some(fields) => fields,
            None => {
                return Err(SearchError::Precondition(PreconditionKind::NoDefaultFields));
            },
        };
        if default_fields.len() == 0 {
            return Err(SearchError::Precondition(PreconditionKind::NoDefaultFields));
        }
        proof {
            assert(self@.default_fields == Some(default_fields@.map_values(|f: Field| f.id)));
            assert(self@.index == Some(*index));
        }
        let parsed = match self.parse_query(query, default_fields) {
            Ok(q) => q,
            Err(e) => {
                return Err(e);
            },
        };
        let reader = match engine::index_reader(index) {
            Ok(rd) => rd,
            Err(e) => {
                return Err(SearchError::Storage(engine::storage_error_message(&e)));
            },
        };
        let searcher = engine::reader_searcher(&reader);
        let addresses = match engine::search_with_limit(&searcher, &parsed.raw, 10) {
            Ok(a) => a,
            Err(e) => {
                return Err(SearchError::Storage(engine::storage_error_message(&e)));
            },
        };
        let doc_schema = engine::index_schema(index);
        let mut results: Vec<String> = Vec::new();
        let mut j: usize = 0;
        while j < addresses.len()
            invariant
                0 <= j <= addresses@.len(),
                addresses@.len() <= 10,
                results@.len() == j,
                self@.has_schema(),
                self@.has_index(),
                self@.has_nonempty_default_fields(),
                self@.default_ids_in_range(),
                engine::query_parse_ok(
                    engine::parser_of(self@.index.unwrap(), self@.default_fields.unwrap()),
                    query@,
                ),
                doc_schema == engine::index_schema_of(self@.index.unwrap()),
                engine::schema_field_names(doc_schema) == engine::searcher_field_names(searcher),
                forall|jj: int|
                    0 <= jj < addresses@.len() ==> engine::valid_doc_address(
                        searcher,
                        #[trigger] addresses@[jj],
                    ),
                forall|jj: int|
                    0 <= jj < j ==> #[trigger] results@[jj]@ == engine::doc_json_of(
                        engine::searcher_doc(searcher, addresses@[jj]),
                        engine::index_schema_of(self@.index.unwrap()),
                    ),
            decreases addresses@.len() - j,
        {
            let doc = match engine::fetch_document(&searcher, &addresses[j]) {
                Ok(d) => d,
                Err(e) => {
                    return Err(SearchError::Storage(engine::storage_error_message(&e)));
                },
            };
            results.push(engine::doc_to_json(&doc, &doc_schema));
            j = j + 1;
        }
        proof {
            assert(self@.default_fields == Some(default_fields@.map_values(|f: Field| f.id)));
            assert(self@.index == Some(*index));
            assert(simple_results_match(self@, query@, searcher, results@));
            assert(exists|snap: tantivy::Searcher|
                #[trigger] simple_results_match(self@, query@, snap, results@));
        }
        Ok(results)
    }

    /// Runs a query built by [`Self::parse_query`] with a caller-built
    /// top-documents collector on a fresh snapshot of the index, and
    /// returns the matching stored documents serialized to JSON under the
    /// index's schema, each paired with its relevance score, in the
    /// collector's ranking order (descending score; ties are broken by the
    /// engine's internal document ordering).  At most as many results come
    /// back as the limit the collector was built with.
    ///
    /// Scores are engine-defined 32-bit floats and are returned as their
    /// raw bit patterns, to be decoded by the host.
    ///
    /// A missing index or schema is a precondition violation; a query
    /// whose field set does not match this session's index (one parsed on
    /// another index) is refused as a configuration error, since the
    /// engine aborts on it; engine failures are storage errors.  Writes
    /// committed after the snapshot is taken are not visible to this call.
    #[verifier::rlimit(100)]
    #[verifier::spinoff_prover]
    pub fn top_search(
        &self,
        query: &PreparedQuery,
        collector: tantivy::collector::TopDocs,
    ) -> (r: Result<Vec<(u32, String)>, SearchError>)
        ensures
            match r {
                Ok(results) => {
                    &&& self@.has_index()
                    &&& self@.has_schema()
                    &&& query@ == engine::index_field_names(self@.index.unwrap())
                    &&& results@.len() <= engine::top_docs_limit(collector)
                    &&& exists|snap: tantivy::Searcher|
                        #[trigger] top_results_match(
                            query.spec_raw(),
                            collector,
                            self@.index.unwrap(),
                            snap,
                            results@,
                        )
                },
                Err(e) => {
                    &&& (!self@.has_index() ==> e matches SearchError::Precondition(
                        PreconditionKind::NoIndex,
                    ))
                    &&& (self@.has_index() && !self@.has_schema()
                        ==> e matches SearchError::Precondition(PreconditionKind::NoSchema))
                    &&& (e is Precondition <==> !(self@.has_index() && self@.has_schema()))
                    &&& (self@.has_index() && self@.has_schema() ==> (e is Configuration
                        <==> query@ != engine::index_field_names(self@.index.unwrap())))
                    &&& (e is Precondition || e is Configuration || e is Storage)
                },
            },
    {
        let index = match &self.index {
            Some(i) => i,
            None => {
                return Err(SearchError::Precondition(PreconditionKind::NoIndex));
            },
        };
        let schema = match &self.schema {
            Some(h) => h,
            None => {
                return Err(SearchError::Precondition(PreconditionKind::NoSchema));
            },
        };
        proof {
            use_type_invariant(query);
            assert(self@.index == Some(*index));
        }
        let index_names = Self::index_name_list(index);
        if !vec_string_eq(&query.index_fields, &index_names) {
            return Err(
                SearchError::Configuration(
                    "the query was parsed against another index's field set".to_owned(),
                ),
            );
        }
        let reader = match engine::index_reader(index) {
            Ok(rd) => rd,
            Err(e) => {
                return Err(SearchError::Storage(engine::storage_error_message(&e)));
            },
        };
        let searcher = engine::reader_searcher(&reader);
        let ghost limit = engine::top_docs_limit(collector);
        let scored = match engine::search_with_collector(&searcher, &query.raw, collector) {
            Ok(s) => s,
            Err(e) => {
                return Err(SearchError::Storage(engine::storage_error_message(&e)));
            },
        };
        let doc_schema = engine::index_schema(index);
        let mut results: Vec<(u32, String)> = Vec::new();
        let mut j: usize = 0;
        while j < scored.len()
            invariant
                0 <= j <= scored@.len(),
                scored@.len() <= limit,
                results@.len() == j,
                self@.has_schema(),
                self@.has_index(),
                query@ == engine::index_field_names(self@.index.unwrap()),
                doc_schema == engine::index_schema_of(self@.index.unwrap()),
                engine::schema_field_names(doc_schema) == engine::searcher_field_names(searcher),
                forall|jj: int|
                    0 <= jj < scored@.len() ==> engine::valid_doc_address(
                        searcher,
                        #[trigger] scored@[jj].1,
                    ),
                forall|jj: int|
                    0 <= jj < j ==> (#[trigger] results@[jj]).0 == scored@[jj].0
                        && results@[jj].1@ == engine::doc_json_of(
                        engine::searcher_doc(searcher, scored@[jj].1),
                        engine::index_schema_of(self@.index.unwrap()),
                    ),
            decreases scored@.len() - j,
        {
            let doc = match engine::fetch_document(&searcher, &scored[j].1) {
                Ok(d) => d,
                Err(e) => {
                    return Err(SearchError::Storage(engine::storage_error_message(&e)));
                },
            };
            let json = engine::doc_to_json(&doc, &doc_schema);
            results.push((scored[j].0, json));
            j = j + 1;
        }
        proof {
            assert(self@.index == Some(*index));
            assert(top_results_match(
                query.spec_raw(),
                collector,
                self@.index.unwrap(),
                searcher,
                results@,
            ));
            assert(exists|snap: tantivy::Searcher|
                #[trigger] top_results_match(
                    query.spec_raw(),
                    collector,
                    self@.index.unwrap(),
                    snap,
                    results@,
                ));
        }
        Ok(results)
    }

    /// The field names of the schema currently set, in field-id order, or
    /// nothing when no schema is set.
    pub fn schema_names(&self) -> (r: Option<&Vec<String>>)
        ensures
            r is Some <==> self@.schema is Some,
            r matches Some(names) ==> Some(names.deep_view()) == self@.schema,
    {
        match &self.schema {
            Some(h) => Some(h.names()),
            None => None,
        }
    }

    /// Whether an index has been created or opened.
    pub fn has_index(&self) -> (r: bool)
        ensures
            r == self@.has_index(),
    {
        self.index.is_some()
    }

    /// Whether the write session is currently held.
    pub fn has_writer(&self) -> (r: bool)
        ensures
            r == self@.has_writer,
    {
        self.index_writer.is_some()
    }

    /// The engine index itself, for hosts that need to inspect it.
    pub fn engine_index(&self) -> (r: Option<&tantivy::Index>)
        ensures
            r is Some <==> self@.has_index(),
            r matches Some(i) ==> Some(*i) == self@.index,
    {
        match &self.index {
            Some(i) => Some(i),
            None => None,
        }
    }
}

} // verus!
