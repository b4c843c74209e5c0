//! The trusted boundary to the tantivy search engine.
//!
//! Everything tantivy-specific lives here: declarations of the engine types
//! that appear in signatures and fields, names for the values the contracts
//! speak about (the field names a schema builder has accumulated, the field
//! names a schema or an index carries, the limit a collector was built
//! with), and one thin wrapper per engine operation.  Each wrapper's
//! contract states only what tantivy's own source and documentation show.

use vstd::prelude::*;

verus! {

// ----- engine types that appear in signatures or fields -----

#[verifier::external_type_specification]
#[verifier::external_body]
pub struct ExSchemaBuilder(tantivy::schema::SchemaBuilder);

#[verifier::external_type_specification]
#[verifier::external_body]
pub struct ExSchema(tantivy::schema::Schema);

#[verifier::external_type_specification]
#[verifier::external_body]
pub struct ExTextFieldIndexing(tantivy::schema::TextFieldIndexing);

#[verifier::external_type_specification]
#[verifier::external_body]
pub struct ExTextOptions(tantivy::schema::TextOptions);

#[verifier::external_type_specification]
#[verifier::external_body]
pub struct ExIndex(tantivy::Index);

/// The engine's write session.
///
/// tantivy's `IndexWriter<D>` is generic over a document trait of the
/// engine, and the verifier refuses that bound in a type declaration, so
/// the writer is held opaquely in a private field instead.
#[verifier::external_body]
pub struct WriteHandle {
    writer: tantivy::IndexWriter<tantivy::TantivyDocument>,
}

#[verifier::external_type_specification]
#[verifier::external_body]
pub struct ExIndexReader(tantivy::IndexReader);

#[verifier::external_type_specification]
#[verifier::external_body]
pub struct ExSearcher(tantivy::Searcher);

#[verifier::external_type_specification]
#[verifier::external_body]
pub struct ExDocAddress(tantivy::DocAddress);

#[verifier::external_type_specification]
#[verifier::external_body]
pub struct ExTantivyDocument(tantivy::TantivyDocument);

#[verifier::external_type_specification]
#[verifier::external_body]
pub struct ExQueryParser(tantivy::query::QueryParser);

#[verifier::external_type_specification]
#[verifier::external_body]
pub struct ExTopDocs(tantivy::collector::TopDocs);

#[verifier::external_type_specification]
#[verifier::external_body]
pub struct ExTextAnalyzer(tantivy::tokenizer::TextAnalyzer);

#[verifier::external_type_specification]
#[verifier::external_body]
pub struct ExTantivyError(tantivy::TantivyError);

#[verifier::external_type_specification]
#[verifier::external_body]
pub struct ExQueryParserError(tantivy::query::QueryParserError);

#[verifier::external_type_specification]
#[verifier::external_body]
pub struct ExDocParsingError(tantivy::schema::DocParsingError);

/// A parsed engine query predicate.
///
/// tantivy hands parsed queries out as boxed `dyn Query` trait objects,
/// which the verifier cannot declare, so the value is held behind this
/// opaque holder.  The public, guarded form is the session's
/// `PreparedQuery`, which pairs the predicate with the field set it was
/// parsed against so that searches can check the two sides agree.
#[verifier::external_body]
pub struct RawQuery(Box<dyn tantivy::query::Query>);

// ----- names for engine values the contracts speak about -----

/// The names of the fields a schema builder has accumulated, in declaration
/// order.
pub uninterp spec fn builder_field_names(b: tantivy::schema::SchemaBuilder) -> Seq<Seq<char>>;

/// The names of the facet fields a schema builder has accumulated, in
/// declaration order.
pub uninterp spec fn builder_facet_names(b: tantivy::schema::SchemaBuilder) -> Seq<Seq<char>>;

/// The names of the fields of a finished schema, in field-id order.
pub uninterp spec fn schema_field_names(s: tantivy::schema::Schema) -> Seq<Seq<char>>;

/// The names of the facet fields of a finished schema, in field-id order.
pub uninterp spec fn schema_facet_names(s: tantivy::schema::Schema) -> Seq<Seq<char>>;

/// The names of the fields of the schema an index is bound to, in field-id
/// order.
pub uninterp spec fn index_field_names(i: tantivy::Index) -> Seq<Seq<char>>;

/// The result limit a top-documents collector was built with.
pub uninterp spec fn top_docs_limit(c: tantivy::collector::TopDocs) -> nat;

/// The top-level fields of a JSON object text: each key, paired with the
/// string values standing under it.  Nothing when the text is not a JSON
/// object.
pub uninterp spec fn json_string_fields(json: Seq<char>) -> Option<
    Seq<(Seq<char>, Seq<Seq<char>>)>,
>;

/// Whether the engine accepts the document text against the schema.  The
/// outcome is a function of the schema and the text alone.
pub uninterp spec fn doc_parse_ok(s: tantivy::schema::Schema, json: Seq<char>) -> bool;

/// The engine's JSON serialization of a stored document under a schema: a
/// function of the document value and the schema alone.
pub uninterp spec fn doc_json_of(d: tantivy::TantivyDocument, s: tantivy::schema::Schema) -> Seq<
    char,
>;

/// The query parser over an index with the given default field ids.
pub uninterp spec fn parser_of(i: tantivy::Index, ids: Seq<u32>) -> tantivy::query::QueryParser;

/// Whether the parser accepts the query text: a function of the parser
/// value and the text alone.
pub uninterp spec fn query_parse_ok(p: tantivy::query::QueryParser, text: Seq<char>) -> bool;

/// The query predicate a parser yields for an accepted text.
pub uninterp spec fn parsed_query_of(
    p: tantivy::query::QueryParser,
    text: Seq<char>,
) -> RawQuery;

/// The ranked document addresses a snapshot yields for a query under the
/// given result limit.  A searcher pins a fixed set of immutable segments,
/// so the outcome is a function of the snapshot value, the query and the
/// limit.
pub uninterp spec fn search_hits(
    s: tantivy::Searcher,
    q: RawQuery,
    limit: int,
) -> Seq<tantivy::DocAddress>;

/// The ranked (score bit pattern, document address) pairs a snapshot yields
/// for a query under the given collector, a function of the three values as
/// above.
pub uninterp spec fn scored_hits(
    s: tantivy::Searcher,
    q: RawQuery,
    c: tantivy::collector::TopDocs,
) -> Seq<(u32, tantivy::DocAddress)>;

/// The stored document at an address of a snapshot.
pub uninterp spec fn searcher_doc(
    s: tantivy::Searcher,
    a: tantivy::DocAddress,
) -> tantivy::TantivyDocument;

/// The schema value an index is bound to (what `Index::schema` clones).
pub uninterp spec fn index_schema_of(i: tantivy::Index) -> tantivy::schema::Schema;

/// The field names of the index a query parser was built over.
pub uninterp spec fn parser_field_names(p: tantivy::query::QueryParser) -> Seq<Seq<char>>;

/// Every default field id a parser carries designates a field of its
/// index's schema (the parser's one constructor here admits only those).
pub uninterp spec fn parser_ids_in_range(p: tantivy::query::QueryParser) -> bool;

/// The field names of the index a query predicate was parsed against.
pub uninterp spec fn query_field_names(q: RawQuery) -> Seq<Seq<char>>;

/// The field names of the index a reader serves snapshots of.
pub uninterp spec fn reader_field_names(r: tantivy::IndexReader) -> Seq<Seq<char>>;

/// The field names of the index a snapshot was taken of.
pub uninterp spec fn searcher_field_names(s: tantivy::Searcher) -> Seq<Seq<char>>;

/// The address designates a document of this snapshot (its segment
/// ordinal and document id are in range), as every address a search over
/// the snapshot hands back is.
pub uninterp spec fn valid_doc_address(s: tantivy::Searcher, a: tantivy::DocAddress) -> bool;

/// Every field id the document carries is below `n`.  A stored document
/// fetched from a snapshot carries only fields of that index's schema.
pub uninterp spec fn doc_fields_within(d: tantivy::TantivyDocument, n: int) -> bool;

/// A facet path the engine accepts: non-empty and starting with a slash.
/// On any other facet value the engine's document parser aborts instead of
/// reporting an error, so such values must never reach it.
pub open spec fn valid_facet_path(path: Seq<char>) -> bool {
    path.len() > 0 && path[0] == '/'
}

/// Every string value that the document text supplies for a facet field of
/// the schema is a valid facet path.  A text that is not a JSON object
/// never reaches the facet conversion, so it counts as safe here.
pub open spec fn facet_values_ok(s: tantivy::schema::Schema, json: Seq<char>) -> bool {
    match json_string_fields(json) {
        Some(pairs) => forall|i: int, k: int|
            0 <= i < pairs.len() && 0 <= k < pairs[i].1.len() && schema_facet_names(s).contains(
                pairs[i].0,
            ) ==> valid_facet_path(#[trigger] pairs[i].1[k]),
        None => true,
    }
}

/// Every top-level key of the document text names a field of the schema.
/// A text that is not a JSON object is rejected by the engine's parser on
/// its own, so it counts as conforming here.
pub open spec fn document_fields_known(s: tantivy::schema::Schema, json: Seq<char>) -> bool {
    match json_string_fields(json) {
        Some(pairs) => forall|i: int|
            0 <= i < pairs.len() ==> schema_field_names(s).contains(#[trigger] pairs[i].0),
        None => true,
    }
}

// ----- schema construction -----

/// Relies on tantivy::schema::Schema::builder: a fresh builder holds no
/// fields.
#[verifier::external_body]
pub(crate) fn new_schema_builder() -> (b: tantivy::schema::SchemaBuilder)
    ensures
        builder_field_names(b) == Seq::<Seq<char>>::empty(),
        builder_facet_names(b) == Seq::<Seq<char>>::empty(),
{
    tantivy::schema::Schema::builder()
}

/// Relies on tantivy::schema::SchemaBuilder::add_text_field and
/// tantivy::schema::Field::field_id: the builder appends one field entry
/// under the given name and returns its id, which is the number of fields
/// added before it.  tantivy panics when the name is already taken, so that
/// input is excluded here.
#[verifier::external_body]
pub(crate) fn builder_add_text_field(
    b: &mut tantivy::schema::SchemaBuilder,
    name: &str,
    options: tantivy::schema::TextOptions,
) -> (id: u32)
    requires
        builder_field_names(*old(b)).len() < 0x1_0000_0000,
        forall|j: int|
            0 <= j < builder_field_names(*old(b)).len()
                ==> #[trigger] builder_field_names(*old(b))[j] != name@,
    ensures
        builder_field_names(*final(b)) == builder_field_names(*old(b)).push(name@),
        builder_facet_names(*final(b)) == builder_facet_names(*old(b)),
        id as nat == builder_field_names(*old(b)).len(),
{
    b.add_text_field(name, options).field_id()
}

/// Relies on tantivy::schema::SchemaBuilder::add_facet_field (with the
/// default facet options) and tantivy::schema::Field::field_id, exactly as
/// the text-field wrapper above.
#[verifier::external_body]
pub(crate) fn builder_add_facet_field(
    b: &mut tantivy::schema::SchemaBuilder,
    name: &str,
) -> (id: u32)
    requires
        builder_field_names(*old(b)).len() < 0x1_0000_0000,
        forall|j: int|
            0 <= j < builder_field_names(*old(b)).len()
                ==> #[trigger] builder_field_names(*old(b))[j] != name@,
    ensures
        builder_field_names(*final(b)) == builder_field_names(*old(b)).push(name@),
        builder_facet_names(*final(b)) == builder_facet_names(*old(b)).push(name@),
        id as nat == builder_field_names(*old(b)).len(),
{
    b.add_facet_field(name, tantivy::schema::FacetOptions::default()).field_id()
}

/// Relies on tantivy::schema::SchemaBuilder::build: the finished schema
/// holds exactly the fields the builder accumulated, in order.
#[verifier::external_body]
pub(crate) fn builder_build(b: tantivy::schema::SchemaBuilder) -> (s: tantivy::schema::Schema)
    ensures
        schema_field_names(s) == builder_field_names(b),
        schema_facet_names(s) == builder_facet_names(b),
{
    b.build()
}

/// Relies on tantivy::schema::Schema::fields and
/// tantivy::schema::FieldEntry::name: the iterator yields the field entries
/// in field-id order.
#[verifier::external_body]
pub(crate) fn schema_field_name_list(s: &tantivy::schema::Schema) -> (names: Vec<String>)
    ensures
        names.deep_view() == schema_field_names(*s),
{
    s.fields().map(|(_, entry)| entry.name().to_string()).collect()
}

/// Relies on tantivy::schema::Schema::num_fields.
#[verifier::external_body]
pub(crate) fn schema_num_fields(s: &tantivy::schema::Schema) -> (n: usize)
    ensures
        n == schema_field_names(*s).len(),
{
    s.num_fields()
}

// ----- text option assembly -----

/// Relies on tantivy::schema::TextFieldIndexing::default, set_tokenizer and
/// set_index_option: an indexing configuration using the named tokenizer and
/// recording term frequencies and positions.
#[verifier::external_body]
pub(crate) fn text_indexing(tokenizer: &str) -> tantivy::schema::TextFieldIndexing {
    tantivy::schema::TextFieldIndexing::default()
        .set_tokenizer(tokenizer)
        .set_index_option(tantivy::schema::IndexRecordOption::WithFreqsAndPositions)
}

/// Relies on tantivy::schema::TextOptions::default and
/// set_indexing_options: text options carrying the given indexing
/// configuration.
#[verifier::external_body]
pub(crate) fn options_with_indexing(
    indexing: tantivy::schema::TextFieldIndexing,
) -> tantivy::schema::TextOptions {
    tantivy::schema::TextOptions::default().set_indexing_options(indexing)
}

/// Relies on tantivy::schema::TextOptions::set_stored.
#[verifier::external_body]
pub(crate) fn options_set_stored(
    options: tantivy::schema::TextOptions,
) -> tantivy::schema::TextOptions {
    options.set_stored()
}

/// Relies on the STRING constant of tantivy::schema: options indexing the
/// whole value as a single untokenized term (raw tokenizer, basic record),
/// for exact matching.
#[verifier::external_body]
pub(crate) fn options_string() -> tantivy::schema::TextOptions {
    tantivy::schema::STRING
}

// ----- index lifecycle -----

/// Relies on tantivy::Index::create_in_dir: creates a disk-backed index at
/// the path, bound to the given schema; fails (for instance when the
/// directory already holds an index, or cannot be written) with an error.
#[verifier::external_body]
pub(crate) fn index_create_in_dir(
    path: &str,
    schema: &tantivy::schema::Schema,
) -> (r: Result<tantivy::Index, tantivy::TantivyError>)
    ensures
        r matches Ok(i) ==> index_field_names(i) == schema_field_names(*schema),
{
    tantivy::Index::create_in_dir(path, schema.clone())
}

/// Relies on tantivy::Index::open_in_dir: opens the index persisted at the
/// path, or fails when the path does not hold a valid index.
#[verifier::external_body]
pub(crate) fn index_open_in_dir(path: &str) -> Result<tantivy::Index, tantivy::TantivyError> {
    tantivy::Index::open_in_dir(path)
}

/// Relies on tantivy::Index::schema: the schema the index is bound to.
#[verifier::external_body]
pub(crate) fn index_schema(i: &tantivy::Index) -> (s: tantivy::schema::Schema)
    ensures
        s == index_schema_of(*i),
        schema_field_names(s) == index_field_names(*i),
{
    i.schema()
}

/// Relies on tantivy::Index::writer: acquires the single write session,
/// bounded to the given memory budget; fails when the budget is out of the
/// engine's accepted range or the lock cannot be taken.
#[verifier::external_body]
pub(crate) fn index_writer(
    i: &tantivy::Index,
    heap_size: usize,
) -> Result<WriteHandle, tantivy::TantivyError> {
    match i.writer(heap_size) {
        Ok(writer) => Ok(WriteHandle { writer }),
        Err(e) => Err(e),
    }
}

/// Relies on tantivy::IndexWriter::add_document: buffers the document and
/// returns its operation stamp; the document is not visible until a commit.
#[verifier::external_body]
pub(crate) fn writer_add_document(
    w: &WriteHandle,
    doc: tantivy::TantivyDocument,
) -> Result<u64, tantivy::TantivyError> {
    w.writer.add_document(doc)
}

/// Relies on tantivy::IndexWriter::commit: flushes every buffered document
/// durably to the index, making them visible to subsequently acquired
/// readers.
#[verifier::external_body]
pub(crate) fn writer_commit(w: &mut WriteHandle) -> Result<u64, tantivy::TantivyError> {
    w.writer.commit()
}

/// Relies on tantivy::schema::Schema::fields,
/// tantivy::schema::FieldEntry::name and field_type: the names of the
/// schema's facet fields, in field-id order.
#[verifier::external_body]
pub(crate) fn schema_facet_field_names(s: &tantivy::schema::Schema) -> (names: Vec<String>)
    ensures
        names.deep_view() == schema_facet_names(*s),
{
    s.fields()
        .filter(|(_, entry)| {
            matches!(entry.field_type(), tantivy::schema::FieldType::Facet(_))
        })
        .map(|(_, entry)| entry.name().to_string())
        .collect()
}

// ----- documents -----

/// Relies on serde_json::from_str: when `json` is a JSON object, hands
/// back, for each of its keys, the string values standing under that key
/// (the value itself when it is a string, its string elements when it is
/// an array, nothing otherwise).  A text that is not a JSON object comes
/// back as nothing.
#[verifier::external_body]
pub(crate) fn json_object_string_values(json: &str) -> (r: Option<Vec<(String, Vec<String>)>>)
    ensures
        r.deep_view() == json_string_fields(json@),
{
    let object: serde_json::Map<String, serde_json::Value> = serde_json::from_str(json).ok()?;
    Some(object.into_iter().map(|(key, value)| {
        let strings = match value {
            serde_json::Value::String(s) => vec![s],
            serde_json::Value::Array(items) => items.into_iter().filter_map(|item| match item {
                serde_json::Value::String(s) => Some(s),
                _ => None,
            }).collect(),
            _ => Vec::new(),
        };
        (key, strings)
    }).collect())
}

/// Relies on tantivy::TantivyDocument::parse_json: parses a JSON object
/// against the schema, failing on malformed JSON or values of the wrong
/// type (fields unknown to the schema are skipped by the engine, so the
/// library screens them itself).  tantivy aborts the process on a facet
/// value that is not a path starting with a slash, instead of reporting
/// it, so that input is excluded here and screened out by `add_doc`.
#[verifier::external_body]
pub(crate) fn parse_document(
    schema: &tantivy::schema::Schema,
    json: &str,
) -> (r: Result<tantivy::TantivyDocument, tantivy::schema::DocParsingError>)
    requires
        facet_values_ok(*schema, json@),
    ensures
        r is Ok <==> doc_parse_ok(*schema, json@),
{
    tantivy::TantivyDocument::parse_json(schema, json)
}

/// Relies on tantivy::schema::Document::to_json: serializes the document's
/// field values back into the schema's JSON shape.  The engine looks each
/// of the document's field ids up in the schema by raw index and would
/// abort on one out of range, so such documents are excluded here; a
/// fetched document is serialized under its own index's schema, which
/// holds every id it carries.
#[verifier::external_body]
pub(crate) fn doc_to_json(
    doc: &tantivy::TantivyDocument,
    schema: &tantivy::schema::Schema,
) -> (r: String)
    requires
        doc_fields_within(*doc, schema_field_names(*schema).len() as int),
    ensures
        r@ == doc_json_of(*doc, *schema),
{
    tantivy::schema::Document::to_json(doc, schema)
}

// ----- queries and snapshots -----

/// Relies on tantivy::Index::reader: acquires a reader able to hand out
/// point-in-time searchers.
#[verifier::external_body]
pub(crate) fn index_reader(
    i: &tantivy::Index,
) -> (r: Result<tantivy::IndexReader, tantivy::TantivyError>)
    ensures
        r matches Ok(rd) ==> reader_field_names(rd) == index_field_names(*i),
{
    i.reader()
}

/// Relies on tantivy::IndexReader::searcher: a snapshot of the index as of
/// the latest reload; later commits are not visible through it.
#[verifier::external_body]
pub(crate) fn reader_searcher(r: &tantivy::IndexReader) -> (s: tantivy::Searcher)
    ensures
        searcher_field_names(s) == reader_field_names(*r),
{
    r.searcher()
}

/// Relies on tantivy::query::QueryParser::for_index (and
/// tantivy::schema::Field::from_field_id to designate the default fields by
/// their ids).  A field id out of range for the index's schema would make
/// the parser abort later, on the first bare-term query, so those ids are
/// excluded here.
#[verifier::external_body]
pub(crate) fn query_parser_for_index(
    i: &tantivy::Index,
    default_field_ids: &Vec<u32>,
) -> (r: tantivy::query::QueryParser)
    requires
        forall|j: int|
            0 <= j < default_field_ids@.len() ==> #[trigger] default_field_ids@[j]
                < index_field_names(*i).len(),
    ensures
        r == parser_of(*i, default_field_ids@),
        parser_field_names(r) == index_field_names(*i),
        parser_ids_in_range(r),
{
    let fields = default_field_ids
        .iter()
        .map(|id| tantivy::schema::Field::from_field_id(*id))
        .collect();
    tantivy::query::QueryParser::for_index(i, fields)
}

/// Relies on tantivy::query::QueryParser::parse_query: parses free text
/// into a query predicate, or reports a syntax error.  It looks the
/// parser's default fields up in the schema by raw index, which is in
/// range because the parser's one constructor above admits only in-range
/// ids.
#[verifier::external_body]
pub(crate) fn parser_parse_query(
    p: &tantivy::query::QueryParser,
    text: &str,
) -> (r: Result<RawQuery, tantivy::query::QueryParserError>)
    requires
        parser_ids_in_range(*p),
    ensures
        r is Ok <==> query_parse_ok(*p, text@),
        r matches Ok(q) ==> q == parsed_query_of(*p, text@) && query_field_names(q)
            == parser_field_names(*p),
{
    match p.parse_query(text) {
        Ok(q) => Ok(RawQuery(q)),
        Err(e) => Err(e),
    }
}

/// Relies on tantivy::Searcher::search with a
/// tantivy::collector::TopDocs::with_limit collector, which collects at most
/// `limit` documents ranked by descending score; the scores are discarded
/// and the addresses kept.  TopDocs::with_limit panics on a limit of zero,
/// so that input is excluded here.
#[verifier::external_body]
pub(crate) fn search_with_limit(
    s: &tantivy::Searcher,
    q: &RawQuery,
    limit: usize,
) -> (r: Result<Vec<tantivy::DocAddress>, tantivy::TantivyError>)
    requires
        limit >= 1,
        query_field_names(*q) == searcher_field_names(*s),
    ensures
        r matches Ok(v) ==> v@ == search_hits(*s, *q, limit as int) && v@.len() <= limit
            && (forall|j: int| 0 <= j < v@.len() ==> valid_doc_address(*s, #[trigger] v@[j])),
{
    let collector = tantivy::collector::TopDocs::with_limit(limit).order_by_score();
    match s.search(q.0.as_ref(), &collector) {
        Ok(v) => Ok(v.into_iter().map(|(_score, addr)| addr).collect()),
        Err(e) => Err(e),
    }
}

/// Relies on tantivy::Searcher::search with a caller-supplied
/// tantivy::collector::TopDocs (ranked by descending score via
/// order_by_score), which collects at most as many documents as the limit
/// the collector was built with.  Each score, an engine-defined 32-bit
/// float, is carried out as its raw bit pattern.
#[verifier::external_body]
pub(crate) fn search_with_collector(
    s: &tantivy::Searcher,
    q: &RawQuery,
    collector: tantivy::collector::TopDocs,
) -> (r: Result<Vec<(u32, tantivy::DocAddress)>, tantivy::TantivyError>)
    requires
        query_field_names(*q) == searcher_field_names(*s),
    ensures
        r matches Ok(v) ==> v@ == scored_hits(*s, *q, collector) && v@.len() <= top_docs_limit(
            collector,
        ) && (forall|j: int| 0 <= j < v@.len() ==> valid_doc_address(*s, #[trigger] v@[j].1)),
{
    match s.search(q.0.as_ref(), &collector.order_by_score()) {
        Ok(v) => Ok(v.into_iter().map(|(score, addr)| (score.to_bits(), addr)).collect()),
        Err(e) => Err(e),
    }
}

/// Relies on tantivy::Searcher::doc: fetches the stored document at the
/// given address within this snapshot.
/// tantivy indexes the segment ordinal into its segment list without a
/// bounds check, so only addresses of this snapshot are admitted; every
/// address its own searches hand back is one.
#[verifier::external_body]
pub(crate) fn fetch_document(
    s: &tantivy::Searcher,
    addr: &tantivy::DocAddress,
) -> (r: Result<tantivy::TantivyDocument, tantivy::TantivyError>)
    requires
        valid_doc_address(*s, *addr),
    ensures
        r matches Ok(d) ==> d == searcher_doc(*s, *addr) && doc_fields_within(
            d,
            searcher_field_names(*s).len() as int,
        ),
{
    s.doc::<tantivy::TantivyDocument>(*addr)
}

/// Relies on tantivy::collector::TopDocs::with_limit, which panics on a
/// limit of zero; that input is excluded here.
#[verifier::external_body]
pub(crate) fn top_docs_with_limit(limit: usize) -> (r: tantivy::collector::TopDocs)
    requires
        limit >= 1,
    ensures
        top_docs_limit(r) == limit,
{
    tantivy::collector::TopDocs::with_limit(limit)
}

// ----- tokenizer registration -----

/// Relies on tantivy's TextAnalyzer builder, SimpleTokenizer,
/// RemoveLongFilter, LowerCaser and Stemmer: simple tokenization, a
/// 40-character token length cap, lowercasing, then German stemming.
#[verifier::external_body]
pub(crate) fn stem_analyzer_de() -> tantivy::tokenizer::TextAnalyzer {
    tantivy::tokenizer::TextAnalyzer::builder(tantivy::tokenizer::SimpleTokenizer::default())
        .filter(tantivy::tokenizer::RemoveLongFilter::limit(40))
        .filter(tantivy::tokenizer::LowerCaser)
        .filter(tantivy::tokenizer::Stemmer::new(tantivy::tokenizer::Language::German))
        .build()
}

/// Relies on the same pipeline as the German analyzer, with Spanish
/// stemming.
#[verifier::external_body]
pub(crate) fn stem_analyzer_es() -> tantivy::tokenizer::TextAnalyzer {
    tantivy::tokenizer::TextAnalyzer::builder(tantivy::tokenizer::SimpleTokenizer::default())
        .filter(tantivy::tokenizer::RemoveLongFilter::limit(40))
        .filter(tantivy::tokenizer::LowerCaser)
        .filter(tantivy::tokenizer::Stemmer::new(tantivy::tokenizer::Language::Spanish))
        .build()
}

/// Relies on the same pipeline as the German analyzer, with French
/// stemming.
#[verifier::external_body]
pub(crate) fn stem_analyzer_fr() -> tantivy::tokenizer::TextAnalyzer {
    tantivy::tokenizer::TextAnalyzer::builder(tantivy::tokenizer::SimpleTokenizer::default())
        .filter(tantivy::tokenizer::RemoveLongFilter::limit(40))
        .filter(tantivy::tokenizer::LowerCaser)
        .filter(tantivy::tokenizer::Stemmer::new(tantivy::tokenizer::Language::French))
        .build()
}

/// Relies on tantivy::Index::tokenizers and
/// tantivy::tokenizer::TokenizerManager::register: registers the analyzer
/// under the given name for this index object; registering again under the
/// same name replaces it, so registration is idempotent.
#[verifier::external_body]
pub(crate) fn register_analyzer(
    i: &tantivy::Index,
    name: &str,
    analyzer: tantivy::tokenizer::TextAnalyzer,
) {
    i.tokenizers().register(name, analyzer)
}

// ----- error rendering -----

/// Relies on the Display impl of tantivy::TantivyError.
#[verifier::external_body]
pub(crate) fn storage_error_message(e: &tantivy::TantivyError) -> String {
    format!("{e}")
}

/// Relies on the Display impl of tantivy::query::QueryParserError.
#[verifier::external_body]
pub(crate) fn query_error_message(e: &tantivy::query::QueryParserError) -> String {
    format!("{e}")
}

/// Relies on the Display impl of tantivy::schema::DocParsingError.
#[verifier::external_body]
pub(crate) fn doc_error_message(e: &tantivy::schema::DocParsingError) -> String {
    format!("{e}")
}

} // verus!
