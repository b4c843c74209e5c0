use vstd::prelude::*;

use crate::engine;
use crate::errors::SearchError;
use crate::options::FieldCapabilities;
use crate::options::all_tokens_known;
use crate::options::capabilities_of;
use crate::options::parse_capabilities;

verus! {

/// An opaque, stable handle to a field of a schema.  Ids are assigned in
/// declaration order, starting at zero.
#[derive(Clone, Copy, Debug, PartialEq, Eq, Structural)]
pub struct Field {
    pub id: u32,
}

/// The mathematical record of one declared field.
pub ghost struct FieldSpec {
    /// The field's name.
    pub name: Seq<char>,
    /// Whether this is a hierarchical facet field rather than a text field.
    pub facet: bool,
    /// The capability set requested for a text field.
    pub capabilities: FieldCapabilities,
    /// The tokenizer selected for a text field.
    pub tokenizer: Seq<char>,
}

/// The names of a field sequence, in declaration order.
pub open spec fn names_of(fields: Seq<FieldSpec>) -> Seq<Seq<char>> {
    fields.map_values(|f: FieldSpec| f.name)
}

/// The names of the facet fields among a field sequence, in declaration
/// order.
pub open spec fn facet_names_of(fields: Seq<FieldSpec>) -> Seq<Seq<char>> {
    fields.filter(|f: FieldSpec| f.facet).map_values(|f: FieldSpec| f.name)
}

/// Whether the field sequence already declares `name`.
pub open spec fn has_field(fields: Seq<FieldSpec>, name: Seq<char>) -> bool {
    exists|i: int| 0 <= i < fields.len() && #[trigger] fields[i].name == name
}

/// The tokenizer a text field ends up with: the caller's choice, or
/// `default` when none (or an empty name) was given.
pub open spec fn effective_tokenizer(tokenizer: Option<&str>) -> Seq<char> {
    match tokenizer {
        Some(t) => if t@.len() == 0 {
            "default"@
        } else {
            t@
        },
        None => "default"@,
    }
}

struct FieldDef {
    name: String,
    facet: bool,
    capabilities: FieldCapabilities,
    tokenizer: String,
}

impl View for FieldDef {
    type V = FieldSpec;

    closed spec fn view(&self) -> FieldSpec {
        FieldSpec {
            name: self.name@,
            facet: self.facet,
            capabilities: self.capabilities,
            tokenizer: self.tokenizer@,
        }
    }
}

/// Accumulates field declarations before any index exists.  Field ids are
/// handed out in declaration order starting at zero; field names are kept
/// unique.  No persistence and no input/output happen here.
pub struct SaneSchemaBuilder {
    defs: Vec<FieldDef>,
    engine_builder: tantivy::schema::SchemaBuilder,
}

impl View for SaneSchemaBuilder {
    type V = Seq<FieldSpec>;

    closed spec fn view(&self) -> Seq<FieldSpec> {
        self.defs@.map_values(|d: FieldDef| d@)
    }
}

impl SaneSchemaBuilder {
    /// The declared fields stand in the engine's builder under the same
    /// names, in the same order.
    pub closed spec fn wf(self) -> bool {
        &&& self.defs@.len() == engine::builder_field_names(self.engine_builder).len()
        &&& forall|i: int|
            0 <= i < self.defs@.len()
                ==> #[trigger] self.defs@[i].name@ == engine::builder_field_names(
                self.engine_builder,
            )[i]
        &&& facet_names_of(self@) == engine::builder_facet_names(self.engine_builder)
    }

    /// Starts an empty schema.
    pub fn new() -> (b: SaneSchemaBuilder)
        ensures
            b@ == Seq::<FieldSpec>::empty(),
            b.wf(),
    {
        let engine_builder = engine::new_schema_builder();
        let b = SaneSchemaBuilder { defs: Vec::new(), engine_builder };
        proof {
            assert(b@ =~= Seq::<FieldSpec>::empty());
            reveal(Seq::<_>::filter);
            assert(facet_names_of(b@) =~= Seq::<Seq<char>>::empty());
        }
        b
    }

    /// Whether a field of that name was already declared.
    fn contains_field(&self, name: &String) -> (r: bool)
        ensures
            r == has_field(self@, name@),
    {
        let mut i: usize = 0;
        while i < self.defs.len()
            invariant
                0 <= i <= self.defs@.len(),
                forall|j: int| 0 <= j < i ==> #[trigger] self.defs@[j].name@ != name@,
            decreases self.defs@.len() - i,
        {
            if self.defs[i].name == *name {
                assert(self@[i as int].name == name@);
                return true;
            }
            i = i + 1;
        }
        assert(forall|j: int| 0 <= j < self@.len() ==> #[trigger] self@[j].name != name@);
        false
    }

    /// Declares a text field.
    ///
    /// The capability set is the union of the recognized option tokens
    /// (`TEXT`, `STORED`, `STRING`); the field indexes term frequencies and
    /// positions under the chosen tokenizer (`default` when none is given).
    /// An unknown option token or an already-taken name is a configuration
    /// error and leaves the schema under construction untouched.  The
    /// returned handle's id is the number of fields declared before it.
    pub fn add_text_field(
        &mut self,
        name: &str,
        option_tokens: &Vec<String>,
        tokenizer: Option<&str>,
    ) -> (r: Result<Field, SearchError>)
        requires
            old(self).wf(),
            old(self)@.len() < 0x1_0000_0000,
        ensures
            final(self).wf(),
            r is Ok <==> all_tokens_known(option_tokens.deep_view()) && !has_field(
                old(self)@,
                name@,
            ),
            r matches Ok(f) ==> {
                &&& f.id as nat == old(self)@.len()
                &&& final(self)@ == old(self)@.push(
                    FieldSpec {
                        name: name@,
                        facet: false,
                        capabilities: capabilities_of(option_tokens.deep_view()),
                        tokenizer: effective_tokenizer(tokenizer),
                    },
                )
            },
            r matches Err(e) ==> e is Configuration && *final(self) == *old(self),
    {
        let caps = match parse_capabilities(option_tokens) {
            Ok(c) => c,
            Err(e) => {
                return Err(e);
            },
        };
        let name_owned: String = name.to_owned();
        if self.contains_field(&name_owned) {
            return Err(SearchError::Configuration("field name is already taken".to_owned()));
        }
        let chosen: String = match tokenizer {
            Some(t) => {
                if t.is_empty() {
                    "default".to_owned()
                } else {
                    t.to_owned()
                }
            },
            None => "default".to_owned(),
        };
        // A field asked to be only STRING is indexed as a single untokenized
        // term; any other combination gets the base text configuration, which
        // carries the chosen tokenizer and records positions.
        let mut text_options = if caps.string && !caps.text {
            engine::options_string()
        } else {
            engine::options_with_indexing(engine::text_indexing(chosen.as_str()))
        };
        if caps.stored {
            text_options = engine::options_set_stored(text_options);
        }
        proof {
            assert forall|j: int|
                0 <= j < engine::builder_field_names(self.engine_builder).len()
                    implies #[trigger] engine::builder_field_names(self.engine_builder)[j]
                    != name@ by {
                if engine::builder_field_names(self.engine_builder)[j] == name@ {
                    assert(self@[j].name == name@);
                    assert(has_field(self@, name@));
                }
            }
        }
        let id = engine::builder_add_text_field(&mut self.engine_builder, name, text_options);
        self.defs.push(
            FieldDef { name: name_owned, facet: false, capabilities: caps, tokenizer: chosen },
        );
        proof {
            let added = FieldSpec {
                name: name@,
                facet: false,
                capabilities: capabilities_of(option_tokens.deep_view()),
                tokenizer: effective_tokenizer(tokenizer),
            };
            assert(final(self)@ =~= old(self)@.push(added));
            reveal(Seq::<_>::filter);
            assert(final(self)@.drop_last() =~= old(self)@);
            assert(facet_names_of(final(self)@) =~= facet_names_of(old(self)@));
        }
        Ok(Field { id })
    }

    /// Declares a hierarchical facet field, for exact and
    /// hierarchical-prefix matching.  An already-taken name is a
    /// configuration error and leaves the schema untouched.  The returned
    /// handle's id is the number of fields declared before it.
    pub fn add_facet_field(&mut self, name: &str) -> (r: Result<Field, SearchError>)
        requires
            old(self).wf(),
            old(self)@.len() < 0x1_0000_0000,
        ensures
            final(self).wf(),
            r is Ok <==> !has_field(old(self)@, name@),
            r matches Ok(f) ==> {
                &&& f.id as nat == old(self)@.len()
                &&& final(self)@ == old(self)@.push(
                    FieldSpec {
                        name: name@,
                        facet: true,
                        capabilities: FieldCapabilities {
                            text: false,
                            stored: false,
                            string: false,
                        },
                        tokenizer: Seq::<char>::empty(),
                    },
                )
            },
            r matches Err(e) ==> e is Configuration && *final(self) == *old(self),
    {
        let name_owned: String = name.to_owned();
        if self.contains_field(&name_owned) {
            return Err(SearchError::Configuration("field name is already taken".to_owned()));
        }
        proof {
            assert forall|j: int|
                0 <= j < engine::builder_field_names(self.engine_builder).len()
                    implies #[trigger] engine::builder_field_names(self.engine_builder)[j]
                    != name@ by {
                if engine::builder_field_names(self.engine_builder)[j] == name@ {
                    assert(self@[j].name == name@);
                    assert(has_field(self@, name@));
                }
            }
        }
        let id = engine::builder_add_facet_field(&mut self.engine_builder, name);
        let empty_tokenizer = String::new();
        self.defs.push(
            FieldDef {
                name: name_owned,
                facet: true,
                capabilities: FieldCapabilities { text: false, stored: false, string: false },
                tokenizer: empty_tokenizer,
            },
        );
        proof {
            let added = FieldSpec {
                name: name@,
                facet: true,
                capabilities: FieldCapabilities { text: false, stored: false, string: false },
                tokenizer: Seq::<char>::empty(),
            };
            assert(final(self)@ =~= old(self)@.push(added));
            reveal(Seq::<_>::filter);
            assert(final(self)@.drop_last() =~= old(self)@);
            assert(facet_names_of(final(self)@) =~= facet_names_of(old(self)@).push(name@));
        }
        Ok(Field { id })
    }

    /// Freezes the accumulated fields into an immutable schema.
    pub fn build(self) -> (h: SchemaHandle)
        requires
            self.wf(),
        ensures
            h@ == names_of(self@),
            engine::schema_field_names(h.spec_engine()) == names_of(self@),
            engine::schema_facet_names(h.spec_engine()) == facet_names_of(self@),
    {
        let engine_schema = engine::builder_build(self.engine_builder);
        let names = engine::schema_field_name_list(&engine_schema);
        let facet_names = engine::schema_facet_field_names(&engine_schema);
        proof {
            assert(names.deep_view() =~= names_of(self@));
        }
        SchemaHandle { engine_schema, names, facet_names }
    }
}

/// A frozen schema: an ordered field set shared by the index and every
/// query against it.  Its view is the sequence of field names; a field's id
/// is its position in that sequence.
pub struct SchemaHandle {
    engine_schema: tantivy::schema::Schema,
    names: Vec<String>,
    facet_names: Vec<String>,
}

impl View for SchemaHandle {
    type V = Seq<Seq<char>>;

    closed spec fn view(&self) -> Seq<Seq<char>> {
        self.names.deep_view()
    }
}

impl SchemaHandle {
    #[verifier::type_invariant]
    spec fn inv(self) -> bool {
        &&& self.names.deep_view() == engine::schema_field_names(self.engine_schema)
        &&& self.facet_names.deep_view() == engine::schema_facet_names(self.engine_schema)
    }

    /// The engine's schema value this handle wraps.
    pub closed spec fn spec_engine(&self) -> tantivy::schema::Schema {
        self.engine_schema
    }


    /// Wraps a schema recovered from the engine (for instance out of an
    /// opened index).
    pub(crate) fn from_engine(engine_schema: tantivy::schema::Schema) -> (h: SchemaHandle)
        ensures
            h@ == engine::schema_field_names(engine_schema),
            h.spec_engine() == engine_schema,
    {
        let names = engine::schema_field_name_list(&engine_schema);
        let facet_names = engine::schema_facet_field_names(&engine_schema);
        SchemaHandle { engine_schema, names, facet_names }
    }

    /// The field names, in field-id order.
    pub fn names(&self) -> (r: &Vec<String>)
        ensures
            r.deep_view() == self@,
    {
        &self.names
    }

    /// Whether `name` names a field of this schema.
    pub(crate) fn contains_name(&self, name: &String) -> (r: bool)
        ensures
            r == engine::schema_field_names(self.spec_engine()).contains(name@),
            r == self@.contains(name@),
    {
        proof {
            use_type_invariant(self);
        }
        let mut i: usize = 0;
        while i < self.names.len()
            invariant
                0 <= i <= self.names@.len(),
                self.names.deep_view() == engine::schema_field_names(self.spec_engine()),
                forall|j: int| 0 <= j < i ==> #[trigger] self.names@[j]@ != name@,
            decreases self.names@.len() - i,
        {
            if self.names[i] == *name {
                assert(engine::schema_field_names(self.spec_engine())[i as int] == name@);
                return true;
            }
            i = i + 1;
        }
        assert(forall|j: int|
            0 <= j < engine::schema_field_names(self.spec_engine()).len()
                ==> #[trigger] engine::schema_field_names(self.spec_engine())[j] != name@);
        false
    }

    /// Whether `name` names a facet field of this schema.  Used to screen
    /// facet-destined values before they are handed to the engine, whose
    /// ingestion aborts on a malformed facet path instead of reporting it.
    pub(crate) fn is_facet_field(&self, name: &String) -> (r: bool)
        ensures
            r == engine::schema_facet_names(self.spec_engine()).contains(name@),
    {
        proof {
            use_type_invariant(self);
        }
        let mut i: usize = 0;
        while i < self.facet_names.len()
            invariant
                0 <= i <= self.facet_names@.len(),
                self.facet_names.deep_view() == engine::schema_facet_names(self.spec_engine()),
                forall|j: int| 0 <= j < i ==> #[trigger] self.facet_names@[j]@ != name@,
            decreases self.facet_names@.len() - i,
        {
            if self.facet_names[i] == *name {
                assert(engine::schema_facet_names(self.spec_engine())[i as int] == name@);
                return true;
            }
            i = i + 1;
        }
        assert(forall|j: int|
            0 <= j < engine::schema_facet_names(self.spec_engine()).len()
                ==> #[trigger] engine::schema_facet_names(self.spec_engine())[j] != name@);
        false
    }

    /// The engine's own schema value.
    pub(crate) fn engine_schema(&self) -> (s: &tantivy::schema::Schema)
        ensures
            *s == self.spec_engine(),
            engine::schema_field_names(*s) == self@,
    {
        proof {
            use_type_invariant(self);
        }
        &self.engine_schema
    }
}

} // verus!
