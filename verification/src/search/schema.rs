//! The fixed schema of the search index.

use vstd::prelude::*;

verus! {

/// How a field is indexed.
#[derive(Debug, Clone, Copy, PartialEq, Eq, Structural)]
pub enum FieldKind {
    /// A signed 64-bit number, indexed.
    Integer,
    /// Text indexed as one untokenized term.
    Keyword,
    /// Text that is tokenized and indexed word by word.
    FullText,
    /// A point in time, indexed.
    Date,
}

/// One field of the schema. Every field is stored with the document.
#[derive(Debug, Clone, Copy)]
pub struct SchemaField {
    pub name: &'static str,
    pub kind: FieldKind,
}

pub struct SchemaFieldView {
    pub name: Seq<char>,
    pub kind: FieldKind,
}

impl DeepView for SchemaField {
    type V = SchemaFieldView;

    open spec fn deep_view(&self) -> SchemaFieldView {
        SchemaFieldView { name: self.name@, kind: self.kind }
    }
}

impl View for SchemaField {
    type V = SchemaFieldView;

    open spec fn view(&self) -> SchemaFieldView {
        self.deep_view()
    }
}

/// The fields of the index, in the order in which they are declared. The
/// field `id` holds the id of the metadata record of the document.
pub open spec fn schema_fields() -> Seq<SchemaFieldView> {
    seq![
        SchemaFieldView { name: "id"@, kind: FieldKind::Integer },
        SchemaFieldView { name: "hash"@, kind: FieldKind::Keyword },
        SchemaFieldView { name: "user_id"@, kind: FieldKind::Integer },
        SchemaFieldView { name: "from"@, kind: FieldKind::Keyword },
        SchemaFieldView { name: "to"@, kind: FieldKind::Keyword },
        SchemaFieldView { name: "cc"@, kind: FieldKind::Keyword },
        SchemaFieldView { name: "bcc"@, kind: FieldKind::Keyword },
        SchemaFieldView { name: "subject"@, kind: FieldKind::FullText },
        SchemaFieldView { name: "date"@, kind: FieldKind::Date },
        SchemaFieldView { name: "content"@, kind: FieldKind::FullText },
    ]
}

/// The fields that a query string is parsed against.
pub open spec fn query_fields() -> Seq<Seq<char>> {
    seq!["from"@, "to"@, "cc"@, "bcc"@, "subject"@, "content"@]
}

/// Whether the schema declares a field of this name.
pub open spec fn schema_has(name: Seq<char>) -> bool {
    exists|i: int| 0 <= i < schema_fields().len() && #[trigger] schema_fields()[i].name == name
}

/// The schema of the search index.
pub fn get_schema() -> (schema: Vec<SchemaField>)
    ensures
        schema.deep_view() == schema_fields(),
{
    let mut schema: Vec<SchemaField> = Vec::new();
    schema.push(SchemaField { name: "id", kind: FieldKind::Integer });
    schema.push(SchemaField { name: "hash", kind: FieldKind::Keyword });
    schema.push(SchemaField { name: "user_id", kind: FieldKind::Integer });
    schema.push(SchemaField { name: "from", kind: FieldKind::Keyword });
    schema.push(SchemaField { name: "to", kind: FieldKind::Keyword });
    schema.push(SchemaField { name: "cc", kind: FieldKind::Keyword });
    schema.push(SchemaField { name: "bcc", kind: FieldKind::Keyword });
    schema.push(SchemaField { name: "subject", kind: FieldKind::FullText });
    schema.push(SchemaField { name: "date", kind: FieldKind::Date });
    schema.push(SchemaField { name: "content", kind: FieldKind::FullText });
    proof {
        assert(schema.deep_view() =~= schema_fields());
    }
    schema
}

/// The names of the fields that a query string is parsed against: the four
/// address fields, the subject and the content.
pub fn default_query_fields() -> (fields: Vec<&'static str>)
    ensures
        fields.deep_view() == query_fields(),
{
    let mut fields: Vec<&'static str> = Vec::new();
    fields.push("from");
    fields.push("to");
    fields.push("cc");
    fields.push("bcc");
    fields.push("subject");
    fields.push("content");
    proof {
        assert(fields.deep_view() =~= query_fields());
    }
    fields
}

/// Every field that a query is parsed against is declared by the schema.
pub proof fn query_fields_are_declared()
    ensures
        forall|i: int| 0 <= i < query_fields().len() ==> schema_has(#[trigger] query_fields()[i]),
{
    assert(schema_fields()[3].name == "from"@);
    assert(schema_fields()[4].name == "to"@);
    assert(schema_fields()[5].name == "cc"@);
    assert(schema_fields()[6].name == "bcc"@);
    assert(schema_fields()[7].name == "subject"@);
    assert(schema_fields()[9].name == "content"@);
}

} // verus!
