//! The schema model: named record types describing response bodies, the one
//! message entity of this service, and its JSON wire serialization. The wire
//! payload and the declared schema are tied together by a proved law: the
//! field set the serializer emits is exactly the field set the schema lists.

use vstd::prelude::*;
use crate::text::{push_json_string, spec_json_string, string_from_chars};

verus! {

/// The type of a schema field; every field in this system is text.
#[derive(Clone, Copy, PartialEq, Eq, Structural, Debug)]
pub enum FieldType {
    Text,
}

/// One named field of a schema.
pub struct SchemaField {
    pub name: String,
    pub ty: FieldType,
}

/// The mathematical model of a schema field.
pub struct SchemaFieldModel {
    pub name: Seq<char>,
    pub ty: FieldType,
}

impl View for SchemaField {
    type V = SchemaFieldModel;

    open spec fn view(&self) -> SchemaFieldModel {
        SchemaFieldModel { name: self.name@, ty: self.ty }
    }
}

impl DeepView for SchemaField {
    type V = SchemaFieldModel;

    open spec fn deep_view(&self) -> SchemaFieldModel {
        self.view()
    }
}

/// A named record type: the field names and their types.
pub struct Schema {
    pub name: String,
    pub fields: Vec<SchemaField>,
}

/// The mathematical model of a schema.
pub struct SchemaModel {
    pub name: Seq<char>,
    pub fields: Seq<SchemaFieldModel>,
}

impl View for Schema {
    type V = SchemaModel;

    open spec fn view(&self) -> SchemaModel {
        SchemaModel { name: self.name@, fields: self.fields.deep_view() }
    }
}

impl DeepView for Schema {
    type V = SchemaModel;

    open spec fn deep_view(&self) -> SchemaModel {
        self.view()
    }
}

/// The message entity: a single text attribute, created fresh per request.
pub struct Mensaje {
    pub contenido: String,
}

impl View for Mensaje {
    type V = Seq<char>;

    open spec fn view(&self) -> Seq<char> {
        self.contenido@
    }
}

/// One rendered field of a JSON object: the quoted name, a colon, and the
/// already-rendered value.
pub open spec fn spec_object_entry(e: (Seq<char>, Seq<char>)) -> Seq<char> {
    spec_json_string(e.0) + seq![':'] + e.1
}

/// The comma-separated rendered fields of a JSON object.
pub open spec fn spec_object_entries(es: Seq<(Seq<char>, Seq<char>)>) -> Seq<char>
    decreases es.len(),
{
    if es.len() == 0 {
        Seq::empty()
    } else if es.len() == 1 {
        spec_object_entry(es[0])
    } else {
        spec_object_entry(es[0]) + seq![','] + spec_object_entries(es.drop_first())
    }
}

/// A JSON object: the rendered fields between braces.
pub open spec fn spec_json_object(es: Seq<(Seq<char>, Seq<char>)>) -> Seq<char> {
    seq!['{'] + spec_object_entries(es) + seq!['}']
}

/// The fields the wire serialization of a message emits: one entry, the
/// `contenido` attribute carrying the content as a JSON string.
pub open spec fn spec_mensaje_wire_entries(contenido: Seq<char>) -> Seq<(Seq<char>, Seq<char>)> {
    seq![("contenido"@, spec_json_string(contenido))]
}

/// The JSON wire payload of a message.
pub open spec fn spec_mensaje_json(contenido: Seq<char>) -> Seq<char> {
    spec_json_object(spec_mensaje_wire_entries(contenido))
}

impl Mensaje {
    /// Serialize the message to its JSON wire payload.
    pub fn to_json(&self) -> (r: String)
        ensures
            r@ == spec_mensaje_json(self@),
    {
        let mut out: Vec<char> = Vec::new();
        out.push('{');
        push_json_string(&mut out, "contenido");
        out.push(':');
        push_json_string(&mut out, self.contenido.as_str());
        out.push('}');
        proof {
            let es = spec_mensaje_wire_entries(self@);
            assert(es[0] == ("contenido"@, spec_json_string(self@)));
            assert(spec_object_entries(es) == spec_object_entry(es[0]));
            assert(out@ =~= spec_json_object(es));
        }
        string_from_chars(out)
    }
}

/// The model of the declared schema for the message type.
pub open spec fn spec_mensaje_schema() -> SchemaModel {
    SchemaModel {
        name: "Mensaje"@,
        fields: seq![SchemaFieldModel { name: "contenido"@, ty: FieldType::Text }],
    }
}

/// The declared schema for the message type: one text field, `contenido`.
pub fn mensaje_schema() -> (s: Schema)
    ensures
        s@ == spec_mensaje_schema(),
{
    let mut fields: Vec<SchemaField> = Vec::new();
    fields.push(SchemaField { name: "contenido".to_owned(), ty: FieldType::Text });
    let s = Schema { name: "Mensaje".to_owned(), fields };
    proof {
        assert(s@.fields =~= spec_mensaje_schema().fields);
    }
    s
}

/// The wire serialization and the declared schema never diverge: the wire
/// payload emits exactly the fields the schema lists, in the declared order,
/// and the value under the one text field is a JSON string of the content.
pub proof fn lemma_wire_matches_schema(contenido: Seq<char>)
    ensures
        spec_mensaje_wire_entries(contenido).map_values(|e: (Seq<char>, Seq<char>)| e.0)
            =~= spec_mensaje_schema().fields.map_values(|f: SchemaFieldModel| f.name),
        spec_mensaje_schema().fields[0].ty == FieldType::Text,
        spec_mensaje_wire_entries(contenido)[0].1 == spec_json_string(contenido),
{
}

} // verus!
