//! The API descriptor: a declarative aggregation of every route's metadata,
//! the schema set, and the tag metadata, built once at startup. Construction
//! rejects a route that references a schema the schema set does not declare.
//! The descriptor renders deterministically to a JSON document; the rendering
//! is a pure function of the declarations, stated character for character.

use vstd::prelude::*;
use vstd::string::StringExecFns;
use crate::routes::{BodySchema, BodySchemaModel, Method, RouteDecl, RouteDeclModel};
use crate::schema::{FieldType, Schema, SchemaFieldModel, SchemaModel};
use crate::text::{
    push_dec, push_json_string, push_str_chars, spec_dec, spec_json_string, str_eq,
    string_from_chars,
};

verus! {

/// Tag metadata grouping routes for display.
pub struct Tag {
    pub name: String,
    pub description: String,
}

/// The mathematical model of a tag.
pub struct TagModel {
    pub name: Seq<char>,
    pub description: Seq<char>,
}

impl View for Tag {
    type V = TagModel;

    open spec fn view(&self) -> TagModel {
        TagModel { name: self.name@, description: self.description@ }
    }
}

impl DeepView for Tag {
    type V = TagModel;

    open spec fn deep_view(&self) -> TagModel {
        self.view()
    }
}

/// The one way descriptor construction can fail: a route references a schema
/// that the schema set does not declare.
#[derive(Clone, Copy, PartialEq, Eq, Structural, Debug)]
pub enum DescriptorError {
    UndeclaredSchema,
}

/// Whether the schema set declares a schema under `name`.
pub open spec fn spec_schema_declared(schemas: Seq<SchemaModel>, name: Seq<char>) -> bool {
    exists|j: int| 0 <= j < schemas.len() && (#[trigger] schemas[j].name) == name
}

/// Whether a body shape references only declared schemas.
pub open spec fn spec_body_declared(b: BodySchemaModel, schemas: Seq<SchemaModel>) -> bool {
    match b {
        BodySchemaModel::Primitive(_) => true,
        BodySchemaModel::Reference(n) => spec_schema_declared(schemas, n),
    }
}

/// Whether every route's body shape references only declared schemas.
pub open spec fn spec_references_declared(
    routes: Seq<RouteDeclModel>,
    schemas: Seq<SchemaModel>,
) -> bool {
    forall|i: int|
        0 <= i < routes.len() ==> spec_body_declared(#[trigger] routes[i].body, schemas)
}

fn schema_set_declares(schemas: &Vec<Schema>, name: &str) -> (r: bool)
    ensures
        r == spec_schema_declared(schemas.deep_view(), name@),
{
    let n = schemas.len();
    let mut i: usize = 0;
    while i < n
        invariant
            i <= n,
            n == schemas.len(),
            forall|j: int| 0 <= j < i ==> (#[trigger] schemas.deep_view()[j].name) != name@,
        decreases n - i,
    {
        if str_eq(schemas[i].name.as_str(), name) {
            proof {
                assert(schemas.deep_view()[i as int].name == name@);
            }
            return true;
        }
        proof {
            assert(schemas.deep_view()[i as int] == schemas@[i as int]@);
        }
        i = i + 1;
    }
    false
}

fn body_is_declared(b: &BodySchema, schemas: &Vec<Schema>) -> (r: bool)
    ensures
        r == spec_body_declared(b@, schemas.deep_view()),
{
    match b {
        BodySchema::Primitive(_) => true,
        BodySchema::Reference(name) => schema_set_declares(schemas, name.as_str()),
    }
}

/// The API descriptor: every route declaration, the schema set, and the tag
/// metadata, aggregated once at startup and read-only afterwards.
pub struct ApiDescriptor {
    routes: Vec<RouteDecl>,
    schemas: Vec<Schema>,
    tags: Vec<Tag>,
}

/// The mathematical model of the descriptor.
pub struct ApiDescriptorModel {
    pub routes: Seq<RouteDeclModel>,
    pub schemas: Seq<SchemaModel>,
    pub tags: Seq<TagModel>,
}

impl View for ApiDescriptor {
    type V = ApiDescriptorModel;

    closed spec fn view(&self) -> ApiDescriptorModel {
        ApiDescriptorModel {
            routes: self.routes.deep_view(),
            schemas: self.schemas.deep_view(),
            tags: self.tags.deep_view(),
        }
    }
}

impl ApiDescriptor {
    /// Build the descriptor from the declarations. Succeeds exactly when
    /// every schema reference is declared; the built descriptor holds the
    /// declarations unchanged and in order.
    pub fn new(routes: Vec<RouteDecl>, schemas: Vec<Schema>, tags: Vec<Tag>) -> (r: Result<
        ApiDescriptor,
        DescriptorError,
    >)
        ensures
            r is Ok <==> spec_references_declared(routes.deep_view(), schemas.deep_view()),
            r matches Ok(d) ==> d@ == (ApiDescriptorModel {
                routes: routes.deep_view(),
                schemas: schemas.deep_view(),
                tags: tags.deep_view(),
            }),
    {
        let n = routes.len();
        let mut i: usize = 0;
        while i < n
            invariant
                i <= n,
                n == routes.len(),
                forall|k: int|
                    0 <= k < i ==> spec_body_declared(
                        (#[trigger] routes.deep_view()[k]).body,
                        schemas.deep_view(),
                    ),
            decreases n - i,
        {
            proof {
                assert(routes.deep_view()[i as int] == routes@[i as int]@);
            }
            let ok = body_is_declared(&routes[i].body, &schemas);
            if !ok {
                proof {
                    assert(!spec_body_declared(
                        routes.deep_view()[i as int].body,
                        schemas.deep_view(),
                    ));
                }
                return Err(DescriptorError::UndeclaredSchema);
            }
            i = i + 1;
        }
        Ok(ApiDescriptor { routes, schemas, tags })
    }
}

/// The JSON schema fragment for a field type.
pub open spec fn spec_field_type_json(t: FieldType) -> Seq<char> {
    match t {
        FieldType::Text => "{\"type\":\"string\"}"@,
    }
}

/// The JSON schema fragment for a body shape: the primitive's type, or a
/// reference into the document's schema components.
pub open spec fn spec_render_body(b: BodySchemaModel) -> Seq<char> {
    match b {
        BodySchemaModel::Primitive(t) => spec_field_type_json(t),
        BodySchemaModel::Reference(n) => "{\"$ref\":"@ + spec_json_string(
            "#/components/schemas/"@ + n,
        ) + "}"@,
    }
}

/// The content type a body shape is served under.
pub open spec fn spec_body_content_type(b: BodySchemaModel) -> Seq<char> {
    match b {
        BodySchemaModel::Primitive(_) => "text/plain"@,
        BodySchemaModel::Reference(_) => "application/json"@,
    }
}

/// The document key of a method.
pub open spec fn spec_method_key(m: Method) -> Seq<char> {
    match m {
        Method::Get => "get"@,
    }
}

/// The `paths` entry of one route.
pub open spec fn spec_render_route(r: RouteDeclModel) -> Seq<char> {
    spec_json_string(r.path) + ":{"@ + spec_json_string(spec_method_key(r.method))
        + ":{\"responses\":{"@ + seq!['"'] + spec_dec(r.response_status as nat)
        + "\":{\"description\":"@ + spec_json_string(r.response_description) + ",\"content\":{"@
        + spec_json_string(spec_body_content_type(r.body)) + ":{\"schema\":"@ + spec_render_body(
        r.body,
    ) + "}}}}}}"@
}

/// The comma-separated `paths` entries of all routes, in declaration order.
pub open spec fn spec_render_routes(rs: Seq<RouteDeclModel>) -> Seq<char>
    decreases rs.len(),
{
    if rs.len() == 0 {
        Seq::empty()
    } else if rs.len() == 1 {
        spec_render_route(rs[0])
    } else {
        spec_render_route(rs[0]) + seq![','] + spec_render_routes(rs.drop_first())
    }
}

proof fn lemma_render_routes_push(rs: Seq<RouteDeclModel>, x: RouteDeclModel)
    ensures
        rs.len() == 0 ==> spec_render_routes(rs.push(x)) == spec_render_route(x),
        rs.len() > 0 ==> spec_render_routes(rs.push(x)) == spec_render_routes(rs) + seq![',']
            + spec_render_route(x),
    decreases rs.len(),
{
    reveal_with_fuel(spec_render_routes, 2);
    if rs.len() == 0 {
        assert(rs.push(x).len() == 1);
        assert(rs.push(x)[0] == x);
    } else if rs.len() == 1 {
        assert(rs.push(x)[0] == rs[0]);
        assert(rs.push(x).drop_first() =~= seq![x]);
        assert(spec_render_routes(seq![x]) == spec_render_route(x));
        assert(spec_render_routes(rs.push(x)) =~= spec_render_routes(rs) + seq![',']
            + spec_render_route(x));
    } else {
        assert(rs.push(x)[0] == rs[0]);
        assert(rs.push(x).drop_first() =~= rs.drop_first().push(x));
        lemma_render_routes_push(rs.drop_first(), x);
        assert(spec_render_routes(rs.push(x)) =~= spec_render_routes(rs) + seq![',']
            + spec_render_route(x));
    }
}

/// The `properties` entry of one schema field.
pub open spec fn spec_render_field(f: SchemaFieldModel) -> Seq<char> {
    spec_json_string(f.name) + seq![':'] + spec_field_type_json(f.ty)
}

/// The comma-separated `properties` entries of a schema's fields, in order.
pub open spec fn spec_render_fields(fs: Seq<SchemaFieldModel>) -> Seq<char>
    decreases fs.len(),
{
    if fs.len() == 0 {
        Seq::empty()
    } else if fs.len() == 1 {
        spec_render_field(fs[0])
    } else {
        spec_render_field(fs[0]) + seq![','] + spec_render_fields(fs.drop_first())
    }
}

proof fn lemma_render_fields_push(fs: Seq<SchemaFieldModel>, x: SchemaFieldModel)
    ensures
        fs.len() == 0 ==> spec_render_fields(fs.push(x)) == spec_render_field(x),
        fs.len() > 0 ==> spec_render_fields(fs.push(x)) == spec_render_fields(fs) + seq![',']
            + spec_render_field(x),
    decreases fs.len(),
{
    reveal_with_fuel(spec_render_fields, 2);
    if fs.len() == 0 {
        assert(fs.push(x).len() == 1);
        assert(fs.push(x)[0] == x);
    } else if fs.len() == 1 {
        assert(fs.push(x)[0] == fs[0]);
        assert(fs.push(x).drop_first() =~= seq![x]);
        assert(spec_render_fields(seq![x]) == spec_render_field(x));
        assert(spec_render_fields(fs.push(x)) =~= spec_render_fields(fs) + seq![',']
            + spec_render_field(x));
    } else {
        assert(fs.push(x)[0] == fs[0]);
        assert(fs.push(x).drop_first() =~= fs.drop_first().push(x));
        lemma_render_fields_push(fs.drop_first(), x);
        assert(spec_render_fields(fs.push(x)) =~= spec_render_fields(fs) + seq![',']
            + spec_render_field(x));
    }
}

/// The `components.schemas` entry of one schema.
pub open spec fn spec_render_schema(s: SchemaModel) -> Seq<char> {
    spec_json_string(s.name) + ":{\"type\":\"object\",\"properties\":{"@ + spec_render_fields(
        s.fields,
    ) + "}}"@
}

/// The comma-separated `components.schemas` entries, in declaration order.
pub open spec fn spec_render_schemas(ss: Seq<SchemaModel>) -> Seq<char>
    decreases ss.len(),
{
    if ss.len() == 0 {
        Seq::empty()
    } else if ss.len() == 1 {
        spec_render_schema(ss[0])
    } else {
        spec_render_schema(ss[0]) + seq![','] + spec_render_schemas(ss.drop_first())
    }
}

proof fn lemma_render_schemas_push(ss: Seq<SchemaModel>, x: SchemaModel)
    ensures
        ss.len() == 0 ==> spec_render_schemas(ss.push(x)) == spec_render_schema(x),
        ss.len() > 0 ==> spec_render_schemas(ss.push(x)) == spec_render_schemas(ss) + seq![',']
            + spec_render_schema(x),
    decreases ss.len(),
{
    reveal_with_fuel(spec_render_schemas, 2);
    if ss.len() == 0 {
        assert(ss.push(x).len() == 1);
        assert(ss.push(x)[0] == x);
    } else if ss.len() == 1 {
        assert(ss.push(x)[0] == ss[0]);
        assert(ss.push(x).drop_first() =~= seq![x]);
        assert(spec_render_schemas(seq![x]) == spec_render_schema(x));
        assert(spec_render_schemas(ss.push(x)) =~= spec_render_schemas(ss) + seq![',']
            + spec_render_schema(x));
    } else {
        assert(ss.push(x)[0] == ss[0]);
        assert(ss.push(x).drop_first() =~= ss.drop_first().push(x));
        lemma_render_schemas_push(ss.drop_first(), x);
        assert(spec_render_schemas(ss.push(x)) =~= spec_render_schemas(ss) + seq![',']
            + spec_render_schema(x));
    }
}

/// The `tags` entry of one tag.
pub open spec fn spec_render_tag(t: TagModel) -> Seq<char> {
    "{\"name\":"@ + spec_json_string(t.name) + ",\"description\":"@ + spec_json_string(
        t.description,
    ) + "}"@
}

/// The comma-separated `tags` entries, in declaration order.
pub open spec fn spec_render_tags(ts: Seq<TagModel>) -> Seq<char>
    decreases ts.len(),
{
    if ts.len() == 0 {
        Seq::empty()
    } else if ts.len() == 1 {
        spec_render_tag(ts[0])
    } else {
        spec_render_tag(ts[0]) + seq![','] + spec_render_tags(ts.drop_first())
    }
}

proof fn lemma_render_tags_push(ts: Seq<TagModel>, x: TagModel)
    ensures
        ts.len() == 0 ==> spec_render_tags(ts.push(x)) == spec_render_tag(x),
        ts.len() > 0 ==> spec_render_tags(ts.push(x)) == spec_render_tags(ts) + seq![',']
            + spec_render_tag(x),
    decreases ts.len(),
{
    reveal_with_fuel(spec_render_tags, 2);
    if ts.len() == 0 {
        assert(ts.push(x).len() == 1);
        assert(ts.push(x)[0] == x);
    } else if ts.len() == 1 {
        assert(ts.push(x)[0] == ts[0]);
        assert(ts.push(x).drop_first() =~= seq![x]);
        assert(spec_render_tags(seq![x]) == spec_render_tag(x));
        assert(spec_render_tags(ts.push(x)) =~= spec_render_tags(ts) + seq![',']
            + spec_render_tag(x));
    } else {
        assert(ts.push(x)[0] == ts[0]);
        assert(ts.push(x).drop_first() =~= ts.drop_first().push(x));
        lemma_render_tags_push(ts.drop_first(), x);
        assert(spec_render_tags(ts.push(x)) =~= spec_render_tags(ts) + seq![',']
            + spec_render_tag(x));
    }
}

/// The whole JSON document of the descriptor.
pub open spec fn spec_render_document(d: ApiDescriptorModel) -> Seq<char> {
    "{\"openapi\":\"3.0.3\",\"info\":{\"title\":\"mi_api\",\"version\":\"0.1.0\"},\"paths\":{"@
        + spec_render_routes(d.routes) + "},\"components\":{\"schemas\":{"@ + spec_render_schemas(
        d.schemas,
    ) + "}},\"tags\":["@ + spec_render_tags(d.tags) + "]}"@
}

fn push_body(out: &mut Vec<char>, b: &BodySchema)
    ensures
        final(out)@ == old(out)@ + spec_render_body(b@),
{
    match b {
        BodySchema::Primitive(t) => {
            match t {
                FieldType::Text => push_str_chars(out, "{\"type\":\"string\"}"),
            }
        },
        BodySchema::Reference(name) => {
            push_str_chars(out, "{\"$ref\":");
            let mut target: String = "#/components/schemas/".to_owned();
            target.append(name.as_str());
            push_json_string(out, target.as_str());
            push_str_chars(out, "}");
            proof {
                assert(out@ =~= old(out)@ + spec_render_body(b@));
            }
        },
    }
}

fn push_route(out: &mut Vec<char>, r: &RouteDecl)
    ensures
        final(out)@ == old(out)@ + spec_render_route(r@),
{
    push_json_string(out, r.path.as_str());
    push_str_chars(out, ":{");
    match r.method {
        Method::Get => push_json_string(out, "get"),
    }
    push_str_chars(out, ":{\"responses\":{");
    out.push('"');
    push_dec(out, r.response_status);
    push_str_chars(out, "\":{\"description\":");
    push_json_string(out, r.response_description.as_str());
    push_str_chars(out, ",\"content\":{");
    match &r.body {
        BodySchema::Primitive(_) => push_json_string(out, "text/plain"),
        BodySchema::Reference(_) => push_json_string(out, "application/json"),
    }
    push_str_chars(out, ":{\"schema\":");
    push_body(out, &r.body);
    push_str_chars(out, "}}}}}}");
    proof {
        assert(out@ =~= old(out)@ + spec_render_route(r@));
    }
}

fn push_schema(out: &mut Vec<char>, s: &Schema)
    ensures
        final(out)@ == old(out)@ + spec_render_schema(s@),
{
    push_json_string(out, s.name.as_str());
    push_str_chars(out, ":{\"type\":\"object\",\"properties\":{");
    let ghost mid = out@;
    let n = s.fields.len();
    let mut i: usize = 0;
    while i < n
        invariant
            i <= n,
            n == s.fields.len(),
            out@ == mid + spec_render_fields(s@.fields.subrange(0, i as int)),
        decreases n - i,
    {
        if i > 0 {
            out.push(',');
        }
        proof {
            assert(s@.fields[i as int] == s.fields@[i as int]@);
        }
        let f = &s.fields[i];
        push_json_string(out, f.name.as_str());
        out.push(':');
        match f.ty {
            FieldType::Text => push_str_chars(out, "{\"type\":\"string\"}"),
        }
        proof {
            lemma_render_fields_push(s@.fields.subrange(0, i as int), s@.fields[i as int]);
            assert(s@.fields.subrange(0, (i + 1) as int) =~= s@.fields.subrange(0, i as int).push(
                s@.fields[i as int],
            ));
            assert(out@ =~= mid + spec_render_fields(s@.fields.subrange(0, (i + 1) as int)));
        }
        i = i + 1;
    }
    push_str_chars(out, "}}");
    proof {
        assert(s@.fields.subrange(0, n as int) =~= s@.fields);
        assert(out@ =~= old(out)@ + spec_render_schema(s@));
    }
}

fn push_tag(out: &mut Vec<char>, t: &Tag)
    ensures
        final(out)@ == old(out)@ + spec_render_tag(t@),
{
    push_str_chars(out, "{\"name\":");
    push_json_string(out, t.name.as_str());
    push_str_chars(out, ",\"description\":");
    push_json_string(out, t.description.as_str());
    push_str_chars(out, "}");
    proof {
        assert(out@ =~= old(out)@ + spec_render_tag(t@));
    }
}

impl ApiDescriptor {
    /// Render the descriptor as its JSON document. The result is a pure
    /// function of the declarations: the same descriptor always renders to
    /// the same text.
    pub fn to_document(&self) -> (r: String)
        ensures
            r@ == spec_render_document(self@),
    {
        let mut out: Vec<char> = Vec::new();
        push_str_chars(
            &mut out,
            "{\"openapi\":\"3.0.3\",\"info\":{\"title\":\"mi_api\",\"version\":\"0.1.0\"},\"paths\":{",
        );
        let ghost mid_routes = out@;
        let nr = self.routes.len();
        let mut i: usize = 0;
        while i < nr
            invariant
                i <= nr,
                nr == self.routes.len(),
                out@ == mid_routes + spec_render_routes(self@.routes.subrange(0, i as int)),
            decreases nr - i,
        {
            if i > 0 {
                out.push(',');
            }
            proof {
                assert(self@.routes[i as int] == self.routes@[i as int]@);
            }
            push_route(&mut out, &self.routes[i]);
            proof {
                lemma_render_routes_push(
                    self@.routes.subrange(0, i as int),
                    self@.routes[i as int],
                );
                assert(self@.routes.subrange(0, (i + 1) as int) =~= self@.routes.subrange(
                    0,
                    i as int,
                ).push(self@.routes[i as int]));
                assert(out@ =~= mid_routes + spec_render_routes(
                    self@.routes.subrange(0, (i + 1) as int),
                ));
            }
            i = i + 1;
        }
        proof {
            assert(self@.routes.subrange(0, nr as int) =~= self@.routes);
        }
        push_str_chars(&mut out, "},\"components\":{\"schemas\":{");
        let ghost mid_schemas = out@;
        let ns = self.schemas.len();
        let mut j: usize = 0;
        while j < ns
            invariant
                j <= ns,
                ns == self.schemas.len(),
                out@ == mid_schemas + spec_render_schemas(self@.schemas.subrange(0, j as int)),
            decreases ns - j,
        {
            if j > 0 {
                out.push(',');
            }
            proof {
                assert(self@.schemas[j as int] == self.schemas@[j as int]@);
            }
            push_schema(&mut out, &self.schemas[j]);
            proof {
                lemma_render_schemas_push(
                    self@.schemas.subrange(0, j as int),
                    self@.schemas[j as int],
                );
                assert(self@.schemas.subrange(0, (j + 1) as int) =~= self@.schemas.subrange(
                    0,
                    j as int,
                ).push(self@.schemas[j as int]));
                assert(out@ =~= mid_schemas + spec_render_schemas(
                    self@.schemas.subrange(0, (j + 1) as int),
                ));
            }
            j = j + 1;
        }
        proof {
            assert(self@.schemas.subrange(0, ns as int) =~= self@.schemas);
        }
        push_str_chars(&mut out, "}},\"tags\":[");
        let ghost mid_tags = out@;
        let nt = self.tags.len();
        let mut k: usize = 0;
        while k < nt
            invariant
                k <= nt,
                nt == self.tags.len(),
                out@ == mid_tags + spec_render_tags(self@.tags.subrange(0, k as int)),
            decreases nt - k,
        {
            if k > 0 {
                out.push(',');
            }
            proof {
                assert(self@.tags[k as int] == self.tags@[k as int]@);
            }
            push_tag(&mut out, &self.tags[k]);
            proof {
                lemma_render_tags_push(self@.tags.subrange(0, k as int), self@.tags[k as int]);
                assert(self@.tags.subrange(0, (k + 1) as int) =~= self@.tags.subrange(
                    0,
                    k as int,
                ).push(self@.tags[k as int]));
                assert(out@ =~= mid_tags + spec_render_tags(
                    self@.tags.subrange(0, (k + 1) as int),
                ));
            }
            k = k + 1;
        }
        proof {
            assert(self@.tags.subrange(0, nt as int) =~= self@.tags);
        }
        push_str_chars(&mut out, "]}");
        proof {
            assert(out@ =~= spec_render_document(self@));
        }
        string_from_chars(out)
    }
}

} // verus!
