//! The service: the route table and the rendered documentation document,
//! both built once at startup from the same declarations and read-only
//! afterwards. Dispatch is a pure function of the request: exact-match
//! routing first, then the two documentation paths, then not-found.

use vstd::prelude::*;
use vstd::pervasive::unreached;
use crate::descriptor::{
    spec_body_declared, spec_references_declared, spec_render_document, spec_schema_declared,
    ApiDescriptor, ApiDescriptorModel, Tag, TagModel,
};
use crate::handlers::{
    hola, obtener_mensaje, spec_hola_response, spec_mensaje_response, Response, ResponseModel,
};
use crate::routes::{
    spec_lookup, BodySchema, BodySchemaModel, HandlerId, Method, RouteDecl, RouteDeclModel,
    RouteTable,
};
use crate::schema::{mensaje_schema, spec_mensaje_schema, FieldType, Schema, SchemaModel};
use crate::text::{spec_starts_with, str_eq, str_starts_with};

verus! {

/// The model of this service's two route declarations.
pub open spec fn spec_default_routes() -> Seq<RouteDeclModel> {
    seq![
        RouteDeclModel {
            method: Method::Get,
            path: "/"@,
            handler: HandlerId::Hola,
            response_status: 200,
            response_description: "Saludo inicial"@,
            body: BodySchemaModel::Primitive(FieldType::Text),
        },
        RouteDeclModel {
            method: Method::Get,
            path: "/mensaje"@,
            handler: HandlerId::ObtenerMensaje,
            response_status: 200,
            response_description: "Obtener un mensaje"@,
            body: BodySchemaModel::Reference("Mensaje"@),
        },
    ]
}

/// This service's two route declarations.
pub fn default_routes() -> (v: Vec<RouteDecl>)
    ensures
        v.deep_view() == spec_default_routes(),
{
    let mut v: Vec<RouteDecl> = Vec::new();
    v.push(
        RouteDecl {
            method: Method::Get,
            path: "/".to_owned(),
            handler: HandlerId::Hola,
            response_status: 200,
            response_description: "Saludo inicial".to_owned(),
            body: BodySchema::Primitive(FieldType::Text),
        },
    );
    v.push(
        RouteDecl {
            method: Method::Get,
            path: "/mensaje".to_owned(),
            handler: HandlerId::ObtenerMensaje,
            response_status: 200,
            response_description: "Obtener un mensaje".to_owned(),
            body: BodySchema::Reference("Mensaje".to_owned()),
        },
    );
    proof {
        assert(v.deep_view() =~= spec_default_routes());
    }
    v
}

/// The model of the schema set: the one message schema.
pub open spec fn spec_default_schemas() -> Seq<SchemaModel> {
    seq![spec_mensaje_schema()]
}

/// The schema set: the one message schema.
pub fn default_schemas() -> (v: Vec<Schema>)
    ensures
        v.deep_view() == spec_default_schemas(),
{
    let mut v: Vec<Schema> = Vec::new();
    v.push(mensaje_schema());
    proof {
        assert(v.deep_view() =~= spec_default_schemas());
    }
    v
}

/// The model of the tag metadata.
pub open spec fn spec_default_tags() -> Seq<TagModel> {
    seq![TagModel { name: "mi_api"@, description: "API de ejemplo con Swagger"@ }]
}

/// The tag metadata grouping the routes for display.
pub fn default_tags() -> (v: Vec<Tag>)
    ensures
        v.deep_view() == spec_default_tags(),
{
    let mut v: Vec<Tag> = Vec::new();
    v.push(Tag { name: "mi_api".to_owned(), description: "API de ejemplo con Swagger".to_owned() });
    proof {
        assert(v.deep_view() =~= spec_default_tags());
    }
    v
}

/// The model of the whole default descriptor.
pub open spec fn spec_default_descriptor() -> ApiDescriptorModel {
    ApiDescriptorModel {
        routes: spec_default_routes(),
        schemas: spec_default_schemas(),
        tags: spec_default_tags(),
    }
}

/// Every schema the default routes reference is declared in the default
/// schema set, so descriptor construction succeeds.
pub proof fn lemma_default_declarations_consistent()
    ensures
        spec_references_declared(spec_default_routes(), spec_default_schemas()),
{
    let rs = spec_default_routes();
    let ss = spec_default_schemas();
    assert forall|i: int| 0 <= i < rs.len() implies spec_body_declared(
        (#[trigger] rs[i]).body,
        ss,
    ) by {
        if i == 0 {
            assert(rs[0].body == BodySchemaModel::Primitive(FieldType::Text));
        } else {
            assert(rs[1].body == BodySchemaModel::Reference("Mensaje"@));
            assert(ss[0].name == "Mensaje"@);
            assert(spec_schema_declared(ss, "Mensaje"@));
        }
    }
}

/// The handler the default declarations route a request to.
pub proof fn lemma_default_lookup(m: Method, p: Seq<char>)
    ensures
        spec_lookup(spec_default_routes(), m, p) == (if p == "/"@ {
            Some(HandlerId::Hola)
        } else if p == "/mensaje"@ {
            Some(HandlerId::ObtenerMensaje)
        } else {
            None::<HandlerId>
        }),
{
    reveal_with_fuel(spec_lookup, 3);
    let rs = spec_default_routes();
    assert(m == Method::Get);
    assert(rs[0].path == "/"@);
    assert(rs.drop_first()[0] == rs[1]);
    assert(rs.drop_first().drop_first().len() == 0);
}

/// The response serving the documentation document.
pub open spec fn spec_document_response() -> ResponseModel {
    ResponseModel {
        status: 200,
        content_type: "application/json"@,
        body: spec_render_document(spec_default_descriptor()),
    }
}

/// The documentation browser's index asset.
pub open spec fn spec_ui_index() -> Seq<char> {
    "<!DOCTYPE html><html><head><title>mi_api</title></head><body><p>La descripcion de la API esta en /api-docs/openapi.json</p></body></html>"@
}

/// The response serving the documentation browser's index asset.
pub open spec fn spec_ui_response() -> ResponseModel {
    ResponseModel { status: 200, content_type: "text/html"@, body: spec_ui_index() }
}

/// The response for a request that nothing matches.
pub open spec fn spec_not_found_response() -> ResponseModel {
    ResponseModel { status: 404, content_type: "text/plain"@, body: "Not Found"@ }
}

/// The dispatcher's response, as a pure function of the request alone.
pub open spec fn spec_handle(m: Method, p: Seq<char>) -> ResponseModel {
    if m == Method::Get && p == "/"@ {
        spec_hola_response()
    } else if m == Method::Get && p == "/mensaje"@ {
        spec_mensaje_response()
    } else if m == Method::Get && p == "/api-docs/openapi.json"@ {
        spec_document_response()
    } else if m == Method::Get && spec_starts_with(p, "/swagger-ui/"@) {
        spec_ui_response()
    } else {
        spec_not_found_response()
    }
}

/// The documentation browser's index asset.
fn ui_index() -> (r: &'static str)
    ensures
        r@ == spec_ui_index(),
{
    "<!DOCTYPE html><html><head><title>mi_api</title></head><body><p>La descripcion de la API esta en /api-docs/openapi.json</p></body></html>"
}

/// The service: the route table and the documentation document, built once
/// from the same declarations.
pub struct Service {
    table: RouteTable,
    document: String,
}

impl Service {
    /// Well-formed: the table holds exactly the default declarations and the
    /// document is their rendering.
    pub closed spec fn wf(&self) -> bool {
        &&& self.table@ == spec_default_routes()
        &&& self.document@ == spec_render_document(spec_default_descriptor())
    }

    /// Build the service: construct the descriptor from the declarations,
    /// render the document once, and fill the route table from the same
    /// declarations.
    pub fn new() -> (s: Service)
        ensures
            s.wf(),
    {
        let routes = default_routes();
        let schemas = default_schemas();
        let tags = default_tags();
        proof {
            lemma_default_declarations_consistent();
        }
        let descriptor = match ApiDescriptor::new(routes, schemas, tags) {
            Ok(d) => d,
            Err(_) => unreached(),
        };
        let document = descriptor.to_document();
        let table = RouteTable::build(default_routes());
        Service { table, document }
    }

    /// The documentation document the service serves.
    pub fn document(&self) -> (r: &String)
        requires
            self.wf(),
        ensures
            r@ == spec_render_document(spec_default_descriptor()),
    {
        &self.document
    }

    /// Dispatch one request: exact-match routing over the table, then the
    /// two documentation paths, then not-found.
    pub fn handle(&self, method: Method, path: &str) -> (r: Response)
        requires
            self.wf(),
        ensures
            r@ == spec_handle(method, path@),
    {
        proof {
            lemma_default_lookup(method, path@);
            reveal_strlit("/");
            reveal_strlit("/mensaje");
            reveal_strlit("/api-docs/openapi.json");
            reveal_strlit("/swagger-ui/");
        }
        match self.table.lookup(method, path) {
            Some(HandlerId::Hola) => hola(),
            Some(HandlerId::ObtenerMensaje) => obtener_mensaje(),
            None => {
                if str_eq(path, "/api-docs/openapi.json") {
                    Response {
                        status: 200,
                        content_type: "application/json".to_owned(),
                        body: self.document.clone(),
                    }
                } else if str_starts_with(path, "/swagger-ui/") {
                    proof {
                        assert(path@.subrange(0, 12)[1] == path@[1]);
                    }
                    Response {
                        status: 200,
                        content_type: "text/html".to_owned(),
                        body: ui_index().to_owned(),
                    }
                } else {
                    Response {
                        status: 404,
                        content_type: "text/plain".to_owned(),
                        body: "Not Found".to_owned(),
                    }
                }
            },
        }
    }
}

/// Serving the same request any number of times yields the identical
/// response: the dispatcher is a pure function of the method and the path,
/// with no hidden state.
pub proof fn lemma_handle_deterministic(
    m: Method,
    p: Seq<char>,
    r1: ResponseModel,
    r2: ResponseModel,
)
    requires
        r1 == spec_handle(m, p),
        r2 == spec_handle(m, p),
    ensures
        r1 == r2,
{
}

/// Every GET "/" request is answered 200, plain text, with exactly the
/// greeting.
pub proof fn lemma_root_greeting()
    ensures
        spec_handle(Method::Get, "/"@) == spec_hola_response(),
{
}

/// Every GET "/mensaje" request is answered 200, JSON, with the wire payload
/// of the message.
pub proof fn lemma_mensaje_route()
    ensures
        spec_handle(Method::Get, "/mensaje"@) == spec_mensaje_response(),
{
    reveal_strlit("/");
    reveal_strlit("/mensaje");
    assert("/"@.len() == 1);
    assert("/mensaje"@.len() == 8);
}

/// The document route is answered 200 with the rendering of a descriptor
/// that lists both declared paths and the message schema with exactly its
/// one text field.
pub proof fn lemma_document_covers_declarations()
    ensures
        spec_handle(Method::Get, "/api-docs/openapi.json"@) == spec_document_response(),
        spec_default_descriptor().routes.len() == 2,
        spec_default_descriptor().routes[0].path == "/"@,
        spec_default_descriptor().routes[1].path == "/mensaje"@,
        spec_default_descriptor().schemas.len() == 1,
        spec_default_descriptor().schemas[0].name == "Mensaje"@,
        spec_default_descriptor().schemas[0].fields.len() == 1,
        spec_default_descriptor().schemas[0].fields[0].name == "contenido"@,
        spec_default_descriptor().schemas[0].fields[0].ty == FieldType::Text,
{
    reveal_strlit("/");
    reveal_strlit("/mensaje");
    reveal_strlit("/api-docs/openapi.json");
    assert("/"@.len() == 1);
    assert("/mensaje"@.len() == 8);
    assert("/api-docs/openapi.json"@.len() == 22);
}

/// A GET to a path that neither the table nor the documentation paths match
/// is answered with status 404.
pub proof fn lemma_unmatched_not_found(p: Seq<char>)
    requires
        p != "/"@,
        p != "/mensaje"@,
        p != "/api-docs/openapi.json"@,
        !spec_starts_with(p, "/swagger-ui/"@),
    ensures
        spec_handle(Method::Get, p) == spec_not_found_response(),
{
}

/// Every path under the documentation browser's prefix is answered 200 with
/// the index asset, whatever the sub-path.
pub proof fn lemma_ui_prefix_ok(p: Seq<char>)
    requires
        spec_starts_with(p, "/swagger-ui/"@),
    ensures
        spec_handle(Method::Get, p) == spec_ui_response(),
{
    reveal_strlit("/");
    reveal_strlit("/mensaje");
    reveal_strlit("/api-docs/openapi.json");
    reveal_strlit("/swagger-ui/");
    assert(p.subrange(0, 12)[1] == p[1]);
}

/// The route table and the published documentation never diverge: the table
/// routes a (method, path) exactly when the descriptor documents a route
/// with that method and path.
pub proof fn lemma_table_matches_documentation(m: Method, p: Seq<char>)
    ensures
        spec_lookup(spec_default_routes(), m, p) is Some <==> exists|i: int|
            0 <= i < spec_default_descriptor().routes.len() && (
            #[trigger] spec_default_descriptor().routes[i]).method == m
                && spec_default_descriptor().routes[i].path == p,
{
    lemma_default_lookup(m, p);
    let rs = spec_default_descriptor().routes;
    if p == "/"@ {
        assert(rs[0].method == m && rs[0].path == p);
    } else if p == "/mensaje"@ {
        assert(rs[1].method == m && rs[1].path == p);
    }
}

} // verus!
