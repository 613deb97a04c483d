use mi_api::descriptor::{ApiDescriptor, DescriptorError, Tag};
use mi_api::routes::{BodySchema, HandlerId, Method, RouteDecl, RouteTable};
use mi_api::schema::{FieldType, Schema, SchemaField};
use mi_api::service::{default_routes, default_schemas, default_tags};
use mi_api::text::{str_eq, str_starts_with};

fn decl(path: &str, handler: HandlerId, body: BodySchema) -> RouteDecl {
    RouteDecl {
        method: Method::Get,
        path: path.to_string(),
        handler,
        response_status: 200,
        response_description: "d".to_string(),
        body,
    }
}

#[test]
fn lookup_exact_match() {
    let t = RouteTable::build(default_routes());
    assert_eq!(t.len(), 2);
    assert_eq!(t.lookup(Method::Get, "/"), Some(HandlerId::Hola));
    assert_eq!(t.lookup(Method::Get, "/mensaje"), Some(HandlerId::ObtenerMensaje));
    assert_eq!(t.lookup(Method::Get, "/mensajes"), None);
    assert_eq!(t.lookup(Method::Get, "/mensaje/"), None);
    assert_eq!(t.lookup(Method::Get, ""), None);
}

#[test]
fn lookup_first_declaration_wins() {
    let entries = vec![
        decl("/dup", HandlerId::Hola, BodySchema::Primitive(FieldType::Text)),
        decl("/dup", HandlerId::ObtenerMensaje, BodySchema::Primitive(FieldType::Text)),
    ];
    let t = RouteTable::build(entries);
    assert_eq!(t.lookup(Method::Get, "/dup"), Some(HandlerId::Hola));
}

#[test]
fn descriptor_rejects_undeclared_reference() {
    let routes = vec![decl(
        "/r",
        HandlerId::Hola,
        BodySchema::Reference("NoDeclarado".to_string()),
    )];
    let r = ApiDescriptor::new(routes, Vec::new(), Vec::new());
    assert_eq!(r.err(), Some(DescriptorError::UndeclaredSchema));
}

#[test]
fn descriptor_accepts_declared_reference() {
    let routes = vec![decl(
        "/r",
        HandlerId::Hola,
        BodySchema::Reference("Cosa".to_string()),
    )];
    let schemas = vec![Schema {
        name: "Cosa".to_string(),
        fields: vec![SchemaField {
            name: "campo".to_string(),
            ty: FieldType::Text,
        }],
    }];
    let tags = vec![Tag {
        name: "t".to_string(),
        description: "d".to_string(),
    }];
    let d = ApiDescriptor::new(routes, schemas, tags).ok().unwrap();
    let doc = d.to_document();
    let v: serde_json::Value = serde_json::from_str(&doc).unwrap();
    assert_eq!(
        v["paths"]["/r"]["get"]["responses"]["200"]["content"]["application/json"]["schema"]
            ["$ref"],
        "#/components/schemas/Cosa"
    );
    assert_eq!(v["components"]["schemas"]["Cosa"]["properties"]["campo"]["type"], "string");
}

#[test]
fn default_descriptor_builds() {
    let r = ApiDescriptor::new(default_routes(), default_schemas(), default_tags());
    assert!(r.is_ok());
}

#[test]
fn descriptor_renders_status_digits() {
    let mut route = decl("/r", HandlerId::Hola, BodySchema::Primitive(FieldType::Text));
    route.response_status = 65535;
    let d = ApiDescriptor::new(vec![route], Vec::new(), Vec::new())
        .ok()
        .unwrap();
    let v: serde_json::Value = serde_json::from_str(&d.to_document()).unwrap();
    assert!(v["paths"]["/r"]["get"]["responses"].get("65535").is_some());
}

#[test]
fn text_helpers() {
    assert!(str_eq("abc", "abc"));
    assert!(!str_eq("abc", "abd"));
    assert!(!str_eq("abc", "abcd"));
    assert!(str_eq("", ""));
    assert!(str_starts_with("/swagger-ui/x", "/swagger-ui/"));
    assert!(str_starts_with("/swagger-ui/", "/swagger-ui/"));
    assert!(!str_starts_with("/swagger-ui", "/swagger-ui/"));
    assert!(str_starts_with("ñandú", "ñ"));
    assert!(!str_starts_with("andú", "ñ"));
}
