use mi_api::routes::Method;
use mi_api::service::Service;

#[test]
fn root_greeting() {
    let s = Service::new();
    let r = s.handle(Method::Get, "/");
    assert_eq!(r.status, 200);
    assert_eq!(r.content_type, "text/plain");
    assert_eq!(r.body, "¡Hola, mundo!");
}

#[test]
fn mensaje_route_wire_format() {
    let s = Service::new();
    let r = s.handle(Method::Get, "/mensaje");
    assert_eq!(r.status, 200);
    assert_eq!(r.content_type, "application/json");
    assert_eq!(r.body, "{\"contenido\":\"Este es un mensaje desde la API\"}");
}

#[test]
fn mensaje_route_deserializes() {
    let s = Service::new();
    let r = s.handle(Method::Get, "/mensaje");
    let v: serde_json::Value = serde_json::from_str(&r.body).unwrap();
    assert_eq!(v["contenido"], "Este es un mensaje desde la API");
}

#[test]
fn same_request_identical_responses() {
    let s = Service::new();
    let paths = [
        "/",
        "/mensaje",
        "/api-docs/openapi.json",
        "/swagger-ui/index.html",
        "/does-not-exist",
    ];
    for p in paths {
        let a = s.handle(Method::Get, p);
        let b = s.handle(Method::Get, p);
        let c = s.handle(Method::Get, p);
        assert_eq!(a.status, b.status);
        assert_eq!(b.status, c.status);
        assert_eq!(a.content_type.as_bytes(), b.content_type.as_bytes());
        assert_eq!(a.body.as_bytes(), b.body.as_bytes());
        assert_eq!(b.body.as_bytes(), c.body.as_bytes());
    }
}

#[test]
fn unregistered_path_not_found() {
    let s = Service::new();
    assert_eq!(s.handle(Method::Get, "/does-not-exist").status, 404);
    assert_eq!(s.handle(Method::Get, "/mensaje/extra").status, 404);
    assert_eq!(s.handle(Method::Get, "").status, 404);
    assert_eq!(s.handle(Method::Get, "/swagger-ui").status, 404);
}

#[test]
fn ui_subpaths_served() {
    let s = Service::new();
    let index = s.handle(Method::Get, "/swagger-ui/index.html");
    assert_eq!(index.status, 200);
    assert_eq!(index.content_type, "text/html");
    assert!(!index.body.is_empty());
    assert_eq!(s.handle(Method::Get, "/swagger-ui/foo").status, 200);
    assert_eq!(s.handle(Method::Get, "/swagger-ui/a/b/c.js").status, 200);
    assert_eq!(s.handle(Method::Get, "/swagger-ui/").status, 200);
}

#[test]
fn openapi_document_structure() {
    let s = Service::new();
    let r = s.handle(Method::Get, "/api-docs/openapi.json");
    assert_eq!(r.status, 200);
    assert_eq!(r.content_type, "application/json");
    let v: serde_json::Value = serde_json::from_str(&r.body).unwrap();
    assert!(v["paths"].get("/").is_some());
    assert!(v["paths"].get("/mensaje").is_some());
    let props = v["components"]["schemas"]["Mensaje"]["properties"]
        .as_object()
        .unwrap();
    assert_eq!(props.len(), 1);
    assert_eq!(props["contenido"]["type"], "string");
}

#[test]
fn openapi_document_details() {
    let s = Service::new();
    let r = s.handle(Method::Get, "/api-docs/openapi.json");
    let v: serde_json::Value = serde_json::from_str(&r.body).unwrap();
    assert_eq!(v["openapi"], "3.0.3");
    assert_eq!(
        v["paths"]["/"]["get"]["responses"]["200"]["description"],
        "Saludo inicial"
    );
    assert_eq!(
        v["paths"]["/"]["get"]["responses"]["200"]["content"]["text/plain"]["schema"]["type"],
        "string"
    );
    assert_eq!(
        v["paths"]["/mensaje"]["get"]["responses"]["200"]["description"],
        "Obtener un mensaje"
    );
    assert_eq!(
        v["paths"]["/mensaje"]["get"]["responses"]["200"]["content"]["application/json"]["schema"]
            ["$ref"],
        "#/components/schemas/Mensaje"
    );
    assert_eq!(v["tags"][0]["name"], "mi_api");
    assert_eq!(v["tags"][0]["description"], "API de ejemplo con Swagger");
}

#[test]
fn document_getter_matches_served_document() {
    let s = Service::new();
    let served = s.handle(Method::Get, "/api-docs/openapi.json");
    assert_eq!(s.document().as_bytes(), served.body.as_bytes());
}
