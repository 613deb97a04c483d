use mi_api::schema::{mensaje_schema, FieldType, Mensaje};

#[test]
fn mensaje_to_json_exact() {
    let m = Mensaje {
        contenido: "Este es un mensaje desde la API".to_string(),
    };
    assert_eq!(
        m.to_json(),
        "{\"contenido\":\"Este es un mensaje desde la API\"}"
    );
}

#[test]
fn mensaje_to_json_escapes() {
    let m = Mensaje {
        contenido: "a\"b\\c\nd".to_string(),
    };
    assert_eq!(m.to_json(), "{\"contenido\":\"a\\\"b\\\\c\\u000ad\"}");
    let v: serde_json::Value = serde_json::from_str(&m.to_json()).unwrap();
    assert_eq!(v["contenido"], "a\"b\\c\nd");
}

#[test]
fn mensaje_to_json_keeps_unicode() {
    let m = Mensaje {
        contenido: "¡señal!".to_string(),
    };
    assert_eq!(m.to_json(), "{\"contenido\":\"¡señal!\"}");
}

#[test]
fn wire_fields_match_schema_declaration() {
    let schema = mensaje_schema();
    assert_eq!(schema.name, "Mensaje");
    let declared: Vec<&str> = schema.fields.iter().map(|f| f.name.as_str()).collect();
    for f in &schema.fields {
        assert!(matches!(f.ty, FieldType::Text));
    }
    let m = Mensaje {
        contenido: "x".to_string(),
    };
    let json = m.to_json();
    let v: serde_json::Value = serde_json::from_str(&json).unwrap();
    let obj = v.as_object().unwrap();
    let emitted: Vec<&str> = obj.keys().map(|k| k.as_str()).collect();
    assert_eq!(declared, emitted);
    for value in obj.values() {
        assert!(value.is_string());
    }
}
