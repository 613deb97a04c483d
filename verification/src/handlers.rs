//! The handlers: pure request-to-response mappings. Neither handler reads
//! anything from the request, so each response is a fixed value, stated
//! exactly by its contract.

use vstd::prelude::*;
use crate::schema::{Mensaje, spec_mensaje_json};

verus! {

/// An HTTP response: the status code, the content type, and the body.
pub struct Response {
    pub status: u16,
    pub content_type: String,
    pub body: String,
}

/// The mathematical model of a response.
pub struct ResponseModel {
    pub status: u16,
    pub content_type: Seq<char>,
    pub body: Seq<char>,
}

impl View for Response {
    type V = ResponseModel;

    open spec fn view(&self) -> ResponseModel {
        ResponseModel {
            status: self.status,
            content_type: self.content_type@,
            body: self.body@,
        }
    }
}

/// The content carried by the message route's response.
pub open spec fn spec_mensaje_contenido() -> Seq<char> {
    "Este es un mensaje desde la API"@
}

/// The response of the greeting route: plain text, status 200.
pub open spec fn spec_hola_response() -> ResponseModel {
    ResponseModel { status: 200, content_type: "text/plain"@, body: "¡Hola, mundo!"@ }
}

/// The response of the message route: a JSON-serialized message, status 200.
pub open spec fn spec_mensaje_response() -> ResponseModel {
    ResponseModel {
        status: 200,
        content_type: "application/json"@,
        body: spec_mensaje_json(spec_mensaje_contenido()),
    }
}

/// Handler of GET "/": the plain-text greeting.
pub fn hola() -> (r: Response)
    ensures
        r@ == spec_hola_response(),
{
    Response {
        status: 200,
        content_type: "text/plain".to_owned(),
        body: "¡Hola, mundo!".to_owned(),
    }
}

/// Handler of GET "/mensaje": a fresh message, serialized to its JSON wire
/// payload.
pub fn obtener_mensaje() -> (r: Response)
    ensures
        r@ == spec_mensaje_response(),
{
    let mensaje = Mensaje { contenido: "Este es un mensaje desde la API".to_owned() };
    let body = mensaje.to_json();
    Response { status: 200, content_type: "application/json".to_owned(), body }
}

} // verus!
