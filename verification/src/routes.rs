//! Route declarations and the route table. A route declaration is one plain
//! record binding a method and path to a handler reference and to the
//! response metadata the API descriptor publishes; the table and the
//! descriptor are both built from the same declarations. Lookup is an exact
//! match on method and path, first declaration wins.

use vstd::prelude::*;
use crate::schema::FieldType;
use crate::text::str_eq;

verus! {

/// An HTTP method; this service only ever registers GET.
#[derive(Clone, Copy, PartialEq, Eq, Structural, Debug)]
pub enum Method {
    Get,
}

/// A reference to one of the service's handlers.
#[derive(Clone, Copy, PartialEq, Eq, Structural, Debug)]
pub enum HandlerId {
    Hola,
    ObtenerMensaje,
}

/// The shape of a response body: a bare primitive, or a reference to a
/// declared schema by name.
pub enum BodySchema {
    Primitive(FieldType),
    Reference(String),
}

/// The mathematical model of a body shape.
pub enum BodySchemaModel {
    Primitive(FieldType),
    Reference(Seq<char>),
}

impl View for BodySchema {
    type V = BodySchemaModel;

    open spec fn view(&self) -> BodySchemaModel {
        match self {
            BodySchema::Primitive(t) => BodySchemaModel::Primitive(*t),
            BodySchema::Reference(n) => BodySchemaModel::Reference(n@),
        }
    }
}

/// One route declaration: the (method, path) key, the handler it routes to,
/// and the response metadata the API descriptor publishes for it.
pub struct RouteDecl {
    pub method: Method,
    pub path: String,
    pub handler: HandlerId,
    pub response_status: u16,
    pub response_description: String,
    pub body: BodySchema,
}

/// The mathematical model of a route declaration.
pub struct RouteDeclModel {
    pub method: Method,
    pub path: Seq<char>,
    pub handler: HandlerId,
    pub response_status: u16,
    pub response_description: Seq<char>,
    pub body: BodySchemaModel,
}

impl DeepView for RouteDecl {
    type V = RouteDeclModel;

    open spec fn deep_view(&self) -> RouteDeclModel {
        self.view()
    }
}

impl View for RouteDecl {
    type V = RouteDeclModel;

    open spec fn view(&self) -> RouteDeclModel {
        RouteDeclModel {
            method: self.method,
            path: self.path@,
            handler: self.handler,
            response_status: self.response_status,
            response_description: self.response_description@,
            body: self.body@,
        }
    }
}

/// The handler the declarations route a request to: the first declaration
/// whose method and path both match, if any.
pub open spec fn spec_lookup(entries: Seq<RouteDeclModel>, m: Method, p: Seq<char>) -> Option<
    HandlerId,
>
    decreases entries.len(),
{
    if entries.len() == 0 {
        None
    } else if entries[0].method == m && entries[0].path == p {
        Some(entries[0].handler)
    } else {
        spec_lookup(entries.drop_first(), m, p)
    }
}

/// The route table: built once from the declarations, read-only afterwards.
pub struct RouteTable {
    entries: Vec<RouteDecl>,
}

impl View for RouteTable {
    type V = Seq<RouteDeclModel>;

    closed spec fn view(&self) -> Seq<RouteDeclModel> {
        self.entries.deep_view()
    }
}

impl RouteTable {
    /// Build the table from the route declarations.
    pub fn build(entries: Vec<RouteDecl>) -> (t: RouteTable)
        ensures
            t@ == entries.deep_view(),
    {
        RouteTable { entries }
    }

    /// The number of registered routes.
    pub fn len(&self) -> (n: usize)
        ensures
            n == self@.len(),
    {
        self.entries.len()
    }

    /// Exact-match lookup of (method, path), first declaration wins.
    pub fn lookup(&self, method: Method, path: &str) -> (r: Option<HandlerId>)
        ensures
            r == spec_lookup(self@, method, path@),
    {
        let n = self.entries.len();
        let mut i: usize = 0;
        proof {
            assert(self@.skip(0) =~= self@);
        }
        while i < n
            invariant
                i <= n,
                n == self.entries.len(),
                spec_lookup(self@, method, path@) == spec_lookup(
                    self@.skip(i as int),
                    method,
                    path@,
                ),
            decreases n - i,
        {
            proof {
                assert(self@.skip(i as int)[0] == self@[i as int]);
                assert(self@[i as int] == self.entries@[i as int]@);
            }
            let e = &self.entries[i];
            if e.method == method && str_eq(e.path.as_str(), path) {
                return Some(e.handler);
            }
            proof {
                assert(self@.skip(i as int).drop_first() =~= self@.skip(i as int + 1));
            }
            i = i + 1;
        }
        proof {
            assert(self@.skip(n as int) =~= Seq::<RouteDeclModel>::empty());
        }
        None
    }
}

} // verus!
