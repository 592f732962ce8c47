//! Request dispatch: which handler a method and path reach.

use vstd::prelude::*;
use crate::text::{str_eq, str_has_prefix};

verus! {

/// Where the router sends a request.
#[derive(Clone, Copy, Debug, PartialEq, Eq, Structural)]
pub enum RouteTarget {
    /// The health probe.
    Health,
    /// The OpenAPI document.
    OpenApiDoc,
    /// The documentation UI.
    DocsUi,
    /// No route matches: a 404 response.
    NotFound,
}

/// True when the path lies at or under the documentation UI mount.
pub open spec fn is_docs_path(path: Seq<char>) -> bool {
    ||| path == "/docs"@
    ||| ("/docs/"@.len() <= path.len() && path.subrange(0, "/docs/"@.len() as int) == "/docs/"@)
}

/// The route for a request: `GET` on one of the three known paths reaches its
/// handler, everything else is not found.
pub open spec fn route_spec(method: Seq<char>, path: Seq<char>) -> RouteTarget {
    if method == "GET"@ {
        if path == "/health"@ {
            RouteTarget::Health
        } else if path == "/api-docs/openapi.json"@ {
            RouteTarget::OpenApiDoc
        } else if is_docs_path(path) {
            RouteTarget::DocsUi
        } else {
            RouteTarget::NotFound
        }
    } else {
        RouteTarget::NotFound
    }
}

/// Dispatches a request by method and path, as the server's router does.
pub fn route(method: &str, path: &str) -> (t: RouteTarget)
    ensures
        t == route_spec(method@, path@),
{
    if !str_eq(method, "GET") {
        return RouteTarget::NotFound;
    }
    if str_eq(path, "/health") {
        return RouteTarget::Health;
    }
    if str_eq(path, "/api-docs/openapi.json") {
        return RouteTarget::OpenApiDoc;
    }
    if str_eq(path, "/docs") || str_has_prefix(path, "/docs/") {
        return RouteTarget::DocsUi;
    }
    RouteTarget::NotFound
}

} // verus!
