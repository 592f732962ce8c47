//! The OpenAPI description of the service: a fixed document naming the one
//! path, its response schema, and the `Health` tag.

use vstd::prelude::*;

verus! {

/// The OpenAPI document, byte for byte: version 3, the `GET /health` path
/// with a 200 response of `HealthResponse`, the `HealthResponse` object
/// schema with its required string property `status`, and the `Health` tag.
pub open spec fn openapi_doc_spec() -> Seq<char> {
    "{\"openapi\":\"3.1.0\",\"info\":{\"title\":\"SEO Engine API\",\"description\":\"Rust + Qdrant SEO engine\",\"version\":\"1.0.0\"},\"paths\":{\"/health\":{\"get\":{\"tags\":[\"Health\"],\"responses\":{\"200\":{\"description\":\"Health check endpoint\",\"content\":{\"application/json\":{\"schema\":{\"$ref\":\"#/components/schemas/HealthResponse\"}}}}}}}},\"components\":{\"schemas\":{\"HealthResponse\":{\"type\":\"object\",\"required\":[\"status\"],\"properties\":{\"status\":{\"type\":\"string\"}}}}},\"tags\":[{\"name\":\"Health\",\"description\":\"Health check endpoints\"}]}"@
}

/// The document served at the API-description path.
pub fn openapi_json() -> (r: String)
    ensures
        r@ == openapi_doc_spec(),
{
    String::from_str(
        "{\"openapi\":\"3.1.0\",\"info\":{\"title\":\"SEO Engine API\",\"description\":\"Rust + Qdrant SEO engine\",\"version\":\"1.0.0\"},\"paths\":{\"/health\":{\"get\":{\"tags\":[\"Health\"],\"responses\":{\"200\":{\"description\":\"Health check endpoint\",\"content\":{\"application/json\":{\"schema\":{\"$ref\":\"#/components/schemas/HealthResponse\"}}}}}}}},\"components\":{\"schemas\":{\"HealthResponse\":{\"type\":\"object\",\"required\":[\"status\"],\"properties\":{\"status\":{\"type\":\"string\"}}}}},\"tags\":[{\"name\":\"Health\",\"description\":\"Health check endpoints\"}]}",
    )
}

/// The documentation page, byte for byte: an HTML page that loads the
/// Swagger UI renderer and points it at the OpenAPI document's path.
pub open spec fn docs_html_spec() -> Seq<char> {
    "<!DOCTYPE html><html><head><meta charset=\"utf-8\"><title>SEO Engine API</title><link rel=\"stylesheet\" href=\"https://unpkg.com/swagger-ui-dist@5/swagger-ui.css\"></head><body><div id=\"swagger-ui\"></div><script src=\"https://unpkg.com/swagger-ui-dist@5/swagger-ui-bundle.js\"></script><script>window.onload = function () { SwaggerUIBundle({ url: \"/api-docs/openapi.json\", dom_id: \"#swagger-ui\" }); };</script></body></html>"@
}

/// The page served at the documentation path.
pub fn docs_html() -> (r: String)
    ensures
        r@ == docs_html_spec(),
{
    String::from_str(
        "<!DOCTYPE html><html><head><meta charset=\"utf-8\"><title>SEO Engine API</title><link rel=\"stylesheet\" href=\"https://unpkg.com/swagger-ui-dist@5/swagger-ui.css\"></head><body><div id=\"swagger-ui\"></div><script src=\"https://unpkg.com/swagger-ui-dist@5/swagger-ui-bundle.js\"></script><script>window.onload = function () { SwaggerUIBundle({ url: \"/api-docs/openapi.json\", dom_id: \"#swagger-ui\" }); };</script></body></html>",
    )
}

} // verus!
