use seo_engine::config::{bind_addr, resolve_port, startup_lines, PortError, DEFAULT_PORT};
use seo_engine::health::{health_body, health_response, json_escape_str, render_health, HealthResponse};
use seo_engine::openapi::{docs_html, openapi_json};
use seo_engine::routes::{route, RouteTarget};
use seo_engine::text::{str_eq, str_has_prefix, u16_to_dec};

#[test]
fn health_body_is_constant() {
    let first = health_body();
    let second = health_body();
    assert_eq!(first, "{\"status\":\"OK\"}");
    assert_eq!(second, "{\"status\":\"OK\"}");
    assert_eq!(first, second);
}

#[test]
fn health_response_status_is_ok() {
    let r = health_response();
    assert_eq!(r.status, "OK");
}

#[test]
fn render_health_matches_body() {
    let r = health_response();
    assert_eq!(render_health(&r), health_body());
}

#[test]
fn render_health_escapes_quote_and_backslash() {
    let r = HealthResponse { status: String::from("a\"b\\c") };
    assert_eq!(render_health(&r), "{\"status\":\"a\\\"b\\\\c\"}");
}

#[test]
fn render_health_escapes_control_characters() {
    let r = HealthResponse { status: String::from("x\ny\t\u{01}\u{1f}") };
    assert_eq!(render_health(&r), "{\"status\":\"x\\ny\\t\\u0001\\u001f\"}");
}

#[test]
fn json_escape_leaves_plain_text_alone() {
    assert_eq!(json_escape_str("hello world"), "hello world");
    assert_eq!(json_escape_str(""), "");
    assert_eq!(json_escape_str("héllo"), "héllo");
}

#[test]
fn json_escape_carriage_return() {
    assert_eq!(json_escape_str("a\rb"), "a\\rb");
}

#[test]
fn openapi_document_parses_as_json() {
    let doc = openapi_json();
    let v: serde_json::Value = serde_json::from_str(&doc).unwrap();
    let version = v["openapi"].as_str().unwrap();
    assert!(version.starts_with("3."));
}

#[test]
fn openapi_document_has_health_path() {
    let doc = openapi_json();
    let v: serde_json::Value = serde_json::from_str(&doc).unwrap();
    assert!(v["paths"]["/health"]["get"].is_object());
    let tags = v["paths"]["/health"]["get"]["tags"].as_array().unwrap();
    assert_eq!(tags[0].as_str().unwrap(), "Health");
    assert!(v["paths"]["/health"]["get"]["responses"]["200"].is_object());
}

#[test]
fn openapi_document_has_health_response_schema() {
    let doc = openapi_json();
    let v: serde_json::Value = serde_json::from_str(&doc).unwrap();
    let schema = &v["components"]["schemas"]["HealthResponse"];
    assert_eq!(schema["type"].as_str().unwrap(), "object");
    assert_eq!(schema["properties"]["status"]["type"].as_str().unwrap(), "string");
    let required = schema["required"].as_array().unwrap();
    assert!(required.iter().any(|r| r.as_str() == Some("status")));
}

#[test]
fn openapi_document_info() {
    let doc = openapi_json();
    let v: serde_json::Value = serde_json::from_str(&doc).unwrap();
    assert_eq!(v["info"]["title"].as_str().unwrap(), "SEO Engine API");
    assert_eq!(v["info"]["version"].as_str().unwrap(), "1.0.0");
    assert_eq!(v["info"]["description"].as_str().unwrap(), "Rust + Qdrant SEO engine");
}

#[test]
fn openapi_document_parses_into_utoipa() {
    let doc = openapi_json();
    let parsed: Result<utoipa::openapi::OpenApi, _> = serde_json::from_str(&doc);
    assert!(parsed.is_ok());
}

#[test]
fn docs_page_is_html_and_names_the_document() {
    let page = docs_html();
    assert!(page.contains("<html"));
    assert!(page.contains("</html>"));
    assert!(page.contains("/api-docs/openapi.json"));
    assert!(page.contains("swagger-ui"));
}

#[test]
fn route_health() {
    assert_eq!(route("GET", "/health"), RouteTarget::Health);
}

#[test]
fn route_openapi_document() {
    assert_eq!(route("GET", "/api-docs/openapi.json"), RouteTarget::OpenApiDoc);
}

#[test]
fn route_docs_ui_and_subpaths() {
    assert_eq!(route("GET", "/docs"), RouteTarget::DocsUi);
    assert_eq!(route("GET", "/docs/index.html"), RouteTarget::DocsUi);
    assert_eq!(route("GET", "/docs/"), RouteTarget::DocsUi);
}

#[test]
fn route_unknown_path_is_not_found() {
    assert_eq!(route("GET", "/nonexistent"), RouteTarget::NotFound);
    assert_eq!(route("GET", "/docsx"), RouteTarget::NotFound);
    assert_eq!(route("GET", "/"), RouteTarget::NotFound);
    assert_eq!(route("GET", ""), RouteTarget::NotFound);
}

#[test]
fn route_other_methods_are_not_found() {
    assert_eq!(route("POST", "/health"), RouteTarget::NotFound);
    assert_eq!(route("PUT", "/docs"), RouteTarget::NotFound);
    assert_eq!(route("", "/health"), RouteTarget::NotFound);
}

#[test]
fn default_port_when_env_absent() {
    assert_eq!(resolve_port(None), Ok(3000));
    assert_eq!(DEFAULT_PORT, 3000);
}

#[test]
fn configured_port_is_honored() {
    assert_eq!(resolve_port(Some("4567")), Ok(4567));
    assert_eq!(resolve_port(Some("80")), Ok(80));
    assert_eq!(resolve_port(Some("0")), Ok(0));
    assert_eq!(resolve_port(Some("65535")), Ok(65535));
    assert_eq!(resolve_port(Some("+80")), Ok(80));
    assert_eq!(resolve_port(Some("0080")), Ok(80));
}

#[test]
fn invalid_port_is_rejected() {
    assert_eq!(resolve_port(Some("notanumber")), Err(PortError::InvalidPort));
    assert_eq!(resolve_port(Some("70000")), Err(PortError::InvalidPort));
    assert_eq!(resolve_port(Some("65536")), Err(PortError::InvalidPort));
    assert_eq!(resolve_port(Some("")), Err(PortError::InvalidPort));
    assert_eq!(resolve_port(Some("+")), Err(PortError::InvalidPort));
    assert_eq!(resolve_port(Some("-1")), Err(PortError::InvalidPort));
    assert_eq!(resolve_port(Some(" 3000")), Err(PortError::InvalidPort));
    assert_eq!(resolve_port(Some("3e3")), Err(PortError::InvalidPort));
    assert_eq!(resolve_port(Some("12.5")), Err(PortError::InvalidPort));
}

#[test]
fn port_parsing_agrees_with_std() {
    for s in ["3000", "4567", "0", "65535", "65536", "70000", "+80", "", "+", "abc", "007"] {
        let expected = s.parse::<u16>().ok().ok_or(PortError::InvalidPort);
        assert_eq!(resolve_port(Some(s)), expected, "input {:?}", s);
    }
}

#[test]
fn port_error_message() {
    assert_eq!(PortError::InvalidPort.message(), "PORT must be a valid number");
}

#[test]
fn bind_address_formatting() {
    assert_eq!(bind_addr(3000), "0.0.0.0:3000");
    assert_eq!(bind_addr(0), "0.0.0.0:0");
    assert_eq!(bind_addr(80), "0.0.0.0:80");
    assert_eq!(bind_addr(65535), "0.0.0.0:65535");
}

#[test]
fn decimal_formatting() {
    assert_eq!(u16_to_dec(0), "0");
    assert_eq!(u16_to_dec(7), "7");
    assert_eq!(u16_to_dec(10), "10");
    assert_eq!(u16_to_dec(4567), "4567");
    assert_eq!(u16_to_dec(65535), "65535");
}

#[test]
fn startup_banner_lines() {
    let lines = startup_lines("0.0.0.0:3000");
    assert_eq!(lines.len(), 3);
    assert_eq!(lines[0], "Server running at http://0.0.0.0:3000");
    assert_eq!(lines[1], "Health: http://0.0.0.0:3000/health");
    assert_eq!(lines[2], "API docs: http://0.0.0.0:3000/docs");
}

#[test]
fn string_equality_helper() {
    assert!(str_eq("GET", "GET"));
    assert!(!str_eq("GET", "PUT"));
    assert!(!str_eq("GET", "GETX"));
    assert!(str_eq("", ""));
    assert!(str_eq("héllo", "héllo"));
    assert!(!str_eq("héllo", "hello"));
}

#[test]
fn string_prefix_helper() {
    assert!(str_has_prefix("/docs/index.html", "/docs/"));
    assert!(str_has_prefix("/docs/", "/docs/"));
    assert!(!str_has_prefix("/docs", "/docs/"));
    assert!(!str_has_prefix("/docsx", "/docs/"));
    assert!(str_has_prefix("anything", ""));
}
