use serve_replica::composer::{
    assemble, crawl_registrations, CompositeDocument, HttpMethod, OperationDescriptor, PathEntry,
    RegistrationOp, SchemaEntry, SecurityScheme,
};
use serve_replica::extra_schemas::example_scraped_result;
use serve_replica::version::{version_path_entry, version_schema_entry};

fn schema(name: &str, definition: &str) -> SchemaEntry {
    SchemaEntry { name: name.to_string(), definition: definition.to_string() }
}

fn path(p: &str, method: HttpMethod, summary: &str) -> PathEntry {
    PathEntry {
        path: p.to_string(),
        method,
        op: OperationDescriptor {
            summary: summary.to_string(),
            request_body_schema_ref: None,
            response_schema_ref: "Version".to_string(),
            response_example: None,
        },
    }
}

fn document() -> CompositeDocument {
    assemble(
        "serve-replica".to_string(),
        "composite specification".to_string(),
        vec![version_schema_entry()],
        vec![version_path_entry()],
        crawl_registrations(),
    )
}

#[test]
fn manual_path_overrides_auto_derived_path() {
    let auto = vec![
        version_path_entry(),
        path("/api/v1/crawl", HttpMethod::Post, "automatically derived"),
    ];
    let d = assemble(
        "t".to_string(),
        "d".to_string(),
        Vec::new(),
        auto,
        crawl_registrations(),
    );
    let at_key: Vec<&PathEntry> = d
        .paths
        .iter()
        .filter(|p| p.path == "/api/v1/crawl" && p.method == HttpMethod::Post)
        .collect();
    assert_eq!(at_key.len(), 1);
    assert_eq!(at_key[0].op.summary, "POST url to crawl");
    assert_eq!(
        at_key[0].op.request_body_schema_ref,
        Some("ScraperPostBody".to_string())
    );
}

#[test]
fn schema_names_unique_and_last_registration_wins() {
    let manual = vec![
        RegistrationOp::Schema(schema("Thing", "first")),
        RegistrationOp::Schema(schema("Other", "other")),
        RegistrationOp::Schema(schema("Thing", "second")),
    ];
    let d = assemble(
        "t".to_string(),
        "d".to_string(),
        vec![schema("Thing", "auto")],
        Vec::new(),
        manual,
    );
    let components = d.components.expect("components present after assembly");
    let named: Vec<&SchemaEntry> =
        components.schemas.iter().filter(|e| e.name == "Thing").collect();
    assert_eq!(named.len(), 1);
    assert_eq!(named[0].definition, "second");
    let mut names: Vec<String> = components.schemas.iter().map(|e| e.name.clone()).collect();
    let total = names.len();
    names.sort();
    names.dedup();
    assert_eq!(names.len(), total);
}

#[test]
fn crawl_result_endpoint_carries_literal_example() {
    let d = document();
    let entry = d
        .paths
        .iter()
        .find(|p| p.path == "/api/v1/crawl/{id}" && p.method == HttpMethod::Get)
        .expect("crawl-result GET registered");
    let example = entry.op.response_example.as_ref().expect("literal example attached");
    assert_eq!(example.status, "completed");
    assert_eq!(example.total, 1);
    assert_eq!(example.data.len(), 1);
    assert_eq!(*example, example_scraped_result());
}

#[test]
fn crawl_schemas_registered() {
    let d = document();
    let components = d.components.expect("components present after assembly");
    for name in ["Version", "ScraperPostBody", "ScraperPostBodyResponse", "CrawledResult"] {
        assert!(
            components.schemas.iter().any(|e| e.name == name),
            "missing schema {name}"
        );
    }
}

#[test]
fn security_scheme_attached_when_components_present() {
    let mut d = document();
    assert!(d.has_components());
    d.add_security_scheme(SecurityScheme {
        name: "password".to_string(),
        token_url: "/api/token".to_string(),
    });
    let components = d.components.expect("components present");
    assert_eq!(components.security_schemes.len(), 1);
    assert_eq!(components.security_schemes[0].name, "password");
    assert_eq!(components.security_schemes[0].token_url, "/api/token");
}

#[test]
fn schema_registration_skipped_without_components() {
    let mut d = CompositeDocument {
        title: "t".to_string(),
        description: "d".to_string(),
        components: None,
        paths: Vec::new(),
    };
    assert!(!d.has_components());
    d.register_schema(schema("Thing", "x"));
    assert!(d.components.is_none());
}

#[test]
fn manual_registration_order_is_kept_for_new_keys() {
    let d = document();
    let crawl_pos = d.paths.iter().position(|p| p.path == "/api/v1/crawl").unwrap();
    let result_pos = d.paths.iter().position(|p| p.path == "/api/v1/crawl/{id}").unwrap();
    let version_pos = d.paths.iter().position(|p| p.path == "/api").unwrap();
    assert!(version_pos < crawl_pos);
    assert!(crawl_pos < result_pos);
}
