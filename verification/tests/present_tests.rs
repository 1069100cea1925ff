use serve_replica::composer::{assemble, crawl_registrations};
use serve_replica::present::{Multiplexer, Surface};
use serve_replica::version::{version_path_entry, version_schema_entry};

fn multiplexer() -> Multiplexer {
    let d = assemble(
        "serve-replica".to_string(),
        "composite specification".to_string(),
        vec![version_schema_entry()],
        vec![version_path_entry()],
        crawl_registrations(),
    );
    Multiplexer::new(
        d,
        vec![
            Surface::RawJson,
            Surface::SwaggerUi,
            Surface::Redoc,
            Surface::RapiDoc,
            Surface::Scalar,
        ],
    )
}

const ALL_SURFACES: [Surface; 5] = [
    Surface::RawJson,
    Surface::SwaggerUi,
    Surface::Redoc,
    Surface::RapiDoc,
    Surface::Scalar,
];

#[test]
fn every_surface_renders_the_same_document() {
    let m = multiplexer();
    let raw = m.document_for(Surface::RawJson);
    for s in ALL_SURFACES {
        assert_eq!(m.document_for(s), raw);
    }
}

#[test]
fn path_and_schema_counts_identical_across_surfaces() {
    let m = multiplexer();
    let raw_paths = m.path_count(Surface::RawJson);
    let raw_schemas = m.schema_count(Surface::RawJson);
    assert_eq!(raw_paths, 3);
    assert_eq!(raw_schemas, 4);
    for s in ALL_SURFACES {
        assert_eq!(m.path_count(s), raw_paths);
        assert_eq!(m.schema_count(s), raw_schemas);
    }
    assert_eq!(m.surface_count(), 5);
}
