use serve_replica::version::{version, Version, CARGO_PKG_NAME, CARGO_PKG_VERSION};

#[test]
fn version_record_reports_package_identity() {
    let v = version();
    assert_eq!(v.name, "serve-replica");
    assert_eq!(v.version, "0.1.0");
    assert_eq!(v.name, CARGO_PKG_NAME);
    assert_eq!(v.version, CARGO_PKG_VERSION);
}

#[test]
fn default_matches_const_default() {
    assert_eq!(Version::default(), Version::const_default());
}

#[test]
fn example_payload_fields() {
    let e = serve_replica::extra_schemas::example_scraped_result();
    assert_eq!(e.completed, 1);
    assert_eq!(e.credits_used, 1);
    assert_eq!(e.expires_at, "2024-12-04T02:54:14.000Z");
    assert_eq!(e.success, true);
    assert_eq!(e.data[0].metadata.status_code, 200);
    assert_eq!(e.data[0].metadata.keywords, "Friar Tux");
    assert!(e.data[0].markdown.contains("Navy Stretch Shawl Lapel Tuxedo Separates"));
    assert!(e.data[0].metadata.og_locale_alternate.is_empty());
}

#[test]
fn error_envelope_wraps_message() {
    assert_eq!(
        serve_replica::respond::error_body("oops"),
        "{\"error\":\"oops\"}"
    );
    assert_eq!(serve_replica::respond::error_body(""), "{\"error\":\"\"}");
}
