use serve_replica::config::{parse_override, MergedConfig};

fn pairs(v: &[(&str, &str)]) -> Vec<(String, String)> {
    v.iter().map(|(k, val)| (k.to_string(), val.to_string())).collect()
}

fn strings(v: &[&str]) -> Vec<String> {
    v.iter().map(|s| s.to_string()).collect()
}

#[test]
fn overrides_scenario_later_wins_malformed_dropped() {
    let m = MergedConfig::resolve(false, Vec::new(), None, strings(&["FOO=1", "FOO=2", "BAR"]));
    assert_eq!(m.len(), 1);
    assert_eq!(m.get("FOO"), Some(String::from("2")));
    assert_eq!(m.get("BAR"), None);
}

#[test]
fn highest_tier_wins_across_all_three_tiers() {
    let host = pairs(&[("A", "host"), ("B", "host"), ("C", "host")]);
    let file = pairs(&[("B", "file"), ("D", "file")]);
    let m = MergedConfig::resolve(true, host, Some(file), strings(&["C=override", "E=override"]));
    assert_eq!(m.get("A"), Some(String::from("host")));
    assert_eq!(m.get("B"), Some(String::from("file")));
    assert_eq!(m.get("C"), Some(String::from("override")));
    assert_eq!(m.get("D"), Some(String::from("file")));
    assert_eq!(m.get("E"), Some(String::from("override")));
    assert_eq!(m.len(), 5);
}

#[test]
fn host_env_excluded_contributes_nothing() {
    let host = pairs(&[("A", "host")]);
    let m = MergedConfig::resolve(false, host, None, strings(&["B=2"]));
    assert_eq!(m.get("A"), None);
    assert_eq!(m.get("B"), Some(String::from("2")));
    assert_eq!(m.len(), 1);
}

#[test]
fn missing_env_file_contributes_nothing() {
    let host = pairs(&[("A", "host")]);
    let with_file = MergedConfig::resolve(true, host.clone(), Some(pairs(&[("F", "1")])), Vec::new());
    let without_file = MergedConfig::resolve(true, host, None, Vec::new());
    assert_eq!(with_file.get("F"), Some(String::from("1")));
    assert_eq!(without_file.get("F"), None);
    assert_eq!(without_file.len(), 1);
}

#[test]
fn malformed_override_does_not_fail_resolution() {
    let m = MergedConfig::resolve(false, Vec::new(), None, strings(&["NOEQ", "", "A=1"]));
    assert_eq!(m.len(), 1);
    assert_eq!(m.get("A"), Some(String::from("1")));
}

#[test]
fn override_keeps_position_of_existing_key() {
    let host = pairs(&[("A", "0"), ("B", "0")]);
    let m = MergedConfig::resolve(true, host, None, strings(&["A=9", "C=3"]));
    let committed = m.pairs();
    assert_eq!(
        committed,
        pairs(&[("A", "9"), ("B", "0"), ("C", "3")])
    );
}

#[test]
fn parse_override_splits_on_first_equals() {
    assert_eq!(
        parse_override("FOO=1"),
        Some((String::from("FOO"), String::from("1")))
    );
    assert_eq!(
        parse_override("A=b=c"),
        Some((String::from("A"), String::from("b=c")))
    );
    assert_eq!(
        parse_override("=x"),
        Some((String::from(""), String::from("x")))
    );
    assert_eq!(parse_override("BAR"), None);
    assert_eq!(parse_override(""), None);
}
