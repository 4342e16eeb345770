use publish_watch::package::{is_version_present, record_contains, CrateRecord};

fn record(versions: &[&str]) -> CrateRecord {
    CrateRecord {
        name: "demo-crate".to_owned(),
        versions: versions.iter().map(|v| v.to_string()).collect(),
    }
}

#[test]
fn exact_version_matches() {
    let rec = record(&["0.1.0", "1.0.0"]);
    assert!(is_version_present(&"1.0.0".to_owned(), &rec));
    assert!(is_version_present(&"0.1.0".to_owned(), &rec));
}

#[test]
fn prerelease_suffix_does_not_match() {
    let rec = record(&["1.0.0"]);
    assert!(!is_version_present(&"1.0.0-rc.1".to_owned(), &rec));
}

#[test]
fn leading_v_does_not_match() {
    let rec = record(&["1.0.0"]);
    assert!(!is_version_present(&"v1.0.0".to_owned(), &rec));
}

#[test]
fn absent_version_does_not_match() {
    let rec = record(&["0.9.0", "0.9.1"]);
    assert!(!is_version_present(&"0.9.2".to_owned(), &rec));
}

#[test]
fn empty_record_matches_nothing() {
    let rec = record(&[]);
    assert!(!is_version_present(&"1.0.0".to_owned(), &rec));
}

#[test]
fn missing_record_contains_nothing() {
    assert!(!record_contains(&None, &"1.0.0".to_owned()));
}

#[test]
fn present_record_contains_listed_version() {
    let rec = record(&["2.1.0"]);
    assert!(record_contains(&Some(rec), &"2.1.0".to_owned()));
}
