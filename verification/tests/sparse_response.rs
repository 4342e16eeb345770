use publish_watch::package::PackageRef;
use publish_watch::sparse::{interpret_sparse_response, sparse_lookup};

fn demo(version: &str) -> PackageRef {
    PackageRef {
        name: "demo-crate".to_owned(),
        version: version.to_owned(),
    }
}

fn index_body(versions: &[&str]) -> Vec<u8> {
    let cksum = "0".repeat(64);
    versions
        .iter()
        .map(|v| {
            format!(
                "{{\"name\":\"demo-crate\",\"vers\":\"{v}\",\"deps\":[],\"features\":{{}},\"cksum\":\"{cksum}\",\"yanked\":false}}"
            )
        })
        .collect::<Vec<_>>()
        .join("\n")
        .into_bytes()
}

#[test]
fn listed_version_is_present() {
    let body = index_body(&["0.8.0", "0.9.0"]);
    let r = sparse_lookup(200, &body, &demo("0.9.0"));
    assert!(matches!(r, Ok(true)));
}

#[test]
fn unlisted_version_is_absent() {
    let body = index_body(&["0.8.0", "0.9.0"]);
    let r = sparse_lookup(200, &body, &demo("1.0.0"));
    assert!(matches!(r, Ok(false)));
}

#[test]
fn undecodable_body_is_a_parse_error() {
    let body = b"this is not an index record".to_vec();
    let r = sparse_lookup(200, &body, &demo("1.0.0"));
    assert!(matches!(
        r,
        Err(publish_watch::errors::CheckError::Parse)
    ));
}

#[test]
fn invalid_utf8_body_is_a_parse_error() {
    let body = vec![0xff, 0xfe, 0x00, 0x41];
    let r = sparse_lookup(200, &body, &demo("1.0.0"));
    assert!(matches!(
        r,
        Err(publish_watch::errors::CheckError::Parse)
    ));
}

#[test]
fn not_found_status_is_absent_not_an_error() {
    let body = b"whatever the server sent".to_vec();
    let r = sparse_lookup(404, &body, &demo("1.0.0"));
    assert!(matches!(r, Ok(false)));
}

#[test]
fn gone_status_is_absent() {
    let r = sparse_lookup(410, &Vec::new(), &demo("1.0.0"));
    assert!(matches!(r, Ok(false)));
}

#[test]
fn interpreted_record_lists_parsed_versions() {
    let body = index_body(&["2.0.0", "2.1.0"]);
    let r = interpret_sparse_response(200, &body, &"demo-crate".to_owned());
    let rec = r.expect("decodable body").expect("record present");
    assert_eq!(rec.name, "demo-crate");
    assert_eq!(rec.versions, vec!["2.0.0".to_owned(), "2.1.0".to_owned()]);
}

#[test]
fn interpreted_not_found_is_no_record() {
    let r = interpret_sparse_response(404, &Vec::new(), &"demo-crate".to_owned());
    assert!(matches!(r, Ok(None)));
}
