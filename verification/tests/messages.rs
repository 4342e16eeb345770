use publish_watch::errors::{u64_to_string, CheckError};

#[test]
fn decimal_rendering_is_exact() {
    assert_eq!(u64_to_string(0), "0");
    assert_eq!(u64_to_string(5), "5");
    assert_eq!(u64_to_string(10), "10");
    assert_eq!(u64_to_string(12345), "12345");
    assert_eq!(u64_to_string(u64::MAX), "18446744073709551615");
}

#[test]
fn timeout_message_is_exact() {
    let err = CheckError::Timeout {
        package_name: "demo-crate".to_owned(),
        timeout_secs: 5,
    };
    assert_eq!(
        err.message(),
        "timeout of 5s elapsed while publishing the package demo-crate. \
         You can increase the publish timeout in the configuration."
    );
}

#[test]
fn io_and_parse_and_auth_messages() {
    assert_eq!(
        CheckError::Io.message(),
        "network error while reaching the registry"
    );
    assert_eq!(CheckError::Parse.message(), "invalid registry response body");
    assert_eq!(
        CheckError::Auth.message(),
        "token cannot be used as an authorization header"
    );
}
