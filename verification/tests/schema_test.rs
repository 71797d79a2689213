use ripsed::schema::{is_supported_version, CURRENT_VERSION};

#[test]
fn version_1_is_supported() {
    assert!(is_supported_version("1"));
}

#[test]
fn unknown_versions_are_rejected() {
    assert!(!is_supported_version("0"));
    assert!(!is_supported_version("2"));
    assert!(!is_supported_version(""));
    assert!(!is_supported_version("1.0"));
    assert!(!is_supported_version("v1"));
    assert!(!is_supported_version(" 1"));
}

#[test]
fn current_version_is_supported() {
    assert!(is_supported_version(CURRENT_VERSION));
}
