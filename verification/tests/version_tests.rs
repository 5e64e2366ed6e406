use geoclue_prometheus_exporter::version::get_version_string;

#[test]
fn main_test_version_string_format() {
    let pkg_name = "geoclue_prometheus_exporter";
    let pkg_version = "0.1.0";
    let git_hash = "unknown";
    let version_str = get_version_string(pkg_name, pkg_version, git_hash);

    // Verify it contains the expected components
    assert!(version_str.contains(pkg_name));
    assert!(version_str.contains(pkg_version));
    assert!(version_str.contains(git_hash));
    assert!(version_str.contains("Build:"));
}

#[test]
fn tests_test_version_string_format() {
    let pkg_name = "geoclue_prometheus_exporter";
    let pkg_version = "0.1.0";
    let version_str = get_version_string(pkg_name, pkg_version, "unknown");

    // Verify it contains the expected components
    assert!(version_str.contains(pkg_name));
    assert!(version_str.contains(pkg_version));
    assert!(version_str.contains("Build:"));
}

#[test]
fn test_version_string_components() {
    let pkg_name = "geoclue_prometheus_exporter";
    let pkg_version = "0.1.0";
    let git_hash = "unknown";
    let version_str = get_version_string(pkg_name, pkg_version, git_hash);

    // Test individual components
    assert!(version_str.contains(pkg_name));
    assert!(version_str.len() > pkg_name.len()); // Should be longer than just the name

    // Should contain version
    assert!(version_str.contains(pkg_version));

    // Should contain git hash or "unknown"
    assert!(version_str.contains(git_hash) || version_str.contains("unknown"));
}

#[test]
fn test_version_string_exact_layout() {
    let s = get_version_string("tool", "1.2.3", "abc123");
    assert_eq!(s, "tool v1.2.3\nBuild: abc123");
}
