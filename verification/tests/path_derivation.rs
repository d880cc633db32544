use rustdoc_gen::paths::artifact_dest;
use rustdoc_gen::paths::artifact_source;
use rustdoc_gen::paths::clone_url;
use rustdoc_gen::paths::is_github_repository;
use rustdoc_gen::paths::local_dir;
use rustdoc_gen::paths::org_repo;
use rustdoc_gen::paths::underscored_name;

#[test]
fn recognizes_hosted_repository_locations() {
    assert!(is_github_repository("https://github.com/org/demo"));
    assert!(!is_github_repository("https://example.com/org/demo"));
    assert!(!is_github_repository("git@github.com:org/demo.git"));
    assert!(!is_github_repository(""));
}

#[test]
fn normalizes_plain_repository_location() {
    assert_eq!(org_repo("https://github.com/org/demo"), "org/demo");
}

#[test]
fn normalizes_trailing_separator_and_suffix() {
    assert_eq!(org_repo("https://github.com/org/demo/"), "org/demo");
    assert_eq!(org_repo("https://github.com/org/demo.git"), "org/demo");
    assert_eq!(org_repo("https://github.com/org/demo.git/"), "org/demo");
    assert_eq!(org_repo("https://github.com/org/demo///"), "org/demo");
}

#[test]
fn clone_url_is_derived_from_identifier() {
    assert_eq!(clone_url("org/demo"), "git@github.com:org/demo.git");
}

#[test]
fn local_directory_replaces_separator_with_marker() {
    assert_eq!(local_dir("org/demo"), "/var/tmp/crates-rustdoc-gen/org__demo");
}

#[test]
fn underscored_name_replaces_every_hyphen() {
    assert_eq!(underscored_name("my-little-crate"), "my_little_crate");
    assert_eq!(underscored_name("plain"), "plain");
}

#[test]
fn artifact_source_uses_tool_output_layout() {
    assert_eq!(
        artifact_source("/var/tmp/crates-rustdoc-gen/org__demo", "my-crate"),
        "/var/tmp/crates-rustdoc-gen/org__demo/target/doc/my_crate.json"
    );
}

#[test]
fn artifact_destination_is_keyed_by_name_and_version() {
    assert_eq!(
        artifact_dest("my-crate", "1.0.0"),
        "./localdata/rustdocs/my_crate-1.0.0.json"
    );
}
