use rustdoc_gen::strategy::build_options;
use rustdoc_gen::strategy::classify_diagnostic;
use rustdoc_gen::strategy::next_build_state;
use rustdoc_gen::strategy::BuildOptions;
use rustdoc_gen::strategy::BuildState;

#[test]
fn ambiguous_marker_selects_implicit_package_retry() {
    let s = classify_diagnostic("error: `foo` is ambiguous in this workspace");
    assert_eq!(s, BuildState::AmbiguousRetry);
}

#[test]
fn ambiguous_marker_has_priority_over_library_markers() {
    let s = classify_diagnostic("ambiguous: pass --lib to select the single target");
    assert_eq!(s, BuildState::AmbiguousRetry);
}

#[test]
fn both_library_markers_select_library_only_retry() {
    let s = classify_diagnostic("error: pass --lib when more than a single target exists");
    assert_eq!(s, BuildState::LibOnlyRetry);
}

#[test]
fn lib_marker_alone_selects_generic_retry() {
    let s = classify_diagnostic("error: try --lib");
    assert_eq!(s, BuildState::GenericRetry);
}

#[test]
fn single_target_marker_alone_selects_generic_retry() {
    let s = classify_diagnostic("error: expected a single target");
    assert_eq!(s, BuildState::GenericRetry);
}

#[test]
fn no_marker_selects_generic_retry() {
    let s = classify_diagnostic("error: feature `x` conflicts with feature `y`");
    assert_eq!(s, BuildState::GenericRetry);
}

#[test]
fn implicit_package_retry_falls_back_to_default_features() {
    let s = next_build_state(BuildState::AmbiguousRetry, "spawn failed");
    assert_eq!(s, BuildState::AmbiguousRetryDefaultFeatures);
    assert_eq!(next_build_state(s, "spawn failed"), BuildState::Exhausted);
}

#[test]
fn library_only_retry_falls_back_to_default_features() {
    let s = next_build_state(BuildState::LibOnlyRetry, "spawn failed");
    assert_eq!(s, BuildState::LibOnlyRetryDefaultFeatures);
    assert_eq!(next_build_state(s, "spawn failed"), BuildState::Exhausted);
}

#[test]
fn generic_retry_exhausts_on_failure() {
    assert_eq!(next_build_state(BuildState::GenericRetry, "still broken"), BuildState::Exhausted);
}

#[test]
fn retry_states_ignore_diagnostic_text() {
    // Sub-fallbacks are triggered by the retry failing, never by its text.
    let s = next_build_state(BuildState::AmbiguousRetry, "ambiguous --lib single target");
    assert_eq!(s, BuildState::AmbiguousRetryDefaultFeatures);
}

#[test]
fn invocation_options_per_state() {
    assert_eq!(
        build_options(BuildState::Default),
        Some(BuildOptions { explicit_package: true, all_features: true, library_only: false })
    );
    assert_eq!(
        build_options(BuildState::AmbiguousRetry),
        Some(BuildOptions { explicit_package: false, all_features: true, library_only: false })
    );
    assert_eq!(
        build_options(BuildState::AmbiguousRetryDefaultFeatures),
        Some(BuildOptions { explicit_package: false, all_features: false, library_only: false })
    );
    assert_eq!(
        build_options(BuildState::LibOnlyRetry),
        Some(BuildOptions { explicit_package: true, all_features: true, library_only: true })
    );
    assert_eq!(
        build_options(BuildState::LibOnlyRetryDefaultFeatures),
        Some(BuildOptions { explicit_package: true, all_features: false, library_only: true })
    );
    assert_eq!(
        build_options(BuildState::GenericRetry),
        Some(BuildOptions { explicit_package: true, all_features: false, library_only: false })
    );
    assert_eq!(build_options(BuildState::Exhausted), None);
}
