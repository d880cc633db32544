//! Build-fallback strategy selection.
//!
//! After a failed documentation-build attempt, the next invocation to try is
//! a pure function of the current state of the cascade and, from the default
//! state only, of the failed attempt's diagnostic text. The cascade is a
//! finite state machine: the default attempt's diagnostic is classified by
//! ordered literal substring checks (`"ambiguous"` first, then the pair
//! `"--lib"` / `"single target"`, else the generic branch), and each
//! all-features retry has exactly one default-features sub-fallback, entered
//! when the retry itself fails, without further text inspection.

use crate::text::contains_seq;
use crate::text::contains_substring;
use vstd::prelude::*;

verus! {

/// The configuration of one documentation-build invocation.
#[derive(Clone, Copy, PartialEq, Eq, Structural, Debug)]
pub struct BuildOptions {
    /// Pass the package name explicitly.
    pub explicit_package: bool,
    /// Enable all optional feature sets rather than only the default ones.
    pub all_features: bool,
    /// Restrict the build to the library unit.
    pub library_only: bool,
}

/// The states of the fallback cascade. Every state but `Exhausted` names the
/// invocation to attempt while in it.
#[derive(Clone, Copy, PartialEq, Eq, Structural, Debug)]
pub enum BuildState {
    /// The first attempt: explicit package, all features.
    Default,
    /// The build tool reported an ambiguous package name: retry without an
    /// explicit package, all features.
    AmbiguousRetry,
    /// The implicit-package retry itself failed: same shape, default features.
    AmbiguousRetryDefaultFeatures,
    /// The build tool asked for disambiguation toward the library unit: retry
    /// with explicit package, library unit only, all features.
    LibOnlyRetry,
    /// The library-only retry itself failed: same restriction, default
    /// features.
    LibOnlyRetryDefaultFeatures,
    /// Neither marker was present: retry with explicit package and default
    /// features, assuming the all-features request caused the failure.
    GenericRetry,
    /// No further strategy remains.
    Exhausted,
}

/// The diagnostic marker for an ambiguous package name.
pub open spec fn ambiguous_marker() -> Seq<char> {
    "ambiguous"@
}

/// The first diagnostic marker of the library-unit disambiguation pair.
pub open spec fn lib_marker() -> Seq<char> {
    "--lib"@
}

/// The second diagnostic marker of the library-unit disambiguation pair.
pub open spec fn single_target_marker() -> Seq<char> {
    "single target"@
}

/// The retry that a failed default attempt's diagnostic text selects: the
/// ambiguous check has priority over the library-unit pair, and the generic
/// branch is taken when neither marker is present.
pub open spec fn classified_retry(diag: Seq<char>) -> BuildState {
    if contains_seq(diag, ambiguous_marker()) {
        BuildState::AmbiguousRetry
    } else if contains_seq(diag, lib_marker()) && contains_seq(diag, single_target_marker()) {
        BuildState::LibOnlyRetry
    } else {
        BuildState::GenericRetry
    }
}

/// The state after a failed attempt in `state` with diagnostic text `diag`.
/// Only the default attempt's diagnostic is inspected; every other failure
/// moves to its sub-fallback or exhausts the cascade.
pub open spec fn next_state_spec(state: BuildState, diag: Seq<char>) -> BuildState {
    match state {
        BuildState::Default => classified_retry(diag),
        BuildState::AmbiguousRetry => BuildState::AmbiguousRetryDefaultFeatures,
        BuildState::AmbiguousRetryDefaultFeatures => BuildState::Exhausted,
        BuildState::LibOnlyRetry => BuildState::LibOnlyRetryDefaultFeatures,
        BuildState::LibOnlyRetryDefaultFeatures => BuildState::Exhausted,
        BuildState::GenericRetry => BuildState::Exhausted,
        BuildState::Exhausted => BuildState::Exhausted,
    }
}

/// The invocation configuration attempted in each state, and nothing for the
/// exhausted state.
pub open spec fn state_options(state: BuildState) -> Option<BuildOptions> {
    match state {
        BuildState::Default => Some(
            BuildOptions { explicit_package: true, all_features: true, library_only: false },
        ),
        BuildState::AmbiguousRetry => Some(
            BuildOptions { explicit_package: false, all_features: true, library_only: false },
        ),
        BuildState::AmbiguousRetryDefaultFeatures => Some(
            BuildOptions { explicit_package: false, all_features: false, library_only: false },
        ),
        BuildState::LibOnlyRetry => Some(
            BuildOptions { explicit_package: true, all_features: true, library_only: true },
        ),
        BuildState::LibOnlyRetryDefaultFeatures => Some(
            BuildOptions { explicit_package: true, all_features: false, library_only: true },
        ),
        BuildState::GenericRetry => Some(
            BuildOptions { explicit_package: true, all_features: false, library_only: false },
        ),
        BuildState::Exhausted => None,
    }
}

/// Classifies a failed default attempt's diagnostic text.
pub fn classify_diagnostic(diag: &str) -> (r: BuildState)
    ensures
        r == classified_retry(diag@),
{
    if contains_substring(diag, "ambiguous") {
        BuildState::AmbiguousRetry
    } else if contains_substring(diag, "--lib") && contains_substring(diag, "single target") {
        BuildState::LibOnlyRetry
    } else {
        BuildState::GenericRetry
    }
}

/// Selects the next state of the cascade after a failed attempt.
pub fn next_build_state(state: BuildState, diag: &str) -> (r: BuildState)
    ensures
        r == next_state_spec(state, diag@),
{
    match state {
        BuildState::Default => classify_diagnostic(diag),
        BuildState::AmbiguousRetry => BuildState::AmbiguousRetryDefaultFeatures,
        BuildState::AmbiguousRetryDefaultFeatures => BuildState::Exhausted,
        BuildState::LibOnlyRetry => BuildState::LibOnlyRetryDefaultFeatures,
        BuildState::LibOnlyRetryDefaultFeatures => BuildState::Exhausted,
        BuildState::GenericRetry => BuildState::Exhausted,
        BuildState::Exhausted => BuildState::Exhausted,
    }
}

/// The invocation configuration to use in a state of the cascade.
pub fn build_options(state: BuildState) -> (r: Option<BuildOptions>)
    ensures
        r == state_options(state),
{
    match state {
        BuildState::Default => Some(
            BuildOptions { explicit_package: true, all_features: true, library_only: false },
        ),
        BuildState::AmbiguousRetry => Some(
            BuildOptions { explicit_package: false, all_features: true, library_only: false },
        ),
        BuildState::AmbiguousRetryDefaultFeatures => Some(
            BuildOptions { explicit_package: false, all_features: false, library_only: false },
        ),
        BuildState::LibOnlyRetry => Some(
            BuildOptions { explicit_package: true, all_features: true, library_only: true },
        ),
        BuildState::LibOnlyRetryDefaultFeatures => Some(
            BuildOptions { explicit_package: true, all_features: false, library_only: true },
        ),
        BuildState::GenericRetry => Some(
            BuildOptions { explicit_package: true, all_features: false, library_only: false },
        ),
        BuildState::Exhausted => None,
    }
}

/// A diagnostic containing `"ambiguous"` always selects the implicit-package
/// retry, whether or not the library-unit markers also appear.
pub proof fn lemma_ambiguous_has_priority(diag: Seq<char>)
    requires
        contains_seq(diag, ambiguous_marker()),
    ensures
        next_state_spec(BuildState::Default, diag) == BuildState::AmbiguousRetry,
{
}

/// A diagnostic containing both `"--lib"` and `"single target"` but not
/// `"ambiguous"` selects the library-only retry.
pub proof fn lemma_library_markers_select_library_retry(diag: Seq<char>)
    requires
        contains_seq(diag, lib_marker()),
        contains_seq(diag, single_target_marker()),
        !contains_seq(diag, ambiguous_marker()),
    ensures
        next_state_spec(BuildState::Default, diag) == BuildState::LibOnlyRetry,
{
}

/// A diagnostic containing neither the ambiguous marker nor the full
/// library-unit pair selects the generic feature-conflict retry.
pub proof fn lemma_no_marker_selects_generic_retry(diag: Seq<char>)
    requires
        !contains_seq(diag, ambiguous_marker()),
        !(contains_seq(diag, lib_marker()) && contains_seq(diag, single_target_marker())),
    ensures
        next_state_spec(BuildState::Default, diag) == BuildState::GenericRetry,
{
}

/// The cascade always terminates: from any state, at most three failed
/// attempts reach the exhausted state, and the exhausted state is absorbing.
pub proof fn lemma_cascade_terminates(state: BuildState, d1: Seq<char>, d2: Seq<char>, d3: Seq<char>)
    ensures
        next_state_spec(
            next_state_spec(next_state_spec(state, d1), d2),
            d3,
        ) == BuildState::Exhausted,
{
}

} // verus!
