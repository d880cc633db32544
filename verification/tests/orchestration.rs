use rustdoc_gen::orchestrator::Action;
use rustdoc_gen::orchestrator::BuildAttemptResult;
use rustdoc_gen::orchestrator::BuildOrchestrator;
use rustdoc_gen::orchestrator::Completion;
use rustdoc_gen::orchestrator::Event;
use rustdoc_gen::orchestrator::PackageVersion;
use rustdoc_gen::report::completion_failure;
use rustdoc_gen::strategy::BuildOptions;

fn demo_package() -> PackageVersion {
    PackageVersion {
        name: "demo".to_string(),
        version: "1.0.0".to_string(),
        repository: "https://github.com/org/demo".to_string(),
    }
}

fn attempt(succeeded: bool, diagnostic: &str) -> Event {
    Event::BuildAttempted {
        result: BuildAttemptResult { succeeded, diagnostic_text: diagnostic.to_string() },
    }
}

#[test]
fn start_clones_when_no_working_copy_exists() {
    let (m, a) = BuildOrchestrator::start(demo_package(), false, false);
    match a {
        Action::CloneRepo { clone_url, local_path } => {
            assert_eq!(clone_url, "git@github.com:org/demo.git");
            assert_eq!(local_path, "/var/tmp/crates-rustdoc-gen/org__demo");
        }
        other => panic!("expected a clone action, got {:?}", other),
    }
    assert_eq!(m.local_path, "/var/tmp/crates-rustdoc-gen/org__demo");
}

#[test]
fn start_fetches_when_working_copy_exists() {
    let (_m, a) = BuildOrchestrator::start(demo_package(), false, true);
    match a {
        Action::FetchRepo { local_path } => {
            assert_eq!(local_path, "/var/tmp/crates-rustdoc-gen/org__demo");
        }
        other => panic!("expected a fetch action, got {:?}", other),
    }
}

#[test]
fn ambiguous_fallback_produces_exactly_one_artifact() {
    // The repository has the tag "v1.0.0"; the default build fails with an
    // "ambiguous" diagnostic; the implicit-package retry succeeds.
    let (mut m, _) = BuildOrchestrator::start(demo_package(), false, false);
    let a = m.on_event(Event::RepoReady);
    assert!(matches!(a, Action::ListTags { .. }));

    let a = m.on_event(Event::TagsListed { tags: vec!["v1.0.0".to_string()] });
    match a {
        Action::Checkout { tag, .. } => assert_eq!(tag, "v1.0.0"),
        other => panic!("expected a checkout action, got {:?}", other),
    }

    let a = m.on_event(Event::CheckoutSucceeded);
    match a {
        Action::RunBuild { package, options, .. } => {
            assert_eq!(package, "demo");
            assert_eq!(
                options,
                BuildOptions { explicit_package: true, all_features: true, library_only: false }
            );
        }
        other => panic!("expected the default build, got {:?}", other),
    }

    let a = m.on_event(attempt(false, "error: `demo` is ambiguous"));
    match a {
        Action::RunBuild { options, .. } => {
            assert_eq!(
                options,
                BuildOptions { explicit_package: false, all_features: true, library_only: false }
            );
        }
        other => panic!("expected the implicit-package retry, got {:?}", other),
    }

    let a = m.on_event(attempt(true, ""));
    let mut artifacts = 0;
    match a {
        Action::MoveArtifact { source, destination } => {
            artifacts += 1;
            assert_eq!(source, "/var/tmp/crates-rustdoc-gen/org__demo/target/doc/demo.json");
            assert_eq!(destination, "./localdata/rustdocs/demo-1.0.0.json");
        }
        other => panic!("expected the relocation, got {:?}", other),
    }
    assert_eq!(artifacts, 1);

    let a = m.on_event(Event::ArtifactMoved);
    match a {
        Action::Finish { completion } => {
            assert!(matches!(completion, Completion::Artifact));
            assert!(completion_failure(&demo_package(), &completion).is_none());
        }
        other => panic!("expected completion, got {:?}", other),
    }
}

#[test]
fn missing_tag_is_an_expected_gap_not_a_failure() {
    let (mut m, _) = BuildOrchestrator::start(demo_package(), false, false);
    let _ = m.on_event(Event::RepoReady);
    let a = m.on_event(Event::TagsListed {
        tags: vec!["0.9.0".to_string(), "unrelated".to_string()],
    });
    match a {
        Action::Finish { completion } => {
            assert!(matches!(completion, Completion::NoTagFound));
            assert!(completion_failure(&demo_package(), &completion).is_none());
        }
        other => panic!("expected completion with no tag, got {:?}", other),
    }
}

#[test]
fn exhausted_cascade_yields_one_failure_record() {
    let (mut m, _) = BuildOrchestrator::start(demo_package(), false, false);
    let _ = m.on_event(Event::RepoReady);
    let _ = m.on_event(Event::TagsListed { tags: vec!["1.0.0".to_string()] });
    let _ = m.on_event(Event::CheckoutSucceeded);
    // No marker in the diagnostic: the generic feature-conflict retry runs.
    let a = m.on_event(attempt(false, "error: feature conflict"));
    match a {
        Action::RunBuild { options, .. } => {
            assert_eq!(
                options,
                BuildOptions { explicit_package: true, all_features: false, library_only: false }
            );
        }
        other => panic!("expected the generic retry, got {:?}", other),
    }
    let a = m.on_event(attempt(false, "error: still failing"));
    match a {
        Action::Finish { completion } => {
            let rec = completion_failure(&demo_package(), &completion)
                .expect("an exhausted cascade is a failure");
            assert_eq!(rec.name, "demo");
            assert_eq!(rec.version, "1.0.0");
            assert_eq!(rec.error, "error: still failing");
        }
        other => panic!("expected exhaustion, got {:?}", other),
    }
    // The batch goes on: the next package starts fresh.
    let (_m2, a2) = BuildOrchestrator::start(demo_package(), false, true);
    assert!(matches!(a2, Action::FetchRepo { .. }));
}

#[test]
fn second_run_over_unchanged_repository_relocates_to_same_path() {
    let mut destinations: Vec<String> = Vec::new();
    for _ in 0..2 {
        // The working copy already exists and the tag is already present: the
        // refresh is a no-op and the runs observe identical events.
        let (mut m, a) = BuildOrchestrator::start(demo_package(), false, true);
        assert!(matches!(a, Action::FetchRepo { .. }));
        let _ = m.on_event(Event::RepoReady);
        let _ = m.on_event(Event::TagsListed { tags: vec!["v1.0.0".to_string()] });
        let _ = m.on_event(Event::CheckoutSucceeded);
        let a = m.on_event(attempt(true, ""));
        match a {
            Action::MoveArtifact { destination, .. } => destinations.push(destination),
            other => panic!("expected the relocation, got {:?}", other),
        }
    }
    assert_eq!(destinations[0], destinations[1]);
    assert_eq!(destinations[0], "./localdata/rustdocs/demo-1.0.0.json");
}

#[test]
fn compatibility_check_failure_is_non_fatal() {
    let (mut m, _) = BuildOrchestrator::start(demo_package(), true, true);
    let _ = m.on_event(Event::RepoReady);
    let a = m.on_event(Event::TagsListed { tags: vec!["v1.0.0".to_string()] });
    match a {
        Action::RunCompatCheck { package, .. } => assert_eq!(package, "demo"),
        other => panic!("expected the compatibility check, got {:?}", other),
    }
    let a = m.on_event(Event::CompatCheckDone { succeeded: false });
    match a {
        Action::Checkout { tag, .. } => assert_eq!(tag, "v1.0.0"),
        other => panic!("expected checkout despite the failed check, got {:?}", other),
    }
}

#[test]
fn repository_access_failure_is_fatal_for_the_package() {
    let (mut m, _) = BuildOrchestrator::start(demo_package(), false, false);
    let a = m.on_event(Event::RepoAccessFailed { error: "clone failed".to_string() });
    match a {
        Action::Finish { completion } => {
            let rec = completion_failure(&demo_package(), &completion).expect("fatal");
            assert_eq!(rec.error, "clone failed");
        }
        other => panic!("expected completion, got {:?}", other),
    }
}

#[test]
fn checkout_failure_is_fatal_for_the_package() {
    let (mut m, _) = BuildOrchestrator::start(demo_package(), false, true);
    let _ = m.on_event(Event::RepoReady);
    let _ = m.on_event(Event::TagsListed { tags: vec!["v1.0.0".to_string()] });
    let a = m.on_event(Event::CheckoutFailed { error: "corrupted working copy".to_string() });
    match a {
        Action::Finish { completion } => {
            let rec = completion_failure(&demo_package(), &completion).expect("fatal");
            assert_eq!(rec.error, "corrupted working copy");
        }
        other => panic!("expected completion, got {:?}", other),
    }
}

#[test]
fn tag_listing_failure_is_an_infrastructure_error() {
    let (mut m, _) = BuildOrchestrator::start(demo_package(), false, true);
    let _ = m.on_event(Event::RepoReady);
    let a = m.on_event(Event::TagListingFailed { error: "not a git repository".to_string() });
    match a {
        Action::Finish { completion } => {
            assert!(matches!(completion, Completion::InfrastructureError { .. }));
        }
        other => panic!("expected completion, got {:?}", other),
    }
}

#[test]
fn relocation_failure_is_an_infrastructure_error() {
    let (mut m, _) = BuildOrchestrator::start(demo_package(), false, true);
    let _ = m.on_event(Event::RepoReady);
    let _ = m.on_event(Event::TagsListed { tags: vec!["v1.0.0".to_string()] });
    let _ = m.on_event(Event::CheckoutSucceeded);
    let _ = m.on_event(attempt(true, ""));
    let a = m.on_event(Event::ArtifactMoveFailed { error: "no such file".to_string() });
    match a {
        Action::Finish { completion } => {
            let rec = completion_failure(&demo_package(), &completion).expect("fatal");
            assert_eq!(rec.error, "no such file");
        }
        other => panic!("expected completion, got {:?}", other),
    }
}

#[test]
fn library_only_fallback_chain_runs_before_exhaustion() {
    let (mut m, _) = BuildOrchestrator::start(demo_package(), false, true);
    let _ = m.on_event(Event::RepoReady);
    let _ = m.on_event(Event::TagsListed { tags: vec!["v1.0.0".to_string()] });
    let _ = m.on_event(Event::CheckoutSucceeded);
    let a = m.on_event(attempt(false, "error: pass --lib to select the single target"));
    match a {
        Action::RunBuild { options, .. } => {
            assert_eq!(
                options,
                BuildOptions { explicit_package: true, all_features: true, library_only: true }
            );
        }
        other => panic!("expected the library-only retry, got {:?}", other),
    }
    let a = m.on_event(attempt(false, "spawn failed"));
    match a {
        Action::RunBuild { options, .. } => {
            assert_eq!(
                options,
                BuildOptions { explicit_package: true, all_features: false, library_only: true }
            );
        }
        other => panic!("expected the default-features sub-fallback, got {:?}", other),
    }
    let a = m.on_event(attempt(false, "final failure"));
    match a {
        Action::Finish { completion } => match completion {
            Completion::BuildExhausted { error } => assert_eq!(error, "final failure"),
            other => panic!("expected exhaustion, got {:?}", other),
        },
        other => panic!("expected completion, got {:?}", other),
    }
}
