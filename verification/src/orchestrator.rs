//! Orchestration of one package's documentation build.
//!
//! The orchestrator is a state machine. It never performs repository access,
//! process invocation or file relocation itself: it emits an [`Action`]
//! naming the next piece of outside work, and is driven forward by the
//! [`Event`] that reports that work's outcome. Every transition — which tag
//! to check out, which fallback invocation to try after a failure, where to
//! relocate the artifact — is a pure, verified function of the current state
//! and the observed event, stated by [`step_model`].

use crate::paths::artifact_dest;
use crate::paths::artifact_dest_of;
use crate::paths::artifact_source;
use crate::paths::artifact_source_of;
use crate::paths::clone_url;
use crate::paths::clone_url_of;
use crate::paths::github_prefix;
use crate::paths::local_dir;
use crate::paths::local_dir_of;
use crate::paths::org_repo;
use crate::paths::org_repo_of;
use crate::strategy::build_options;
use crate::strategy::next_build_state;
use crate::strategy::next_state_spec;
use crate::strategy::state_options;
use crate::strategy::BuildOptions;
use crate::strategy::BuildState;
use crate::tags::resolve_tag;
use crate::tags::resolved_tag;
use crate::text::has_prefix;
use vstd::pervasive::unreached;
use vstd::prelude::*;

verus! {

/// One published package version and its declared repository location.
pub struct PackageVersion {
    pub name: String,
    pub version: String,
    pub repository: String,
}

/// The mathematical content of a package version.
pub struct PackageVersionView {
    pub name: Seq<char>,
    pub version: Seq<char>,
    pub repository: Seq<char>,
}

impl View for PackageVersion {
    type V = PackageVersionView;

    open spec fn view(&self) -> PackageVersionView {
        PackageVersionView { name: self.name@, version: self.version@, repository: self.repository@ }
    }
}

/// The outcome of one documentation-build invocation: whether it succeeded,
/// and the diagnostic text it produced.
#[derive(Debug)]
pub struct BuildAttemptResult {
    pub succeeded: bool,
    pub diagnostic_text: String,
}

/// The mathematical content of a build attempt's outcome.
pub struct BuildAttemptResultView {
    pub succeeded: bool,
    pub diagnostic_text: Seq<char>,
}

impl View for BuildAttemptResult {
    type V = BuildAttemptResultView;

    open spec fn view(&self) -> BuildAttemptResultView {
        BuildAttemptResultView {
            succeeded: self.succeeded,
            diagnostic_text: self.diagnostic_text@,
        }
    }
}

/// The processing stage one package is in.
#[derive(Clone, Copy, PartialEq, Eq, Structural, Debug)]
pub enum Phase {
    /// Waiting for the working copy to be cloned or refreshed.
    AcquiringRepo,
    /// Waiting for the repository's tag listing.
    ResolvingTag,
    /// Waiting for the optional compatibility check (non-fatal either way).
    CompatChecking,
    /// Waiting for the resolved tag to be checked out.
    CheckingOut,
    /// Waiting for the build attempt of the named cascade state.
    Building(BuildState),
    /// Waiting for the artifact to be relocated.
    Relocating,
    /// Processing has ended; no further event is accepted.
    Done,
}

/// Outside work the driver must perform next.
#[derive(Debug)]
pub enum Action {
    /// Refresh the existing working copy.
    FetchRepo { local_path: String },
    /// Clone the repository into the working copy.
    CloneRepo { clone_url: String, local_path: String },
    /// List the repository's tags.
    ListTags { local_path: String },
    /// Run the optional compatibility-check tool.
    RunCompatCheck { local_path: String, package: String },
    /// Check out the resolved tag.
    Checkout { local_path: String, tag: String },
    /// Run one documentation-build invocation.
    RunBuild { local_path: String, package: String, options: BuildOptions },
    /// Relocate the artifact to its canonical destination.
    MoveArtifact { source: String, destination: String },
    /// Processing has ended with the given completion.
    Finish { completion: Completion },
}

/// How processing of one package ended.
#[derive(Debug)]
pub enum Completion {
    /// An artifact was produced and relocated.
    Artifact,
    /// No candidate tag matched: an expected gap, not a failure.
    NoTagFound,
    /// Repository access or relocation failed: fatal for this package.
    InfrastructureError { error: String },
    /// Every applicable build strategy failed: fatal for this package.
    BuildExhausted { error: String },
}

/// The mathematical content of a completion.
pub enum CompletionView {
    Artifact,
    NoTagFound,
    InfrastructureError { error: Seq<char> },
    BuildExhausted { error: Seq<char> },
}

impl View for Completion {
    type V = CompletionView;

    open spec fn view(&self) -> CompletionView {
        match self {
            Completion::Artifact => CompletionView::Artifact,
            Completion::NoTagFound => CompletionView::NoTagFound,
            Completion::InfrastructureError { error } => CompletionView::InfrastructureError {
                error: error@,
            },
            Completion::BuildExhausted { error } => CompletionView::BuildExhausted {
                error: error@,
            },
        }
    }
}

/// The mathematical content of an action.
pub enum ActionView {
    FetchRepo { local_path: Seq<char> },
    CloneRepo { clone_url: Seq<char>, local_path: Seq<char> },
    ListTags { local_path: Seq<char> },
    RunCompatCheck { local_path: Seq<char>, package: Seq<char> },
    Checkout { local_path: Seq<char>, tag: Seq<char> },
    RunBuild { local_path: Seq<char>, package: Seq<char>, options: BuildOptions },
    MoveArtifact { source: Seq<char>, destination: Seq<char> },
    Finish { completion: CompletionView },
}

impl View for Action {
    type V = ActionView;

    open spec fn view(&self) -> ActionView {
        match self {
            Action::FetchRepo { local_path } => ActionView::FetchRepo { local_path: local_path@ },
            Action::CloneRepo { clone_url, local_path } => ActionView::CloneRepo {
                clone_url: clone_url@,
                local_path: local_path@,
            },
            Action::ListTags { local_path } => ActionView::ListTags { local_path: local_path@ },
            Action::RunCompatCheck { local_path, package } => ActionView::RunCompatCheck {
                local_path: local_path@,
                package: package@,
            },
            Action::Checkout { local_path, tag } => ActionView::Checkout {
                local_path: local_path@,
                tag: tag@,
            },
            Action::RunBuild { local_path, package, options } => ActionView::RunBuild {
                local_path: local_path@,
                package: package@,
                options: *options,
            },
            Action::MoveArtifact { source, destination } => ActionView::MoveArtifact {
                source: source@,
                destination: destination@,
            },
            Action::Finish { completion } => ActionView::Finish { completion: completion@ },
        }
    }
}

/// The outcome of one piece of outside work, reported back to the machine.
#[derive(Debug)]
pub enum Event {
    /// The working copy was cloned or refreshed.
    RepoReady,
    /// Cloning or refreshing failed.
    RepoAccessFailed { error: String },
    /// The repository's tags were listed.
    TagsListed { tags: Vec<String> },
    /// The tag listing itself failed (a corrupted working copy, say).
    TagListingFailed { error: String },
    /// The optional compatibility check finished (its failure is non-fatal).
    CompatCheckDone { succeeded: bool },
    /// The resolved tag was checked out.
    CheckoutSucceeded,
    /// Checking out the resolved tag failed.
    CheckoutFailed { error: String },
    /// One documentation-build invocation finished.
    BuildAttempted { result: BuildAttemptResult },
    /// The artifact was relocated.
    ArtifactMoved,
    /// Relocating the artifact failed.
    ArtifactMoveFailed { error: String },
}

/// The mathematical content of an event.
pub enum EventView {
    RepoReady,
    RepoAccessFailed { error: Seq<char> },
    TagsListed { tags: Seq<Seq<char>> },
    TagListingFailed { error: Seq<char> },
    CompatCheckDone { succeeded: bool },
    CheckoutSucceeded,
    CheckoutFailed { error: Seq<char> },
    BuildAttempted { result: BuildAttemptResultView },
    ArtifactMoved,
    ArtifactMoveFailed { error: Seq<char> },
}

impl View for Event {
    type V = EventView;

    open spec fn view(&self) -> EventView {
        match self {
            Event::RepoReady => EventView::RepoReady,
            Event::RepoAccessFailed { error } => EventView::RepoAccessFailed { error: error@ },
            Event::TagsListed { tags } => EventView::TagsListed { tags: tags.deep_view() },
            Event::TagListingFailed { error } => EventView::TagListingFailed { error: error@ },
            Event::CompatCheckDone { succeeded } => EventView::CompatCheckDone {
                succeeded: *succeeded,
            },
            Event::CheckoutSucceeded => EventView::CheckoutSucceeded,
            Event::CheckoutFailed { error } => EventView::CheckoutFailed { error: error@ },
            Event::BuildAttempted { result } => EventView::BuildAttempted { result: result@ },
            Event::ArtifactMoved => EventView::ArtifactMoved,
            Event::ArtifactMoveFailed { error } => EventView::ArtifactMoveFailed { error: error@ },
        }
    }
}

/// Drives one package version through tag resolution, checkout, the build
/// cascade and artifact relocation.
pub struct BuildOrchestrator {
    /// The package being processed.
    pub package: PackageVersion,
    /// The local working-copy directory, derived once from the repository.
    pub local_path: String,
    /// Whether the optional compatibility check is run (off by default).
    pub check_compat: bool,
    /// The resolved tag, once tag resolution has succeeded.
    pub tag: Option<String>,
    /// The current processing stage.
    pub phase: Phase,
}

/// The mathematical content of the orchestrator's state.
pub struct OrchestratorView {
    pub package: PackageVersionView,
    pub local_path: Seq<char>,
    pub check_compat: bool,
    pub tag: Option<Seq<char>>,
    pub phase: Phase,
}

impl View for BuildOrchestrator {
    type V = OrchestratorView;

    open spec fn view(&self) -> OrchestratorView {
        OrchestratorView {
            package: self.package@,
            local_path: self.local_path@,
            check_compat: self.check_compat,
            tag: match self.tag {
                Some(ref t) => Some(t@),
                None => None,
            },
            phase: self.phase,
        }
    }
}

impl OrchestratorView {
    /// The state's internal invariant: the working-copy directory is the one
    /// derived from the package's repository, and a tag is held in every
    /// stage after successful resolution.
    pub open spec fn inv(self) -> bool {
        &&& self.local_path == local_dir_of(org_repo_of(self.package.repository))
        &&& match self.phase {
            Phase::CompatChecking => self.tag is Some,
            Phase::CheckingOut => self.tag is Some,
            Phase::Building(_) => self.tag is Some,
            Phase::Relocating => self.tag is Some,
            _ => true,
        }
    }

    /// The events the machine accepts in its current stage.
    pub open spec fn accepts(self, event: EventView) -> bool {
        match (self.phase, event) {
            (Phase::AcquiringRepo, EventView::RepoReady) => true,
            (Phase::AcquiringRepo, EventView::RepoAccessFailed { .. }) => true,
            (Phase::ResolvingTag, EventView::TagsListed { .. }) => true,
            (Phase::ResolvingTag, EventView::TagListingFailed { .. }) => true,
            (Phase::CompatChecking, EventView::CompatCheckDone { .. }) => true,
            (Phase::CheckingOut, EventView::CheckoutSucceeded) => true,
            (Phase::CheckingOut, EventView::CheckoutFailed { .. }) => true,
            (Phase::Building(_), EventView::BuildAttempted { .. }) => true,
            (Phase::Relocating, EventView::ArtifactMoved) => true,
            (Phase::Relocating, EventView::ArtifactMoveFailed { .. }) => true,
            _ => false,
        }
    }
}

/// The state a freshly started orchestrator is in.
pub open spec fn started_model(package: PackageVersionView, check_compat: bool) -> OrchestratorView {
    OrchestratorView {
        package: package,
        local_path: local_dir_of(org_repo_of(package.repository)),
        check_compat: check_compat,
        tag: None,
        phase: Phase::AcquiringRepo,
    }
}

/// The first piece of outside work: refresh an existing working copy, or
/// clone the repository fresh.
pub open spec fn start_action_model(package: PackageVersionView, repo_exists: bool) -> ActionView {
    if repo_exists {
        ActionView::FetchRepo { local_path: local_dir_of(org_repo_of(package.repository)) }
    } else {
        ActionView::CloneRepo {
            clone_url: clone_url_of(org_repo_of(package.repository)),
            local_path: local_dir_of(org_repo_of(package.repository)),
        }
    }
}

/// The machine's transition function: from the current state and the
/// observed event to the next state and the next piece of outside work.
pub open spec fn step_model(pre: OrchestratorView, event: EventView) -> (OrchestratorView, ActionView) {
    let p = pre.package;
    match (pre.phase, event) {
        (Phase::AcquiringRepo, EventView::RepoReady) => (
            OrchestratorView { phase: Phase::ResolvingTag, ..pre },
            ActionView::ListTags { local_path: pre.local_path },
        ),
        (Phase::AcquiringRepo, EventView::RepoAccessFailed { error }) => (
            OrchestratorView { phase: Phase::Done, ..pre },
            ActionView::Finish { completion: CompletionView::InfrastructureError { error } },
        ),
        (Phase::ResolvingTag, EventView::TagsListed { tags }) => {
            match resolved_tag(tags, p.name, p.version) {
                Some(t) => {
                    if pre.check_compat {
                        (
                            OrchestratorView { tag: Some(t), phase: Phase::CompatChecking, ..pre },
                            ActionView::RunCompatCheck {
                                local_path: pre.local_path,
                                package: p.name,
                            },
                        )
                    } else {
                        (
                            OrchestratorView { tag: Some(t), phase: Phase::CheckingOut, ..pre },
                            ActionView::Checkout { local_path: pre.local_path, tag: t },
                        )
                    }
                },
                None => (
                    OrchestratorView { phase: Phase::Done, ..pre },
                    ActionView::Finish { completion: CompletionView::NoTagFound },
                ),
            }
        },
        (Phase::ResolvingTag, EventView::TagListingFailed { error }) => (
            OrchestratorView { phase: Phase::Done, ..pre },
            ActionView::Finish { completion: CompletionView::InfrastructureError { error } },
        ),
        (Phase::CompatChecking, EventView::CompatCheckDone { .. }) => (
            OrchestratorView { phase: Phase::CheckingOut, ..pre },
            ActionView::Checkout {
                local_path: pre.local_path,
                tag: pre.tag->Some_0,
            },
        ),
        (Phase::CheckingOut, EventView::CheckoutSucceeded) => (
            OrchestratorView { phase: Phase::Building(BuildState::Default), ..pre },
            ActionView::RunBuild {
                local_path: pre.local_path,
                package: p.name,
                options: BuildOptions {
                    explicit_package: true,
                    all_features: true,
                    library_only: false,
                },
            },
        ),
        (Phase::CheckingOut, EventView::CheckoutFailed { error }) => (
            OrchestratorView { phase: Phase::Done, ..pre },
            ActionView::Finish { completion: CompletionView::InfrastructureError { error } },
        ),
        (Phase::Building(bs), EventView::BuildAttempted { result }) => {
            if result.succeeded {
                (
                    OrchestratorView { phase: Phase::Relocating, ..pre },
                    ActionView::MoveArtifact {
                        source: artifact_source_of(pre.local_path, p.name),
                        destination: artifact_dest_of(p.name, p.version),
                    },
                )
            } else {
                let ns = next_state_spec(bs, result.diagnostic_text);
                if ns == BuildState::Exhausted {
                    (
                        OrchestratorView { phase: Phase::Done, ..pre },
                        ActionView::Finish {
                            completion: CompletionView::BuildExhausted {
                                error: result.diagnostic_text,
                            },
                        },
                    )
                } else {
                    match state_options(ns) {
                        Some(options) => (
                            OrchestratorView { phase: Phase::Building(ns), ..pre },
                            ActionView::RunBuild {
                                local_path: pre.local_path,
                                package: p.name,
                                options: options,
                            },
                        ),
                        None => (pre, ActionView::Finish { completion: CompletionView::NoTagFound }),
                    }
                }
            }
        },
        (Phase::Relocating, EventView::ArtifactMoved) => (
            OrchestratorView { phase: Phase::Done, ..pre },
            ActionView::Finish { completion: CompletionView::Artifact },
        ),
        (Phase::Relocating, EventView::ArtifactMoveFailed { error }) => (
            OrchestratorView { phase: Phase::Done, ..pre },
            ActionView::Finish { completion: CompletionView::InfrastructureError { error } },
        ),
        // Stage/event pairs outside `accepts`; `on_event` never reaches them.
        _ => (pre, ActionView::Finish { completion: CompletionView::NoTagFound }),
    }
}

impl BuildOrchestrator {
    /// Starts processing one package version. Returns the fresh machine and
    /// the first piece of outside work: a refresh when a working copy exists,
    /// otherwise a clone.
    pub fn start(package: PackageVersion, check_compat: bool, repo_exists: bool) -> (r: (
        BuildOrchestrator,
        Action,
    ))
        requires
            has_prefix(package@.repository, github_prefix()),
        ensures
            r.0@ == started_model(package@, check_compat),
            r.0@.inv(),
            r.1@ == start_action_model(package@, repo_exists),
    {
        let org = org_repo(package.repository.as_str());
        let path = local_dir(org.as_str());
        let action = if repo_exists {
            Action::FetchRepo { local_path: path.clone() }
        } else {
            Action::CloneRepo { clone_url: clone_url(org.as_str()), local_path: path.clone() }
        };
        let machine = BuildOrchestrator {
            package: package,
            local_path: path,
            check_compat: check_compat,
            tag: None,
            phase: Phase::AcquiringRepo,
        };
        (machine, action)
    }

    /// Advances the machine by one observed event, returning the next piece
    /// of outside work. The reaction is exactly the one [`step_model`] gives.
    pub fn on_event(&mut self, event: Event) -> (a: Action)
        requires
            old(self)@.inv(),
            old(self)@.accepts(event@),
        ensures
            final(self)@.inv(),
            final(self)@ == step_model(old(self)@, event@).0,
            a@ == step_model(old(self)@, event@).1,
    {
        match (self.phase, event) {
            (Phase::AcquiringRepo, Event::RepoReady) => {
                self.phase = Phase::ResolvingTag;
                Action::ListTags { local_path: self.local_path.clone() }
            },
            (Phase::AcquiringRepo, Event::RepoAccessFailed { error }) => {
                self.phase = Phase::Done;
                Action::Finish { completion: Completion::InfrastructureError { error } }
            },
            (Phase::ResolvingTag, Event::TagsListed { tags }) => {
                match resolve_tag(&tags, self.package.name.as_str(), self.package.version.as_str()) {
                    Some(t) => {
                        if self.check_compat {
                            self.tag = Some(t);
                            self.phase = Phase::CompatChecking;
                            Action::RunCompatCheck {
                                local_path: self.local_path.clone(),
                                package: self.package.name.clone(),
                            }
                        } else {
                            let tag_name = t.clone();
                            self.tag = Some(t);
                            self.phase = Phase::CheckingOut;
                            Action::Checkout {
                                local_path: self.local_path.clone(),
                                tag: tag_name,
                            }
                        }
                    },
                    None => {
                        self.phase = Phase::Done;
                        Action::Finish { completion: Completion::NoTagFound }
                    },
                }
            },
            (Phase::ResolvingTag, Event::TagListingFailed { error }) => {
                self.phase = Phase::Done;
                Action::Finish { completion: Completion::InfrastructureError { error } }
            },
            (Phase::CompatChecking, Event::CompatCheckDone { .. }) => {
                let tag_name = match &self.tag {
                    Some(t) => t.clone(),
                    None => unreached(),
                };
                self.phase = Phase::CheckingOut;
                Action::Checkout { local_path: self.local_path.clone(), tag: tag_name }
            },
            (Phase::CheckingOut, Event::CheckoutSucceeded) => {
                self.phase = Phase::Building(BuildState::Default);
                Action::RunBuild {
                    local_path: self.local_path.clone(),
                    package: self.package.name.clone(),
                    options: BuildOptions {
                        explicit_package: true,
                        all_features: true,
                        library_only: false,
                    },
                }
            },
            (Phase::CheckingOut, Event::CheckoutFailed { error }) => {
                self.phase = Phase::Done;
                Action::Finish { completion: Completion::InfrastructureError { error } }
            },
            (Phase::Building(bs), Event::BuildAttempted { result }) => {
                if result.succeeded {
                    self.phase = Phase::Relocating;
                    let source = artifact_source(
                        self.local_path.as_str(),
                        self.package.name.as_str(),
                    );
                    let destination = artifact_dest(
                        self.package.name.as_str(),
                        self.package.version.as_str(),
                    );
                    Action::MoveArtifact { source, destination }
                } else {
                    let ns = next_build_state(bs, result.diagnostic_text.as_str());
                    if ns == BuildState::Exhausted {
                        self.phase = Phase::Done;
                        Action::Finish {
                            completion: Completion::BuildExhausted {
                                error: result.diagnostic_text,
                            },
                        }
                    } else {
                        self.phase = Phase::Building(ns);
                        let options = match build_options(ns) {
                            Some(o) => o,
                            None => unreached(),
                        };
                        Action::RunBuild {
                            local_path: self.local_path.clone(),
                            package: self.package.name.clone(),
                            options,
                        }
                    }
                }
            },
            (Phase::Relocating, Event::ArtifactMoved) => {
                self.phase = Phase::Done;
                Action::Finish { completion: Completion::Artifact }
            },
            (Phase::Relocating, Event::ArtifactMoveFailed { error }) => {
                self.phase = Phase::Done;
                Action::Finish { completion: Completion::InfrastructureError { error } }
            },
            _ => unreached(),
        }
    }
}

/// A machine's whole reaction to a sequence of events: the final state and
/// the actions emitted along the way, in order.
pub open spec fn run_model(m: OrchestratorView, events: Seq<EventView>) -> (
    OrchestratorView,
    Seq<ActionView>,
)
    decreases events.len(),
{
    if events.len() == 0 {
        (m, Seq::empty())
    } else {
        let first = step_model(m, events[0]);
        let rest = run_model(first.0, events.subrange(1, events.len() as int));
        (rest.0, seq![first.1] + rest.1)
    }
}

/// How far processing has advanced; transitions never decrease it.
pub open spec fn phase_rank(p: Phase) -> int {
    match p {
        Phase::AcquiringRepo => 0,
        Phase::ResolvingTag => 1,
        Phase::CompatChecking => 2,
        Phase::CheckingOut => 3,
        Phase::Building(_) => 4,
        Phase::Relocating => 5,
        Phase::Done => 6,
    }
}

/// The number of relocation actions in an action sequence.
pub open spec fn move_count(actions: Seq<ActionView>) -> int
    decreases actions.len(),
{
    if actions.len() == 0 {
        0
    } else {
        (if actions[0] is MoveArtifact {
            1int
        } else {
            0int
        }) + move_count(actions.subrange(1, actions.len() as int))
    }
}

/// Phases only move forward, and a relocation is emitted only on leaving the
/// build cascade for the relocation stage.
pub proof fn lemma_phases_move_forward(pre: OrchestratorView, event: EventView)
    ensures
        phase_rank(step_model(pre, event).0.phase) >= phase_rank(pre.phase),
        step_model(pre, event).1 is MoveArtifact ==> pre.phase is Building && step_model(
            pre,
            event,
        ).0.phase == Phase::Relocating,
{
}

/// Once the build cascade is behind it, a machine never relocates again.
pub proof fn lemma_no_relocation_after_building(m: OrchestratorView, events: Seq<EventView>)
    requires
        phase_rank(m.phase) >= 5,
    ensures
        move_count(run_model(m, events).1) == 0,
    decreases events.len(),
{
    if events.len() > 0 {
        let first = step_model(m, events[0]);
        lemma_phases_move_forward(m, events[0]);
        let rest = run_model(first.0, events.subrange(1, events.len() as int));
        lemma_no_relocation_after_building(first.0, events.subrange(1, events.len() as int));
        assert((seq![first.1] + rest.1).subrange(1, (seq![first.1] + rest.1).len() as int)
            =~= rest.1);
        assert((seq![first.1] + rest.1)[0] == first.1);
    }
}

/// One processing run relocates at most one artifact, whatever events the
/// outside work reports: no duplicate or partial artifact is ever left behind
/// by failed intermediate strategies.
pub proof fn lemma_at_most_one_artifact(m: OrchestratorView, events: Seq<EventView>)
    ensures
        move_count(run_model(m, events).1) <= 1,
    decreases events.len(),
{
    if events.len() > 0 {
        let first = step_model(m, events[0]);
        let tail = events.subrange(1, events.len() as int);
        let rest = run_model(first.0, tail);
        assert((seq![first.1] + rest.1).subrange(1, (seq![first.1] + rest.1).len() as int)
            =~= rest.1);
        assert((seq![first.1] + rest.1)[0] == first.1);
        if first.1 is MoveArtifact {
            lemma_phases_move_forward(m, events[0]);
            lemma_no_relocation_after_building(first.0, tail);
        } else {
            lemma_at_most_one_artifact(first.0, tail);
        }
    }
}

/// One step never changes which package is processed, where its working copy
/// lies, or whether the compatibility check is on.
pub proof fn lemma_step_preserves_identity(pre: OrchestratorView, event: EventView)
    ensures
        step_model(pre, event).0.package == pre.package,
        step_model(pre, event).0.local_path == pre.local_path,
        step_model(pre, event).0.check_compat == pre.check_compat,
{
}

/// In any run, every relocation moves the artifact from the documentation
/// tool's output location to the canonical destination derived from the
/// package's name and version alone: repeating a run over the same package
/// version always produces the artifact under the same path.
pub proof fn lemma_run_relocations_canonical(m: OrchestratorView, events: Seq<EventView>)
    ensures
        forall|i: int|
            0 <= i < run_model(m, events).1.len() ==> (#[trigger] run_model(m, events).1[i] matches
            ActionView::MoveArtifact { source, destination } ==> source == artifact_source_of(
                m.local_path,
                m.package.name,
            ) && destination == artifact_dest_of(m.package.name, m.package.version)),
    decreases events.len(),
{
    if events.len() > 0 {
        let first = step_model(m, events[0]);
        let tail = events.subrange(1, events.len() as int);
        lemma_step_preserves_identity(m, events[0]);
        lemma_run_relocations_canonical(first.0, tail);
        let acts = run_model(m, events).1;
        let rest = run_model(first.0, tail).1;
        assert(acts == seq![first.1] + rest);
        assert forall|i: int|
            0 <= i < acts.len() implies (#[trigger] acts[i] matches ActionView::MoveArtifact {
            source,
            destination,
        } ==> source == artifact_source_of(m.local_path, m.package.name) && destination
            == artifact_dest_of(m.package.name, m.package.version)) by {
            if i == 0 {
                assert(acts[0] == first.1);
            } else {
                assert(acts[i] == rest[i - 1]);
            }
        }
    }
}

/// Processing is deterministic: two machines in equal states observing equal
/// events react with equal states and equal actions, so a second run over
/// the same package and an unchanged repository retraces the first run and
/// relocates the artifact to the same destination.
pub proof fn lemma_processing_deterministic(
    m1: OrchestratorView,
    m2: OrchestratorView,
    e1: EventView,
    e2: EventView,
)
    requires
        m1 == m2,
        e1 == e2,
    ensures
        step_model(m1, e1) == step_model(m2, e2),
{
}

/// The artifact destination is keyed by the normalized package name and the
/// resolved version alone: whatever strategy of the cascade succeeded, and
/// whether the repository was cloned fresh or merely refreshed, a successful
/// build of the same package version is relocated to the same canonical path.
pub proof fn lemma_artifact_destination_canonical(
    pre: OrchestratorView,
    bs: BuildState,
    result: BuildAttemptResultView,
)
    requires
        pre.phase == Phase::Building(bs),
        result.succeeded,
    ensures
        step_model(pre, (EventView::BuildAttempted { result })).1 == (ActionView::MoveArtifact {
            source: artifact_source_of(pre.local_path, pre.package.name),
            destination: artifact_dest_of(pre.package.name, pre.package.version),
        }),
{
}

} // verus!
