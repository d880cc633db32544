//! Derivation of repository locations and artifact paths.
//!
//! A package's declared repository location is normalized (recognized hosting
//! prefix removed, trailing path separators and a trailing `.git` suffix
//! trimmed) into an organization/repository identifier, from which the clone
//! URL and a collision-free local working-copy directory are derived. The
//! documentation tool writes its output under a name in which every hyphen of
//! the package name becomes an underscore; the artifact source and canonical
//! destination paths account for that.

use crate::text::has_prefix;
use crate::text::replaced;
use crate::text::replace_char;
use crate::text::starts_with_str;
use crate::text::strip_prefix_str;
use crate::text::trim_end_char;
use crate::text::trim_end_str;
use crate::text::trimmed_end_char;
use crate::text::trimmed_end_seq;
use vstd::prelude::*;
use vstd::string::StringExecFns;

verus! {

/// The recognized repository-location prefix.
pub open spec fn github_prefix() -> Seq<char> {
    "https://github.com/"@
}

/// The prefix of derived clone URLs.
pub open spec fn git_url_prefix() -> Seq<char> {
    "git@github.com:"@
}

/// The root under which local working copies are kept.
pub open spec fn base_path() -> Seq<char> {
    "/var/tmp/crates-rustdoc-gen/"@
}

/// The organization/repository identifier of a repository location: the
/// hosting prefix removed, then trailing path separators, then any trailing
/// `.git` suffix.
pub open spec fn org_repo_of(repo: Seq<char>) -> Seq<char> {
    trimmed_end_seq(
        trimmed_end_char(repo.subrange(github_prefix().len() as int, repo.len() as int), '/'),
        ".git"@,
    )
}

/// The clone URL of an organization/repository identifier.
pub open spec fn clone_url_of(org_repo: Seq<char>) -> Seq<char> {
    git_url_prefix() + org_repo + ".git"@
}

/// The local working-copy directory of an organization/repository identifier:
/// the path separator is replaced by a distinct marker sequence, so distinct
/// identifiers map to distinct directories under the base path.
pub open spec fn local_dir_of(org_repo: Seq<char>) -> Seq<char> {
    base_path() + replaced(org_repo, '/', "__"@)
}

/// A package name as the documentation tool writes it in output filenames:
/// every hyphen becomes an underscore.
pub open spec fn underscored_of(name: Seq<char>) -> Seq<char> {
    replaced(name, '-', "_"@)
}

/// Where the documentation tool leaves the artifact after a successful build.
pub open spec fn artifact_source_of(local_dir: Seq<char>, name: Seq<char>) -> Seq<char> {
    local_dir + "/target/doc/"@ + underscored_of(name) + ".json"@
}

/// The canonical destination of the artifact, keyed by the normalized package
/// name and the resolved version.
pub open spec fn artifact_dest_of(name: Seq<char>, version: Seq<char>) -> Seq<char> {
    "./localdata/rustdocs/"@ + underscored_of(name) + "-"@ + version + ".json"@
}

/// Decides whether a repository location carries the recognized hosting
/// prefix; locations without it are skipped by the caller.
pub fn is_github_repository(repo: &str) -> (r: bool)
    ensures
        r == has_prefix(repo@, github_prefix()),
{
    starts_with_str(repo, "https://github.com/")
}

/// Normalizes a repository location into its organization/repository
/// identifier.
pub fn org_repo(repo: &str) -> (r: String)
    requires
        has_prefix(repo@, github_prefix()),
    ensures
        r@ == org_repo_of(repo@),
{
    let stripped = strip_prefix_str(repo, "https://github.com/");
    let no_sep = trim_end_char(stripped, '/');
    proof {
        reveal_strlit(".git");
    }
    let trimmed = trim_end_str(no_sep, ".git");
    trimmed.to_owned()
}

/// Builds the clone URL of an organization/repository identifier.
pub fn clone_url(org_repo: &str) -> (r: String)
    ensures
        r@ == clone_url_of(org_repo@),
{
    let mut r = String::from_str("git@github.com:");
    r.append(org_repo);
    r.append(".git");
    r
}

/// Builds the local working-copy directory of an organization/repository
/// identifier.
pub fn local_dir(org_repo: &str) -> (r: String)
    ensures
        r@ == local_dir_of(org_repo@),
{
    let mut r = String::from_str("/var/tmp/crates-rustdoc-gen/");
    let marked = replace_char(org_repo, '/', "__");
    r.append(marked.as_str());
    r
}

/// Rewrites a package name as the documentation tool writes it.
pub fn underscored_name(name: &str) -> (r: String)
    ensures
        r@ == underscored_of(name@),
{
    replace_char(name, '-', "_")
}

/// Builds the path where the documentation tool leaves the artifact.
pub fn artifact_source(local_dir: &str, name: &str) -> (r: String)
    ensures
        r@ == artifact_source_of(local_dir@, name@),
{
    let mut r = local_dir.to_owned();
    r.append("/target/doc/");
    let under = underscored_name(name);
    r.append(under.as_str());
    r.append(".json");
    r
}

/// Builds the canonical destination path of the artifact.
pub fn artifact_dest(name: &str, version: &str) -> (r: String)
    ensures
        r@ == artifact_dest_of(name@, version@),
{
    let mut r = String::from_str("./localdata/rustdocs/");
    let under = underscored_name(name);
    r.append(under.as_str());
    r.append("-");
    r.append(version);
    r.append(".json");
    r
}

} // verus!
