//! What the library reads of a repository on disk, through `git2`.

use vstd::prelude::*;

verus! {

/// A repository opened by `git2`.
#[verifier::external_type_specification]
#[verifier::external_body]
pub struct ExRepository(git2::Repository);

/// A reference of a repository opened by `git2`.
#[verifier::external_type_specification]
#[verifier::external_body]
pub struct ExReference<'repo>(git2::Reference<'repo>);

/// The error of a `git2` call.
#[verifier::external_type_specification]
#[verifier::external_body]
pub struct ExGitError(git2::Error);

/// What was found at the place of a repository.
#[derive(Clone, Debug, PartialEq, Eq)]
pub enum HeadProbe {
    /// Nothing there can be opened as a repository.
    Missing,
    /// A repository, with the name of the branch that its HEAD stands for.
    /// The name is blank where HEAD is detached or names no branch that can
    /// be read.
    Opened { branch: String },
}

/// A [`HeadProbe`] as plain text.
pub enum HeadProbeView {
    Missing,
    Opened { branch: Seq<char> },
}

impl View for HeadProbe {
    type V = HeadProbeView;

    open spec fn view(&self) -> HeadProbeView {
        match self {
            HeadProbe::Missing => HeadProbeView::Missing,
            HeadProbe::Opened { branch } => HeadProbeView::Opened { branch: branch@ },
        }
    }
}

/// Calls `git2::Repository::open`.
///
/// Trusted: nothing is claimed of the result, which depends on what the disk
/// holds at `path`.
#[verifier::external_body]
fn open_repository(path: &str) -> (opened: Result<git2::Repository, git2::Error>) {
    git2::Repository::open(path)
}

/// Calls `git2::Repository::head`.
///
/// Trusted: nothing is claimed of the result.
#[verifier::external_body]
fn repository_head<'repo>(repository: &'repo git2::Repository) -> (head: Result<
    git2::Reference<'repo>,
    git2::Error,
>) {
    repository.head()
}

/// Calls `git2::Repository::head_detached`.
///
/// Trusted: nothing is claimed of the result.
#[verifier::external_body]
fn repository_head_detached(repository: &git2::Repository) -> (detached: Result<
    bool,
    git2::Error,
>) {
    repository.head_detached()
}

/// Calls `git2::Reference::shorthand` and copies the name.
///
/// Trusted: nothing is claimed of the result.
#[verifier::external_body]
fn reference_shorthand(reference: &git2::Reference<'_>) -> (name: Result<String, git2::Error>) {
    match reference.shorthand() {
        Ok(name) => Ok(name.to_string()),
        Err(error) => Err(error),
    }
}

/// The branch name that a report shows for a HEAD: none where HEAD is
/// detached or where its name is no text, else the short name.
pub open spec fn shown_branch_spec(detached: bool, shorthand: Option<Seq<char>>) -> Seq<char> {
    match shorthand {
        Some(name) if !detached => name,
        _ => Seq::empty(),
    }
}

/// The branch name that a report shows for a HEAD that is `detached` or not
/// and whose short name is `shorthand`, if it has one that is text.
pub fn shown_branch(detached: bool, shorthand: Option<String>) -> (branch: String)
    ensures
        branch@ == shown_branch_spec(detached, shorthand.deep_view()),
{
    match shorthand {
        Some(name) => if detached {
            String::new()
        } else {
            name
        },
        None => String::new(),
    }
}

/// The name of the branch that the HEAD of `repository` stands for, blank
/// where HEAD cannot be resolved, as on a branch without a commit.
fn current_branch(repository: &git2::Repository) -> (branch: String) {
    match repository_head(repository) {
        Ok(head) => {
            let detached = match repository_head_detached(repository) {
                Ok(detached) => detached,
                Err(_) => false,
            };
            let shorthand = match reference_shorthand(&head) {
                Ok(name) => Some(name),
                Err(_) => None,
            };
            shown_branch(detached, shorthand)
        },
        Err(_) => String::new(),
    }
}

/// Opens the repository at `path` and reads the branch that it is on.
pub fn probe_head(path: &str) -> (probe: HeadProbe) {
    match open_repository(path) {
        Ok(repository) => HeadProbe::Opened { branch: current_branch(&repository) },
        Err(_) => HeadProbe::Missing,
    }
}

/// Looks at the places where repositories should be.
pub trait Workspace {
    /// What is found at `path`.
    fn probe(&mut self, path: &str) -> HeadProbe;
}

/// The repositories on disk, read through `git2`.
#[derive(Clone, Copy, Debug, Default)]
pub struct GitWorkspace;

impl Workspace for GitWorkspace {
    fn probe(&mut self, path: &str) -> HeadProbe {
        probe_head(path)
    }
}

} // verus!
