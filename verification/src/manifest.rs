//! The manifest: an optional default branch and the repositories in the order
//! in which they were written.

use vstd::prelude::*;

verus! {

/// One repository of the manifest.
///
/// `commit`, `tag` and `branch` may be present in any combination; which of
/// them counts is decided by [`crate::resolve::resolve`].
#[derive(Clone, Debug, PartialEq, Eq)]
pub struct RepoEntry {
    /// Path of the repository, relative to the working root.
    pub local: String,
    /// URL of the origin. Tracking never reads it.
    pub remote: String,
    /// Branch to track.
    pub branch: Option<String>,
    /// Commit hash that the repository is pinned to.
    pub commit: Option<String>,
    /// Tag that the repository is pinned to.
    pub tag: Option<String>,
}

/// What a [`RepoEntry`] holds, as plain text.
pub struct RepoEntryView {
    pub local: Seq<char>,
    pub remote: Seq<char>,
    pub branch: Option<Seq<char>>,
    pub commit: Option<Seq<char>>,
    pub tag: Option<Seq<char>>,
}

impl RepoEntryView {
    /// Whether the entry names a commit or a tag: a fixed point in the
    /// history, which no branch can track.
    pub open spec fn pinned(self) -> bool {
        self.commit is Some || self.tag is Some
    }
}

impl View for RepoEntry {
    type V = RepoEntryView;

    open spec fn view(&self) -> RepoEntryView {
        RepoEntryView {
            local: self.local@,
            remote: self.remote@,
            branch: self.branch.deep_view(),
            commit: self.commit.deep_view(),
            tag: self.tag.deep_view(),
        }
    }
}

/// One repository as a document gives it, where any field may be absent.
#[derive(Clone, Debug, PartialEq, Eq)]
pub struct RawEntry {
    pub local: Option<String>,
    pub remote: Option<String>,
    pub branch: Option<String>,
    pub commit: Option<String>,
    pub tag: Option<String>,
}

/// What a [`RawEntry`] holds, as plain text.
pub struct RawEntryView {
    pub local: Option<Seq<char>>,
    pub remote: Option<Seq<char>>,
    pub branch: Option<Seq<char>>,
    pub commit: Option<Seq<char>>,
    pub tag: Option<Seq<char>>,
}

impl View for RawEntry {
    type V = RawEntryView;

    open spec fn view(&self) -> RawEntryView {
        RawEntryView {
            local: self.local.deep_view(),
            remote: self.remote.deep_view(),
            branch: self.branch.deep_view(),
            commit: self.commit.deep_view(),
            tag: self.tag.deep_view(),
        }
    }
}

impl RawEntryView {
    /// Whether both required fields, `local` and `remote`, are present.
    pub open spec fn complete(self) -> bool {
        self.local is Some && self.remote is Some
    }

    /// The entry that a complete raw entry stands for.
    pub open spec fn entry(self) -> RepoEntryView
        recommends
            self.complete(),
    {
        RepoEntryView {
            local: self.local->0,
            remote: self.remote->0,
            branch: self.branch,
            commit: self.commit,
            tag: self.tag,
        }
    }
}

/// A manifest as a document gives it, before its entries are checked.
#[derive(Clone, Debug, PartialEq, Eq)]
pub struct RawManifest {
    pub default_branch: Option<String>,
    pub repos: Vec<RawEntry>,
}

/// What a [`RawManifest`] holds, as plain text.
pub struct RawManifestView {
    pub default_branch: Option<Seq<char>>,
    pub repos: Seq<RawEntryView>,
}

impl View for RawManifest {
    type V = RawManifestView;

    open spec fn view(&self) -> RawManifestView {
        RawManifestView {
            default_branch: self.default_branch.deep_view(),
            repos: Seq::new(self.repos@.len(), |i: int| self.repos@[i]@),
        }
    }
}

/// Why no manifest could be had. Any of these ends the run before the first
/// repository is touched.
#[derive(Clone, Debug, PartialEq, Eq)]
pub enum ConfigError {
    /// There is no manifest file.
    Missing,
    /// The document is not well-formed.
    Malformed { reason: String },
    /// The entry at `index` has no `local`.
    MissingLocal { index: usize },
    /// The entry at `index` has a `local` but no `remote`.
    MissingRemote { index: usize },
}

/// The manifest: the default branch, if any, and the repositories in the
/// order of the document, which is the order of the report.
#[derive(Clone, Debug, PartialEq, Eq)]
pub struct Manifest {
    default_branch: Option<String>,
    repos: Vec<RepoEntry>,
}

/// What a [`Manifest`] holds, as plain text.
pub struct ManifestView {
    pub default_branch: Option<Seq<char>>,
    pub repos: Seq<RepoEntryView>,
}

impl View for Manifest {
    type V = ManifestView;

    closed spec fn view(&self) -> ManifestView {
        ManifestView {
            default_branch: self.default_branch.deep_view(),
            repos: Seq::new(self.repos@.len(), |i: int| self.repos@[i]@),
        }
    }
}

/// The views of `entries`, in their order.
pub open spec fn entry_views(entries: Seq<RepoEntry>) -> Seq<RepoEntryView> {
    Seq::new(entries.len(), |i: int| entries[i]@)
}

/// Whether `index` is the place of the first entry of `repos` that lacks a
/// required field.
pub open spec fn first_incomplete(repos: Seq<RawEntryView>, index: int) -> bool {
    &&& 0 <= index < repos.len()
    &&& !repos[index].complete()
    &&& forall|j: int| 0 <= j < index ==> (#[trigger] repos[j]).complete()
}

/// A copy of an optional text.
fn copy_of(text: &Option<String>) -> (copy: Option<String>)
    ensures
        copy.deep_view() == text.deep_view(),
{
    match text {
        Some(text) => Some(text.clone()),
        None => None,
    }
}

impl Manifest {
    /// A manifest of the given default branch and repositories.
    pub fn new(default_branch: Option<String>, repos: Vec<RepoEntry>) -> (manifest: Manifest)
        ensures
            manifest@.default_branch == default_branch.deep_view(),
            manifest@.repos == entry_views(repos@),
    {
        Manifest { default_branch, repos }
    }

    /// Checks the entries of a raw manifest. The first entry that lacks
    /// `local` or `remote` is the error; with none, the manifest holds every
    /// entry, in order.
    pub fn from_raw(raw: &RawManifest) -> (checked: Result<Manifest, ConfigError>)
        ensures
            checked is Ok <==> forall|i: int|
                0 <= i < raw@.repos.len() ==> (#[trigger] raw@.repos[i]).complete(),
            checked matches Ok(manifest) ==> {
                &&& manifest@.default_branch == raw@.default_branch
                &&& manifest@.repos == raw@.repos.map_values(|e: RawEntryView| e.entry())
            },
            checked matches Err(error) ==> match error {
                ConfigError::MissingLocal { index } => first_incomplete(raw@.repos, index as int)
                    && raw@.repos[index as int].local is None,
                ConfigError::MissingRemote { index } => first_incomplete(raw@.repos, index as int)
                    && raw@.repos[index as int].local is Some,
                _ => false,
            },
    {
        let mut repos: Vec<RepoEntry> = Vec::new();
        let mut i: usize = 0;
        while i < raw.repos.len()
            invariant
                0 <= i <= raw.repos.len(),
                repos.len() == i,
                forall|j: int| 0 <= j < i ==> (#[trigger] raw@.repos[j]).complete(),
                forall|j: int| 0 <= j < i ==> (#[trigger] repos@[j])@ == raw@.repos[j].entry(),
            decreases raw.repos.len() - i,
        {
            let entry = &raw.repos[i];
            assert(entry@ == raw@.repos[i as int]);
            let local = match &entry.local {
                Some(local) => local.clone(),
                None => {
                    return Err(ConfigError::MissingLocal { index: i });
                },
            };
            let remote = match &entry.remote {
                Some(remote) => remote.clone(),
                None => {
                    return Err(ConfigError::MissingRemote { index: i });
                },
            };
            repos.push(
                RepoEntry {
                    local,
                    remote,
                    branch: copy_of(&entry.branch),
                    commit: copy_of(&entry.commit),
                    tag: copy_of(&entry.tag),
                },
            );
            i += 1;
        }
        let manifest = Manifest { default_branch: copy_of(&raw.default_branch), repos };
        assert(manifest@.repos =~= raw@.repos.map_values(|e: RawEntryView| e.entry()));
        Ok(manifest)
    }

    /// The branch that an entry without a pin of its own tracks.
    pub fn default_branch(&self) -> (branch: &Option<String>)
        ensures
            branch.deep_view() == self@.default_branch,
    {
        &self.default_branch
    }

    /// The repositories, in the order of the document.
    pub fn repos(&self) -> (repos: &Vec<RepoEntry>)
        ensures
            entry_views(repos@) == self@.repos,
    {
        &self.repos
    }

    /// The number of repositories.
    pub fn len(&self) -> (len: usize)
        ensures
            len == self@.repos.len(),
    {
        self.repos.len()
    }
}

} // verus!
