//! From a manifest entry to the reference that its local branch should follow.

use vstd::prelude::*;
use vstd::string::*;
use crate::manifest::{RepoEntry, RepoEntryView};

verus! {

/// Number of characters of a commit hash that a label shows.
pub const LABEL_LEN: usize = 7;

/// What an entry asks for, once the priority among its fields is applied.
#[derive(Clone, Debug, PartialEq, Eq)]
pub enum Resolution {
    /// The entry names a commit or a tag: a fixed point, which no branch
    /// can track.
    Pinned { label: String },
    /// The local branch is to follow `remote_ref`. The reference is empty
    /// where neither the entry nor the manifest names a branch.
    Trackable { remote_ref: String },
}

/// A [`Resolution`] as plain text.
pub enum ResolutionView {
    Pinned { label: Seq<char> },
    Trackable { remote_ref: Seq<char> },
}

impl View for Resolution {
    type V = ResolutionView;

    open spec fn view(&self) -> ResolutionView {
        match self {
            Resolution::Pinned { label } => ResolutionView::Pinned { label: label@ },
            Resolution::Trackable { remote_ref } => ResolutionView::Trackable {
                remote_ref: remote_ref@,
            },
        }
    }
}

/// The single field of an entry that decides, in the order
/// commit, tag, branch, default branch, nothing.
pub enum Pin {
    Commit(Seq<char>),
    Tag(Seq<char>),
    Branch(Seq<char>),
    DefaultBranch(Seq<char>),
    Unset,
}

/// The field that decides for `entry` under the manifest's `default_branch`.
pub open spec fn effective_pin(entry: RepoEntryView, default_branch: Option<Seq<char>>) -> Pin {
    if let Some(commit) = entry.commit {
        Pin::Commit(commit)
    } else if let Some(tag) = entry.tag {
        Pin::Tag(tag)
    } else if let Some(branch) = entry.branch {
        Pin::Branch(branch)
    } else if let Some(branch) = default_branch {
        Pin::DefaultBranch(branch)
    } else {
        Pin::Unset
    }
}

/// The first [`LABEL_LEN`] characters of `commit`, or all of it where it is
/// shorter.
pub open spec fn short_label(commit: Seq<char>) -> Seq<char> {
    if commit.len() <= LABEL_LEN {
        commit
    } else {
        commit.subrange(0, LABEL_LEN as int)
    }
}

/// The name under which the origin holds `branch`.
pub open spec fn origin_ref(branch: Seq<char>) -> Seq<char> {
    "origin/"@ + branch
}

/// The resolution that a deciding field stands for.
pub open spec fn resolution_of(pin: Pin) -> ResolutionView {
    match pin {
        Pin::Commit(commit) => ResolutionView::Pinned { label: short_label(commit) },
        Pin::Tag(tag) => ResolutionView::Pinned { label: tag },
        Pin::Branch(branch) => ResolutionView::Trackable { remote_ref: origin_ref(branch) },
        Pin::DefaultBranch(branch) => ResolutionView::Trackable { remote_ref: origin_ref(branch) },
        Pin::Unset => ResolutionView::Trackable { remote_ref: Seq::empty() },
    }
}

/// What `entry` resolves to under the manifest's `default_branch`.
pub open spec fn resolve_spec(
    entry: RepoEntryView,
    default_branch: Option<Seq<char>>,
) -> ResolutionView {
    resolution_of(effective_pin(entry, default_branch))
}

/// The first [`LABEL_LEN`] characters of a commit hash.
pub fn shorten(commit: &str) -> (label: String)
    ensures
        label@ == short_label(commit@),
{
    let len: usize = commit.unicode_len();
    if len <= LABEL_LEN {
        commit.to_owned()
    } else {
        commit.substring_char(0, LABEL_LEN).to_owned()
    }
}

/// `"origin/"` followed by `branch`.
pub fn origin_of(branch: &str) -> (remote_ref: String)
    ensures
        remote_ref@ == origin_ref(branch@),
{
    let mut remote_ref = "origin/".to_owned();
    remote_ref.append(branch);
    remote_ref
}

/// Decides what `entry` asks for: a commit wins over a tag, a tag over the
/// entry's branch, and that over the manifest's default branch.
pub fn resolve(entry: &RepoEntry, default_branch: &Option<String>) -> (resolution: Resolution)
    ensures
        resolution@ == resolve_spec(entry@, default_branch.deep_view()),
        resolution is Pinned <==> (entry.commit is Some || entry.tag is Some),
{
    match &entry.commit {
        Some(commit) => Resolution::Pinned { label: shorten(commit.as_str()) },
        None => match &entry.tag {
            Some(tag) => Resolution::Pinned { label: tag.clone() },
            None => match &entry.branch {
                Some(branch) => Resolution::Trackable { remote_ref: origin_of(branch.as_str()) },
                None => match default_branch {
                    Some(branch) => Resolution::Trackable {
                        remote_ref: origin_of(branch.as_str()),
                    },
                    None => Resolution::Trackable { remote_ref: String::new() },
                },
            },
        },
    }
}

} // verus!
