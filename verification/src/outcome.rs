//! What happened to one entry of the manifest, and the line that reports it.

use vstd::prelude::*;
use vstd::string::*;
use crate::style::{blue, blue_text, magenta, magenta_text, red, red_text};

verus! {

/// How a report line is written.
#[derive(Clone, Copy, Debug, PartialEq, Eq)]
pub enum Style {
    /// Text alone.
    Plain,
    /// Text with the colours of a terminal.
    Ansi,
}

/// The result of handling one entry. `path` is the entry's path as the
/// manifest gives it.
#[derive(Clone, Debug, PartialEq, Eq)]
pub enum Outcome {
    /// No repository could be opened at the entry's place.
    NotFound { path: String },
    /// The entry is pinned to a commit or a tag, so nothing is tracked.
    Untracked { path: String, label: String },
    /// The local branch now follows `remote_ref`.
    Applied { path: String, local_branch: String, remote_ref: String },
    /// The command that sets the upstream failed.
    Failed { path: String, remote_ref: String },
}

/// An [`Outcome`] as plain text.
pub enum OutcomeView {
    NotFound { path: Seq<char> },
    Untracked { path: Seq<char>, label: Seq<char> },
    Applied { path: Seq<char>, local_branch: Seq<char>, remote_ref: Seq<char> },
    Failed { path: Seq<char>, remote_ref: Seq<char> },
}

impl View for Outcome {
    type V = OutcomeView;

    open spec fn view(&self) -> OutcomeView {
        match self {
            Outcome::NotFound { path } => OutcomeView::NotFound { path: path@ },
            Outcome::Untracked { path, label } => OutcomeView::Untracked {
                path: path@,
                label: label@,
            },
            Outcome::Applied { path, local_branch, remote_ref } => OutcomeView::Applied {
                path: path@,
                local_branch: local_branch@,
                remote_ref: remote_ref@,
            },
            Outcome::Failed { path, remote_ref } => OutcomeView::Failed {
                path: path@,
                remote_ref: remote_ref@,
            },
        }
    }
}

impl OutcomeView {
    /// The path of the entry that the outcome belongs to.
    pub open spec fn path(self) -> Seq<char> {
        match self {
            OutcomeView::NotFound { path } => path,
            OutcomeView::Untracked { path, .. } => path,
            OutcomeView::Applied { path, .. } => path,
            OutcomeView::Failed { path, .. } => path,
        }
    }

    /// Whether the outcome is a failure: the repository is missing, or the
    /// upstream could not be set. A pinned entry is no failure.
    pub open spec fn is_failure(self) -> bool {
        self is NotFound || self is Failed
    }

    /// The report line in plain text.
    pub open spec fn line(self) -> Seq<char> {
        match self {
            OutcomeView::NotFound { path } => path + ": repository doesn't exist"@,
            OutcomeView::Untracked { path, label } => path + ": "@ + label + " untracked"@,
            OutcomeView::Applied { path, local_branch, remote_ref } => path + ": "@ + local_branch
                + " -> "@ + remote_ref,
            OutcomeView::Failed { path, remote_ref } => path + ": track failed, "@ + remote_ref
                + " not found!"@,
        }
    }

    /// The report line for a terminal: the path in magenta, names of
    /// references in blue, complaints in red.
    pub open spec fn styled_line(self) -> Seq<char> {
        match self {
            OutcomeView::NotFound { path } => magenta_text(path) + ": "@ + red_text(
                "repository doesn't exist"@,
            ),
            OutcomeView::Untracked { path, label } => magenta_text(path) + ": "@ + blue_text(label)
                + " untracked"@,
            OutcomeView::Applied { path, local_branch, remote_ref } => magenta_text(path) + ": "@
                + blue_text(local_branch) + " -> "@ + blue_text(remote_ref),
            OutcomeView::Failed { path, remote_ref } => magenta_text(path) + ": "@ + red_text(
                "track failed,"@,
            ) + " "@ + blue_text(remote_ref) + " "@ + red_text("not found!"@),
        }
    }

    /// The report line in the given style.
    pub open spec fn render(self, style: Style) -> Seq<char> {
        match style {
            Style::Plain => self.line(),
            Style::Ansi => self.styled_line(),
        }
    }
}

impl Outcome {
    /// The path of the entry that the outcome belongs to.
    pub fn path(&self) -> (path: &String)
        ensures
            path@ == self@.path(),
    {
        match self {
            Outcome::NotFound { path } => path,
            Outcome::Untracked { path, .. } => path,
            Outcome::Applied { path, .. } => path,
            Outcome::Failed { path, .. } => path,
        }
    }

    /// Whether the outcome is a failure.
    pub fn is_failure(&self) -> (failure: bool)
        ensures
            failure == self@.is_failure(),
    {
        match self {
            Outcome::NotFound { .. } => true,
            Outcome::Untracked { .. } => false,
            Outcome::Applied { .. } => false,
            Outcome::Failed { .. } => true,
        }
    }

    /// The report line in plain text.
    pub fn line(&self) -> (line: String)
        ensures
            line@ == self@.line(),
    {
        match self {
            Outcome::NotFound { path } => {
                let mut line = path.clone();
                line.append(": repository doesn't exist");
                line
            },
            Outcome::Untracked { path, label } => {
                let mut line = path.clone();
                line.append(": ");
                line.append(label.as_str());
                line.append(" untracked");
                line
            },
            Outcome::Applied { path, local_branch, remote_ref } => {
                let mut line = path.clone();
                line.append(": ");
                line.append(local_branch.as_str());
                line.append(" -> ");
                line.append(remote_ref.as_str());
                line
            },
            Outcome::Failed { path, remote_ref } => {
                let mut line = path.clone();
                line.append(": track failed, ");
                line.append(remote_ref.as_str());
                line.append(" not found!");
                line
            },
        }
    }

    /// The report line with the colours of a terminal.
    pub fn styled_line(&self) -> (line: String)
        ensures
            line@ == self@.styled_line(),
    {
        match self {
            Outcome::NotFound { path } => {
                let mut line = magenta(path.as_str());
                line.append(": ");
                line.append(red("repository doesn't exist").as_str());
                line
            },
            Outcome::Untracked { path, label } => {
                let mut line = magenta(path.as_str());
                line.append(": ");
                line.append(blue(label.as_str()).as_str());
                line.append(" untracked");
                line
            },
            Outcome::Applied { path, local_branch, remote_ref } => {
                let mut line = magenta(path.as_str());
                line.append(": ");
                line.append(blue(local_branch.as_str()).as_str());
                line.append(" -> ");
                line.append(blue(remote_ref.as_str()).as_str());
                line
            },
            Outcome::Failed { path, remote_ref } => {
                let mut line = magenta(path.as_str());
                line.append(": ");
                line.append(red("track failed,").as_str());
                line.append(" ");
                line.append(blue(remote_ref.as_str()).as_str());
                line.append(" ");
                line.append(red("not found!").as_str());
                line
            },
        }
    }

    /// The report line in the given style.
    pub fn render(&self, style: Style) -> (line: String)
        ensures
            line@ == self@.render(style),
    {
        match style {
            Style::Plain => self.line(),
            Style::Ansi => self.styled_line(),
        }
    }
}

} // verus!
