//! The run over a manifest: for each entry, open the repository, decide what
//! it should track, have the upstream set where that is due, and report.

use vstd::prelude::*;
use vstd::string::*;
use crate::executor::{CapturedOutput, CommandExecutor, ExecError};
use crate::manifest::{entry_views, Manifest, ManifestView, RepoEntry, RepoEntryView};
use crate::outcome::{Outcome, OutcomeView, Style};
use crate::paths::{join_path, joined_path};
use crate::repository::{probe_head, HeadProbe, HeadProbeView, Workspace};
use crate::resolve::{resolve, resolve_spec, Resolution, ResolutionView};
use crate::sink::{EntryInfo, ReportSink};

verus! {

/// A command for the executor.
#[derive(Clone, Debug, PartialEq, Eq)]
pub struct Invocation {
    pub working_dir: String,
    pub program: String,
    pub arguments: Vec<String>,
}

/// An [`Invocation`] as plain text.
pub struct InvocationView {
    pub working_dir: Seq<char>,
    pub program: Seq<char>,
    pub arguments: Seq<Seq<char>>,
}

impl View for Invocation {
    type V = InvocationView;

    open spec fn view(&self) -> InvocationView {
        InvocationView {
            working_dir: self.working_dir@,
            program: self.program@,
            arguments: self.arguments.deep_view(),
        }
    }
}

/// The command that makes the current branch of the repository in
/// `working_dir` follow `remote_ref`.
pub open spec fn set_upstream_spec(working_dir: Seq<char>, remote_ref: Seq<char>) -> InvocationView {
    InvocationView {
        working_dir,
        program: "git"@,
        arguments: seq!["branch"@, "--set-upstream-to"@, remote_ref],
    }
}

/// What is to be done for an entry once its repository has been looked at.
#[derive(Clone, Debug, PartialEq, Eq)]
pub enum Step {
    /// The entry is settled and no command is run for it.
    Report(Outcome),
    /// `command` is to be run; [`conclude`] makes the outcome of its result.
    Apply { local_branch: String, remote_ref: String, command: Invocation },
}

/// A [`Step`] as plain text.
pub enum StepView {
    Report(OutcomeView),
    Apply { local_branch: Seq<char>, remote_ref: Seq<char>, command: InvocationView },
}

impl View for Step {
    type V = StepView;

    open spec fn view(&self) -> StepView {
        match self {
            Step::Report(outcome) => StepView::Report(outcome@),
            Step::Apply { local_branch, remote_ref, command } => StepView::Apply {
                local_branch: local_branch@,
                remote_ref: remote_ref@,
                command: command@,
            },
        }
    }
}

/// The step for `entry`, whose repository lies at `working_dir` and was
/// found as `probe` says: a missing repository and a pinned entry are
/// settled at once, anything else asks for the upstream to be set.
pub open spec fn plan_spec(
    working_dir: Seq<char>,
    entry: RepoEntryView,
    default_branch: Option<Seq<char>>,
    probe: HeadProbeView,
) -> StepView {
    match probe {
        HeadProbeView::Missing => StepView::Report(OutcomeView::NotFound { path: entry.local }),
        HeadProbeView::Opened { branch } => match resolve_spec(entry, default_branch) {
            ResolutionView::Pinned { label } => StepView::Report(
                OutcomeView::Untracked { path: entry.local, label },
            ),
            ResolutionView::Trackable { remote_ref } => StepView::Apply {
                local_branch: branch,
                remote_ref,
                command: set_upstream_spec(working_dir, remote_ref),
            },
        },
    }
}

/// The outcome of an entry whose command ran: `applied` says whether it
/// succeeded.
pub open spec fn conclude_spec(
    path: Seq<char>,
    local_branch: Seq<char>,
    remote_ref: Seq<char>,
    applied: bool,
) -> OutcomeView {
    if applied {
        OutcomeView::Applied { path, local_branch, remote_ref }
    } else {
        OutcomeView::Failed { path, remote_ref }
    }
}

/// The outcome of `entry` as a function of all that the run observes: how
/// the repository was found and, where a command is due, whether it
/// succeeded.
pub open spec fn outcome_spec(
    entry: RepoEntryView,
    default_branch: Option<Seq<char>>,
    probe: HeadProbeView,
    applied: bool,
) -> OutcomeView {
    match probe {
        HeadProbeView::Missing => OutcomeView::NotFound { path: entry.local },
        HeadProbeView::Opened { branch } => match resolve_spec(entry, default_branch) {
            ResolutionView::Pinned { label } => OutcomeView::Untracked { path: entry.local, label },
            ResolutionView::Trackable { remote_ref } => conclude_spec(
                entry.local,
                branch,
                remote_ref,
                applied,
            ),
        },
    }
}

/// What a run observes while it handles one entry: how the repository was
/// found and, where a command was due, whether it succeeded.
pub struct Observation {
    pub probe: HeadProbeView,
    pub applied: bool,
}

/// The outcomes of a run over `manifest` during which the entries were
/// observed as `observations` says, one observation for each entry: one
/// outcome for each entry, in the order of the manifest, each made of its own
/// entry and its own observation alone.
pub open spec fn run_spec(manifest: ManifestView, observations: Seq<Observation>) -> Seq<
    OutcomeView,
>
    recommends
        observations.len() == manifest.repos.len(),
{
    Seq::new(
        manifest.repos.len(),
        |i: int|
            outcome_spec(
                manifest.repos[i],
                manifest.default_branch,
                observations[i].probe,
                observations[i].applied,
            ),
    )
}

/// The views of `outcomes`, in their order.
pub open spec fn outcome_views(outcomes: Seq<Outcome>) -> Seq<OutcomeView> {
    Seq::new(outcomes.len(), |i: int| outcomes[i]@)
}

/// Whether `outcome` is one that `entry` can have, whatever is found on disk
/// and however the command ends: it carries the entry's path; a pinned entry
/// is never applied or failed, and one that is not pinned is never
/// untracked; label and reference are those that the entry resolves to.
pub open spec fn admissible(
    entry: RepoEntryView,
    default_branch: Option<Seq<char>>,
    outcome: OutcomeView,
) -> bool {
    match outcome {
        OutcomeView::NotFound { path } => path == entry.local,
        OutcomeView::Untracked { path, label } => path == entry.local && resolve_spec(
            entry,
            default_branch,
        ) == (ResolutionView::Pinned { label }),
        OutcomeView::Applied { path, local_branch, remote_ref } => path == entry.local
            && resolve_spec(entry, default_branch) == (ResolutionView::Trackable { remote_ref }),
        OutcomeView::Failed { path, remote_ref } => path == entry.local && resolve_spec(
            entry,
            default_branch,
        ) == (ResolutionView::Trackable { remote_ref }),
    }
}

/// The command that makes the current branch of the repository in
/// `working_dir` follow `remote_ref`.
pub fn set_upstream(working_dir: String, remote_ref: &str) -> (command: Invocation)
    ensures
        command@ == set_upstream_spec(working_dir@, remote_ref@),
{
    let mut arguments: Vec<String> = Vec::new();
    arguments.push("branch".to_owned());
    arguments.push("--set-upstream-to".to_owned());
    arguments.push(remote_ref.to_owned());
    let command = Invocation { working_dir, program: "git".to_owned(), arguments };
    assert(command@.arguments =~= seq!["branch"@, "--set-upstream-to"@, remote_ref@]);
    command
}

/// Decides what is to be done for `entry`, whose repository lies at
/// `working_dir` and was found as `probe` says.
pub fn plan(
    working_dir: String,
    entry: &RepoEntry,
    default_branch: &Option<String>,
    probe: HeadProbe,
) -> (step: Step)
    ensures
        step@ == plan_spec(working_dir@, entry@, default_branch.deep_view(), probe@),
{
    match probe {
        HeadProbe::Missing => Step::Report(Outcome::NotFound { path: entry.local.clone() }),
        HeadProbe::Opened { branch } => match resolve(entry, default_branch) {
            Resolution::Pinned { label } => Step::Report(
                Outcome::Untracked { path: entry.local.clone(), label },
            ),
            Resolution::Trackable { remote_ref } => {
                let command = set_upstream(working_dir, remote_ref.as_str());
                Step::Apply { local_branch: branch, remote_ref, command }
            },
        },
    }
}

/// Makes the outcome of an entry from the result of its command.
pub fn conclude(
    path: String,
    local_branch: String,
    remote_ref: String,
    result: &Result<CapturedOutput, ExecError>,
) -> (outcome: Outcome)
    ensures
        outcome@ == conclude_spec(path@, local_branch@, remote_ref@, result is Ok),
{
    match result {
        Ok(_) => Outcome::Applied { path, local_branch, remote_ref },
        Err(_) => Outcome::Failed { path, remote_ref },
    }
}

/// Handles one entry whose repository, at `working_dir`, was found as `probe`
/// says. The executor is called once where the plan asks for a command, and
/// not at all otherwise; whatever it answers becomes an outcome.
pub fn track_entry<E: CommandExecutor>(
    working_dir: String,
    entry: &RepoEntry,
    default_branch: &Option<String>,
    probe: HeadProbe,
    executor: &mut E,
) -> (outcome: Outcome)
    ensures
        outcome@ == outcome_spec(entry@, default_branch.deep_view(), probe@, true) || outcome@
            == outcome_spec(entry@, default_branch.deep_view(), probe@, false),
        plan_spec(working_dir@, entry@, default_branch.deep_view(), probe@) matches StepView::Report(
            settled,
        ) ==> outcome@ == settled && *final(executor) == *old(executor),
{
    match plan(working_dir, entry, default_branch, probe) {
        Step::Report(outcome) => outcome,
        Step::Apply { local_branch, remote_ref, command } => {
            let result = executor.run(
                command.working_dir.as_str(),
                command.program.as_str(),
                &command.arguments,
            );
            conclude(entry.local.clone(), local_branch, remote_ref, &result)
        },
    }
}

/// Handles one entry of a manifest whose repositories lie below
/// `input_path`: opens the repository, reads its branch, and goes on as
/// [`track_entry`] does.
pub fn set_tracking_remote_branch<E: CommandExecutor>(
    input_path: &str,
    entry: &RepoEntry,
    default_branch: &Option<String>,
    executor: &mut E,
) -> (outcome: Outcome)
    ensures
        admissible(entry@, default_branch.deep_view(), outcome@),
        entry@.pinned() ==> *final(executor) == *old(executor),
{
    let working_dir = join_path(input_path, entry.local.as_str());
    let probe = probe_head(working_dir.as_str());
    track_entry(working_dir, entry, default_branch, probe, executor)
}

/// Announces the end of an entry to the sink, as [`closing`] says. What the
/// sink makes of the call is its own affair.
fn announce<S: ReportSink>(sink: &mut S, info: &EntryInfo, outcome: &Outcome, style: Style) {
    match closing(outcome, style) {
        Closing::Done { message } => sink.entry_end(info, message.as_str()),
        Closing::Error { message } => sink.entry_error(info, message.as_str()),
    }
}

/// Runs over the manifest whose repositories lie below `input_path`. Every
/// entry is handled, in the order of the manifest, whatever became of the
/// entries before it, and has exactly one outcome. The sink hears of the
/// start and the end of the run and of each entry.
pub fn track_all<W: Workspace, E: CommandExecutor, S: ReportSink>(
    input_path: &str,
    manifest: &Manifest,
    style: Style,
    workspace: &mut W,
    executor: &mut E,
    sink: &mut S,
) -> (outcomes: Vec<Outcome>)
    ensures
        outcomes.len() == manifest@.repos.len(),
        exists|observations: Seq<Observation>|
            observations.len() == manifest@.repos.len() && #[trigger] run_spec(
                manifest@,
                observations,
            ) == outcome_views(outcomes@),
        forall|i: int|
            0 <= i < outcomes.len() ==> admissible(
                manifest@.repos[i],
                manifest@.default_branch,
                (#[trigger] outcomes@[i])@,
            ),
        (forall|i: int| 0 <= i < manifest@.repos.len() ==> (#[trigger] manifest@.repos[i]).pinned())
            ==> *final(executor) == *old(executor),
{
    let repos = manifest.repos();
    let default_branch = manifest.default_branch();
    let mut outcomes: Vec<Outcome> = Vec::new();
    let ghost mut observations: Seq<Observation> = Seq::empty();
    sink.batch_start(repos.len());
    let mut i: usize = 0;
    while i < repos.len()
        invariant
            0 <= i <= repos.len(),
            outcomes.len() == i,
            observations.len() == i,
            forall|j: int|
                0 <= j < i ==> (#[trigger] outcomes@[j])@ == outcome_spec(
                    manifest@.repos[j],
                    manifest@.default_branch,
                    observations[j].probe,
                    observations[j].applied,
                ),
            entry_views(repos@) == manifest@.repos,
            default_branch.deep_view() == manifest@.default_branch,
            forall|j: int|
                0 <= j < i ==> admissible(
                    manifest@.repos[j],
                    manifest@.default_branch,
                    (#[trigger] outcomes@[j])@,
                ),
            (forall|j: int| 0 <= j < i ==> (#[trigger] manifest@.repos[j]).pinned()) ==> *executor
                == *old(executor),
        decreases repos.len() - i,
    {
        let entry = &repos[i];
        assert(entry@ == manifest@.repos[i as int]);
        let info = EntryInfo { index: i, path: entry.local.clone() };
        sink.entry_start(&info);
        let working_dir = join_path(input_path, entry.local.as_str());
        let probe = workspace.probe(working_dir.as_str());
        let ghost found = probe@;
        let outcome = track_entry(working_dir, entry, default_branch, probe, executor);
        proof {
            let applied = outcome@ == outcome_spec(
                entry@,
                default_branch.deep_view(),
                found,
                true,
            );
            observations = observations.push(Observation { probe: found, applied });
        }
        announce(sink, &info, &outcome, style);
        outcomes.push(outcome);
        i += 1;
    }
    sink.batch_end();
    assert(run_spec(manifest@, observations) =~= outcome_views(outcomes@));
    outcomes
}

/// How the end of an entry is announced to the sink.
#[derive(Clone, Debug, PartialEq, Eq)]
pub enum Closing {
    /// As an entry that is done, with its report line.
    Done { message: String },
    /// As an entry that failed, with its report line.
    Error { message: String },
}

/// A [`Closing`] as plain text.
pub enum ClosingView {
    Done { message: Seq<char> },
    Error { message: Seq<char> },
}

impl View for Closing {
    type V = ClosingView;

    open spec fn view(&self) -> ClosingView {
        match self {
            Closing::Done { message } => ClosingView::Done { message: message@ },
            Closing::Error { message } => ClosingView::Error { message: message@ },
        }
    }
}

/// The announcement that ends an entry with `outcome`: a missing repository
/// and a failed command are errors, an applied upstream and a pinned entry
/// are done; either way the message is the report line in `style`.
pub open spec fn closing_spec(outcome: OutcomeView, style: Style) -> ClosingView {
    if outcome.is_failure() {
        ClosingView::Error { message: outcome.render(style) }
    } else {
        ClosingView::Done { message: outcome.render(style) }
    }
}

/// Decides how the end of an entry with `outcome` is announced.
pub fn closing(outcome: &Outcome, style: Style) -> (closing: Closing)
    ensures
        closing@ == closing_spec(outcome@, style),
{
    let message = outcome.render(style);
    if outcome.is_failure() {
        Closing::Error { message }
    } else {
        Closing::Done { message }
    }
}

} // verus!
