//! What holds of resolution and of the report, for every manifest and
//! whatever the disk and the version-control tool answer.

use vstd::prelude::*;
use crate::manifest::{ManifestView, RepoEntryView};
use crate::outcome::OutcomeView;
use crate::repository::HeadProbeView;
use crate::resolve::{origin_ref, resolve_spec, short_label, ResolutionView, LABEL_LEN};
use crate::style::{blue_text, in_colour, magenta_text, red_text};
use crate::track::{
    admissible, conclude_spec, outcome_spec, plan_spec, run_spec, Observation, StepView,
};

verus! {

/// The `len` characters of `text` from `start` on.
pub open spec fn window(text: Seq<char>, start: int, len: nat) -> Seq<char> {
    text.subrange(start, start + len)
}

/// Whether `needle` stands somewhere in `text`.
pub open spec fn occurs_in(needle: Seq<char>, text: Seq<char>) -> bool {
    exists|start: int|
        0 <= start && start + needle.len() <= text.len() && #[trigger] window(
            text,
            start,
            needle.len(),
        ) == needle
}

/// A text occurs in whatever is written around it.
pub proof fn occurs_between(before: Seq<char>, needle: Seq<char>, after: Seq<char>)
    ensures
        occurs_in(needle, before + needle + after),
{
    let text = before + needle + after;
    assert(window(text, before.len() as int, needle.len()) =~= needle);
}

/// A text that occurs in a part occurs in the whole.
pub proof fn occurs_within(needle: Seq<char>, before: Seq<char>, part: Seq<char>, after: Seq<char>)
    requires
        occurs_in(needle, part),
    ensures
        occurs_in(needle, before + part + after),
{
    let start = choose|start: int|
        0 <= start && start + needle.len() <= part.len() && #[trigger] window(
            part,
            start,
            needle.len(),
        ) == needle;
    let text = before + part + after;
    assert(window(text, before.len() + start, needle.len()) =~= window(
        part,
        start,
        needle.len(),
    ));
}

/// A coloured text still holds the text.
pub proof fn colour_keeps_text(code: Seq<char>, needle: Seq<char>, text: Seq<char>)
    requires
        occurs_in(needle, text),
    ensures
        occurs_in(needle, in_colour(code, text)),
{
    occurs_within(needle, "\x1b["@ + code + "m"@, text, "\x1b[39m"@);
}

/// Resolution goes by the fixed order commit, tag, branch, default branch:
/// the first of them that is present decides alone, a commit by its first
/// characters, a tag as it stands, a branch under the origin's name; with
/// none of them the reference is empty. The entry is pinned exactly when it
/// names a commit or a tag.
pub proof fn resolution_follows_priority(entry: RepoEntryView, default_branch: Option<Seq<char>>)
    ensures
        entry.commit matches Some(commit) ==> resolve_spec(entry, default_branch) == (
        ResolutionView::Pinned { label: short_label(commit) }),
        entry.commit is None ==> (entry.tag matches Some(tag) ==> resolve_spec(
            entry,
            default_branch,
        ) == (ResolutionView::Pinned { label: tag })),
        entry.commit is None && entry.tag is None ==> (entry.branch matches Some(branch)
            ==> resolve_spec(entry, default_branch) == (ResolutionView::Trackable {
            remote_ref: origin_ref(branch),
        })),
        entry.commit is None && entry.tag is None && entry.branch is None ==> (
        default_branch matches Some(branch) ==> resolve_spec(entry, default_branch) == (
        ResolutionView::Trackable { remote_ref: origin_ref(branch) })),
        entry.commit is None && entry.tag is None && entry.branch is None && default_branch
            is None ==> resolve_spec(entry, default_branch) == (ResolutionView::Trackable {
            remote_ref: Seq::empty(),
        }),
        resolve_spec(entry, default_branch) is Pinned <==> (entry.commit is Some || entry.tag
            is Some),
{
}

/// Two entries with the same commit resolve alike, whatever else they and
/// their manifests hold.
pub proof fn commit_decides_alone(
    first: RepoEntryView,
    first_default: Option<Seq<char>>,
    second: RepoEntryView,
    second_default: Option<Seq<char>>,
)
    requires
        first.commit is Some,
        first.commit == second.commit,
    ensures
        resolve_spec(first, first_default) == resolve_spec(second, second_default),
{
}

/// The label of a commit is the start of the commit, cut after
/// [`LABEL_LEN`] characters.
pub proof fn label_is_a_prefix(commit: Seq<char>)
    ensures
        short_label(commit).len() == if commit.len() < LABEL_LEN {
            commit.len()
        } else {
            LABEL_LEN as nat
        },
        short_label(commit).is_prefix_of(commit),
{
}

/// An outcome is admissible for an entry exactly when some observation of
/// the disk and of the command leads to it.
pub proof fn admissible_outcomes_are_observed(
    entry: RepoEntryView,
    default_branch: Option<Seq<char>>,
    outcome: OutcomeView,
)
    ensures
        admissible(entry, default_branch, outcome) <==> exists|
            probe: HeadProbeView,
            applied: bool,
        | #[trigger]
            outcome_spec(entry, default_branch, probe, applied) == outcome,
{
    if admissible(entry, default_branch, outcome) {
        match outcome {
            OutcomeView::NotFound { .. } => {
                assert(outcome_spec(entry, default_branch, HeadProbeView::Missing, true)
                    == outcome);
            },
            OutcomeView::Untracked { .. } => {
                assert(outcome_spec(
                    entry,
                    default_branch,
                    HeadProbeView::Opened { branch: Seq::empty() },
                    true,
                ) == outcome);
            },
            OutcomeView::Applied { local_branch, .. } => {
                assert(outcome_spec(
                    entry,
                    default_branch,
                    HeadProbeView::Opened { branch: local_branch },
                    true,
                ) == outcome);
            },
            OutcomeView::Failed { .. } => {
                assert(outcome_spec(
                    entry,
                    default_branch,
                    HeadProbeView::Opened { branch: Seq::empty() },
                    false,
                ) == outcome);
            },
        }
    }
}

/// The plan and the conclusion together give the outcome: a settled entry
/// has the outcome of its plan, and one with a command has the conclusion of
/// the command's result.
pub proof fn outcome_follows_plan(
    working_dir: Seq<char>,
    entry: RepoEntryView,
    default_branch: Option<Seq<char>>,
    probe: HeadProbeView,
    applied: bool,
)
    ensures
        outcome_spec(entry, default_branch, probe, applied) == match plan_spec(
            working_dir,
            entry,
            default_branch,
            probe,
        ) {
            StepView::Report(outcome) => outcome,
            StepView::Apply { local_branch, remote_ref, .. } => conclude_spec(
                entry.local,
                local_branch,
                remote_ref,
                applied,
            ),
        },
{
}

/// Two runs over the same entry that find the repository in the same state,
/// and whose command, where one is due, ends the same way, report the same
/// line. Where no command is due, how a command would have ended
/// does not matter.
pub proof fn same_observations_same_line(
    working_dir: Seq<char>,
    entry: RepoEntryView,
    default_branch: Option<Seq<char>>,
    first_probe: HeadProbeView,
    first_applied: bool,
    second_probe: HeadProbeView,
    second_applied: bool,
)
    requires
        first_probe == second_probe,
        plan_spec(working_dir, entry, default_branch, first_probe) is Apply ==> first_applied
            == second_applied,
    ensures
        outcome_spec(entry, default_branch, first_probe, first_applied) == outcome_spec(
            entry,
            default_branch,
            second_probe,
            second_applied,
        ),
        outcome_spec(entry, default_branch, first_probe, first_applied).line() == outcome_spec(
            entry,
            default_branch,
            second_probe,
            second_applied,
        ).line(),
        outcome_spec(entry, default_branch, first_probe, first_applied).styled_line()
            == outcome_spec(entry, default_branch, second_probe, second_applied).styled_line(),
{
}

/// How the complaint about a missing repository is made up.
proof fn complaint_of_missing_repository()
    ensures
        ": repository doesn't exist"@ == ": repository "@ + "doesn't exist"@,
        "repository doesn't exist"@ == "repository "@ + "doesn't exist"@ + Seq::empty(),
{
    reveal_strlit(": repository doesn't exist");
    reveal_strlit("repository doesn't exist");
    reveal_strlit(": repository ");
    reveal_strlit("repository ");
    reveal_strlit("doesn't exist");
    assert(": repository doesn't exist"@ =~= ": repository "@ + "doesn't exist"@);
    assert("repository doesn't exist"@ =~= "repository "@ + "doesn't exist"@ + Seq::empty());
}

/// An entry whose repository does not exist is reported as not found, with
/// a line that says so, whatever the entry asks for.
pub proof fn missing_repository_is_reported(
    entry: RepoEntryView,
    default_branch: Option<Seq<char>>,
    applied: bool,
)
    ensures
        outcome_spec(entry, default_branch, HeadProbeView::Missing, applied) == (
        OutcomeView::NotFound { path: entry.local }),
        occurs_in(
            "doesn't exist"@,
            outcome_spec(entry, default_branch, HeadProbeView::Missing, applied).line(),
        ),
        occurs_in(
            "doesn't exist"@,
            outcome_spec(entry, default_branch, HeadProbeView::Missing, applied).styled_line(),
        ),
{
    let needle = "doesn't exist"@;
    let outcome = outcome_spec(entry, default_branch, HeadProbeView::Missing, applied);
    let lead = magenta_text(entry.local) + ": "@;
    complaint_of_missing_repository();
    assert(outcome.line() =~= entry.local + ": repository "@ + needle + Seq::empty());
    occurs_between(entry.local + ": repository "@, needle, Seq::empty());
    occurs_between("repository "@, needle, Seq::empty());
    colour_keeps_text("31"@, needle, "repository doesn't exist"@);
    occurs_within(needle, lead, red_text("repository doesn't exist"@), Seq::empty());
    assert(outcome.styled_line() =~= lead + red_text("repository doesn't exist"@) + Seq::empty());
}

/// For an entry that names a commit or a tag and whose repository exists, no
/// command is planned: the entry is settled as untracked, under the label
/// that it resolves to, and its line holds the label and the word
/// "untracked". With a tag and no commit the label is the tag.
pub proof fn pinned_entry_runs_no_command(
    working_dir: Seq<char>,
    entry: RepoEntryView,
    default_branch: Option<Seq<char>>,
    branch: Seq<char>,
)
    requires
        entry.commit is Some || entry.tag is Some,
    ensures
        plan_spec(working_dir, entry, default_branch, HeadProbeView::Opened { branch })
            matches StepView::Report(outcome) && {
            &&& outcome matches OutcomeView::Untracked { path, label }
            &&& path == entry.local
            &&& resolve_spec(entry, default_branch) == (ResolutionView::Pinned { label })
            &&& entry.commit is None ==> Some(label) == entry.tag
            &&& occurs_in(label, outcome.line())
            &&& occurs_in("untracked"@, outcome.line())
            &&& occurs_in(label, outcome.styled_line())
            &&& occurs_in("untracked"@, outcome.styled_line())
        },
{
    reveal_strlit(" untracked");
    reveal_strlit(" ");
    reveal_strlit("untracked");
    let word = "untracked"@;
    let outcome = outcome_spec(entry, default_branch, HeadProbeView::Opened { branch }, true);
    let label = resolve_spec(entry, default_branch)->Pinned_label;
    assert(" untracked"@ =~= " "@ + word);
    occurs_between(entry.local + ": "@, label, " untracked"@);
    occurs_between(entry.local + ": "@ + label + " "@, word, Seq::empty());
    assert(outcome.line() =~= entry.local + ": "@ + label + " "@ + word + Seq::empty());
    occurs_between(Seq::empty(), label, Seq::empty());
    assert(Seq::<char>::empty() + label + Seq::empty() =~= label);
    colour_keeps_text("34"@, label, label);
    occurs_within(label, magenta_text(entry.local) + ": "@, blue_text(label), " untracked"@);
    occurs_between(magenta_text(entry.local) + ": "@ + blue_text(label) + " "@, word, Seq::empty());
    assert(outcome.styled_line() =~= magenta_text(entry.local) + ": "@ + blue_text(label) + " "@
        + word + Seq::empty());
}

/// For an entry without a pin whose command fails, the outcome is a failure
/// that carries the reference the entry resolves to, and its line holds the
/// words "track failed" and that reference.
pub proof fn failed_command_is_reported(
    entry: RepoEntryView,
    default_branch: Option<Seq<char>>,
    branch: Seq<char>,
)
    requires
        entry.commit is None,
        entry.tag is None,
    ensures
        outcome_spec(entry, default_branch, HeadProbeView::Opened { branch }, false)
            matches OutcomeView::Failed { path, remote_ref } && {
            &&& path == entry.local
            &&& resolve_spec(entry, default_branch) == (ResolutionView::Trackable { remote_ref })
            &&& occurs_in(
                "track failed"@,
                outcome_spec(entry, default_branch, HeadProbeView::Opened { branch }, false).line(),
            )
            &&& occurs_in(
                remote_ref,
                outcome_spec(entry, default_branch, HeadProbeView::Opened { branch }, false).line(),
            )
            &&& occurs_in(
                "track failed"@,
                outcome_spec(
                    entry,
                    default_branch,
                    HeadProbeView::Opened { branch },
                    false,
                ).styled_line(),
            )
            &&& occurs_in(
                remote_ref,
                outcome_spec(
                    entry,
                    default_branch,
                    HeadProbeView::Opened { branch },
                    false,
                ).styled_line(),
            )
        },
{
    reveal_strlit(": track failed, ");
    reveal_strlit(": ");
    reveal_strlit(", ");
    reveal_strlit(",");
    reveal_strlit("track failed");
    reveal_strlit("track failed,");
    let words = "track failed"@;
    let outcome = outcome_spec(entry, default_branch, HeadProbeView::Opened { branch }, false);
    let remote_ref = resolve_spec(entry, default_branch)->Trackable_remote_ref;
    let path = entry.local;
    assert(": track failed, "@ =~= ": "@ + words + ", "@);
    occurs_between(path + ": "@, words, ", "@ + remote_ref + " not found!"@);
    assert(outcome.line() =~= path + ": "@ + words + (", "@ + remote_ref + " not found!"@));
    occurs_between(path + ": track failed, "@, remote_ref, " not found!"@);
    assert("track failed,"@ =~= Seq::empty() + words + ","@);
    occurs_between(Seq::empty(), words, ","@);
    colour_keeps_text("31"@, words, "track failed,"@);
    let tail = " "@ + blue_text(remote_ref) + " "@ + red_text("not found!"@);
    occurs_within(words, magenta_text(path) + ": "@, red_text("track failed,"@), tail);
    assert(outcome.styled_line() =~= magenta_text(path) + ": "@ + red_text("track failed,"@)
        + tail);
    occurs_between(Seq::empty(), remote_ref, Seq::empty());
    assert(Seq::<char>::empty() + remote_ref + Seq::empty() =~= remote_ref);
    colour_keeps_text("34"@, remote_ref, remote_ref);
    occurs_within(
        remote_ref,
        magenta_text(path) + ": "@ + red_text("track failed,"@) + " "@,
        blue_text(remote_ref),
        " "@ + red_text("not found!"@),
    );
    assert(outcome.styled_line() =~= magenta_text(path) + ": "@ + red_text("track failed,"@) + " "@
        + blue_text(remote_ref) + (" "@ + red_text("not found!"@)));
}

/// A run reports every entry, in the order of the manifest, whatever is
/// observed. An entry whose repository is missing is reported as such, and
/// what is observed of one entry changes nothing about the outcome of
/// any other.
pub proof fn missing_repository_stops_nothing(
    manifest: ManifestView,
    observations: Seq<Observation>,
    missing: int,
)
    requires
        observations.len() == manifest.repos.len(),
        0 <= missing < manifest.repos.len(),
        observations[missing].probe is Missing,
    ensures
        run_spec(manifest, observations).len() == manifest.repos.len(),
        forall|i: int|
            0 <= i < manifest.repos.len() ==> (#[trigger] run_spec(manifest, observations)[i]).path()
                == manifest.repos[i].local,
        run_spec(manifest, observations)[missing] == (OutcomeView::NotFound {
            path: manifest.repos[missing].local,
        }),
        occurs_in("doesn't exist"@, run_spec(manifest, observations)[missing].line()),
        occurs_in("doesn't exist"@, run_spec(manifest, observations)[missing].styled_line()),
        forall|other: Seq<Observation>, i: int|
            other.len() == observations.len() && 0 <= i < manifest.repos.len() && other[i]
                == observations[i] ==> (#[trigger] run_spec(manifest, other)[i]) == run_spec(
                manifest,
                observations,
            )[i],
{
    missing_repository_is_reported(
        manifest.repos[missing],
        manifest.default_branch,
        observations[missing].applied,
    );
}

} // verus!
