use mgit_track::manifest::RepoEntry;
use mgit_track::resolve::{origin_of, resolve, shorten, Resolution, LABEL_LEN};

fn text(value: &str) -> Option<String> {
    Some(value.to_string())
}

fn entry(branch: Option<&str>, commit: Option<&str>, tag: Option<&str>) -> RepoEntry {
    RepoEntry {
        local: "libs/core".to_string(),
        remote: "https://example.org/core.git".to_string(),
        branch: branch.map(|b| b.to_string()),
        commit: commit.map(|c| c.to_string()),
        tag: tag.map(|t| t.to_string()),
    }
}

fn pinned(label: &str) -> Resolution {
    Resolution::Pinned { label: label.to_string() }
}

fn trackable(remote_ref: &str) -> Resolution {
    Resolution::Trackable { remote_ref: remote_ref.to_string() }
}

const COMMIT: &str = "abcdef1234567890";

#[test]
fn label_length_is_seven() {
    assert_eq!(LABEL_LEN, 7);
}

#[test]
fn commit_label_is_first_seven_characters() {
    let resolution = resolve(&entry(None, Some(COMMIT), None), &None);
    assert_eq!(resolution, pinned("abcdef1"));
}

#[test]
fn commit_label_is_independent_of_tag_and_branch() {
    let expected = pinned("abcdef1");
    assert_eq!(resolve(&entry(None, Some(COMMIT), Some("v2.0")), &None), expected);
    assert_eq!(resolve(&entry(Some("dev"), Some(COMMIT), None), &None), expected);
    assert_eq!(resolve(&entry(Some("dev"), Some(COMMIT), Some("v2.0")), &text("main")), expected);
    assert_eq!(resolve(&entry(Some("other"), Some(COMMIT), Some("v9")), &text("trunk")), expected);
}

#[test]
fn no_pins_with_default_branch_tracks_origin_default() {
    let resolution = resolve(&entry(None, None, None), &text("main"));
    assert_eq!(resolution, trackable("origin/main"));
}

#[test]
fn no_pins_and_no_default_gives_empty_reference() {
    let resolution = resolve(&entry(None, None, None), &None);
    assert_eq!(resolution, trackable(""));
}

#[test]
fn every_combination_follows_the_priority() {
    let presences = [false, true];
    let mut seen = 0;
    for has_commit in presences {
        for has_tag in presences {
            for has_branch in presences {
                for has_default in presences {
                    let e = entry(
                        if has_branch { Some("dev") } else { None },
                        if has_commit { Some(COMMIT) } else { None },
                        if has_tag { Some("v1.0") } else { None },
                    );
                    let default_branch = if has_default { text("main") } else { None };
                    let expected = if has_commit {
                        pinned("abcdef1")
                    } else if has_tag {
                        pinned("v1.0")
                    } else if has_branch {
                        trackable("origin/dev")
                    } else if has_default {
                        trackable("origin/main")
                    } else {
                        trackable("")
                    };
                    let resolution = resolve(&e, &default_branch);
                    assert_eq!(resolution, expected);
                    assert_eq!(
                        matches!(resolution, Resolution::Pinned { .. }),
                        has_commit || has_tag
                    );
                    seen += 1;
                }
            }
        }
    }
    assert_eq!(seen, 16);
}

#[test]
fn commit_wins_over_tag() {
    assert_eq!(resolve(&entry(None, Some(COMMIT), Some("v1.0")), &None), pinned("abcdef1"));
}

#[test]
fn tag_wins_over_branch_and_is_not_truncated() {
    let resolution = resolve(&entry(Some("dev"), None, Some("release-2024.10.01")), &text("main"));
    assert_eq!(resolution, pinned("release-2024.10.01"));
}

#[test]
fn branch_wins_over_default_branch() {
    let resolution = resolve(&entry(Some("dev"), None, None), &text("main"));
    assert_eq!(resolution, trackable("origin/dev"));
}

#[test]
fn shorten_keeps_a_short_commit_whole() {
    assert_eq!(shorten("abc"), "abc");
    assert_eq!(shorten(""), "");
    assert_eq!(shorten("1234567"), "1234567");
    assert_eq!(shorten("12345678"), "1234567");
}

#[test]
fn shorten_counts_characters_not_bytes() {
    assert_eq!(shorten("äöüäöüäöü"), "äöüäöüä");
}

#[test]
fn origin_of_prefixes_the_branch() {
    assert_eq!(origin_of("main"), "origin/main");
    assert_eq!(origin_of("feature/x"), "origin/feature/x");
    assert_eq!(origin_of(""), "origin/");
}
