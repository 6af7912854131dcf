use mgit_track::launch::{
    directory_not_found, header, indented, manifest_location, manifest_not_found, preflight,
    target_directory, Preflight,
};
use mgit_track::outcome::Style;

#[test]
fn given_path_wins_over_current_directory() {
    assert_eq!(target_directory(Some("/given".to_string()), "/cwd".to_string()), "/given");
    assert_eq!(target_directory(None, "/cwd".to_string()), "/cwd");
}

#[test]
fn given_manifest_wins_over_conventional_one() {
    assert_eq!(manifest_location("/work", Some("/etc/repos.toml".to_string())), "/etc/repos.toml");
}

#[test]
fn conventional_manifest_lies_in_the_directory() {
    let expected = std::path::Path::new("/work").join(".gitrepos");
    assert_eq!(manifest_location("/work", None), expected.to_string_lossy());
    assert_ne!(manifest_location("/work", None), "/work");
    assert_ne!(manifest_location("/work", None), ".gitrepos");
}

#[test]
fn directory_not_found_names_the_directory() {
    assert_eq!(directory_not_found("/nowhere", Style::Plain), "Directory /nowhere not found!");
    assert_eq!(
        directory_not_found("/nowhere", Style::Ansi),
        "Directory \x1b[35m\x1b[1m/nowhere\x1b[0m\x1b[39m not found!"
    );
}

#[test]
fn manifest_not_found_hints_at_init() {
    assert_eq!(manifest_not_found(Style::Plain), ".gitrepos not found, try init instead!");
    assert_eq!(
        manifest_not_found(Style::Ansi),
        "\x1b[35m\x1b[1m.gitrepos\x1b[0m\x1b[39m not found, try \x1b[35m\x1b[1minit\x1b[0m\x1b[39m instead!"
    );
}

#[test]
fn header_and_indentation() {
    assert_eq!(header(), "Track status:");
    assert_eq!(indented("a: b -> origin/b"), "  a: b -> origin/b");
    assert_eq!(indented(""), "  ");
}

#[test]
fn preflight_stops_at_a_missing_directory() {
    for manifest_exists in [false, true] {
        assert_eq!(
            preflight("/nowhere", false, manifest_exists, Style::Plain),
            Preflight { lines: vec!["Directory /nowhere not found!".to_string()], proceed: false }
        );
    }
}

#[test]
fn preflight_stops_at_a_missing_manifest_below_the_header() {
    assert_eq!(
        preflight("/work", true, false, Style::Plain),
        Preflight {
            lines: vec![
                "Track status:".to_string(),
                ".gitrepos not found, try init instead!".to_string()
            ],
            proceed: false
        }
    );
    assert_eq!(
        preflight("/work", true, false, Style::Ansi).lines[1],
        manifest_not_found(Style::Ansi)
    );
}

#[test]
fn preflight_lets_the_run_begin() {
    assert_eq!(
        preflight("/work", true, true, Style::Ansi),
        Preflight { lines: vec!["Track status:".to_string()], proceed: true }
    );
}
