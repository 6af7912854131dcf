use mgit_track::manifest::{ConfigError, Manifest, RawEntry, RawManifest, RepoEntry};

fn raw(local: Option<&str>, remote: Option<&str>) -> RawEntry {
    RawEntry {
        local: local.map(|s| s.to_string()),
        remote: remote.map(|s| s.to_string()),
        branch: None,
        commit: None,
        tag: None,
    }
}

#[test]
fn complete_entries_are_kept_in_order() {
    let document = RawManifest {
        default_branch: Some("main".to_string()),
        repos: vec![
            RawEntry {
                local: Some("b".to_string()),
                remote: Some("url-b".to_string()),
                branch: Some("dev".to_string()),
                commit: None,
                tag: Some("v1".to_string()),
            },
            RawEntry {
                local: Some("a".to_string()),
                remote: Some("url-a".to_string()),
                branch: None,
                commit: Some("0123456789abcdef".to_string()),
                tag: None,
            },
        ],
    };
    let manifest = Manifest::from_raw(&document).unwrap();
    assert_eq!(manifest.default_branch(), &Some("main".to_string()));
    assert_eq!(manifest.len(), 2);
    assert_eq!(
        manifest.repos(),
        &vec![
            RepoEntry {
                local: "b".to_string(),
                remote: "url-b".to_string(),
                branch: Some("dev".to_string()),
                commit: None,
                tag: Some("v1".to_string()),
            },
            RepoEntry {
                local: "a".to_string(),
                remote: "url-a".to_string(),
                branch: None,
                commit: Some("0123456789abcdef".to_string()),
                tag: None,
            },
        ]
    );
}

#[test]
fn empty_document_is_an_empty_manifest() {
    let manifest = Manifest::from_raw(&RawManifest { default_branch: None, repos: Vec::new() });
    assert_eq!(manifest, Ok(Manifest::new(None, Vec::new())));
}

#[test]
fn missing_local_is_reported_with_its_place() {
    let document = RawManifest {
        default_branch: None,
        repos: vec![raw(Some("a"), Some("u")), raw(None, Some("u")), raw(None, None)],
    };
    assert_eq!(Manifest::from_raw(&document), Err(ConfigError::MissingLocal { index: 1 }));
}

#[test]
fn missing_remote_is_reported_with_its_place() {
    let document = RawManifest {
        default_branch: None,
        repos: vec![raw(Some("a"), None), raw(None, Some("u"))],
    };
    assert_eq!(Manifest::from_raw(&document), Err(ConfigError::MissingRemote { index: 0 }));
}

#[test]
fn entry_without_either_field_lacks_local_first() {
    let document = RawManifest { default_branch: None, repos: vec![raw(None, None)] };
    assert_eq!(Manifest::from_raw(&document), Err(ConfigError::MissingLocal { index: 0 }));
}

#[test]
fn duplicate_local_paths_are_not_rejected() {
    let document = RawManifest {
        default_branch: None,
        repos: vec![raw(Some("same"), Some("u1")), raw(Some("same"), Some("u2"))],
    };
    assert_eq!(Manifest::from_raw(&document).unwrap().len(), 2);
}

#[test]
fn new_keeps_what_it_is_given() {
    let entry = RepoEntry {
        local: "x".to_string(),
        remote: "u".to_string(),
        branch: None,
        commit: None,
        tag: None,
    };
    let manifest = Manifest::new(Some("trunk".to_string()), vec![entry.clone()]);
    assert_eq!(manifest.default_branch(), &Some("trunk".to_string()));
    assert_eq!(manifest.repos(), &vec![entry]);
    assert_eq!(manifest.len(), 1);
}
