use gitea_release::config::{resolve_config, PublishConfig, RawConfig, SourceFile};
use gitea_release::errors::{ConfigError, ConfigField};

fn raw_base() -> RawConfig {
    RawConfig {
        tag: Some("v1.2.0".to_string()),
        repo_owner: Some("acme".to_string()),
        repo_name: Some("widget".to_string()),
        api_key: Some("token123".to_string()),
        base_url: Some("https://git.example.com".to_string()),
        repo_link: None,
        name_source: None,
        body_source: None,
        draft: None,
        prerelease: None,
        asset_patterns: None,
    }
}

fn resolve_ok(raw: RawConfig) -> PublishConfig {
    match resolve_config(raw) {
        Ok(c) => c,
        Err(e) => panic!("expected a resolved configuration, got {:?}", e),
    }
}

#[test]
fn resolves_minimal_config() {
    let cfg = resolve_ok(raw_base());
    assert_eq!(cfg.tag_name, "v1.2.0");
    assert_eq!(cfg.repo_owner, "acme");
    assert_eq!(cfg.repo_name, "widget");
    assert_eq!(cfg.base_url, "https://git.example.com");
    assert!(cfg.release_name.is_none());
    assert!(cfg.release_body.is_none());
    assert!(cfg.is_draft.is_none());
    assert!(cfg.is_prerelease.is_none());
    assert!(cfg.asset_patterns.is_none());
}

#[test]
fn missing_tag_is_reported_first() {
    let mut raw = raw_base();
    raw.tag = None;
    raw.repo_owner = None;
    let err = resolve_config(raw).unwrap_err();
    assert!(matches!(
        err,
        ConfigError::MissingField { field: ConfigField::Tag }
    ));
}

#[test]
fn empty_tag_is_missing() {
    let mut raw = raw_base();
    raw.tag = Some(String::new());
    let err = resolve_config(raw).unwrap_err();
    assert!(matches!(
        err,
        ConfigError::MissingField { field: ConfigField::Tag }
    ));
}

#[test]
fn missing_owner_and_name_and_key() {
    let mut raw = raw_base();
    raw.repo_owner = None;
    let err = resolve_config(raw).unwrap_err();
    assert!(matches!(
        err,
        ConfigError::MissingField { field: ConfigField::RepoOwner }
    ));

    let mut raw = raw_base();
    raw.repo_name = Some(String::new());
    let err = resolve_config(raw).unwrap_err();
    assert!(matches!(
        err,
        ConfigError::MissingField { field: ConfigField::RepoName }
    ));

    let mut raw = raw_base();
    raw.api_key = None;
    let err = resolve_config(raw).unwrap_err();
    assert!(matches!(
        err,
        ConfigError::MissingField { field: ConfigField::ApiKey }
    ));
}

#[test]
fn base_url_trailing_slashes_are_trimmed() {
    let mut raw = raw_base();
    raw.base_url = Some("https://git.example.com///".to_string());
    let cfg = resolve_ok(raw);
    assert_eq!(cfg.base_url, "https://git.example.com");
}

#[test]
fn base_url_derived_from_repo_link() {
    let mut raw = raw_base();
    raw.base_url = None;
    raw.repo_link = Some("https://git.example.com/acme/widget".to_string());
    let cfg = resolve_ok(raw);
    assert_eq!(cfg.base_url, "https://git.example.com");
}

#[test]
fn repo_link_without_matching_suffix_fails() {
    let mut raw = raw_base();
    raw.base_url = None;
    raw.repo_link = Some("https://git.example.com/other/project".to_string());
    let err = resolve_config(raw).unwrap_err();
    assert!(matches!(err, ConfigError::MissingBaseUrl));
}

#[test]
fn no_base_url_sources_fails() {
    let mut raw = raw_base();
    raw.base_url = None;
    raw.repo_link = None;
    let err = resolve_config(raw).unwrap_err();
    assert!(matches!(err, ConfigError::MissingBaseUrl));
}

#[test]
fn non_http_base_url_is_invalid() {
    let mut raw = raw_base();
    raw.base_url = Some("ftp://git.example.com".to_string());
    let err = resolve_config(raw).unwrap_err();
    match err {
        ConfigError::InvalidBaseUrl { url } => assert_eq!(url, "ftp://git.example.com"),
        other => panic!("expected an invalid base URL, got {:?}", other),
    }
    let mut raw = raw_base();
    raw.base_url = Some("https://".to_string());
    assert!(matches!(
        resolve_config(raw).unwrap_err(),
        ConfigError::InvalidBaseUrl { .. }
    ));
}

#[test]
fn release_name_contents_are_trimmed() {
    let mut raw = raw_base();
    raw.name_source = Some(SourceFile {
        path: "name.txt".to_string(),
        contents: Some("  hello world  \n".to_string()),
    });
    let cfg = resolve_ok(raw);
    assert_eq!(cfg.release_name.as_deref(), Some("hello world"));
}

#[test]
fn release_body_contents_are_trimmed() {
    let mut raw = raw_base();
    raw.body_source = Some(SourceFile {
        path: "body.txt".to_string(),
        contents: Some("  hello world  \n".to_string()),
    });
    let cfg = resolve_ok(raw);
    assert_eq!(cfg.release_body.as_deref(), Some("hello world"));
}

#[test]
fn unreadable_file_names_its_path() {
    let mut raw = raw_base();
    raw.body_source = Some(SourceFile {
        path: "notes/body.txt".to_string(),
        contents: None,
    });
    let err = resolve_config(raw).unwrap_err();
    match err {
        ConfigError::UnreadableFile { path } => assert_eq!(path, "notes/body.txt"),
        other => panic!("expected an unreadable file, got {:?}", other),
    }
}

#[test]
fn boolean_literals_parse_exactly() {
    let mut raw = raw_base();
    raw.draft = Some("true".to_string());
    raw.prerelease = Some("false".to_string());
    let cfg = resolve_ok(raw);
    assert_eq!(cfg.is_draft, Some(true));
    assert_eq!(cfg.is_prerelease, Some(false));
}

#[test]
fn other_boolean_literals_are_rejected() {
    for bad in ["True", "FALSE", "1", "0", "yes", ""] {
        let mut raw = raw_base();
        raw.draft = Some(bad.to_string());
        let err = resolve_config(raw).unwrap_err();
        assert!(matches!(
            err,
            ConfigError::InvalidBool { field: ConfigField::Draft }
        ));
    }
    let mut raw = raw_base();
    raw.prerelease = Some("no".to_string());
    assert!(matches!(
        resolve_config(raw).unwrap_err(),
        ConfigError::InvalidBool { field: ConfigField::Prerelease }
    ));
}

#[test]
fn asset_patterns_split_on_commas() {
    let mut raw = raw_base();
    raw.asset_patterns = Some("dist/*.tar.gz,checksums.txt".to_string());
    let cfg = resolve_ok(raw);
    assert_eq!(
        cfg.asset_patterns,
        Some(vec!["dist/*.tar.gz".to_string(), "checksums.txt".to_string()])
    );

    let mut raw = raw_base();
    raw.asset_patterns = Some(String::new());
    let cfg = resolve_ok(raw);
    assert_eq!(cfg.asset_patterns, Some(vec![String::new()]));
}
