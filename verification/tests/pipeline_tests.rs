use gitea_release::config::{resolve_config, RawConfig};
use gitea_release::errors::PublishError;
use gitea_release::pipeline::{
    assets_url, init, next_action, releases_url, step_read_failed, step_response, State, Work,
};
use gitea_release::response::handle_create_response;

fn raw_with_assets(assets: Option<&str>) -> RawConfig {
    RawConfig {
        tag: Some("v1.2.0".to_string()),
        repo_owner: Some("acme".to_string()),
        repo_name: Some("widget".to_string()),
        api_key: Some("token123".to_string()),
        base_url: Some("https://git.example.com".to_string()),
        repo_link: None,
        name_source: None,
        body_source: None,
        draft: None,
        prerelease: None,
        asset_patterns: assets.map(|s| s.to_string()),
    }
}

const CREATED_BODY: &str = "{\"id\":42,\"url\":\"https://git.example.com/acme/widget/releases/42\"}";

#[test]
fn builds_release_and_asset_urls() {
    let cfg = resolve_config(raw_with_assets(None)).unwrap();
    assert_eq!(
        releases_url(&cfg),
        "https://git.example.com/api/v1/repos/acme/widget/releases"
    );
    assert_eq!(
        assets_url(&cfg, 42),
        "https://git.example.com/api/v1/repos/acme/widget/releases/42/assets"
    );
    assert_eq!(
        assets_url(&cfg, 0),
        "https://git.example.com/api/v1/repos/acme/widget/releases/0/assets"
    );
    assert_eq!(
        assets_url(&cfg, u64::MAX),
        "https://git.example.com/api/v1/repos/acme/widget/releases/18446744073709551615/assets"
    );
}

#[test]
fn create_response_outside_2xx_fails_with_status_and_body() {
    match handle_create_response(404, "not found".to_string()) {
        Err(PublishError::ReleaseCreation { status, body }) => {
            assert_eq!(status, 404);
            assert_eq!(body, "not found");
        }
        other => panic!("expected a creation failure, got {:?}", other),
    }
}

#[test]
fn create_response_without_fields_fails_as_unparseable() {
    for body in ["", "not json", "{\"id\":42}", "{\"url\":\"u\"}", "{\"id\":\"x\",\"url\":\"u\"}"] {
        match handle_create_response(201, body.to_string()) {
            Err(PublishError::ResponseParse { body: b }) => assert_eq!(b, body),
            other => panic!("expected an unparseable response, got {:?}", other),
        }
    }
}

#[test]
fn create_response_with_fields_yields_release() {
    let release = handle_create_response(200, CREATED_BODY.to_string()).unwrap();
    assert_eq!(release.id, 42);
    assert_eq!(release.url, "https://git.example.com/acme/widget/releases/42");
}

#[test]
fn run_without_assets_makes_one_call_and_succeeds() {
    let cfg = resolve_config(raw_with_assets(None)).unwrap();
    let state = init(cfg);
    let (url, payload) = match next_action(&state) {
        Some(Work::SendCreate { url, payload }) => (url, payload),
        other => panic!("expected the create request, got {:?}", other),
    };
    assert_eq!(url, "https://git.example.com/api/v1/repos/acme/widget/releases");
    assert_eq!(
        payload,
        "{\"tag_name\":\"v1.2.0\",\"name\":null,\"body\":null,\"prerelease\":null,\"draft\":null}"
    );
    let state = step_response(state, 200, CREATED_BODY.to_string());
    match &state {
        State::Done { release_url } => {
            assert_eq!(release_url, "https://git.example.com/acme/widget/releases/42")
        }
        other => panic!("expected the run to be done, got {:?}", other),
    }
    assert!(next_action(&state).is_none());
}

#[test]
fn run_with_assets_expands_after_creation() {
    let cfg = resolve_config(raw_with_assets(Some("dist/*.tar.gz"))).unwrap();
    let state = init(cfg);
    assert!(matches!(
        next_action(&state),
        Some(Work::SendCreate { .. })
    ));
    let state = step_response(state, 201, CREATED_BODY.to_string());
    match &state {
        State::ExpandingAssets { release_url, assets_url, patterns } => {
            assert_eq!(release_url, "https://git.example.com/acme/widget/releases/42");
            assert_eq!(
                assets_url,
                "https://git.example.com/api/v1/repos/acme/widget/releases/42/assets"
            );
            assert_eq!(patterns, &vec!["dist/*.tar.gz".to_string()]);
        }
        other => panic!("expected asset expansion to be owed, got {:?}", other),
    }
    assert!(matches!(next_action(&state), Some(Work::ExpandAssets)));
}

fn uploading(files: Vec<&str>) -> State {
    State::UploadingAssets {
        release_url: "https://git.example.com/acme/widget/releases/42".to_string(),
        assets_url: "https://git.example.com/api/v1/repos/acme/widget/releases/42/assets"
            .to_string(),
        files: files.into_iter().map(|f| f.to_string()).collect(),
        next: 0,
    }
}

#[test]
fn uploads_run_in_order_and_end_done() {
    let mut state = uploading(vec!["dist/a.tar.gz", "dist/b.tar.gz"]);
    for expected in ["dist/a.tar.gz", "dist/b.tar.gz"] {
        match next_action(&state) {
            Some(Work::SendUpload { url, name, path }) => {
                assert_eq!(
                    url,
                    "https://git.example.com/api/v1/repos/acme/widget/releases/42/assets"
                );
                assert_eq!(name, expected);
                assert_eq!(path, expected);
            }
            other => panic!("expected an upload request, got {:?}", other),
        }
        state = step_response(state, 201, String::new());
    }
    assert!(matches!(state, State::Done { .. }));
    assert!(next_action(&state).is_none());
}

#[test]
fn failing_second_upload_stops_the_run() {
    let mut state = uploading(vec!["a.bin", "b.bin", "c.bin"]);
    state = step_response(state, 200, String::new());
    assert!(matches!(
        next_action(&state),
        Some(Work::SendUpload { .. })
    ));
    state = step_response(state, 500, "storage error".to_string());
    match &state {
        State::Failed { error: PublishError::AssetUpload { path, status, body } } => {
            assert_eq!(path, "b.bin");
            assert_eq!(*status, 500);
            assert_eq!(body, "storage error");
        }
        other => panic!("expected the run to fail on the second file, got {:?}", other),
    }
    // The third file is never asked for.
    assert!(next_action(&state).is_none());
}

#[test]
fn unreadable_asset_stops_the_run() {
    let state = uploading(vec!["a.bin", "b.bin"]);
    let state = step_read_failed(state);
    match &state {
        State::Failed { error: PublishError::AssetRead { path } } => assert_eq!(path, "a.bin"),
        other => panic!("expected the run to fail reading the file, got {:?}", other),
    }
    assert!(next_action(&state).is_none());
}
