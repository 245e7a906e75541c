use gitea_release::config::{resolve_config, RawConfig, SourceFile};
use gitea_release::payload::build_payload;

fn raw(name: Option<&str>, body: Option<&str>, draft: Option<&str>, pre: Option<&str>) -> RawConfig {
    RawConfig {
        tag: Some("v1.2.0".to_string()),
        repo_owner: Some("acme".to_string()),
        repo_name: Some("widget".to_string()),
        api_key: Some("token123".to_string()),
        base_url: Some("https://git.example.com".to_string()),
        repo_link: None,
        name_source: name.map(|c| SourceFile {
            path: "name.txt".to_string(),
            contents: Some(c.to_string()),
        }),
        body_source: body.map(|c| SourceFile {
            path: "body.txt".to_string(),
            contents: Some(c.to_string()),
        }),
        draft: draft.map(|s| s.to_string()),
        prerelease: pre.map(|s| s.to_string()),
        asset_patterns: None,
    }
}

#[test]
fn payload_with_absent_optionals_uses_null() {
    let cfg = resolve_config(raw(None, None, None, None)).unwrap();
    let payload = build_payload(&cfg);
    assert_eq!(
        payload,
        "{\"tag_name\":\"v1.2.0\",\"name\":null,\"body\":null,\"prerelease\":null,\"draft\":null}"
    );
}

#[test]
fn payload_carries_trimmed_file_contents() {
    let cfg = resolve_config(raw(
        Some("  hello world  \n"),
        Some("\tnotes here\n\n"),
        Some("true"),
        Some("false"),
    ))
    .unwrap();
    let payload = build_payload(&cfg);
    assert_eq!(
        payload,
        "{\"tag_name\":\"v1.2.0\",\"name\":\"hello world\",\"body\":\"notes here\",\"prerelease\":false,\"draft\":true}"
    );
}

#[test]
fn payload_escapes_json_characters() {
    let cfg = resolve_config(raw(
        Some("a \"quoted\" name"),
        Some("line one\nline \\two\ttab"),
        None,
        None,
    ))
    .unwrap();
    let payload = build_payload(&cfg);
    assert_eq!(
        payload,
        "{\"tag_name\":\"v1.2.0\",\"name\":\"a \\\"quoted\\\" name\",\"body\":\"line one\\nline \\\\two\\ttab\",\"prerelease\":null,\"draft\":null}"
    );
}

#[test]
fn payload_escapes_control_characters() {
    let mut raw_cfg = raw(None, None, None, None);
    raw_cfg.tag = Some("v1\u{1}\u{1f}".to_string());
    let cfg = resolve_config(raw_cfg).unwrap();
    let payload = build_payload(&cfg);
    assert_eq!(
        payload,
        "{\"tag_name\":\"v1\\u0001\\u001f\",\"name\":null,\"body\":null,\"prerelease\":null,\"draft\":null}"
    );
}

#[test]
fn payload_parses_back_as_json() {
    let cfg = resolve_config(raw(
        Some("a \"quoted\" name"),
        Some("line one\nline two"),
        Some("false"),
        Some("true"),
    ))
    .unwrap();
    let payload = build_payload(&cfg);
    let v: serde_json::Value = serde_json::from_str(&payload).unwrap();
    assert_eq!(v.get("tag_name").and_then(|f| f.as_str()), Some("v1.2.0"));
    assert_eq!(
        v.get("name").and_then(|f| f.as_str()),
        Some("a \"quoted\" name")
    );
    assert_eq!(
        v.get("body").and_then(|f| f.as_str()),
        Some("line one\nline two")
    );
    assert_eq!(v.get("prerelease").and_then(|f| f.as_bool()), Some(true));
    assert_eq!(v.get("draft").and_then(|f| f.as_bool()), Some(false));
}
