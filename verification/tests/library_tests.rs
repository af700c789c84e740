use codex::advisory::{update_advisory_from_capabilities, CodexLatestReleases, CodexUpdateStatus};
use codex::cache::{
    capability_cache_entries, capability_cache_entry, capability_snapshot_matches_binary,
    clear_capability_cache, clear_capability_cache_entry, CapabilityCache,
};
use codex::capabilities::{
    BinaryFingerprint, CapabilityCacheKey, CapabilityFeatureOverrides, CapabilityProbePlan,
    CapabilityProbeStep, CapabilitySnapshotFormat, CodexCapabilities, CodexFeatureFlags,
};
use codex::cli::cloud::{cloud_list_args, cloud_list_json, cloud_status_args, CloudListRequest, CloudStatusRequest};
use codex::cli::mcp::{McpAddRequest, McpAddTransport, McpOauthLoginRequest};
use codex::cli::responses_api_proxy::{
    responses_api_proxy_launch, server_info_step, ResponsesApiProxyRequest, ServerInfoAttempt,
    ServerInfoStep,
};
use codex::cli::features::{CodexFeature, CodexFeatureStage};
use codex::cli::RequestError;
use codex::events::{FileChangeKind, ItemStatus, ToolCallStatus, WebSearchStatus};
use codex::features::{parse_features_from_json, parse_features_from_text};
use codex::json::{parse_json, JsonValue};
use codex::path::same_path;
use codex::probe::{command_output_text, CapabilityProber, ProbeOutcome, ProbeStage};
use codex::time::Timestamp;
use codex::version::{parse_version_output, CodexReleaseChannel, SemanticVersion};

fn caps(version: Option<&str>, fingerprint: Option<BinaryFingerprint>, path: &str) -> CodexCapabilities {
    CodexCapabilities {
        cache_key: CapabilityCacheKey { binary_path: path.to_string() },
        fingerprint,
        version: version.map(parse_version_output),
        features: CodexFeatureFlags::default(),
        probe_plan: CapabilityProbePlan::default(),
        collected_at: Timestamp::from_unix_secs(5),
    }
}

fn fp(len: u64) -> Option<BinaryFingerprint> {
    Some(BinaryFingerprint {
        canonical_path: Some("/bin/codex".to_string()),
        modified: Some(Timestamp::from_unix_secs(1)),
        len: Some(len),
    })
}

fn latest_stable(v: &str) -> CodexLatestReleases {
    CodexLatestReleases {
        stable: Some(SemanticVersion::parse(v).unwrap()),
        ..Default::default()
    }
}

#[test]
fn update_advisory_detects_newer_release() {
    let capabilities = caps(Some("codex 1.0.0"), None, "codex");
    let latest = latest_stable("1.1.0");
    let advisory = update_advisory_from_capabilities(&capabilities, &latest);
    assert_eq!(advisory.status, CodexUpdateStatus::UpdateRecommended);
    assert!(advisory.is_update_recommended());
    assert_eq!(
        advisory.latest_release.as_ref().map(|release| release.version.to_text()),
        Some("1.1.0".to_string())
    );
}

#[test]
fn update_advisory_handles_unknown_local_version() {
    let capabilities = caps(None, None, "codex");
    let latest = latest_stable("3.2.1");
    let advisory = update_advisory_from_capabilities(&capabilities, &latest);
    assert_eq!(advisory.status, CodexUpdateStatus::UnknownLocalVersion);
    assert!(advisory.is_update_recommended());
    assert!(advisory.notes.iter().any(|note| note.contains("could not be parsed")));
}

#[test]
fn update_advisory_marks_up_to_date() {
    let capabilities = caps(Some("codex 2.0.1"), None, "codex");
    let advisory = update_advisory_from_capabilities(&capabilities, &latest_stable("2.0.1"));
    assert_eq!(advisory.status, CodexUpdateStatus::UpToDate);
    assert!(!advisory.is_update_recommended());
}

#[test]
fn update_advisory_falls_back_when_channel_missing() {
    let capabilities = caps(Some("codex 2.0.0-beta"), None, "codex");
    let advisory = update_advisory_from_capabilities(&capabilities, &latest_stable("2.0.1"));
    assert_eq!(advisory.comparison_channel, CodexReleaseChannel::Stable);
    assert_eq!(advisory.status, CodexUpdateStatus::UpdateRecommended);
    assert!(advisory.notes.iter().any(|note| note.contains("comparing against stable")));
}

#[test]
fn update_advisory_handles_local_newer_than_known() {
    let capabilities = caps(Some("codex 2.0.0"), None, "codex");
    let advisory = update_advisory_from_capabilities(&capabilities, &latest_stable("1.9.9"));
    assert_eq!(advisory.status, CodexUpdateStatus::LocalNewerThanKnown);
    assert!(!advisory.is_update_recommended());
    assert!(advisory.notes.iter().any(|note| note.contains("newer than provided")));
}

#[test]
fn update_advisory_handles_missing_latest_metadata() {
    let capabilities = caps(Some("codex 1.0.0"), None, "codex");
    let advisory = update_advisory_from_capabilities(&capabilities, &CodexLatestReleases::default());
    assert_eq!(advisory.status, CodexUpdateStatus::UnknownLatestVersion);
    assert!(!advisory.is_update_recommended());
    assert!(advisory.notes.iter().any(|note| note.contains("advisory unavailable")));
}

#[test]
fn semantic_versions_parse_and_order() {
    let a = SemanticVersion::parse("1.2.3-beta.1").unwrap();
    assert_eq!((a.major(), a.minor(), a.patch()), (1, 2, 3));
    assert_eq!(a.pre(), "beta.1");
    assert_eq!(a.to_text(), "1.2.3-beta.1");
    assert!(SemanticVersion::parse("not a version").is_none());
    assert_eq!(SemanticVersion::new(4, 5, 6).to_text(), "4.5.6");
}

#[test]
fn parses_features_from_json_and_text() {
    let json = r#"{"features":["output_schema","add_dir"],"mcp_login":true}"#;
    let parsed_json = parse_features_from_json(json).unwrap();
    assert!(parsed_json.supports_output_schema);
    assert!(parsed_json.supports_add_dir);
    assert!(parsed_json.supports_mcp_login);

    let text = "Features: output-schema add-dir login --mcp";
    let parsed_text = parse_features_from_text(text);
    assert!(parsed_text.supports_output_schema);
    assert!(parsed_text.supports_add_dir);
    assert!(parsed_text.supports_mcp_login);
}

#[test]
fn json_model_follows_serde_json() {
    match parse_json("{\"b\":[1,true,null],\"a\":\"x\"}") {
        Some(JsonValue::Object(members)) => {
            let keys: Vec<&str> = members.iter().map(|(k, _)| k.as_str()).collect();
            assert_eq!(keys, vec!["a", "b"]);
        }
        other => panic!("unexpected {other:?}"),
    }
    assert!(parse_json("{oops").is_none());
}

#[test]
fn capability_cache_stores_gets_and_clears() {
    let mut cache = CapabilityCache::new();
    cache.update(caps(None, fp(10), "/bin/codex"));
    cache.update(caps(None, None, "/bin/unfingerprinted"));
    let key = CapabilityCacheKey { binary_path: "/bin/codex".to_string() };
    assert_eq!(capability_cache_entries(&cache).len(), 1);
    assert!(capability_cache_entry(&cache, &key).is_some());
    assert!(cache.cached_capabilities(&key, &fp(10)).is_some());
    assert!(cache.cached_capabilities(&key, &fp(11)).is_none());
    assert!(clear_capability_cache_entry(&mut cache, &key));
    assert!(!clear_capability_cache_entry(&mut cache, &key));
    cache.update(caps(None, fp(10), "/bin/codex"));
    clear_capability_cache(&mut cache);
    assert!(capability_cache_entries(&cache).is_empty());
}

#[test]
fn capability_snapshot_match_checks_fingerprint() {
    let snapshot = caps(None, fp(10), "/bin/codex");
    let key = CapabilityCacheKey { binary_path: "/bin/codex".to_string() };
    assert!(capability_snapshot_matches_binary(&snapshot, &key, &fp(10)));
    assert!(!capability_snapshot_matches_binary(&snapshot, &key, &fp(11)));
    assert!(!capability_snapshot_matches_binary(&snapshot, &key, &None));
    let other = CapabilityCacheKey { binary_path: "/bin/other".to_string() };
    assert!(!capability_snapshot_matches_binary(&snapshot, &other, &fp(10)));
}

#[test]
fn paths_compare_by_component() {
    assert!(same_path("/a//b/", "/a/b"));
    assert!(same_path("a/./b", "a/b"));
    assert!(same_path("./a", "./a/"));
    assert!(!same_path("./a", "a"));
    assert!(!same_path("/a", "a"));
    assert!(!same_path("/a/b", "/a/c"));
    assert!(same_path("", ""));
}

#[test]
fn cache_key_matches_equivalent_path() {
    let mut cache = CapabilityCache::new();
    cache.update(caps(None, fp(10), "/tmp/codex"));
    let spelled = CapabilityCacheKey { binary_path: "/tmp//codex/".to_string() };
    assert!(capability_cache_entry(&cache, &spelled).is_some());
    assert!(cache.cached_capabilities(&spelled, &fp(10)).is_some());
    cache.update(caps(None, fp(11), "/tmp/./codex"));
    assert_eq!(capability_cache_entries(&cache).len(), 1);
    let snapshot = caps(None, fp(10), "/bin/codex");
    let key = CapabilityCacheKey { binary_path: "/bin//codex".to_string() };
    assert!(capability_snapshot_matches_binary(&snapshot, &key, &fp(10)));
    let mut other_path = fp(10).unwrap();
    other_path.canonical_path = Some("/bin/./codex/".to_string());
    assert!(capability_snapshot_matches_binary(&snapshot, &key, &Some(other_path)));
}

#[test]
fn snapshot_format_from_extension() {
    assert_eq!(CapabilitySnapshotFormat::from_extension("JSON"), Some(CapabilitySnapshotFormat::Json));
    assert_eq!(CapabilitySnapshotFormat::from_extension("toml"), Some(CapabilitySnapshotFormat::Toml));
    assert_eq!(CapabilitySnapshotFormat::from_extension("yaml"), None);
}

#[test]
fn feature_overrides_mirror_and_enable() {
    let mut flags = CodexFeatureFlags::default();
    flags.supports_add_dir = true;
    let mirrored = CapabilityFeatureOverrides::from_flags(flags);
    assert_eq!(mirrored.supports_add_dir, Some(true));
    assert_eq!(mirrored.supports_output_schema, Some(false));
    let enabling = CapabilityFeatureOverrides::enabling(flags);
    assert_eq!(enabling.supports_add_dir, Some(true));
    assert_eq!(enabling.supports_output_schema, None);
    assert!(!enabling.is_empty());
    assert!(CapabilityFeatureOverrides::default().is_empty());
}

#[test]
fn prober_walks_stages() {
    let mut prober = CapabilityProber::new();
    assert_eq!(prober.next_args(), Some(vec!["--version".to_string()]));
    prober.record(ProbeOutcome::Finished { success: true, text: "codex 1.2.3".to_string() });
    assert_eq!(prober.stage, ProbeStage::FeaturesJson);
    assert!(prober.version.is_some());
    prober.record(ProbeOutcome::Finished {
        success: true,
        text: "{\"features\":[\"output_schema\"]}".to_string(),
    });
    assert!(prober.features.supports_output_schema);
    assert!(prober.steps.contains(&CapabilityProbeStep::VersionFlag));
    assert_eq!(command_output_text("out  \n", "err\n"), "out\nerr");
    assert_eq!(command_output_text("", "err\n"), "err");
}

#[test]
fn cloud_requests_build_arguments() {
    let list = CloudListRequest::new().env_id("env-1").limit(5).json(true);
    assert_eq!(
        cloud_list_args(&list),
        vec!["cloud", "list", "--env", "env-1", "--limit", "5", "--json"]
            .into_iter()
            .map(String::from)
            .collect::<Vec<_>>()
    );
    assert!(matches!(
        cloud_status_args(&CloudStatusRequest::new("  ")),
        Err(RequestError::EmptyTaskId)
    ));
    assert_eq!(
        cloud_status_args(&CloudStatusRequest::new(" t1 ")).unwrap(),
        vec!["cloud".to_string(), "status".to_string(), "t1".to_string()]
    );
}

#[test]
fn responses_proxy_launch_and_retries() {
    assert!(matches!(
        responses_api_proxy_launch(&ResponsesApiProxyRequest::new("  ")),
        Err(RequestError::EmptyApiKey)
    ));
    let request = ResponsesApiProxyRequest::new(" sk-1 ")
        .port(8080)
        .server_info("/tmp/info.json")
        .http_shutdown(true)
        .upstream_url("  ");
    assert!(request.upstream_url.is_none());
    let launch = responses_api_proxy_launch(&request).unwrap();
    assert_eq!(launch.api_key, "sk-1");
    assert_eq!(
        launch.args,
        vec!["responses-api-proxy", "--port", "8080", "--server-info", "/tmp/info.json", "--http-shutdown"]
            .into_iter()
            .map(String::from)
            .collect::<Vec<_>>()
    );
    assert_eq!(server_info_step(0, ServerInfoAttempt::Missing), ServerInfoStep::Retry);
    assert_eq!(server_info_step(9, ServerInfoAttempt::Missing), ServerInfoStep::FailRead);
    assert_eq!(server_info_step(9, ServerInfoAttempt::ParseFailed), ServerInfoStep::FailParse);
    assert_eq!(server_info_step(3, ServerInfoAttempt::ReadFailed), ServerInfoStep::FailRead);
    assert_eq!(server_info_step(3, ServerInfoAttempt::Parsed), ServerInfoStep::Done);
}

#[test]
fn mcp_requests_filter_scopes_and_bearer_vars() {
    let login = McpOauthLoginRequest::new("srv")
        .scopes(vec!["read".to_string(), "  ".to_string(), "write".to_string()]);
    assert_eq!(login.scopes, vec!["read".to_string(), "write".to_string()]);
    let add = McpAddRequest::streamable_http("srv", "https://x").bearer_token_env_var(" ");
    match add.transport {
        McpAddTransport::StreamableHttp { bearer_token_env_var, .. } => assert!(bearer_token_env_var.is_none()),
        _ => panic!("expected http"),
    }
    let add = McpAddRequest::stdio("srv", vec!["run".to_string()]).env("K", "V");
    match add.transport {
        McpAddTransport::Stdio { env, .. } => assert_eq!(env, vec![("K".to_string(), "V".to_string())]),
        _ => panic!("expected stdio"),
    }
}

#[test]
fn event_labels_map_to_statuses() {
    assert_eq!(ItemStatus::from_label("completed"), ItemStatus::Completed);
    assert_eq!(ItemStatus::from_label("weird"), ItemStatus::Unknown);
    assert_eq!(ItemStatus::default(), ItemStatus::InProgress);
    assert_eq!(FileChangeKind::from_label("apply"), FileChangeKind::Apply);
    assert_eq!(ToolCallStatus::from_label("running"), ToolCallStatus::Running);
    assert_eq!(ToolCallStatus::default(), ToolCallStatus::Pending);
    assert_eq!(WebSearchStatus::from_label("failed"), WebSearchStatus::Failed);
}

#[test]
fn feature_stage_labels_parse_back_to_the_same_stage() {
    for raw in ["  BETA ", "Stable", "experimental", "DePrecated", "removed", "  preview-2 "] {
        let stage = CodexFeatureStage::parse(raw);
        let again = CodexFeatureStage::parse(stage.as_str());
        assert_eq!(again.as_str(), stage.as_str());
    }
    assert!(matches!(CodexFeatureStage::parse("  BETA "), CodexFeatureStage::Beta));
    assert!(matches!(CodexFeatureStage::parse(" preview "), CodexFeatureStage::Unknown(ref l) if l == "preview"));
    let feature = CodexFeature {
        name: "web_search".into(),
        stage: Some(CodexFeatureStage::Stable),
        enabled: true,
        extra: Vec::new(),
    };
    assert!(feature.is_enabled());
}

#[test]
fn cloud_list_reads_json_output_only_when_asked() {
    let plain = CloudListRequest::new();
    assert!(matches!(cloud_list_json(&plain, "not json"), Ok(None)));
    let json = CloudListRequest::new().json(true);
    match cloud_list_json(&json, r#"{"tasks":[]}"#) {
        Ok(Some(JsonValue::Object(members))) => assert_eq!(members[0].0, "tasks"),
        other => panic!("unexpected {other:?}"),
    }
    match cloud_list_json(&json, "oops") {
        Err(e) => assert_eq!(e.stdout, "oops"),
        other => panic!("unexpected {other:?}"),
    }
}

#[test]
fn failed_version_probe_leaves_version_unset() {
    let mut prober = CapabilityProber::new();
    prober.record(ProbeOutcome::Finished { success: false, text: "codex 1.2.3".to_string() });
    assert!(prober.version.is_none());
    assert_eq!(prober.stage, ProbeStage::FeaturesJson);
    let mut prober = CapabilityProber::new();
    prober.record(ProbeOutcome::Failed);
    assert!(prober.version.is_none());
}
